//! What a running program can ask about a type, given the type itself.
use vstd::prelude::*;

use crate::ast::FieldDef;
use crate::reflection::{new_info, FieldInfo, FieldInfoV, TypeInfo, TypeInfoV};
use crate::state::{Mono, MonoV};
use crate::table::views;
use crate::text::{maybe_text, same_text, text};
use crate::type_names::name_of;
use crate::type_rules::contains_secret;
use crate::types::{dup_ids, ty, NamedType, NamedTypeV, Type, TypeId, TypeInterner, Types};

verus! {

/// The kind of a type, in one word.
pub open spec fn kind_word(t: Type) -> Seq<char> {
    match t {
        Type::List(_) => "list"@,
        Type::MapOf(_, _) => "map"@,
        Type::SetOf(_) => "set"@,
        Type::Optional(_) => "optional"@,
        Type::Result(_, _) => "result"@,
        Type::Secret(_) => "secret"@,
        Type::Struct(_) => "struct"@,
        Type::Bitfield(_) => "bitfield"@,
        Type::Enum(_) => "enum"@,
        Type::Function(_) => "function"@,
        Type::Refinement(_) => "refinement"@,
        Type::Machine(_) => "machine"@,
        Type::MachineState { machine, state } => "machine_state"@,
        Type::Interface(_) | Type::Actor(_) | Type::Error => "unknown"@,
        _ => "primitive"@,
    }
}

/// The kind of a type, as a variant of `TypeKind`.
pub open spec fn kind_tag(t: Type) -> Seq<char> {
    match t {
        Type::List(_) => "list_type"@,
        Type::MapOf(_, _) => "map_type"@,
        Type::SetOf(_) => "set_type"@,
        Type::Optional(_) => "optional_type"@,
        Type::Result(_, _) => "result_type"@,
        Type::Secret(_) => "secret_type"@,
        Type::Struct(_) => "struct_type"@,
        Type::Bitfield(_) => "bitfield_type"@,
        Type::Enum(_) => "enum_type"@,
        Type::Function(_) => "function_type"@,
        Type::Refinement(_) => "refinement_type"@,
        Type::Machine(_) => "machine_type"@,
        Type::MachineState { machine, state } => "machine_state_type"@,
        Type::Interface(_) | Type::Actor(_) | Type::Error => "unknown_type"@,
        _ => "primitive_type"@,
    }
}

/// A primitive type, as a variant of `TypePrimitive`.
pub open spec fn primitive_tag(t: Type) -> Option<Seq<char>> {
    match t {
        Type::Int8 => Some("int8_type"@),
        Type::Int16 => Some("int16_type"@),
        Type::Int32 => Some("int32_type"@),
        Type::Int64 => Some("int64_type"@),
        Type::Uint8 => Some("uint8_type"@),
        Type::Uint16 => Some("uint16_type"@),
        Type::Uint32 => Some("uint32_type"@),
        Type::Uint64 => Some("uint64_type"@),
        Type::Float32 => Some("float32_type"@),
        Type::Float64 => Some("float64_type"@),
        Type::String => Some("string_type"@),
        Type::Bool => Some("bool_type"@),
        Type::Bytes => Some("bytes_type"@),
        Type::Nothing => Some("nothing_type"@),
        Type::TypeConstruction => Some("type_construction_type"@),
        _ => None,
    }
}

/// The primitive type of that name.
pub open spec fn primitive_named(name: Seq<char>) -> Option<Type> {
    if name == "int8"@ {
        Some(Type::Int8)
    } else if name == "int16"@ {
        Some(Type::Int16)
    } else if name == "int32"@ {
        Some(Type::Int32)
    } else if name == "int64"@ {
        Some(Type::Int64)
    } else if name == "uint8"@ {
        Some(Type::Uint8)
    } else if name == "uint16"@ {
        Some(Type::Uint16)
    } else if name == "uint32"@ {
        Some(Type::Uint32)
    } else if name == "uint64"@ {
        Some(Type::Uint64)
    } else if name == "float32"@ {
        Some(Type::Float32)
    } else if name == "float64"@ {
        Some(Type::Float64)
    } else if name == "string"@ {
        Some(Type::String)
    } else if name == "bool"@ {
        Some(Type::Bool)
    } else if name == "bytes"@ {
        Some(Type::Bytes)
    } else if name == "nothing"@ {
        Some(Type::Nothing)
    } else if name == "TypeConstruction"@ {
        Some(Type::TypeConstruction)
    } else {
        None
    }
}

/// The id of the primitive type of that name.
pub open spec fn primitive_id(t: Type) -> TypeId {
    match t {
        Type::Int8 => TypeInterner::INT8,
        Type::Int16 => TypeInterner::INT16,
        Type::Int32 => TypeInterner::INT32,
        Type::Int64 => TypeInterner::INT64,
        Type::Uint8 => TypeInterner::UINT8,
        Type::Uint16 => TypeInterner::UINT16,
        Type::Uint32 => TypeInterner::UINT32,
        Type::Uint64 => TypeInterner::UINT64,
        Type::Float32 => TypeInterner::FLOAT32,
        Type::Float64 => TypeInterner::FLOAT64,
        Type::String => TypeInterner::STRING,
        Type::Bool => TypeInterner::BOOL,
        Type::Bytes => TypeInterner::BYTES,
        Type::Nothing => TypeInterner::NOTHING,
        Type::TypeConstruction => TypeInterner::TYPE_CONSTRUCTION,
        _ => TypeInterner::ERROR,
    }
}

/// The type arguments that a generic struct became `id` with, looking from `i` on.
pub open spec fn mono_args(monos: Seq<MonoV>, id: TypeId, i: nat) -> Option<Seq<TypeId>>
    decreases monos.len() - i,
{
    if i >= monos.len() {
        None
    } else if monos[i as int].ty == id {
        Some(monos[i as int].args)
    } else {
        mono_args(monos, id, i + 1)
    }
}

/// The type arguments of a type.
pub open spec fn type_args(ts: Types, monos: Seq<MonoV>, id: TypeId) -> Seq<TypeId> {
    match mono_args(monos, id, 0) {
        Some(args) => args,
        None => match ty(ts, id) {
            Type::List(x) => seq![x],
            Type::SetOf(x) => seq![x],
            Type::Optional(x) => seq![x],
            Type::Secret(x) => seq![x],
            Type::MapOf(k, v) => seq![k, v],
            Type::Result(k, v) => seq![k, v],
            Type::Refinement(r) => seq![ts.refinements[r.0 as int].base],
            Type::Function(f) => ts.functions[f.0 as int].params.push(
                ts.functions[f.0 as int].return_type,
            ),
            _ => seq![],
        },
    }
}

/// What is told of a type under the name `name`. The arguments of a type are
/// older than the type.
pub open spec fn info_named(ts: Types, monos: Seq<MonoV>, id: TypeId, name: Seq<char>) -> TypeInfoV
    decreases id, 1nat,
{
    TypeInfoV {
        name,
        kind: kind_word(ty(ts, id)),
        primitive_tag: primitive_tag(ty(ts, id)),
        has_secret: contains_secret(ts, id),
        args: args_info(ts, monos, id),
    }
}

pub open spec fn args_info(ts: Types, monos: Seq<MonoV>, id: TypeId) -> Seq<TypeInfoV>
    decreases id, 0nat,
{
    let args = type_args(ts, monos, id);
    Seq::new(
        args.len(),
        |k: int|
            if 0 <= k < args.len() && args[k] < id {
                info_named(ts, monos, args[k], name_of(ts, args[k]))
            } else {
                bare_info(ts, args[k])
            },
    )
}

pub open spec fn bare_info(ts: Types, id: TypeId) -> TypeInfoV {
    TypeInfoV {
        name: name_of(ts, id),
        kind: kind_word(ty(ts, id)),
        primitive_tag: primitive_tag(ty(ts, id)),
        has_secret: contains_secret(ts, id),
        args: Seq::empty(),
    }
}

/// What is told of a type.
pub open spec fn type_info(ts: Types, monos: Seq<MonoV>, id: TypeId) -> TypeInfoV {
    info_named(ts, monos, id, name_of(ts, id))
}

/// The name that a field goes by in JSON.
pub open spec fn serialized_name(f: FieldDef) -> Seq<char> {
    match f.serialize_name {
        Some(n) => n@,
        None => f.name.name@,
    }
}

pub fn serialize_name(f: &FieldDef) -> (r: String)
    ensures
        r@ == serialized_name(*f),
{
    match &f.serialize_name {
        Some(n) => n.clone(),
        None => f.name.name.clone(),
    }
}

pub open spec fn shorter(a: nat, b: nat) -> nat {
    if a < b {
        a
    } else {
        b
    }
}

/// What is told of the fields of a struct whose field types are known.
pub open spec fn fields_info(
    ts: Types,
    monos: Seq<MonoV>,
    defs: Seq<FieldDef>,
    fields: Seq<NamedTypeV>,
) -> Seq<FieldInfoV> {
    Seq::new(
        shorter(defs.len(), fields.len()),
        |i: int|
            FieldInfoV {
                index: i as usize,
                name: defs[i].name.name@,
                serialize_name: serialized_name(defs[i]),
                type_info: type_info(ts, monos, fields[i].ty),
            },
    )
}

pub fn kind_of(t: Type) -> (r: &'static str)
    ensures
        r@ == kind_word(t),
{
    match t {
        Type::List(_) => "list",
        Type::MapOf(_, _) => "map",
        Type::SetOf(_) => "set",
        Type::Optional(_) => "optional",
        Type::Result(_, _) => "result",
        Type::Secret(_) => "secret",
        Type::Struct(_) => "struct",
        Type::Bitfield(_) => "bitfield",
        Type::Enum(_) => "enum",
        Type::Function(_) => "function",
        Type::Refinement(_) => "refinement",
        Type::Machine(_) => "machine",
        Type::MachineState { machine, state } => "machine_state",
        Type::Interface(_) | Type::Actor(_) | Type::Error => "unknown",
        _ => "primitive",
    }
}

pub fn kind_tag_of(t: Type) -> (r: &'static str)
    ensures
        r@ == kind_tag(t),
{
    match t {
        Type::List(_) => "list_type",
        Type::MapOf(_, _) => "map_type",
        Type::SetOf(_) => "set_type",
        Type::Optional(_) => "optional_type",
        Type::Result(_, _) => "result_type",
        Type::Secret(_) => "secret_type",
        Type::Struct(_) => "struct_type",
        Type::Bitfield(_) => "bitfield_type",
        Type::Enum(_) => "enum_type",
        Type::Function(_) => "function_type",
        Type::Refinement(_) => "refinement_type",
        Type::Machine(_) => "machine_type",
        Type::MachineState { machine, state } => "machine_state_type",
        Type::Interface(_) | Type::Actor(_) | Type::Error => "unknown_type",
        _ => "primitive_type",
    }
}

pub fn primitive_tag_of(t: Type) -> (r: Option<String>)
    ensures
        maybe_text(r) == primitive_tag(t),
{
    match t {
        Type::Int8 => Some(text("int8_type")),
        Type::Int16 => Some(text("int16_type")),
        Type::Int32 => Some(text("int32_type")),
        Type::Int64 => Some(text("int64_type")),
        Type::Uint8 => Some(text("uint8_type")),
        Type::Uint16 => Some(text("uint16_type")),
        Type::Uint32 => Some(text("uint32_type")),
        Type::Uint64 => Some(text("uint64_type")),
        Type::Float32 => Some(text("float32_type")),
        Type::Float64 => Some(text("float64_type")),
        Type::String => Some(text("string_type")),
        Type::Bool => Some(text("bool_type")),
        Type::Bytes => Some(text("bytes_type")),
        Type::Nothing => Some(text("nothing_type")),
        Type::TypeConstruction => Some(text("type_construction_type")),
        _ => None,
    }
}

/// The primitive type of that name.
pub fn primitive_by_name(name: &str) -> (r: Option<Type>)
    ensures
        r == primitive_named(name@),
{
    if same_text(name, "int8") {
        Some(Type::Int8)
    } else if same_text(name, "int16") {
        Some(Type::Int16)
    } else if same_text(name, "int32") {
        Some(Type::Int32)
    } else if same_text(name, "int64") {
        Some(Type::Int64)
    } else if same_text(name, "uint8") {
        Some(Type::Uint8)
    } else if same_text(name, "uint16") {
        Some(Type::Uint16)
    } else if same_text(name, "uint32") {
        Some(Type::Uint32)
    } else if same_text(name, "uint64") {
        Some(Type::Uint64)
    } else if same_text(name, "float32") {
        Some(Type::Float32)
    } else if same_text(name, "float64") {
        Some(Type::Float64)
    } else if same_text(name, "string") {
        Some(Type::String)
    } else if same_text(name, "bool") {
        Some(Type::Bool)
    } else if same_text(name, "bytes") {
        Some(Type::Bytes)
    } else if same_text(name, "nothing") {
        Some(Type::Nothing)
    } else if same_text(name, "TypeConstruction") {
        Some(Type::TypeConstruction)
    } else {
        None
    }
}

pub fn id_of_primitive(t: Type) -> (r: TypeId)
    ensures
        r == primitive_id(t),
{
    match t {
        Type::Int8 => TypeInterner::INT8,
        Type::Int16 => TypeInterner::INT16,
        Type::Int32 => TypeInterner::INT32,
        Type::Int64 => TypeInterner::INT64,
        Type::Uint8 => TypeInterner::UINT8,
        Type::Uint16 => TypeInterner::UINT16,
        Type::Uint32 => TypeInterner::UINT32,
        Type::Uint64 => TypeInterner::UINT64,
        Type::Float32 => TypeInterner::FLOAT32,
        Type::Float64 => TypeInterner::FLOAT64,
        Type::String => TypeInterner::STRING,
        Type::Bool => TypeInterner::BOOL,
        Type::Bytes => TypeInterner::BYTES,
        Type::Nothing => TypeInterner::NOTHING,
        Type::TypeConstruction => TypeInterner::TYPE_CONSTRUCTION,
        _ => TypeInterner::ERROR,
    }
}

impl TypeInterner {
    /// The type arguments of a type.
    pub fn type_info_arg_types_for_type(&self, monos: &Vec<Mono>, id: TypeId) -> (r: Vec<TypeId>)
        ensures
            r@ == type_args(self@, views(monos@), id),
    {
        let mut i: usize = 0;
        while i < monos.len()
            invariant
                i <= monos@.len(),
                mono_args(views(monos@), id, 0) == mono_args(views(monos@), id, i as nat),
            decreases monos@.len() - i,
        {
            if monos[i].ty == id {
                assert(views(monos@)[i as int] == monos@[i as int]@);
                return dup_ids(&monos[i].args);
            }
            assert(views(monos@)[i as int] == monos@[i as int]@);
            i = i + 1;
        }
        let mut ids: Vec<TypeId> = Vec::new();
        match self.resolve(id) {
            Type::List(x) | Type::SetOf(x) | Type::Optional(x) | Type::Secret(x) => {
                ids.push(x);
            },
            Type::MapOf(k, v) | Type::Result(k, v) => {
                ids.push(k);
                ids.push(v);
            },
            Type::Refinement(r) => {
                ids.push(self.resolve_refinement(r).base);
            },
            Type::Function(f) => {
                let shape = self.resolve_function(f);
                ids = dup_ids(&shape.params);
                ids.push(shape.return_type);
            },
            _ => {},
        }
        assert(ids@ =~= type_args(self@, views(monos@), id));
        ids
    }

    /// What is told of a type under the name `name`.
    pub fn reflection_type_info_for_type_named(
        &self,
        monos: &Vec<Mono>,
        id: TypeId,
        name: String,
    ) -> (r: TypeInfo)
        ensures
            r@ == info_named(self@, views(monos@), id, name@),
        decreases id, 1nat,
    {
        let args = self.reflection_args(monos, id);
        let t = self.resolve(id);
        new_info(
            name,
            text(kind_of(t)),
            primitive_tag_of(t),
            self.type_contains_secret_data(id),
            args,
        )
    }

    pub fn reflection_args(&self, monos: &Vec<Mono>, id: TypeId) -> (r: Vec<TypeInfo>)
        ensures
            views(r@) == args_info(self@, views(monos@), id),
        decreases id, 0nat,
    {
        let ids = self.type_info_arg_types_for_type(monos, id);
        let mut r: Vec<TypeInfo> = Vec::new();
        let ghost all = args_info(self@, views(monos@), id);
        let mut i: usize = 0;
        while i < ids.len()
            invariant
                i <= ids@.len(),
                ids@ == type_args(self@, views(monos@), id),
                all == args_info(self@, views(monos@), id),
                r@.len() == i,
                forall|k: int| 0 <= k < i ==> (#[trigger] r@[k])@ == all[k],
            decreases ids@.len() - i,
        {
            let arg: usize = ids[i];
            let name = self.name_of(arg);
            if arg < id {
                r.push(self.reflection_type_info_for_type_named(monos, arg, name));
            } else {
                let t = self.resolve(arg);
                let none: Vec<TypeInfo> = Vec::new();
                assert(views(none@) =~= Seq::<TypeInfoV>::empty());
                r.push(
                    new_info(
                        name,
                        text(kind_of(t)),
                        primitive_tag_of(t),
                        self.type_contains_secret_data(arg),
                        none,
                    ),
                );
            }
            i = i + 1;
        }
        assert(views(r@) =~= all);
        r
    }

    /// What is told of a type.
    pub fn reflection_type_info_for_type(&self, monos: &Vec<Mono>, id: TypeId) -> (r: TypeInfo)
        ensures
            r@ == type_info(self@, views(monos@), id),
    {
        self.reflection_type_info_for_type_named(monos, id, self.name_of(id))
    }

    /// What is told of the fields of a struct whose field types are known.
    pub fn reflection_fields_for_resolved_struct(
        &self,
        monos: &Vec<Mono>,
        defs: &Vec<FieldDef>,
        fields: &Vec<NamedType>,
    ) -> (r: Vec<FieldInfo>)
        ensures
            views(r@) == fields_info(self@, views(monos@), defs@, views(fields@)),
    {
        let ghost all = fields_info(self@, views(monos@), defs@, views(fields@));
        let mut r: Vec<FieldInfo> = Vec::new();
        let mut i: usize = 0;
        while i < defs.len() && i < fields.len()
            invariant
                i <= defs@.len(),
                i <= fields@.len(),
                all == fields_info(self@, views(monos@), defs@, views(fields@)),
                r@.len() == i,
                forall|k: int| 0 <= k < i ==> (#[trigger] r@[k])@ == all[k],
            decreases defs@.len() - i,
        {
            let type_info = self.reflection_type_info_for_type(monos, fields[i].ty);
            r.push(
                FieldInfo {
                    index: i,
                    name: defs[i].name.name.clone(),
                    serialize_name: serialize_name(&defs[i]),
                    type_info,
                },
            );
            i = i + 1;
        }
        assert(views(r@) =~= all);
        r
    }
}

} // verus!
