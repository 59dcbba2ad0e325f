//! The types through which programs look at types.
use vstd::prelude::*;

use crate::made::{made, nothing_made};
use crate::resolution::{Names, ResolveResult};
use crate::state::{blank_state, intern_type, State, TypeChecker};
use crate::steady::{has, has_fields, known};
use crate::table::views;
use crate::text::text;
use crate::types::{
    basic_types, put_at, EnumId, EnumShape, EnumShapeV, NamedType, NamedTypeV, StructId, StructShape,
    StructShapeV, Type, TypeId, TypeInterner, Types, VariantShape, VariantShapeV,
};

verus! {

broadcast use crate::steady::group_steady;

/// Variants without fields, numbered in order.
pub open spec fn unit_variants(names: Seq<Seq<char>>) -> Seq<VariantShapeV> {
    Seq::new(
        names.len(),
        |i: int| VariantShapeV { name: names[i], fields: Seq::empty(), discriminant: i as i64 },
    )
}

/// Declares an enum of variants without fields.
pub open spec fn install_enum(s: State, name: Seq<char>, names: Seq<Seq<char>>) -> (State, TypeId) {
    let id = EnumId(s.types.enums.len() as usize);
    let def = EnumShapeV { name, variants: unit_variants(names) };
    let (s1, t) = intern_type(
        State { types: Types { enums: s.types.enums.push(def), ..s.types }, ..s },
        Type::Enum(id),
    );
    (State { named_types: s1.named_types.insert(name, t), ..s1 }, t)
}

/// Declares a struct.
pub open spec fn install_struct(s: State, name: Seq<char>, fields: Seq<NamedTypeV>) -> (State, TypeId) {
    let id = StructId(s.types.structs.len() as usize);
    let def = StructShapeV { name, fields, methods: Seq::empty() };
    let (s1, t) = intern_type(
        State { types: Types { structs: s.types.structs.push(def), ..s.types }, ..s },
        Type::Struct(id),
    );
    (State { named_types: s1.named_types.insert(name, t), ..s1 }, t)
}

pub open spec fn part(name: Seq<char>, ty: TypeId) -> NamedTypeV {
    NamedTypeV { name, ty }
}

pub open spec fn kind_names() -> Seq<Seq<char>> {
    seq![
        "primitive_type"@,
        "alias_type"@,
        "refinement_type"@,
        "struct_type"@,
        "bitfield_type"@,
        "enum_type"@,
        "list_type"@,
        "set_type"@,
        "map_type"@,
        "optional_type"@,
        "result_type"@,
        "secret_type"@,
        "function_type"@,
        "machine_type"@,
        "machine_state_type"@,
        "unknown_type"@,
    ]
}

pub open spec fn primitive_names() -> Seq<Seq<char>> {
    seq![
        "int8_type"@,
        "int16_type"@,
        "int32_type"@,
        "int64_type"@,
        "uint8_type"@,
        "uint16_type"@,
        "uint32_type"@,
        "uint64_type"@,
        "float32_type"@,
        "float64_type"@,
        "string_type"@,
        "bool_type"@,
        "bytes_type"@,
        "nothing_type"@,
        "type_construction_type"@,
        "unknown_type"@,
    ]
}

pub open spec fn slot_shape_names() -> Seq<Seq<char>> {
    seq!["bits_field"@, "payload_field"@]
}

/// The fields of `TypeInfo`.
pub open spec fn info_parts(kinds: TypeId, maybe_primitive: TypeId, infos: TypeId) -> Seq<NamedTypeV> {
    seq![
        part("type_name"@, TypeInterner::STRING),
        part("kind"@, TypeInterner::STRING),
        part("kind_tag"@, kinds),
        part("primitive_tag"@, maybe_primitive),
        part("has_secret"@, TypeInterner::BOOL),
        part("args"@, infos),
    ]
}

/// The fields of `TypeField`.
pub open spec fn field_parts(maybe_string: TypeId, kinds: TypeId, info: TypeId) -> Seq<NamedTypeV> {
    seq![
        part("index"@, TypeInterner::INT64),
        part("owner_type"@, TypeInterner::STRING),
        part("owner_member"@, maybe_string),
        part("name"@, TypeInterner::STRING),
        part("type_name"@, TypeInterner::STRING),
        part("kind"@, TypeInterner::STRING),
        part("kind_tag"@, kinds),
        part("serialize_name"@, TypeInterner::STRING),
        part("has_secret"@, TypeInterner::BOOL),
        part("type_info"@, info),
    ]
}

/// The fields of `TypeBitfieldField`.
pub open spec fn slot_parts(shapes: TypeId, info: TypeId, maybe_info: TypeId) -> Seq<NamedTypeV> {
    seq![
        part("index"@, TypeInterner::INT64),
        part("name"@, TypeInterner::STRING),
        part("shape"@, TypeInterner::STRING),
        part("shape_tag"@, shapes),
        part("width"@, TypeInterner::INT64),
        part("type_info"@, info),
        part("enum_type"@, maybe_info),
    ]
}

/// The fields of `TypeBitfield`.
pub open spec fn bitfield_parts(slots: TypeId) -> Seq<NamedTypeV> {
    seq![
        part("network_order"@, TypeInterner::BOOL),
        part("fields"@, slots),
    ]
}

/// The fields of `TypeVariant`.
pub open spec fn variant_parts(fields: TypeId) -> Seq<NamedTypeV> {
    seq![
        part("index"@, TypeInterner::INT64),
        part("owner_type"@, TypeInterner::STRING),
        part("name"@, TypeInterner::STRING),
        part("discriminant"@, TypeInterner::INT64),
        part("has_secret"@, TypeInterner::BOOL),
        part("fields"@, fields),
    ]
}

/// The fields of `TypeMachineState`.
pub open spec fn state_parts(more_fields: TypeId) -> Seq<NamedTypeV> {
    seq![
        part("index"@, TypeInterner::INT64),
        part("owner_type"@, TypeInterner::STRING),
        part("name"@, TypeInterner::STRING),
        part("has_secret"@, TypeInterner::BOOL),
        part("fields"@, more_fields),
    ]
}

/// The fields of `TypeMachineTransition`.
pub open spec fn edge_parts() -> Seq<NamedTypeV> {
    seq![
        part("index"@, TypeInterner::INT64),
        part("source_index"@, TypeInterner::INT64),
        part("source"@, TypeInterner::STRING),
        part("target_index"@, TypeInterner::INT64),
        part("target"@, TypeInterner::STRING),
    ]
}

/// The fields of `TypeMachine`.
pub open spec fn machine_parts(states: TypeId, edges: TypeId) -> Seq<NamedTypeV> {
    seq![
        part("states"@, states),
        part("edges"@, edges),
    ]
}

/// Declares `TypeInfo`, whose values hold further values of it.
pub open spec fn install_info(s: State, kinds: TypeId, primitives: TypeId) -> (State, TypeId) {
    let name = "TypeInfo"@;
    let id = StructId(s.types.structs.len() as usize);
    let def = StructShapeV { name, fields: Seq::empty(), methods: Seq::empty() };
    let s1 = State { types: Types { structs: s.types.structs.push(def), ..s.types }, ..s };
    let (s2, info) = intern_type(s1, Type::Struct(id));
    let (s3, infos) = intern_type(s2, Type::List(info));
    let (s4, maybe_primitive) = intern_type(s3, Type::Optional(primitives));
    let full = StructShapeV {
        name,
        fields: info_parts(kinds, maybe_primitive, infos),
        methods: Seq::empty(),
    };
    let s5 = State {
        types: Types { structs: put_at(s4.types.structs, id.0, full), ..s4.types },
        named_types: s4.named_types.insert(name, info),
        ..s4
    };
    (s5, info)
}

/// Declares the types that describe fields and bitfields.
pub open spec fn install_fields(s: State, kinds: TypeId, shapes: TypeId, info: TypeId) -> (
    State,
    TypeId,
) {
    let (s1, maybe_string) = intern_type(s, Type::Optional(TypeInterner::STRING));
    let (s2, field) = install_struct(s1, "TypeField"@, field_parts(maybe_string, kinds, info));
    let (s3, maybe_info) = intern_type(s2, Type::Optional(info));
    let (s4, slot) = install_struct(s3, "TypeBitfieldField"@, slot_parts(shapes, info, maybe_info));
    let (s5, slots) = intern_type(s4, Type::List(slot));
    let (s6, _) = install_struct(s5, "TypeBitfield"@, bitfield_parts(slots));
    (s6, field)
}

/// Declares the types that describe variants and machines.
pub open spec fn install_owners(s: State, field: TypeId) -> State {
    let (s1, fields) = intern_type(s, Type::List(field));
    let (s2, _) = install_struct(s1, "TypeVariant"@, variant_parts(fields));
    let (s3, more_fields) = intern_type(s2, Type::List(field));
    let (s4, state) = install_struct(s3, "TypeMachineState"@, state_parts(more_fields));
    let (s5, edge) = install_struct(s4, "TypeMachineTransition"@, edge_parts());
    let (s6, states) = intern_type(s5, Type::List(state));
    let (s7, edges) = intern_type(s6, Type::List(edge));
    install_struct(s7, "TypeMachine"@, machine_parts(states, edges)).0
}

/// Declares all of them.
#[verifier::opaque]
pub open spec fn install_metadata(s: State) -> State {
    let (s1, kinds) = install_enum(s, "TypeKind"@, kind_names());
    let (s2, primitives) = install_enum(s1, "TypePrimitive"@, primitive_names());
    let (s3, shapes) = install_enum(s2, "TypeBitfieldFieldShape"@, slot_shape_names());
    let (s4, info) = install_info(s3, kinds, primitives);
    let (s5, field) = install_fields(s4, kinds, shapes, info);
    install_owners(s5, field)
}

/// The state in which the checking of a module starts.
#[verifier::opaque]
pub open spec fn first_state(names: Names) -> State {
    install_metadata(blank_state(names))
}

fn no_names() -> (r: Vec<String>)
    ensures
        views(r@) == Seq::<Seq<char>>::empty(),
{
    let r: Vec<String> = Vec::new();
    assert(views(r@) =~= Seq::empty());
    r
}

fn with_name(names: Vec<String>, name: &str) -> (r: Vec<String>)
    ensures
        views(r@) == views(names@).push(name@),
{
    let ghost before = views(names@);
    let mut r = names;
    r.push(text(name));
    assert(views(r@) =~= before.push(name@));
    r
}

fn no_parts() -> (r: Vec<NamedType>)
    ensures
        views(r@) == Seq::<NamedTypeV>::empty(),
{
    let r: Vec<NamedType> = Vec::new();
    assert(views(r@) =~= Seq::empty());
    r
}

fn with_part(parts: Vec<NamedType>, name: &str, ty: TypeId) -> (r: Vec<NamedType>)
    ensures
        views(r@) == views(parts@).push(part(name@, ty)),
{
    let ghost before = views(parts@);
    let mut r = parts;
    r.push(NamedType { name: text(name), ty });
    assert(views(r@) =~= before.push(part(name@, ty)));
    r
}

fn metadata_unit_variants(names: &Vec<String>) -> (r: Vec<VariantShape>)
    ensures
        views(r@) == unit_variants(views(names@)),
{
    let mut r: Vec<VariantShape> = Vec::new();
    let mut i: usize = 0;
    while i < names.len()
        invariant
            i <= names@.len(),
            r@.len() == i,
            forall|j: int|
                0 <= j < i ==> (#[trigger] views(r@)[j]) == unit_variants(views(names@))[j],
        decreases names@.len() - i,
    {
        let ghost before = views(r@);
        let v = VariantShape {
            name: names[i].clone(),
            fields: Vec::new(),
            discriminant: #[verifier::truncate] (i as i64),
        };
        let ghost shown = v@;
        r.push(v);
        assert(views(r@) =~= before.push(shown));
        assert(shown.fields =~= Seq::empty());
        assert(shown.name == views(names@)[i as int]);
        i = i + 1;
    }
    assert(views(r@) =~= unit_variants(views(names@)));
    r
}

fn kind_variants() -> (r: Vec<String>)
    ensures
        views(r@) == kind_names(),
{
    let mut v = no_names();
    v = with_name(v, "primitive_type");
    v = with_name(v, "alias_type");
    v = with_name(v, "refinement_type");
    v = with_name(v, "struct_type");
    v = with_name(v, "bitfield_type");
    v = with_name(v, "enum_type");
    v = with_name(v, "list_type");
    v = with_name(v, "set_type");
    v = with_name(v, "map_type");
    v = with_name(v, "optional_type");
    v = with_name(v, "result_type");
    v = with_name(v, "secret_type");
    v = with_name(v, "function_type");
    v = with_name(v, "machine_type");
    v = with_name(v, "machine_state_type");
    v = with_name(v, "unknown_type");
    v
}

fn primitive_variants() -> (r: Vec<String>)
    ensures
        views(r@) == primitive_names(),
{
    let mut v = no_names();
    v = with_name(v, "int8_type");
    v = with_name(v, "int16_type");
    v = with_name(v, "int32_type");
    v = with_name(v, "int64_type");
    v = with_name(v, "uint8_type");
    v = with_name(v, "uint16_type");
    v = with_name(v, "uint32_type");
    v = with_name(v, "uint64_type");
    v = with_name(v, "float32_type");
    v = with_name(v, "float64_type");
    v = with_name(v, "string_type");
    v = with_name(v, "bool_type");
    v = with_name(v, "bytes_type");
    v = with_name(v, "nothing_type");
    v = with_name(v, "type_construction_type");
    v = with_name(v, "unknown_type");
    v
}

fn slot_shape_variants() -> (r: Vec<String>)
    ensures
        views(r@) == slot_shape_names(),
{
    let mut v = no_names();
    v = with_name(v, "bits_field");
    v = with_name(v, "payload_field");
    v
}

fn info_parts_vec(kinds: TypeId, maybe_primitive: TypeId, infos: TypeId) -> (r: Vec<NamedType>)
    ensures
        views(r@) == info_parts(kinds, maybe_primitive, infos),
{
    let mut v = no_parts();
    v = with_part(v, "type_name", TypeInterner::STRING);
    v = with_part(v, "kind", TypeInterner::STRING);
    v = with_part(v, "kind_tag", kinds);
    v = with_part(v, "primitive_tag", maybe_primitive);
    v = with_part(v, "has_secret", TypeInterner::BOOL);
    v = with_part(v, "args", infos);
    v
}

fn field_parts_vec(maybe_string: TypeId, kinds: TypeId, info: TypeId) -> (r: Vec<NamedType>)
    ensures
        views(r@) == field_parts(maybe_string, kinds, info),
{
    let mut v = no_parts();
    v = with_part(v, "index", TypeInterner::INT64);
    v = with_part(v, "owner_type", TypeInterner::STRING);
    v = with_part(v, "owner_member", maybe_string);
    v = with_part(v, "name", TypeInterner::STRING);
    v = with_part(v, "type_name", TypeInterner::STRING);
    v = with_part(v, "kind", TypeInterner::STRING);
    v = with_part(v, "kind_tag", kinds);
    v = with_part(v, "serialize_name", TypeInterner::STRING);
    v = with_part(v, "has_secret", TypeInterner::BOOL);
    v = with_part(v, "type_info", info);
    v
}

fn slot_parts_vec(shapes: TypeId, info: TypeId, maybe_info: TypeId) -> (r: Vec<NamedType>)
    ensures
        views(r@) == slot_parts(shapes, info, maybe_info),
{
    let mut v = no_parts();
    v = with_part(v, "index", TypeInterner::INT64);
    v = with_part(v, "name", TypeInterner::STRING);
    v = with_part(v, "shape", TypeInterner::STRING);
    v = with_part(v, "shape_tag", shapes);
    v = with_part(v, "width", TypeInterner::INT64);
    v = with_part(v, "type_info", info);
    v = with_part(v, "enum_type", maybe_info);
    v
}

fn bitfield_parts_vec(slots: TypeId) -> (r: Vec<NamedType>)
    ensures
        views(r@) == bitfield_parts(slots),
{
    let mut v = no_parts();
    v = with_part(v, "network_order", TypeInterner::BOOL);
    v = with_part(v, "fields", slots);
    v
}

fn variant_parts_vec(fields: TypeId) -> (r: Vec<NamedType>)
    ensures
        views(r@) == variant_parts(fields),
{
    let mut v = no_parts();
    v = with_part(v, "index", TypeInterner::INT64);
    v = with_part(v, "owner_type", TypeInterner::STRING);
    v = with_part(v, "name", TypeInterner::STRING);
    v = with_part(v, "discriminant", TypeInterner::INT64);
    v = with_part(v, "has_secret", TypeInterner::BOOL);
    v = with_part(v, "fields", fields);
    v
}

fn state_parts_vec(more_fields: TypeId) -> (r: Vec<NamedType>)
    ensures
        views(r@) == state_parts(more_fields),
{
    let mut v = no_parts();
    v = with_part(v, "index", TypeInterner::INT64);
    v = with_part(v, "owner_type", TypeInterner::STRING);
    v = with_part(v, "name", TypeInterner::STRING);
    v = with_part(v, "has_secret", TypeInterner::BOOL);
    v = with_part(v, "fields", more_fields);
    v
}

fn edge_parts_vec() -> (r: Vec<NamedType>)
    ensures
        views(r@) == edge_parts(),
{
    let mut v = no_parts();
    v = with_part(v, "index", TypeInterner::INT64);
    v = with_part(v, "source_index", TypeInterner::INT64);
    v = with_part(v, "source", TypeInterner::STRING);
    v = with_part(v, "target_index", TypeInterner::INT64);
    v = with_part(v, "target", TypeInterner::STRING);
    v
}

fn machine_parts_vec(states: TypeId, edges: TypeId) -> (r: Vec<NamedType>)
    ensures
        views(r@) == machine_parts(states, edges),
{
    let mut v = no_parts();
    v = with_part(v, "states", states);
    v = with_part(v, "edges", edges);
    v
}

proof fn known_blank(names: Names)
    ensures
        known(blank_state(names)),
{
    reveal(known);
    reveal(basic_types);
}

impl<'a> TypeChecker<'a> {
    /// A checker that knows the basic types and those that describe types.
    pub fn new(resolve: &'a ResolveResult) -> (r: Self)
        ensures
            r@ == first_state(resolve@),
            known(r@),
            r@.monos.len() == 0,
            made(r@),
    {
        proof {
            reveal(first_state);
        }
        let mut r = TypeChecker::blank(resolve);
        proof {
            known_blank(resolve@);
        }
        r.install_builtin_metadata_types();
        proof {
            nothing_made(r@);
        }
        r
    }

    fn install_enum(&mut self, name: &str, names: &Vec<String>) -> (r: TypeId)
        ensures
            final(self)@.monos == old(self)@.monos,
            (final(self)@, r) == install_enum(old(self)@, name@, views(names@)),
            known(old(self)@) ==> known(final(self)@) && has(final(self)@, r),
            old(self)@.types.types.len() <= final(self)@.types.types.len(),
    {
        let id = self.add_enum(
            EnumShape { name: text(name), variants: metadata_unit_variants(names) },
        );
        let t: usize = self.intern(Type::Enum(id));
        self.put_named_types(text(name), t);
        t
    }

    fn install_struct(&mut self, name: &str, fields: Vec<NamedType>) -> (r: TypeId)
        ensures
            final(self)@.monos == old(self)@.monos,
            (final(self)@, r) == install_struct(old(self)@, name@, views(fields@)),
            known(old(self)@) && has_fields(old(self)@, views(fields@)) ==> known(final(self)@) && has(
                final(self)@,
                r,
            ),
            old(self)@.types.types.len() <= final(self)@.types.types.len(),
    {
        let def = StructShape { name: text(name), fields, methods: Vec::new() };
        assert(def@.methods =~= Seq::empty());
        let id = self.add_struct(def);
        let t: usize = self.intern(Type::Struct(id));
        self.put_named_types(text(name), t);
        t
    }

    fn install_info(&mut self, kinds: TypeId, primitives: TypeId) -> (r: TypeId)
        ensures
            final(self)@.monos == old(self)@.monos,
            (final(self)@, r) == install_info(old(self)@, kinds, primitives),
            known(old(self)@) && has(old(self)@, kinds) && has(old(self)@, primitives) ==> known(
                final(self)@,
            ) && has(final(self)@, r),
            old(self)@.types.types.len() <= final(self)@.types.types.len(),
    {
        let def = StructShape { name: text("TypeInfo"), fields: Vec::new(), methods: Vec::new() };
        assert(def@.fields =~= Seq::empty());
        assert(def@.methods =~= Seq::empty());
        let id = self.add_struct(def);
        let info: usize = self.intern(Type::Struct(id));
        let infos: usize = self.intern(Type::List(info));
        let maybe_primitive: usize = self.intern(Type::Optional(primitives));
        let full = StructShape {
            name: text("TypeInfo"),
            fields: info_parts_vec(kinds, maybe_primitive, infos),
            methods: Vec::new(),
        };
        assert(full@.methods =~= Seq::empty());
        self.update_struct(id, full);
        self.put_named_types(text("TypeInfo"), info);
        info
    }

    fn install_fields(&mut self, kinds: TypeId, shapes: TypeId, info: TypeId) -> (r: TypeId)
        ensures
            final(self)@.monos == old(self)@.monos,
            (final(self)@, r) == install_fields(old(self)@, kinds, shapes, info),
            known(old(self)@) && has(old(self)@, kinds) && has(old(self)@, shapes) && has(
                old(self)@,
                info,
            ) ==> known(final(self)@) && has(final(self)@, r),
    {
        let maybe_string: usize = self.intern(Type::Optional(TypeInterner::STRING));
        let field: usize = self.install_struct(
            "TypeField",
            field_parts_vec(maybe_string, kinds, info),
        );
        let maybe_info: usize = self.intern(Type::Optional(info));
        let slot: usize = self.install_struct(
            "TypeBitfieldField",
            slot_parts_vec(shapes, info, maybe_info),
        );
        let slots: usize = self.intern(Type::List(slot));
        self.install_struct("TypeBitfield", bitfield_parts_vec(slots));
        field
    }

    fn install_owners(&mut self, field: TypeId)
        ensures
            final(self)@.monos == old(self)@.monos,
            final(self)@ == install_owners(old(self)@, field),
            known(old(self)@) && has(old(self)@, field) ==> known(final(self)@),
    {
        let fields: usize = self.intern(Type::List(field));
        self.install_struct("TypeVariant", variant_parts_vec(fields));
        let more_fields: usize = self.intern(Type::List(field));
        let state: usize = self.install_struct("TypeMachineState", state_parts_vec(more_fields));
        let edge: usize = self.install_struct("TypeMachineTransition", edge_parts_vec());
        let states: usize = self.intern(Type::List(state));
        let edges: usize = self.intern(Type::List(edge));
        self.install_struct("TypeMachine", machine_parts_vec(states, edges));
    }

    fn install_builtin_metadata_types(&mut self)
        ensures
            final(self)@.monos == old(self)@.monos,
            final(self)@ == install_metadata(old(self)@),
            known(old(self)@) ==> known(final(self)@),
    {
        proof {
            reveal(install_metadata);
        }
        let kinds: usize = self.install_enum("TypeKind", &kind_variants());
        let primitives: usize = self.install_enum("TypePrimitive", &primitive_variants());
        let shapes: usize = self.install_enum("TypeBitfieldFieldShape", &slot_shape_variants());
        let info: usize = self.install_info(kinds, primitives);
        let field: usize = self.install_fields(kinds, shapes, info);
        self.install_owners(field);
    }
}

} // verus!
