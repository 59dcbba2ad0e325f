//! What running programs are told of types.
use vstd::prelude::*;

use crate::ast::{FieldDef, Ident, TypeExpr};
use crate::expression_laws::has_room;
use crate::metadata::{told, told_ids, told_name, MetadataV};
use crate::metadata_types::{
    bitfield_parts, edge_parts, field_parts, first_state, info_parts, install_enum, install_fields,
    install_info, install_metadata, install_owners, install_struct, kind_names, machine_parts,
    primitive_names, slot_parts, slot_shape_names, state_parts, unit_variants, variant_parts,
};
use crate::names::before_last_dot;
use crate::reflect_types::{
    args_info, fields_info, info_named, kind_tag, kind_word, mono_args, primitive_named,
    primitive_tag, serialized_name, type_args, type_info,
};
use crate::reflect_written::{
    declared_fields, infos_from, named_args_info, shown_name, shown_type, shown_types,
    type_expr_info, written_args_info, written_info, written_word,
};
use crate::reflection::{FieldInfoV, TypeInfoV};
use crate::resolution::{first_dot, DefId, Names};
use crate::span::Span;
use crate::state::{blank_state, intern_type, MonoV, State};
use crate::static_eval::written_primitive;
use crate::steady::goes_on;
use crate::type_laws::law_stored_types_are_found_again;
use crate::type_names::name_of;
use crate::type_rules::contains_secret;
use crate::types::{
    grounded, lemma_basics, sound, ty, EnumId, EnumShapeV, NamedTypeV, StructId, StructShapeV, Type,
    TypeId, TypeInterner, Types,
};
use crate::written_types::{nesting, resolve_type};

verus! {

// ---------------------------------------------------------------------------
// Kinds
// ---------------------------------------------------------------------------

/// The word for the kind of a type.
pub proof fn law_kinds_of_types(t: Type)
    ensures
        t is List ==> kind_word(t) == "list"@,
        t is MapOf ==> kind_word(t) == "map"@,
        t is SetOf ==> kind_word(t) == "set"@,
        t is Optional ==> kind_word(t) == "optional"@,
        t is Result ==> kind_word(t) == "result"@,
        t is Secret ==> kind_word(t) == "secret"@,
        t is Struct ==> kind_word(t) == "struct"@,
        t is Bitfield ==> kind_word(t) == "bitfield"@,
        t is Enum ==> kind_word(t) == "enum"@,
        t is Function ==> kind_word(t) == "function"@,
        t is Refinement ==> kind_word(t) == "refinement"@,
        t is Machine ==> kind_word(t) == "machine"@,
        t is MachineState ==> kind_word(t) == "machine_state"@,
        t is Interface || t is Actor || t is Error ==> kind_word(t) == "unknown"@,
        primitive_tag(t) is Some ==> kind_word(t) == "primitive"@,
{
}

/// The tag for the kind of a type is its word and `_type`, and a variant of `TypeKind`.
pub proof fn law_kind_tags(t: Type)
    ensures
        kind_tag(t) == kind_word(t) + "_type"@,
        kind_names().contains(kind_tag(t)),
{
    reveal_strlit("_type");
    reveal_strlit("primitive");
    reveal_strlit("primitive_type");
    assert("primitive"@ + "_type"@ =~= "primitive_type"@);
    reveal_strlit("alias");
    reveal_strlit("alias_type");
    assert("alias"@ + "_type"@ =~= "alias_type"@);
    reveal_strlit("refinement");
    reveal_strlit("refinement_type");
    assert("refinement"@ + "_type"@ =~= "refinement_type"@);
    reveal_strlit("struct");
    reveal_strlit("struct_type");
    assert("struct"@ + "_type"@ =~= "struct_type"@);
    reveal_strlit("bitfield");
    reveal_strlit("bitfield_type");
    assert("bitfield"@ + "_type"@ =~= "bitfield_type"@);
    reveal_strlit("enum");
    reveal_strlit("enum_type");
    assert("enum"@ + "_type"@ =~= "enum_type"@);
    reveal_strlit("list");
    reveal_strlit("list_type");
    assert("list"@ + "_type"@ =~= "list_type"@);
    reveal_strlit("set");
    reveal_strlit("set_type");
    assert("set"@ + "_type"@ =~= "set_type"@);
    reveal_strlit("map");
    reveal_strlit("map_type");
    assert("map"@ + "_type"@ =~= "map_type"@);
    reveal_strlit("optional");
    reveal_strlit("optional_type");
    assert("optional"@ + "_type"@ =~= "optional_type"@);
    reveal_strlit("result");
    reveal_strlit("result_type");
    assert("result"@ + "_type"@ =~= "result_type"@);
    reveal_strlit("secret");
    reveal_strlit("secret_type");
    assert("secret"@ + "_type"@ =~= "secret_type"@);
    reveal_strlit("function");
    reveal_strlit("function_type");
    assert("function"@ + "_type"@ =~= "function_type"@);
    reveal_strlit("machine");
    reveal_strlit("machine_type");
    assert("machine"@ + "_type"@ =~= "machine_type"@);
    reveal_strlit("machine_state");
    reveal_strlit("machine_state_type");
    assert("machine_state"@ + "_type"@ =~= "machine_state_type"@);
    reveal_strlit("unknown");
    reveal_strlit("unknown_type");
    assert("unknown"@ + "_type"@ =~= "unknown_type"@);
    let names = kind_names();
    assert(names[0] == "primitive_type"@);
    assert(names[1] == "alias_type"@);
    assert(names[2] == "refinement_type"@);
    assert(names[3] == "struct_type"@);
    assert(names[4] == "bitfield_type"@);
    assert(names[5] == "enum_type"@);
    assert(names[6] == "list_type"@);
    assert(names[7] == "set_type"@);
    assert(names[8] == "map_type"@);
    assert(names[9] == "optional_type"@);
    assert(names[10] == "result_type"@);
    assert(names[11] == "secret_type"@);
    assert(names[12] == "function_type"@);
    assert(names[13] == "machine_type"@);
    assert(names[14] == "machine_state_type"@);
    assert(names[15] == "unknown_type"@);
}

/// The tag of a primitive type is its name and `_type`, and a variant of `TypePrimitive`.
pub proof fn law_primitive_tags(name: Seq<char>)
    ensures
        match primitive_named(name) {
            Some(Type::TypeConstruction) => primitive_tag(Type::TypeConstruction) == Some(
                "type_construction_type"@,
            ) && primitive_names().contains("type_construction_type"@),
            Some(t) => primitive_tag(t) == Some(name + "_type"@) && primitive_names().contains(name + "_type"@),
            None => true,
        },
{
    reveal_strlit("_type");
    reveal_strlit("int8");
    reveal_strlit("int8_type");
    assert("int8"@ + "_type"@ =~= "int8_type"@);
    reveal_strlit("int16");
    reveal_strlit("int16_type");
    assert("int16"@ + "_type"@ =~= "int16_type"@);
    reveal_strlit("int32");
    reveal_strlit("int32_type");
    assert("int32"@ + "_type"@ =~= "int32_type"@);
    reveal_strlit("int64");
    reveal_strlit("int64_type");
    assert("int64"@ + "_type"@ =~= "int64_type"@);
    reveal_strlit("uint8");
    reveal_strlit("uint8_type");
    assert("uint8"@ + "_type"@ =~= "uint8_type"@);
    reveal_strlit("uint16");
    reveal_strlit("uint16_type");
    assert("uint16"@ + "_type"@ =~= "uint16_type"@);
    reveal_strlit("uint32");
    reveal_strlit("uint32_type");
    assert("uint32"@ + "_type"@ =~= "uint32_type"@);
    reveal_strlit("uint64");
    reveal_strlit("uint64_type");
    assert("uint64"@ + "_type"@ =~= "uint64_type"@);
    reveal_strlit("float32");
    reveal_strlit("float32_type");
    assert("float32"@ + "_type"@ =~= "float32_type"@);
    reveal_strlit("float64");
    reveal_strlit("float64_type");
    assert("float64"@ + "_type"@ =~= "float64_type"@);
    reveal_strlit("string");
    reveal_strlit("string_type");
    assert("string"@ + "_type"@ =~= "string_type"@);
    reveal_strlit("bool");
    reveal_strlit("bool_type");
    assert("bool"@ + "_type"@ =~= "bool_type"@);
    reveal_strlit("bytes");
    reveal_strlit("bytes_type");
    assert("bytes"@ + "_type"@ =~= "bytes_type"@);
    reveal_strlit("nothing");
    reveal_strlit("nothing_type");
    assert("nothing"@ + "_type"@ =~= "nothing_type"@);
    let names = primitive_names();
    assert(names[0] == "int8_type"@);
    assert(names[1] == "int16_type"@);
    assert(names[2] == "int32_type"@);
    assert(names[3] == "int64_type"@);
    assert(names[4] == "uint8_type"@);
    assert(names[5] == "uint16_type"@);
    assert(names[6] == "uint32_type"@);
    assert(names[7] == "uint64_type"@);
    assert(names[8] == "float32_type"@);
    assert(names[9] == "float64_type"@);
    assert(names[10] == "string_type"@);
    assert(names[11] == "bool_type"@);
    assert(names[12] == "bytes_type"@);
    assert(names[13] == "nothing_type"@);
    assert(names[14] == "type_construction_type"@);
}

// ---------------------------------------------------------------------------
// What is told of a type
// ---------------------------------------------------------------------------

/// Of a type are told its name, its kind, whether it holds a secret, and the same of its
/// arguments, which are the types that it holds or was made with, in their order.
pub proof fn law_what_is_told_of_a_type(ts: Types, monos: Seq<MonoV>, id: TypeId, k: int)
    requires
        0 <= k < type_args(ts, monos, id).len(),
        type_args(ts, monos, id)[k] < id,
    ensures
        type_info(ts, monos, id).name == name_of(ts, id),
        type_info(ts, monos, id).kind == kind_word(ty(ts, id)),
        type_info(ts, monos, id).primitive_tag == primitive_tag(ty(ts, id)),
        type_info(ts, monos, id).has_secret == contains_secret(ts, id),
        type_info(ts, monos, id).args.len() == type_args(ts, monos, id).len(),
        type_info(ts, monos, id).args[k] == type_info(ts, monos, type_args(ts, monos, id)[k]),
{
    reveal_with_fuel(info_named, 2);
    reveal_with_fuel(args_info, 2);
}

/// The arguments of a type: those that a generic struct was made with, or the types that it
/// holds, keys before values and parameters before what is returned.
pub proof fn law_arguments_of_types(ts: Types, monos: Seq<MonoV>, id: TypeId)
    ensures
        (forall|i: int| 0 <= i < monos.len() ==> (#[trigger] monos[i]).ty != id) ==> match ty(ts, id) {
            Type::List(x) => type_args(ts, monos, id) == seq![x],
            Type::SetOf(x) => type_args(ts, monos, id) == seq![x],
            Type::Optional(x) => type_args(ts, monos, id) == seq![x],
            Type::Secret(x) => type_args(ts, monos, id) == seq![x],
            Type::MapOf(k, v) => type_args(ts, monos, id) == seq![k, v],
            Type::Result(k, v) => type_args(ts, monos, id) == seq![k, v],
            Type::Refinement(r) => type_args(ts, monos, id) == seq![ts.refinements[r.0 as int].base],
            Type::Function(f) => {
                let shape = ts.functions[f.0 as int];
                &&& type_args(ts, monos, id).len() == shape.params.len() + 1
                &&& type_args(ts, monos, id).last() == shape.return_type
                &&& forall|i: int|
                    0 <= i < shape.params.len() ==> type_args(ts, monos, id)[i] == #[trigger] shape.params[i]
            },
            _ => type_args(ts, monos, id) == Seq::<TypeId>::empty(),
        },
        forall|j: int|
            0 <= j < monos.len() && (#[trigger] monos[j]).ty == id && (forall|i: int|
                0 <= i < j ==> (#[trigger] monos[i]).ty != id) ==> type_args(ts, monos, id) == monos[j].args,
{
    if forall|i: int| 0 <= i < monos.len() ==> (#[trigger] monos[i]).ty != id {
        no_mono(monos, id, 0);
    }
    assert forall|j: int|
        0 <= j < monos.len() && (#[trigger] monos[j]).ty == id && (forall|i: int|
            0 <= i < j ==> (#[trigger] monos[i]).ty != id) implies type_args(ts, monos, id)
        == monos[j].args by {
        first_mono(monos, id, 0, j);
    }
}

proof fn no_mono(monos: Seq<MonoV>, id: TypeId, i: nat)
    requires
        forall|k: int| 0 <= k < monos.len() ==> (#[trigger] monos[k]).ty != id,
    ensures
        mono_args(monos, id, i) is None,
    decreases monos.len() - i,
{
    if i < monos.len() {
        no_mono(monos, id, i + 1);
    }
}

proof fn first_mono(monos: Seq<MonoV>, id: TypeId, i: nat, j: int)
    requires
        i <= j < monos.len(),
        monos[j].ty == id,
        forall|k: int| 0 <= k < j ==> (#[trigger] monos[k]).ty != id,
    ensures
        mono_args(monos, id, i) == Some(monos[j].args),
    decreases j - i,
{
    if i < j {
        first_mono(monos, id, i + 1, j);
    }
}

/// Of the fields of a struct are told their places, their names, the names that they go by in
/// JSON, and their types.
pub proof fn law_what_is_told_of_fields(
    ts: Types,
    monos: Seq<MonoV>,
    defs: Seq<FieldDef>,
    fields: Seq<NamedTypeV>,
    i: int,
)
    requires
        defs.len() == fields.len() <= usize::MAX,
        0 <= i < defs.len(),
    ensures
        ({
            let told = fields_info(ts, monos, defs, fields);
            &&& told.len() == defs.len()
            &&& told[i].index == i
            &&& told[i].name == defs[i].name.name@
            &&& told[i].serialize_name == match defs[i].serialize_name {
                Some(n) => n@,
                None => defs[i].name.name@,
            }
            &&& told[i].type_info == type_info(ts, monos, fields[i].ty)
        }),
{
}

// ---------------------------------------------------------------------------
// What is told of a written type
// ---------------------------------------------------------------------------

/// A bare name that is declared in the namespace is shown with it. Primitive types and names
/// with a namespace of their own stay as they are.
pub proof fn law_names_are_shown_with_namespaces(s: State, name: Seq<char>, namespace: Seq<char>)
    ensures
        shown_name(s, name, None) == name,
        first_dot(name, 0) is Some || primitive_named(name) is Some ==> shown_name(s, name, Some(namespace)) == name,
        first_dot(name, 0) is None && primitive_named(name) is None ==> shown_name(s, name, Some(namespace))
            == if s.named_types.contains_key(namespace + "."@ + name) || s.aliases.contains_key(
            namespace + "."@ + name,
        ) || s.generic_struct_templates.contains_key(namespace + "."@ + name) {
            namespace + "."@ + name
        } else {
            name
        },
{
}

/// Written types are shown as they are written.
pub proof fn law_written_types_are_shown(
    s: State,
    ident: Ident,
    args: Vec<TypeExpr>,
    inner: Box<TypeExpr>,
    span: Span,
    ns: Option<Seq<char>>,
    i: nat,
)
    ensures
        shown_type(s, TypeExpr::Named(ident), ns) == shown_name(s, ident.name@, ns),
        shown_type(s, TypeExpr::Generic(ident, args, span), ns) == shown_name(s, ident.name@, ns) + "["@
            + shown_types(s, args, 0, ns) + "]"@,
        shown_type(s, TypeExpr::View(inner, span), ns) == "view "@ + shown_type(s, *inner, ns),
        shown_type(s, TypeExpr::StateQualified(inner, ident, span), ns) == shown_type(s, *inner, ns) + " at "@
            + ident.name@,
        shown_type(s, TypeExpr::Function(args, inner, span), ns) == "function("@ + shown_types(s, args, 0, ns)
            + ") returns "@ + shown_type(s, *inner, ns),
        shown_types(s, args, i, ns) == if i >= args@.len() {
            Seq::empty()
        } else if i + 1 == args@.len() {
            shown_type(s, args@[i as int], ns)
        } else {
            shown_type(s, args@[i as int], ns) + ", "@ + shown_types(s, args, i + 1, ns)
        },
{
    reveal_with_fuel(shown_type, 2);
    reveal_with_fuel(shown_types, 2);
}

/// The kind of a written type: an alias is one, whatever it stands for, and with a constraint
/// a refinement; the builtin generic types are of their own kinds; a view is of the kind of
/// what it views.
pub proof fn law_kinds_of_written_types(
    s: State,
    ident: Ident,
    args: Vec<TypeExpr>,
    inner: Box<TypeExpr>,
    span: Span,
    ns: Option<Seq<char>>,
    id: TypeId,
)
    ensures
        ({
            let shown = shown_name(s, ident.name@, ns);
            let named = written_word(s, TypeExpr::Named(ident), ns, id);
            let generic = written_word(s, TypeExpr::Generic(ident, args, span), ns, id);
            &&& s.aliases.contains_key(shown) && s.aliases[shown].constraint is Some ==> named == "refinement"@
            &&& s.aliases.contains_key(shown) && s.aliases[shown].constraint is None ==> named == "alias"@
            &&& !s.aliases.contains_key(shown) && primitive_named(shown) is Some ==> named == "primitive"@
            &&& !s.aliases.contains_key(shown) && primitive_named(shown) is None ==> named == kind_word(
                ty(s.types, id),
            )
            &&& shown == "list"@ || shown == "map"@ || shown == "set"@ || shown == "optional"@ || shown
                == "result"@ || shown == "secret"@ ==> generic == shown
        }),
        written_word(s, TypeExpr::View(inner, span), ns, id) == written_word(s, *inner, ns, id),
        written_word(s, TypeExpr::Function(args, inner, span), ns, id) == "function"@,
        written_word(s, TypeExpr::StateQualified(inner, ident, span), ns, id) == kind_word(ty(s.types, id)),
{
}

/// What is told of a written type: how it is shown, its kind, whether it holds a secret, and
/// what is told of its arguments.
pub proof fn law_what_is_told_of_a_written_type(
    s: State,
    t: TypeExpr,
    ns: Option<Seq<char>>,
    id: TypeId,
    depth: nat,
)
    ensures
        ({
            let (after, info) = written_info(s, t, ns, id, depth);
            match t {
                TypeExpr::View(inner, _) => (after, info) == written_info(s, *inner, ns, id, depth),
                _ => {
                    let (s1, args) = written_args_info(s, t, ns, id, depth);
                    &&& after == s1
                    &&& info.args == args
                    &&& info.name == shown_type(s, t, ns)
                    &&& info.kind == written_word(s1, t, ns, id)
                    &&& info.primitive_tag == written_primitive(s1, t, id)
                    &&& info.has_secret <==> id != TypeInterner::ERROR && contains_secret(s1.types, id)
                },
            }
        }),
{
    reveal_with_fuel(written_info, 2);
}

/// What is told of the arguments of a written type: those that are written, parameters before
/// what is returned; none of a state of a machine; for a name that is no alias, those of its
/// type.
pub proof fn law_arguments_of_written_types(
    s: State,
    ident: Ident,
    args: Vec<TypeExpr>,
    ret: Box<TypeExpr>,
    span: Span,
    ns: Option<Seq<char>>,
    id: TypeId,
    i: nat,
    found: Seq<TypeInfoV>,
    depth: nat,
)
    ensures
        written_args_info(s, TypeExpr::Generic(ident, args, span), ns, id, depth) == infos_from(
            s,
            args,
            0,
            ns,
            Seq::empty(),
            depth,
        ),
        ({
            let (s1, infos) = infos_from(s, args, 0, ns, Seq::empty(), depth);
            let (s2, r) = resolve_type(s1, *ret);
            let (s3, info) = written_info(s2, *ret, ns, r, depth);
            written_args_info(s, TypeExpr::Function(args, ret, span), ns, id, depth) == (s3, infos.push(info))
        }),
        written_args_info(s, TypeExpr::StateQualified(ret, ident, span), ns, id, depth) == (
            s,
            Seq::<TypeInfoV>::empty(),
        ),
        written_args_info(s, TypeExpr::View(ret, span), ns, id, depth) == written_args_info(
            s,
            *ret,
            ns,
            id,
            depth,
        ),
        !s.aliases.contains_key(shown_name(s, ident.name@, ns)) ==> written_args_info(
            s,
            TypeExpr::Named(ident),
            ns,
            id,
            depth,
        ) == (s, type_info(s.types, s.monos, id).args),
        infos_from(s, args, i, ns, found, depth) == if i >= args@.len() {
            (s, found)
        } else {
            let (s1, x) = resolve_type(s, args@[i as int]);
            let (s2, info) = written_info(s1, args@[i as int], ns, x, depth);
            infos_from(s2, args, i + 1, ns, found.push(info), depth)
        },
{
    reveal_with_fuel(written_args_info, 2);
    reveal_with_fuel(infos_from, 2);
    reveal_with_fuel(named_args_info, 2);
}

/// An alias tells of one argument, its base, as the base is written where the alias is declared.
pub proof fn law_aliases_tell_of_their_bases(
    s: State,
    name: Seq<char>,
    span: Span,
    ns: Option<Seq<char>>,
    id: TypeId,
    depth: nat,
)
    requires
        depth > 0,
        s.aliases.contains_key(shown_name(s, name, ns)),
    ensures
        ({
            let shown = shown_name(s, name, ns);
            let written = s.aliases[shown].base_type;
            let (s1, base) = resolve_type(s, written);
            let (after, args) = named_args_info(s, name, span, ns, id, depth);
            &&& base == TypeInterner::ERROR ==> args == Seq::<TypeInfoV>::empty() && after == s1
            &&& base != TypeInterner::ERROR ==> args.len() == 1 && after.nested == s1.nested && args[0]
                == written_info(
                State { nested: s1.nested.push(shown), ..s1 },
                written,
                if before_last_dot(shown) is Some {
                    before_last_dot(shown)
                } else {
                    ns
                },
                base,
                (depth - 1) as nat,
            ).1
        }),
{
    reveal_with_fuel(named_args_info, 2);
}

/// Of declared fields are told their places, their names, the names that they go by in JSON,
/// and their types as they are written.
pub proof fn law_declared_fields_are_told(
    s: State,
    defs: Seq<FieldDef>,
    fields: Seq<NamedTypeV>,
    ns: Option<Seq<char>>,
    i: nat,
    found: Seq<FieldInfoV>,
)
    requires
        defs.len() == fields.len() <= usize::MAX,
    ensures
        ({
            let told = declared_fields(s, defs, fields, ns, i, found).1;
            &&& told.len() == found.len() + if i <= defs.len() {
                defs.len() - i
            } else {
                0
            }
            &&& forall|k: int| 0 <= k < found.len() ==> #[trigger] told[k] == found[k]
            &&& forall|k: int|
                #![trigger told[k]]
                found.len() <= k < told.len() ==> {
                    let j = k - found.len() + i;
                    &&& told[k].index == j
                    &&& told[k].name == defs[j].name.name@
                    &&& told[k].serialize_name == serialized_name(defs[j])
                }
            &&& i < defs.len() ==> told[found.len() as int].type_info == written_info(
                s,
                defs[i as int].ty,
                ns,
                fields[i as int].ty,
                nesting(),
            ).1
        }),
    decreases defs.len() - i,
{
    if i < defs.len() {
        let def = defs[i as int];
        let (s1, type_info) = type_expr_info(s, def.ty, ns, fields[i as int].ty);
        let field = FieldInfoV {
            index: i as usize,
            name: def.name.name@,
            serialize_name: serialized_name(def),
            type_info,
        };
        law_declared_fields_are_told(s1, defs, fields, ns, i + 1, found.push(field));
        let told = declared_fields(s, defs, fields, ns, i, found).1;
        assert(told == declared_fields(s1, defs, fields, ns, i + 1, found.push(field)).1);
        assert(told[found.len() as int] == found.push(field)[found.len() as int]);
        assert forall|k: int| 0 <= k < found.len() implies #[trigger] told[k] == found[k] by {
            assert(told[k] == found.push(field)[k]);
        }
    }
}

// ---------------------------------------------------------------------------
// What is told of a module
// ---------------------------------------------------------------------------

/// What is told of a type is found by the type and by its name.
pub proof fn law_told_types_are_found(m: MetadataV, id: TypeId, info: TypeInfoV)
    ensures
        told(m, id, info).info_by_id[id] == info,
        told(m, id, info).info_by_name[info.name] == info,
        told(m, id, info).id_by_name[info.name] == id,
        told(m, id, info).fields == m.fields,
        told(m, id, info).variants == m.variants,
        told(m, id, info).bitfields == m.bitfields,
        told(m, id, info).machines == m.machines,
        forall|x: TypeId| x != id ==> (#[trigger] told(m, id, info).info_by_id.contains_key(x)
            <==> m.info_by_id.contains_key(x)),
{
}

/// Every type is told of.
pub proof fn law_every_type_is_told(s: State, m: MetadataV, from: nat, id: TypeId)
    requires
        from <= id < s.types.types.len() <= usize::MAX,
    ensures
        told_ids(s, m, from).info_by_id.contains_key(id),
        told_ids(s, m, from).info_by_id[id] == type_info(s.types, s.monos, id),
    decreases s.types.types.len() - from,
{
    let next = told(m, from as usize, type_info(s.types, s.monos, from as usize));
    if from < id {
        law_every_type_is_told(s, next, from + 1, id);
    } else {
        told_stays(s, next, from + 1, id);
    }
}

proof fn told_stays(s: State, m: MetadataV, from: nat, id: TypeId)
    requires
        id < from,
        s.types.types.len() <= usize::MAX,
        m.info_by_id.contains_key(id),
    ensures
        told_ids(s, m, from).info_by_id.contains_key(id),
        told_ids(s, m, from).info_by_id[id] == m.info_by_id[id],
    decreases s.types.types.len() - from,
{
    if from < s.types.types.len() {
        told_stays(s, told(m, from as usize, type_info(s.types, s.monos, from as usize)), from + 1, id);
    }
}

/// A declared name is told of under its type, and an alias as what stands for its base.
pub proof fn law_what_is_told_of_a_name(s: State, m: MetadataV, name: Seq<char>, id: TypeId)
    ensures
        ({
            let (after, t) = told_name(s, m, name, id);
            let (s1, base) = resolve_type(s, s.aliases[name].base_type);
            let info = t.info_by_name[name];
            &&& t.info_by_name.contains_key(name)
            &&& info.name == name
            &&& !s.aliases.contains_key(name) ==> t.id_by_name[name] == id && info.kind == kind_word(
                ty(s.types, id),
            ) && info.has_secret == contains_secret(s.types, id) && info.args == type_info(
                s.types,
                s.monos,
                id,
            ).args
            &&& s.aliases.contains_key(name) ==> {
                &&& after == s1
                &&& info.kind == if s.aliases[name].constraint is Some {
                    "refinement"@
                } else {
                    "alias"@
                }
                &&& info.primitive_tag is None
                &&& base != TypeInterner::ERROR ==> info.has_secret == contains_secret(s1.types, base)
                    && info.args == seq![type_info(s1.types, s1.monos, base)]
                &&& base == TypeInterner::ERROR ==> !info.has_secret && info.args == Seq::<TypeInfoV>::empty()
                &&& s.aliases[name].constraint is Some ==> t.id_by_name[name] == id && t.info_by_id[id] == info
                &&& s.aliases[name].constraint is None ==> t.id_by_name == m.id_by_name && t.info_by_id
                    == m.info_by_id
            }
        }),
{
    reveal_with_fuel(info_named, 2);
}

// ---------------------------------------------------------------------------
// The types that describe types
// ---------------------------------------------------------------------------

/// A declared enum without fields has the variants that it is given, numbered in their order.
pub proof fn law_plain_enums(s: State, name: Seq<char>, names: Seq<Seq<char>>)
    requires
        has_room(s),
        s.types.enums.len() < usize::MAX,
        names.len() <= i64::MAX,
    ensures
        ({
            let (after, t) = install_enum(s, name, names);
            let e = ty(after.types, t);
            &&& after.named_types[name] == t
            &&& e is Enum
            &&& after.types.enums[e->Enum_0.0 as int].name == name
            &&& after.types.enums[e->Enum_0.0 as int].variants.len() == names.len()
            &&& forall|i: int|
                #![trigger names[i]]
                0 <= i < names.len() ==> {
                    let v = after.types.enums[e->Enum_0.0 as int].variants[i];
                    v.name == names[i] && v.discriminant == i && v.fields.len() == 0
                }
        }),
{
    let id = EnumId(s.types.enums.len() as usize);
    let def = EnumShapeV { name, variants: unit_variants(names) };
    let ts = Types { enums: s.types.enums.push(def), ..s.types };
    law_stored_types_are_found_again(ts, Type::Enum(id));
}

/// A declared struct has the fields that it is given.
pub proof fn law_plain_structs(s: State, name: Seq<char>, fields: Seq<NamedTypeV>)
    requires
        has_room(s),
        s.types.structs.len() < usize::MAX,
    ensures
        ({
            let (after, t) = install_struct(s, name, fields);
            let e = ty(after.types, t);
            &&& after.named_types[name] == t
            &&& e is Struct
            &&& after.types.structs[e->Struct_0.0 as int].name == name
            &&& after.types.structs[e->Struct_0.0 as int].fields == fields
        }),
{
    let id = StructId(s.types.structs.len() as usize);
    let def = StructShapeV { name, fields, methods: Seq::empty() };
    let ts = Types { structs: s.types.structs.push(def), ..s.types };
    law_stored_types_are_found_again(ts, Type::Struct(id));
}

/// Whether a field of that name has that type.
pub open spec fn has_part(fields: Seq<NamedTypeV>, name: Seq<char>, ty: TypeId) -> bool {
    exists|i: int| 0 <= i < fields.len() && (#[trigger] fields[i]) == (NamedTypeV { name, ty })
}

/// What a `TypeInfo` holds.
pub proof fn law_parts_of_type_infos(kinds: TypeId, maybe_primitive: TypeId, infos: TypeId)
    ensures
        ({
            let parts = info_parts(kinds, maybe_primitive, infos);
            &&& parts.len() == 6
            &&& has_part(parts, "type_name"@, TypeInterner::STRING)
            &&& has_part(parts, "kind"@, TypeInterner::STRING)
            &&& has_part(parts, "kind_tag"@, kinds)
            &&& has_part(parts, "primitive_tag"@, maybe_primitive)
            &&& has_part(parts, "has_secret"@, TypeInterner::BOOL)
            &&& has_part(parts, "args"@, infos)
        }),
{
    let parts = info_parts(kinds, maybe_primitive, infos);
    assert(parts[0] == (NamedTypeV { name: "type_name"@, ty: TypeInterner::STRING }));
    assert(parts[1] == (NamedTypeV { name: "kind"@, ty: TypeInterner::STRING }));
    assert(parts[2] == (NamedTypeV { name: "kind_tag"@, ty: kinds }));
    assert(parts[3] == (NamedTypeV { name: "primitive_tag"@, ty: maybe_primitive }));
    assert(parts[4] == (NamedTypeV { name: "has_secret"@, ty: TypeInterner::BOOL }));
    assert(parts[5] == (NamedTypeV { name: "args"@, ty: infos }));
}

/// What a `TypeField` holds.
pub proof fn law_parts_of_type_fields(maybe_string: TypeId, kinds: TypeId, info: TypeId)
    ensures
        ({
            let parts = field_parts(maybe_string, kinds, info);
            &&& parts.len() == 10
            &&& has_part(parts, "index"@, TypeInterner::INT64)
            &&& has_part(parts, "owner_type"@, TypeInterner::STRING)
            &&& has_part(parts, "owner_member"@, maybe_string)
            &&& has_part(parts, "name"@, TypeInterner::STRING)
            &&& has_part(parts, "type_name"@, TypeInterner::STRING)
            &&& has_part(parts, "kind"@, TypeInterner::STRING)
            &&& has_part(parts, "kind_tag"@, kinds)
            &&& has_part(parts, "serialize_name"@, TypeInterner::STRING)
            &&& has_part(parts, "has_secret"@, TypeInterner::BOOL)
            &&& has_part(parts, "type_info"@, info)
        }),
{
    let parts = field_parts(maybe_string, kinds, info);
    assert(parts[0] == (NamedTypeV { name: "index"@, ty: TypeInterner::INT64 }));
    assert(parts[1] == (NamedTypeV { name: "owner_type"@, ty: TypeInterner::STRING }));
    assert(parts[2] == (NamedTypeV { name: "owner_member"@, ty: maybe_string }));
    assert(parts[3] == (NamedTypeV { name: "name"@, ty: TypeInterner::STRING }));
    assert(parts[4] == (NamedTypeV { name: "type_name"@, ty: TypeInterner::STRING }));
    assert(parts[5] == (NamedTypeV { name: "kind"@, ty: TypeInterner::STRING }));
    assert(parts[6] == (NamedTypeV { name: "kind_tag"@, ty: kinds }));
    assert(parts[7] == (NamedTypeV { name: "serialize_name"@, ty: TypeInterner::STRING }));
    assert(parts[8] == (NamedTypeV { name: "has_secret"@, ty: TypeInterner::BOOL }));
    assert(parts[9] == (NamedTypeV { name: "type_info"@, ty: info }));
}

/// What a `TypeBitfieldField` holds.
pub proof fn law_parts_of_bitfield_fields(shapes: TypeId, info: TypeId, maybe_info: TypeId)
    ensures
        ({
            let parts = slot_parts(shapes, info, maybe_info);
            &&& parts.len() == 7
            &&& has_part(parts, "index"@, TypeInterner::INT64)
            &&& has_part(parts, "name"@, TypeInterner::STRING)
            &&& has_part(parts, "shape"@, TypeInterner::STRING)
            &&& has_part(parts, "shape_tag"@, shapes)
            &&& has_part(parts, "width"@, TypeInterner::INT64)
            &&& has_part(parts, "type_info"@, info)
            &&& has_part(parts, "enum_type"@, maybe_info)
        }),
{
    let parts = slot_parts(shapes, info, maybe_info);
    assert(parts[0] == (NamedTypeV { name: "index"@, ty: TypeInterner::INT64 }));
    assert(parts[1] == (NamedTypeV { name: "name"@, ty: TypeInterner::STRING }));
    assert(parts[2] == (NamedTypeV { name: "shape"@, ty: TypeInterner::STRING }));
    assert(parts[3] == (NamedTypeV { name: "shape_tag"@, ty: shapes }));
    assert(parts[4] == (NamedTypeV { name: "width"@, ty: TypeInterner::INT64 }));
    assert(parts[5] == (NamedTypeV { name: "type_info"@, ty: info }));
    assert(parts[6] == (NamedTypeV { name: "enum_type"@, ty: maybe_info }));
}

/// What a `TypeBitfield` holds.
pub proof fn law_parts_of_bitfields(slots: TypeId)
    ensures
        ({
            let parts = bitfield_parts(slots);
            &&& parts.len() == 2
            &&& has_part(parts, "network_order"@, TypeInterner::BOOL)
            &&& has_part(parts, "fields"@, slots)
        }),
{
    let parts = bitfield_parts(slots);
    assert(parts[0] == (NamedTypeV { name: "network_order"@, ty: TypeInterner::BOOL }));
    assert(parts[1] == (NamedTypeV { name: "fields"@, ty: slots }));
}

/// What a `TypeVariant` holds.
pub proof fn law_parts_of_variants(fields: TypeId)
    ensures
        ({
            let parts = variant_parts(fields);
            &&& parts.len() == 6
            &&& has_part(parts, "index"@, TypeInterner::INT64)
            &&& has_part(parts, "owner_type"@, TypeInterner::STRING)
            &&& has_part(parts, "name"@, TypeInterner::STRING)
            &&& has_part(parts, "discriminant"@, TypeInterner::INT64)
            &&& has_part(parts, "has_secret"@, TypeInterner::BOOL)
            &&& has_part(parts, "fields"@, fields)
        }),
{
    let parts = variant_parts(fields);
    assert(parts[0] == (NamedTypeV { name: "index"@, ty: TypeInterner::INT64 }));
    assert(parts[1] == (NamedTypeV { name: "owner_type"@, ty: TypeInterner::STRING }));
    assert(parts[2] == (NamedTypeV { name: "name"@, ty: TypeInterner::STRING }));
    assert(parts[3] == (NamedTypeV { name: "discriminant"@, ty: TypeInterner::INT64 }));
    assert(parts[4] == (NamedTypeV { name: "has_secret"@, ty: TypeInterner::BOOL }));
    assert(parts[5] == (NamedTypeV { name: "fields"@, ty: fields }));
}

/// What a `TypeMachineState` holds.
pub proof fn law_parts_of_machine_states(fields: TypeId)
    ensures
        ({
            let parts = state_parts(fields);
            &&& parts.len() == 5
            &&& has_part(parts, "index"@, TypeInterner::INT64)
            &&& has_part(parts, "owner_type"@, TypeInterner::STRING)
            &&& has_part(parts, "name"@, TypeInterner::STRING)
            &&& has_part(parts, "has_secret"@, TypeInterner::BOOL)
            &&& has_part(parts, "fields"@, fields)
        }),
{
    let parts = state_parts(fields);
    assert(parts[0] == (NamedTypeV { name: "index"@, ty: TypeInterner::INT64 }));
    assert(parts[1] == (NamedTypeV { name: "owner_type"@, ty: TypeInterner::STRING }));
    assert(parts[2] == (NamedTypeV { name: "name"@, ty: TypeInterner::STRING }));
    assert(parts[3] == (NamedTypeV { name: "has_secret"@, ty: TypeInterner::BOOL }));
    assert(parts[4] == (NamedTypeV { name: "fields"@, ty: fields }));
}

/// What a `TypeMachineTransition` holds.
pub proof fn law_parts_of_transitions()
    ensures
        ({
            let parts = edge_parts();
            &&& parts.len() == 5
            &&& has_part(parts, "index"@, TypeInterner::INT64)
            &&& has_part(parts, "source_index"@, TypeInterner::INT64)
            &&& has_part(parts, "source"@, TypeInterner::STRING)
            &&& has_part(parts, "target_index"@, TypeInterner::INT64)
            &&& has_part(parts, "target"@, TypeInterner::STRING)
        }),
{
    let parts = edge_parts();
    assert(parts[0] == (NamedTypeV { name: "index"@, ty: TypeInterner::INT64 }));
    assert(parts[1] == (NamedTypeV { name: "source_index"@, ty: TypeInterner::INT64 }));
    assert(parts[2] == (NamedTypeV { name: "source"@, ty: TypeInterner::STRING }));
    assert(parts[3] == (NamedTypeV { name: "target_index"@, ty: TypeInterner::INT64 }));
    assert(parts[4] == (NamedTypeV { name: "target"@, ty: TypeInterner::STRING }));
}

/// What a `TypeMachine` holds.
pub proof fn law_parts_of_machines(states: TypeId, edges: TypeId)
    ensures
        ({
            let parts = machine_parts(states, edges);
            &&& parts.len() == 2
            &&& has_part(parts, "states"@, states)
            &&& has_part(parts, "edges"@, edges)
        }),
{
    let parts = machine_parts(states, edges);
    assert(parts[0] == (NamedTypeV { name: "states"@, ty: states }));
    assert(parts[1] == (NamedTypeV { name: "edges"@, ty: edges }));
}

// ---------------------------------------------------------------------------
// All types that describe types
// ---------------------------------------------------------------------------

/// Whether the name stands for a struct of that name with the fields.
pub open spec fn is_struct_of(s: State, name: Seq<char>, fields: Seq<NamedTypeV>) -> bool {
    &&& s.named_types.contains_key(name)
    &&& s.named_types[name] < s.types.types.len()
    &&& ty(s.types, s.named_types[name]) matches Type::Struct(id) && id.0 < s.types.structs.len()
        && s.types.structs[id.0 as int].name == name && s.types.structs[id.0 as int].fields == fields
}

/// Whether the name stands for an enum of that name with the variants.
pub open spec fn is_enum_of(s: State, name: Seq<char>, names: Seq<Seq<char>>) -> bool {
    &&& s.named_types.contains_key(name)
    &&& s.named_types[name] < s.types.types.len()
    &&& ty(s.types, s.named_types[name]) matches Type::Enum(id) && id.0 < s.types.enums.len()
        && s.types.enums[id.0 as int] == (EnumShapeV { name, variants: unit_variants(names) })
}

/// Whether the step from `a` to `b` keeps all types, and declares at most `name`.
spec fn adds(a: State, b: State, name: Seq<char>, n: nat) -> bool {
    &&& sound(b.types)
    &&& goes_on(a.types.types, b.types.types)
    &&& goes_on(a.types.structs, b.types.structs)
    &&& goes_on(a.types.enums, b.types.enums)
    &&& b.types.types.len() <= a.types.types.len() + n
    &&& b.types.structs.len() <= a.types.structs.len() + 1
    &&& b.types.enums.len() <= a.types.enums.len() + 1
    &&& forall|x: Seq<char>| x != name && a.named_types.contains_key(x) ==> #[trigger] b.named_types.contains_key(x)
        && b.named_types[x] == a.named_types[x]
}

proof fn still(a: State, b: State, name: Seq<char>, n: nat, x: Seq<char>, fields: Seq<NamedTypeV>)
    requires
        adds(a, b, name, n),
        x != name,
    ensures
        is_struct_of(a, x, fields) ==> is_struct_of(b, x, fields) && b.named_types[x] == a.named_types[x],
{
    if is_struct_of(a, x, fields) {
        assert(b.named_types.contains_key(x));
        assert(b.types.types[a.named_types[x] as int] == a.types.types[a.named_types[x] as int]);
        let id = ty(a.types, a.named_types[x])->Struct_0;
        assert(b.types.structs[id.0 as int] == a.types.structs[id.0 as int]);
    }
}

proof fn still_enum(a: State, b: State, name: Seq<char>, n: nat, x: Seq<char>, names: Seq<Seq<char>>)
    requires
        adds(a, b, name, n),
        x != name,
    ensures
        is_enum_of(a, x, names) ==> is_enum_of(b, x, names) && b.named_types[x] == a.named_types[x],
{
    if is_enum_of(a, x, names) {
        assert(b.named_types.contains_key(x));
        assert(b.types.types[a.named_types[x] as int] == a.types.types[a.named_types[x] as int]);
        let id = ty(a.types, a.named_types[x])->Enum_0;
        assert(b.types.enums[id.0 as int] == a.types.enums[id.0 as int]);
    }
}

proof fn still_type(a: State, b: State, name: Seq<char>, n: nat, id: TypeId)
    requires
        adds(a, b, name, n),
        id < a.types.types.len(),
    ensures
        id < b.types.types.len(),
        ty(b.types, id) == ty(a.types, id),
{
    assert(b.types.types[id as int] == a.types.types[id as int]);
}

proof fn adds_type(s: State, t: Type)
    requires
        sound(s.types),
        grounded(s.types, t, s.types.types.len()),
        s.types.types.len() < usize::MAX,
    ensures
        ({
            let (s1, id) = intern_type(s, t);
            &&& adds(s, s1, "TypeInfo"@, 1)
            &&& s1.named_types == s.named_types
            &&& id < s1.types.types.len()
            &&& ty(s1.types, id) == t
        }),
{
    law_stored_types_are_found_again(s.types, t);
    let (s1, id) = intern_type(s, t);
    assert(goes_on(s.types.structs, s1.types.structs));
    assert(goes_on(s.types.enums, s1.types.enums));
    if s.types.types.contains(t) {
        assert(s.types.types[s.types.types.index_of(t)] == t);
    }
}

proof fn adds_struct(s: State, name: Seq<char>, fields: Seq<NamedTypeV>)
    requires
        sound(s.types),
        s.types.types.len() < usize::MAX,
        s.types.structs.len() < usize::MAX,
    ensures
        ({
            let (s1, t) = install_struct(s, name, fields);
            &&& adds(s, s1, name, 1)
            &&& is_struct_of(s1, name, fields)
            &&& s1.named_types[name] == t
        }),
{
    let id = StructId(s.types.structs.len() as usize);
    let def = StructShapeV { name, fields, methods: Seq::empty() };
    let more = State { types: Types { structs: s.types.structs.push(def), ..s.types }, ..s };
    assert forall|i: int| 0 <= i < more.types.types.len() implies grounded(
        more.types,
        #[trigger] more.types.types[i],
        i as nat,
    ) by {
        assert(grounded(s.types, s.types.types[i], i as nat));
    }
    adds_type(more, Type::Struct(id));
    let (s1, t) = install_struct(s, name, fields);
    assert(goes_on(s.types.structs, s1.types.structs));
    assert(goes_on(s.types.enums, s1.types.enums));
}

proof fn adds_enum(s: State, name: Seq<char>, names: Seq<Seq<char>>)
    requires
        sound(s.types),
        s.types.types.len() < usize::MAX,
        s.types.enums.len() < usize::MAX,
    ensures
        ({
            let (s1, t) = install_enum(s, name, names);
            &&& adds(s, s1, name, 1)
            &&& is_enum_of(s1, name, names)
            &&& s1.named_types[name] == t
        }),
{
    let id = EnumId(s.types.enums.len() as usize);
    let def = EnumShapeV { name, variants: unit_variants(names) };
    let more = State { types: Types { enums: s.types.enums.push(def), ..s.types }, ..s };
    assert forall|i: int| 0 <= i < more.types.types.len() implies grounded(
        more.types,
        #[trigger] more.types.types[i],
        i as nat,
    ) by {
        assert(grounded(s.types, s.types.types[i], i as nat));
    }
    adds_type(more, Type::Enum(id));
    let (s1, t) = install_enum(s, name, names);
    assert(goes_on(s.types.structs, s1.types.structs));
    assert(goes_on(s.types.enums, s1.types.enums));
}

/// `TypeInfo` holds a kind, perhaps a primitive tag, and a list of further values of itself.
pub proof fn law_type_infos(s: State, kinds: TypeId, primitives: TypeId)
    requires
        sound(s.types),
        s.types.types.len() + 4 <= usize::MAX,
        s.types.structs.len() < usize::MAX,
        primitives < s.types.types.len(),
    ensures
        ({
            let (after, info) = install_info(s, kinds, primitives);
            exists|a: TypeId, b: TypeId|
                #![trigger info_parts(kinds, a, b)]
                is_struct_of(after, "TypeInfo"@, info_parts(kinds, a, b)) && ty(after.types, a) == Type::Optional(
                    primitives,
                ) && ty(after.types, b) == Type::List(info)
        }),
        install_info(s, kinds, primitives).0.named_types["TypeInfo"@] == install_info(s, kinds, primitives).1,
{
    let name = "TypeInfo"@;
    let id = StructId(s.types.structs.len() as usize);
    let def = StructShapeV { name, fields: Seq::empty(), methods: Seq::empty() };
    let s1 = State { types: Types { structs: s.types.structs.push(def), ..s.types }, ..s };
    assert forall|i: int| 0 <= i < s1.types.types.len() implies grounded(
        s1.types,
        #[trigger] s1.types.types[i],
        i as nat,
    ) by {
        assert(grounded(s.types, s.types.types[i], i as nat));
    }
    adds_type(s1, Type::Struct(id));
    let (s2, info) = intern_type(s1, Type::Struct(id));
    adds_type(s2, Type::List(info));
    let (s3, infos) = intern_type(s2, Type::List(info));
    still_type(s2, s3, name, 1, info);
    adds_type(s3, Type::Optional(primitives));
    let (s4, maybe) = intern_type(s3, Type::Optional(primitives));
    still_type(s3, s4, name, 1, info);
    still_type(s3, s4, name, 1, infos);
    let (after, _) = install_info(s, kinds, primitives);
    assert(s4.types.structs.len() == s.types.structs.len() + 1);
    assert(after.types.structs[id.0 as int].fields == info_parts(kinds, maybe, infos));
    assert(is_struct_of(after, name, info_parts(kinds, maybe, infos)));
    assert(ty(after.types, maybe) == Type::Optional(primitives));
    assert(ty(after.types, infos) == Type::List(info));
}

/// A `TypeField` tells of a field with its kind and its `TypeInfo`; the fields of a bitfield
/// are told with their shapes.
pub proof fn law_type_fields(s: State, kinds: TypeId, shapes: TypeId, info: TypeId)
    requires
        sound(s.types),
        s.types.types.len() + 8 <= usize::MAX,
        s.types.structs.len() + 4 <= usize::MAX,
        info < s.types.types.len(),
    ensures
        ({
            let (after, field) = install_fields(s, kinds, shapes, info);
            &&& after.named_types["TypeField"@] == field
            &&& exists|a: TypeId|
                #![trigger field_parts(a, kinds, info)]
                is_struct_of(after, "TypeField"@, field_parts(a, kinds, info)) && ty(after.types, a)
                    == Type::Optional(TypeInterner::STRING)
            &&& exists|a: TypeId|
                #![trigger slot_parts(shapes, info, a)]
                is_struct_of(after, "TypeBitfieldField"@, slot_parts(shapes, info, a)) && ty(after.types, a)
                    == Type::Optional(info)
            &&& exists|a: TypeId|
                #![trigger bitfield_parts(a)]
                is_struct_of(after, "TypeBitfield"@, bitfield_parts(a)) && ty(after.types, a) == Type::List(
                    after.named_types["TypeBitfieldField"@],
                )
        }),
{
    described_names_differ();
    lemma_basics(s.types);
    adds_type(s, Type::Optional(TypeInterner::STRING));
    let (s1, maybe_string) = intern_type(s, Type::Optional(TypeInterner::STRING));
    still_type(s, s1, "TypeInfo"@, 1, info);
    let fields = field_parts(maybe_string, kinds, info);
    adds_struct(s1, "TypeField"@, fields);
    let (s2, field) = install_struct(s1, "TypeField"@, fields);
    still_type(s1, s2, "TypeField"@, 1, info);
    still_type(s1, s2, "TypeField"@, 1, maybe_string);
    adds_type(s2, Type::Optional(info));
    let (s3, maybe_info) = intern_type(s2, Type::Optional(info));
    still(s2, s3, "TypeInfo"@, 1, "TypeField"@, fields);
    still_type(s2, s3, "TypeInfo"@, 1, maybe_string);
    let slots = slot_parts(shapes, info, maybe_info);
    adds_struct(s3, "TypeBitfieldField"@, slots);
    let (s4, slot) = install_struct(s3, "TypeBitfieldField"@, slots);
    still(s3, s4, "TypeBitfieldField"@, 1, "TypeField"@, fields);
    still_type(s3, s4, "TypeBitfieldField"@, 1, maybe_string);
    still_type(s3, s4, "TypeBitfieldField"@, 1, maybe_info);
    adds_type(s4, Type::List(slot));
    let (s5, list) = intern_type(s4, Type::List(slot));
    still(s4, s5, "TypeInfo"@, 1, "TypeField"@, fields);
    still(s4, s5, "TypeInfo"@, 1, "TypeBitfieldField"@, slots);
    still_type(s4, s5, "TypeInfo"@, 1, maybe_string);
    still_type(s4, s5, "TypeInfo"@, 1, maybe_info);
    adds_struct(s5, "TypeBitfield"@, bitfield_parts(list));
    let (s6, _) = install_struct(s5, "TypeBitfield"@, bitfield_parts(list));
    still(s5, s6, "TypeBitfield"@, 1, "TypeField"@, fields);
    still(s5, s6, "TypeBitfield"@, 1, "TypeBitfieldField"@, slots);
    still_type(s5, s6, "TypeBitfield"@, 1, maybe_string);
    still_type(s5, s6, "TypeBitfield"@, 1, maybe_info);
    still_type(s5, s6, "TypeBitfield"@, 1, list);
    assert(install_fields(s, kinds, shapes, info) == (s6, field));
    assert(is_struct_of(s6, "TypeField"@, field_parts(maybe_string, kinds, info)));
    assert(is_struct_of(s6, "TypeBitfieldField"@, slot_parts(shapes, info, maybe_info)));
    assert(is_struct_of(s6, "TypeBitfield"@, bitfield_parts(list)));
}

/// Variants and machine states hold lists of `TypeField`, and a machine lists its states and
/// the steps between them.
pub proof fn law_type_owners(s: State, field: TypeId)
    requires
        sound(s.types),
        s.types.types.len() + 10 <= usize::MAX,
        s.types.structs.len() + 5 <= usize::MAX,
        field < s.types.types.len(),
    ensures
        ({
            let after = install_owners(s, field);
            &&& exists|a: TypeId|
                #![trigger variant_parts(a)]
                is_struct_of(after, "TypeVariant"@, variant_parts(a)) && ty(after.types, a) == Type::List(field)
            &&& exists|a: TypeId|
                #![trigger state_parts(a)]
                is_struct_of(after, "TypeMachineState"@, state_parts(a)) && ty(after.types, a) == Type::List(field)
            &&& is_struct_of(after, "TypeMachineTransition"@, edge_parts())
            &&& exists|a: TypeId, b: TypeId|
                #![trigger machine_parts(a, b)]
                is_struct_of(after, "TypeMachine"@, machine_parts(a, b)) && ty(after.types, a) == Type::List(
                    after.named_types["TypeMachineState"@],
                ) && ty(after.types, b) == Type::List(after.named_types["TypeMachineTransition"@])
        }),
{
    described_names_differ();
    let none = "TypeInfo"@;
    adds_type(s, Type::List(field));
    let (s1, fields) = intern_type(s, Type::List(field));
    still_type(s, s1, none, 1, field);
    adds_struct(s1, "TypeVariant"@, variant_parts(fields));
    let (s2, _) = install_struct(s1, "TypeVariant"@, variant_parts(fields));
    still_type(s1, s2, "TypeVariant"@, 1, field);
    still_type(s1, s2, "TypeVariant"@, 1, fields);
    adds_type(s2, Type::List(field));
    let (s3, more) = intern_type(s2, Type::List(field));
    still(s2, s3, none, 1, "TypeVariant"@, variant_parts(fields));
    still_type(s2, s3, none, 1, fields);
    adds_struct(s3, "TypeMachineState"@, state_parts(more));
    let (s4, state) = install_struct(s3, "TypeMachineState"@, state_parts(more));
    still(s3, s4, "TypeMachineState"@, 1, "TypeVariant"@, variant_parts(fields));
    still_type(s3, s4, "TypeMachineState"@, 1, fields);
    still_type(s3, s4, "TypeMachineState"@, 1, more);
    let edge_name = "TypeMachineTransition"@;
    adds_struct(s4, edge_name, edge_parts());
    let (s5, edge) = install_struct(s4, edge_name, edge_parts());
    still(s4, s5, edge_name, 1, "TypeVariant"@, variant_parts(fields));
    still(s4, s5, edge_name, 1, "TypeMachineState"@, state_parts(more));
    still_type(s4, s5, edge_name, 1, fields);
    still_type(s4, s5, edge_name, 1, more);
    adds_type(s5, Type::List(state));
    let (s6, states) = intern_type(s5, Type::List(state));
    still(s5, s6, none, 1, "TypeVariant"@, variant_parts(fields));
    still(s5, s6, none, 1, "TypeMachineState"@, state_parts(more));
    still(s5, s6, none, 1, edge_name, edge_parts());
    still_type(s5, s6, none, 1, fields);
    still_type(s5, s6, none, 1, more);
    adds_type(s6, Type::List(edge));
    let (s7, edges) = intern_type(s6, Type::List(edge));
    still(s6, s7, none, 1, "TypeVariant"@, variant_parts(fields));
    still(s6, s7, none, 1, "TypeMachineState"@, state_parts(more));
    still(s6, s7, none, 1, edge_name, edge_parts());
    still_type(s6, s7, none, 1, fields);
    still_type(s6, s7, none, 1, more);
    still_type(s6, s7, none, 1, states);
    let name = "TypeMachine"@;
    adds_struct(s7, name, machine_parts(states, edges));
    let s8 = install_struct(s7, name, machine_parts(states, edges)).0;
    still(s7, s8, name, 1, "TypeVariant"@, variant_parts(fields));
    still(s7, s8, name, 1, "TypeMachineState"@, state_parts(more));
    still(s7, s8, name, 1, edge_name, edge_parts());
    still_type(s7, s8, name, 1, fields);
    still_type(s7, s8, name, 1, more);
    still_type(s7, s8, name, 1, states);
    still_type(s7, s8, name, 1, edges);
    assert(install_owners(s, field) == s8);
    assert(is_struct_of(s8, "TypeVariant"@, variant_parts(fields)));
    assert(is_struct_of(s8, "TypeMachineState"@, state_parts(more)));
    assert(is_struct_of(s8, name, machine_parts(states, edges)));
}

/// Whether the steps from `a` to `b` keep all types, and all names but those.
spec fn carried(a: State, b: State, names: Set<Seq<char>>) -> bool {
    &&& sound(b.types)
    &&& goes_on(a.types.types, b.types.types)
    &&& goes_on(a.types.structs, b.types.structs)
    &&& goes_on(a.types.enums, b.types.enums)
    &&& b.types.types.len() <= a.types.types.len() + 8
    &&& b.types.structs.len() <= a.types.structs.len() + 4
    &&& forall|x: Seq<char>|
        !names.contains(x) && a.named_types.contains_key(x) ==> #[trigger] b.named_types.contains_key(x)
            && b.named_types[x] == a.named_types[x]
}

proof fn carried_struct(a: State, b: State, names: Set<Seq<char>>, x: Seq<char>, fields: Seq<NamedTypeV>)
    requires
        carried(a, b, names),
        !names.contains(x),
        is_struct_of(a, x, fields),
    ensures
        is_struct_of(b, x, fields),
        b.named_types[x] == a.named_types[x],
{
    assert(b.named_types.contains_key(x));
    assert(b.types.types[a.named_types[x] as int] == a.types.types[a.named_types[x] as int]);
    let id = ty(a.types, a.named_types[x])->Struct_0;
    assert(b.types.structs[id.0 as int] == a.types.structs[id.0 as int]);
}

proof fn carried_enum(a: State, b: State, names: Set<Seq<char>>, x: Seq<char>, variants: Seq<Seq<char>>)
    requires
        carried(a, b, names),
        !names.contains(x),
        is_enum_of(a, x, variants),
    ensures
        is_enum_of(b, x, variants),
        b.named_types[x] == a.named_types[x],
{
    assert(b.named_types.contains_key(x));
    assert(b.types.types[a.named_types[x] as int] == a.types.types[a.named_types[x] as int]);
    let id = ty(a.types, a.named_types[x])->Enum_0;
    assert(b.types.enums[id.0 as int] == a.types.enums[id.0 as int]);
}

proof fn carried_type(a: State, b: State, names: Set<Seq<char>>, id: TypeId)
    requires
        carried(a, b, names),
        id < a.types.types.len(),
    ensures
        id < b.types.types.len(),
        ty(b.types, id) == ty(a.types, id),
{
    assert(b.types.types[id as int] == a.types.types[id as int]);
}

proof fn infos_are_carried(s: State, kinds: TypeId, primitives: TypeId)
    requires
        sound(s.types),
        s.types.types.len() + 4 <= usize::MAX,
        s.types.structs.len() < usize::MAX,
        primitives < s.types.types.len(),
    ensures
        carried(s, install_info(s, kinds, primitives).0, set!["TypeInfo"@]),
{
    let name = "TypeInfo"@;
    let id = StructId(s.types.structs.len() as usize);
    let def = StructShapeV { name, fields: Seq::empty(), methods: Seq::empty() };
    let s1 = State { types: Types { structs: s.types.structs.push(def), ..s.types }, ..s };
    assert forall|i: int| 0 <= i < s1.types.types.len() implies grounded(
        s1.types,
        #[trigger] s1.types.types[i],
        i as nat,
    ) by {
        assert(grounded(s.types, s.types.types[i], i as nat));
    }
    adds_type(s1, Type::Struct(id));
    let (s2, info) = intern_type(s1, Type::Struct(id));
    adds_type(s2, Type::List(info));
    let (s3, infos) = intern_type(s2, Type::List(info));
    adds_type(s3, Type::Optional(primitives));
    let (s4, maybe) = intern_type(s3, Type::Optional(primitives));
    let after = install_info(s, kinds, primitives).0;
    assert(s4.types.structs == s1.types.structs);
    assert(after.types.structs.len() == s4.types.structs.len());
    assert forall|i: int| 0 <= i < after.types.types.len() implies grounded(
        after.types,
        #[trigger] after.types.types[i],
        i as nat,
    ) by {
        assert(grounded(s4.types, s4.types.types[i], i as nat));
    }
    assert(goes_on(s.types.types, after.types.types));
    assert(goes_on(s.types.structs, after.types.structs));
    assert(goes_on(s.types.enums, after.types.enums));
}

proof fn fields_are_carried(s: State, kinds: TypeId, shapes: TypeId, info: TypeId)
    requires
        sound(s.types),
        s.types.types.len() + 8 <= usize::MAX,
        s.types.structs.len() + 4 <= usize::MAX,
        info < s.types.types.len(),
    ensures
        carried(
            s,
            install_fields(s, kinds, shapes, info).0,
            set!["TypeField"@, "TypeBitfieldField"@, "TypeBitfield"@],
        ),
        install_fields(s, kinds, shapes, info).1 < install_fields(s, kinds, shapes, info).0.types.types.len(),
{
    lemma_basics(s.types);
    adds_type(s, Type::Optional(TypeInterner::STRING));
    let (s1, maybe_string) = intern_type(s, Type::Optional(TypeInterner::STRING));
    still_type(s, s1, "TypeInfo"@, 1, info);
    let fields = field_parts(maybe_string, kinds, info);
    adds_struct(s1, "TypeField"@, fields);
    let (s2, field) = install_struct(s1, "TypeField"@, fields);
    still_type(s1, s2, "TypeField"@, 1, info);
    adds_type(s2, Type::Optional(info));
    let (s3, maybe_info) = intern_type(s2, Type::Optional(info));
    let slots = slot_parts(shapes, info, maybe_info);
    adds_struct(s3, "TypeBitfieldField"@, slots);
    let (s4, slot) = install_struct(s3, "TypeBitfieldField"@, slots);
    adds_type(s4, Type::List(slot));
    let (s5, list) = intern_type(s4, Type::List(slot));
    adds_struct(s5, "TypeBitfield"@, bitfield_parts(list));
    let after = install_struct(s5, "TypeBitfield"@, bitfield_parts(list)).0;
    assert(install_fields(s, kinds, shapes, info) == (after, field));
    assert forall|i: int| 0 <= i < s.types.types.len() implies after.types.types[i] == #[trigger] s.types.types[i] by {
        assert(s1.types.types[i] == s.types.types[i]);
        assert(s2.types.types[i] == s.types.types[i]);
        assert(s3.types.types[i] == s.types.types[i]);
        assert(s4.types.types[i] == s.types.types[i]);
        assert(s5.types.types[i] == s.types.types[i]);
    }
    assert forall|i: int| 0 <= i < s.types.structs.len() implies after.types.structs[i]
        == #[trigger] s.types.structs[i] by {
        assert(s2.types.structs[i] == s.types.structs[i]);
        assert(s4.types.structs[i] == s.types.structs[i]);
    }
    assert(goes_on(s.types.types, after.types.types));
    assert(goes_on(s.types.structs, after.types.structs));
    assert(goes_on(s.types.enums, after.types.enums));
}

proof fn owners_are_carried(s: State, field: TypeId)
    requires
        sound(s.types),
        s.types.types.len() + 10 <= usize::MAX,
        s.types.structs.len() + 5 <= usize::MAX,
        field < s.types.types.len(),
    ensures
        carried(
            s,
            install_owners(s, field),
            set!["TypeVariant"@, "TypeMachineState"@, "TypeMachineTransition"@, "TypeMachine"@],
        ),
{
    let none = "TypeInfo"@;
    adds_type(s, Type::List(field));
    let (s1, fields) = intern_type(s, Type::List(field));
    still_type(s, s1, none, 1, field);
    adds_struct(s1, "TypeVariant"@, variant_parts(fields));
    let (s2, _) = install_struct(s1, "TypeVariant"@, variant_parts(fields));
    still_type(s1, s2, "TypeVariant"@, 1, field);
    adds_type(s2, Type::List(field));
    let (s3, more) = intern_type(s2, Type::List(field));
    adds_struct(s3, "TypeMachineState"@, state_parts(more));
    let (s4, state) = install_struct(s3, "TypeMachineState"@, state_parts(more));
    adds_struct(s4, "TypeMachineTransition"@, edge_parts());
    let (s5, edge) = install_struct(s4, "TypeMachineTransition"@, edge_parts());
    still_type(s4, s5, "TypeMachineTransition"@, 1, state);
    adds_type(s5, Type::List(state));
    let (s6, states) = intern_type(s5, Type::List(state));
    still_type(s5, s6, none, 1, edge);
    adds_type(s6, Type::List(edge));
    let (s7, edges) = intern_type(s6, Type::List(edge));
    adds_struct(s7, "TypeMachine"@, machine_parts(states, edges));
    let after = install_struct(s7, "TypeMachine"@, machine_parts(states, edges)).0;
    assert(install_owners(s, field) == after);
    assert forall|i: int| 0 <= i < s.types.types.len() implies after.types.types[i] == #[trigger] s.types.types[i] by {
        assert(s1.types.types[i] == s.types.types[i]);
        assert(s2.types.types[i] == s.types.types[i]);
        assert(s3.types.types[i] == s.types.types[i]);
        assert(s4.types.types[i] == s.types.types[i]);
        assert(s5.types.types[i] == s.types.types[i]);
        assert(s6.types.types[i] == s.types.types[i]);
        assert(s7.types.types[i] == s.types.types[i]);
    }
    assert forall|i: int| 0 <= i < s.types.structs.len() implies after.types.structs[i]
        == #[trigger] s.types.structs[i] by {
        assert(s2.types.structs[i] == s.types.structs[i]);
        assert(s4.types.structs[i] == s.types.structs[i]);
        assert(s5.types.structs[i] == s.types.structs[i]);
    }
    assert(goes_on(s.types.types, after.types.types));
    assert(goes_on(s.types.structs, after.types.structs));
    assert(goes_on(s.types.enums, after.types.enums));
}

#[verifier::rlimit(50)]
proof fn what_describes_types(s3: State, kinds: TypeId, primitives: TypeId, shapes: TypeId)
    requires
        sound(s3.types),
        s3.types.types.len() + 30 <= usize::MAX,
        s3.types.structs.len() + 15 <= usize::MAX,
        is_enum_of(s3, "TypeKind"@, kind_names()),
        is_enum_of(s3, "TypePrimitive"@, primitive_names()),
        is_enum_of(s3, "TypeBitfieldFieldShape"@, slot_shape_names()),
        s3.named_types["TypeKind"@] == kinds,
        s3.named_types["TypePrimitive"@] == primitives,
        s3.named_types["TypeBitfieldFieldShape"@] == shapes,
    ensures
        ({
            let (s4, info_id) = install_info(s3, kinds, primitives);
            let (s5, field_id) = install_fields(s4, kinds, shapes, info_id);
            let after = install_owners(s5, field_id);
            let kinds = after.named_types["TypeKind"@];
            let info = after.named_types["TypeInfo"@];
            &&& is_enum_of(after, "TypeKind"@, kind_names())
            &&& is_enum_of(after, "TypePrimitive"@, primitive_names())
            &&& is_enum_of(after, "TypeBitfieldFieldShape"@, seq!["bits_field"@, "payload_field"@])
            &&& exists|a: TypeId, b: TypeId|
                #![trigger info_parts(kinds, a, b)]
                is_struct_of(after, "TypeInfo"@, info_parts(kinds, a, b)) && ty(after.types, a) == Type::Optional(
                    after.named_types["TypePrimitive"@],
                ) && ty(after.types, b) == Type::List(info)
            &&& exists|a: TypeId|
                #![trigger field_parts(a, kinds, info)]
                is_struct_of(after, "TypeField"@, field_parts(a, kinds, info)) && ty(after.types, a)
                    == Type::Optional(TypeInterner::STRING)
            &&& exists|a: TypeId|
                #![trigger slot_parts(after.named_types["TypeBitfieldFieldShape"@], info, a)]
                is_struct_of(
                    after,
                    "TypeBitfieldField"@,
                    slot_parts(after.named_types["TypeBitfieldFieldShape"@], info, a),
                ) && ty(after.types, a) == Type::Optional(info)
            &&& exists|a: TypeId|
                #![trigger variant_parts(a)]
                is_struct_of(after, "TypeVariant"@, variant_parts(a)) && ty(after.types, a) == Type::List(
                    after.named_types["TypeField"@],
                )
            &&& exists|a: TypeId|
                #![trigger state_parts(a)]
                is_struct_of(after, "TypeMachineState"@, state_parts(a)) && ty(after.types, a) == Type::List(
                    after.named_types["TypeField"@],
                )
        }),
{
    described_names_differ();
    let (a, b, c) = ("TypeKind"@, "TypePrimitive"@, "TypeBitfieldFieldShape"@);
    infos_are_carried(s3, kinds, primitives);
    law_type_infos(s3, kinds, primitives);
    let (s4, info) = install_info(s3, kinds, primitives);
    let n1 = set!["TypeInfo"@];
    carried_enum(s3, s4, n1, a, kind_names());
    carried_enum(s3, s4, n1, b, primitive_names());
    carried_enum(s3, s4, n1, c, slot_shape_names());
    fields_are_carried(s4, kinds, shapes, info);
    law_type_fields(s4, kinds, shapes, info);
    let (s5, field) = install_fields(s4, kinds, shapes, info);
    let n2 = set!["TypeField"@, "TypeBitfieldField"@, "TypeBitfield"@];
    carried_enum(s4, s5, n2, a, kind_names());
    carried_enum(s4, s5, n2, b, primitive_names());
    carried_enum(s4, s5, n2, c, slot_shape_names());
    owners_are_carried(s5, field);
    law_type_owners(s5, field);
    let s6 = install_owners(s5, field);
    let n3 = set!["TypeVariant"@, "TypeMachineState"@, "TypeMachineTransition"@, "TypeMachine"@];
    carried_enum(s5, s6, n3, a, kind_names());
    carried_enum(s5, s6, n3, b, primitive_names());
    carried_enum(s5, s6, n3, c, slot_shape_names());
    let (p, q) = choose|p: TypeId, q: TypeId|
        #![trigger info_parts(kinds, p, q)]
        is_struct_of(s4, "TypeInfo"@, info_parts(kinds, p, q)) && ty(s4.types, p) == Type::Optional(primitives)
            && ty(s4.types, q) == Type::List(info);
    let parts = info_parts(kinds, p, q);
    carried_struct(s4, s5, n2, "TypeInfo"@, parts);
    carried_struct(s5, s6, n3, "TypeInfo"@, parts);
    carried_type(s4, s5, n2, p);
    carried_type(s5, s6, n3, p);
    carried_type(s4, s5, n2, q);
    carried_type(s5, s6, n3, q);
    let x = choose|x: TypeId|
        #![trigger field_parts(x, kinds, info)]
        is_struct_of(s5, "TypeField"@, field_parts(x, kinds, info)) && ty(s5.types, x) == Type::Optional(
            TypeInterner::STRING,
        );
    carried_struct(s5, s6, n3, "TypeField"@, field_parts(x, kinds, info));
    carried_type(s5, s6, n3, x);
    let y = choose|y: TypeId|
        #![trigger slot_parts(shapes, info, y)]
        is_struct_of(s5, "TypeBitfieldField"@, slot_parts(shapes, info, y)) && ty(s5.types, y) == Type::Optional(
            info,
        );
    carried_struct(s5, s6, n3, "TypeBitfieldField"@, slot_parts(shapes, info, y));
    carried_type(s5, s6, n3, y);
    assert(is_struct_of(s6, "TypeInfo"@, info_parts(kinds, p, q)));
    assert(is_struct_of(s6, "TypeField"@, field_parts(x, kinds, info)));
    assert(is_struct_of(s6, "TypeBitfieldField"@, slot_parts(shapes, info, y)));
}

/// Before a module is checked, the kinds, primitive tags and shapes of bitfield fields are
/// enums, and what tells of types holds them: a `TypeInfo` a kind and perhaps a primitive tag,
/// a `TypeField` a kind and a `TypeInfo`, a field of a bitfield a shape and a `TypeInfo`.
pub proof fn law_what_describes_types_is_declared(s: State)
    requires
        sound(s.types),
        s.types.types.len() + 40 <= usize::MAX,
        s.types.structs.len() + 20 <= usize::MAX,
        s.types.enums.len() + 3 <= usize::MAX,
    ensures
        ({
            let after = install_metadata(s);
            let kinds = after.named_types["TypeKind"@];
            let info = after.named_types["TypeInfo"@];
            &&& is_enum_of(after, "TypeKind"@, kind_names())
            &&& is_enum_of(after, "TypePrimitive"@, primitive_names())
            &&& is_enum_of(after, "TypeBitfieldFieldShape"@, seq!["bits_field"@, "payload_field"@])
            &&& exists|a: TypeId, b: TypeId|
                #![trigger info_parts(kinds, a, b)]
                is_struct_of(after, "TypeInfo"@, info_parts(kinds, a, b)) && ty(after.types, a) == Type::Optional(
                    after.named_types["TypePrimitive"@],
                ) && ty(after.types, b) == Type::List(info)
            &&& exists|a: TypeId|
                #![trigger field_parts(a, kinds, info)]
                is_struct_of(after, "TypeField"@, field_parts(a, kinds, info)) && ty(after.types, a)
                    == Type::Optional(TypeInterner::STRING)
            &&& exists|a: TypeId|
                #![trigger slot_parts(after.named_types["TypeBitfieldFieldShape"@], info, a)]
                is_struct_of(
                    after,
                    "TypeBitfieldField"@,
                    slot_parts(after.named_types["TypeBitfieldFieldShape"@], info, a),
                ) && ty(after.types, a) == Type::Optional(info)
            &&& exists|a: TypeId|
                #![trigger variant_parts(a)]
                is_struct_of(after, "TypeVariant"@, variant_parts(a)) && ty(after.types, a) == Type::List(
                    after.named_types["TypeField"@],
                )
            &&& exists|a: TypeId|
                #![trigger state_parts(a)]
                is_struct_of(after, "TypeMachineState"@, state_parts(a)) && ty(after.types, a) == Type::List(
                    after.named_types["TypeField"@],
                )
        }),
{
    described_names_differ();
    reveal(install_metadata);
    let (a, b, c) = ("TypeKind"@, "TypePrimitive"@, "TypeBitfieldFieldShape"@);
    adds_enum(s, a, kind_names());
    let (s1, kinds) = install_enum(s, a, kind_names());
    adds_enum(s1, b, primitive_names());
    let (s2, primitives) = install_enum(s1, b, primitive_names());
    still_enum(s1, s2, b, 1, a, kind_names());
    adds_enum(s2, c, slot_shape_names());
    let (s3, shapes) = install_enum(s2, c, slot_shape_names());
    still_enum(s2, s3, c, 1, a, kind_names());
    still_enum(s2, s3, c, 1, b, primitive_names());
    what_describes_types(s3, kinds, primitives, shapes);
    let (s4, info) = install_info(s3, kinds, primitives);
    let (s5, field) = install_fields(s4, kinds, shapes, info);
    assert(install_metadata(s) == install_owners(s5, field));
}

/// The checking of a module starts with nothing reported and nothing known but its names and
/// the types that describe types.
pub proof fn law_first_states(names: Names)
    ensures
        ({
            let s = first_state(names);
            &&& s.names == names
            &&& s.reports.len() == 0
            &&& s.type_env == Map::<DefId, TypeId>::empty()
            &&& s.aliases.dom() == Set::<Seq<char>>::empty()
            &&& s.monos.len() == 0
            &&& s.facts.len() == 0
            &&& s.subst == Map::<Seq<char>, TypeId>::empty()
            &&& s == install_metadata(blank_state(names))
        }),
{
    reveal(first_state);
    reveal(install_metadata);
}

proof fn described_names_differ()
    ensures
        "TypeKind"@ != "TypePrimitive"@,
        "TypeKind"@ != "TypeBitfieldFieldShape"@,
        "TypeKind"@ != "TypeInfo"@,
        "TypeKind"@ != "TypeField"@,
        "TypeKind"@ != "TypeBitfieldField"@,
        "TypeKind"@ != "TypeBitfield"@,
        "TypeKind"@ != "TypeVariant"@,
        "TypeKind"@ != "TypeMachineState"@,
        "TypeKind"@ != "TypeMachineTransition"@,
        "TypeKind"@ != "TypeMachine"@,
        "TypePrimitive"@ != "TypeBitfieldFieldShape"@,
        "TypePrimitive"@ != "TypeInfo"@,
        "TypePrimitive"@ != "TypeField"@,
        "TypePrimitive"@ != "TypeBitfieldField"@,
        "TypePrimitive"@ != "TypeBitfield"@,
        "TypePrimitive"@ != "TypeVariant"@,
        "TypePrimitive"@ != "TypeMachineState"@,
        "TypePrimitive"@ != "TypeMachineTransition"@,
        "TypePrimitive"@ != "TypeMachine"@,
        "TypeBitfieldFieldShape"@ != "TypeInfo"@,
        "TypeBitfieldFieldShape"@ != "TypeField"@,
        "TypeBitfieldFieldShape"@ != "TypeBitfieldField"@,
        "TypeBitfieldFieldShape"@ != "TypeBitfield"@,
        "TypeBitfieldFieldShape"@ != "TypeVariant"@,
        "TypeBitfieldFieldShape"@ != "TypeMachineState"@,
        "TypeBitfieldFieldShape"@ != "TypeMachineTransition"@,
        "TypeBitfieldFieldShape"@ != "TypeMachine"@,
        "TypeInfo"@ != "TypeField"@,
        "TypeInfo"@ != "TypeBitfieldField"@,
        "TypeInfo"@ != "TypeBitfield"@,
        "TypeInfo"@ != "TypeVariant"@,
        "TypeInfo"@ != "TypeMachineState"@,
        "TypeInfo"@ != "TypeMachineTransition"@,
        "TypeInfo"@ != "TypeMachine"@,
        "TypeField"@ != "TypeBitfieldField"@,
        "TypeField"@ != "TypeBitfield"@,
        "TypeField"@ != "TypeVariant"@,
        "TypeField"@ != "TypeMachineState"@,
        "TypeField"@ != "TypeMachineTransition"@,
        "TypeField"@ != "TypeMachine"@,
        "TypeBitfieldField"@ != "TypeBitfield"@,
        "TypeBitfieldField"@ != "TypeVariant"@,
        "TypeBitfieldField"@ != "TypeMachineState"@,
        "TypeBitfieldField"@ != "TypeMachineTransition"@,
        "TypeBitfieldField"@ != "TypeMachine"@,
        "TypeBitfield"@ != "TypeVariant"@,
        "TypeBitfield"@ != "TypeMachineState"@,
        "TypeBitfield"@ != "TypeMachineTransition"@,
        "TypeBitfield"@ != "TypeMachine"@,
        "TypeVariant"@ != "TypeMachineState"@,
        "TypeVariant"@ != "TypeMachineTransition"@,
        "TypeVariant"@ != "TypeMachine"@,
        "TypeMachineState"@ != "TypeMachineTransition"@,
        "TypeMachineState"@ != "TypeMachine"@,
        "TypeMachineTransition"@ != "TypeMachine"@,
{
    reveal_strlit("TypeKind");
    assert("TypeKind"@.len() == 8);
    reveal_strlit("TypePrimitive");
    assert("TypePrimitive"@.len() == 13);
    reveal_strlit("TypeBitfieldFieldShape");
    assert("TypeBitfieldFieldShape"@.len() == 22);
    reveal_strlit("TypeInfo");
    assert("TypeInfo"@.len() == 8);
    reveal_strlit("TypeField");
    assert("TypeField"@.len() == 9);
    reveal_strlit("TypeBitfieldField");
    assert("TypeBitfieldField"@.len() == 17);
    reveal_strlit("TypeBitfield");
    assert("TypeBitfield"@.len() == 12);
    reveal_strlit("TypeVariant");
    assert("TypeVariant"@.len() == 11);
    reveal_strlit("TypeMachineState");
    assert("TypeMachineState"@.len() == 16);
    reveal_strlit("TypeMachineTransition");
    assert("TypeMachineTransition"@.len() == 21);
    reveal_strlit("TypeMachine");
    assert("TypeMachine"@.len() == 11);
    assert("TypeKind"@[4] == 'K');
    assert("TypeInfo"@[4] == 'I');
    assert("TypeVariant"@[4] == 'V');
    assert("TypeMachine"@[4] == 'M');
}

} // verus!
