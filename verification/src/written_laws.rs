//! Which types written types stand for, how types are written, and which fit where.
use vstd::prelude::*;

use crate::ast::{Ident, Param, TypeExpr};
use crate::diagnostics::{error, ErrorCode};
use crate::expression_laws::{has_room, laid_open, nothing_reported};
use crate::handling_laws::with_report;
use crate::names::pure_params;
use crate::reflect_types::{fields_info, primitive_id, primitive_named};
use crate::resolution::{declared_at, definition_at, full_name, is_capability, Names};
use crate::span::Span;
use crate::state::{intern_type, with_types, MonoV, State};
use crate::text::decimal;
use crate::type_laws::law_stored_types_are_found_again;
use crate::type_names::{name_of, param_names};
use crate::type_rules::{
    all_parts, can_coarsen, can_refine, compatible, contains_secret, expected_numeric,
    float_literal_matches, fractional, fully_coarsened, int_literal_matches, integer_range,
    json_needs_view, json_unsupported, literal_fits, numeric, open_parts, public_projection,
    refinement_base, refinement_boundary_input, requires_bare_handle, requires_handle_error,
    satisfies, secret_fields, secret_fields_among, wrap_secret, Impls,
};
use crate::type_walk::{named_ids, parts, state_ids, variant_ids, WalkMode};
use crate::types::{
    intern, intern_function, intern_refinement, lemma_basics, sound, state_named, ty,
    BitfieldFieldShapeV, FunctionShapeV, NamedTypeV, RefinementShapeV, StructId, StructShapeV, Type,
    TypeId, TypeInterner, Types,
};
use crate::written_types::{
    alias_at, applied_name, bind_params, fields_at, generic_at, list_at, machine_state_type,
    methods_at, mono_named, named_at, names_joined, resolve_at, struct_at, unknown_type,
    wrong_count,
};

verus! {

// ---------------------------------------------------------------------------
// Names
// ---------------------------------------------------------------------------

/// A place refers to what it was resolved to, or else to what is declared there last.
pub proof fn law_places_refer_to_definitions(names: Names, span: Span)
    ensures
        names.resolutions.contains_key(span) ==> definition_at(names, span) == Some(names.resolutions[span]),
        !names.resolutions.contains_key(span) ==> (match definition_at(names, span) {
            Some(id) => id.0 < names.definitions.len() && names.definitions[id.0 as int].span == span && forall|
                j: int,
            |
                id.0 < j < names.definitions.len() ==> (#[trigger] names.definitions[j]).span != span,
            None => forall|j: int|
                0 <= j < names.definitions.len() ==> (#[trigger] names.definitions[j]).span != span,
        } || names.definitions.len() > usize::MAX),
{
    if !names.resolutions.contains_key(span) && names.definitions.len() <= usize::MAX {
        declared_last(names, span, names.definitions.len());
    }
}

proof fn declared_last(names: Names, span: Span, n: nat)
    requires
        n <= names.definitions.len() <= usize::MAX,
    ensures
        match declared_at(names.definitions, span, n) {
            Some(id) => id.0 < n && names.definitions[id.0 as int].span == span && forall|j: int|
                id.0 < j < n ==> (#[trigger] names.definitions[j]).span != span,
            None => forall|j: int| 0 <= j < n ==> (#[trigger] names.definitions[j]).span != span,
        },
    decreases n,
{
    if n > 0 && names.definitions[n - 1].span != span {
        declared_last(names, span, (n - 1) as nat);
    }
}

/// A parameter is a capability where its type, or what it views, is named as one. A function
/// is pure where it has none.
pub proof fn law_capabilities(names: Names, t: TypeExpr, params: Seq<Param>)
    ensures
        is_capability(names, t) <==> match t {
            TypeExpr::Named(ident) => names.capabilities.contains(ident.name@),
            TypeExpr::View(inner, _) => is_capability(names, *inner),
            _ => false,
        },
        pure_params(names, params) <==> !(exists|i: int|
            0 <= i < params.len() && is_capability(names, (#[trigger] params[i]).ty)),
{
}

// ---------------------------------------------------------------------------
// Written types
// ---------------------------------------------------------------------------

/// A name stands, in this order, for the type argument that it is a parameter for, for a
/// primitive type, for a declared type, for an alias, or for a capability, which is no type. A
/// name that is none of these is reported.
pub proof fn law_named_types(s: State, ident: Ident, depth: nat)
    ensures
        ({
            let full = full_name(s.names, ident.name@, ident.span);
            resolve_at(s, TypeExpr::Named(ident), depth) == if s.subst.contains_key(ident.name@) {
                (s, s.subst[ident.name@])
            } else if primitive_named(ident.name@) is Some {
                (s, primitive_id(primitive_named(ident.name@)->0))
            } else if s.named_types.contains_key(full) {
                (s, s.named_types[full])
            } else if s.aliases.contains_key(full) {
                alias_at(s, full, ident.span, depth)
            } else if s.names.capabilities.contains(ident.name@) {
                (s, TypeInterner::ERROR)
            } else {
                (
                    with_report(s, ErrorCode::UnknownType, ident.span, seq![ident.name@]),
                    TypeInterner::ERROR,
                )
            }
        }),
{
    let full = full_name(s.names, ident.name@, ident.span);
    assert(resolve_at(s, TypeExpr::Named(ident), depth) == named_at(s, ident.name@, ident.span, depth));
    assert(unknown_type(s, ident.name@, ident.span) == with_report(
        s,
        ErrorCode::UnknownType,
        ident.span,
        seq![ident.name@],
    ));
    reveal_with_fuel(named_at, 2);
}

/// The primitive types are called by their names.
pub proof fn law_primitive_names(types: Types)
    requires
        sound(types),
    ensures
        primitive_named("int8"@) == Some(Type::Int8),
        primitive_named("int16"@) == Some(Type::Int16),
        primitive_named("int32"@) == Some(Type::Int32),
        primitive_named("int64"@) == Some(Type::Int64),
        primitive_named("uint8"@) == Some(Type::Uint8),
        primitive_named("uint16"@) == Some(Type::Uint16),
        primitive_named("uint32"@) == Some(Type::Uint32),
        primitive_named("uint64"@) == Some(Type::Uint64),
        primitive_named("float32"@) == Some(Type::Float32),
        primitive_named("float64"@) == Some(Type::Float64),
        primitive_named("string"@) == Some(Type::String),
        primitive_named("bool"@) == Some(Type::Bool),
        primitive_named("bytes"@) == Some(Type::Bytes),
        primitive_named("nothing"@) == Some(Type::Nothing),
        primitive_named("TypeConstruction"@) == Some(Type::TypeConstruction),
        forall|name: Seq<char>| #[trigger]
            primitive_named(name) matches Some(t) ==> ty(types, primitive_id(t)) == t && name_of(
                types,
                primitive_id(t),
            ) == name,
{
    lemma_basics(types);
    reveal_strlit("int8");
    assert("int8"@.len() == 4);
    assert("int8"@[0] == 'i');
    assert("int8"@[1] == 'n');
    assert("int8"@[2] == 't');
    assert("int8"@[3] == '8');
    reveal_strlit("int16");
    assert("int16"@.len() == 5);
    assert("int16"@[0] == 'i');
    assert("int16"@[1] == 'n');
    assert("int16"@[3] == '1');
    assert("int16"@[4] == '6');
    reveal_strlit("int32");
    assert("int32"@.len() == 5);
    assert("int32"@[0] == 'i');
    assert("int32"@[1] == 'n');
    assert("int32"@[3] == '3');
    assert("int32"@[4] == '2');
    reveal_strlit("int64");
    assert("int64"@.len() == 5);
    assert("int64"@[0] == 'i');
    assert("int64"@[1] == 'n');
    assert("int64"@[3] == '6');
    assert("int64"@[4] == '4');
    reveal_strlit("uint8");
    assert("uint8"@.len() == 5);
    assert("uint8"@[0] == 'u');
    assert("uint8"@[1] == 'i');
    assert("uint8"@[3] == 't');
    assert("uint8"@[4] == '8');
    reveal_strlit("uint16");
    assert("uint16"@.len() == 6);
    assert("uint16"@[0] == 'u');
    assert("uint16"@[1] == 'i');
    assert("uint16"@[3] == 't');
    assert("uint16"@[4] == '1');
    assert("uint16"@[5] == '6');
    reveal_strlit("uint32");
    assert("uint32"@.len() == 6);
    assert("uint32"@[0] == 'u');
    assert("uint32"@[1] == 'i');
    assert("uint32"@[3] == 't');
    assert("uint32"@[4] == '3');
    assert("uint32"@[5] == '2');
    reveal_strlit("uint64");
    assert("uint64"@.len() == 6);
    assert("uint64"@[0] == 'u');
    assert("uint64"@[1] == 'i');
    assert("uint64"@[3] == 't');
    assert("uint64"@[4] == '6');
    assert("uint64"@[5] == '4');
    reveal_strlit("float32");
    assert("float32"@.len() == 7);
    assert("float32"@[0] == 'f');
    assert("float32"@[1] == 'l');
    assert("float32"@[3] == 'a');
    assert("float32"@[5] == '3');
    assert("float32"@[6] == '2');
    reveal_strlit("float64");
    assert("float64"@.len() == 7);
    assert("float64"@[0] == 'f');
    assert("float64"@[1] == 'l');
    assert("float64"@[3] == 'a');
    assert("float64"@[5] == '6');
    assert("float64"@[6] == '4');
    reveal_strlit("string");
    assert("string"@.len() == 6);
    assert("string"@[0] == 's');
    assert("string"@[1] == 't');
    assert("string"@[3] == 'i');
    assert("string"@[4] == 'n');
    assert("string"@[5] == 'g');
    reveal_strlit("bool");
    assert("bool"@.len() == 4);
    assert("bool"@[0] == 'b');
    assert("bool"@[1] == 'o');
    assert("bool"@[2] == 'o');
    assert("bool"@[3] == 'l');
    reveal_strlit("bytes");
    assert("bytes"@.len() == 5);
    assert("bytes"@[0] == 'b');
    assert("bytes"@[1] == 'y');
    assert("bytes"@[3] == 'e');
    assert("bytes"@[4] == 's');
    reveal_strlit("nothing");
    assert("nothing"@.len() == 7);
    assert("nothing"@[0] == 'n');
    assert("nothing"@[1] == 'o');
    assert("nothing"@[3] == 'h');
    assert("nothing"@[5] == 'n');
    assert("nothing"@[6] == 'g');
    reveal_strlit("TypeConstruction");
    assert("TypeConstruction"@.len() == 16);
    assert("TypeConstruction"@[0] == 'T');
    assert("TypeConstruction"@[1] == 'y');
    assert("TypeConstruction"@[3] == 'e');
    assert("TypeConstruction"@[14] == 'o');
    assert("TypeConstruction"@[15] == 'n');
}

/// `list`, `set`, `optional` and `secret` take one type, `map` and `result` two, and make the
/// type that they say. Another number of types is reported.
pub proof fn law_builtin_generic_types(s: State, name: Ident, args: Vec<TypeExpr>, span: Span, depth: nat)
    requires
        ({
            let (s1, x) = resolve_at(s, args@[0], depth);
            has_room(s1) && x < s1.types.types.len()
        }),
        args@.len() == 2 ==> ({
            let (s1, x) = resolve_at(s, args@[0], depth);
            let (s2, y) = resolve_at(s1, args@[1], depth);
            has_room(s2) && x < s2.types.types.len() && y < s2.types.types.len()
        }),
    ensures
        ({
            let one = name.name@ == "list"@ || name.name@ == "set"@ || name.name@ == "optional"@ || name.name@
                == "secret"@;
            let two = name.name@ == "map"@ || name.name@ == "result"@;
            let (after, t) = resolve_at(s, TypeExpr::Generic(name, args, span), depth);
            &&& one && args@.len() == 1 ==> ({
                let (s1, x) = resolve_at(s, args@[0], depth);
                nothing_reported(s1, after) && ty(after.types, t) == if name.name@ == "list"@ {
                    Type::List(x)
                } else if name.name@ == "set"@ {
                    Type::SetOf(x)
                } else if name.name@ == "optional"@ {
                    Type::Optional(x)
                } else {
                    Type::Secret(x)
                }
            })
            &&& two && args@.len() == 2 ==> ({
                let (s1, x) = resolve_at(s, args@[0], depth);
                let (s2, y) = resolve_at(s1, args@[1], depth);
                nothing_reported(s2, after) && ty(after.types, t) == if name.name@ == "map"@ {
                    Type::MapOf(x, y)
                } else {
                    Type::Result(x, y)
                }
            })
            &&& one && args@.len() != 1 ==> t == TypeInterner::ERROR && after == with_report(
                s,
                ErrorCode::UnknownType,
                name.span,
                seq![wrong_count(name.name@, "1 type argument"@, args@.len())],
            )
            &&& two && args@.len() != 2 ==> t == TypeInterner::ERROR && after == with_report(
                s,
                ErrorCode::UnknownType,
                name.span,
                seq![wrong_count(name.name@, "2 type arguments"@, args@.len())],
            )
        }),
{
    reveal_strlit("list");
    reveal_strlit("set");
    reveal_strlit("optional");
    reveal_strlit("secret");
    reveal_strlit("map");
    reveal_strlit("result");
    assert("list"@.len() == 4 && "set"@.len() == 3 && "optional"@.len() == 8 && "secret"@.len() == 6);
    assert("map"@.len() == 3 && "result"@.len() == 6);
    assert("set"@[0] == 's' && "map"@[0] == 'm' && "secret"@[0] == 's' && "result"@[0] == 'r');
    let (s1, x) = resolve_at(s, args@[0], depth);
    law_stored_types_are_found_again(s1.types, Type::List(x));
    law_stored_types_are_found_again(s1.types, Type::SetOf(x));
    law_stored_types_are_found_again(s1.types, Type::Optional(x));
    law_stored_types_are_found_again(s1.types, Type::Secret(x));
    if args@.len() == 2 {
        let (s2, y) = resolve_at(s1, args@[1], depth);
        law_stored_types_are_found_again(s2.types, Type::MapOf(x, y));
        law_stored_types_are_found_again(s2.types, Type::Result(x, y));
    }
    let e = TypeExpr::Generic(name, args, span);
    assert(resolve_at(s, e, depth) == generic_at(s, name.name@, args, name.span, depth));
}

/// Any other generic name stands for the generic struct of that name, and is reported where
/// there is none.
pub proof fn law_generic_struct_types(s: State, name: Ident, args: Vec<TypeExpr>, span: Span, depth: nat)
    requires
        name.name@ != "list"@,
        name.name@ != "set"@,
        name.name@ != "optional"@,
        name.name@ != "secret"@,
        name.name@ != "map"@,
        name.name@ != "result"@,
    ensures
        ({
            let full = full_name(s.names, name.name@, name.span);
            let (s1, ids) = list_at(s, args, 0, Seq::empty(), depth);
            resolve_at(s, TypeExpr::Generic(name, args, span), depth)
                == if s.generic_struct_templates.contains_key(full) {
                struct_at(s1, full, ids, name.span, depth)
            } else {
                (
                    with_report(s, ErrorCode::UnknownType, name.span, seq![name.name@]),
                    TypeInterner::ERROR,
                )
            }
        }),
{
    let e = TypeExpr::Generic(name, args, span);
    assert(resolve_at(s, e, depth) == generic_at(s, name.name@, args, name.span, depth));
}

/// A generic struct that was not made with the arguments before is made: its fields and methods
/// are those that are written, with the parameters standing for the arguments, and it is found
/// again as what it was made with. Another number of arguments is reported.
pub proof fn law_generic_structs_are_made(s: State, name: Seq<char>, args: Seq<TypeId>, span: Span, depth: nat)
    requires
        depth > 0,
        s.generic_struct_templates.contains_key(name),
        forall|i: int|
            0 <= i < s.monos.len() ==> (#[trigger] s.monos[i]).name != name || s.monos[i].args != args,
    ensures
        ({
            let template = s.generic_struct_templates[name];
            let inside = State {
                subst: bind_params(Map::empty(), template.type_params@, args, 0),
                nested: s.nested.push(name),
                ..s
            };
            let (s1, fields) = fields_at(inside, template.fields, 0, Seq::empty(), (depth - 1) as nat);
            let (s2, methods) = methods_at(s1, template.methods, 0, Seq::empty(), (depth - 1) as nat);
            let (after, t) = struct_at(s, name, args, span, depth);
            &&& template.type_params@.len() != args.len() ==> t == TypeInterner::ERROR && after == with_report(
                s,
                ErrorCode::UnknownType,
                span,
                seq![
                    wrong_count(
                        name,
                        decimal(template.type_params@.len()) + " type argument(s)"@,
                        args.len(),
                    ),
                ],
            )
            &&& template.type_params@.len() == args.len() ==> {
                &&& after.subst == s.subst
                &&& after.nested == s.nested
                &&& after.reports == s2.reports
                &&& after.monos == s2.monos.push(MonoV { name, args, ty: t })
                &&& after.types.structs.len() == s2.types.structs.len() + 1
                &&& after.types.structs.last().name == applied_name(s2.types, name, args)
                &&& after.types.structs.last().fields == fields
                &&& after.types.structs.last().methods == methods
                &&& has_room(s2) && s2.types.structs.len() < usize::MAX ==> ty(after.types, t) == Type::Struct(
                    StructId(s2.types.structs.len() as usize),
                )
                &&& after.reflection_fields[t].owner == applied_name(s2.types, name, args)
                &&& after.reflection_fields[t].fields == fields_info(
                    s2.types,
                    s2.monos,
                    template.fields@,
                    fields,
                )
            }
        }),
{
    not_made(s.monos, name, args, s.monos.len());
    reveal_with_fuel(struct_at, 2);
    let template = s.generic_struct_templates[name];
    let inside = State {
        subst: bind_params(Map::empty(), template.type_params@, args, 0),
        nested: s.nested.push(name),
        ..s
    };
    let (s1, fields) = fields_at(inside, template.fields, 0, Seq::empty(), (depth - 1) as nat);
    let (s2, methods) = methods_at(s1, template.methods, 0, Seq::empty(), (depth - 1) as nat);
    if has_room(s2) && s2.types.structs.len() < usize::MAX {
        let def = StructShapeV { name: applied_name(s2.types, name, args), fields, methods };
        law_stored_types_are_found_again(
            Types { structs: s2.types.structs.push(def), ..s2.types },
            Type::Struct(StructId(s2.types.structs.len() as usize)),
        );
    }
}

proof fn not_made(monos: Seq<MonoV>, name: Seq<char>, args: Seq<TypeId>, n: nat)
    requires
        forall|i: int| 0 <= i < monos.len() ==> (#[trigger] monos[i]).name != name || monos[i].args != args,
    ensures
        mono_named(monos, name, args, n) is None,
    decreases n,
{
    if 0 < n <= monos.len() {
        not_made(monos, name, args, (n - 1) as nat);
    }
}

/// A view of a type is that type; a function type is made of its parts; a state of a machine is
/// one that the machine has.
pub proof fn law_other_written_types(
    s: State,
    inner: Box<TypeExpr>,
    params: Vec<TypeExpr>,
    ret: Box<TypeExpr>,
    state: Ident,
    span: Span,
    i: nat,
    found: Seq<TypeId>,
    depth: nat,
)
    ensures
        resolve_at(s, TypeExpr::View(inner, span), depth) == resolve_at(s, *inner, depth),
        ({
            let (s1, ids) = list_at(s, params, 0, Seq::empty(), depth);
            let (s2, r) = resolve_at(s1, *ret, depth);
            resolve_at(s, TypeExpr::Function(params, ret, span), depth) == with_types(
                s2,
                intern_function(s2.types, FunctionShapeV { params: ids, return_type: r }),
            )
        }),
        ({
            let (s1, base) = resolve_at(s, *inner, depth);
            resolve_at(s, TypeExpr::StateQualified(inner, state, span), depth) == machine_state_type(
                s1,
                base,
                state,
            )
        }),
        list_at(s, params, i, found, depth) == if i >= params@.len() {
            (s, found)
        } else {
            let (s1, x) = resolve_at(s, params@[i as int], depth);
            list_at(s1, params, i + 1, found.push(x), depth)
        },
{
    reveal_with_fuel(list_at, 2);
}

/// A machine at a state is the machine's own type at that state. A state that the machine does
/// not have is reported, and so is what is no machine, unless it was before.
pub proof fn law_machines_at_states(s: State, base: TypeId, state: Ident)
    ensures
        ({
            let machine = match ty(s.types, base) {
                Type::Machine(m) => Some(m),
                Type::MachineState { machine, state: _ } => Some(machine),
                _ => None,
            };
            let (after, t) = machine_state_type(s, base, state);
            match machine {
                Some(m) => {
                    let def = s.types.machines[m.0 as int];
                    match state_named(def, state.name@) {
                        Some(id) => (after, t) == intern_type(
                            s,
                            Type::MachineState { machine: m, state: id },
                        ),
                        None => t == TypeInterner::ERROR && after == with_report(
                            s,
                            ErrorCode::UnknownType,
                            state.span,
                            seq![def.name + " at "@ + state.name@],
                        ),
                    }
                },
                None => t == TypeInterner::ERROR && after == if ty(s.types, base) is Error {
                    s
                } else {
                    with_report(
                        s,
                        ErrorCode::UnknownType,
                        state.span,
                        seq![name_of(s.types, base) + " at "@ + state.name@],
                    )
                },
            }
        }),
{
}

/// An alias is its base, and a refinement of it where it has a constraint. An alias that goes
/// back to itself is reported.
pub proof fn law_aliases(s: State, name: Seq<char>, span: Span, depth: nat)
    requires
        depth > 0,
        !s.named_types.contains_key(name),
        s.aliases.contains_key(name),
    ensures
        ({
            let alias = s.aliases[name];
            let (after, t) = alias_at(s, name, span, depth);
            if s.resolving.contains(name) {
                t == TypeInterner::ERROR && after == with_report(
                    s,
                    ErrorCode::UnknownType,
                    span,
                    seq![name],
                )
            } else {
                let (s1, base) = resolve_at(
                    State { resolving: s.resolving.push(name), ..s },
                    alias.base_type,
                    (depth - 1) as nat,
                );
                &&& after.reports == s1.reports
                &&& after.named_types == s1.named_types.insert(name, t)
                &&& alias.constraint is None ==> t == base && after.types == s1.types
                &&& alias.constraint is Some ==> (after.types, t) == intern_refinement(
                    s1.types,
                    RefinementShapeV { name, base },
                )
            }
        }),
{
}

// ---------------------------------------------------------------------------
// How types are written
// ---------------------------------------------------------------------------

/// How a type is shown: by its own name, or by its kind and what it holds.
pub proof fn law_types_are_shown(ts: Types, id: TypeId)
    requires
        sound(ts),
    ensures
        match ty(ts, id) {
            Type::List(x) => name_of(ts, id) == "list["@ + name_of(ts, x) + "]"@,
            Type::SetOf(x) => name_of(ts, id) == "set["@ + name_of(ts, x) + "]"@,
            Type::Optional(x) => name_of(ts, id) == "optional["@ + name_of(ts, x) + "]"@,
            Type::Secret(x) => name_of(ts, id) == "secret["@ + name_of(ts, x) + "]"@,
            Type::MapOf(k, v) => name_of(ts, id) == "map["@ + name_of(ts, k) + ", "@ + name_of(ts, v) + "]"@,
            Type::Result(k, v) => name_of(ts, id) == "result["@ + name_of(ts, k) + ", "@ + name_of(ts, v)
                + "]"@,
            Type::Struct(x) => name_of(ts, id) == ts.structs[x.0 as int].name,
            Type::Bitfield(x) => name_of(ts, id) == ts.bitfields[x.0 as int].name,
            Type::Enum(x) => name_of(ts, id) == ts.enums[x.0 as int].name,
            Type::Interface(x) => name_of(ts, id) == ts.interfaces[x.0 as int].name,
            Type::Actor(x) => name_of(ts, id) == ts.actors[x.0 as int].name,
            Type::Machine(x) => name_of(ts, id) == ts.machines[x.0 as int].name,
            Type::MachineState { machine, state } => state.0 < ts.machines[machine.0 as int].states.len()
                ==> name_of(ts, id) == ts.machines[machine.0 as int].name + " at "@
                + ts.machines[machine.0 as int].states[state.0 as int].name,
            Type::Function(f) => name_of(ts, id) == "function("@ + param_names(ts, id, 0) + ") returns "@
                + name_of(ts, ts.functions[f.0 as int].return_type),
            Type::Refinement(r) => name_of(ts, id) == ts.refinements[r.0 as int].name,
            Type::Error => name_of(ts, id) == "<error>"@,
            _ => true,
        },
{
}

/// A generic struct is shown with its arguments behind its name, in their order.
pub proof fn law_generic_structs_are_shown(ts: Types, name: Seq<char>, ids: Seq<TypeId>, i: nat)
    ensures
        applied_name(ts, name, ids) == name + "["@ + names_joined(ts, ids, 0) + "]"@,
        names_joined(ts, ids, i) == if i >= ids.len() {
            Seq::empty()
        } else if i + 1 == ids.len() {
            name_of(ts, ids[i as int])
        } else {
            name_of(ts, ids[i as int]) + ", "@ + names_joined(ts, ids, i + 1)
        },
{
}

// ---------------------------------------------------------------------------
// Which types fit
// ---------------------------------------------------------------------------

/// Of two different types that are not the error type, which fits where the other is asked
/// for: what holds parts fits part by part, a secret asks for what it holds, an interface for
/// what implements it, a machine for one of its states, and nothing else fits.
pub proof fn law_which_types_fit(ts: Types, impls: Impls, expected: TypeId, got: TypeId)
    requires
        sound(ts),
        expected != got,
        expected != TypeInterner::ERROR,
        got != TypeInterner::ERROR,
    ensures
        ({
            let fits = compatible(ts, impls, expected, got);
            let g = ty(ts, got);
            match ty(ts, expected) {
                Type::List(x) => fits <==> (g matches Type::List(y) && compatible(ts, impls, x, y)),
                Type::SetOf(x) => fits <==> (g matches Type::SetOf(y) && compatible(ts, impls, x, y)),
                Type::Optional(x) => fits <==> (g matches Type::Optional(y) && compatible(ts, impls, x, y)),
                Type::MapOf(k, v) => fits <==> (g matches Type::MapOf(a, b) && compatible(ts, impls, k, a)
                    && compatible(ts, impls, v, b)),
                Type::Result(k, v) => fits <==> (g matches Type::Result(a, b) && compatible(ts, impls, k, a)
                    && compatible(ts, impls, v, b)),
                Type::Secret(x) => fits <==> compatible(ts, impls, x, laid_open(ts, got)),
                Type::Interface(_) => fits <==> !(g is Interface) && impls.contains_key((expected, got)),
                Type::Machine(m) => fits <==> (g matches Type::MachineState { machine, state: _ } && machine == m),
                Type::Function(f) => fits <==> (g matches Type::Function(h) && ({
                    let (a, b) = (ts.functions[f.0 as int], ts.functions[h.0 as int]);
                    &&& a.params.len() == b.params.len()
                    &&& compatible(ts, impls, a.return_type, b.return_type)
                    &&& forall|i: int|
                        0 <= i < a.params.len() ==> compatible(ts, impls, #[trigger] a.params[i], b.params[i])
                })),
                _ => !fits,
            }
        }),
{
}

/// A value does for a type where it fits, or where the type refines the value's.
pub proof fn law_what_does_for_a_type(ts: Types, impls: Impls, expected: TypeId, got: TypeId)
    ensures
        satisfies(ts, impls, expected, got) <==> compatible(ts, impls, expected, got) || ty(ts, expected)
            is Refinement && can_refine(ts, got, expected),
        requires_handle_error(ts, impls, expected, got) <==> (ty(ts, got) matches Type::Result(x, _) && !(ty(
            ts,
            expected,
        ) is Result) && satisfies(ts, impls, expected, x)),
        requires_bare_handle(ts, impls, expected, got) <==> (ty(ts, got) matches Type::Optional(x) && !(ty(
            ts,
            expected,
        ) is Result) && !(ty(ts, expected) is Optional) && satisfies(ts, impls, expected, x)),
{
}

/// One step of refining: a refinement can be tested for values of its base, of what its base
/// holds in secret, and of what its base can be tested for.
pub proof fn law_one_step_of_refining(ts: Types, source: TypeId, refinement: TypeId)
    requires
        sound(ts),
    ensures
        match ty(ts, refinement) {
            Type::Refinement(r) => {
                let base = ts.refinements[r.0 as int].base;
                &&& refinement_base(ts, refinement) == Some(base)
                &&& can_refine(ts, source, refinement) <==> source == base || ty(ts, base) == Type::Secret(
                    source,
                ) || can_refine(ts, source, base)
                &&& can_coarsen(ts, refinement, source) <==> source == base || can_coarsen(ts, base, source)
                &&& fully_coarsened(ts, refinement) == fully_coarsened(ts, base)
                &&& refinement_boundary_input(ts, refinement) == laid_open(
                    ts,
                    fully_coarsened(ts, refinement),
                )
            },
            _ => refinement_base(ts, refinement) is None && !can_refine(ts, source, refinement)
                && !can_coarsen(ts, refinement, source) && fully_coarsened(ts, refinement) == refinement,
        },
{
}

// ---------------------------------------------------------------------------
// Numbers
// ---------------------------------------------------------------------------

/// The number types, and which of them hold fractions.
pub proof fn law_number_types(t: Type)
    ensures
        numeric(t) <==> integer_range(t) is Some || fractional(t),
        fractional(t) <==> t is Float32 || t is Float64,
        integer_range(t) is Some <==> t is Int8 || t is Int16 || t is Int32 || t is Int64 || t is Uint8 || t
            is Uint16 || t is Uint32 || t is Uint64,
        integer_range(t) matches Some((low, high)) ==> low <= 0 < high && (low == 0 || low == -high - 1),
        !(t is Refinement) && !(t is Secret) && integer_range(t) is None && !(t is Float32) && !(t is Float64)
            ==> !numeric(t),
{
}

/// A number of `n` bits holds as many values: with a sign from minus the half on, without from
/// zero on.
pub proof fn law_ranges_of_numbers(value: int)
    ensures
        literal_fits(Type::Int8, value) <==> -128 <= value < 128,
        literal_fits(Type::Int16, value) <==> -32768 <= value < 32768,
        literal_fits(Type::Int32, value) <==> -2147483648 <= value < 2147483648,
        literal_fits(Type::Int64, value) <==> -9223372036854775808 <= value < 9223372036854775808,
        literal_fits(Type::Uint8, value) <==> 0 <= value < 256,
        literal_fits(Type::Uint16, value) <==> 0 <= value < 65536,
        literal_fits(Type::Uint32, value) <==> 0 <= value < 4294967296,
        literal_fits(Type::Uint64, value) <==> 0 <= value < 18446744073709551616,
        !literal_fits(Type::Float64, value),
        !literal_fits(Type::String, value),
{
}

/// Where a secret number is asked for, a number is.
pub proof fn law_numbers_asked_for(ts: Types, value: int, expected: TypeId)
    ensures
        int_literal_matches(ts, value, expected) <==> literal_fits(ty(ts, laid_open(ts, expected)), value),
        float_literal_matches(ts, expected) <==> ty(ts, laid_open(ts, expected)) is Float32 || ty(
            ts,
            laid_open(ts, expected),
        ) is Float64,
        expected_numeric(ts, expected) == if numeric(ty(ts, laid_open(ts, expected))) {
            Some(laid_open(ts, expected))
        } else {
            None
        },
{
}

// ---------------------------------------------------------------------------
// What is inside of types
// ---------------------------------------------------------------------------

/// What a type is directly made of: what it holds, the types of its fields, or its base. Keys,
/// secrets and the fields of machines are looked into where the way of looking says so.
pub proof fn law_parts_of_types(ts: Types, mode: WalkMode, t: Type, x: TypeId)
    ensures
        parts(ts, mode, t).contains(x) <==> match t {
            Type::List(a) => x == a,
            Type::SetOf(a) => x == a,
            Type::Optional(a) => x == a,
            Type::Secret(a) => mode.into_secrets && x == a,
            Type::MapOf(k, v) => x == v || mode.into_keys && x == k,
            Type::Result(a, b) => x == a || x == b,
            Type::Struct(s) => exists|i: int|
                0 <= i < ts.structs[s.0 as int].fields.len() && (#[trigger] ts.structs[s.0 as int].fields[i]).ty == x,
            Type::Bitfield(b) => exists|i: int|
                0 <= i < ts.bitfields[b.0 as int].fields.len() && (
                #[trigger] ts.bitfields[b.0 as int].fields[i]).ty == x,
            Type::Enum(e) => variant_ids(ts.enums[e.0 as int].variants).contains(x),
            Type::Machine(m) => mode.into_machines && state_ids(ts.machines[m.0 as int].states).contains(x),
            Type::MachineState { machine, state } => mode.into_machines && state.0
                < ts.machines[machine.0 as int].states.len() && named_ids(
                ts.machines[machine.0 as int].states[state.0 as int].fields,
            ).contains(x),
            Type::Refinement(r) => x == ts.refinements[r.0 as int].base,
            _ => false,
        },
{
    match t {
        Type::List(a) => one_part(a, x),
        Type::SetOf(a) => one_part(a, x),
        Type::Optional(a) => one_part(a, x),
        Type::Secret(a) => one_part(a, x),
        Type::MapOf(k, v) => {
            one_part(v, x);
            two_parts(k, v, x);
        },
        Type::Result(a, b) => two_parts(a, b, x),
        Type::Refinement(r) => one_part(ts.refinements[r.0 as int].base, x),
        Type::Struct(s) => {
            let fields = ts.structs[s.0 as int].fields;
            if parts(ts, mode, t).contains(x) {
                let i = parts(ts, mode, t).index_of(x);
                assert(fields[i].ty == x);
            }
            if exists|i: int| 0 <= i < fields.len() && (#[trigger] fields[i]).ty == x {
                let i = choose|i: int| 0 <= i < fields.len() && (#[trigger] fields[i]).ty == x;
                assert(parts(ts, mode, t)[i] == x);
            }
        },
        Type::Bitfield(b) => {
            let fields = ts.bitfields[b.0 as int].fields;
            if parts(ts, mode, t).contains(x) {
                let i = parts(ts, mode, t).index_of(x);
                assert(fields[i].ty == x);
            }
            if exists|i: int| 0 <= i < fields.len() && (#[trigger] fields[i]).ty == x {
                let i = choose|i: int| 0 <= i < fields.len() && (#[trigger] fields[i]).ty == x;
                assert(parts(ts, mode, t)[i] == x);
            }
        },
        _ => {},
    }
}

proof fn one_part(a: TypeId, x: TypeId)
    ensures
        seq![a].contains(x) <==> x == a,
{
    assert(seq![a][0] == a);
}

proof fn two_parts(a: TypeId, b: TypeId, x: TypeId)
    ensures
        seq![a, b].contains(x) <==> x == a || x == b,
{
    assert(seq![a, b][0] == a);
    assert(seq![a, b][1] == b);
}

/// Secrets are looked for inside of everything but secrets; JSON is looked at inside of
/// everything.
pub proof fn law_ways_of_looking()
    ensures
        open_parts() == (WalkMode { into_secrets: false, into_keys: true, into_machines: true }),
        all_parts() == (WalkMode { into_secrets: true, into_keys: true, into_machines: true }),
{
}

/// What JSON has no value for, what it takes a view to read, and what of a value is shown in
/// its public form.
pub proof fn law_json_and_types(ts: Types, id: TypeId)
    requires
        sound(ts),
    ensures
        forall|machines: bool| #[trigger]
            json_unsupported(ty(ts, id), machines) <==> ty(ts, id) is TypeConstruction || ty(ts, id) is Interface || ty(
                ts,
                id,
            ) is Actor || ty(ts, id) is Function || !machines && (ty(ts, id) is Machine || ty(ts, id)
                is MachineState),
        json_needs_view(ts, id) <==> match ty(ts, id) {
            Type::Refinement(r) => json_needs_view(ts, ts.refinements[r.0 as int].base),
            t => !numeric(t) && !(t is String) && !(t is Bool) && !(t is Nothing) && !(t is Error),
        },
        public_projection(ts, id) <==> match ty(ts, id) {
            Type::Secret(_) => false,
            Type::List(x) => public_projection(ts, x),
            Type::SetOf(x) => public_projection(ts, x),
            Type::Optional(x) => public_projection(ts, x),
            Type::MapOf(k, v) => public_projection(ts, k) && public_projection(ts, v),
            Type::Result(k, v) => public_projection(ts, k) && public_projection(ts, v),
            Type::Refinement(r) => public_projection(ts, ts.refinements[r.0 as int].base),
            Type::Enum(_) => !contains_secret(ts, id),
            _ => true,
        },
{
}

/// The fields that hold something secret are exactly those whose types do, in their order.
pub proof fn law_secret_fields(ts: Types, fields: Seq<NamedTypeV>, i: nat, name: Seq<char>)
    ensures
        secret_fields_among(ts, fields, i).contains(name) <==> exists|k: int|
            i <= k < fields.len() && (#[trigger] fields[k]).name == name && contains_secret(ts, fields[k].ty),
        forall|id: TypeId| #[trigger]
            secret_fields(ts, id) == match ty(ts, id) {
                Type::Struct(s) => secret_fields_among(ts, ts.structs[s.0 as int].fields, 0),
                Type::Bitfield(b) => secret_fields_among(
                    ts,
                    ts.bitfields[b.0 as int].fields.map_values(
                        |f: BitfieldFieldShapeV| NamedTypeV { name: f.name, ty: f.ty },
                    ),
                    0,
                ),
                _ => Seq::empty(),
            },
    decreases fields.len() - i,
{
    if i < fields.len() {
        law_secret_fields(ts, fields, i + 1, name);
        let rest = secret_fields_among(ts, fields, i + 1);
        let f = fields[i as int];
        if contains_secret(ts, f.ty) {
            let all = seq![f.name] + rest;
            assert(all[0] == f.name);
            assert(forall|j: int| 0 <= j < rest.len() ==> all[j + 1] == #[trigger] rest[j]);
            if all.contains(name) {
                let j = all.index_of(name);
                if j > 0 {
                    assert(rest[j - 1] == name);
                }
            }
            if rest.contains(name) {
                let j = rest.index_of(name);
                assert(all[j + 1] == name);
            }
        }
    }
}

/// A type is made secret where it is tainted, except for `nothing`, the error type and what is
/// secret.
pub proof fn law_what_is_made_secret(ts: Types, id: TypeId, tainted: bool)
    ensures
        !tainted || id == TypeInterner::ERROR || id == TypeInterner::NOTHING || ty(ts, id) is Secret
            ==> wrap_secret(ts, id, tainted) == (ts, id),
        tainted && id != TypeInterner::ERROR && id != TypeInterner::NOTHING && !(ty(ts, id) is Secret)
            ==> wrap_secret(ts, id, tainted) == intern(ts, Type::Secret(id)),
{
}

} // verus!
