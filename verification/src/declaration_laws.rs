//! What declarations make known, and what is reported of them.
use vstd::prelude::*;

use crate::ast::{
    ActorDef, ActorStateField, BitfieldDef, BitfieldField, BitfieldFieldKind, EnumDef,
    EnumVariantDef, FieldDef, FunctionDecl, FunctionDef, InterfaceDecl, Item, MachineDef,
    MachineStateDef, MachineTransitionDef, Param, ReceiveHandler, StructDef, TypeExpr,
};
use crate::declare::{
    announce, bits_slot, decl_signature, decl_signatures, declared_type, earlier_state,
    finish_actor, finish_bitfield, finish_enum, finish_interface, finish_machine, finish_struct,
    fits, greatest, last_numbered, last_serialized, messages_from, named_params, named_states,
    payload_slot, predeclare_actor, predeclare_bitfield, predeclare_enum, predeclare_interface,
    predeclare_machine, predeclare_struct, serialize_names, serialize_names_only_reports, slot_enum,
    slots_from, states_from, transitions_from, variant_at, variants_from,
};
use crate::diagnostics::{error, error_after, ErrorCode};
use crate::expression_laws::{has_room, nothing_reported, reported};
use crate::handling_laws::{with_report, with_variable};
use crate::names::{canonical, next_place, pure_params, PlaceV};
use crate::reflect_types::serialized_name;
use crate::resolution::definition_at;
use crate::span::Span;
use crate::state::{intern_type, State};
use crate::text::signed_decimal;
use crate::type_laws::law_stored_types_are_found_again;
use crate::types::{
    grounded, lemma_basics, put_at, sound, state_named, ty, ActorId, ActorMessageShapeV,
    ActorShapeV, BitfieldFieldShapeV, BitfieldId, BitfieldShapeV, BitfieldSlot, EnumId, EnumShapeV,
    FunctionSigV, InterfaceId, InterfaceShapeV, MachineId, MachineShapeV, MachineStateShapeV,
    MachineTransition, NamedTypeV, SigParamV, StructId, StructShapeV, Type, TypeId, TypeInterner,
    Types, VariantShapeV,
};
use crate::written_types::{
    fields_at, method_at, nesting, params_at, resolve_at, resolve_fields, resolve_param_ids,
    resolve_params, resolve_return, resolve_type, return_at,
};

verus! {

// ---------------------------------------------------------------------------
// Names
// ---------------------------------------------------------------------------

/// A name is known under its namespace, with a dot between; without a namespace as it is. A
/// namespace holds up to the next one, or to the end of its file.
pub proof fn law_names_and_namespaces(namespace: Seq<char>, name: Seq<char>, p: PlaceV, item: Item)
    ensures
        canonical(Some(namespace), name) == namespace + seq!['.'] + name,
        canonical(None, name) == name,
        item matches Item::Namespace(ns) ==> next_place(p, item).namespace == Some(ns.name.name@),
        !(item is Namespace) && p.file == next_place(p, item).file ==> next_place(p, item).namespace == p.namespace,
        !(item is Namespace) && p.file is Some && p.file != next_place(p, item).file ==> next_place(
            p,
            item,
        ).namespace is None,
{
    reveal_strlit(".");
    assert("."@ =~= seq!['.']);
}

/// Whether the type of a declared name is new, and known by the name at its place.
pub open spec fn is_declared(s: State, after: State, name: Seq<char>, span: Span, t: Type) -> bool {
    &&& nothing_reported(s, after)
    &&& after.named_types.contains_key(name)
    &&& ty(after.types, after.named_types[name]) == t
    &&& after == with_variable(after, span, after.named_types[name])
    &&& forall|other: Seq<char>|
        other != name ==> (#[trigger] after.named_types.contains_key(other) <==> s.named_types.contains_key(
            other,
        )) && after.named_types[other] == s.named_types[other]
}

proof fn announced(s: State, name: Seq<char>, span: Span, t: Type)
    requires
        has_room(s),
        grounded(s.types, t, s.types.types.len()),
    ensures
        ({
            let (s1, id) = intern_type(s, t);
            is_declared(s, announce(s1, name, span, id), name, span, t)
        }),
{
    law_stored_types_are_found_again(s.types, t);
    let (s1, id) = intern_type(s, t);
    let after = announce(s1, name, span, id);
    assert(after.named_types[name] == id);
    match definition_at(after.names, span) {
        Some(def) => {
            assert(after.type_env.insert(def, id) =~= after.type_env);
        },
        None => {},
    }
}

proof fn more_definitions_are_sound(a: Types, b: Types)
    requires
        sound(a),
        b.types == a.types,
        b.functions == a.functions,
        b.refinements == a.refinements,
        a.structs.len() <= b.structs.len(),
        a.bitfields.len() <= b.bitfields.len(),
        a.enums.len() <= b.enums.len(),
        a.interfaces.len() <= b.interfaces.len(),
        a.actors.len() <= b.actors.len(),
        a.machines.len() <= b.machines.len(),
    ensures
        sound(b),
{
    assert forall|i: int| 0 <= i < b.types.len() implies grounded(b, #[trigger] b.types[i], i as nat) by {
        assert(grounded(a, a.types[i], i as nat));
    }
}

/// Every declaration of a type makes a new one of its kind, known by its full name, that holds
/// nothing yet.
pub proof fn law_types_are_declared(
    s: State,
    interface: InterfaceDecl,
    bitfield: BitfieldDef,
    enumeration: EnumDef,
    machine: MachineDef,
    actor: ActorDef,
    namespace: Option<Seq<char>>,
)
    requires
        has_room(s),
        s.types.interfaces.len() < usize::MAX,
        s.types.bitfields.len() < usize::MAX,
        s.types.enums.len() < usize::MAX,
        s.types.machines.len() < usize::MAX,
        s.types.actors.len() < usize::MAX,
    ensures
        ({
            let name = canonical(namespace, interface.name.name@);
            let after = predeclare_interface(s, interface, namespace);
            &&& is_declared(
                s,
                after,
                name,
                interface.name.span,
                Type::Interface(InterfaceId(s.types.interfaces.len() as usize)),
            )
            &&& after.types.interfaces == s.types.interfaces.push(
                InterfaceShapeV { name, methods: Seq::empty() },
            )
        }),
        ({
            let name = canonical(namespace, bitfield.name.name@);
            let after = predeclare_bitfield(s, bitfield, namespace);
            &&& is_declared(
                s,
                after,
                name,
                bitfield.name.span,
                Type::Bitfield(BitfieldId(s.types.bitfields.len() as usize)),
            )
            &&& after.types.bitfields == s.types.bitfields.push(
                BitfieldShapeV {
                    name,
                    network_order: bitfield.network_order,
                    fields: Seq::empty(),
                },
            )
        }),
        ({
            let name = canonical(namespace, enumeration.name.name@);
            let after = predeclare_enum(s, enumeration, namespace);
            &&& is_declared(
                s,
                after,
                name,
                enumeration.name.span,
                Type::Enum(EnumId(s.types.enums.len() as usize)),
            )
            &&& after.types.enums == s.types.enums.push(
                EnumShapeV { name, variants: Seq::empty() },
            )
        }),
        ({
            let name = canonical(namespace, machine.name.name@);
            let after = predeclare_machine(s, machine, namespace);
            &&& is_declared(
                s,
                after,
                name,
                machine.name.span,
                Type::Machine(MachineId(s.types.machines.len() as usize)),
            )
            &&& after.types.machines == s.types.machines.push(
                MachineShapeV { name, states: Seq::empty(), transitions: Seq::empty() },
            )
        }),
        ({
            let name = canonical(namespace, actor.name.name@);
            let after = predeclare_actor(s, actor, namespace);
            &&& is_declared(
                s,
                after,
                name,
                actor.name.span,
                Type::Actor(ActorId(s.types.actors.len() as usize)),
            )
            &&& after.types.actors == s.types.actors.push(
                ActorShapeV {
                    name,
                    capability_params: Seq::empty(),
                    state_fields: Seq::empty(),
                    messages: Seq::empty(),
                },
            )
        }),
{
    let ts = s.types;
    let i = State {
        types: Types {
            interfaces: ts.interfaces.push(
                InterfaceShapeV {
                    name: canonical(namespace, interface.name.name@),
                    methods: Seq::empty(),
                },
            ),
            ..ts
        },
        ..s
    };
    more_definitions_are_sound(ts, i.types);
    announced(
        i,
        canonical(namespace, interface.name.name@),
        interface.name.span,
        Type::Interface(InterfaceId(ts.interfaces.len() as usize)),
    );
    let b = State {
        types: Types {
            bitfields: ts.bitfields.push(
                BitfieldShapeV {
                    name: canonical(namespace, bitfield.name.name@),
                    network_order: bitfield.network_order,
                    fields: Seq::empty(),
                },
            ),
            ..ts
        },
        ..s
    };
    more_definitions_are_sound(ts, b.types);
    announced(
        b,
        canonical(namespace, bitfield.name.name@),
        bitfield.name.span,
        Type::Bitfield(BitfieldId(ts.bitfields.len() as usize)),
    );
    let e = State {
        types: Types {
            enums: ts.enums.push(
                EnumShapeV {
                    name: canonical(namespace, enumeration.name.name@),
                    variants: Seq::empty(),
                },
            ),
            ..ts
        },
        ..s
    };
    more_definitions_are_sound(ts, e.types);
    announced(
        e,
        canonical(namespace, enumeration.name.name@),
        enumeration.name.span,
        Type::Enum(EnumId(ts.enums.len() as usize)),
    );
    let m = State {
        types: Types {
            machines: ts.machines.push(
                MachineShapeV {
                    name: canonical(namespace, machine.name.name@),
                    states: Seq::empty(),
                    transitions: Seq::empty(),
                },
            ),
            ..ts
        },
        ..s
    };
    more_definitions_are_sound(ts, m.types);
    announced(
        m,
        canonical(namespace, machine.name.name@),
        machine.name.span,
        Type::Machine(MachineId(ts.machines.len() as usize)),
    );
    let a = State {
        types: Types {
            actors: ts.actors.push(
                ActorShapeV {
                    name: canonical(namespace, actor.name.name@),
                    capability_params: Seq::empty(),
                    state_fields: Seq::empty(),
                    messages: Seq::empty(),
                },
            ),
            ..ts
        },
        ..s
    };
    more_definitions_are_sound(ts, a.types);
    announced(
        a,
        canonical(namespace, actor.name.name@),
        actor.name.span,
        Type::Actor(ActorId(ts.actors.len() as usize)),
    );
}

/// A struct is declared like that too, once fields that JSON would write under one name are
/// reported. A generic struct is kept as a template instead.
pub proof fn law_structs_are_declared(s: State, def: StructDef, namespace: Option<Seq<char>>)
    requires
        has_room(s),
        s.types.structs.len() < usize::MAX,
    ensures
        ({
            let name = canonical(namespace, def.name.name@);
            let told = serialize_names(s, name, def.fields@, 0);
            let after = predeclare_struct(s, def, namespace);
            if def.type_params@.len() > 0 {
                after == (State {
                    generic_struct_templates: told.generic_struct_templates.insert(name, def),
                    ..told
                })
            } else {
                &&& is_declared(
                    told,
                    after,
                    name,
                    def.name.span,
                    Type::Struct(StructId(s.types.structs.len() as usize)),
                )
                &&& after.types.structs == s.types.structs.push(
                    StructShapeV { name, fields: Seq::empty(), methods: Seq::empty() },
                )
            }
        }),
{
    let name = canonical(namespace, def.name.name@);
    serialize_names_only_reports(s, name, def.fields@, 0);
    let told = serialize_names(s, name, def.fields@, 0);
    let more = State {
        types: Types {
            structs: told.types.structs.push(
                StructShapeV { name, fields: Seq::empty(), methods: Seq::empty() },
            ),
            ..told.types
        },
        ..told
    };
    more_definitions_are_sound(s.types, more.types);
    announced(
        more,
        name,
        def.name.span,
        Type::Struct(StructId(s.types.structs.len() as usize)),
    );
}

/// A field that JSON would write under the name of an earlier one is reported with the place of
/// the last such; others are not.
pub proof fn law_serialized_names_differ(s: State, owner: Seq<char>, fields: Seq<FieldDef>, i: nat)
    requires
        i < fields.len(),
    ensures
        ({
            let name = serialized_name(fields[i as int]);
            let taken = exists|j: int| 0 <= j < i && serialized_name(#[trigger] fields[j]) == name;
            if taken {
                exists|j: int|
                    0 <= j < i && serialized_name(#[trigger] fields[j]) == name && serialize_names(
                        s,
                        owner,
                        fields,
                        i,
                    ) == serialize_names(
                        State {
                            reports: s.reports.push(
                                error_after(
                                    ErrorCode::DuplicateJsonSerializeName,
                                    fields[i as int].span,
                                    seq![owner, name],
                                    fields[j].span,
                                ),
                            ),
                            ..s
                        },
                        owner,
                        fields,
                        i + 1,
                    )
            } else {
                serialize_names(s, owner, fields, i) == serialize_names(s, owner, fields, i + 1)
            }
        }),
        serialize_names(s, owner, fields, fields.len()) == s,
{
    serialized_before(fields, serialized_name(fields[i as int]), i);
}

proof fn serialized_before(fields: Seq<FieldDef>, name: Seq<char>, n: nat)
    requires
        n <= fields.len(),
    ensures
        last_serialized(fields, name, n) is Some <==> exists|j: int|
            0 <= j < n && serialized_name(#[trigger] fields[j]) == name,
        last_serialized(fields, name, n) matches Some(at) ==> exists|j: int|
            0 <= j < n && serialized_name(#[trigger] fields[j]) == name && fields[j].span == at,
    decreases n,
{
    if n > 0 {
        if serialized_name(fields[n - 1]) == name {
            assert(fields[n - 1].span == fields[n - 1].span);
        } else {
            serialized_before(fields, name, (n - 1) as nat);
        }
    }
}

/// A field is written under the name that it says, or else under its own.
pub proof fn law_serialized_names(f: FieldDef)
    ensures
        serialized_name(f) == match f.serialize_name {
            Some(name) => name@,
            None => f.name.name@,
        },
{
}

// ---------------------------------------------------------------------------
// Fields, parameters, signatures
// ---------------------------------------------------------------------------

/// Written fields become fields of the same names, in their order, with the types that are
/// written for them.
pub proof fn law_fields_as_written(s: State, defs: Vec<FieldDef>, i: nat, found: Seq<NamedTypeV>, depth: nat)
    ensures
        fields_at(s, defs, i, found, depth) == if i >= defs@.len() {
            (s, found)
        } else {
            let (s1, id) = resolve_at(s, defs@[i as int].ty, depth);
            fields_at(
                s1,
                defs,
                i + 1,
                found.push(NamedTypeV { name: defs@[i as int].name.name@, ty: id }),
                depth,
            )
        },
        resolve_fields(s, defs) == fields_at(s, defs, 0, Seq::empty(), nesting()),
{
    reveal_with_fuel(fields_at, 2);
}

/// Parameters keep their names, types and whether they are views.
pub proof fn law_parameters_as_written(s: State, params: Vec<Param>, i: nat, found: Seq<SigParamV>, depth: nat)
    ensures
        params_at(s, params, i, found, depth) == if i >= params@.len() {
            (s, found)
        } else {
            let p = params@[i as int];
            let (s1, id) = resolve_at(s, p.ty, depth);
            params_at(
                s1,
                params,
                i + 1,
                found.push(SigParamV { name: p.name.name@, ty: id, view: p.view }),
                depth,
            )
        },
        forall|ids: Seq<TypeId>|
            #![trigger resolve_param_ids(s, params@, i, ids)]
            resolve_param_ids(s, params@, i, ids) == if i >= params@.len() {
                (s, ids)
            } else {
                let (s1, id) = resolve_type(s, params@[i as int].ty);
                resolve_param_ids(s1, params@, i + 1, ids.push(id))
            },
        return_at(s, None, depth) == (s, TypeInterner::NOTHING),
{
    reveal_with_fuel(params_at, 2);
}

/// The signature of a method: its name, parameters and result type, and that it is pure where
/// no parameter is a capability.
pub proof fn law_method_signatures(s: State, f: FunctionDef, decl: FunctionDecl, depth: nat)
    ensures
        ({
            let (s1, params) = params_at(s, f.params, 0, Seq::empty(), depth);
            let (s2, ret) = return_at(s1, f.return_type, depth);
            method_at(s, f, depth) == (
                s2,
                FunctionSigV {
                    name: f.name.name@,
                    params,
                    return_type: ret,
                    is_pure: pure_params(s2.names, f.params@),
                },
            )
        }),
        ({
            let (s1, params) = resolve_params(s, decl.params);
            let (s2, ret) = resolve_return(s1, decl.return_type);
            decl_signature(s, decl) == (
                s2,
                FunctionSigV {
                    name: decl.name.name@,
                    params,
                    return_type: ret,
                    is_pure: pure_params(s2.names, decl.params@),
                },
            )
        }),
{
}

/// A struct gets the fields and methods that are written, and keeps its name.
pub proof fn law_structs_are_filled_in(s: State, def: StructDef, namespace: Option<Seq<char>>)
    requires
        def.type_params@.len() == 0,
    ensures
        ({
            let name = canonical(namespace, def.name.name@);
            let after = finish_struct(s, def, namespace);
            match declared_type(s, name) {
                Some(Type::Struct(sid)) => {
                    let fields = resolve_fields(s, def.fields).1;
                    sid.0 < after.types.structs.len() ==> after.types.structs[sid.0 as int].name == name
                        && after.types.structs[sid.0 as int].fields == fields
                },
                _ => after == s,
            }
        }),
        forall|generic: StructDef|
            generic.type_params@.len() > 0 ==> #[trigger] finish_struct(s, generic, namespace) == s,
{
}

/// An interface gets the signatures that are written, in their order.
pub proof fn law_interfaces_are_filled_in(
    s: State,
    def: InterfaceDecl,
    namespace: Option<Seq<char>>,
    fs: Seq<FunctionDecl>,
    i: nat,
    found: Seq<FunctionSigV>,
)
    ensures
        ({
            let name = canonical(namespace, def.name.name@);
            match declared_type(s, name) {
                Some(Type::Interface(iid)) => {
                    let (s1, methods) = decl_signatures(s, def.methods@, 0, Seq::empty());
                    finish_interface(s, def, namespace) == (State {
                        types: Types {
                            interfaces: put_at(
                                s1.types.interfaces,
                                iid.0,
                                InterfaceShapeV { name, methods },
                            ),
                            ..s1.types
                        },
                        ..s1
                    })
                },
                _ => finish_interface(s, def, namespace) == s,
            }
        }),
        decl_signatures(s, fs, i, found) == if i >= fs.len() {
            (s, found)
        } else {
            let (s1, sig) = decl_signature(s, fs[i as int]);
            decl_signatures(s1, fs, i + 1, found.push(sig))
        },
{
}

// ---------------------------------------------------------------------------
// Bitfields
// ---------------------------------------------------------------------------

/// A field of bits is one to sixty-four bits wide. Without an enum it is an `int64`, and a
/// `uint64` where it takes all of them.
pub proof fn law_fields_of_bits(s: State, owner: Seq<char>, field: BitfieldField, width: u16, as_type: Option<TypeExpr>)
    ensures
        ({
            let s1 = if width == 0 {
                with_report(
                    s,
                    ErrorCode::InvalidBitfieldField,
                    field.span,
                    seq![owner, field.name.name@, "bit width must be at least 1"@],
                )
            } else if width > 64 {
                with_report(
                    s,
                    ErrorCode::InvalidBitfieldField,
                    field.span,
                    seq![owner, field.name.name@, "bit width must be at most 64"@],
                )
            } else {
                s
            };
            match as_type {
                None => bits_slot(s, owner, field, width, as_type) == (
                    s1,
                    if width == 64 {
                        TypeInterner::UINT64
                    } else {
                        TypeInterner::INT64
                    },
                ),
                Some(t) => {
                    let (s2, id) = resolve_type(s1, t);
                    bits_slot(s, owner, field, width, as_type) == (
                        slot_enum(s2, owner, field, id, width),
                        id,
                    )
                },
            }
        }),
{
}

/// An annotation names an enum whose variants carry nothing and whose numbers can all be held in
/// the bits. What is not so is reported.
pub proof fn law_annotations_name_an_enum(s: State, owner: Seq<char>, field: BitfieldField, id: TypeId, width: u16)
    requires
        id != TypeInterner::ERROR,
    ensures
        ({
            let after = slot_enum(s, owner, field, id, width);
            match ty(s.types, id) {
                Type::Enum(eid) => {
                    let variants = s.types.enums[eid.0 as int].variants;
                    let carrying = exists|i: int|
                        0 <= i < variants.len() && (#[trigger] variants[i]).fields.len() > 0;
                    let held = variants.len() == 0 || (fits(greatest(variants, variants.len()), width as nat));
                    &&& nothing_reported(s, after) <==> !carrying && fits(
                        greatest(variants, variants.len()),
                        width as nat,
                    )
                    &&& after.reports.len() <= s.reports.len() + 2
                },
                _ => reported(
                    s,
                    after,
                    error(
                        ErrorCode::InvalidBitfieldField,
                        field.span,
                        seq![
                            owner,
                            field.name.name@,
                            "`as` annotations must name an enum type"@,
                        ],
                    ),
                ),
            }
        }),
        slot_enum(s, owner, field, TypeInterner::ERROR, width) == s,
{
    match ty(s.types, id) {
        Type::Enum(eid) => {
            let after = slot_enum(s, owner, field, id, width);
            assert(after.reports.len() == s.reports.len() ==> after == s);
            assert(nothing_reported(s, after) ==> after.reports.len() == s.reports.len());
        },
        _ => {},
    }
}

/// The greatest number of a few variants is one of them, and none is greater.
pub proof fn law_the_greatest_number(variants: Seq<VariantShapeV>, n: nat)
    requires
        0 < n <= variants.len(),
    ensures
        forall|i: int| 0 <= i < n ==> (#[trigger] variants[i]).discriminant <= greatest(variants, n),
        exists|i: int| 0 <= i < n && (#[trigger] variants[i]).discriminant == greatest(variants, n),
    decreases n,
{
    if n > 1 {
        law_the_greatest_number(variants, (n - 1) as nat);
        let k = choose|i: int|
            0 <= i < n - 1 && (#[trigger] variants[i]).discriminant == greatest(variants, (n - 1) as nat);
        assert(variants[k].discriminant <= greatest(variants, n));
        assert(variants[n - 1].discriminant <= greatest(variants, n));
    } else {
        assert(variants[0].discriminant == greatest(variants, n));
    }
}

/// The payload is a list of bytes, comes last, and starts on a whole byte. What is not so is
/// reported, each by itself.
pub proof fn law_payloads_come_last(
    s: State,
    owner: Seq<char>,
    field: BitfieldField,
    t: TypeExpr,
    bytes: TypeId,
    last: bool,
    bits: nat,
)
    ensures
        ({
            let (s1, id) = resolve_type(s, t);
            let (after, got) = payload_slot(s, owner, field, t, bytes, last, bits);
            let wrong = id != TypeInterner::ERROR && id != bytes;
            &&& got == id
            &&& after.reports.len() == s1.reports.len() + (if wrong {
                1int
            } else {
                0
            }) + (if last {
                0int
            } else {
                1
            }) + (if bits % 8 == 0 {
                0int
            } else {
                1
            })
            &&& forall|i: int|
                s1.reports.len() <= i < after.reports.len() ==> (#[trigger] after.reports[i]).code
                    == ErrorCode::InvalidBitfieldField && after.reports[i].span == field.span
        }),
{
}

/// The fields of a bitfield lie one behind the other: each starts where the bits before it end.
pub proof fn law_bits_add_up(
    s: State,
    owner: Seq<char>,
    fields: Seq<BitfieldField>,
    bytes: TypeId,
    bits: nat,
    i: nat,
    found: Seq<BitfieldFieldShapeV>,
)
    requires
        i < fields.len(),
    ensures
        ({
            let field = fields[i as int];
            match field.kind {
                BitfieldFieldKind::Bits { width, as_type } => {
                    let (s1, id) = bits_slot(s, owner, field, width, as_type);
                    slots_from(s, owner, fields, bytes, bits, i, found) == slots_from(
                        s1,
                        owner,
                        fields,
                        bytes,
                        bits + width as nat,
                        i + 1,
                        found.push(
                            BitfieldFieldShapeV {
                                name: field.name.name@,
                                ty: id,
                                kind: BitfieldSlot::Bits { width },
                            },
                        ),
                    )
                },
                BitfieldFieldKind::Payload(t) => {
                    let (s1, id) = payload_slot(
                        s,
                        owner,
                        field,
                        t,
                        bytes,
                        i == fields.len() - 1,
                        bits,
                    );
                    slots_from(s, owner, fields, bytes, bits, i, found) == slots_from(
                        s1,
                        owner,
                        fields,
                        bytes,
                        bits,
                        i + 1,
                        found.push(
                            BitfieldFieldShapeV {
                                name: field.name.name@,
                                ty: id,
                                kind: BitfieldSlot::Payload,
                            },
                        ),
                    )
                },
            }
        }),
{
}

/// A bitfield gets its fields from the first bit on, keeps its name and byte order, and its
/// payload is a list of `uint8`.
pub proof fn law_bitfields_are_filled_in(s: State, def: BitfieldDef, namespace: Option<Seq<char>>)
    requires
        has_room(s),
    ensures
        ({
            let name = canonical(namespace, def.name.name@);
            let after = finish_bitfield(s, def, namespace);
            let (s1, bytes) = intern_type(s, Type::List(TypeInterner::UINT8));
            match declared_type(s, name) {
                Some(Type::Bitfield(bid)) => {
                    &&& ty(s1.types, bytes) == Type::List(TypeInterner::UINT8)
                    &&& bid.0 < after.types.bitfields.len() ==> after.types.bitfields[bid.0 as int] == (
                    BitfieldShapeV {
                        name,
                        network_order: def.network_order,
                        fields: slots_from(
                            s1,
                            def.name.name@,
                            def.fields@,
                            bytes,
                            0,
                            0,
                            Seq::empty(),
                        ).1,
                    })
                },
                _ => after == s,
            }
        }),
{
    lemma_basics(s.types);
    law_stored_types_are_found_again(s.types, Type::List(TypeInterner::UINT8));
}

// ---------------------------------------------------------------------------
// Enums
// ---------------------------------------------------------------------------

/// A variant with a number of its own carries nothing, and no two variants have one number.
/// What is not so is reported, the second with the place of the earlier variant.
pub proof fn law_numbers_of_variants(
    s: State,
    owner: Seq<char>,
    defs: Seq<EnumVariantDef>,
    next: i64,
    found: Seq<VariantShapeV>,
)
    requires
        found.len() < defs.len(),
    ensures
        ({
            let def = defs[found.len() as int];
            let number = match def.discriminant {
                Some(d) => d,
                None => next,
            };
            let s1 = if def.discriminant is Some && def.fields@.len() > 0 {
                with_report(
                    s,
                    ErrorCode::EnumDiscriminantRequiresUnitVariant,
                    def.span,
                    seq![owner, def.name.name@],
                )
            } else {
                s
            };
            let taken = exists|i: int| 0 <= i < found.len() && (#[trigger] found[i]).discriminant == number;
            let (after, v) = variant_at(s, owner, defs, next, found);
            &&& v.name == def.name.name@
            &&& v.discriminant == number
            &&& !taken ==> (after, v.fields) == resolve_fields(s1, def.fields)
            &&& taken ==> exists|i: int|
                0 <= i < found.len() && (#[trigger] found[i]).discriminant == number && (after, v.fields)
                    == resolve_fields(
                    State {
                        reports: s1.reports.push(
                            error_after(
                                ErrorCode::DuplicateEnumDiscriminant,
                                def.name.span,
                                seq![owner, def.name.name@, signed_decimal(number as int)],
                                defs[i].name.span,
                            ),
                        ),
                        ..s1
                    },
                    def.fields,
                )
        }),
{
    let def = defs[found.len() as int];
    let number = match def.discriminant {
        Some(d) => d,
        None => next,
    };
    numbered_before(defs, found, number, found.len());
}

proof fn numbered_before(defs: Seq<EnumVariantDef>, found: Seq<VariantShapeV>, d: i64, n: nat)
    requires
        n <= found.len() <= defs.len(),
    ensures
        last_numbered(defs, found, d, n) is Some <==> exists|i: int|
            0 <= i < n && (#[trigger] found[i]).discriminant == d,
        last_numbered(defs, found, d, n) matches Some(at) ==> exists|i: int|
            0 <= i < n && (#[trigger] found[i]).discriminant == d && defs[i].name.span == at,
    decreases n,
{
    if n > 0 {
        if found[n - 1].discriminant == d {
            assert(defs[n - 1].name.span == defs[n - 1].name.span);
        } else {
            numbered_before(defs, found, d, (n - 1) as nat);
        }
    }
}

/// An enum gets its variants, counted from zero, and keeps its name. A machine gets its states
/// and the steps between them, and an actor what it starts with, its state and its messages.
pub proof fn law_declared_types_are_filled_in(
    s: State,
    enumeration: EnumDef,
    machine: MachineDef,
    actor: ActorDef,
    namespace: Option<Seq<char>>,
)
    ensures
        ({
            let name = canonical(namespace, enumeration.name.name@);
            let after = finish_enum(s, enumeration, namespace);
            match declared_type(s, name) {
                Some(Type::Enum(eid)) => eid.0 < after.types.enums.len() ==> after.types.enums[eid.0 as int] == (
                EnumShapeV {
                    name,
                    variants: variants_from(
                        s,
                        enumeration.name.name@,
                        enumeration.variants@,
                        0,
                        Seq::empty(),
                    ).1,
                }),
                _ => after == s,
            }
        }),
        ({
            let name = canonical(namespace, machine.name.name@);
            let after = finish_machine(s, machine, namespace);
            match declared_type(s, name) {
                Some(Type::Machine(mid)) => {
                    let (s1, states, _) = states_from(
                        s,
                        name,
                        machine.states@,
                        namespace,
                        0,
                        Seq::empty(),
                        Seq::empty(),
                    );
                    mid.0 < after.types.machines.len() ==> after.types.machines[mid.0 as int] == transitions_from(
                        s1,
                        machine.transitions@,
                        0,
                        MachineShapeV { name, states, transitions: Seq::empty() },
                        Seq::empty(),
                    ).1
                },
                _ => after == s,
            }
        }),
        ({
            let name = canonical(namespace, actor.name.name@);
            let after = finish_actor(s, actor, namespace);
            match declared_type(s, name) {
                Some(Type::Actor(aid)) => {
                    let (s1, capability_params) = named_params(
                        s,
                        actor.capability_params@,
                        0,
                        Seq::empty(),
                    );
                    let (s2, state_fields) = named_states(s1, actor.state_fields@, 0, Seq::empty());
                    let (s3, messages) = messages_from(s2, actor.handlers@, 0, Seq::empty());
                    aid.0 < after.types.actors.len() ==> after.types.actors[aid.0 as int] == (ActorShapeV {
                        name,
                        capability_params,
                        state_fields,
                        messages,
                    })
                },
                _ => after == s,
            }
        }),
{
}

// ---------------------------------------------------------------------------
// Machines and actors
// ---------------------------------------------------------------------------

/// A state whose name an earlier one has is reported and left out. Any other becomes a state
/// with the fields that are written.
pub proof fn law_states_as_written(
    s: State,
    owner: Seq<char>,
    defs: Seq<MachineStateDef>,
    namespace: Option<Seq<char>>,
    i: nat,
)
    requires
        i < defs.len(),
    ensures
        ({
            let name = defs[i as int].name.name@;
            let taken = exists|j: int| 0 <= j < i && (#[trigger] defs[j]).name.name@ == name;
            let one = states_from(s, owner, defs.subrange(0, i as int + 1), namespace, i, Seq::empty(), Seq::empty());
            if taken {
                one.1.len() == 0 && one.0.reports.len() == s.reports.len() + 1 && one.0.reports.last().code
                    == ErrorCode::DuplicateMachineState && one.0.reports.last().span
                    == defs[i as int].name.span && one.0.reports.last().args == seq![owner, name]
            } else {
                one.1 == seq![
                    MachineStateShapeV {
                        name,
                        fields: resolve_fields(s, defs[i as int].fields).1,
                    },
                ]
            }
        }),
{
    let upto = defs.subrange(0, i as int + 1);
    earlier_or_not(upto, i, 0);
    assert(forall|j: int| 0 <= j <= i ==> #[trigger] upto[j] == defs[j]);
    reveal_with_fuel(states_from, 2);
    if exists|j: int| 0 <= j < i && (#[trigger] defs[j]).name.name@ == defs[i as int].name.name@ {
        let j = choose|j: int| 0 <= j < i && (#[trigger] defs[j]).name.name@ == defs[i as int].name.name@;
        assert(upto[j].name.name@ == upto[i as int].name.name@);
    } else {
        let fields = resolve_fields(s, defs[i as int].fields).1;
        let name = defs[i as int].name.name@;
        assert(Seq::<MachineStateShapeV>::empty().push(MachineStateShapeV { name, fields }) =~= seq![
            MachineStateShapeV { name, fields },
        ]);
    }
}

proof fn earlier_or_not(defs: Seq<MachineStateDef>, i: nat, j: nat)
    requires
        i < defs.len(),
    ensures
        earlier_state(defs, i, j) is Some <==> exists|k: int|
            j <= k < i && (#[trigger] defs[k]).name.name@ == defs[i as int].name.name@,
    decreases i - j,
{
    if j < i {
        if defs[j as int].name.name@ == defs[i as int].name.name@ {
            assert(defs[j as int].name.name@ == defs[i as int].name.name@);
        } else {
            earlier_or_not(defs, i, j + 1);
        }
    }
}

/// A step goes from the state that its first name means to the one that its second means. An
/// unknown name is reported, the first before the second, and the step is left out.
pub proof fn law_steps_as_written(
    s: State,
    defs: Seq<MachineTransitionDef>,
    i: nat,
    m: MachineShapeV,
)
    requires
        i < defs.len(),
    ensures
        ({
            let def = defs[i as int];
            let (s1, m1, _) = transitions_from(
                s,
                defs.subrange(0, i as int + 1),
                i,
                m,
                Seq::empty(),
            );
            let (from, to) = (state_named(m, def.from.name@), state_named(m, def.to.name@));
            if from is Some && to is Some {
                s1 == s && m1 == (MachineShapeV {
                    transitions: m.transitions.push(
                        MachineTransition { from: from->0, to: to->0 },
                    ),
                    ..m
                })
            } else {
                m1 == m && s1.reports.len() == s.reports.len() + 1 && s1.reports.last().code
                    == ErrorCode::InvalidMachineTransition && s1.reports.last().span == if from is None {
                    def.from.span
                } else {
                    def.to.span
                }
            }
        }),
{
    let upto = defs.subrange(0, i as int + 1);
    assert(upto[i as int] == defs[i as int]);
    reveal_with_fuel(transitions_from, 2);
}

/// What an actor takes, holds and is sent is as written: names and types in their order. A
/// message without a response responds `nothing`.
pub proof fn law_actors_as_written(
    s: State,
    params: Seq<Param>,
    fields: Seq<ActorStateField>,
    handlers: Seq<ReceiveHandler>,
    i: nat,
    found: Seq<NamedTypeV>,
    messages: Seq<ActorMessageShapeV>,
)
    ensures
        named_params(s, params, i, found) == if i >= params.len() {
            (s, found)
        } else {
            let (s1, id) = resolve_type(s, params[i as int].ty);
            named_params(
                s1,
                params,
                i + 1,
                found.push(NamedTypeV { name: params[i as int].name.name@, ty: id }),
            )
        },
        named_states(s, fields, i, found) == if i >= fields.len() {
            (s, found)
        } else {
            let (s1, id) = resolve_type(s, fields[i as int].ty);
            named_states(
                s1,
                fields,
                i + 1,
                found.push(NamedTypeV { name: fields[i as int].name.name@, ty: id }),
            )
        },
        messages_from(s, handlers, i, messages) == if i >= handlers.len() {
            (s, messages)
        } else {
            let h = handlers[i as int];
            let (s1, ps) = named_params(s, h.params@, 0, Seq::empty());
            let (s2, responds) = resolve_return(s1, h.responds);
            messages_from(
                s2,
                handlers,
                i + 1,
                messages.push(ActorMessageShapeV { name: h.name.name@, params: ps, responds }),
            )
        },
{
}

} // verus!
