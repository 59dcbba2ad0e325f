//! What the members of types and values are, and what actors are sent.
use vstd::prelude::*;

use crate::ast::{expr_span, CallArg, Expr, Ident};
use crate::check_exprs::{
    actor_args, actor_args_from, actor_named, check_expected, check_expr, check_field_access,
    check_message, check_spawn, each_arg, expr_type, message_named, message_to,
};
use crate::check_rules::{
    declared_machine, enum_variant, field_of, field_type, ident_type, interface_method,
    machine_named, member_of_name, member_of_path, method_named, method_type, set_type, slot_type,
    state_check, static_member, transition_owner, type_method, value_field, variant_named,
    variant_of,
};
use crate::diagnostics::{error, ErrorCode};
use crate::expression_laws::{has_room, is_secret, is_tainted, laid_open, nothing_reported};
use crate::handling_laws::with_report;
use crate::names::expanded_name;
use crate::ownership::dotted_name;
use crate::resolution::{definition_at, full_name, kind_at, DefKind};
use crate::span::Span;
use crate::state::{intern_type, with_types, State};
use crate::text::decimal;
use crate::type_laws::law_stored_types_are_found_again;
use crate::type_names::name_of;
use crate::type_rules::compatible;
use crate::type_walk::named_ids;
use crate::types::{
    intern_function, state_named, state_named_from, ty, ActorMessageShapeV, BitfieldFieldShapeV,
    FunctionShapeV, FunctionSigV, MachineShapeV, MachineStateShapeV, NamedTypeV, SigParamV, Type,
    TypeId, TypeInterner, Types,
};

verus! {

// ---------------------------------------------------------------------------
// Finding by name
// ---------------------------------------------------------------------------

/// The type of a field is that of the first field of the name.
pub proof fn law_fields_are_found_by_name(fields: Seq<NamedTypeV>, name: Seq<char>, i: int)
    requires
        0 <= i < fields.len(),
        fields[i].name == name,
        forall|j: int| 0 <= j < i ==> (#[trigger] fields[j]).name != name,
    ensures
        field_type(fields, name, 0) == Some(fields[i].ty),
{
    field_from(fields, name, 0, i);
}

proof fn field_from(fields: Seq<NamedTypeV>, name: Seq<char>, from: nat, i: int)
    requires
        from <= i < fields.len(),
        fields[i].name == name,
        forall|j: int| from <= j < i ==> (#[trigger] fields[j]).name != name,
    ensures
        field_type(fields, name, from) == Some(fields[i].ty),
    decreases i - from,
{
    if from < i {
        field_from(fields, name, from + 1, i);
    }
}

/// A name that no field has finds none.
pub proof fn law_other_names_find_no_field(fields: Seq<NamedTypeV>, name: Seq<char>, from: nat)
    requires
        forall|j: int| from <= j < fields.len() ==> (#[trigger] fields[j]).name != name,
    ensures
        field_type(fields, name, from) is None,
    decreases fields.len() - from,
{
    if from < fields.len() {
        law_other_names_find_no_field(fields, name, from + 1);
    }
}

/// The same of the fields of a bitfield.
pub proof fn law_slots_are_found_by_name(fields: Seq<BitfieldFieldShapeV>, name: Seq<char>, from: nat)
    ensures
        slot_type(fields, name, from) matches Some(t) ==> exists|i: int|
            from <= i < fields.len() && (#[trigger] fields[i]).name == name && fields[i].ty == t && forall|j: int|
                from <= j < i ==> (#[trigger] fields[j]).name != name,
        slot_type(fields, name, from) is None ==> forall|j: int|
            from <= j < fields.len() ==> (#[trigger] fields[j]).name != name,
    decreases fields.len() - from,
{
    if from < fields.len() {
        if fields[from as int].name == name {
            assert(fields[from as int].ty == fields[from as int].ty);
        } else {
            law_slots_are_found_by_name(fields, name, from + 1);
        }
    }
}

/// The same of methods.
pub proof fn law_methods_are_found_by_name(methods: Seq<FunctionSigV>, name: Seq<char>, from: nat)
    ensures
        method_named(methods, name, from) matches Some(m) ==> m.name == name && exists|i: int|
            from <= i < methods.len() && #[trigger] methods[i] == m && forall|j: int|
                from <= j < i ==> (#[trigger] methods[j]).name != name,
        method_named(methods, name, from) is None ==> forall|j: int|
            from <= j < methods.len() ==> (#[trigger] methods[j]).name != name,
    decreases methods.len() - from,
{
    if from < methods.len() {
        if methods[from as int].name == name {
            assert(methods[from as int] == methods[from as int]);
        } else {
            law_methods_are_found_by_name(methods, name, from + 1);
        }
    }
}

/// The same of the messages of an actor.
pub proof fn law_messages_are_found_by_name(messages: Seq<ActorMessageShapeV>, name: Seq<char>, from: nat)
    ensures
        message_named(messages, name, from) matches Some(m) ==> m.name == name && exists|i: int|
            from <= i < messages.len() && #[trigger] messages[i] == m && forall|j: int|
                from <= j < i ==> (#[trigger] messages[j]).name != name,
        message_named(messages, name, from) is None ==> forall|j: int|
            from <= j < messages.len() ==> (#[trigger] messages[j]).name != name,
    decreases messages.len() - from,
{
    if from < messages.len() {
        if messages[from as int].name == name {
            assert(messages[from as int] == messages[from as int]);
        } else {
            law_messages_are_found_by_name(messages, name, from + 1);
        }
    }
}

/// The same of the states of a machine.
pub proof fn law_states_are_found_by_name(m: MachineShapeV, name: Seq<char>)
    requires
        m.states.len() <= usize::MAX,
    ensures
        state_named(m, name) matches Some(id) ==> id.0 < m.states.len() && m.states[id.0 as int].name == name
            && forall|j: int| 0 <= j < id.0 ==> (#[trigger] m.states[j]).name != name,
        state_named(m, name) is None ==> forall|j: int|
            0 <= j < m.states.len() ==> (#[trigger] m.states[j]).name != name,
{
    state_from(m.states, name, 0);
}

proof fn state_from(states: Seq<MachineStateShapeV>, name: Seq<char>, from: nat)
    requires
        states.len() <= usize::MAX,
    ensures
        state_named_from(states, name, from) matches Some(id) ==> from <= id.0 < states.len() && states[id.0 as int].name
            == name && forall|j: int| from <= j < id.0 ==> (#[trigger] states[j]).name != name,
        state_named_from(states, name, from) is None ==> forall|j: int|
            from <= j < states.len() ==> (#[trigger] states[j]).name != name,
    decreases states.len() - from,
{
    if from < states.len() && states[from as int].name != name {
        state_from(states, name, from + 1);
    }
}

// ---------------------------------------------------------------------------
// Fields of values
// ---------------------------------------------------------------------------

/// Structs, bitfields and machines at a known state have fields; nothing else does.
pub proof fn law_values_have_fields(ts: Types, id: TypeId, name: Seq<char>)
    ensures
        match ty(ts, id) {
            Type::Struct(sid) => match field_type(ts.structs[sid.0 as int].fields, name, 0) {
                Some(t) => value_field(ts, id, name) == Ok::<TypeId, Seq<char>>(t),
                None => value_field(ts, id, name) == Err::<TypeId, Seq<char>>(
                    ts.structs[sid.0 as int].name,
                ),
            },
            Type::Bitfield(bid) => match slot_type(ts.bitfields[bid.0 as int].fields, name, 0) {
                Some(t) => value_field(ts, id, name) == Ok::<TypeId, Seq<char>>(t),
                None => value_field(ts, id, name) == Err::<TypeId, Seq<char>>(
                    ts.bitfields[bid.0 as int].name,
                ),
            },
            Type::MachineState { machine, state } => if state.0 < ts.machines[machine.0 as int].states.len() {
                match field_type(
                    ts.machines[machine.0 as int].states[state.0 as int].fields,
                    name,
                    0,
                ) {
                    Some(t) => value_field(ts, id, name) == Ok::<TypeId, Seq<char>>(t),
                    None => value_field(ts, id, name) == Err::<TypeId, Seq<char>>(name_of(ts, id)),
                }
            } else {
                value_field(ts, id, name) == Err::<TypeId, Seq<char>>(name_of(ts, id))
            },
            _ => value_field(ts, id, name) == Err::<TypeId, Seq<char>>(name_of(ts, id)),
        },
{
    reveal(value_field);
}

/// A field of a value has its own type, and a secret one where the value is secret. A field
/// that is not there is reported by the owner's name.
pub proof fn law_fields_of_values(s: State, id: TypeId, field: Ident, span: Span)
    requires
        has_room(s),
        id != TypeInterner::ERROR,
        value_field(s.types, laid_open(s.types, id), field.name@) matches Ok(t) ==> t < s.types.types.len(),
    ensures
        ({
            let (after, t) = field_of(s, id, field, span);
            match value_field(s.types, laid_open(s.types, id), field.name@) {
                Ok(own) => nothing_reported(s, after) && is_tainted(
                    after.types,
                    t,
                    own,
                    is_secret(s.types, id) && own != TypeInterner::ERROR && own != TypeInterner::NOTHING
                        && !is_secret(s.types, own),
                ),
                Err(owner) => t == TypeInterner::ERROR && after == with_report(
                    s,
                    ErrorCode::TypeHasNoMember,
                    span,
                    seq![
                        if is_secret(s.types, id) {
                            "secret["@ + owner + "]"@
                        } else {
                            owner
                        },
                        field.name@,
                    ],
                ),
            }
        }),
        field_of(s, TypeInterner::ERROR, field, span) == (s, TypeInterner::ERROR),
{
    reveal(field_of);
    match value_field(s.types, laid_open(s.types, id), field.name@) {
        Ok(own) => law_stored_types_are_found_again(s.types, Type::Secret(own)),
        _ => {},
    }
}

/// `base.field` is a member of the type where `base` is the name of one, and otherwise a field
/// of the value that `base` is.
pub proof fn law_field_access(s: State, base: Box<Expr>, field: Ident, span: Span, d: nat)
    ensures
        ({
            let (s1, member) = match *base {
                Expr::Ident(ident) => member_of_name(s, ident, field, span),
                _ => member_of_path(s, *base, field, span),
            };
            let (after, t) = check_expr(s, Expr::FieldAccess(base, field, span), d);
            match member {
                Some(m) => t == m && after == set_type(s1, span, t),
                None => {
                    let (s2, value) = check_expr(s1, *base, d);
                    let (s3, own) = field_of(s2, value, field, span);
                    t == own && after == set_type(s3, span, t)
                },
            }
        }),
{
    let e = Expr::FieldAccess(base, field, span);
    assert(expr_type(s, e, d) == check_field_access(s, e, d)) by {
        reveal_with_fuel(expr_type, 2);
    }
    reveal_with_fuel(check_field_access, 2);
}

// ---------------------------------------------------------------------------
// Members of types
// ---------------------------------------------------------------------------

/// A variant without fields is a value of the enum; one with fields is a function from them to
/// the enum. A name that no variant has is reported.
pub proof fn law_variants(s: State, id: TypeId, variant: Ident, span: Span)
    ensures
        match ty(s.types, id) {
            Type::Enum(eid) => {
                let def = s.types.enums[eid.0 as int];
                match variant_named(def.variants, variant.name@, 0) {
                    Some(v) => variant_of(s, id, variant, span) == if v.fields.len() == 0 {
                        (s, id)
                    } else {
                        with_types(
                            s,
                            intern_function(
                                s.types,
                                FunctionShapeV {
                                    params: v.fields.map_values(|f: NamedTypeV| f.ty),
                                    return_type: id,
                                },
                            ),
                        )
                    },
                    None => variant_of(s, id, variant, span) == (
                        with_report(
                            s,
                            ErrorCode::TypeHasNoMember,
                            span,
                            seq![def.name, variant.name@],
                        ),
                        TypeInterner::ERROR,
                    ),
                }
            },
            _ => variant_of(s, id, variant, span) == (
                with_report(
                    s,
                    ErrorCode::TypeHasNoMember,
                    span,
                    seq![name_of(s.types, id), variant.name@],
                ),
                TypeInterner::ERROR,
            ),
        },
{
    reveal(variant_of);
    match ty(s.types, id) {
        Type::Enum(eid) => match variant_named(s.types.enums[eid.0 as int].variants, variant.name@, 0) {
            Some(v) => {
                assert(named_ids(v.fields) =~= v.fields.map_values(|f: NamedTypeV| f.ty));
            },
            None => {},
        },
        _ => {},
    }
}

/// `Enum.variant` written as a pair of names is the variant of the enum that the first refers
/// to.
pub proof fn law_variants_by_two_names(s: State, owner: Ident, variant: Ident, span: Span, d: nat)
    ensures
        ({
            let id = match definition_at(s.names, owner.span) {
                Some(def) if s.type_env.contains_key(def) => s.type_env[def],
                _ => TypeInterner::ERROR,
            };
            let (after, t) = check_expr(s, Expr::EnumVariant(owner, variant, span), d);
            let (s1, t1) = if id == TypeInterner::ERROR {
                (s, TypeInterner::ERROR)
            } else {
                variant_of(s, id, variant, span)
            };
            t == t1 && after == set_type(s1, span, t)
        }),
{
    reveal_with_fuel(expr_type, 2);
}

/// A method is a function from the types of its parameters to its result type.
pub proof fn law_methods_are_functions(s: State, m: FunctionSigV)
    ensures
        method_type(s, m) == with_types(
            s,
            intern_function(
                s.types,
                FunctionShapeV {
                    params: m.params.map_values(|p: SigParamV| p.ty),
                    return_type: m.return_type,
                },
            ),
        ),
{
}

/// An interface has its own methods, and a name that none has is reported.
pub proof fn law_interface_methods(s: State, id: TypeId, field: Ident, span: Span)
    ensures
        match ty(s.types, id) {
            Type::Interface(i) => {
                let def = s.types.interfaces[i.0 as int];
                match method_named(def.methods, field.name@, 0) {
                    Some(m) => interface_method(s, id, field, span) == (
                        method_type(s, m).0,
                        Some(method_type(s, m).1),
                    ),
                    None => interface_method(s, id, field, span) == (
                        with_report(
                            s,
                            ErrorCode::InterfaceHasNoMember,
                            span,
                            seq![def.name, field.name@],
                        ),
                        Some(TypeInterner::ERROR),
                    ),
                }
            },
            _ => interface_method(s, id, field, span) == (s, None::<TypeId>),
        },
{
    reveal(interface_method);
}

/// A type has its own methods before those that implementations bring. A bitfield also turns
/// into bytes, and bytes into a result with one. Other names are reported.
pub proof fn law_methods_of_types(s: State, id: TypeId, field: Ident, span: Span)
    ensures
        ({
            let own = match ty(s.types, id) {
                Type::Struct(sid) => method_named(s.types.structs[sid.0 as int].methods, field.name@, 0),
                _ => None,
            };
            let brought = if s.impl_methods.contains_key(id) && s.impl_methods[id].contains_key(field.name@) {
                Some(s.impl_methods[id][field.name@])
            } else {
                None
            };
            let bits = ty(s.types, id) is Bitfield;
            let (after, t) = type_method(s, id, field, span);
            if own is Some {
                (after, t) == (method_type(s, own->0).0, Some(method_type(s, own->0).1))
            } else if bits && field.name@ == "to_bytes"@ {
                let (ts, f) = intern_function(
                    s.types,
                    FunctionShapeV { params: seq![id], return_type: TypeInterner::BYTES },
                );
                (after, t) == (State { types: ts, ..s }, Some(f))
            } else if bits && field.name@ == "from_bytes"@ {
                let (s1, r) = intern_type(s, Type::Result(id, TypeInterner::STRING));
                let (ts, f) = intern_function(
                    s1.types,
                    FunctionShapeV { params: seq![TypeInterner::BYTES], return_type: r },
                );
                (after, t) == (State { types: ts, ..s1 }, Some(f))
            } else if brought is Some {
                (after, t) == (method_type(s, brought->0).0, Some(method_type(s, brought->0).1))
            } else {
                (after, t) == (
                    with_report(
                        s,
                        ErrorCode::TypeHasNoMember,
                        span,
                        seq![name_of(s.types, id), field.name@],
                    ),
                    None::<TypeId>,
                )
            }
        }),
{
    reveal(type_method);
}

/// What a declared type has by its name: an enum its variants, an interface its methods, any
/// other type the methods that it has.
pub proof fn law_members_of_declared_types(s: State, id: TypeId, field: Ident, span: Span)
    ensures
        ({
            let t = ty(s.types, id);
            static_member(s, id, field, span) == if t is Enum {
                (variant_of(s, id, field, span).0, Some(variant_of(s, id, field, span).1))
            } else if t is Interface {
                interface_method(s, id, field, span)
            } else {
                type_method(s, id, field, span)
            }
        }),
{
    reveal(static_member);
    reveal(interface_method);
}

/// A path of names is looked up as the name of a declared type.
pub proof fn law_members_by_path(s: State, base: Expr, field: Ident, span: Span)
    ensures
        member_of_path(s, base, field, span) == match dotted_name(base) {
            Some(name) if s.named_types.contains_key(full_name(s.names, name, span)) => static_member(
                s,
                s.named_types[full_name(s.names, name, span)],
                field,
                span,
            ),
            _ => (s, None),
        },
{
    reveal(member_of_path);
}

/// A bare name is first what it refers to: an enum, an interface, a struct or a bitfield. Where
/// that gives nothing it is looked up as the name of a declared type.
pub proof fn law_members_by_name(s: State, base: Ident, field: Ident, span: Span)
    ensures
        ({
            let kind = kind_at(s.names, base.span);
            let id = ident_type(s, base.span);
            let (after, member) = member_of_name(s, base, field, span);
            let (s1, m) = if kind == Some(DefKind::Interface) {
                interface_method(s, id, field, span)
            } else if kind == Some(DefKind::Struct) || kind == Some(DefKind::Bitfield) {
                type_method(s, id, field, span)
            } else {
                (s, None)
            };
            &&& kind == Some(DefKind::Enum) ==> (after, member) == (
                enum_variant(s, base, field, span).0,
                Some(enum_variant(s, base, field, span).1),
            )
            &&& kind != Some(DefKind::Enum) && m is Some ==> (after, member) == (s1, m)
            &&& kind != Some(DefKind::Enum) && m is None && !s1.named_types.contains_key(base.name@) ==> (
                after,
                member,
            ) == (s1, None::<TypeId>)
            &&& kind != Some(DefKind::Enum) && m is None && s1.named_types.contains_key(base.name@) ==> (
                after,
                member,
            ) == if ty(s1.types, s1.named_types[base.name@]) is Enum {
                (enum_variant(s1, base, field, span).0, Some(enum_variant(s1, base, field, span).1))
            } else {
                static_member(s1, s1.named_types[base.name@], field, span)
            }
        }),
{
    reveal(member_of_name);
}

/// `Machine.transition` is the transition function of the machine that the whole refers to, or
/// that the part in front of the dot names.
pub proof fn law_transition_functions(s: State, base: Box<Expr>, field: Ident, span: Span)
    ensures
        ({
            let found = transition_owner(s, Expr::FieldAccess(base, field, span));
            &&& field.name@ != "transition"@ ==> found is None
            &&& field.name@ == "transition"@ && declared_machine(s, span) is Some ==> found == declared_machine(
                s,
                span,
            )
            &&& field.name@ == "transition"@ && declared_machine(s, span) is None ==> found == match expanded_name(
                s.names,
                *base,
            ) {
                Some(owner) => machine_named(s, owner),
                None => None,
            }
        }),
        forall|name: Seq<char>| #[trigger]
            machine_named(s, name) matches Some(m) ==> s.named_types.contains_key(name) && ty(
                s.types,
                s.named_types[name],
            ) == Type::Machine(m),
        forall|e: Expr| !(e is FieldAccess) ==> #[trigger] transition_owner(s, e) is None,
{
    reveal(transition_owner);
}

/// Whether a machine is at a state is a boolean. A state that the machine does not have is
/// reported, and so is a value that is no machine, unless it was before.
pub proof fn law_tests_of_states(s: State, x: Box<Expr>, state: Ident, span: Span, d: nat)
    ensures
        ({
            let (s1, a) = check_expr(s, *x, d);
            let (after, t) = check_expr(s, Expr::At(x, state, span), d);
            let machine = match ty(s1.types, a) {
                Type::Machine(m) => Some(m),
                Type::MachineState { machine, state: _ } => Some(machine),
                _ => None,
            };
            match machine {
                Some(m) => {
                    let def = s1.types.machines[m.0 as int];
                    if state_named(def, state.name@) is Some {
                        t == TypeInterner::BOOL && nothing_reported(s1, after)
                    } else {
                        t == TypeInterner::ERROR && after.reports == s1.reports.push(
                            error(
                                ErrorCode::InvalidMachineStateCheck,
                                state.span,
                                seq![
                                    def.name,
                                    state.name@,
                                    "state is not declared on this machine"@,
                                ],
                            ),
                        )
                    }
                },
                None => if ty(s1.types, a) is Error {
                    t == TypeInterner::BOOL && nothing_reported(s1, after)
                } else {
                    t == TypeInterner::ERROR && after.reports == s1.reports.push(
                        error(
                            ErrorCode::InvalidMachineStateCheck,
                            span,
                            seq![name_of(s1.types, a), state.name@, "value is not a machine"@],
                        ),
                    )
                },
            }
        }),
{
    reveal(state_check);
    reveal_with_fuel(expr_type, 2);
}

// ---------------------------------------------------------------------------
// Actors
// ---------------------------------------------------------------------------

/// What goes to an actor is held against its parameters, each at its place. Another number of
/// arguments is reported, and they are looked at by themselves.
pub proof fn law_arguments_of_actors(
    s: State,
    label: Seq<char>,
    params: Seq<NamedTypeV>,
    args: Vec<CallArg>,
    i: nat,
    span: Span,
    d: nat,
)
    ensures
        actor_args(s, label, params, args, span, d) == if args@.len() == params.len() {
            actor_args_from(s, params, args, 0, d)
        } else {
            each_arg(
                with_report(
                    s,
                    ErrorCode::ArgumentCountMismatch,
                    span,
                    seq![label, decimal(params.len()), decimal(args@.len())],
                ),
                args,
                0,
                d,
            )
        },
        actor_args_from(s, params, args, i, d) == if i >= args@.len() || i >= params.len() {
            s
        } else {
            let p = params[i as int];
            let value = args@[i as int].value;
            let (s1, got) = check_expected(s, value, p.ty, false, d);
            actor_args_from(
                if compatible(s1.types, s1.impls, p.ty, got) {
                    s1
                } else {
                    with_report(
                        s1,
                        ErrorCode::ArgumentTypeMismatch,
                        expr_span(value),
                        seq![p.name, name_of(s1.types, p.ty), name_of(s1.types, got)],
                    )
                },
                params,
                args,
                i + 1,
                d,
            )
        },
{
    reveal_with_fuel(actor_args_from, 2);
    reveal_with_fuel(actor_args, 2);
}

/// An actor is started by its name with the capabilities that it takes, and is then a value of
/// its type. Nothing else is started.
pub proof fn law_actors_are_started(s: State, callee: Box<Expr>, args: Vec<CallArg>, inner: Span, span: Span, d: nat)
    ensures
        ({
            let e = Expr::Spawn(Box::new(Expr::Call(callee, args, inner)), span);
            let (after, t) = check_expr(s, e, d);
            match actor_named(s, expanded_name(s.names, *callee)) {
                Some((id, def)) => t == id && after.reports == actor_args(
                    s,
                    def.name,
                    def.capability_params,
                    args,
                    inner,
                    d,
                ).reports,
                None => t == TypeInterner::ERROR && after.reports == check_expr(
                    each_arg(s, args, 0, d),
                    *callee,
                    d,
                ).0.reports,
            }
        }),
        forall|name: Seq<char>| #[trigger]
            actor_named(s, Some(name)) matches Some((id, def)) ==> s.named_types.contains_key(name) && id
                == s.named_types[name] && (ty(s.types, id) matches Type::Actor(aid) && def
                == s.types.actors[aid.0 as int]),
        actor_named(s, None) is None,
{
    reveal(actor_named);
    let call = Expr::Call(callee, args, inner);
    let e = Expr::Spawn(Box::new(call), span);
    assert(expr_type(s, e, d) == check_spawn(s, call, d)) by {
        reveal_with_fuel(expr_type, 2);
    }
    reveal_with_fuel(check_spawn, 2);
}

/// The message of a name to an actor. A name that no message has is reported, and so is a
/// message to what is no actor, unless that was before.
pub proof fn law_messages(s: State, actor: TypeId, field: Ident)
    ensures
        match ty(s.types, actor) {
            Type::Actor(aid) => {
                let def = s.types.actors[aid.0 as int];
                match message_named(def.messages, field.name@, 0) {
                    Some(m) => message_to(s, actor, field) == (s, Some((def.name + "."@ + m.name, m))),
                    None => message_to(s, actor, field) == (
                        with_report(
                            s,
                            ErrorCode::TypeHasNoMember,
                            field.span,
                            seq![def.name, field.name@],
                        ),
                        None::<(Seq<char>, ActorMessageShapeV)>,
                    ),
                }
            },
            _ => message_to(s, actor, field) == (
                if actor == TypeInterner::ERROR {
                    s
                } else {
                    with_report(
                        s,
                        ErrorCode::TypeHasNoMember,
                        field.span,
                        seq![name_of(s.types, actor), field.name@],
                    )
                },
                None::<(Seq<char>, ActorMessageShapeV)>,
            ),
        },
{
    reveal(message_to);
}

/// Asking an actor gives what it responds to the message; sending gives nothing. The arguments
/// are held against those of the message.
pub proof fn law_asking_and_sending(
    s: State,
    base: Box<Expr>,
    field: Ident,
    inner: Span,
    args: Vec<CallArg>,
    outer: Span,
    span: Span,
    d: nat,
)
    ensures
        ({
            let call = Expr::Call(Box::new(Expr::FieldAccess(base, field, inner)), args, outer);
            let (s1, actor) = check_expr(s, *base, d);
            let (s2, found) = message_to(s1, actor, field);
            let (asked, answer) = check_expr(s, Expr::Ask(Box::new(call), span), d);
            let (sent, t) = check_expr(s, Expr::Send(Box::new(call), span), d);
            &&& t == TypeInterner::NOTHING
            &&& sent.reports == asked.reports
            &&& match found {
                Some((label, m)) => answer == m.responds && asked.reports == actor_args(
                    s2,
                    label,
                    m.params,
                    args,
                    outer,
                    d,
                ).reports,
                None => answer == TypeInterner::ERROR,
            }
        }),
{
    let call = Expr::Call(Box::new(Expr::FieldAccess(base, field, inner)), args, outer);
    assert(expr_type(s, Expr::Ask(Box::new(call), span), d) == check_message(s, call, d)) by {
        reveal_with_fuel(expr_type, 2);
    }
    assert(expr_type(s, Expr::Send(Box::new(call), span), d) == (
        check_message(s, call, d).0,
        TypeInterner::NOTHING,
    )) by {
        reveal_with_fuel(expr_type, 2);
    }
    reveal_with_fuel(check_message, 2);
}

/// A message without arguments is asked for by its name alone. One that takes arguments is then
/// reported.
pub proof fn law_asking_without_arguments(s: State, base: Box<Expr>, field: Ident, inner: Span, span: Span, d: nat)
    ensures
        ({
            let name = Expr::FieldAccess(base, field, inner);
            let (s1, actor) = check_expr(s, *base, d);
            let (s2, found) = message_to(s1, actor, field);
            let (after, t) = check_expr(s, Expr::Ask(Box::new(name), span), d);
            match found {
                Some((label, m)) => t == m.responds && after.reports == if m.params.len() == 0 {
                    s2.reports
                } else {
                    with_report(
                        s2,
                        ErrorCode::ArgumentCountMismatch,
                        inner,
                        seq![label, decimal(m.params.len()), decimal(0)],
                    ).reports
                },
                None => t == TypeInterner::ERROR && nothing_reported(s2, after),
            }
        }),
{
    let name = Expr::FieldAccess(base, field, inner);
    assert(expr_type(s, Expr::Ask(Box::new(name), span), d) == check_message(s, name, d)) by {
        reveal_with_fuel(expr_type, 2);
    }
    reveal_with_fuel(check_message, 2);
}

} // verus!
