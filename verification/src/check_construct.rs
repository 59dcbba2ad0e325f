//! Building values: structs, bitfields, machines, lists and maps.
use vstd::prelude::*;
use vstd::string::StringExecFns;

use crate::ast::{expr_span, CallArg, Expr, Ident};
use crate::check_calls::can_enter;
use crate::check_exprs::{check_expected, check_expr, check_optionally_expected, each_arg};
use crate::check_rules::{
    expect_argument, expect_type, greatest_of_width, greatest_value, no_member, report2, report3,
    report_types, wrong_argument_count,
};
use crate::diagnostics::{args4, error, Diagnostic, ErrorCode};
use crate::span::Span;
use crate::state::{intern_type, report, with_types, State, TypeChecker};
use crate::steady::{has, has_fields, has_slots, has_states, keeps, known, known_definitions};
use crate::table::{dup_vec, views, Dup};
use crate::text::{decimal, decimal_text, join2, join3, signed_decimal, signed_decimal_text, text};
use crate::type_names::name_of;
use crate::type_rules::{can_refine, compatible, revealed, wrap_secret};
use crate::types::{
    state_named, ty, BitfieldFieldShape, BitfieldFieldShapeV, BitfieldId, BitfieldSlot, MachineId,
    MachineShape, MachineShapeV, MachineStateId, MachineTransition, NamedType, NamedTypeV,
    StructId, Type, TypeId, TypeInterner,
};

verus! {

broadcast use crate::steady::group_steady;

/// A constructed type by name, with the names of its fields.
pub open spec fn name_place(names: Seq<Seq<char>>, name: Seq<char>, i: nat) -> Option<nat>
    decreases names.len() - i,
{
    if i >= names.len() {
        None
    } else if names[i as int] == name {
        Some(i)
    } else {
        name_place(names, name, i + 1)
    }
}

pub open spec fn first_free(assigned: Seq<bool>, i: nat) -> Option<nat>
    decreases assigned.len() - i,
{
    if i >= assigned.len() {
        None
    } else if !assigned[i as int] {
        Some(i)
    } else {
        first_free(assigned, i + 1)
    }
}

/// The field that an argument is for: the one it names, or the first that has
/// no value yet.
pub open spec fn target_field(names: Seq<Seq<char>>, assigned: Seq<bool>, arg: CallArg) -> Option<nat> {
    match arg.name {
        Some(n) => name_place(names, n.name@, 0),
        None => first_free(assigned, 0),
    }
}

/// An argument that is for no field.
#[verifier::opaque]
pub open spec fn stray_argument(
    s: State,
    owner: Seq<char>,
    fields: nat,
    args: nat,
    arg: CallArg,
    span: Span,
) -> State {
    match arg.name {
        Some(n) => no_member(s, owner, n.name@, arg.span),
        None => wrong_argument_count(s, owner, fields, args, span),
    }
}

/// A report for each field from `i` on that has no value.
pub open spec fn missing_fields(
    s: State,
    owner: Seq<char>,
    names: Seq<Seq<char>>,
    assigned: Seq<bool>,
    i: nat,
    span: Span,
) -> State
    decreases names.len() - i,
{
    if i >= names.len() || i >= assigned.len() {
        s
    } else {
        let next = if assigned[i as int] {
            s
        } else {
            report2(s, ErrorCode::MissingConstructorField, span, owner, names[i as int])
        };
        missing_fields(next, owner, names, assigned, i + 1, span)
    }
}

pub open spec fn none_assigned(n: nat) -> Seq<bool> {
    Seq::new(n, |i: int| false)
}

pub open spec fn field_names(fields: Seq<NamedTypeV>) -> Seq<Seq<char>> {
    fields.map_values(|f: NamedTypeV| f.name)
}

pub open spec fn slot_names(fields: Seq<BitfieldFieldShapeV>) -> Seq<Seq<char>> {
    fields.map_values(|f: BitfieldFieldShapeV| f.name)
}

// ---------------------------------------------------------------------------
// Structs
// ---------------------------------------------------------------------------

/// The value for a struct field. A base value may stand for a refined one: it
/// is tested when the struct is built.
pub open spec fn struct_field_value(s: State, field: NamedTypeV, value: Expr, d: nat) -> State
    decreases 3 * d + 1, value, 20nat,
{
    let refined = ty(s.types, field.ty) is Refinement;
    let (s1, got) = if !refined {
        check_expected(s, value, field.ty, false, d)
    } else {
        match value {
            Expr::Handle(_, _, _, _) => check_expected(s, value, field.ty, true, d),
            _ => check_expr(s, value, d),
        }
    };
    if ty(s1.types, field.ty) is Refinement && can_refine(s1.types, got, field.ty) {
        s1
    } else {
        expect_argument(s1, field.name, field.ty, got, expr_span(value))
    }
}

pub open spec fn struct_args(
    s: State,
    owner: Seq<char>,
    fields: Seq<NamedTypeV>,
    assigned: Seq<bool>,
    args: Vec<CallArg>,
    i: nat,
    span: Span,
    d: nat,
) -> (State, Seq<bool>)
    decreases 3 * d + 1, args, args@.len() - i,
{
    if i >= args@.len() {
        (s, assigned)
    } else {
        let arg = args@[i as int];
        match target_field(field_names(fields), assigned, arg) {
            None => {
                let s1 = stray_argument(s, owner, fields.len(), args@.len(), arg, span);
                let (s2, _) = check_expr(s1, arg.value, d);
                struct_args(s2, owner, fields, assigned, args, i + 1, span, d)
            },
            Some(k) => if assigned[k as int] {
                let s1 = report2(
                    s,
                    ErrorCode::DuplicateConstructorField,
                    arg.span,
                    owner,
                    fields[k as int].name,
                );
                let (s2, _) = check_expr(s1, arg.value, d);
                struct_args(s2, owner, fields, assigned, args, i + 1, span, d)
            } else {
                let s1 = struct_field_value(s, fields[k as int], arg.value, d);
                struct_args(
                    s1,
                    owner,
                    fields,
                    assigned.update(k as int, true),
                    args,
                    i + 1,
                    span,
                    d,
                )
            },
        }
    }
}

pub open spec fn any_refined(s: State, fields: Seq<NamedTypeV>) -> bool {
    exists|i: int| 0 <= i < fields.len() && ty(s.types, (#[trigger] fields[i]).ty) is Refinement
}

/// Building a struct gives the struct, or where a field is refined, a result.
pub open spec fn struct_constructor(s: State, sid: StructId, args: Vec<CallArg>, span: Span, d: nat) -> (
    State,
    TypeId,
)
    decreases 3 * d + 1, args, args@.len() + 2,
{
    let def = s.types.structs[sid.0 as int];
    let (s1, assigned) = struct_args(
        s,
        def.name,
        def.fields,
        none_assigned(def.fields.len()),
        args,
        0,
        span,
        d,
    );
    let s2 = missing_fields(s1, def.name, field_names(def.fields), assigned, 0, span);
    let (s3, built) = intern_type(s2, Type::Struct(sid));
    if any_refined(s, def.fields) {
        intern_type(s3, Type::Result(built, TypeInterner::STRING))
    } else {
        (s3, built)
    }
}

// ---------------------------------------------------------------------------
// Bitfields
// ---------------------------------------------------------------------------

/// A literal that does not fit in the bits of its field.
#[verifier::opaque]
pub open spec fn literal_range(
    s: State,
    owner: Seq<char>,
    field: Seq<char>,
    width: u16,
    value: int,
    span: Span,
) -> State {
    if value < 0 || value > greatest_of_width(width as nat) {
        report(
            s,
            error(
                ErrorCode::BitfieldLiteralOutOfRange,
                span,
                seq![owner, field, decimal(width as nat), signed_decimal(value)],
            ),
        )
    } else {
        s
    }
}

/// The value for a field of a bitfield, and whether it has to be tested while
/// the program runs.
pub open spec fn slot_value(
    s: State,
    owner: Seq<char>,
    field: BitfieldFieldShapeV,
    value: Expr,
    d: nat,
) -> (State, bool)
    decreases 3 * d + 1, value, 20nat,
{
    let (s1, got) = check_expected(s, value, field.ty, false, d);
    if !compatible(s1.types, s1.impls, field.ty, got) {
        (expect_argument(s1, field.name, field.ty, got, expr_span(value)), false)
    } else {
        match field.kind {
            BitfieldSlot::Bits { width } => if field.ty == TypeInterner::INT64 || field.ty
                == TypeInterner::UINT64 {
                match value {
                    Expr::IntLiteral(v, literal_span) => (
                        literal_range(s1, owner, field.name, width, v as int, literal_span),
                        false,
                    ),
                    _ => (s1, true),
                }
            } else {
                (s1, false)
            },
            BitfieldSlot::Payload => (s1, false),
        }
    }
}

pub open spec fn slot_args(
    s: State,
    owner: Seq<char>,
    fields: Seq<BitfieldFieldShapeV>,
    assigned: Seq<bool>,
    tested: bool,
    args: Vec<CallArg>,
    i: nat,
    span: Span,
    d: nat,
) -> (State, Seq<bool>, bool)
    decreases 3 * d + 1, args, args@.len() - i,
{
    if i >= args@.len() {
        (s, assigned, tested)
    } else {
        let arg = args@[i as int];
        match target_field(slot_names(fields), assigned, arg) {
            None => {
                let s1 = stray_argument(s, owner, fields.len(), args@.len(), arg, span);
                let (s2, _) = check_expr(s1, arg.value, d);
                slot_args(s2, owner, fields, assigned, tested, args, i + 1, span, d)
            },
            Some(k) => if assigned[k as int] {
                let s1 = report2(
                    s,
                    ErrorCode::DuplicateConstructorField,
                    arg.span,
                    owner,
                    fields[k as int].name,
                );
                let (s2, _) = check_expr(s1, arg.value, d);
                slot_args(s2, owner, fields, assigned, tested, args, i + 1, span, d)
            } else {
                let (s1, test) = slot_value(s, owner, fields[k as int], arg.value, d);
                slot_args(
                    s1,
                    owner,
                    fields,
                    assigned.update(k as int, true),
                    tested || test,
                    args,
                    i + 1,
                    span,
                    d,
                )
            },
        }
    }
}

pub open spec fn bitfield_constructor(s: State, bid: BitfieldId, args: Vec<CallArg>, span: Span, d: nat) -> (
    State,
    TypeId,
)
    decreases 3 * d + 1, args, args@.len() + 2,
{
    let def = s.types.bitfields[bid.0 as int];
    let (s1, assigned, tested) = slot_args(
        s,
        def.name,
        def.fields,
        none_assigned(def.fields.len()),
        false,
        args,
        0,
        span,
        d,
    );
    let s2 = missing_fields(s1, def.name, slot_names(def.fields), assigned, 0, span);
    let (s3, built) = intern_type(s2, Type::Bitfield(bid));
    if tested {
        intern_type(s3, Type::Result(built, TypeInterner::STRING))
    } else {
        (s3, built)
    }
}

// ---------------------------------------------------------------------------
// Machines
// ---------------------------------------------------------------------------

/// The arguments from `i` on, each for the field at its place behind `skip`;
/// those beyond the last field are checked by themselves.
pub open spec fn payload_args(
    s: State,
    fields: Seq<NamedTypeV>,
    args: Vec<CallArg>,
    skip: nat,
    i: nat,
    d: nat,
) -> State
    decreases 3 * d + 1, args, args@.len() - i,
{
    if i >= args@.len() {
        s
    } else {
        let arg = args@[i as int];
        let s1 = if i - skip < fields.len() {
            let field = fields[i - skip];
            let (s0, got) = check_expected(s, arg.value, field.ty, false, d);
            expect_argument(s0, field.name, field.ty, got, expr_span(arg.value))
        } else {
            check_expr(s, arg.value, d).0
        };
        payload_args(s1, fields, args, skip, i + 1, d)
    }
}

/// `state `x` expects n payload field(s), got m`
pub open spec fn payload_words(front: Seq<char>, state: Seq<char>, expected: nat, got: nat) -> Seq<char> {
    front + state + "` expects "@ + decimal(expected) + " payload field(s), got "@ + decimal(got)
}

/// A bare name given as an argument.
pub open spec fn bare_name(arg: CallArg) -> Option<Ident> {
    match arg.value {
        Expr::Ident(ident) => if arg.name is None {
            Some(ident)
        } else {
            None
        },
        _ => None,
    }
}

pub open spec fn machine_constructor(s: State, mid: MachineId, args: Vec<CallArg>, span: Span, d: nat) -> (
    State,
    TypeId,
)
    decreases 3 * d + 1, args, args@.len() + 2,
{
    let def = s.types.machines[mid.0 as int];
    if args@.len() == 0 {
        (
            report2(
                s,
                ErrorCode::InvalidMachineConstruction,
                span,
                def.name,
                "expected an initial state argument"@,
            ),
            TypeInterner::ERROR,
        )
    } else {
        match bare_name(args@[0]) {
            None => {
                let s1 = report2(
                    s,
                    ErrorCode::InvalidMachineConstruction,
                    args@[0].span,
                    def.name,
                    "first argument must be a bare state name"@,
                );
                (each_arg(s1, args, 1, d), TypeInterner::ERROR)
            },
            Some(ident) => match state_named(def, ident.name@) {
                None => {
                    let s1 = report2(
                        s,
                        ErrorCode::InvalidMachineConstruction,
                        ident.span,
                        def.name,
                        "unknown state `"@ + ident.name@ + "`"@,
                    );
                    (each_arg(s1, args, 1, d), TypeInterner::ERROR)
                },
                Some(state) => {
                    let fields = def.states[state.0 as int].fields;
                    let s1 = if args@.len() - 1 != fields.len() {
                        report2(
                            s,
                            ErrorCode::InvalidMachineConstruction,
                            span,
                            def.name,
                            payload_words(
                                "state `"@,
                                def.states[state.0 as int].name,
                                fields.len(),
                                (args@.len() - 1) as nat,
                            ),
                        )
                    } else {
                        s
                    };
                    let s2 = payload_args(s1, fields, args, 1, 1, d);
                    intern_type(s2, Type::MachineState { machine: mid, state })
                },
            },
        }
    }
}

pub open spec fn transition_error(
    s: State,
    machine: Seq<char>,
    step: Seq<char>,
    what: Seq<char>,
    span: Span,
) -> State {
    report3(s, ErrorCode::InvalidMachineTransitionCall, span, machine, step, what)
}

/// The state that the value to be moved on is known to be at.
#[verifier::opaque]
pub open spec fn source_state(s: State, mid: MachineId, name: Seq<char>, id: TypeId, span: Span) -> (
    State,
    Option<MachineStateId>,
) {
    match ty(s.types, id) {
        Type::MachineState { machine, state } => if machine == mid {
            (s, Some(state))
        } else {
            (bad_source(s, name, id, span), None)
        },
        Type::Error => (s, None),
        _ => (bad_source(s, name, id, span), None),
    }
}

pub open spec fn bad_source(s: State, name: Seq<char>, id: TypeId, span: Span) -> State {
    transition_error(
        s,
        name,
        "transition"@,
        "source value must be `"@ + name + "` at a known state, got `"@ + name_of(s.types, id)
            + "`"@,
        span,
    )
}

/// Moving a machine on: the step has to be one that the machine declares.
pub open spec fn transition_call(s: State, mid: MachineId, args: Vec<CallArg>, span: Span, d: nat) -> (
    State,
    TypeId,
)
    decreases 3 * d + 1, args, args@.len() + 2,
{
    let def = s.types.machines[mid.0 as int];
    if args@.len() < 2 {
        let s1 = transition_error(
            s,
            def.name,
            "transition"@,
            "expected a source value and target state"@,
            span,
        );
        (each_arg(s1, args, 0, d), TypeInterner::ERROR)
    } else {
        let (s1, source) = check_expr(s, args@[0].value, d);
        let (s2, from) = source_state(s1, mid, def.name, source, expr_span(args@[0].value));
        match bare_name(args@[1]) {
            None => {
                let s3 = transition_error(
                    s2,
                    def.name,
                    "transition"@,
                    "second argument must be a bare target state name"@,
                    args@[1].span,
                );
                (each_arg(s3, args, 2, d), TypeInterner::ERROR)
            },
            Some(ident) => match state_named(def, ident.name@) {
                None => {
                    let s3 = transition_error(
                        s2,
                        def.name,
                        "to "@ + ident.name@,
                        "unknown target state `"@ + ident.name@ + "`"@,
                        ident.span,
                    );
                    (each_arg(s3, args, 2, d), TypeInterner::ERROR)
                },
                Some(to) => {
                    let s3 = undeclared_step(s2, def, from, to, ident.name@, span);
                    let target = def.states[to.0 as int];
                    let s4 = if args@.len() - 2 != target.fields.len() {
                        transition_error(
                            s3,
                            def.name,
                            "to "@ + target.name,
                            payload_words(
                                "target state `"@,
                                target.name,
                                target.fields.len(),
                                (args@.len() - 2) as nat,
                            ),
                            span,
                        )
                    } else {
                        s3
                    };
                    let s5 = payload_args(s4, target.fields, args, 2, 2, d);
                    intern_type(s5, Type::MachineState { machine: mid, state: to })
                },
            },
        }
    }
}

pub open spec fn state_word(def: MachineShapeV, state: MachineStateId) -> Seq<char> {
    if state.0 < def.states.len() {
        def.states[state.0 as int].name
    } else {
        "<unknown>"@
    }
}

#[verifier::opaque]
pub open spec fn undeclared_step(
    s: State,
    def: MachineShapeV,
    from: Option<MachineStateId>,
    to: MachineStateId,
    target: Seq<char>,
    span: Span,
) -> State {
    match from {
        Some(f) => if def.transitions.contains(MachineTransition { from: f, to }) {
            s
        } else {
            transition_error(
                s,
                def.name,
                state_word(def, f) + " to "@ + target,
                "edge is not declared"@,
                span,
            )
        },
        None => s,
    }
}

// ---------------------------------------------------------------------------
// Lists and maps
// ---------------------------------------------------------------------------

/// Neither of two element types fits where the other is.
pub open spec fn unlike(s: State, a: TypeId, b: TypeId) -> bool {
    !compatible(s.types, s.impls, a, b) && !compatible(s.types, s.impls, b, a)
}

/// An element beside others of the type `element`, secrets laid open.
#[verifier::opaque]
pub open spec fn like_element(s: State, element: TypeId, got: TypeId, span: Span) -> State {
    if unlike(s, element, revealed(s.types, got)) {
        report_types(s, ErrorCode::TypeMismatch, span, element, got)
    } else {
        s
    }
}

pub open spec fn list_elements(
    s: State,
    element: TypeId,
    tainted: bool,
    es: Vec<Expr>,
    i: nat,
    d: nat,
) -> (State, bool)
    decreases 3 * d + 1, es, es@.len() - i,
{
    if i >= es@.len() {
        (s, tainted)
    } else {
        let (s1, got) = check_expr(s, es@[i as int], d);
        let s2 = like_element(s1, element, got, expr_span(es@[i as int]));
        list_elements(s2, element, tainted || ty(s1.types, got) is Secret, es, i + 1, d)
    }
}

/// A list has the type of its first element; one secret makes all secret.
pub open spec fn check_list(s: State, es: Vec<Expr>, d: nat) -> (State, TypeId)
    decreases 3 * d + 1, es, es@.len() + 2,
{
    if es@.len() == 0 {
        intern_type(s, Type::List(TypeInterner::ERROR))
    } else {
        let (s1, first) = check_expr(s, es@[0], d);
        let element = revealed(s1.types, first);
        let (s2, tainted) = list_elements(
            s1,
            element,
            ty(s1.types, first) is Secret,
            es,
            1,
            d,
        );
        let (s3, wrapped) = with_types(s2, wrap_secret(s2.types, element, tainted));
        intern_type(s3, Type::List(wrapped))
    }
}

pub open spec fn expected_elements(
    s: State,
    expected: TypeId,
    allow: bool,
    es: Vec<Expr>,
    i: nat,
    d: nat,
) -> State
    decreases 3 * d + 1, es, es@.len() - i,
{
    if i >= es@.len() {
        s
    } else {
        let (s1, got) = check_optionally_expected(s, es@[i as int], expected, allow, d);
        let s2 = expect_type(s1, expected, got, expr_span(es@[i as int]));
        expected_elements(s2, expected, allow, es, i + 1, d)
    }
}

pub open spec fn map_entries(
    s: State,
    key: TypeId,
    value: TypeId,
    key_tainted: bool,
    value_tainted: bool,
    es: Vec<(Expr, Expr)>,
    i: nat,
    d: nat,
) -> (State, bool, bool)
    decreases 3 * d + 1, es, es@.len() - i,
{
    if i >= es@.len() {
        (s, key_tainted, value_tainted)
    } else {
        let (s1, k) = check_expr(s, es@[i as int].0, d);
        let s2 = like_element(s1, key, k, expr_span(es@[i as int].0));
        let (s3, v) = check_expr(s2, es@[i as int].1, d);
        let s4 = like_element(s3, value, v, expr_span(es@[i as int].1));
        map_entries(
            s4,
            key,
            value,
            key_tainted || ty(s1.types, k) is Secret,
            value_tainted || ty(s3.types, v) is Secret,
            es,
            i + 1,
            d,
        )
    }
}

pub open spec fn check_map(s: State, es: Vec<(Expr, Expr)>, d: nat) -> (State, TypeId)
    decreases 3 * d + 1, es, es@.len() + 2,
{
    if es@.len() == 0 {
        intern_type(s, Type::MapOf(TypeInterner::ERROR, TypeInterner::ERROR))
    } else {
        let (s1, k) = check_expr(s, es@[0].0, d);
        let (s2, v) = check_expr(s1, es@[0].1, d);
        let key = revealed(s2.types, k);
        let value = revealed(s2.types, v);
        let (s3, key_tainted, value_tainted) = map_entries(
            s2,
            key,
            value,
            ty(s2.types, k) is Secret,
            ty(s2.types, v) is Secret,
            es,
            1,
            d,
        );
        let (s4, wrapped_key) = with_types(s3, wrap_secret(s3.types, key, key_tainted));
        let (s5, wrapped_value) = with_types(s4, wrap_secret(s4.types, value, value_tainted));
        intern_type(s5, Type::MapOf(wrapped_key, wrapped_value))
    }
}

pub open spec fn expected_entries(
    s: State,
    key: TypeId,
    value: TypeId,
    allow: bool,
    es: Vec<(Expr, Expr)>,
    i: nat,
    d: nat,
) -> State
    decreases 3 * d + 1, es, es@.len() - i,
{
    if i >= es@.len() {
        s
    } else {
        let (s1, k) = check_optionally_expected(s, es@[i as int].0, key, allow, d);
        let s2 = expect_type(s1, key, k, expr_span(es@[i as int].0));
        let (s3, v) = check_optionally_expected(s2, es@[i as int].1, value, allow, d);
        let s4 = expect_type(s3, value, v, expr_span(es@[i as int].1));
        expected_entries(s4, key, value, allow, es, i + 1, d)
    }
}

// ---------------------------------------------------------------------------
// The checks
// ---------------------------------------------------------------------------

fn find_name(names: &Vec<String>, name: &String) -> (r: Option<usize>)
    ensures
        r is Some <==> name_place(views(names@), name@, 0) is Some,
        r matches Some(k) ==> name_place(views(names@), name@, 0) == Some(k as nat) && k < names@.len(),
{
    let mut i: usize = 0;
    while i < names.len()
        invariant
            i <= names@.len(),
            name_place(views(names@), name@, 0) == name_place(views(names@), name@, i as nat),
        decreases names@.len() - i,
    {
        if names[i] == *name {
            return Some(i);
        }
        i = i + 1;
    }
    None
}

fn find_free(assigned: &Vec<bool>) -> (r: Option<usize>)
    ensures
        r is Some <==> first_free(assigned@, 0) is Some,
        r matches Some(k) ==> first_free(assigned@, 0) == Some(k as nat) && k < assigned@.len(),
{
    let mut i: usize = 0;
    while i < assigned.len()
        invariant
            i <= assigned@.len(),
            first_free(assigned@, 0) == first_free(assigned@, i as nat),
        decreases assigned@.len() - i,
    {
        if !assigned[i] {
            return Some(i);
        }
        i = i + 1;
    }
    None
}

fn find_target(names: &Vec<String>, assigned: &Vec<bool>, arg: &CallArg) -> (r: Option<usize>)
    requires
        names@.len() == assigned@.len(),
    ensures
        r is Some <==> target_field(views(names@), assigned@, *arg) is Some,
        r matches Some(k) ==> target_field(views(names@), assigned@, *arg) == Some(k as nat) && k
            < assigned@.len(),
{
    match &arg.name {
        Some(n) => find_name(names, &n.name),
        None => find_free(assigned),
    }
}

fn unassigned(n: usize) -> (r: Vec<bool>)
    ensures
        r@ == none_assigned(n as nat),
{
    let mut r: Vec<bool> = Vec::new();
    let mut i: usize = 0;
    while i < n
        invariant
            i <= n,
            r@ =~= none_assigned(i as nat),
        decreases n - i,
    {
        r.push(false);
        i = i + 1;
    }
    r
}

fn names_of_fields(fields: &Vec<NamedType>) -> (r: Vec<String>)
    ensures
        views(r@) == field_names(views(fields@)),
{
    let mut r: Vec<String> = Vec::new();
    let mut i: usize = 0;
    while i < fields.len()
        invariant
            i <= fields@.len(),
            r@.len() == i,
            forall|j: int| 0 <= j < i ==> (#[trigger] r@[j])@ == fields@[j].name@,
        decreases fields@.len() - i,
    {
        r.push(fields[i].name.clone());
        i = i + 1;
    }
    assert(views(r@) =~= field_names(views(fields@)));
    r
}

fn names_of_slots(fields: &Vec<BitfieldFieldShape>) -> (r: Vec<String>)
    ensures
        views(r@) == slot_names(views(fields@)),
{
    let mut r: Vec<String> = Vec::new();
    let mut i: usize = 0;
    while i < fields.len()
        invariant
            i <= fields@.len(),
            r@.len() == i,
            forall|j: int| 0 <= j < i ==> (#[trigger] r@[j])@ == fields@[j].name@,
        decreases fields@.len() - i,
    {
        r.push(fields[i].name.clone());
        i = i + 1;
    }
    assert(views(r@) =~= slot_names(views(fields@)));
    r
}

fn payload_text(front: &str, state: &String, expected: usize, got: usize) -> (r: String)
    ensures
        r@ == payload_words(front@, state@, expected as nat, got as nat),
{
    let mut r = join3(front, state.as_str(), "` expects ");
    r.append(decimal_text(expected).as_str());
    r.append(" payload field(s), got ");
    r.append(decimal_text(got).as_str());
    r
}

fn bare_name_of(arg: &CallArg) -> (r: Option<&Ident>)
    ensures
        r is Some <==> bare_name(*arg) is Some,
        r matches Some(i) ==> bare_name(*arg) == Some(*i),
{
    match &arg.value {
        Expr::Ident(ident) => {
            if arg.name.is_none() {
                Some(ident)
            } else {
                None
            }
        },
        _ => None,
    }
}

proof fn known_state_fields(s: State, mid: MachineId, state: MachineStateId)
    requires
        known(s),
        mid.0 < s.types.machines.len(),
        state.0 < s.types.machines[mid.0 as int].states.len(),
    ensures
        has_fields(s, s.types.machines[mid.0 as int].states[state.0 as int].fields),
{
    known_definitions(s);
    assert(has_states(s, s.types.machines[mid.0 as int].states));
}

impl<'a> TypeChecker<'a> {
    fn stray_argument(&mut self, owner: &String, fields: usize, args: usize, arg: &CallArg, span: Span)
        ensures
            keeps(old(self)@, final(self)@),
            known(old(self)@) ==> known(final(self)@),
            final(self)@ == stray_argument(
                old(self)@,
                owner@,
                fields as nat,
                args as nat,
                *arg,
                span,
            ),
    {
        proof {
            reveal(stray_argument);
        }
        match &arg.name {
            Some(n) => self.no_member(owner.clone(), &n.name, arg.span),
            None => self.wrong_argument_count(
                owner.as_str(),
                fields as u128,
                args as u128,
                span,
            ),
        }
    }

    fn missing_fields(&mut self, owner: &String, names: &Vec<String>, assigned: &Vec<bool>, span: Span)
        ensures
            keeps(old(self)@, final(self)@),
            known(old(self)@) ==> known(final(self)@),
            final(self)@ == missing_fields(
                old(self)@,
                owner@,
                views(names@),
                assigned@,
                0,
                span,
            ),
    {
        let mut i: usize = 0;
        while i < names.len() && i < assigned.len()
            invariant
                keeps(old(self)@, self@),
                known(old(self)@) ==> known(self@),
                i <= names@.len(),
                i <= assigned@.len(),
                missing_fields(self@, owner@, views(names@), assigned@, i as nat, span)
                    == missing_fields(old(self)@, owner@, views(names@), assigned@, 0, span),
            decreases names@.len() - i,
        {
            if !assigned[i] {
                self.report2(
                    ErrorCode::MissingConstructorField,
                    span,
                    owner.clone(),
                    names[i].clone(),
                );
            }
            i = i + 1;
        }
    }

    fn struct_field_value(&mut self, field: &NamedType, value: &Expr, Ghost(d): Ghost<nat>)
        requires
            can_enter(old(self)@, d),
        ensures
            keeps(old(self)@, final(self)@),
            known(old(self)@) && has(old(self)@, field.ty) ==> known(final(self)@),
            final(self)@ == struct_field_value(old(self)@, field@, *value, d),
        decreases 3 * d + 1, value, 20nat,
    {
        let refined = self.interner().is_refinement_type(field.ty);
        let got: usize = if !refined {
            self.check_expr_for_expected(value, field.ty, false, Ghost(d))
        } else {
            match value {
                Expr::Handle(_, _, _, _) => self.check_expr_for_expected(value, field.ty, true, Ghost(d)),
                _ => self.check_expr(value, Ghost(d)),
            }
        };
        if self.interner().is_refinement_type(field.ty) && self.interner().can_refine_from(
            got,
            field.ty,
        ) {
            return;
        }
        self.expect_argument(field.name.as_str(), field.ty, got, value.span());
    }

    fn struct_args(
        &mut self,
        owner: &String,
        fields: &Vec<NamedType>,
        names: &Vec<String>,
        args: &Vec<CallArg>,
        span: Span,
        Ghost(d): Ghost<nat>,
    ) -> (r: Vec<bool>)
        requires
            can_enter(old(self)@, d),
            views(names@) == field_names(views(fields@)),
        ensures
            keeps(old(self)@, final(self)@),
            known(old(self)@) && has_fields(old(self)@, views(fields@)) ==> known(final(self)@),
            (final(self)@, r@) == struct_args(
                old(self)@,
                owner@,
                views(fields@),
                none_assigned(fields@.len()),
                *args,
                0,
                span,
                d,
            ),
        decreases 3 * d + 1, args, args@.len() + 1,
    {
        let ghost fs = views(fields@);
        let mut assigned = unassigned(fields.len());
        let mut i: usize = 0;
        assert(names@.len() == views(names@).len());
        while i < args.len()
            invariant
                can_enter(self@, d),
                keeps(old(self)@, self@),
                known(old(self)@) && has_fields(old(self)@, views(fields@)) ==> known(self@),
                i <= args@.len(),
                fs == views(fields@),
                views(names@) == field_names(fs),
                names@.len() == fields@.len(),
                assigned@.len() == fields@.len(),
                struct_args(self@, owner@, fs, assigned@, *args, i as nat, span, d)
                    == struct_args(
                    old(self)@,
                    owner@,
                    fs,
                    none_assigned(fields@.len()),
                    *args,
                    0,
                    span,
                    d,
                ),
            decreases args@.len() - i,
        {
            let arg = &args[i];
            match find_target(names, &assigned, arg) {
                None => {
                    self.stray_argument(owner, fields.len(), args.len(), arg, span);
                    let got: usize = self.check_expr(&arg.value, Ghost(d));
                },
                Some(k) => {
                    assert(fs[k as int] == fields@[k as int]@);
                    if assigned[k] {
                        self.report2(
                            ErrorCode::DuplicateConstructorField,
                            arg.span,
                            owner.clone(),
                            fields[k].name.clone(),
                        );
                        let got: usize = self.check_expr(&arg.value, Ghost(d));
                    } else {
                        self.struct_field_value(&fields[k], &arg.value, Ghost(d));
                        assigned[k] = true;
                    }
                },
            }
            i = i + 1;
        }
        assigned
    }

    fn any_refined(&self, fields: &Vec<NamedType>) -> (r: bool)
        ensures
            r == any_refined(self@, views(fields@)),
    {
        let ghost fs = views(fields@);
        let mut i: usize = 0;
        while i < fields.len()
            invariant
                i <= fields@.len(),
                fs == views(fields@),
                forall|j: int|
                    0 <= j < i ==> !(ty(self@.types, (#[trigger] fs[j]).ty) is Refinement),
            decreases fields@.len() - i,
        {
            assert(fs[i as int] == fields@[i as int]@);
            if self.interner().is_refinement_type(fields[i].ty) {
                assert(ty(self@.types, fs[i as int].ty) is Refinement);
                return true;
            }
            i = i + 1;
        }
        false
    }

    pub(crate) fn check_struct_constructor(
        &mut self,
        sid: StructId,
        args: &Vec<CallArg>,
        span: Span,
        Ghost(d): Ghost<nat>,
    ) -> (r: TypeId)
        requires
            can_enter(old(self)@, d),
            sid.0 < old(self)@.types.structs.len(),
        ensures
            keeps(old(self)@, final(self)@),
            known(old(self)@) ==> known(final(self)@) && has(final(self)@, r),
            (final(self)@, r) == struct_constructor(old(self)@, sid, *args, span, d),
        decreases 3 * d + 1, args, args@.len() + 2,
    {
        let def = self.interner().resolve_struct(sid);
        proof {
            if known(self@) {
                known_definitions(self@);
            }
        }
        let owner = def.name.clone();
        let fields = dup_vec(&def.fields);
        let names = names_of_fields(&fields);
        let refined = self.any_refined(&fields);
        assert(fields@.len() == views(fields@).len());
        let assigned = self.struct_args(&owner, &fields, &names, args, span, Ghost(d));
        self.missing_fields(&owner, &names, &assigned, span);
        let built: usize = self.intern(Type::Struct(sid));
        if refined {
            self.intern(Type::Result(built, TypeInterner::STRING))
        } else {
            built
        }
    }

    fn check_bitfield_literal_range(
        &mut self,
        owner: &String,
        field: &String,
        width: u16,
        value: i128,
        span: Span,
    )
        ensures
            keeps(old(self)@, final(self)@),
            known(old(self)@) ==> known(final(self)@),
            final(self)@ == literal_range(
                old(self)@,
                owner@,
                field@,
                width,
                value as int,
                span,
            ),
    {
        proof {
            reveal(literal_range);
        }
        if value < 0 || value > greatest_value(width) {
            self.emit(
                Diagnostic::error(
                    ErrorCode::BitfieldLiteralOutOfRange,
                    span,
                    args4(
                        owner.clone(),
                        field.clone(),
                        decimal_text(width as usize),
                        signed_decimal_text(value),
                    ),
                ),
            );
        }
    }

    fn slot_value(&mut self, owner: &String, field: &BitfieldFieldShape, value: &Expr, Ghost(d): Ghost<nat>) -> (r: bool)
        requires
            can_enter(old(self)@, d),
        ensures
            keeps(old(self)@, final(self)@),
            known(old(self)@) && has(old(self)@, field.ty) ==> known(final(self)@),
            (final(self)@, r) == slot_value(old(self)@, owner@, field@, *value, d),
        decreases 3 * d + 1, value, 20nat,
    {
        let got: usize = self.check_expr_for_expected(value, field.ty, false, Ghost(d));
        if !self.types_compatible(field.ty, got) {
            self.expect_argument(field.name.as_str(), field.ty, got, value.span());
            return false;
        }
        match field.kind {
            BitfieldSlot::Bits { width } => {
                if field.ty == TypeInterner::INT64 || field.ty == TypeInterner::UINT64 {
                    match value {
                        Expr::IntLiteral(v, literal_span) => {
                            self.check_bitfield_literal_range(
                                owner,
                                &field.name,
                                width,
                                *v,
                                *literal_span,
                            );
                            false
                        },
                        _ => true,
                    }
                } else {
                    false
                }
            },
            BitfieldSlot::Payload => false,
        }
    }

    fn slot_args(
        &mut self,
        owner: &String,
        fields: &Vec<BitfieldFieldShape>,
        names: &Vec<String>,
        args: &Vec<CallArg>,
        span: Span,
        Ghost(d): Ghost<nat>,
    ) -> (r: (Vec<bool>, bool))
        requires
            can_enter(old(self)@, d),
            views(names@) == slot_names(views(fields@)),
        ensures
            keeps(old(self)@, final(self)@),
            known(old(self)@) && has_slots(old(self)@, views(fields@)) ==> known(final(self)@),
            (final(self)@, r.0@, r.1) == slot_args(
                old(self)@,
                owner@,
                views(fields@),
                none_assigned(fields@.len()),
                false,
                *args,
                0,
                span,
                d,
            ),
        decreases 3 * d + 1, args, args@.len() + 1,
    {
        let ghost fs = views(fields@);
        let mut assigned = unassigned(fields.len());
        let mut tested = false;
        let mut i: usize = 0;
        assert(names@.len() == views(names@).len());
        while i < args.len()
            invariant
                can_enter(self@, d),
                keeps(old(self)@, self@),
                known(old(self)@) && has_slots(old(self)@, views(fields@)) ==> known(self@),
                i <= args@.len(),
                fs == views(fields@),
                views(names@) == slot_names(fs),
                names@.len() == fields@.len(),
                assigned@.len() == fields@.len(),
                slot_args(self@, owner@, fs, assigned@, tested, *args, i as nat, span, d)
                    == slot_args(
                    old(self)@,
                    owner@,
                    fs,
                    none_assigned(fields@.len()),
                    false,
                    *args,
                    0,
                    span,
                    d,
                ),
            decreases args@.len() - i,
        {
            let arg = &args[i];
            match find_target(names, &assigned, arg) {
                None => {
                    self.stray_argument(owner, fields.len(), args.len(), arg, span);
                    let got: usize = self.check_expr(&arg.value, Ghost(d));
                },
                Some(k) => {
                    assert(fs[k as int] == fields@[k as int]@);
                    if assigned[k] {
                        self.report2(
                            ErrorCode::DuplicateConstructorField,
                            arg.span,
                            owner.clone(),
                            fields[k].name.clone(),
                        );
                        let got: usize = self.check_expr(&arg.value, Ghost(d));
                    } else {
                        let test = self.slot_value(owner, &fields[k], &arg.value, Ghost(d));
                        assigned[k] = true;
                        tested = tested || test;
                    }
                },
            }
            i = i + 1;
        }
        (assigned, tested)
    }

    pub(crate) fn check_bitfield_constructor(
        &mut self,
        bid: BitfieldId,
        args: &Vec<CallArg>,
        span: Span,
        Ghost(d): Ghost<nat>,
    ) -> (r: TypeId)
        requires
            can_enter(old(self)@, d),
            bid.0 < old(self)@.types.bitfields.len(),
        ensures
            keeps(old(self)@, final(self)@),
            known(old(self)@) ==> known(final(self)@) && has(final(self)@, r),
            (final(self)@, r) == bitfield_constructor(old(self)@, bid, *args, span, d),
        decreases 3 * d + 1, args, args@.len() + 2,
    {
        let def = self.interner().resolve_bitfield(bid);
        proof {
            if known(self@) {
                known_definitions(self@);
            }
        }
        let owner = def.name.clone();
        let fields = dup_vec(&def.fields);
        let names = names_of_slots(&fields);
        assert(fields@.len() == views(fields@).len());
        let (assigned, tested) = self.slot_args(&owner, &fields, &names, args, span, Ghost(d));
        self.missing_fields(&owner, &names, &assigned, span);
        let built: usize = self.intern(Type::Bitfield(bid));
        if tested {
            self.intern(Type::Result(built, TypeInterner::STRING))
        } else {
            built
        }
    }

    fn payload_args(&mut self, fields: &Vec<NamedType>, args: &Vec<CallArg>, skip: usize, Ghost(d): Ghost<nat>)
        requires
            can_enter(old(self)@, d),
        ensures
            keeps(old(self)@, final(self)@),
            known(old(self)@) && has_fields(old(self)@, views(fields@)) ==> known(final(self)@),
            final(self)@ == payload_args(
                old(self)@,
                views(fields@),
                *args,
                skip as nat,
                skip as nat,
                d,
            ),
        decreases 3 * d + 1, args, args@.len() + 1,
    {
        let ghost fs = views(fields@);
        let mut i: usize = skip;
        while i < args.len()
            invariant
                can_enter(self@, d),
                keeps(old(self)@, self@),
                known(old(self)@) && has_fields(old(self)@, views(fields@)) ==> known(self@),
                skip <= i,
                fs == views(fields@),
                payload_args(self@, fs, *args, skip as nat, i as nat, d) == payload_args(
                    old(self)@,
                    fs,
                    *args,
                    skip as nat,
                    skip as nat,
                    d,
                ),
            decreases args@.len() - i,
        {
            let arg = &args[i];
            if i - skip < fields.len() {
                let field = &fields[i - skip];
                assert(fs[i - skip] == field@);
                let got: usize = self.check_expr_for_expected(&arg.value, field.ty, false, Ghost(d));
                self.expect_argument(field.name.as_str(), field.ty, got, arg.value.span());
            } else {
                let got: usize = self.check_expr(&arg.value, Ghost(d));
            }
            i = i + 1;
        }
    }

    pub(crate) fn check_machine_constructor(
        &mut self,
        mid: MachineId,
        args: &Vec<CallArg>,
        span: Span,
        Ghost(d): Ghost<nat>,
    ) -> (r: TypeId)
        requires
            can_enter(old(self)@, d),
            mid.0 < old(self)@.types.machines.len(),
        ensures
            keeps(old(self)@, final(self)@),
            known(old(self)@) ==> known(final(self)@) && has(final(self)@, r),
            (final(self)@, r) == machine_constructor(old(self)@, mid, *args, span, d),
        decreases 3 * d + 1, args, args@.len() + 2,
    {
        let def = self.interner().resolve_machine(mid);
        proof {
            if known(self@) {
                known_definitions(self@);
            }
        }
        let owner = def.name.clone();
        if args.len() == 0 {
            self.report2(
                ErrorCode::InvalidMachineConstruction,
                span,
                owner,
                text("expected an initial state argument"),
            );
            return TypeInterner::ERROR;
        }
        match bare_name_of(&args[0]) {
            None => {
                self.report2(
                    ErrorCode::InvalidMachineConstruction,
                    args[0].span,
                    owner,
                    text("first argument must be a bare state name"),
                );
                self.check_each_arg(args, 1, Ghost(d));
                TypeInterner::ERROR
            },
            Some(ident) => match def.state_id(&ident.name) {
                None => {
                    self.report2(
                        ErrorCode::InvalidMachineConstruction,
                        ident.span,
                        owner,
                        join3("unknown state `", ident.name.as_str(), "`"),
                    );
                    self.check_each_arg(args, 1, Ghost(d));
                    TypeInterner::ERROR
                },
                Some(state) => {
                    let state_def = &def.states[state.0];
                    assert(def@.states[state.0 as int] == state_def@);
                    let fields = dup_vec(&state_def.fields);
                    let state_name = state_def.name.clone();
                    assert(fields@.len() == views(fields@).len());
                    if args.len() - 1 != fields.len() {
                        self.report2(
                            ErrorCode::InvalidMachineConstruction,
                            span,
                            owner,
                            payload_text("state `", &state_name, fields.len(), args.len() - 1),
                        );
                    }
                    self.payload_args(&fields, args, 1, Ghost(d));
                    self.intern(Type::MachineState { machine: mid, state })
                },
            },
        }
    }

    fn transition_error(&mut self, machine: &String, step: String, what: String, span: Span)
        ensures
            keeps(old(self)@, final(self)@),
            known(old(self)@) ==> known(final(self)@),
            final(self)@ == transition_error(old(self)@, machine@, step@, what@, span),
    {
        self.report3(ErrorCode::InvalidMachineTransitionCall, span, machine.clone(), step, what);
    }

    fn bad_source(&mut self, name: &String, id: TypeId, span: Span)
        ensures
            keeps(old(self)@, final(self)@),
            known(old(self)@) ==> known(final(self)@),
            final(self)@ == bad_source(old(self)@, name@, id, span),
    {
        let mut what = join3("source value must be `", name.as_str(), "` at a known state, got `");
        what.append(self.name_of(id).as_str());
        what.append("`");
        self.transition_error(name, text("transition"), what, span);
    }

    fn source_state(&mut self, mid: MachineId, name: &String, id: TypeId, span: Span) -> (r: Option<
        MachineStateId,
    >)
        ensures
            keeps(old(self)@, final(self)@),
            known(old(self)@) ==> known(final(self)@),
            (final(self)@, r) == source_state(old(self)@, mid, name@, id, span),
    {
        proof {
            reveal(source_state);
        }
        match self.resolve(id) {
            Type::MachineState { machine, state } => {
                if machine == mid {
                    Some(state)
                } else {
                    self.bad_source(name, id, span);
                    None
                }
            },
            Type::Error => None,
            _ => {
                self.bad_source(name, id, span);
                None
            },
        }
    }

    fn undeclared_step(
        &mut self,
        def: &MachineShape,
        from: Option<MachineStateId>,
        to: MachineStateId,
        target: &String,
        span: Span,
    )
        ensures
            keeps(old(self)@, final(self)@),
            known(old(self)@) ==> known(final(self)@),
            final(self)@ == undeclared_step(old(self)@, def@, from, to, target@, span),
    {
        proof {
            reveal(undeclared_step);
        }
        if let Some(f) = from {
            if !def.has_transition(f, to) {
                let source = match def.state(f) {
                    Some(state) => state.name.clone(),
                    None => text("<unknown>"),
                };
                self.transition_error(
                    &def.name,
                    join3(source.as_str(), " to ", target.as_str()),
                    text("edge is not declared"),
                    span,
                );
            }
        }
    }

    pub(crate) fn check_machine_transition_call(
        &mut self,
        mid: MachineId,
        args: &Vec<CallArg>,
        span: Span,
        Ghost(d): Ghost<nat>,
    ) -> (r: TypeId)
        requires
            can_enter(old(self)@, d),
            mid.0 < old(self)@.types.machines.len(),
        ensures
            keeps(old(self)@, final(self)@),
            known(old(self)@) ==> known(final(self)@) && has(final(self)@, r),
            (final(self)@, r) == transition_call(old(self)@, mid, *args, span, d),
        decreases 3 * d + 1, args, args@.len() + 2,
    {
        let def = self.interner().resolve_machine(mid).dup();
        let owner = def.name.clone();
        if args.len() < 2 {
            self.transition_error(
                &owner,
                text("transition"),
                text("expected a source value and target state"),
                span,
            );
            self.check_each_arg(args, 0, Ghost(d));
            return TypeInterner::ERROR;
        }
        let source: usize = self.check_expr(&args[0].value, Ghost(d));
        let from = self.source_state(mid, &owner, source, args[0].value.span());
        match bare_name_of(&args[1]) {
            None => {
                self.transition_error(
                    &owner,
                    text("transition"),
                    text("second argument must be a bare target state name"),
                    args[1].span,
                );
                self.check_each_arg(args, 2, Ghost(d));
                TypeInterner::ERROR
            },
            Some(ident) => match def.state_id(&ident.name) {
                None => {
                    self.transition_error(
                        &owner,
                        join2("to ", ident.name.as_str()),
                        join3("unknown target state `", ident.name.as_str(), "`"),
                        ident.span,
                    );
                    self.check_each_arg(args, 2, Ghost(d));
                    TypeInterner::ERROR
                },
                Some(to) => {
                    self.undeclared_step(&def, from, to, &ident.name, span);
                    let target = &def.states[to.0];
                    assert(def@.states[to.0 as int] == target@);
                    assert(target.fields@.len() == target@.fields.len());
                    proof {
                        if known(old(self)@) {
                            known_state_fields(old(self)@, mid, to);
                        }
                    }
                    if args.len() - 2 != target.fields.len() {
                        self.transition_error(
                            &owner,
                            join2("to ", target.name.as_str()),
                            payload_text(
                                "target state `",
                                &target.name,
                                target.fields.len(),
                                args.len() - 2,
                            ),
                            span,
                        );
                    }
                    self.payload_args(&target.fields, args, 2, Ghost(d));
                    self.intern(Type::MachineState { machine: mid, state: to })
                },
            },
        }
    }

    fn like_element(&mut self, element: TypeId, got: TypeId, span: Span)
        ensures
            keeps(old(self)@, final(self)@),
            known(old(self)@) ==> known(final(self)@),
            final(self)@ == like_element(old(self)@, element, got, span),
    {
        proof {
            reveal(like_element);
        }
        let base: usize = self.interner().revealed_type(got);
        if !self.types_compatible(element, base) && !self.types_compatible(base, element) {
            self.report_types(ErrorCode::TypeMismatch, span, element, got);
        }
    }

    pub(crate) fn check_list_construct(&mut self, es: &Vec<Expr>, Ghost(d): Ghost<nat>) -> (r: TypeId)
        requires
            can_enter(old(self)@, d),
        ensures
            keeps(old(self)@, final(self)@),
            known(old(self)@) ==> known(final(self)@) && has(final(self)@, r),
            (final(self)@, r) == check_list(old(self)@, *es, d),
        decreases 3 * d + 1, es, es@.len() + 2,
    {
        if es.len() == 0 {
            return self.intern(Type::List(TypeInterner::ERROR));
        }
        let first: usize = self.check_expr(&es[0], Ghost(d));
        let (element, first_secret) = self.interner().strip_secret_type(first);
        let mut tainted = first_secret;
        let ghost s1 = self@;
        let mut i: usize = 1;
        while i < es.len()
            invariant
                can_enter(self@, d),
                keeps(old(self)@, self@),
                known(old(self)@) ==> known(self@),
                1 <= i <= es@.len(),
                list_elements(self@, element, tainted, *es, i as nat, d) == list_elements(
                    s1,
                    element,
                    first_secret,
                    *es,
                    1,
                    d,
                ),
            decreases es@.len() - i,
        {
            let got: usize = self.check_expr(&es[i], Ghost(d));
            let secret = self.interner().is_secret_type(got);
            self.like_element(element, got, es[i].span());
            tainted = tainted || secret;
            i = i + 1;
        }
        let wrapped: usize = self.maybe_wrap_secret(element, tainted);
        self.intern(Type::List(wrapped))
    }

    pub(crate) fn check_list_construct_for_expected(
        &mut self,
        es: &Vec<Expr>,
        expected: TypeId,
        allow: bool,
        Ghost(d): Ghost<nat>,
    )
        requires
            can_enter(old(self)@, d),
        ensures
            keeps(old(self)@, final(self)@),
            known(old(self)@) && has(old(self)@, expected) ==> known(final(self)@),
            final(self)@ == expected_elements(old(self)@, expected, allow, *es, 0, d),
        decreases 3 * d + 1, es, es@.len() + 2,
    {
        let mut i: usize = 0;
        while i < es.len()
            invariant
                can_enter(self@, d),
                keeps(old(self)@, self@),
                known(old(self)@) && has(old(self)@, expected) ==> known(self@),
                i <= es@.len(),
                expected_elements(self@, expected, allow, *es, i as nat, d)
                    == expected_elements(old(self)@, expected, allow, *es, 0, d),
            decreases es@.len() - i,
        {
            let got: usize = self.check_expr_with_optional_expected(&es[i], expected, allow, Ghost(d));
            self.expect_type(expected, got, es[i].span());
            i = i + 1;
        }
    }

    pub(crate) fn check_map_construct(&mut self, es: &Vec<(Expr, Expr)>, Ghost(d): Ghost<nat>) -> (r: TypeId)
        requires
            can_enter(old(self)@, d),
        ensures
            keeps(old(self)@, final(self)@),
            known(old(self)@) ==> known(final(self)@) && has(final(self)@, r),
            (final(self)@, r) == check_map(old(self)@, *es, d),
        decreases 3 * d + 1, es, es@.len() + 2,
    {
        if es.len() == 0 {
            return self.intern(Type::MapOf(TypeInterner::ERROR, TypeInterner::ERROR));
        }
        let k0: usize = self.check_expr(&es[0].0, Ghost(d));
        let v0: usize = self.check_expr(&es[0].1, Ghost(d));
        let (key, key_secret) = self.interner().strip_secret_type(k0);
        let (value, value_secret) = self.interner().strip_secret_type(v0);
        let mut key_tainted = key_secret;
        let mut value_tainted = value_secret;
        let ghost s2 = self@;
        let mut i: usize = 1;
        while i < es.len()
            invariant
                can_enter(self@, d),
                keeps(old(self)@, self@),
                known(old(self)@) ==> known(self@),
                1 <= i <= es@.len(),
                map_entries(
                    self@,
                    key,
                    value,
                    key_tainted,
                    value_tainted,
                    *es,
                    i as nat,
                    d,
                ) == map_entries(s2, key, value, key_secret, value_secret, *es, 1, d),
            decreases es@.len() - i,
        {
            let entry = &es[i];
            let k: usize = self.check_expr(&entry.0, Ghost(d));
            let k_secret = self.interner().is_secret_type(k);
            self.like_element(key, k, entry.0.span());
            key_tainted = key_tainted || k_secret;
            let v: usize = self.check_expr(&entry.1, Ghost(d));
            let v_secret = self.interner().is_secret_type(v);
            self.like_element(value, v, entry.1.span());
            value_tainted = value_tainted || v_secret;
            i = i + 1;
        }
        let wrapped_key: usize = self.maybe_wrap_secret(key, key_tainted);
        let wrapped_value: usize = self.maybe_wrap_secret(value, value_tainted);
        self.intern(Type::MapOf(wrapped_key, wrapped_value))
    }

    pub(crate) fn check_map_construct_for_expected(
        &mut self,
        es: &Vec<(Expr, Expr)>,
        key: TypeId,
        value: TypeId,
        allow: bool,
        Ghost(d): Ghost<nat>,
    )
        requires
            can_enter(old(self)@, d),
        ensures
            keeps(old(self)@, final(self)@),
            known(old(self)@) && has(old(self)@, key) && has(old(self)@, value)
                ==> known(final(self)@),
            final(self)@ == expected_entries(old(self)@, key, value, allow, *es, 0, d),
        decreases 3 * d + 1, es, es@.len() + 2,
    {
        let mut i: usize = 0;
        while i < es.len()
            invariant
                can_enter(self@, d),
                keeps(old(self)@, self@),
                known(old(self)@) && has(old(self)@, key) && has(old(self)@, value)
                    ==> known(self@),
                i <= es@.len(),
                expected_entries(self@, key, value, allow, *es, i as nat, d)
                    == expected_entries(old(self)@, key, value, allow, *es, 0, d),
            decreases es@.len() - i,
        {
            let entry = &es[i];
            let k: usize = self.check_expr_with_optional_expected(&entry.0, key, allow, Ghost(d));
            self.expect_type(key, k, entry.0.span());
            let v: usize = self.check_expr_with_optional_expected(&entry.1, value, allow, Ghost(d));
            self.expect_type(value, v, entry.1.span());
            i = i + 1;
        }
    }
}

} // verus!
