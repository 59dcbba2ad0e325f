//! What is reported where values are built, and which types they have.
use vstd::prelude::*;

use crate::ast::{expr_span, CallArg, Expr, Ident};
use crate::check_construct::{
    bitfield_constructor, check_list, check_map, expected_elements, expected_entries, field_names,
    first_free, like_element, list_elements, literal_range, machine_constructor, map_entries,
    missing_fields, name_place, none_assigned, payload_args, payload_words, slot_args, slot_names,
    slot_value, source_state, state_word, stray_argument, struct_args, struct_constructor,
    struct_field_value, target_field, transition_call, undeclared_step,
};
use crate::check_exprs::{
    check_expected, check_expr, check_optionally_expected, each_arg, expr_type,
};
use crate::diagnostics::ErrorCode;
use crate::expression_laws::{has_room, is_secret, is_tainted, laid_open, nothing_reported};
use crate::handling_laws::with_report;
use crate::span::Span;
use crate::state::{intern_type, with_types, State};
use crate::steady::ids_last;
use crate::text::{decimal, signed_decimal};
use crate::type_laws::law_stored_types_are_found_again;
use crate::type_names::name_of;
use crate::type_rules::{can_refine, compatible, wrap_secret};
use crate::types::{
    grounded, lemma_basics, sound, state_named, ty, BitfieldFieldShapeV, BitfieldId, BitfieldSlot,
    MachineId, MachineShapeV, MachineStateId, MachineTransition, NamedTypeV, StructId, Type, TypeId,
    TypeInterner,
};

verus! {

// ---------------------------------------------------------------------------
// Which field an argument is for
// ---------------------------------------------------------------------------

/// An argument with a name is for the field of that name; one without is for the first field
/// that has no value yet. Otherwise it is for none.
pub proof fn law_arguments_and_fields(names: Seq<Seq<char>>, assigned: Seq<bool>, arg: CallArg)
    requires
        names.len() == assigned.len(),
    ensures
        target_field(names, assigned, arg) matches Some(k) ==> k < names.len() && match arg.name {
            Some(n) => names[k as int] == n.name@ && forall|j: int| 0 <= j < k ==> #[trigger] names[j] != n.name@,
            None => !assigned[k as int] && forall|j: int| 0 <= j < k ==> #[trigger] assigned[j],
        },
        target_field(names, assigned, arg) is None ==> match arg.name {
            Some(n) => !names.contains(n.name@),
            None => forall|j: int| 0 <= j < assigned.len() ==> #[trigger] assigned[j],
        },
{
    match arg.name {
        Some(n) => place_is_first(names, n.name@, 0),
        None => free_is_first(assigned, 0),
    }
}

proof fn place_is_first(names: Seq<Seq<char>>, name: Seq<char>, from: nat)
    ensures
        name_place(names, name, from) matches Some(k) ==> from <= k < names.len() && names[k as int] == name
            && forall|j: int| from <= j < k ==> #[trigger] names[j] != name,
        name_place(names, name, from) is None ==> forall|j: int| from <= j < names.len() ==> #[trigger] names[j] != name,
    decreases names.len() - from,
{
    if from < names.len() && names[from as int] != name {
        place_is_first(names, name, from + 1);
    }
}

proof fn free_is_first(assigned: Seq<bool>, from: nat)
    ensures
        first_free(assigned, from) matches Some(k) ==> from <= k < assigned.len() && !assigned[k as int]
            && forall|j: int| from <= j < k ==> #[trigger] assigned[j],
        first_free(assigned, from) is None ==> forall|j: int| from <= j < assigned.len() ==> #[trigger] assigned[j],
    decreases assigned.len() - from,
{
    if from < assigned.len() && assigned[from as int] {
        free_is_first(assigned, from + 1);
    }
}

/// An argument that is for no field is reported: by its name, or by the number of arguments.
pub proof fn law_stray_arguments(
    s: State,
    owner: Seq<char>,
    fields: nat,
    args: nat,
    arg: CallArg,
    span: Span,
)
    ensures
        stray_argument(s, owner, fields, args, arg, span) == match arg.name {
            Some(n) => with_report(
                s,
                ErrorCode::TypeHasNoMember,
                arg.span,
                seq![owner, n.name@],
            ),
            None => with_report(
                s,
                ErrorCode::ArgumentCountMismatch,
                span,
                seq![owner, decimal(fields), decimal(args)],
            ),
        },
{
    reveal(stray_argument);
}

// ---------------------------------------------------------------------------
// Structs
// ---------------------------------------------------------------------------

/// The arguments of a struct are taken in their turn. Each gives its field a value; a second
/// value for a field is reported, and an argument for no field is.
pub proof fn law_struct_arguments(
    s: State,
    owner: Seq<char>,
    fields: Seq<NamedTypeV>,
    assigned: Seq<bool>,
    args: Vec<CallArg>,
    i: nat,
    span: Span,
    d: nat,
)
    ensures
        struct_args(s, owner, fields, assigned, args, i, span, d) == if i >= args@.len() {
            (s, assigned)
        } else {
            let arg = args@[i as int];
            match target_field(field_names(fields), assigned, arg) {
                None => struct_args(
                    check_expr(
                        stray_argument(s, owner, fields.len(), args@.len(), arg, span),
                        arg.value,
                        d,
                    ).0,
                    owner,
                    fields,
                    assigned,
                    args,
                    i + 1,
                    span,
                    d,
                ),
                Some(k) if assigned[k as int] => struct_args(
                    check_expr(
                        with_report(
                            s,
                            ErrorCode::DuplicateConstructorField,
                            arg.span,
                            seq![owner, fields[k as int].name],
                        ),
                        arg.value,
                        d,
                    ).0,
                    owner,
                    fields,
                    assigned,
                    args,
                    i + 1,
                    span,
                    d,
                ),
                Some(k) => struct_args(
                    struct_field_value(s, fields[k as int], arg.value, d),
                    owner,
                    fields,
                    assigned.update(k as int, true),
                    args,
                    i + 1,
                    span,
                    d,
                ),
            }
        },
{
    reveal_with_fuel(struct_args, 2);
}

/// The value of a field is held against the field's type, and reported by the field's name
/// where it does not fit. A value that a refined field can be tested for will do.
pub proof fn law_struct_field_values(s: State, field: NamedTypeV, value: Expr, d: nat)
    ensures
        ({
            let refined = ty(s.types, field.ty) is Refinement;
            let (s1, got) = if refined && !(value is Handle) {
                check_expr(s, value, d)
            } else {
                check_expected(s, value, field.ty, refined, d)
            };
            let after = struct_field_value(s, field, value, d);
            if ty(s1.types, field.ty) is Refinement && can_refine(s1.types, got, field.ty) || compatible(
                s1.types,
                s1.impls,
                field.ty,
                got,
            ) {
                after == s1
            } else {
                after == with_report(
                    s1,
                    ErrorCode::ArgumentTypeMismatch,
                    expr_span(value),
                    seq![field.name, name_of(s1.types, field.ty), name_of(s1.types, got)],
                )
            }
        }),
{
}

/// Building a struct gives the struct, once every field that got no value is reported. Where a
/// field is refined it gives a result that fails with a text.
pub proof fn law_struct_constructors(s: State, sid: StructId, args: Vec<CallArg>, span: Span, d: nat)
    requires
        ({
            let def = s.types.structs[sid.0 as int];
            let (s1, assigned) = struct_args(
                s,
                def.name,
                def.fields,
                none_assigned(def.fields.len()),
                args,
                0,
                span,
                d,
            );
            has_room(s1) && sid.0 < s1.types.structs.len()
        }),
    ensures
        ({
            let def = s.types.structs[sid.0 as int];
            let (s1, assigned) = struct_args(
                s,
                def.name,
                def.fields,
                none_assigned(def.fields.len()),
                args,
                0,
                span,
                d,
            );
            let (after, t) = struct_constructor(s, sid, args, span, d);
            let refined = exists|i: int|
                0 <= i < def.fields.len() && ty(s.types, (#[trigger] def.fields[i]).ty) is Refinement;
            &&& after.reports == missing_fields(
                s1,
                def.name,
                def.fields.map_values(|f: NamedTypeV| f.name),
                assigned,
                0,
                span,
            ).reports
            &&& if refined {
                ty(after.types, t) matches Type::Result(built, failure) && failure == TypeInterner::STRING
                    && ty(after.types, built) == Type::Struct(sid)
            } else {
                ty(after.types, t) == Type::Struct(sid)
            }
        }),
{
    let def = s.types.structs[sid.0 as int];
    let (s1, assigned) = struct_args(
        s,
        def.name,
        def.fields,
        none_assigned(def.fields.len()),
        args,
        0,
        span,
        d,
    );
    let s2 = missing_fields(s1, def.name, field_names(def.fields), assigned, 0, span);
    missing_change_no_type(s1, def.name, field_names(def.fields), assigned, 0, span);
    built_and_tested(s2, Type::Struct(sid));
}

proof fn missing_change_no_type(
    s: State,
    owner: Seq<char>,
    names: Seq<Seq<char>>,
    assigned: Seq<bool>,
    i: nat,
    span: Span,
)
    ensures
        missing_fields(s, owner, names, assigned, i, span).types == s.types,
    decreases names.len() - i,
{
    if i < names.len() && i < assigned.len() {
        let next = if assigned[i as int] {
            s
        } else {
            with_report(
                s,
                ErrorCode::MissingConstructorField,
                span,
                seq![owner, names[i as int]],
            )
        };
        missing_change_no_type(next, owner, names, assigned, i + 1, span);
    }
}

/// A built type, and the result that it is where it has to be tested.
proof fn built_and_tested(s: State, t: Type)
    requires
        has_room(s),
        grounded(s.types, t, s.types.types.len()),
    ensures
        ({
            let (s1, built) = intern_type(s, t);
            let (s2, tested) = intern_type(s1, Type::Result(built, TypeInterner::STRING));
            &&& ty(s1.types, built) == t
            &&& s1.reports == s.reports
            &&& s2.reports == s.reports
            &&& ty(s2.types, tested) == Type::Result(built, TypeInterner::STRING)
            &&& ty(s2.types, built) == t
        }),
{
    law_stored_types_are_found_again(s.types, t);
    let (s1, built) = intern_type(s, t);
    lemma_basics(s1.types);
    if s.types.types.contains(t) {
        let i = s.types.types.index_of(t);
        assert(0 <= i < s.types.types.len());
    }
    law_stored_types_are_found_again(s1.types, Type::Result(built, TypeInterner::STRING));
}

// ---------------------------------------------------------------------------
// Bitfields
// ---------------------------------------------------------------------------

/// A written number in a field of a bitfield has to fit in its bits, and be none below zero.
pub proof fn law_numbers_fit_in_their_bits(
    s: State,
    owner: Seq<char>,
    field: Seq<char>,
    width: u16,
    value: int,
    span: Span,
)
    requires
        0 < width <= 62 || width == 64,
    ensures
        literal_range(s, owner, field, width, value, span) == if 0 <= value < vstd::arithmetic::power2::pow2(
            width as nat,
        ) {
            s
        } else {
            with_report(
                s,
                ErrorCode::BitfieldLiteralOutOfRange,
                span,
                seq![owner, field, decimal(width as nat), signed_decimal(value)],
            )
        },
{
    reveal(literal_range);
    vstd::arithmetic::power2::lemma2_to64();
    vstd::arithmetic::power2::lemma2_to64_rest();
}

/// The value of a field of a bitfield is held against the field's type. A number in a field of
/// bits is held against the bits where it is written out, and tested while the program runs
/// otherwise.
pub proof fn law_bitfield_values(s: State, owner: Seq<char>, field: BitfieldFieldShapeV, value: Expr, d: nat)
    ensures
        ({
            let (s1, got) = check_expected(s, value, field.ty, false, d);
            let number = field.ty == TypeInterner::INT64 || field.ty == TypeInterner::UINT64;
            let (after, tested) = slot_value(s, owner, field, value, d);
            if !compatible(s1.types, s1.impls, field.ty, got) {
                !tested && after == with_report(
                    s1,
                    ErrorCode::ArgumentTypeMismatch,
                    expr_span(value),
                    seq![field.name, name_of(s1.types, field.ty), name_of(s1.types, got)],
                )
            } else {
                match (field.kind, value) {
                    (BitfieldSlot::Bits { width }, Expr::IntLiteral(v, span)) if number => !tested && after
                        == literal_range(s1, owner, field.name, width, v as int, span),
                    (BitfieldSlot::Bits { width }, _) => tested == number && after == s1,
                    _ => !tested && after == s1,
                }
            }
        }),
{
}

/// The arguments of a bitfield are taken as those of a struct are.
pub proof fn law_bitfield_arguments(
    s: State,
    owner: Seq<char>,
    fields: Seq<BitfieldFieldShapeV>,
    assigned: Seq<bool>,
    tested: bool,
    args: Vec<CallArg>,
    i: nat,
    span: Span,
    d: nat,
)
    ensures
        slot_args(s, owner, fields, assigned, tested, args, i, span, d) == if i >= args@.len() {
            (s, assigned, tested)
        } else {
            let arg = args@[i as int];
            match target_field(slot_names(fields), assigned, arg) {
                None => slot_args(
                    check_expr(
                        stray_argument(s, owner, fields.len(), args@.len(), arg, span),
                        arg.value,
                        d,
                    ).0,
                    owner,
                    fields,
                    assigned,
                    tested,
                    args,
                    i + 1,
                    span,
                    d,
                ),
                Some(k) if assigned[k as int] => slot_args(
                    check_expr(
                        with_report(
                            s,
                            ErrorCode::DuplicateConstructorField,
                            arg.span,
                            seq![owner, fields[k as int].name],
                        ),
                        arg.value,
                        d,
                    ).0,
                    owner,
                    fields,
                    assigned,
                    tested,
                    args,
                    i + 1,
                    span,
                    d,
                ),
                Some(k) => {
                    let (s1, test) = slot_value(s, owner, fields[k as int], arg.value, d);
                    slot_args(
                        s1,
                        owner,
                        fields,
                        assigned.update(k as int, true),
                        tested || test,
                        args,
                        i + 1,
                        span,
                        d,
                    )
                },
            }
        },
{
    reveal_with_fuel(slot_args, 2);
}

/// Building a bitfield gives the bitfield, once every field that got no value is reported. Where
/// a value has to be tested it gives a result that fails with a text.
pub proof fn law_bitfield_constructors(s: State, bid: BitfieldId, args: Vec<CallArg>, span: Span, d: nat)
    requires
        ({
            let def = s.types.bitfields[bid.0 as int];
            let s1 = slot_args(
                s,
                def.name,
                def.fields,
                none_assigned(def.fields.len()),
                false,
                args,
                0,
                span,
                d,
            ).0;
            has_room(s1) && bid.0 < s1.types.bitfields.len()
        }),
    ensures
        ({
            let def = s.types.bitfields[bid.0 as int];
            let (s1, assigned, tested) = slot_args(
                s,
                def.name,
                def.fields,
                none_assigned(def.fields.len()),
                false,
                args,
                0,
                span,
                d,
            );
            let (after, t) = bitfield_constructor(s, bid, args, span, d);
            &&& after.reports == missing_fields(
                s1,
                def.name,
                def.fields.map_values(|f: BitfieldFieldShapeV| f.name),
                assigned,
                0,
                span,
            ).reports
            &&& if tested {
                ty(after.types, t) matches Type::Result(built, failure) && failure == TypeInterner::STRING
                    && ty(after.types, built) == Type::Bitfield(bid)
            } else {
                ty(after.types, t) == Type::Bitfield(bid)
            }
        }),
{
    let def = s.types.bitfields[bid.0 as int];
    let (s1, assigned, tested) = slot_args(
        s,
        def.name,
        def.fields,
        none_assigned(def.fields.len()),
        false,
        args,
        0,
        span,
        d,
    );
    let s2 = missing_fields(s1, def.name, slot_names(def.fields), assigned, 0, span);
    missing_change_no_type(s1, def.name, slot_names(def.fields), assigned, 0, span);
    built_and_tested(s2, Type::Bitfield(bid));
}

// ---------------------------------------------------------------------------
// Machines
// ---------------------------------------------------------------------------

/// The values behind the state's name are held against the state's fields, each at its place;
/// those beyond are looked at by themselves.
pub proof fn law_payloads(s: State, fields: Seq<NamedTypeV>, args: Vec<CallArg>, skip: nat, i: nat, d: nat)
    requires
        skip <= i,
    ensures
        payload_args(s, fields, args, skip, i, d) == if i >= args@.len() {
            s
        } else {
            let value = args@[i as int].value;
            payload_args(
                if i - skip < fields.len() {
                    let field = fields[i - skip];
                    let (s1, got) = check_expected(s, value, field.ty, false, d);
                    if compatible(s1.types, s1.impls, field.ty, got) {
                        s1
                    } else {
                        with_report(
                            s1,
                            ErrorCode::ArgumentTypeMismatch,
                            expr_span(value),
                            seq![field.name, name_of(s1.types, field.ty), name_of(s1.types, got)],
                        )
                    }
                } else {
                    check_expr(s, value, d).0
                },
                fields,
                args,
                skip,
                i + 1,
                d,
            )
        },
{
    reveal_with_fuel(payload_args, 2);
}

/// A machine starts at the state that its first argument names, with as many values as the
/// state has fields. A missing or unknown state is reported and gives the error type.
pub proof fn law_machines_start_at_a_state(s: State, mid: MachineId, args: Vec<CallArg>, span: Span, d: nat)
    ensures
        ({
            let def = s.types.machines[mid.0 as int];
            let (after, t) = machine_constructor(s, mid, args, span, d);
            let code = ErrorCode::InvalidMachineConstruction;
            if args@.len() == 0 {
                t == TypeInterner::ERROR && after == with_report(
                    s,
                    code,
                    span,
                    seq![def.name, "expected an initial state argument"@],
                )
            } else {
                match args@[0].value {
                    Expr::Ident(ident) if args@[0].name is None => match state_named(def, ident.name@) {
                        None => t == TypeInterner::ERROR && after == each_arg(
                            with_report(
                                s,
                                code,
                                ident.span,
                                seq![def.name, "unknown state `"@ + ident.name@ + "`"@],
                            ),
                            args,
                            1,
                            d,
                        ),
                        Some(state) => {
                            let fields = def.states[state.0 as int].fields;
                            let s1 = if args@.len() - 1 == fields.len() {
                                s
                            } else {
                                with_report(
                                    s,
                                    code,
                                    span,
                                    seq![
                                        def.name,
                                        payload_words(
                                            "state `"@,
                                            def.states[state.0 as int].name,
                                            fields.len(),
                                            (args@.len() - 1) as nat,
                                        ),
                                    ],
                                )
                            };
                            (after, t) == intern_type(
                                payload_args(s1, fields, args, 1, 1, d),
                                Type::MachineState { machine: mid, state },
                            )
                        },
                    },
                    _ => t == TypeInterner::ERROR && after == each_arg(
                        with_report(
                            s,
                            code,
                            args@[0].span,
                            seq![def.name, "first argument must be a bare state name"@],
                        ),
                        args,
                        1,
                        d,
                    ),
                }
            }
        }),
{
}

/// A machine moves on from the state that its value is known to be at, along a step that it
/// declares, to the state that is named, with as many values as that state has fields. Each
/// thing that is not so is reported.
pub proof fn law_machines_move_along_their_steps(s: State, mid: MachineId, args: Vec<CallArg>, span: Span, d: nat)
    requires
        args@.len() >= 2,
    ensures
        ({
            let def = s.types.machines[mid.0 as int];
            let (s1, source) = check_expr(s, args@[0].value, d);
            let (s2, from) = source_state(s1, mid, def.name, source, expr_span(args@[0].value));
            let (after, t) = transition_call(s, mid, args, span, d);
            let code = ErrorCode::InvalidMachineTransitionCall;
            match args@[1].value {
                Expr::Ident(ident) if args@[1].name is None => match state_named(def, ident.name@) {
                    None => t == TypeInterner::ERROR && after == each_arg(
                        with_report(
                            s2,
                            code,
                            ident.span,
                            seq![
                                def.name,
                                "to "@ + ident.name@,
                                "unknown target state `"@ + ident.name@ + "`"@,
                            ],
                        ),
                        args,
                        2,
                        d,
                    ),
                    Some(to) => {
                        let target = def.states[to.0 as int];
                        let s3 = undeclared_step(s2, def, from, to, ident.name@, span);
                        let s4 = if args@.len() - 2 == target.fields.len() {
                            s3
                        } else {
                            with_report(
                                s3,
                                code,
                                span,
                                seq![
                                    def.name,
                                    "to "@ + target.name,
                                    payload_words(
                                        "target state `"@,
                                        target.name,
                                        target.fields.len(),
                                        (args@.len() - 2) as nat,
                                    ),
                                ],
                            )
                        };
                        (after, t) == intern_type(
                            payload_args(s4, target.fields, args, 2, 2, d),
                            Type::MachineState { machine: mid, state: to },
                        )
                    },
                },
                _ => t == TypeInterner::ERROR && after == each_arg(
                    with_report(
                        s2,
                        code,
                        args@[1].span,
                        seq![
                            def.name,
                            "transition"@,
                            "second argument must be a bare target state name"@,
                        ],
                    ),
                    args,
                    2,
                    d,
                ),
            }
        }),
{
}

/// The value that is moved on has to be one of the machine at a known state. Another is
/// reported, unless it was before.
pub proof fn law_sources_are_at_a_state(s: State, mid: MachineId, name: Seq<char>, id: TypeId, span: Span)
    ensures
        ({
            let (after, from) = source_state(s, mid, name, id, span);
            match ty(s.types, id) {
                Type::MachineState { machine, state } if machine == mid => from == Some(state) && after == s,
                Type::Error => from is None && after == s,
                _ => from is None && after.reports.len() == s.reports.len() + 1 && after.reports.last().code
                    == ErrorCode::InvalidMachineTransitionCall && after.reports.last().span == span,
            }
        }),
{
    reveal(source_state);
}

/// A step that the machine does not declare is reported.
pub proof fn law_undeclared_steps_are_reported(
    s: State,
    def: MachineShapeV,
    from: MachineStateId,
    to: MachineStateId,
    target: Seq<char>,
    span: Span,
)
    ensures
        undeclared_step(s, def, None, to, target, span) == s,
        undeclared_step(s, def, Some(from), to, target, span) == if exists|i: int|
            0 <= i < def.transitions.len() && #[trigger] def.transitions[i] == (MachineTransition { from, to }) {
            s
        } else {
            with_report(
                s,
                ErrorCode::InvalidMachineTransitionCall,
                span,
                seq![def.name, state_word(def, from) + " to "@ + target, "edge is not declared"@],
            )
        },
{
    reveal(undeclared_step);
}

// ---------------------------------------------------------------------------
// Lists and maps
// ---------------------------------------------------------------------------

/// An element goes with the others where either type fits the other, secrets laid open. One
/// that does not is reported.
pub proof fn law_elements_go_together(s: State, element: TypeId, got: TypeId, span: Span)
    ensures
        ({
            let open = laid_open(s.types, got);
            like_element(s, element, got, span) == if compatible(s.types, s.impls, element, open) || compatible(
                s.types,
                s.impls,
                open,
                element,
            ) {
                s
            } else {
                with_report(
                    s,
                    ErrorCode::TypeMismatch,
                    span,
                    seq![name_of(s.types, element), name_of(s.types, got)],
                )
            }
        }),
{
    reveal(like_element);
}

/// Each element behind the first is checked in its turn and held against the first one's type;
/// one secret among them makes the list's elements secret.
pub proof fn law_elements_in_turn(
    s: State,
    element: TypeId,
    tainted: bool,
    es: Vec<Expr>,
    i: nat,
    d: nat,
)
    ensures
        list_elements(s, element, tainted, es, i, d) == if i >= es@.len() {
            (s, tainted)
        } else {
            let (s1, got) = check_expr(s, es@[i as int], d);
            list_elements(
                like_element(s1, element, got, expr_span(es@[i as int])),
                element,
                tainted || is_secret(s1.types, got),
                es,
                i + 1,
                d,
            )
        },
{
    reveal_with_fuel(list_elements, 2);
}

/// A list holds values of its first element's type, secret where any element is. An empty list
/// holds what is asked for.
pub proof fn law_lists(s: State, es: Vec<Expr>, span: Span, d: nat)
    requires
        es@.len() == 0 ==> has_room(s),
        es@.len() > 0 ==> ({
            let (s1, first) = check_expr(s, es@[0], d);
            let (s2, tainted) = list_elements(
                s1,
                laid_open(s1.types, first),
                is_secret(s1.types, first),
                es,
                1,
                d,
            );
            has_room(s2) && laid_open(s1.types, first) < s2.types.types.len()
        }),
    ensures
        ({
            let (after, t) = check_expr(s, Expr::ListConstruct(es, span), d);
            if es@.len() == 0 {
                nothing_reported(s, after) && ty(after.types, t) == Type::List(TypeInterner::ERROR)
            } else {
                let (s1, first) = check_expr(s, es@[0], d);
                let open = laid_open(s1.types, first);
                let (s2, tainted) = list_elements(s1, open, is_secret(s1.types, first), es, 1, d);
                &&& nothing_reported(s2, after)
                &&& ty(after.types, t) matches Type::List(x) && is_tainted(
                    after.types,
                    x,
                    open,
                    tainted && !unwrapped(s2, open),
                )
            }
        }),
{
    let e = Expr::ListConstruct(es, span);
    assert(expr_type(s, e, d) == check_list(s, es, d)) by {
        reveal_with_fuel(expr_type, 2);
    }
    if es@.len() == 0 {
        lemma_basics(s.types);
        law_stored_types_are_found_again(s.types, Type::List(TypeInterner::ERROR));
    } else {
        let (s1, first) = check_expr(s, es@[0], d);
        let open = laid_open(s1.types, first);
        let (s2, tainted) = list_elements(s1, open, is_secret(s1.types, first), es, 1, d);
        lemma_basics(s2.types);
        wrapped_in_room(s2, open, tainted);
        let (s3, wrapped) = with_types(
            s2,
            wrap_secret(s2.types, open, tainted),
        );
        law_stored_types_are_found_again(s3.types, Type::List(wrapped));
        let (s4, t) = intern_type(s3, Type::List(wrapped));
        assert(ty(s4.types, wrapped) == ty(s3.types, wrapped));
    }
}

/// Whether a type is not made secret again: it is secret, `nothing` or the error type.
pub open spec fn unwrapped(s: State, id: TypeId) -> bool {
    id == TypeInterner::ERROR || id == TypeInterner::NOTHING || is_secret(s.types, id)
}

proof fn wrapped_in_room(s: State, id: TypeId, tainted: bool)
    requires
        has_room(s),
        id < s.types.types.len(),
    ensures
        ({
            let (after, t) = wrap_secret(s.types, id, tainted);
            &&& sound(after)
            &&& t < after.types.len()
            &&& after.types.len() <= s.types.types.len() + 1
            &&& after.functions == s.types.functions
            &&& ids_last(s.types, after)
            &&& is_tainted(after, t, id, tainted && !unwrapped(s, id))
        }),
{
    law_stored_types_are_found_again(s.types, Type::Secret(id));
    let w = Type::Secret(id);
    if s.types.types.contains(w) {
        let i = s.types.types.index_of(w);
        assert(0 <= i < s.types.types.len());
    }
}

/// The entries of a map behind the first are checked in their turn, the key before the value,
/// and held against the first ones.
pub proof fn law_entries_in_turn(
    s: State,
    key: TypeId,
    value: TypeId,
    key_tainted: bool,
    value_tainted: bool,
    es: Vec<(Expr, Expr)>,
    i: nat,
    d: nat,
)
    ensures
        map_entries(s, key, value, key_tainted, value_tainted, es, i, d) == if i >= es@.len() {
            (s, key_tainted, value_tainted)
        } else {
            let (s1, k) = check_expr(s, es@[i as int].0, d);
            let s2 = like_element(s1, key, k, expr_span(es@[i as int].0));
            let (s3, v) = check_expr(s2, es@[i as int].1, d);
            map_entries(
                like_element(s3, value, v, expr_span(es@[i as int].1)),
                key,
                value,
                key_tainted || is_secret(s1.types, k),
                value_tainted || is_secret(s3.types, v),
                es,
                i + 1,
                d,
            )
        },
{
    reveal_with_fuel(map_entries, 2);
}

/// A map has keys of its first key's type and values of its first value's type, each secret
/// where any of them is. An empty map is what is asked for.
pub proof fn law_maps(s: State, es: Vec<(Expr, Expr)>, span: Span, d: nat)
    requires
        es@.len() == 0 ==> has_room(s),
        es@.len() > 0 ==> ({
            let (s1, k) = check_expr(s, es@[0].0, d);
            let (s2, v) = check_expr(s1, es@[0].1, d);
            let (key, value) = (laid_open(s2.types, k), laid_open(s2.types, v));
            let s3 = map_entries(
                s2,
                key,
                value,
                is_secret(s2.types, k),
                is_secret(s2.types, v),
                es,
                1,
                d,
            ).0;
            has_room(s3) && key < s3.types.types.len() && value < s3.types.types.len()
        }),
    ensures
        ({
            let (after, t) = check_expr(s, Expr::MapConstruct(es, span), d);
            if es@.len() == 0 {
                nothing_reported(s, after) && ty(after.types, t) == Type::MapOf(
                    TypeInterner::ERROR,
                    TypeInterner::ERROR,
                )
            } else {
                let (s1, k) = check_expr(s, es@[0].0, d);
                let (s2, v) = check_expr(s1, es@[0].1, d);
                let (key, value) = (laid_open(s2.types, k), laid_open(s2.types, v));
                let (s3, kt, vt) = map_entries(
                    s2,
                    key,
                    value,
                    is_secret(s2.types, k),
                    is_secret(s2.types, v),
                    es,
                    1,
                    d,
                );
                &&& nothing_reported(s3, after)
                &&& ty(after.types, t) matches Type::MapOf(x, y) && is_tainted(
                    after.types,
                    x,
                    key,
                    kt && !unwrapped(s3, key),
                ) && is_tainted(after.types, y, value, vt && !unwrapped(s3, value))
            }
        }),
{
    let e = Expr::MapConstruct(es, span);
    assert(expr_type(s, e, d) == check_map(s, es, d)) by {
        reveal_with_fuel(expr_type, 2);
    }
    if es@.len() == 0 {
        lemma_basics(s.types);
        law_stored_types_are_found_again(
            s.types,
            Type::MapOf(TypeInterner::ERROR, TypeInterner::ERROR),
        );
    } else {
        let (s1, k) = check_expr(s, es@[0].0, d);
        let (s2, v) = check_expr(s1, es@[0].1, d);
        let (key, value) = (laid_open(s2.types, k), laid_open(s2.types, v));
        let (s3, kt, vt) = map_entries(
            s2,
            key,
            value,
            is_secret(s2.types, k),
            is_secret(s2.types, v),
            es,
            1,
            d,
        );
        wrapped_twice(s3, key, kt, value, vt);
    }
}

proof fn wrapped_twice(s: State, key: TypeId, kt: bool, value: TypeId, vt: bool)
    requires
        has_room(s),
        key < s.types.types.len(),
        value < s.types.types.len(),
    ensures
        ({
            let (s1, x) = with_types(s, wrap_secret(s.types, key, kt));
            let (s2, y) = with_types(
                s1,
                wrap_secret(s1.types, value, vt),
            );
            let (s3, t) = intern_type(s2, Type::MapOf(x, y));
            &&& s3.reports == s.reports
            &&& ty(s3.types, t) == Type::MapOf(x, y)
            &&& is_tainted(s3.types, x, key, kt && !unwrapped(s, key))
            &&& is_tainted(s3.types, y, value, vt && !unwrapped(s, value))
        }),
{
    wrapped_in_room(s, key, kt);
    let (s1, x) = with_types(s, wrap_secret(s.types, key, kt));
    assert(ty(s1.types, value) == ty(s.types, value));
    second_wrapped(s1, x, value, vt);
    let (s2, y) = with_types(s1, wrap_secret(s1.types, value, vt));
    assert(ty(s2.types, x) == ty(s1.types, x));
    law_stored_types_are_found_again(s2.types, Type::MapOf(x, y));
    let (s3, t) = intern_type(s2, Type::MapOf(x, y));
    assert(ty(s3.types, x) == ty(s2.types, x));
    assert(ty(s3.types, y) == ty(s2.types, y));
}

proof fn second_wrapped(s: State, other: TypeId, id: TypeId, tainted: bool)
    requires
        sound(s.types),
        s.types.types.len() + 3 <= usize::MAX,
        id < s.types.types.len(),
        other < s.types.types.len(),
    ensures
        ({
            let (after, t) = wrap_secret(s.types, id, tainted);
            &&& sound(after)
            &&& t < after.types.len()
            &&& after.types.len() <= s.types.types.len() + 1
            &&& ids_last(s.types, after)
            &&& ty(after, other) == ty(s.types, other)
            &&& is_tainted(after, t, id, tainted && !unwrapped(s, id))
        }),
{
    law_stored_types_are_found_again(s.types, Type::Secret(id));
    let w = Type::Secret(id);
    let after = wrap_secret(s.types, id, tainted).0;
    if s.types.types.contains(w) {
        let i = s.types.types.index_of(w);
        assert(0 <= i < s.types.types.len());
    }
    assert(after.types[other as int] == s.types.types[other as int]);
}

/// Where a list or map is asked for, each part is held against the type that it holds there, in
/// its turn.
pub proof fn law_expected_parts(
    s: State,
    expected: TypeId,
    value: TypeId,
    allow: bool,
    es: Vec<Expr>,
    entries: Vec<(Expr, Expr)>,
    i: nat,
    d: nat,
)
    ensures
        expected_elements(s, expected, allow, es, i, d) == if i >= es@.len() {
            s
        } else {
            expected_elements(held_against(s, es@[i as int], expected, allow, d), expected, allow, es, i + 1, d)
        },
        expected_entries(s, expected, value, allow, entries, i, d) == if i >= entries@.len() {
            s
        } else {
            expected_entries(
                held_against(
                    held_against(s, entries@[i as int].0, expected, allow, d),
                    entries@[i as int].1,
                    value,
                    allow,
                    d,
                ),
                expected,
                value,
                allow,
                entries,
                i + 1,
                d,
            )
        },
{
    reveal_with_fuel(expected_elements, 2);
    reveal_with_fuel(expected_entries, 2);
    reveal_with_fuel(check_optionally_expected, 2);
}

/// The state after an expression is checked where a type is asked for, if one is, and reported
/// where it does not fit.
pub open spec fn held_against(s: State, e: Expr, expected: TypeId, allow: bool, d: nat) -> State {
    let (s1, got) = if expected == TypeInterner::ERROR {
        check_expr(s, e, d)
    } else {
        check_expected(s, e, expected, allow, d)
    };
    if compatible(s1.types, s1.impls, expected, got) {
        s1
    } else {
        with_report(
            s1,
            ErrorCode::TypeMismatch,
            expr_span(e),
            seq![name_of(s1.types, expected), name_of(s1.types, got)],
        )
    }
}

} // verus!
