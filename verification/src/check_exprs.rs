//! The types of expressions.
use vstd::prelude::*;

use crate::ast::{
    expr_span, stmt_span, Block, CallArg, Expr, Ident, Param, Stmt, StringPart, TypeExpr, UnaryOp,
};
use crate::check_blocks::{check_block, declare_params};
use crate::check_calls::{can_enter, check_call};
use crate::check_construct::{check_list, check_map, expected_elements, expected_entries};
use crate::check_pipeline::check_steps;
use crate::check_rules::{
    arithmetic, declare, displayable, enum_variant, expect_argument, expect_type, field_of,
    ident_type, is_arithmetic, member_of_name, member_of_path, no_member, operation, report0,
    report1, report2, report_types, set_type, state_check, wrong_argument_count,
};
use crate::diagnostics::ErrorCode;
use crate::names::expanded_name;
use crate::span::Span;
use crate::state::{intern_type, with_types, ContextV, State, TypeChecker};
use crate::steady::{
    has, has_fields, has_messages, keeps, keeps_around, keeps_scopes, known, known_definitions,
};
use crate::table::{dup_vec, look, views, Dup};
use crate::text::{join3, text};
use crate::type_names::name_of;
use crate::type_rules::{
    can_coarsen, can_refine, compatible, expected_numeric, float_literal_matches, fully_coarsened,
    int_literal_matches, literal_fits, numeric, refinement_base, refinement_boundary_input,
    requires_bare_handle, requires_handle_error, revealed, wrap_secret,
};
use crate::types::{
    intern_function, ty, ActorMessageShape, ActorMessageShapeV, ActorShapeV, FunctionShapeV,
    NamedType, NamedTypeV, Type, TypeId, TypeInterner,
};
use crate::written_types::{resolve_param_ids, resolve_return};

verus! {

broadcast use crate::steady::group_steady;

/// The type of an expression, noted at its place.
pub open spec fn check_expr(s: State, e: Expr, d: nat) -> (State, TypeId)
    decreases 3 * d + 1, e, 13nat,
{
    let (s1, t) = expr_type(s, e, d);
    (set_type(s1, expr_span(e), t), t)
}

#[verifier::opaque]
pub open spec fn integer_literal(s: State, value: int, span: Span) -> (State, TypeId) {
    if literal_fits(ty(s.types, TypeInterner::INT64), value) {
        (s, TypeInterner::INT64)
    } else if literal_fits(ty(s.types, TypeInterner::UINT64), value) {
        (s, TypeInterner::UINT64)
    } else {
        (report0(s, ErrorCode::IntegerLiteralOutOfRange, span), TypeInterner::ERROR)
    }
}

#[verifier::opaque]
pub open spec fn unary_operation(s: State, op: UnaryOp, id: TypeId, span: Span) -> (State, TypeId) {
    let base = revealed(s.types, id);
    let fits = match op {
        UnaryOp::Not => base == TypeInterner::BOOL,
        UnaryOp::Neg => numeric(ty(s.types, base)),
    };
    if id == TypeInterner::ERROR {
        (s, TypeInterner::ERROR)
    } else if !fits {
        (
            report2(
                s,
                ErrorCode::UnaryOpMismatch,
                span,
                match op {
                    UnaryOp::Not => "not"@,
                    UnaryOp::Neg => "-"@,
                },
                name_of(s.types, id),
            ),
            TypeInterner::ERROR,
        )
    } else {
        with_types(s, wrap_secret(s.types, base, ty(s.types, id) is Secret))
    }
}

#[verifier::opaque]
pub open spec fn declassified(s: State, id: TypeId, span: Span) -> (State, TypeId) {
    match ty(s.types, id) {
        Type::Secret(x) => (s, x),
        _ => (
            report1(s, ErrorCode::DeclassifyRequiresSecret, span, name_of(s.types, id)),
            TypeInterner::ERROR,
        ),
    }
}

#[verifier::opaque]
pub open spec fn coarsened(s: State, id: TypeId, span: Span) -> (State, TypeId) {
    let s1 = if id != TypeInterner::ERROR && !(ty(s.types, id) is Refinement) {
        report1(s, ErrorCode::CoarsenRequiresRefinement, span, name_of(s.types, id))
    } else {
        s
    };
    (s1, fully_coarsened(s1.types, id))
}

/// `coarsen` where a type is asked for: any type below the refinement will do.
#[verifier::opaque]
pub open spec fn coarsened_to(s: State, id: TypeId, expected: TypeId, span: Span) -> (State, TypeId) {
    if id == TypeInterner::ERROR {
        (s, TypeInterner::ERROR)
    } else if !(ty(s.types, id) is Refinement) {
        (report1(s, ErrorCode::CoarsenRequiresRefinement, span, name_of(s.types, id)), id)
    } else if can_coarsen(s.types, id, expected) || fully_coarsened(s.types, id) == expected {
        (s, expected)
    } else {
        (s, fully_coarsened(s.types, id))
    }
}

/// What joining a task gives: its result, wrapped in one where it is none.
#[verifier::opaque]
pub open spec fn joined(s: State, id: TypeId) -> (State, TypeId) {
    match ty(s.types, id) {
        Type::Result(_, _) => (s, id),
        _ => intern_type(s, Type::Result(id, TypeInterner::STRING)),
    }
}

pub open spec fn expr_type(s: State, e: Expr, d: nat) -> (State, TypeId)
    decreases 3 * d + 1, e, 12nat,
{
    match e {
        Expr::IntLiteral(value, span) => integer_literal(s, value as int, span),
        Expr::FloatLiteral(_, _) => (s, TypeInterner::FLOAT64),
        Expr::StringLiteral(_, _) => (s, TypeInterner::STRING),
        Expr::BoolLiteral(_, _) => (s, TypeInterner::BOOL),
        Expr::Nothing(_) => (s, TypeInterner::NOTHING),
        Expr::Ident(ident) => (s, ident_type(s, ident.span)),
        Expr::Binary(_, _, _, _) => check_binary(s, e, d),
        Expr::Unary(op, x, span) => {
            let (s1, t) = check_expr(s, *x, d);
            unary_operation(s1, op, t, span)
        },
        Expr::Call(_, _, _) => check_call(s, e, d),
        Expr::GenericCall(_, _, _, _) => check_call(s, e, d),
        Expr::Paren(x, _) => check_expr(s, *x, d),
        Expr::FieldAccess(_, _, _) => check_field_access(s, e, d),
        Expr::View(x, _) => check_expr(s, *x, d),
        Expr::ListConstruct(es, _) => check_list(s, es, d),
        Expr::MapConstruct(es, _) => check_map(s, es, d),
        Expr::Handle(target, name, body, span) => {
            let (s1, t) = check_expr(s, *target, d);
            handle(s1, t, name, body, span, d)
        },
        Expr::OkOf(x, _) => {
            let (s1, t) = check_expr(s, *x, d);
            intern_type(s1, Type::Result(t, TypeInterner::ERROR))
        },
        Expr::FailOf(x, _) => {
            let (s1, t) = check_expr(s, *x, d);
            intern_type(s1, Type::Result(TypeInterner::ERROR, t))
        },
        Expr::SomeOf(x, _) => {
            let (s1, t) = check_expr(s, *x, d);
            intern_type(s1, Type::Optional(t))
        },
        Expr::NoneOf(_) => intern_type(s, Type::Optional(TypeInterner::ERROR)),
        Expr::Default(x, span) => {
            let s1 = if s.context.in_handle {
                s
            } else {
                report0(s, ErrorCode::DefaultOutsideHandle, span)
            };
            check_expr(s1, *x, d)
        },
        Expr::StringInterpolation(ps, _) => (check_parts(s, ps, 0, d), TypeInterner::STRING),
        Expr::Declassify(x, span) => {
            let (s1, t) = check_expr(s, *x, d);
            declassified(s1, t, span)
        },
        Expr::Coarsen(x, span) => {
            let (s1, t) = check_expr(s, *x, d);
            coarsened(s1, t, span)
        },
        Expr::Pipeline(initial, steps, _) => {
            let (s1, t) = check_expr(s, *initial, d);
            check_steps(s1, t, steps, 0, d)
        },
        Expr::At(x, state, span) => {
            let (s1, t) = check_expr(s, *x, d);
            state_check(s1, t, state, span)
        },
        Expr::Spawn(x, _) => check_spawn(s, *x, d),
        Expr::Send(x, _) => (check_message(s, *x, d).0, TypeInterner::NOTHING),
        Expr::Ask(x, _) => check_message(s, *x, d),
        Expr::Clone(x, _) => check_expr(s, *x, d),
        Expr::Run(x, _) => check_expr(s, *x, d),
        Expr::Join(x, _) => {
            let (s1, t) = check_expr(s, *x, d);
            joined(s1, t)
        },
        Expr::Cancel(x, _) => (check_expr(s, *x, d).0, TypeInterner::NOTHING),
        Expr::Error(_) => (s, TypeInterner::ERROR),
        Expr::EnumVariant(owner, variant, span) => enum_variant(s, owner, variant, span),
        Expr::InlineFn(params, ret, body, _) => inline_function(s, params, ret, body, d),
    }
}

/// A function written in place. Nothing is known of its purity.
pub open spec fn inline_function(
    s: State,
    params: Vec<Param>,
    ret: Option<TypeExpr>,
    body: Block,
    d: nat,
) -> (State, TypeId)
    decreases 3 * d + 1, body, body.stmts@.len() + 5,
{
    let s0 = State { context: ContextV { function_name: None, ..s.context }, ..s };
    let (s1, r) = resolve_return(s0, ret);
    let s2 = State {
        context: ContextV { return_type: Some(r), function_pure: false, ..s1.context },
        ..s1
    };
    let s3 = declare_params(s2, params@, 0);
    let (s4, ids) = resolve_param_ids(s3, params@, 0, Seq::empty());
    let s5 = check_block(s4, body, d);
    let s6 = State {
        context: ContextV {
            return_type: s.context.return_type,
            function_name: s.context.function_name,
            function_pure: s.context.function_pure,
            ..s5.context
        },
        ..s5
    };
    with_types(s6, intern_function(s6.types, FunctionShapeV { params: ids, return_type: r }))
}

/// The parts of an interpolated string from `i` on.
pub open spec fn check_parts(s: State, ps: Vec<StringPart>, i: nat, d: nat) -> State
    decreases 3 * d + 1, ps, ps@.len() - i,
{
    if i >= ps@.len() {
        s
    } else {
        let next = match ps@[i as int] {
            StringPart::Expr(x) => {
                let (s1, t) = check_expr(s, x, d);
                if displayable(s1, t) {
                    s1
                } else {
                    report2(
                        s1,
                        ErrorCode::TypeDoesNotImplementInterface,
                        expr_span(x),
                        name_of(s1.types, t),
                        "Displayable"@,
                    )
                }
            },
            StringPart::Literal(_) => s,
        };
        check_parts(next, ps, i + 1, d)
    }
}

/// The arguments from `i` on, each by itself.
pub open spec fn each_arg(s: State, args: Vec<CallArg>, i: nat, d: nat) -> State
    decreases 3 * d + 1, args, args@.len() - i,
{
    if i >= args@.len() {
        s
    } else {
        each_arg(check_expr(s, args@[i as int].value, d).0, args, i + 1, d)
    }
}

pub open spec fn numeric_literal(e: Expr) -> bool {
    e is IntLiteral || e is FloatLiteral
}

/// Beside a number of a known type, a literal takes that type.
pub open spec fn check_literal_beside(s: State, e: Expr, other: TypeId, d: nat) -> (State, TypeId)
    decreases 3 * d + 1, e, 17nat,
{
    let base = revealed(s.types, other);
    if numeric(ty(s.types, base)) {
        check_expected(s, e, base, false, d)
    } else {
        check_expr(s, e, d)
    }
}

pub open spec fn check_binary(s: State, e: Expr, d: nat) -> (State, TypeId)
    decreases 3 * d + 1, e, 1nat,
{
    match e {
        Expr::Binary(l, op, r, span) => if numeric_literal(*l) && !numeric_literal(*r) {
            let (s1, rt) = check_expr(s, *r, d);
            let (s2, lt) = check_literal_beside(s1, *l, rt, d);
            operation(s2, op, lt, rt, span)
        } else if !numeric_literal(*l) && numeric_literal(*r) {
            let (s1, lt) = check_expr(s, *l, d);
            let (s2, rt) = check_literal_beside(s1, *r, lt, d);
            operation(s2, op, lt, rt, span)
        } else {
            let (s1, lt) = check_expr(s, *l, d);
            let (s2, rt) = check_expr(s1, *r, d);
            operation(s2, op, lt, rt, span)
        },
        _ => (s, TypeInterner::ERROR),
    }
}

/// Arithmetic where a number of the type is asked for.
pub open spec fn check_binary_expected(s: State, e: Expr, operand: TypeId, d: nat) -> (State, TypeId)
    decreases 3 * d + 1, e, 1nat,
{
    match e {
        Expr::Binary(l, op, r, span) => {
            let (s1, lt) = check_expected(s, *l, operand, false, d);
            let (s2, rt) = check_expected(s1, *r, operand, false, d);
            operation(s2, op, lt, rt, span)
        },
        _ => (s, TypeInterner::ERROR),
    }
}

pub open spec fn check_field_access(s: State, e: Expr, d: nat) -> (State, TypeId)
    decreases 3 * d + 1, e, 1nat,
{
    match e {
        Expr::FieldAccess(base, field, span) => {
            let (s1, member) = match *base {
                Expr::Ident(ident) => member_of_name(s, ident, field, span),
                _ => member_of_path(s, *base, field, span),
            };
            match member {
                Some(t) => (s1, t),
                None => {
                    let (s2, t) = check_expr(s1, *base, d);
                    field_of(s2, t, field, span)
                },
            }
        },
        _ => (s, TypeInterner::ERROR),
    }
}

// ---------------------------------------------------------------------------
// Where a type is asked for
// ---------------------------------------------------------------------------

pub open spec fn negated_matches(s: State, e: Expr, expected: TypeId) -> bool {
    match e {
        Expr::IntLiteral(value, _) => value != i128::MIN && int_literal_matches(
            s.types,
            -(value as int),
            expected,
        ),
        Expr::FloatLiteral(_, _) => float_literal_matches(s.types, expected),
        _ => false,
    }
}

/// A literal that takes the type asked for.
#[verifier::opaque]
pub open spec fn literal_takes(s: State, e: Expr, expected: TypeId) -> bool {
    match e {
        Expr::IntLiteral(value, _) => int_literal_matches(s.types, value as int, expected),
        Expr::FloatLiteral(_, _) => float_literal_matches(s.types, expected),
        Expr::Unary(op, x, _) => op == UnaryOp::Neg && negated_matches(s, *x, expected),
        _ => false,
    }
}

/// A value of type `got` where `expected` is asked for: a result, an optional
/// or a base value that would do once it is handled.
#[verifier::opaque]
pub open spec fn hold_against(s: State, expected: TypeId, got: TypeId, allow: bool, span: Span) -> (
    State,
    TypeId,
) {
    if got == TypeInterner::ERROR {
        (s, got)
    } else if requires_handle_error(s.types, s.impls, expected, got) {
        (report0(s, ErrorCode::ResultRequiresHandleError, span), expected)
    } else if requires_bare_handle(s.types, s.impls, expected, got) {
        (report0(s, ErrorCode::OptionalRequiresBareHandle, span), expected)
    } else if allow && ty(s.types, expected) is Refinement && got != expected && can_refine(
        s.types,
        got,
        expected,
    ) {
        (report_types(s, ErrorCode::RefinementRequiresHandleError, span, expected, got), expected)
    } else {
        (s, got)
    }
}

/// What is inside a list, map, optional or result where one is asked for, in
/// secret or not.
pub open spec fn payload(s: State, x: Expr, wrapper: TypeId, expected: TypeId, allow: bool, d: nat) -> (
    State,
    TypeId,
)
    decreases 3 * d + 1, x, 18nat,
{
    let (s1, got) = check_optionally_expected(s, x, expected, allow, d);
    (expect_type(s1, expected, got, expr_span(x)), wrapper)
}

/// The type of an expression where `expected` is asked for. `allow` tells
/// whether a base value may be tested against a refinement here.
pub open spec fn expected_type(s: State, e: Expr, expected: TypeId, allow: bool, d: nat) -> (State, TypeId)
    decreases 3 * d + 1, e, 15nat,
{
    if literal_takes(s, e, expected) {
        (s, expected)
    } else {
        let inner = ty(s.types, revealed(s.types, expected));
        match e {
            Expr::Binary(_, op, _, _) => if arithmetic(op) && expected_numeric(s.types, expected) is Some {
                check_binary_expected(s, e, expected_numeric(s.types, expected)->0, d)
            } else {
                let (s1, got) = check_expr(s, e, d);
                hold_against(s1, expected, got, allow, expr_span(e))
            },
            Expr::ListConstruct(es, _) => match inner {
                Type::List(x) => (expected_elements(s, x, allow, es, 0, d), expected),
                _ => check_expr(s, e, d),
            },
            Expr::MapConstruct(es, _) => match inner {
                Type::MapOf(k, v) => (expected_entries(s, k, v, allow, es, 0, d), expected),
                _ => check_expr(s, e, d),
            },
            Expr::SomeOf(x, _) => match inner {
                Type::Optional(t) => payload(s, *x, expected, t, allow, d),
                _ => check_expr(s, e, d),
            },
            Expr::OkOf(x, _) => match inner {
                Type::Result(t, _) => payload(s, *x, expected, t, allow, d),
                _ => check_expr(s, e, d),
            },
            Expr::FailOf(x, _) => match inner {
                Type::Result(_, t) => payload(s, *x, expected, t, allow, d),
                _ => check_expr(s, e, d),
            },
            Expr::NoneOf(_) => match inner {
                Type::Optional(_) => (s, expected),
                _ => check_expr(s, e, d),
            },
            Expr::Coarsen(x, span) => {
                let (s1, t) = check_expr(s, *x, d);
                coarsened_to(s1, t, expected, span)
            },
            Expr::Handle(target, name, body, span) => if allow && ty(s.types, expected) is Refinement {
                let (s1, t) = check_expr(s, *target, d);
                match ty(s1.types, t) {
                    Type::Result(_, _) => handle(s1, t, name, body, span, d),
                    Type::Optional(_) => handle(s1, t, name, body, span, d),
                    _ => refinement_handle(
                        s1,
                        expected,
                        t,
                        expr_span(*target),
                        name,
                        body,
                        span,
                        d,
                    ),
                }
            } else {
                let (s1, got) = check_expr(s, e, d);
                hold_against(s1, expected, got, allow, expr_span(e))
            },
            _ => {
                let (s1, got) = check_expr(s, e, d);
                hold_against(s1, expected, got, allow, expr_span(e))
            },
        }
    }
}

pub open spec fn check_expected(s: State, e: Expr, expected: TypeId, allow: bool, d: nat) -> (State, TypeId)
    decreases 3 * d + 1, e, 16nat,
{
    let (s1, t) = expected_type(s, e, expected, allow, d);
    (set_type(s1, expr_span(e), t), t)
}

pub open spec fn check_optionally_expected(
    s: State,
    e: Expr,
    expected: TypeId,
    allow: bool,
    d: nat,
) -> (State, TypeId)
    decreases 3 * d + 1, e, 17nat,
{
    if expected == TypeInterner::ERROR {
        check_expr(s, e, d)
    } else {
        check_expected(s, e, expected, allow, d)
    }
}

// ---------------------------------------------------------------------------
// Handling
// ---------------------------------------------------------------------------

pub open spec fn set_in_handle(s: State, v: bool) -> State {
    State { context: ContextV { in_handle: v, ..s.context }, ..s }
}

/// The block after `handle`, in which `default` is allowed.
pub open spec fn handle_body(s: State, body: Block, d: nat) -> State
    decreases 3 * d + 1, body, body.stmts@.len() + 3,
{
    set_in_handle(check_block(set_in_handle(s, true), body, d), s.context.in_handle)
}

/// A handling block ends with `return`, or with `default` and a value that
/// does in place of the one that was not there.
pub open spec fn handle_end(s: State, body: Block, success: TypeId, d: nat) -> State
    decreases 3 * d + 1, body, 0nat,
{
    let n = body.stmts@.len();
    if n == 0 {
        report0(s, ErrorCode::HandleBlockRequiresReturnOrDefault, body.span)
    } else {
        match body.stmts@[n - 1] {
            Stmt::Return(_) => s,
            Stmt::Expr(last) => match last.expr {
                Expr::Default(x, span) => if success == TypeInterner::ERROR {
                    s
                } else {
                    let found = match look(s.type_map, span) {
                        Some(t) => t,
                        None => TypeInterner::ERROR,
                    };
                    if compatible(s.types, s.impls, success, found) {
                        s
                    } else {
                        let (s1, t) = check_expected(s, *x, success, false, d);
                        expect_type(set_type(s1, span, t), success, t, span)
                    }
                },
                _ => report0(s, ErrorCode::HandleBlockRequiresReturnOrDefault, last.span),
            },
            other => report0(
                s,
                ErrorCode::HandleBlockRequiresReturnOrDefault,
                stmt_span(other),
            ),
        }
    }
}

pub open spec fn declare_maybe(s: State, name: Option<Ident>, id: TypeId) -> State {
    match name {
        Some(n) => declare(s, n.span, id),
        None => s,
    }
}

/// Handling a result or an optional.
pub open spec fn handle(
    s: State,
    target: TypeId,
    name: Option<Ident>,
    body: Block,
    span: Span,
    d: nat,
) -> (State, TypeId)
    decreases 3 * d + 1, body, body.stmts@.len() + 5,
{
    if target == TypeInterner::ERROR {
        (handle_end(handle_body(s, body, d), body, TypeInterner::ERROR, d), TypeInterner::ERROR)
    } else {
        match ty(s.types, target) {
            Type::Result(ok, err) => {
                let s1 = if name is None {
                    report0(s, ErrorCode::ResultRequiresHandleError, span)
                } else {
                    s
                };
                let s2 = declare_maybe(s1, name, err);
                (handle_end(handle_body(s2, body, d), body, ok, d), ok)
            },
            Type::Optional(inner) => {
                let s1 = if name is Some {
                    report0(s, ErrorCode::OptionalRequiresBareHandle, span)
                } else {
                    s
                };
                (handle_end(handle_body(s1, body, d), body, inner, d), inner)
            },
            _ => {
                let s1 = report1(
                    s,
                    ErrorCode::HandleRequiresResultOrOptional,
                    span,
                    name_of(s.types, target),
                );
                (
                    handle_end(handle_body(s1, body, d), body, TypeInterner::ERROR, d),
                    TypeInterner::ERROR,
                )
            },
        }
    }
}

/// Handling the test of a value against a refinement.
pub open spec fn refinement_handle(
    s: State,
    refinement: TypeId,
    input: TypeId,
    target_span: Span,
    name: Option<Ident>,
    body: Block,
    span: Span,
    d: nat,
) -> (State, TypeId)
    decreases 3 * d + 1, body, body.stmts@.len() + 5,
{
    let wanted = refinement_boundary_input(s.types, refinement);
    if refinement_base(s.types, refinement) is None {
        (s, TypeInterner::ERROR)
    } else {
        let s1 = if input != TypeInterner::ERROR && !can_refine(s.types, input, refinement) {
            report_types(s, ErrorCode::TypeMismatch, target_span, wanted, input)
        } else {
            s
        };
        let s2 = if name is None {
            report_types(s1, ErrorCode::RefinementRequiresHandleError, span, refinement, wanted)
        } else {
            s1
        };
        let s3 = declare_maybe(s2, name, TypeInterner::STRING);
        (handle_end(handle_body(s3, body, d), body, refinement, d), refinement)
    }
}

// ---------------------------------------------------------------------------
// Actors
// ---------------------------------------------------------------------------

pub open spec fn actor_args_from(s: State, params: Seq<NamedTypeV>, args: Vec<CallArg>, i: nat, d: nat) -> State
    decreases 3 * d + 1, args, args@.len() - i,
{
    if i >= args@.len() || i >= params.len() {
        s
    } else {
        let p = params[i as int];
        let value = args@[i as int].value;
        let (s1, got) = check_expected(s, value, p.ty, false, d);
        actor_args_from(
            expect_argument(s1, p.name, p.ty, got, expr_span(value)),
            params,
            args,
            i + 1,
            d,
        )
    }
}

/// The arguments that start an actor or go with a message.
pub open spec fn actor_args(
    s: State,
    label: Seq<char>,
    params: Seq<NamedTypeV>,
    args: Vec<CallArg>,
    span: Span,
    d: nat,
) -> State
    decreases 3 * d + 1, args, args@.len() + 2,
{
    if args@.len() != params.len() {
        each_arg(wrong_argument_count(s, label, params.len(), args@.len(), span), args, 0, d)
    } else {
        actor_args_from(s, params, args, 0, d)
    }
}

/// The actor type of that name.
#[verifier::opaque]
pub open spec fn actor_named(s: State, name: Option<Seq<char>>) -> Option<(TypeId, ActorShapeV)> {
    match name {
        Some(n) => match look(s.named_types, n) {
            Some(id) => match ty(s.types, id) {
                Type::Actor(aid) => Some((id, s.types.actors[aid.0 as int])),
                _ => None,
            },
            None => None,
        },
        None => None,
    }
}

/// `spawn Actor(args)`
pub open spec fn check_spawn(s: State, e: Expr, d: nat) -> (State, TypeId)
    decreases 3 * d + 1, e, 15nat,
{
    match e {
        Expr::Call(callee, args, _) => match actor_named(s, expanded_name(s.names, *callee)) {
            Some((id, def)) => (
                actor_args(s, def.name, def.capability_params, args, expr_span(e), d),
                id,
            ),
            None => {
                let s1 = each_arg(s, args, 0, d);
                (check_expr(s1, *callee, d).0, TypeInterner::ERROR)
            },
        },
        _ => (check_expr(s, e, d).0, TypeInterner::ERROR),
    }
}

pub open spec fn message_named(messages: Seq<ActorMessageShapeV>, name: Seq<char>, i: nat) -> Option<
    ActorMessageShapeV,
>
    decreases messages.len() - i,
{
    if i >= messages.len() {
        None
    } else if messages[i as int].name == name {
        Some(messages[i as int])
    } else {
        message_named(messages, name, i + 1)
    }
}

/// The message of that name to a value of the type, or what is reported.
#[verifier::opaque]
pub open spec fn message_to(s: State, actor: TypeId, field: Ident) -> (State, Option<
    (Seq<char>, ActorMessageShapeV),
>) {
    match ty(s.types, actor) {
        Type::Actor(aid) => {
            let def = s.types.actors[aid.0 as int];
            match message_named(def.messages, field.name@, 0) {
                Some(m) => (s, Some((def.name + "."@ + m.name, m))),
                None => (no_member(s, def.name, field.name@, field.span), None),
            }
        },
        _ => if actor == TypeInterner::ERROR {
            (s, None)
        } else {
            (no_member(s, name_of(s.types, actor), field.name@, field.span), None)
        },
    }
}

/// `actor.message(args)` or `actor.message`: gives what the actor responds.
pub open spec fn check_message(s: State, e: Expr, d: nat) -> (State, TypeId)
    decreases 3 * d + 1, e, 15nat,
{
    match e {
        Expr::Call(callee, args, _) => match *callee {
            Expr::FieldAccess(base, field, _) => {
                let (s1, actor) = check_expr(s, *base, d);
                let (s2, found) = message_to(s1, actor, field);
                match found {
                    Some((label, m)) => (
                        actor_args(s2, label, m.params, args, expr_span(e), d),
                        m.responds,
                    ),
                    None => if ty(s1.types, actor) is Actor {
                        (s2, TypeInterner::ERROR)
                    } else {
                        (each_arg(s2, args, 0, d), TypeInterner::ERROR)
                    },
                }
            },
            _ => (check_expr(s, e, d).0, TypeInterner::ERROR),
        },
        Expr::FieldAccess(base, field, _) => {
            let (s1, actor) = check_expr(s, *base, d);
            let (s2, found) = message_to(s1, actor, field);
            match found {
                Some((label, m)) => (
                    if m.params.len() == 0 {
                        s2
                    } else {
                        wrong_argument_count(s2, label, m.params.len(), 0, expr_span(e))
                    },
                    m.responds,
                ),
                None => (s2, TypeInterner::ERROR),
            }
        },
        _ => (check_expr(s, e, d).0, TypeInterner::ERROR),
    }
}

// ---------------------------------------------------------------------------
// The checks
// ---------------------------------------------------------------------------

fn is_numeric_literal(e: &Expr) -> (r: bool)
    ensures
        r == numeric_literal(*e),
{
    match e {
        Expr::IntLiteral(_, _) | Expr::FloatLiteral(_, _) => true,
        _ => false,
    }
}

fn find_message<'m>(messages: &'m Vec<ActorMessageShape>, name: &String) -> (r: Option<
    &'m ActorMessageShape,
>)
    ensures
        r is Some <==> message_named(views(messages@), name@, 0) is Some,
        r matches Some(m) ==> message_named(views(messages@), name@, 0) == Some(m@),
{
    let ghost vs = views(messages@);
    let mut i: usize = 0;
    while i < messages.len()
        invariant
            i <= messages@.len(),
            vs == views(messages@),
            message_named(vs, name@, 0) == message_named(vs, name@, i as nat),
        decreases messages@.len() - i,
    {
        assert(vs[i as int] == messages@[i as int]@);
        if messages[i].name == *name {
            return Some(&messages[i]);
        }
        i = i + 1;
    }
    None
}

proof fn known_message(s: State, messages: Seq<ActorMessageShapeV>, name: Seq<char>, i: nat)
    requires
        has_messages(s, messages),
    ensures
        message_named(messages, name, i) matches Some(m) ==> has(s, m.responds) && has_fields(s, m.params),
    decreases messages.len() - i,
{
    if i < messages.len() && messages[i as int].name != name {
        known_message(s, messages, name, i + 1);
    }
}

impl<'a> TypeChecker<'a> {
    /// The type of an expression.
    pub(crate) fn check_expr(&mut self, e: &Expr, Ghost(d): Ghost<nat>) -> (r: TypeId)
        requires
            can_enter(old(self)@, d),
        ensures
            keeps(old(self)@, final(self)@),
            known(old(self)@) ==> known(final(self)@) && has(final(self)@, r),
            (final(self)@, r) == check_expr(old(self)@, *e, d),
        decreases 3 * d + 1, e, 13nat,
    {
        let t: usize = self.expr_type(e, Ghost(d));
        self.put_type_map(e.span(), t);
        t
    }

    fn integer_literal(&mut self, value: i128, span: Span) -> (r: TypeId)
        ensures
            keeps(old(self)@, final(self)@),
            known(old(self)@) ==> known(final(self)@) && has(final(self)@, r),
            (final(self)@, r) == integer_literal(old(self)@, value as int, span),
    {
        proof {
            reveal(integer_literal);
        }
        if self.interner().int_literal_fits_type(value, TypeInterner::INT64) {
            return TypeInterner::INT64;
        }
        if self.interner().int_literal_fits_type(value, TypeInterner::UINT64) {
            return TypeInterner::UINT64;
        }
        self.report0(ErrorCode::IntegerLiteralOutOfRange, span);
        TypeInterner::ERROR
    }

    fn unary_operation(&mut self, op: UnaryOp, id: TypeId, span: Span) -> (r: TypeId)
        ensures
            keeps(old(self)@, final(self)@),
            known(old(self)@) && has(old(self)@, id)
                ==> known(final(self)@) && has(final(self)@, r),
            (final(self)@, r) == unary_operation(old(self)@, op, id, span),
    {
        proof {
            reveal(unary_operation);
        }
        if id == TypeInterner::ERROR {
            return TypeInterner::ERROR;
        }
        let (base, tainted) = self.interner().strip_secret_type(id);
        let fits = match op {
            UnaryOp::Not => base == TypeInterner::BOOL,
            UnaryOp::Neg => self.interner().is_numeric(base),
        };
        if !fits {
            let shown = self.name_of(id);
            let word = match op {
                UnaryOp::Not => text("not"),
                UnaryOp::Neg => text("-"),
            };
            self.report2(ErrorCode::UnaryOpMismatch, span, word, shown);
            return TypeInterner::ERROR;
        }
        self.maybe_wrap_secret(base, tainted)
    }

    fn declassified(&mut self, id: TypeId, span: Span) -> (r: TypeId)
        ensures
            keeps(old(self)@, final(self)@),
            known(old(self)@) && has(old(self)@, id)
                ==> known(final(self)@) && has(final(self)@, r),
            (final(self)@, r) == declassified(old(self)@, id, span),
    {
        proof {
            reveal(declassified);
        }
        match self.interner().secret_inner_type(id) {
            Some(x) => x,
            None => {
                let shown = self.name_of(id);
                self.report1(ErrorCode::DeclassifyRequiresSecret, span, shown);
                TypeInterner::ERROR
            },
        }
    }

    fn coarsened(&mut self, id: TypeId, span: Span) -> (r: TypeId)
        ensures
            keeps(old(self)@, final(self)@),
            known(old(self)@) && has(old(self)@, id)
                ==> known(final(self)@) && has(final(self)@, r),
            (final(self)@, r) == coarsened(old(self)@, id, span),
    {
        proof {
            reveal(coarsened);
        }
        if id != TypeInterner::ERROR && !self.interner().is_refinement_type(id) {
            let shown = self.name_of(id);
            self.report1(ErrorCode::CoarsenRequiresRefinement, span, shown);
        }
        self.interner().fully_coarsened_type(id)
    }

    fn coarsened_to(&mut self, id: TypeId, expected: TypeId, span: Span) -> (r: TypeId)
        ensures
            keeps(old(self)@, final(self)@),
            known(old(self)@) && has(old(self)@, id) && has(old(self)@, expected)
                ==> known(final(self)@) && has(final(self)@, r),
            (final(self)@, r) == coarsened_to(old(self)@, id, expected, span),
    {
        proof {
            reveal(coarsened_to);
        }
        if id == TypeInterner::ERROR {
            return TypeInterner::ERROR;
        }
        if !self.interner().is_refinement_type(id) {
            let shown = self.name_of(id);
            self.report1(ErrorCode::CoarsenRequiresRefinement, span, shown);
            return id;
        }
        let full: usize = self.interner().fully_coarsened_type(id);
        if self.interner().can_coarsen_to(id, expected) || full == expected {
            expected
        } else {
            full
        }
    }

    fn joined(&mut self, id: TypeId) -> (r: TypeId)
        ensures
            keeps(old(self)@, final(self)@),
            known(old(self)@) && has(old(self)@, id)
                ==> known(final(self)@) && has(final(self)@, r),
            (final(self)@, r) == joined(old(self)@, id),
    {
        proof {
            reveal(joined);
        }
        match self.resolve(id) {
            Type::Result(_, _) => id,
            _ => self.intern(Type::Result(id, TypeInterner::STRING)),
        }
    }

    fn expr_type(&mut self, e: &Expr, Ghost(d): Ghost<nat>) -> (r: TypeId)
        requires
            can_enter(old(self)@, d),
        ensures
            keeps(old(self)@, final(self)@),
            known(old(self)@) ==> known(final(self)@) && has(final(self)@, r),
            (final(self)@, r) == expr_type(old(self)@, *e, d),
        decreases 3 * d + 1, e, 12nat,
    {
        match e {
            Expr::IntLiteral(value, span) => self.integer_literal(*value, *span),
            Expr::FloatLiteral(_, _) => TypeInterner::FLOAT64,
            Expr::StringLiteral(_, _) => TypeInterner::STRING,
            Expr::BoolLiteral(_, _) => TypeInterner::BOOL,
            Expr::Nothing(_) => TypeInterner::NOTHING,
            Expr::Ident(ident) => self.check_ident(ident.span),
            Expr::Binary(_, _, _, _) => self.check_binary(e, Ghost(d)),
            Expr::Unary(op, x, span) => {
                let t: usize = self.check_expr(x, Ghost(d));
                self.unary_operation(*op, t, *span)
            },
            Expr::Call(_, _, _) => self.check_call(e, Ghost(d)),
            Expr::GenericCall(_, _, _, _) => self.check_call(e, Ghost(d)),
            Expr::Paren(x, _) => self.check_expr(x, Ghost(d)),
            Expr::FieldAccess(_, _, _) => self.check_field_access(e, Ghost(d)),
            Expr::View(x, _) => self.check_expr(x, Ghost(d)),
            Expr::ListConstruct(es, _) => self.check_list_construct(es, Ghost(d)),
            Expr::MapConstruct(es, _) => self.check_map_construct(es, Ghost(d)),
            Expr::Handle(target, name, body, span) => {
                let t: usize = self.check_expr(target, Ghost(d));
                self.check_handle_with_target_type(t, name, body, *span, Ghost(d))
            },
            Expr::OkOf(x, _) => {
                let t: usize = self.check_expr(x, Ghost(d));
                self.intern(Type::Result(t, TypeInterner::ERROR))
            },
            Expr::FailOf(x, _) => {
                let t: usize = self.check_expr(x, Ghost(d));
                self.intern(Type::Result(TypeInterner::ERROR, t))
            },
            Expr::SomeOf(x, _) => {
                let t: usize = self.check_expr(x, Ghost(d));
                self.intern(Type::Optional(t))
            },
            Expr::NoneOf(_) => self.intern(Type::Optional(TypeInterner::ERROR)),
            Expr::Default(x, span) => {
                if !self.get_context().in_handle {
                    self.report0(ErrorCode::DefaultOutsideHandle, *span);
                }
                self.check_expr(x, Ghost(d))
            },
            Expr::StringInterpolation(ps, _) => {
                self.check_parts(ps, Ghost(d));
                TypeInterner::STRING
            },
            Expr::Declassify(x, span) => {
                let t: usize = self.check_expr(x, Ghost(d));
                self.declassified(t, *span)
            },
            Expr::Coarsen(x, span) => {
                let t: usize = self.check_expr(x, Ghost(d));
                self.coarsened(t, *span)
            },
            Expr::Pipeline(initial, steps, _) => {
                let t: usize = self.check_expr(initial, Ghost(d));
                self.check_pipeline(t, steps, Ghost(d))
            },
            Expr::At(x, state, span) => {
                let t: usize = self.check_expr(x, Ghost(d));
                self.state_check(t, state, *span)
            },
            Expr::Spawn(x, _) => self.check_spawn(x, Ghost(d)),
            Expr::Send(x, _) => {
                let t: usize = self.check_send_ask_inner(x, Ghost(d));
                TypeInterner::NOTHING
            },
            Expr::Ask(x, _) => self.check_send_ask_inner(x, Ghost(d)),
            Expr::Clone(x, _) => self.check_expr(x, Ghost(d)),
            Expr::Run(x, _) => self.check_expr(x, Ghost(d)),
            Expr::Join(x, _) => {
                let t: usize = self.check_expr(x, Ghost(d));
                self.joined(t)
            },
            Expr::Cancel(x, _) => {
                let t: usize = self.check_expr(x, Ghost(d));
                TypeInterner::NOTHING
            },
            Expr::Error(_) => TypeInterner::ERROR,
            Expr::EnumVariant(owner, variant, span) => self.check_enum_variant(
                owner,
                variant,
                *span,
            ),
            Expr::InlineFn(params, ret, body, _) => self.inline_function(params, ret, body, Ghost(d)),
        }
    }

    fn inline_function(
        &mut self,
        params: &Vec<Param>,
        ret: &Option<TypeExpr>,
        body: &Block,
        Ghost(d): Ghost<nat>,
    ) -> (r: TypeId)
        requires
            can_enter(old(self)@, d),
        ensures
            keeps(old(self)@, final(self)@),
            known(old(self)@) ==> known(final(self)@) && has(final(self)@, r),
            (final(self)@, r) == inline_function(old(self)@, *params, *ret, *body, d),
        decreases 3 * d + 1, body, body.stmts@.len() + 5,
    {
        let outer = self.get_context().dup();
        let mut inner = outer.dup();
        inner.function_name = None;
        self.set_context(inner);
        let ghost opened = self@;
        let return_type: usize = self.resolve_return_type(ret);
        let ghost returning = self@;
        let mut context = self.get_context().dup();
        context.return_type = Some(return_type);
        context.function_pure = false;
        self.set_context(context);
        let ghost entered = self@;
        self.declare_params(params);
        let ids = self.resolve_param_ids(params);
        self.check_block(body, Ghost(d));
        let ghost left = self@;
        let mut after = self.get_context().dup();
        after.return_type = outer.return_type;
        after.function_name = outer.function_name;
        after.function_pure = outer.function_pure;
        self.set_context(after);
        proof {
            let between = State { context: outer@, ..returning };
            keeps_scopes(opened, returning);
            keeps_around(old(self)@, opened, returning, between);
            keeps_scopes(entered, left);
            keeps_around(between, entered, left, self@);
        }
        self.intern_function(ids, return_type)
    }

    fn check_parts(&mut self, ps: &Vec<StringPart>, Ghost(d): Ghost<nat>)
        requires
            can_enter(old(self)@, d),
        ensures
            keeps(old(self)@, final(self)@),
            known(old(self)@) ==> known(final(self)@),
            final(self)@ == check_parts(old(self)@, *ps, 0, d),
        decreases 3 * d + 1, ps, ps@.len() + 1,
    {
        let mut i: usize = 0;
        while i < ps.len()
            invariant
                can_enter(self@, d),
                keeps(old(self)@, self@),
                known(old(self)@) ==> known(self@),
                i <= ps@.len(),
                check_parts(self@, *ps, i as nat, d) == check_parts(
                    old(self)@,
                    *ps,
                    0,
                    d,
                ),
            decreases ps@.len() - i,
        {
            match &ps[i] {
                StringPart::Expr(x) => {
                    let t: usize = self.check_expr(x, Ghost(d));
                    if !self.is_displayable_type(t) {
                        let shown = self.name_of(t);
                        self.report2(
                            ErrorCode::TypeDoesNotImplementInterface,
                            x.span(),
                            shown,
                            text("Displayable"),
                        );
                    }
                },
                StringPart::Literal(_) => {},
            }
            i = i + 1;
        }
    }

    /// The arguments from `start` on, each by itself.
    pub(crate) fn check_each_arg(&mut self, args: &Vec<CallArg>, start: usize, Ghost(d): Ghost<nat>)
        requires
            can_enter(old(self)@, d),
        ensures
            keeps(old(self)@, final(self)@),
            known(old(self)@) ==> known(final(self)@),
            final(self)@ == each_arg(old(self)@, *args, start as nat, d),
        decreases 3 * d + 1, args, args@.len() + 1,
    {
        let mut i: usize = start;
        while i < args.len()
            invariant
                can_enter(self@, d),
                keeps(old(self)@, self@),
                known(old(self)@) ==> known(self@),
                each_arg(self@, *args, i as nat, d) == each_arg(
                    old(self)@,
                    *args,
                    start as nat,
                    d,
                ),
            decreases args@.len() - i,
        {
            let t: usize = self.check_expr(&args[i].value, Ghost(d));
            i = i + 1;
        }
    }

    fn check_literal_beside(&mut self, e: &Expr, other: TypeId, Ghost(d): Ghost<nat>) -> (r: TypeId)
        requires
            can_enter(old(self)@, d),
        ensures
            keeps(old(self)@, final(self)@),
            known(old(self)@) && has(old(self)@, other)
                ==> known(final(self)@) && has(final(self)@, r),
            (final(self)@, r) == check_literal_beside(old(self)@, *e, other, d),
        decreases 3 * d + 1, e, 17nat,
    {
        let base: usize = self.interner().revealed_type(other);
        if self.interner().is_numeric(base) {
            self.check_expr_for_expected(e, base, false, Ghost(d))
        } else {
            self.check_expr(e, Ghost(d))
        }
    }

    fn check_binary(&mut self, e: &Expr, Ghost(d): Ghost<nat>) -> (r: TypeId)
        requires
            can_enter(old(self)@, d),
        ensures
            keeps(old(self)@, final(self)@),
            known(old(self)@) ==> known(final(self)@) && has(final(self)@, r),
            (final(self)@, r) == check_binary(old(self)@, *e, d),
        decreases 3 * d + 1, e, 1nat,
    {
        match e {
            Expr::Binary(l, op, r, span) => {
                if is_numeric_literal(l) && !is_numeric_literal(r) {
                    let rt: usize = self.check_expr(r, Ghost(d));
                    let lt: usize = self.check_literal_beside(l, rt, Ghost(d));
                    self.operation(*op, lt, rt, *span)
                } else if !is_numeric_literal(l) && is_numeric_literal(r) {
                    let lt: usize = self.check_expr(l, Ghost(d));
                    let rt: usize = self.check_literal_beside(r, lt, Ghost(d));
                    self.operation(*op, lt, rt, *span)
                } else {
                    let lt: usize = self.check_expr(l, Ghost(d));
                    let rt: usize = self.check_expr(r, Ghost(d));
                    self.operation(*op, lt, rt, *span)
                }
            },
            _ => TypeInterner::ERROR,
        }
    }

    fn check_binary_for_expected_numeric(&mut self, e: &Expr, operand: TypeId, Ghost(d): Ghost<nat>) -> (r: TypeId)
        requires
            can_enter(old(self)@, d),
        ensures
            keeps(old(self)@, final(self)@),
            known(old(self)@) && has(old(self)@, operand)
                ==> known(final(self)@) && has(final(self)@, r),
            (final(self)@, r) == check_binary_expected(old(self)@, *e, operand, d),
        decreases 3 * d + 1, e, 1nat,
    {
        match e {
            Expr::Binary(l, op, r, span) => {
                let lt: usize = self.check_expr_for_expected(l, operand, false, Ghost(d));
                let rt: usize = self.check_expr_for_expected(r, operand, false, Ghost(d));
                self.operation(*op, lt, rt, *span)
            },
            _ => TypeInterner::ERROR,
        }
    }

    fn check_field_access(&mut self, e: &Expr, Ghost(d): Ghost<nat>) -> (r: TypeId)
        requires
            can_enter(old(self)@, d),
        ensures
            keeps(old(self)@, final(self)@),
            known(old(self)@) ==> known(final(self)@) && has(final(self)@, r),
            (final(self)@, r) == check_field_access(old(self)@, *e, d),
        decreases 3 * d + 1, e, 1nat,
    {
        match e {
            Expr::FieldAccess(base, field, span) => {
                let member = match &**base {
                    Expr::Ident(ident) => self.member_of_name(ident, field, *span),
                    _ => self.member_of_path(base, field, *span),
                };
                match member {
                    Some(t) => t,
                    None => {
                        let t: usize = self.check_expr(base, Ghost(d));
                        self.field_of(t, field, *span)
                    },
                }
            },
            _ => TypeInterner::ERROR,
        }
    }

    fn negated_literal_matches_expected_type(&self, e: &Expr, expected: TypeId) -> (r: bool)
        ensures
            r == negated_matches(self@, *e, expected),
    {
        match e {
            Expr::IntLiteral(value, _) => {
                *value != i128::MIN && self.interner().int_literal_matches_expected_type(
                    -*value,
                    expected,
                )
            },
            Expr::FloatLiteral(_, _) => self.interner().float_literal_matches_expected_type(
                expected,
            ),
            _ => false,
        }
    }

    fn literal_takes(&self, e: &Expr, expected: TypeId) -> (r: bool)
        ensures
            r == literal_takes(self@, *e, expected),
    {
        proof {
            reveal(literal_takes);
        }
        match e {
            Expr::IntLiteral(value, _) => self.interner().int_literal_matches_expected_type(
                *value,
                expected,
            ),
            Expr::FloatLiteral(_, _) => self.interner().float_literal_matches_expected_type(
                expected,
            ),
            Expr::Unary(op, x, _) => *op == UnaryOp::Neg
                && self.negated_literal_matches_expected_type(x, expected),
            _ => false,
        }
    }

    fn hold_against(&mut self, expected: TypeId, got: TypeId, allow: bool, span: Span) -> (r: TypeId)
        ensures
            keeps(old(self)@, final(self)@),
            known(old(self)@) && has(old(self)@, expected) && has(old(self)@, got)
                ==> known(final(self)@) && has(final(self)@, r),
            (final(self)@, r) == hold_against(old(self)@, expected, got, allow, span),
    {
        proof {
            reveal(hold_against);
        }
        if got == TypeInterner::ERROR {
            return got;
        }
        if self.interner().type_requires_handle_error(self.all_impls(), expected, got) {
            self.report0(ErrorCode::ResultRequiresHandleError, span);
            return expected;
        }
        if self.interner().type_requires_bare_handle(self.all_impls(), expected, got) {
            self.report0(ErrorCode::OptionalRequiresBareHandle, span);
            return expected;
        }
        if allow && self.interner().is_refinement_type(expected) && got != expected
            && self.interner().can_refine_from(got, expected) {
            self.report_types(ErrorCode::RefinementRequiresHandleError, span, expected, got);
            return expected;
        }
        got
    }

    fn check_wrapper_payload_for_expected(
        &mut self,
        x: &Expr,
        wrapper: TypeId,
        expected: TypeId,
        allow: bool,
        Ghost(d): Ghost<nat>,
    ) -> (r: TypeId)
        requires
            can_enter(old(self)@, d),
        ensures
            keeps(old(self)@, final(self)@),
            known(old(self)@) && has(old(self)@, wrapper) && has(old(self)@, expected)
                ==> known(final(self)@) && has(final(self)@, r),
            (final(self)@, r) == payload(old(self)@, *x, wrapper, expected, allow, d),
        decreases 3 * d + 1, x, 18nat,
    {
        let got: usize = self.check_expr_with_optional_expected(x, expected, allow, Ghost(d));
        self.expect_type(expected, got, x.span());
        wrapper
    }

    fn check_and_hold(&mut self, e: &Expr, expected: TypeId, allow: bool, Ghost(d): Ghost<nat>) -> (r: TypeId)
        requires
            can_enter(old(self)@, d),
        ensures
            keeps(old(self)@, final(self)@),
            known(old(self)@) && has(old(self)@, expected)
                ==> known(final(self)@) && has(final(self)@, r),
            ({
                let (s1, got) = check_expr(old(self)@, *e, d);
                (final(self)@, r) == hold_against(s1, expected, got, allow, expr_span(*e))
            }),
        decreases 3 * d + 1, e, 14nat,
    {
        proof {
            reveal(hold_against);
        }
        let got: usize = self.check_expr(e, Ghost(d));
        self.hold_against(expected, got, allow, e.span())
    }

    fn expected_type(&mut self, e: &Expr, expected: TypeId, allow: bool, Ghost(d): Ghost<nat>) -> (r: TypeId)
        requires
            can_enter(old(self)@, d),
        ensures
            keeps(old(self)@, final(self)@),
            known(old(self)@) && has(old(self)@, expected)
                ==> known(final(self)@) && has(final(self)@, r),
            (final(self)@, r) == expected_type(old(self)@, *e, expected, allow, d),
        decreases 3 * d + 1, e, 15nat,
    {
        if self.literal_takes(e, expected) {
            return expected;
        }
        let inner = self.resolve(self.interner().revealed_type(expected));
        match e {
            Expr::Binary(_, op, _, _) => {
                if is_arithmetic(*op) {
                    if let Some(operand) = self.interner().expected_numeric_type(expected) {
                        return self.check_binary_for_expected_numeric(e, operand, Ghost(d));
                    }
                }
                self.check_and_hold(e, expected, allow, Ghost(d))
            },
            Expr::ListConstruct(es, _) => match inner {
                Type::List(x) => {
                    self.check_list_construct_for_expected(es, x, allow, Ghost(d));
                    expected
                },
                _ => self.check_expr(e, Ghost(d)),
            },
            Expr::MapConstruct(es, _) => match inner {
                Type::MapOf(k, v) => {
                    self.check_map_construct_for_expected(es, k, v, allow, Ghost(d));
                    expected
                },
                _ => self.check_expr(e, Ghost(d)),
            },
            Expr::SomeOf(x, _) => match inner {
                Type::Optional(t) => self.check_wrapper_payload_for_expected(
                    x,
                    expected,
                    t,
                    allow,
                    Ghost(d),
                ),
                _ => self.check_expr(e, Ghost(d)),
            },
            Expr::OkOf(x, _) => match inner {
                Type::Result(t, _) => self.check_wrapper_payload_for_expected(
                    x,
                    expected,
                    t,
                    allow,
                    Ghost(d),
                ),
                _ => self.check_expr(e, Ghost(d)),
            },
            Expr::FailOf(x, _) => match inner {
                Type::Result(_, t) => self.check_wrapper_payload_for_expected(
                    x,
                    expected,
                    t,
                    allow,
                    Ghost(d),
                ),
                _ => self.check_expr(e, Ghost(d)),
            },
            Expr::NoneOf(_) => match inner {
                Type::Optional(_) => expected,
                _ => self.check_expr(e, Ghost(d)),
            },
            Expr::Coarsen(x, span) => {
                let t: usize = self.check_expr(x, Ghost(d));
                self.coarsened_to(t, expected, *span)
            },
            Expr::Handle(target, name, body, span) => {
                if allow && self.interner().is_refinement_type(expected) {
                    let t: usize = self.check_expr(target, Ghost(d));
                    match self.resolve(t) {
                        Type::Result(_, _) | Type::Optional(_) =>
                            self.check_handle_with_target_type(t, name, body, *span, Ghost(d)),
                        _ => self.check_refinement_handle_with_input_type(
                            expected,
                            t,
                            target.span(),
                            name,
                            body,
                            *span,
                            Ghost(d),
                        ),
                    }
                } else {
                    self.check_and_hold(e, expected, allow, Ghost(d))
                }
            },
            _ => self.check_and_hold(e, expected, allow, Ghost(d)),
        }
    }

    /// The type of an expression where `expected` is asked for.
    pub(crate) fn check_expr_for_expected(&mut self, e: &Expr, expected: TypeId, allow: bool, Ghost(d): Ghost<nat>) -> (r:
        TypeId)
        requires
            can_enter(old(self)@, d),
        ensures
            keeps(old(self)@, final(self)@),
            known(old(self)@) && has(old(self)@, expected)
                ==> known(final(self)@) && has(final(self)@, r),
            (final(self)@, r) == check_expected(old(self)@, *e, expected, allow, d),
        decreases 3 * d + 1, e, 16nat,
    {
        let t: usize = self.expected_type(e, expected, allow, Ghost(d));
        self.put_type_map(e.span(), t);
        t
    }

    pub(crate) fn check_expr_with_optional_expected(
        &mut self,
        e: &Expr,
        expected: TypeId,
        allow: bool,
        Ghost(d): Ghost<nat>,
    ) -> (r: TypeId)
        requires
            can_enter(old(self)@, d),
        ensures
            keeps(old(self)@, final(self)@),
            known(old(self)@) && has(old(self)@, expected)
                ==> known(final(self)@) && has(final(self)@, r),
            (final(self)@, r) == check_optionally_expected(
                old(self)@,
                *e,
                expected,
                allow,
                d,
            ),
        decreases 3 * d + 1, e, 17nat,
    {
        if expected == TypeInterner::ERROR {
            self.check_expr(e, Ghost(d))
        } else {
            self.check_expr_for_expected(e, expected, allow, Ghost(d))
        }
    }

    fn check_handle_body(&mut self, body: &Block, Ghost(d): Ghost<nat>)
        requires
            can_enter(old(self)@, d),
        ensures
            keeps(old(self)@, final(self)@),
            known(old(self)@) ==> known(final(self)@),
            final(self)@ == handle_body(old(self)@, *body, d),
        decreases 3 * d + 1, body, body.stmts@.len() + 3,
    {
        let outer = self.get_context().in_handle;
        self.set_in_handle(true);
        let ghost entered = self@;
        self.check_block(body, Ghost(d));
        let ghost left = self@;
        self.set_in_handle(outer);
        proof {
            keeps_scopes(entered, left);
            keeps_around(old(self)@, entered, left, self@);
        }
    }

    fn validate_handle_terminator(&mut self, body: &Block, success: TypeId, Ghost(d): Ghost<nat>)
        requires
            can_enter(old(self)@, d),
        ensures
            keeps(old(self)@, final(self)@),
            known(old(self)@) && has(old(self)@, success) ==> known(final(self)@),
            final(self)@ == handle_end(old(self)@, *body, success, d),
        decreases 3 * d + 1, body, 0nat,
    {
        let n: usize = body.stmts.len();
        if n == 0 {
            self.report0(ErrorCode::HandleBlockRequiresReturnOrDefault, body.span);
            return;
        }
        let last_stmt = &body.stmts[n - 1];
        match last_stmt {
            Stmt::Return(_) => {},
            Stmt::Expr(last) => match &last.expr {
                Expr::Default(x, span) => {
                    if success == TypeInterner::ERROR {
                        return;
                    }
                    let found: usize = match self.get_type_map(*span) {
                        Some(t) => t,
                        None => TypeInterner::ERROR,
                    };
                    if !self.types_compatible(success, found) {
                        let t: usize = self.check_expr_for_expected(x, success, false, Ghost(d));
                        self.put_type_map(*span, t);
                        self.expect_type(success, t, *span);
                    }
                },
                _ => self.report0(ErrorCode::HandleBlockRequiresReturnOrDefault, last.span),
            },
            _ => self.report0(
                ErrorCode::HandleBlockRequiresReturnOrDefault,
                last_stmt.span(),
            ),
        }
    }

    fn declare_maybe(&mut self, name: &Option<Ident>, id: TypeId)
        ensures
            keeps(old(self)@, final(self)@),
            known(old(self)@) && has(old(self)@, id) ==> known(final(self)@),
            final(self)@ == declare_maybe(old(self)@, *name, id),
    {
        match name {
            Some(n) => self.declare(n.span, id),
            None => {},
        }
    }

    pub(crate) fn check_handle_with_target_type(
        &mut self,
        target: TypeId,
        name: &Option<Ident>,
        body: &Block,
        span: Span,
        Ghost(d): Ghost<nat>,
    ) -> (r: TypeId)
        requires
            can_enter(old(self)@, d),
        ensures
            keeps(old(self)@, final(self)@),
            known(old(self)@) && has(old(self)@, target)
                ==> known(final(self)@) && has(final(self)@, r),
            (final(self)@, r) == handle(old(self)@, target, *name, *body, span, d),
        decreases 3 * d + 1, body, body.stmts@.len() + 5,
    {
        if target == TypeInterner::ERROR {
            self.check_handle_body(body, Ghost(d));
            self.validate_handle_terminator(body, TypeInterner::ERROR, Ghost(d));
            return TypeInterner::ERROR;
        }
        match self.resolve(target) {
            Type::Result(ok, err) => {
                if name.is_none() {
                    self.report0(ErrorCode::ResultRequiresHandleError, span);
                }
                self.declare_maybe(name, err);
                self.check_handle_body(body, Ghost(d));
                self.validate_handle_terminator(body, ok, Ghost(d));
                ok
            },
            Type::Optional(inner) => {
                if name.is_some() {
                    self.report0(ErrorCode::OptionalRequiresBareHandle, span);
                }
                self.check_handle_body(body, Ghost(d));
                self.validate_handle_terminator(body, inner, Ghost(d));
                inner
            },
            _ => {
                let shown = self.name_of(target);
                self.report1(ErrorCode::HandleRequiresResultOrOptional, span, shown);
                self.check_handle_body(body, Ghost(d));
                self.validate_handle_terminator(body, TypeInterner::ERROR, Ghost(d));
                TypeInterner::ERROR
            },
        }
    }

    fn check_refinement_handle_with_input_type(
        &mut self,
        refinement: TypeId,
        input: TypeId,
        target_span: Span,
        name: &Option<Ident>,
        body: &Block,
        span: Span,
        Ghost(d): Ghost<nat>,
    ) -> (r: TypeId)
        requires
            can_enter(old(self)@, d),
        ensures
            keeps(old(self)@, final(self)@),
            known(old(self)@) && has(old(self)@, refinement) && has(old(self)@, input)
                ==> known(final(self)@) && has(final(self)@, r),
            (final(self)@, r) == refinement_handle(
                old(self)@,
                refinement,
                input,
                target_span,
                *name,
                *body,
                span,
                d,
            ),
        decreases 3 * d + 1, body, body.stmts@.len() + 5,
    {
        let wanted: usize = self.interner().refinement_boundary_input_type(refinement);
        if self.interner().refinement_base_type(refinement).is_none() {
            return TypeInterner::ERROR;
        }
        if input != TypeInterner::ERROR && !self.interner().can_refine_from(input, refinement) {
            self.report_types(ErrorCode::TypeMismatch, target_span, wanted, input);
        }
        if name.is_none() {
            self.report_types(ErrorCode::RefinementRequiresHandleError, span, refinement, wanted);
        }
        self.declare_maybe(name, TypeInterner::STRING);
        self.check_handle_body(body, Ghost(d));
        self.validate_handle_terminator(body, refinement, Ghost(d));
        refinement
    }

    fn actor_args_from(&mut self, params: &Vec<NamedType>, args: &Vec<CallArg>, Ghost(d): Ghost<nat>)
        requires
            can_enter(old(self)@, d),
        ensures
            keeps(old(self)@, final(self)@),
            known(old(self)@) && has_fields(old(self)@, views(params@)) ==> known(final(self)@),
            final(self)@ == actor_args_from(
                old(self)@,
                views(params@),
                *args,
                0,
                d,
            ),
        decreases 3 * d + 1, args, args@.len() + 1,
    {
        let ghost ps = views(params@);
        let mut i: usize = 0;
        while i < args.len() && i < params.len()
            invariant
                can_enter(self@, d),
                keeps(old(self)@, self@),
                known(old(self)@) && has_fields(old(self)@, views(params@)) ==> known(self@),
                i <= args@.len(),
                i <= params@.len(),
                ps == views(params@),
                actor_args_from(self@, ps, *args, i as nat, d) == actor_args_from(
                    old(self)@,
                    ps,
                    *args,
                    0,
                    d,
                ),
            decreases args@.len() - i,
        {
            let p = &params[i];
            assert(ps[i as int] == p@);
            let got: usize = self.check_expr_for_expected(&args[i].value, p.ty, false, Ghost(d));
            self.expect_argument(p.name.as_str(), p.ty, got, args[i].value.span());
            i = i + 1;
        }
    }

    fn check_actor_argument_list(
        &mut self,
        label: &String,
        params: &Vec<NamedType>,
        args: &Vec<CallArg>,
        span: Span,
        Ghost(d): Ghost<nat>,
    )
        requires
            can_enter(old(self)@, d),
        ensures
            keeps(old(self)@, final(self)@),
            known(old(self)@) && has_fields(old(self)@, views(params@)) ==> known(final(self)@),
            final(self)@ == actor_args(
                old(self)@,
                label@,
                views(params@),
                *args,
                span,
                d,
            ),
        decreases 3 * d + 1, args, args@.len() + 2,
    {
        assert(views(params@).len() == params@.len());
        if args.len() != params.len() {
            self.wrong_argument_count(
                label.as_str(),
                params.len() as u128,
                args.len() as u128,
                span,
            );
            self.check_each_arg(args, 0, Ghost(d));
        } else {
            self.actor_args_from(params, args, Ghost(d));
        }
    }

    fn check_spawn(&mut self, e: &Expr, Ghost(d): Ghost<nat>) -> (r: TypeId)
        requires
            can_enter(old(self)@, d),
        ensures
            keeps(old(self)@, final(self)@),
            known(old(self)@) ==> known(final(self)@) && has(final(self)@, r),
            (final(self)@, r) == check_spawn(old(self)@, *e, d),
        decreases 3 * d + 1, e, 15nat,
    {
        proof {
            reveal(actor_named);
        }
        match e {
            Expr::Call(callee, args, _) => {
                if let Some(name) = self.names().expanded_dotted_expr_name(callee) {
                    if let Some(id) = self.get_named_types(&name) {
                        if let Type::Actor(aid) = self.resolve(id) {
                            let def = self.interner().resolve_actor(aid);
                            let label = def.name.clone();
                            let params = dup_vec(&def.capability_params);
                            proof {
                                if known(self@) {
                                    known_definitions(self@);
                                }
                            }
                            self.check_actor_argument_list(&label, &params, args, e.span(), Ghost(d));
                            return id;
                        }
                    }
                }
                self.check_each_arg(args, 0, Ghost(d));
                let t: usize = self.check_expr(callee, Ghost(d));
                TypeInterner::ERROR
            },
            _ => {
                let t: usize = self.check_expr(e, Ghost(d));
                TypeInterner::ERROR
            },
        }
    }

    fn message_to(&mut self, actor: TypeId, field: &Ident) -> (r: Option<(String, ActorMessageShape)>)
        ensures
            keeps(old(self)@, final(self)@),
            known(old(self)@) ==> known(final(self)@) && (r matches Some((_, m)) ==> has(
                final(self)@,
                m.responds,
            ) && has_fields(final(self)@, views(m.params@))),
            final(self)@ == message_to(old(self)@, actor, *field).0,
            r is Some <==> message_to(old(self)@, actor, *field).1 is Some,
            r matches Some((label, m)) ==> message_to(old(self)@, actor, *field).1 == Some(
                (label@, m@),
            ),
    {
        proof {
            reveal(message_to);
        }
        match self.resolve(actor) {
            Type::Actor(aid) => {
                let def = self.interner().resolve_actor(aid);
                proof {
                    if known(self@) {
                        known_definitions(self@);
                        known_message(self@, def@.messages, field.name@, 0);
                    }
                }
                match find_message(&def.messages, &field.name) {
                    Some(m) => {
                        let label = join3(def.name.as_str(), ".", m.name.as_str());
                        Some(
                            (
                                label,
                                ActorMessageShape {
                                    name: m.name.clone(),
                                    params: dup_vec(&m.params),
                                    responds: m.responds,
                                },
                            ),
                        )
                    },
                    None => {
                        let owner = def.name.clone();
                        self.no_member(owner, &field.name, field.span);
                        None
                    },
                }
            },
            _ => {
                if actor != TypeInterner::ERROR {
                    let owner = self.name_of(actor);
                    self.no_member(owner, &field.name, field.span);
                }
                None
            },
        }
    }

    fn check_send_ask_inner(&mut self, e: &Expr, Ghost(d): Ghost<nat>) -> (r: TypeId)
        requires
            can_enter(old(self)@, d),
        ensures
            keeps(old(self)@, final(self)@),
            known(old(self)@) ==> known(final(self)@) && has(final(self)@, r),
            (final(self)@, r) == check_message(old(self)@, *e, d),
        decreases 3 * d + 1, e, 15nat,
    {
        match e {
            Expr::Call(callee, args, _) => match &**callee {
                Expr::FieldAccess(base, field, _) => {
                    let actor: usize = self.check_expr(base, Ghost(d));
                    let is_actor = match self.resolve(actor) {
                        Type::Actor(_) => true,
                        _ => false,
                    };
                    match self.message_to(actor, field) {
                        Some((label, m)) => {
                            self.check_actor_argument_list(&label, &m.params, args, e.span(), Ghost(d));
                            m.responds
                        },
                        None => {
                            if !is_actor {
                                self.check_each_arg(args, 0, Ghost(d));
                            }
                            TypeInterner::ERROR
                        },
                    }
                },
                _ => {
                    let t: usize = self.check_expr(e, Ghost(d));
                    TypeInterner::ERROR
                },
            },
            Expr::FieldAccess(base, field, _) => {
                let actor: usize = self.check_expr(base, Ghost(d));
                match self.message_to(actor, field) {
                    Some((label, m)) => {
                        assert(m.params@.len() == m@.params.len());
                        if m.params.len() != 0 {
                            self.wrong_argument_count(
                                label.as_str(),
                                m.params.len() as u128,
                                0,
                                e.span(),
                            );
                        }
                        m.responds
                    },
                    None => TypeInterner::ERROR,
                }
            },
            _ => {
                let t: usize = self.check_expr(e, Ghost(d));
                TypeInterner::ERROR
            },
        }
    }
}

} // verus!
