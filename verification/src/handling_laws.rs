//! What holds where a type is asked for, and where results and optionals are handled.
use vstd::prelude::*;

use crate::ast::{expr_span, Block, Expr, Ident, Param, Stmt, TypeExpr, UnaryOp};
use crate::check_blocks::{check_block, declare_params};
use crate::check_construct::{expected_elements, expected_entries};
use crate::check_exprs::{
    check_expected, check_expr, check_optionally_expected, coarsened_to, expected_type, expr_type,
    handle, handle_body, handle_end, hold_against, inline_function, literal_takes, payload,
    refinement_handle,
};
use crate::check_rules::set_type;
use crate::diagnostics::{error, ErrorCode};
use crate::expression_laws::{laid_open, nothing_reported, reported};
use crate::resolution::definition_at;
use crate::span::Span;
use crate::state::{ContextV, State};
use crate::type_names::name_of;
use crate::type_rules::{
    can_coarsen, can_refine, compatible, fully_coarsened, refinement_boundary_input, satisfies,
};
use crate::types::{
    intern_function, lemma_basics, sound, ty, FunctionShapeV, Type, TypeId, TypeInterner,
};
use crate::written_types::{resolve_param_ids, resolve_return};

verus! {

// ---------------------------------------------------------------------------
// Handling
// ---------------------------------------------------------------------------

/// The state with a type for the variable that is declared at a place.
pub open spec fn with_variable(s: State, span: Span, id: TypeId) -> State {
    match definition_at(s.names, span) {
        Some(def) => State { type_env: s.type_env.insert(def, id), ..s },
        None => s,
    }
}

pub open spec fn with_report(s: State, code: ErrorCode, span: Span, args: Seq<Seq<char>>) -> State {
    State { reports: s.reports.push(error(code, span, args)), ..s }
}

/// The block of a handled value: it is checked as a block in which `default` is allowed, and
/// then its end is held against the type of the value.
pub open spec fn handled_from(s: State, body: Block, value: TypeId, d: nat) -> State {
    let inside = State { context: ContextV { in_handle: true, ..s.context }, ..s };
    let checked = check_block(inside, body, d);
    handle_end(
        State { context: ContextV { in_handle: s.context.in_handle, ..checked.context }, ..checked },
        body,
        value,
        d,
    )
}

/// A handled result has the type of its value. Inside of the block the bound name has the
/// type of its error. Without a name the handling is reported.
pub proof fn law_handled_results(
    s: State,
    target: Box<Expr>,
    name: Option<Ident>,
    body: Block,
    span: Span,
    d: nat,
)
    requires
        sound(check_expr(s, *target, d).0.types),
        ty(check_expr(s, *target, d).0.types, check_expr(s, *target, d).1) is Result,
    ensures
        ({
            let (s1, a) = check_expr(s, *target, d);
            let (after, t) = check_expr(s, Expr::Handle(target, name, body, span), d);
            ty(s1.types, a) matches Type::Result(value, failure) && t == value && after == set_type(
                handled_from(
                    match name {
                        Some(n) => with_variable(s1, n.span, failure),
                        None => with_report(
                            s1,
                            ErrorCode::ResultRequiresHandleError,
                            span,
                            Seq::empty(),
                        ),
                    },
                    body,
                    value,
                    d,
                ),
                span,
                value,
            )
        }),
{
    let (s1, a) = check_expr(s, *target, d);
    lemma_basics(s1.types);
    let e = Expr::Handle(target, name, body, span);
    assert(expr_type(s, e, d) == handle(s1, a, name, body, span, d)) by {
        reveal_with_fuel(expr_type, 2);
    }
    reveal_with_fuel(handle, 2);
    reveal_with_fuel(handle_body, 2);
}

/// A handled optional has the type of its value, and no name is bound. A name is reported.
pub proof fn law_handled_optionals(
    s: State,
    target: Box<Expr>,
    name: Option<Ident>,
    body: Block,
    span: Span,
    d: nat,
)
    requires
        sound(check_expr(s, *target, d).0.types),
        ty(check_expr(s, *target, d).0.types, check_expr(s, *target, d).1) is Optional,
    ensures
        ({
            let (s1, a) = check_expr(s, *target, d);
            let (after, t) = check_expr(s, Expr::Handle(target, name, body, span), d);
            ty(s1.types, a) == Type::Optional(t) && after == set_type(
                handled_from(
                    match name {
                        Some(_) => with_report(
                            s1,
                            ErrorCode::OptionalRequiresBareHandle,
                            span,
                            Seq::empty(),
                        ),
                        None => s1,
                    },
                    body,
                    t,
                    d,
                ),
                span,
                t,
            )
        }),
{
    let (s1, a) = check_expr(s, *target, d);
    lemma_basics(s1.types);
    let e = Expr::Handle(target, name, body, span);
    assert(expr_type(s, e, d) == handle(s1, a, name, body, span, d)) by {
        reveal_with_fuel(expr_type, 2);
    }
    reveal_with_fuel(handle, 2);
    reveal_with_fuel(handle_body, 2);
}

/// Nothing but results and optionals is handled: anything else is reported, unless it was
/// before, and the block is looked at all the same.
pub proof fn law_nothing_else_is_handled(
    s: State,
    target: Box<Expr>,
    name: Option<Ident>,
    body: Block,
    span: Span,
    d: nat,
)
    requires
        ({
            let (s1, a) = check_expr(s, *target, d);
            a == TypeInterner::ERROR || !(ty(s1.types, a) is Result) && !(ty(s1.types, a) is Optional)
        }),
    ensures
        ({
            let (s1, a) = check_expr(s, *target, d);
            let (after, t) = check_expr(s, Expr::Handle(target, name, body, span), d);
            t == TypeInterner::ERROR && after == set_type(
                handled_from(
                    if a == TypeInterner::ERROR {
                        s1
                    } else {
                        with_report(
                            s1,
                            ErrorCode::HandleRequiresResultOrOptional,
                            span,
                            seq![name_of(s1.types, a)],
                        )
                    },
                    body,
                    TypeInterner::ERROR,
                    d,
                ),
                span,
                TypeInterner::ERROR,
            )
        }),
{
    let (s1, a) = check_expr(s, *target, d);
    let e = Expr::Handle(target, name, body, span);
    assert(expr_type(s, e, d) == handle(s1, a, name, body, span, d)) by {
        reveal_with_fuel(expr_type, 2);
    }
    reveal_with_fuel(handle, 2);
    reveal_with_fuel(handle_body, 2);
}

/// A value that is tested against a refinement has the refinement's type once it is handled.
/// Inside of the block the bound name is a text. A value that cannot be tested is reported,
/// and so is a missing name.
pub proof fn law_handled_refinements(
    s: State,
    refinement: TypeId,
    input: TypeId,
    target_span: Span,
    name: Option<Ident>,
    body: Block,
    span: Span,
    d: nat,
)
    requires
        sound(s.types),
    ensures
        !(ty(s.types, refinement) is Refinement) ==> refinement_handle(
            s,
            refinement,
            input,
            target_span,
            name,
            body,
            span,
            d,
        ) == (s, TypeInterner::ERROR),
        ty(s.types, refinement) is Refinement ==> ({
            let (after, t) = refinement_handle(s, refinement, input, target_span, name, body, span, d);
            let wanted = refinement_boundary_input(s.types, refinement);
            let s1 = if input == TypeInterner::ERROR || can_refine(s.types, input, refinement) {
                s
            } else {
                with_report(
                    s,
                    ErrorCode::TypeMismatch,
                    target_span,
                    seq![name_of(s.types, wanted), name_of(s.types, input)],
                )
            };
            &&& t == refinement
            &&& after == handled_from(
                match name {
                    Some(n) => with_variable(s1, n.span, TypeInterner::STRING),
                    None => with_report(
                        s1,
                        ErrorCode::RefinementRequiresHandleError,
                        span,
                        seq![name_of(s1.types, refinement), name_of(s1.types, wanted)],
                    ),
                },
                body,
                refinement,
                d,
            )
        }),
{
    reveal_with_fuel(refinement_handle, 2);
    reveal_with_fuel(handle_body, 2);
}

/// A handling block ends with `return`, or with `default`. A block that ends otherwise, or
/// does not hold anything, is reported once.
pub proof fn law_handling_blocks_end_with_return_or_default(s: State, body: Block, value: TypeId, d: nat)
    ensures
        ({
            let n = body.stmts@.len() as int;
            let after = handle_end(s, body, value, d);
            if n == 0 {
                reported(
                    s,
                    after,
                    error(ErrorCode::HandleBlockRequiresReturnOrDefault, body.span, Seq::empty()),
                )
            } else {
                match body.stmts@[n - 1] {
                    Stmt::Return(_) => after == s,
                    Stmt::Expr(last) => if last.expr is Default {
                        value == TypeInterner::ERROR ==> after == s
                    } else {
                        reported(
                            s,
                            after,
                            error(
                                ErrorCode::HandleBlockRequiresReturnOrDefault,
                                last.span,
                                Seq::empty(),
                            ),
                        )
                    },
                    _ => after.reports.len() == s.reports.len() + 1 && after.reports.last().code
                        == ErrorCode::HandleBlockRequiresReturnOrDefault,
                }
            }
        }),
{
    reveal_with_fuel(handle_end, 2);
}

/// The value of `default` fits where the handled value does. One that does not is checked
/// again where that type is asked for, and reported where it still does not fit.
pub proof fn law_defaults_fit(s: State, body: Block, x: Box<Expr>, span: Span, value: TypeId, d: nat)
    requires
        body.stmts@.len() > 0,
        body.stmts@.last() matches Stmt::Expr(last) && last.expr == Expr::Default(x, span),
        value != TypeInterner::ERROR,
    ensures
        ({
            let found = if s.type_map.contains_key(span) {
                s.type_map[span]
            } else {
                TypeInterner::ERROR
            };
            let after = handle_end(s, body, value, d);
            if compatible(s.types, s.impls, value, found) {
                after == s
            } else {
                let (s1, t) = check_expected(s, *x, value, false, d);
                &&& after.type_map.contains_key(span) && after.type_map[span] == t
                &&& if compatible(s1.types, s1.impls, value, t) {
                    nothing_reported(s1, after)
                } else {
                    reported(
                        s1,
                        after,
                        error(
                            ErrorCode::TypeMismatch,
                            span,
                            seq![name_of(s1.types, value), name_of(s1.types, t)],
                        ),
                    )
                }
            }
        }),
{
    reveal_with_fuel(handle_end, 2);
}

// ---------------------------------------------------------------------------
// Where a type is asked for
// ---------------------------------------------------------------------------

/// A literal takes the type that is asked for where it fits, and nothing is reported: an
/// integer fits a number type that holds it, a fraction `float32` and `float64`.
pub proof fn law_literals_take_the_type_asked_for(s: State, e: Expr, expected: TypeId, allow: bool, d: nat)
    requires
        match (e, ty(s.types, laid_open(s.types, expected))) {
            (Expr::IntLiteral(v, _), Type::Int8) => -0x80 <= v <= 0x7f,
            (Expr::IntLiteral(v, _), Type::Int16) => -0x8000 <= v <= 0x7fff,
            (Expr::IntLiteral(v, _), Type::Int32) => -0x8000_0000 <= v <= 0x7fff_ffff,
            (Expr::IntLiteral(v, _), Type::Int64) => -0x8000_0000_0000_0000 <= v <= 0x7fff_ffff_ffff_ffff,
            (Expr::IntLiteral(v, _), Type::Uint8) => 0 <= v <= 0xff,
            (Expr::IntLiteral(v, _), Type::Uint16) => 0 <= v <= 0xffff,
            (Expr::IntLiteral(v, _), Type::Uint32) => 0 <= v <= 0xffff_ffff,
            (Expr::IntLiteral(v, _), Type::Uint64) => 0 <= v <= 0xffff_ffff_ffff_ffff,
            (Expr::FloatLiteral(_, _), Type::Float32) => true,
            (Expr::FloatLiteral(_, _), Type::Float64) => true,
            _ => false,
        },
    ensures
        check_expected(s, e, expected, allow, d).1 == expected,
        nothing_reported(s, check_expected(s, e, expected, allow, d).0),
{
    reveal(literal_takes);
    reveal_with_fuel(check_expected, 2);
    reveal_with_fuel(expected_type, 2);
}

/// A negated literal takes the type that is asked for where the negated value fits.
pub proof fn law_negated_literals_take_the_type_asked_for(
    s: State,
    value: i128,
    inner: Span,
    span: Span,
    expected: TypeId,
    allow: bool,
    d: nat,
)
    requires
        match ty(s.types, laid_open(s.types, expected)) {
            Type::Int8 => -0x7f <= value <= 0x80,
            Type::Int16 => -0x7fff <= value <= 0x8000,
            Type::Int32 => -0x7fff_ffff <= value <= 0x8000_0000,
            Type::Int64 => -0x7fff_ffff_ffff_ffff <= value <= 0x8000_0000_0000_0000,
            Type::Uint8 => -0xff <= value <= 0,
            Type::Uint16 => -0xffff <= value <= 0,
            Type::Uint32 => -0xffff_ffff <= value <= 0,
            Type::Uint64 => -0xffff_ffff_ffff_ffff <= value <= 0,
            _ => false,
        },
    ensures
        ({
            let e = Expr::Unary(UnaryOp::Neg, Box::new(Expr::IntLiteral(value, inner)), span);
            &&& check_expected(s, e, expected, allow, d).1 == expected
            &&& nothing_reported(s, check_expected(s, e, expected, allow, d).0)
        }),
{
    reveal(literal_takes);
    reveal_with_fuel(check_expected, 2);
    reveal_with_fuel(expected_type, 2);
}

/// No other literal takes a type that is asked for: a number too large, or where no number
/// is asked for.
pub proof fn law_literals_that_do_not_fit(s: State, value: i128, span: Span, expected: TypeId)
    ensures
        literal_takes(s, Expr::IntLiteral(value, span), expected) ==> match ty(
            s.types,
            laid_open(s.types, expected),
        ) {
            Type::Int8 => -0x80 <= value <= 0x7f,
            Type::Int16 => -0x8000 <= value <= 0x7fff,
            Type::Int32 => -0x8000_0000 <= value <= 0x7fff_ffff,
            Type::Int64 => -0x8000_0000_0000_0000 <= value <= 0x7fff_ffff_ffff_ffff,
            Type::Uint8 => 0 <= value <= 0xff,
            Type::Uint16 => 0 <= value <= 0xffff,
            Type::Uint32 => 0 <= value <= 0xffff_ffff,
            Type::Uint64 => 0 <= value <= 0xffff_ffff_ffff_ffff,
            _ => false,
        },
        forall|text: String| #[trigger]
            literal_takes(s, Expr::FloatLiteral(text, span), expected) ==> ty(
                s.types,
                laid_open(s.types, expected),
            ) is Float32 || ty(s.types, laid_open(s.types, expected)) is Float64,
        forall|x: Box<Expr>| #[trigger]
            literal_takes(s, Expr::Unary(UnaryOp::Not, x, span), expected) ==> false,
{
    reveal(literal_takes);
}

/// Whether a value of type `got` would do for `expected` once a result is handled.
pub open spec fn does_once_handled(s: State, expected: TypeId, got: TypeId) -> bool {
    match ty(s.types, got) {
        Type::Result(value, _) => !(ty(s.types, expected) is Result) && satisfies(
            s.types,
            s.impls,
            expected,
            value,
        ),
        Type::Optional(value) => !(ty(s.types, expected) is Result) && !(ty(s.types, expected) is Optional)
            && satisfies(s.types, s.impls, expected, value),
        _ => false,
    }
}

/// A result or optional whose value is asked for is reported, with how to handle it, and
/// counts as the value. So does a value that has to be tested against a refinement first,
/// where that can be done. Anything else is what it is.
pub proof fn law_values_to_be_handled_are_reported(
    s: State,
    expected: TypeId,
    got: TypeId,
    allow: bool,
    span: Span,
)
    requires
        got != TypeInterner::ERROR,
    ensures
        ({
            let (after, t) = hold_against(s, expected, got, allow, span);
            if does_once_handled(s, expected, got) {
                t == expected && reported(
                    s,
                    after,
                    error(
                        if ty(s.types, got) is Result {
                            ErrorCode::ResultRequiresHandleError
                        } else {
                            ErrorCode::OptionalRequiresBareHandle
                        },
                        span,
                        Seq::empty(),
                    ),
                )
            } else if allow && ty(s.types, expected) is Refinement && got != expected && can_refine(
                s.types,
                got,
                expected,
            ) {
                t == expected && reported(
                    s,
                    after,
                    error(
                        ErrorCode::RefinementRequiresHandleError,
                        span,
                        seq![name_of(s.types, expected), name_of(s.types, got)],
                    ),
                )
            } else {
                t == got && after == s
            }
        }),
        hold_against(s, expected, TypeInterner::ERROR, allow, span) == (s, TypeInterner::ERROR),
{
    reveal(hold_against);
}

/// `some`, `ok` and `fail` where an optional or a result is asked for, secret or not, hold
/// their value against what it holds at that place, and have the type asked for.
pub proof fn law_wrappers_hold_what_is_asked_for(s: State, e: Expr, x: Expr, expected: TypeId, allow: bool, d: nat)
    requires
        match (e, ty(s.types, laid_open(s.types, expected))) {
            (Expr::SomeOf(y, _), Type::Optional(_)) => *y == x,
            (Expr::OkOf(y, _), Type::Result(_, _)) => *y == x,
            (Expr::FailOf(y, _), Type::Result(_, _)) => *y == x,
            _ => false,
        },
    ensures
        ({
            let inner = match (e, ty(s.types, laid_open(s.types, expected))) {
                (Expr::SomeOf(_, _), Type::Optional(t)) => t,
                (Expr::OkOf(_, _), Type::Result(t, _)) => t,
                (Expr::FailOf(_, _), Type::Result(_, t)) => t,
                _ => TypeInterner::ERROR,
            };
            let (s1, got) = if inner == TypeInterner::ERROR {
                check_expr(s, x, d)
            } else {
                check_expected(s, x, inner, allow, d)
            };
            let (after, t) = check_expected(s, e, expected, allow, d);
            &&& t == expected
            &&& if compatible(s1.types, s1.impls, inner, got) {
                nothing_reported(s1, after)
            } else {
                reported(
                    s1,
                    after,
                    error(
                        ErrorCode::TypeMismatch,
                        expr_span(x),
                        seq![name_of(s1.types, inner), name_of(s1.types, got)],
                    ),
                )
            }
        }),
{
    reveal(literal_takes);
    reveal_with_fuel(check_expected, 2);
    reveal_with_fuel(expected_type, 2);
    reveal_with_fuel(payload, 2);
    reveal_with_fuel(check_optionally_expected, 2);
}

/// `none` is any optional that is asked for.
pub proof fn law_none_is_any_optional(s: State, span: Span, expected: TypeId, allow: bool, d: nat)
    requires
        ty(s.types, laid_open(s.types, expected)) is Optional,
    ensures
        check_expected(s, Expr::NoneOf(span), expected, allow, d).1 == expected,
        nothing_reported(s, check_expected(s, Expr::NoneOf(span), expected, allow, d).0),
{
    reveal(literal_takes);
    reveal_with_fuel(check_expected, 2);
    reveal_with_fuel(expected_type, 2);
}

/// A list or map that is written out where one is asked for, secret or not, has the type
/// asked for; its parts are held against what that type holds.
pub proof fn law_collections_take_the_type_asked_for(s: State, e: Expr, expected: TypeId, allow: bool, d: nat)
    requires
        match (e, ty(s.types, laid_open(s.types, expected))) {
            (Expr::ListConstruct(_, _), Type::List(_)) => true,
            (Expr::MapConstruct(_, _), Type::MapOf(_, _)) => true,
            _ => false,
        },
    ensures
        check_expected(s, e, expected, allow, d).1 == expected,
        check_expected(s, e, expected, allow, d).0.reports == match (
            e,
            ty(s.types, laid_open(s.types, expected)),
        ) {
            (Expr::ListConstruct(es, _), Type::List(x)) => expected_elements(s, x, allow, es, 0, d).reports,
            (Expr::MapConstruct(es, _), Type::MapOf(k, v)) => expected_entries(
                s,
                k,
                v,
                allow,
                es,
                0,
                d,
            ).reports,
            _ => s.reports,
        },
{
    reveal(literal_takes);
    reveal_with_fuel(check_expected, 2);
    reveal_with_fuel(expected_type, 2);
}

/// `coarsen` where a type is asked for gives that type where it lies below the refinement,
/// and the lowest type otherwise. What is no refinement is reported.
pub proof fn law_coarsening_to_the_type_asked_for(s: State, id: TypeId, expected: TypeId, span: Span)
    requires
        sound(s.types),
        id != TypeInterner::ERROR,
    ensures
        ({
            let (after, t) = coarsened_to(s, id, expected, span);
            if ty(s.types, id) is Refinement {
                &&& after == s
                &&& can_coarsen(s.types, id, expected) ==> t == expected
                &&& !can_coarsen(s.types, id, expected) ==> t == fully_coarsened(s.types, id)
            } else {
                t == id && reported(
                    s,
                    after,
                    error(ErrorCode::CoarsenRequiresRefinement, span, seq![name_of(s.types, id)]),
                )
            }
        }),
        coarsened_to(s, TypeInterner::ERROR, expected, span) == (s, TypeInterner::ERROR),
{
    reveal(coarsened_to);
}

// ---------------------------------------------------------------------------
// Functions in place
// ---------------------------------------------------------------------------

/// A function written in place is a function from the types of its parameters to its result
/// type, `nothing` where none is written. Its body is checked as that of an impure function
/// without a name, and nothing of that stays behind.
pub proof fn law_functions_in_place(
    s: State,
    params: Vec<Param>,
    ret: Option<TypeExpr>,
    body: Block,
    span: Span,
    d: nat,
)
    ensures
        ({
            let (s1, r) = resolve_return(
                State { context: ContextV { function_name: None, ..s.context }, ..s },
                ret,
            );
            let entered = declare_params(
                State {
                    context: ContextV { return_type: Some(r), function_pure: false, ..s1.context },
                    ..s1
                },
                params@,
                0,
            );
            let (s2, ids) = resolve_param_ids(entered, params@, 0, Seq::empty());
            let left = check_block(s2, body, d);
            let (after, t) = check_expr(s, Expr::InlineFn(params, ret, body, span), d);
            &&& after.reports == left.reports
            &&& after.context.return_type == s.context.return_type
            &&& after.context.function_name == s.context.function_name
            &&& after.context.function_pure == s.context.function_pure
            &&& (after.types, t) == intern_function(
                left.types,
                FunctionShapeV { params: ids, return_type: r },
            )
        }),
{
    let e = Expr::InlineFn(params, ret, body, span);
    assert(expr_type(s, e, d) == inline_function(s, params, ret, body, d)) by {
        reveal_with_fuel(expr_type, 2);
    }
    reveal_with_fuel(inline_function, 2);
}

} // verus!
