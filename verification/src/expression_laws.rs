//! What the types of expressions are, kind by kind.
use vstd::prelude::*;

use crate::ast::{expr_span, BinOp, Expr, Ident, StringPart, UnaryOp};
use crate::check_exprs::{
    check_binary, check_expected, check_expr, check_literal_beside, check_parts, coarsened,
    declassified, expected_type, expr_type, integer_literal, joined, literal_takes, numeric_literal,
    unary_operation,
};
use crate::check_rules::{displayable, operation};
use crate::diagnostics::{error, DiagnosticV, ErrorCode};
use crate::resolution::definition_at;
use crate::span::Span;
use crate::state::State;
use crate::type_laws::{
    law_coarsening_ends, law_refinements_go_down_to_their_base, law_stored_types_are_found_again,
};
use crate::type_names::name_of;
use crate::type_rules::{can_coarsen, numeric, refinement_base};
use crate::types::{grounded, lemma_basics, sound, ty, Type, TypeId, TypeInterner, Types};

verus! {

// ---------------------------------------------------------------------------
// What is said of an expression
// ---------------------------------------------------------------------------

/// Whether a few more types can be stored.
pub open spec fn has_room(s: State) -> bool {
    &&& sound(s.types)
    &&& s.types.types.len() + 4 <= usize::MAX
    &&& s.types.functions.len() + 4 <= usize::MAX
}

/// Whether nothing was reported on the way from `a` to `b`.
pub open spec fn nothing_reported(a: State, b: State) -> bool {
    b.reports == a.reports
}

/// Whether exactly this was reported on the way from `a` to `b`.
pub open spec fn reported(a: State, b: State, d: DiagnosticV) -> bool {
    b.reports == a.reports.push(d)
}

/// What a type holds in secret, or else the type itself.
pub open spec fn laid_open(ts: Types, id: TypeId) -> TypeId {
    match ty(ts, id) {
        Type::Secret(x) => x,
        _ => id,
    }
}

pub open spec fn is_secret(ts: Types, id: TypeId) -> bool {
    ty(ts, id) is Secret
}

/// Whether `id` is `base`, made secret where `taint` says so.
pub open spec fn is_tainted(ts: Types, id: TypeId, base: TypeId, taint: bool) -> bool {
    if taint {
        ty(ts, id) == Type::Secret(base)
    } else {
        id == base
    }
}

// ---------------------------------------------------------------------------
// Literals and names
// ---------------------------------------------------------------------------

/// An integer literal is an `int64` where it fits, else a `uint64` where it fits, and
/// reported where it fits neither.
pub proof fn law_integer_literals(s: State, value: i128, span: Span, d: nat)
    requires
        sound(s.types),
    ensures
        ({
            let (after, t) = check_expr(s, Expr::IntLiteral(value, span), d);
            if -0x8000_0000_0000_0000 <= value <= 0x7fff_ffff_ffff_ffff {
                t == TypeInterner::INT64 && nothing_reported(s, after)
            } else if 0 <= value <= 0xffff_ffff_ffff_ffff {
                t == TypeInterner::UINT64 && nothing_reported(s, after)
            } else {
                t == TypeInterner::ERROR && reported(
                    s,
                    after,
                    error(ErrorCode::IntegerLiteralOutOfRange, span, Seq::empty()),
                )
            }
        }),
{
    lemma_basics(s.types);
    reveal(integer_literal);
    reveal_with_fuel(expr_type, 2);
}

/// Other literals have one type each, and nothing is reported of them.
pub proof fn law_other_literals(s: State, e: Expr, d: nat)
    requires
        e is FloatLiteral || e is StringLiteral || e is BoolLiteral || e is Nothing || e is Error,
    ensures
        nothing_reported(s, check_expr(s, e, d).0),
        check_expr(s, e, d).1 == match e {
            Expr::FloatLiteral(_, _) => TypeInterner::FLOAT64,
            Expr::StringLiteral(_, _) => TypeInterner::STRING,
            Expr::BoolLiteral(_, _) => TypeInterner::BOOL,
            Expr::Nothing(_) => TypeInterner::NOTHING,
            _ => TypeInterner::ERROR,
        },
{
    reveal_with_fuel(expr_type, 2);
}

/// A name has the type of what it refers to. One without a type was reported before.
pub proof fn law_names_have_the_type_of_what_they_refer_to(s: State, ident: Ident, d: nat)
    ensures
        ({
            let (after, t) = check_expr(s, Expr::Ident(ident), d);
            &&& nothing_reported(s, after)
            &&& match definition_at(s.names, ident.span) {
                Some(def) if s.type_env.contains_key(def) => t == s.type_env[def],
                _ => t == TypeInterner::ERROR,
            }
        }),
{
    reveal_with_fuel(expr_type, 2);
}

// ---------------------------------------------------------------------------
// Operators
// ---------------------------------------------------------------------------

pub open spec fn computes(op: BinOp) -> bool {
    op == BinOp::Add || op == BinOp::Sub || op == BinOp::Mul || op == BinOp::Div || op == BinOp::Modulo
}

pub open spec fn compares(op: BinOp) -> bool {
    op == BinOp::Eq || op == BinOp::NotEq || op == BinOp::Lt || op == BinOp::Gt || op == BinOp::LtEq || op
        == BinOp::GtEq
}

pub open spec fn connects(op: BinOp) -> bool {
    op == BinOp::And || op == BinOp::Or
}

/// How an operator is written in a report.
pub open spec fn written(op: BinOp) -> Seq<char> {
    match op {
        BinOp::Add => "+"@,
        BinOp::Sub => "-"@,
        BinOp::Mul => "*"@,
        BinOp::Div => "/"@,
        BinOp::Modulo => "modulo"@,
        BinOp::Eq => "=="@,
        BinOp::NotEq => "!="@,
        BinOp::Lt => "<"@,
        BinOp::Gt => ">"@,
        BinOp::LtEq => "<="@,
        BinOp::GtEq => ">="@,
        BinOp::And => "&&"@,
        BinOp::Or => "||"@,
    }
}

/// Whether the operands go together, secrets laid open: two numbers of one type in a
/// computation, two values of one type in a comparison, two booleans in a connection.
pub open spec fn go_together(ts: Types, op: BinOp, a: TypeId, b: TypeId) -> bool {
    let (x, y) = (laid_open(ts, a), laid_open(ts, b));
    &&& computes(op) ==> x == y && numeric(ty(ts, x))
    &&& compares(op) ==> x == y
    &&& connects(op) ==> x == TypeInterner::BOOL && y == TypeInterner::BOOL
}

/// What comes of an operation on operands of types `a` and `b`.
pub open spec fn operates(s: State, op: BinOp, a: TypeId, b: TypeId, span: Span, after: State, t: TypeId) -> bool {
    if a == TypeInterner::ERROR || b == TypeInterner::ERROR {
        t == TypeInterner::ERROR && nothing_reported(s, after)
    } else if !go_together(s.types, op, a, b) {
        t == TypeInterner::ERROR && reported(
            s,
            after,
            error(
                ErrorCode::BinaryOpMismatch,
                span,
                seq![written(op), name_of(s.types, a), name_of(s.types, b)],
            ),
        )
    } else {
        &&& nothing_reported(s, after)
        &&& is_tainted(
            after.types,
            t,
            if computes(op) {
                laid_open(s.types, a)
            } else {
                TypeInterner::BOOL
            },
            is_secret(s.types, a) || is_secret(s.types, b),
        )
    }
}

/// Operands that do not go together are reported, and only they. A computation gives the
/// type of its operands, a comparison or connection a boolean, secret where an operand is.
pub proof fn law_operands_go_together(s: State, op: BinOp, a: TypeId, b: TypeId, span: Span)
    requires
        has_room(s),
        a < s.types.types.len(),
    ensures
        ({
            let (after, t) = operation(s, op, a, b, span);
            operates(s, op, a, b, span, after, t)
        }),
{
    reveal(operation);
    lemma_basics(s.types);
    let x = laid_open(s.types, a);
    if a < s.types.types.len() && is_secret(s.types, a) {
        assert(grounded(s.types, s.types.types[a as int], a as nat));
    }
    law_stored_types_are_found_again(s.types, Type::Secret(x));
    law_stored_types_are_found_again(s.types, Type::Secret(TypeInterner::BOOL));
}

/// The operands of a binary expression: each is checked once, the left one first, and a
/// number that is written out takes the type of the number beside it.
pub open spec fn operand_types(s: State, l: Expr, r: Expr, d: nat) -> (State, TypeId, TypeId) {
    if numeric_literal(l) && !numeric_literal(r) {
        let (s1, b) = check_expr(s, r, d);
        let (s2, a) = check_literal_beside(s1, l, b, d);
        (s2, a, b)
    } else if !numeric_literal(l) && numeric_literal(r) {
        let (s1, a) = check_expr(s, l, d);
        let (s2, b) = check_literal_beside(s1, r, a, d);
        (s2, a, b)
    } else {
        let (s1, a) = check_expr(s, l, d);
        let (s2, b) = check_expr(s1, r, d);
        (s2, a, b)
    }
}

/// A binary expression is the operation on its operands: what does not go together is
/// reported, and what goes together has the type that the operator gives.
pub proof fn law_binary_expressions(s: State, l: Box<Expr>, op: BinOp, r: Box<Expr>, span: Span, d: nat)
    requires
        has_room(operand_types(s, *l, *r, d).0),
        operand_types(s, *l, *r, d).1 < operand_types(s, *l, *r, d).0.types.types.len(),
    ensures
        ({
            let (s2, a, b) = operand_types(s, *l, *r, d);
            let (after, t) = check_expr(s, Expr::Binary(l, op, r, span), d);
            operates(s2, op, a, b, span, after, t)
        }),
{
    let e = Expr::Binary(l, op, r, span);
    let (s2, a, b) = operand_types(s, *l, *r, d);
    assert(expr_type(s, e, d) == check_binary(s, e, d)) by {
        reveal_with_fuel(expr_type, 2);
    }
    assert(check_binary(s, e, d) == operation(s2, op, a, b, span)) by {
        reveal_with_fuel(check_binary, 2);
    }
    law_operands_go_together(s2, op, a, b, span);
}

/// Beside a number of a known type, a literal that fits it takes that type, and nothing is
/// reported.
pub proof fn law_literals_take_the_type_beside(s: State, e: Expr, other: TypeId, d: nat)
    requires
        sound(s.types),
        numeric(ty(s.types, laid_open(s.types, other))),
        literal_takes(s, e, laid_open(s.types, other)),
    ensures
        check_literal_beside(s, e, other, d).1 == laid_open(s.types, other),
        nothing_reported(s, check_literal_beside(s, e, other, d).0),
{
    reveal_with_fuel(check_literal_beside, 2);
    reveal_with_fuel(check_expected, 2);
    reveal_with_fuel(expected_type, 2);
}

/// `not` takes a boolean and `-` a number, secret or not, and gives what it takes.
pub proof fn law_unary_expressions(s: State, op: UnaryOp, x: Box<Expr>, span: Span, d: nat)
    requires
        ({
            let (s1, a) = check_expr(s, *x, d);
            has_room(s1) && a < s1.types.types.len()
        }),
    ensures
        ({
            let (s1, a) = check_expr(s, *x, d);
            let (after, t) = check_expr(s, Expr::Unary(op, x, span), d);
            let base = laid_open(s1.types, a);
            if a == TypeInterner::ERROR {
                t == TypeInterner::ERROR && nothing_reported(s1, after)
            } else if op == UnaryOp::Not && base != TypeInterner::BOOL || op == UnaryOp::Neg && !numeric(
                ty(s1.types, base),
            ) {
                t == TypeInterner::ERROR && reported(
                    s1,
                    after,
                    error(
                        ErrorCode::UnaryOpMismatch,
                        span,
                        seq![
                            if op == UnaryOp::Not {
                                "not"@
                            } else {
                                "-"@
                            },
                            name_of(s1.types, a),
                        ],
                    ),
                )
            } else {
                nothing_reported(s1, after) && is_tainted(after.types, t, base, is_secret(s1.types, a))
            }
        }),
{
    let (s1, a) = check_expr(s, *x, d);
    reveal(unary_operation);
    reveal_with_fuel(expr_type, 2);
    lemma_basics(s1.types);
    if is_secret(s1.types, a) {
        assert(grounded(s1.types, s1.types.types[a as int], a as nat));
    }
    law_stored_types_are_found_again(s1.types, Type::Secret(laid_open(s1.types, a)));
}

// ---------------------------------------------------------------------------
// Around an expression
// ---------------------------------------------------------------------------

/// Parentheses, views, copies and tasks have the type of what they are around, and add no
/// report.
pub proof fn law_transparent_expressions(s: State, e: Expr, x: Expr, d: nat)
    requires
        match e {
            Expr::Paren(y, _) => *y == x,
            Expr::View(y, _) => *y == x,
            Expr::Clone(y, _) => *y == x,
            Expr::Run(y, _) => *y == x,
            _ => false,
        },
    ensures
        check_expr(s, e, d).1 == check_expr(s, x, d).1,
        nothing_reported(check_expr(s, x, d).0, check_expr(s, e, d).0),
{
    reveal_with_fuel(expr_type, 2);
}

/// `ok`, `fail`, `some` and `none` leave open what they do not tell.
pub proof fn law_wrappers_leave_the_rest_open(s: State, e: Expr, x: Expr, d: nat)
    requires
        match e {
            Expr::OkOf(y, _) => *y == x,
            Expr::FailOf(y, _) => *y == x,
            Expr::SomeOf(y, _) => *y == x,
            _ => false,
        },
        ({
            let (s1, a) = check_expr(s, x, d);
            has_room(s1) && a < s1.types.types.len()
        }),
    ensures
        ({
            let (s1, a) = check_expr(s, x, d);
            let (after, t) = check_expr(s, e, d);
            &&& nothing_reported(s1, after)
            &&& ty(after.types, t) == match e {
                Expr::OkOf(_, _) => Type::Result(a, TypeInterner::ERROR),
                Expr::FailOf(_, _) => Type::Result(TypeInterner::ERROR, a),
                _ => Type::Optional(a),
            }
        }),
{
    let (s1, a) = check_expr(s, x, d);
    reveal_with_fuel(expr_type, 2);
    lemma_basics(s1.types);
    law_stored_types_are_found_again(s1.types, Type::Result(a, TypeInterner::ERROR));
    law_stored_types_are_found_again(s1.types, Type::Result(TypeInterner::ERROR, a));
    law_stored_types_are_found_again(s1.types, Type::Optional(a));
}

pub proof fn law_none_is_an_open_optional(s: State, span: Span, d: nat)
    requires
        has_room(s),
    ensures
        ({
            let (after, t) = check_expr(s, Expr::NoneOf(span), d);
            &&& nothing_reported(s, after)
            &&& ty(after.types, t) == Type::Optional(TypeInterner::ERROR)
        }),
{
    reveal_with_fuel(expr_type, 2);
    lemma_basics(s.types);
    law_stored_types_are_found_again(s.types, Type::Optional(TypeInterner::ERROR));
}

/// `default` has the type of its value. Outside of a handling block it is reported.
pub proof fn law_default_belongs_in_a_handling_block(s: State, x: Box<Expr>, span: Span, d: nat)
    ensures
        ({
            let (after, t) = check_expr(s, Expr::Default(x, span), d);
            let from = if s.context.in_handle {
                s
            } else {
                State {
                    reports: s.reports.push(
                        error(ErrorCode::DefaultOutsideHandle, span, Seq::empty()),
                    ),
                    ..s
                }
            };
            &&& t == check_expr(from, *x, d).1
            &&& nothing_reported(check_expr(from, *x, d).0, after)
        }),
{
    reveal_with_fuel(expr_type, 2);
}

/// `declassify` opens a secret. What is no secret is reported.
pub proof fn law_declassify_opens_secrets(s: State, x: Box<Expr>, span: Span, d: nat)
    ensures
        ({
            let (s1, a) = check_expr(s, *x, d);
            let (after, t) = check_expr(s, Expr::Declassify(x, span), d);
            if is_secret(s1.types, a) {
                ty(s1.types, a) == Type::Secret(t) && nothing_reported(s1, after)
            } else {
                t == TypeInterner::ERROR && reported(
                    s1,
                    after,
                    error(ErrorCode::DeclassifyRequiresSecret, span, seq![name_of(s1.types, a)]),
                )
            }
        }),
{
    reveal(declassified);
    reveal_with_fuel(expr_type, 2);
}

/// `coarsen` gives the type below every refinement. What is no refinement is reported and
/// stays what it is.
pub proof fn law_coarsen_goes_down_to_the_base(s: State, x: Box<Expr>, span: Span, d: nat)
    requires
        sound(check_expr(s, *x, d).0.types),
    ensures
        ({
            let (s1, a) = check_expr(s, *x, d);
            let (after, t) = check_expr(s, Expr::Coarsen(x, span), d);
            &&& refinement_base(s1.types, t) is None
            &&& if ty(s1.types, a) is Refinement {
                nothing_reported(s1, after) && can_coarsen(s1.types, a, t)
            } else if a == TypeInterner::ERROR {
                t == a && nothing_reported(s1, after)
            } else {
                t == a && reported(
                    s1,
                    after,
                    error(ErrorCode::CoarsenRequiresRefinement, span, seq![name_of(s1.types, a)]),
                )
            }
        }),
{
    let (s1, a) = check_expr(s, *x, d);
    reveal(coarsened);
    reveal_with_fuel(expr_type, 2);
    law_coarsening_ends(s1.types, a);
    if ty(s1.types, a) is Refinement {
        law_refinements_go_down_to_their_base(s1.types, a);
    }
}

/// Joining a task gives its result: a result as it is, anything else as the value of one
/// that fails with a text.
pub proof fn law_joining_gives_a_result(s: State, x: Box<Expr>, span: Span, d: nat)
    requires
        ({
            let (s1, a) = check_expr(s, *x, d);
            has_room(s1) && a < s1.types.types.len()
        }),
    ensures
        ({
            let (s1, a) = check_expr(s, *x, d);
            let (after, t) = check_expr(s, Expr::Join(x, span), d);
            &&& nothing_reported(s1, after)
            &&& if ty(s1.types, a) is Result {
                t == a
            } else {
                ty(after.types, t) == Type::Result(a, TypeInterner::STRING)
            }
        }),
{
    let (s1, a) = check_expr(s, *x, d);
    reveal(joined);
    reveal_with_fuel(expr_type, 2);
    lemma_basics(s1.types);
    law_stored_types_are_found_again(s1.types, Type::Result(a, TypeInterner::STRING));
}

/// Cancelling a task gives nothing.
pub proof fn law_cancelling_gives_nothing(s: State, x: Box<Expr>, span: Span, d: nat)
    ensures
        check_expr(s, Expr::Cancel(x, span), d).1 == TypeInterner::NOTHING,
        nothing_reported(check_expr(s, *x, d).0, check_expr(s, Expr::Cancel(x, span), d).0),
{
    reveal_with_fuel(expr_type, 2);
}

// ---------------------------------------------------------------------------
// Texts
// ---------------------------------------------------------------------------

/// A text with values in it is a string.
pub proof fn law_interpolated_texts_are_strings(s: State, ps: Vec<StringPart>, span: Span, d: nat)
    ensures
        check_expr(s, Expr::StringInterpolation(ps, span), d).1 == TypeInterner::STRING,
        check_expr(s, Expr::StringInterpolation(ps, span), d).0.reports == check_parts(s, ps, 0, d).reports,
{
    reveal_with_fuel(expr_type, 2);
}

/// Each value in a text has to be displayable. One that is not is reported, and the parts
/// behind it are looked at all the same.
pub proof fn law_values_in_texts_are_displayable(s: State, ps: Vec<StringPart>, i: nat, d: nat)
    requires
        i < ps@.len(),
    ensures
        match ps@[i as int] {
            StringPart::Literal(_) => check_parts(s, ps, i, d) == check_parts(s, ps, i + 1, d),
            StringPart::Expr(x) => {
                let (s1, a) = check_expr(s, x, d);
                check_parts(s, ps, i, d) == check_parts(
                    if displayable(s1, a) {
                        s1
                    } else {
                        State {
                            reports: s1.reports.push(
                                error(
                                    ErrorCode::TypeDoesNotImplementInterface,
                                    expr_span(x),
                                    seq![name_of(s1.types, a), "Displayable"@],
                                ),
                            ),
                            ..s1
                        }
                    },
                    ps,
                    i + 1,
                    d,
                )
            },
        },
{
    reveal_with_fuel(check_parts, 2);
}

/// Numbers, texts and booleans are displayable, and every type that implements the
/// interface `Displayable`. Nothing else is; no secret is by itself.
pub proof fn law_what_is_displayable(s: State, id: TypeId)
    ensures
        displayable(s, id) <==> numeric(ty(s.types, id)) || ty(s.types, id) is String || ty(s.types, id) is Bool || (
        s.named_types.contains_key("Displayable"@) && ty(s.types, s.named_types["Displayable"@]) is Interface
            && s.impls.contains_key((s.named_types["Displayable"@], id))),
{
    reveal(displayable);
}

} // verus!
