//! Uses of variables whose value is gone: every one that control reaches is reported.
use vstd::prelude::*;

use crate::ast::{
    expr_span, Block, CallArg, Expr, ForStmt, Ident, IfStmt, MatchStmt, Param, PipelineStep, Stmt,
    StringPart, TypeExpr, VarDecl,
};
use crate::diagnostics::{error_after, ErrorCode};
use crate::ownership::{
    after_args, after_arms, after_block, after_consuming, after_decl, after_else_ifs, after_entries,
    after_expr, after_exprs, after_for, after_if, after_optional, after_parts, after_read_args,
    after_steps, after_stmt, bind, branch, consume_name, copyable, dotted_name, exits,
    first_consuming, fresh_info, join, ownership_type, read, rebind, views_first_argument,
    with_params, Branching, OwnershipState, Standing, Surroundings, VarInfo, Vars,
};
use crate::ownership_laws::{
    about_ownership, between, follows, follows_block, follows_expr, follows_stmt,
};
use crate::reflect_types::primitive_named;
use crate::span::Span;
use crate::type_rules::numeric;
use crate::types::{lemma_basics, sound, ty, Type, TypeInterner, Types};

verus! {

// ---------------------------------------------------------------------------
// What code does with a name
// ---------------------------------------------------------------------------

/// Whether the code gives the name a value: it declares it, assigns to it, or loops
/// with it.
pub open spec fn binds(e: Expr, name: Seq<char>) -> bool
    decreases e,
{
    match e {
        Expr::Binary(l, _, r, _) => binds(*l, name) || binds(*r, name),
        Expr::Call(callee, args, _) => binds(*callee, name) || exists|i: int|
            0 <= i < args@.len() && binds((#[trigger] args@[i]).value, name),
        Expr::GenericCall(callee, _, args, _) => binds(*callee, name) || exists|i: int|
            0 <= i < args@.len() && binds((#[trigger] args@[i]).value, name),
        Expr::ListConstruct(es, _) => exists|i: int|
            0 <= i < es@.len() && binds(#[trigger] es@[i], name),
        Expr::MapConstruct(es, _) => exists|i: int|
            0 <= i < es@.len() && (binds((#[trigger] es@[i]).0, name) || binds(es@[i].1, name)),
        Expr::Handle(target, _, body, _) => binds(*target, name) || block_binds(body, name),
        Expr::StringInterpolation(ps, _) => exists|i: int|
            0 <= i < ps@.len() && (match #[trigger] ps@[i] {
                StringPart::Expr(e1) => binds(e1, name),
                _ => false,
            }),
        Expr::Pipeline(initial, steps, _) => binds(*initial, name) || exists|i: int|
            0 <= i < steps@.len() && step_binds(#[trigger] steps@[i], name),
        Expr::InlineFn(_, _, body, _) => block_binds(body, name),
        Expr::Unary(_, e1, _) => binds(*e1, name),
        Expr::Paren(e1, _) => binds(*e1, name),
        Expr::View(e1, _) => binds(*e1, name),
        Expr::FieldAccess(e1, _, _) => binds(*e1, name),
        Expr::OkOf(e1, _) => binds(*e1, name),
        Expr::FailOf(e1, _) => binds(*e1, name),
        Expr::SomeOf(e1, _) => binds(*e1, name),
        Expr::Default(e1, _) => binds(*e1, name),
        Expr::Declassify(e1, _) => binds(*e1, name),
        Expr::Coarsen(e1, _) => binds(*e1, name),
        Expr::At(e1, _, _) => binds(*e1, name),
        Expr::Spawn(e1, _) => binds(*e1, name),
        Expr::Send(e1, _) => binds(*e1, name),
        Expr::Ask(e1, _) => binds(*e1, name),
        Expr::Clone(e1, _) => binds(*e1, name),
        Expr::Run(e1, _) => binds(*e1, name),
        Expr::Join(e1, _) => binds(*e1, name),
        Expr::Cancel(e1, _) => binds(*e1, name),
        _ => false,
    }
}

pub open spec fn step_binds(step: PipelineStep, name: Seq<char>) -> bool
    decreases step,
{
    binds(step.function, name) || exists|i: int|
        0 <= i < step.extra_args@.len() && binds((#[trigger] step.extra_args@[i]).value, name)
}

pub open spec fn maybe_binds(e: Option<Expr>, name: Seq<char>) -> bool
    decreases e,
{
    match e {
        Some(e1) => binds(e1, name),
        None => false,
    }
}

pub open spec fn block_binds(b: Block, name: Seq<char>) -> bool
    decreases b,
{
    exists|i: int| 0 <= i < b.stmts@.len() && stmt_binds(#[trigger] b.stmts@[i], name)
}

pub open spec fn stmt_binds(s: Stmt, name: Seq<char>) -> bool
    decreases s,
{
    match s {
        Stmt::VarDecl(d) => d.name.name@ == name || binds(d.value, name),
        Stmt::Assign(t) => binds(t.value, name) || (match t.target {
            Expr::Ident(ident) => ident.name@ == name,
            _ => binds(t.target, name),
        }),
        Stmt::Return(r) => maybe_binds(r.value, name),
        Stmt::Respond(r) => binds(r.value, name),
        Stmt::ComptimeTypeBind(b) => block_binds(b.body, name),
        Stmt::If(i) => {
            ||| binds(i.condition, name)
            ||| block_binds(i.then_block, name)
            ||| exists|j: int|
                0 <= j < i.else_ifs@.len() && (binds((#[trigger] i.else_ifs@[j]).0, name) || block_binds(
                    i.else_ifs@[j].1,
                    name,
                ))
            ||| (match i.else_block {
                Some(b) => block_binds(b, name),
                None => false,
            })
        },
        Stmt::For(f) => f.variable.name@ == name || binds(f.iterable, name) || block_binds(f.body, name),
        Stmt::While(l) => binds(l.condition, name) || block_binds(l.body, name),
        Stmt::Match(m) => binds(m.expr, name) || exists|j: int|
            0 <= j < m.arms@.len() && block_binds((#[trigger] m.arms@[j]).body, name),
        Stmt::Expr(e) => binds(e.expr, name),
        Stmt::Assert(t) => binds(t.condition, name) || maybe_binds(t.message, name),
        Stmt::Breakpoint(b) => maybe_binds(b.condition, name),
        _ => false,
    }
}

/// Whether control can come to the statement at a place of the block.
pub open spec fn reaches(b: Block, i: int) -> bool {
    forall|j: int| 0 <= j < i ==> !exits(#[trigger] b.stmts@[j])
}

/// Whether evaluating the expression comes to this use of a variable.
pub open spec fn reads(e: Expr, x: Ident) -> bool
    decreases e,
{
    match e {
        Expr::Ident(ident) => ident == x,
        Expr::Binary(l, _, r, _) => reads(*l, x) || reads(*r, x),
        Expr::Call(callee, args, _) => reads(*callee, x) || exists|i: int|
            0 <= i < args@.len() && reads((#[trigger] args@[i]).value, x),
        Expr::GenericCall(callee, _, args, _) => reads(*callee, x) || exists|i: int|
            0 <= i < args@.len() && reads((#[trigger] args@[i]).value, x),
        Expr::ListConstruct(es, _) => exists|i: int|
            0 <= i < es@.len() && reads(#[trigger] es@[i], x),
        Expr::MapConstruct(es, _) => exists|i: int|
            0 <= i < es@.len() && (reads((#[trigger] es@[i]).0, x) || reads(es@[i].1, x)),
        Expr::Handle(target, _, body, _) => reads(*target, x) || block_reads(body, x),
        Expr::StringInterpolation(ps, _) => exists|i: int|
            0 <= i < ps@.len() && (match #[trigger] ps@[i] {
                StringPart::Expr(e1) => reads(e1, x),
                _ => false,
            }),
        Expr::Pipeline(initial, steps, _) => reads(*initial, x) || exists|i: int|
            0 <= i < steps@.len() && step_reads(#[trigger] steps@[i], x),
        Expr::InlineFn(_, _, body, _) => block_reads(body, x),
        Expr::Unary(_, e1, _) => reads(*e1, x),
        Expr::Paren(e1, _) => reads(*e1, x),
        Expr::View(e1, _) => reads(*e1, x),
        Expr::FieldAccess(e1, _, _) => reads(*e1, x),
        Expr::OkOf(e1, _) => reads(*e1, x),
        Expr::FailOf(e1, _) => reads(*e1, x),
        Expr::SomeOf(e1, _) => reads(*e1, x),
        Expr::Default(e1, _) => reads(*e1, x),
        Expr::Declassify(e1, _) => reads(*e1, x),
        Expr::Coarsen(e1, _) => reads(*e1, x),
        Expr::At(e1, _, _) => reads(*e1, x),
        Expr::Spawn(e1, _) => reads(*e1, x),
        Expr::Send(e1, _) => reads(*e1, x),
        Expr::Ask(e1, _) => reads(*e1, x),
        Expr::Clone(e1, _) => reads(*e1, x),
        Expr::Run(e1, _) => reads(*e1, x),
        Expr::Join(e1, _) => reads(*e1, x),
        Expr::Cancel(e1, _) => reads(*e1, x),
        _ => false,
    }
}

pub open spec fn step_reads(step: PipelineStep, x: Ident) -> bool
    decreases step,
{
    reads(step.function, x) || exists|i: int|
        0 <= i < step.extra_args@.len() && reads((#[trigger] step.extra_args@[i]).value, x)
}

pub open spec fn maybe_reads(e: Option<Expr>, x: Ident) -> bool
    decreases e,
{
    match e {
        Some(e1) => reads(e1, x),
        None => false,
    }
}

/// What stands behind a statement that control does not pass is not come to.
pub open spec fn block_reads(b: Block, x: Ident) -> bool
    decreases b,
{
    exists|i: int| 0 <= i < b.stmts@.len() && reaches(b, i) && stmt_reads(#[trigger] b.stmts@[i], x)
}

pub open spec fn stmt_reads(s: Stmt, x: Ident) -> bool
    decreases s,
{
    match s {
        Stmt::VarDecl(d) => reads(d.value, x),
        Stmt::Assign(t) => reads(t.value, x) || !(t.target is Ident) && reads(t.target, x),
        Stmt::Return(r) => maybe_reads(r.value, x),
        Stmt::Respond(r) => reads(r.value, x),
        Stmt::ComptimeTypeBind(b) => block_reads(b.body, x),
        Stmt::If(i) => {
            ||| reads(i.condition, x)
            ||| block_reads(i.then_block, x)
            ||| exists|j: int|
                0 <= j < i.else_ifs@.len() && (reads((#[trigger] i.else_ifs@[j]).0, x) || block_reads(
                    i.else_ifs@[j].1,
                    x,
                ))
            ||| (match i.else_block {
                Some(b) => block_reads(b, x),
                None => false,
            })
        },
        Stmt::For(f) => reads(f.iterable, x) || block_reads(f.body, x),
        Stmt::While(l) => reads(l.condition, x) || block_reads(l.body, x),
        Stmt::Match(m) => reads(m.expr, x) || exists|j: int|
            0 <= j < m.arms@.len() && block_reads((#[trigger] m.arms@[j]).body, x),
        Stmt::Expr(e) => reads(e.expr, x),
        Stmt::Assert(t) => reads(t.condition, x) || maybe_reads(t.message, x),
        Stmt::Breakpoint(b) => maybe_reads(b.condition, x),
        Stmt::Trace(t) => t.name == x,
        _ => false,
    }
}

// ---------------------------------------------------------------------------
// A variable whose value is gone
// ---------------------------------------------------------------------------

/// Whether the variable is one whose value moves, and it was consumed at `at`.
pub open spec fn gone(w: Surroundings, vars: Vars, name: Seq<char>, at: Span) -> bool {
    &&& vars.contains_key(name)
    &&& vars[name].state == OwnershipState::Consumed
    &&& vars[name].consumed_span == Some(at)
    &&& !copyable(ty(w.types, vars[name].type_id))
}

/// Whether this use of the variable is reported, with the place where it was consumed.
pub open spec fn told(s: Standing, x: Ident, at: Span) -> bool {
    s.reports.contains(error_after(ErrorCode::UseAfterMove, x.span, seq![x.name@], at))
}

/// Whether the variable is gone after the code too, and the use is reported if the code
/// comes to it.
#[verifier::opaque]
pub open spec fn kept_gone(w: Surroundings, s: Standing, t: Standing, x: Ident, at: Span, used: bool) -> bool {
    &&& gone(w, t.vars, x.name@, at)
    &&& t.vars[x.name@] == s.vars[x.name@]
    &&& follows(s, t)
    &&& used ==> told(t, x, at)
}

proof fn gone_on(w: Surroundings, a: Standing, b: Standing, c: Standing, x: Ident, at: Span, u: bool, v: bool)
    requires
        kept_gone(w, a, b, x, at, u),
        kept_gone(w, b, c, x, at, v),
    ensures
        kept_gone(w, a, c, x, at, u || v),
{
    reveal(kept_gone);
    follows_through(a, b, c);
    if u {
        told_stays(b, c, x, at);
    }
}

proof fn follows_through(a: Standing, b: Standing, c: Standing)
    requires
        follows(a, b),
        follows(b, c),
    ensures
        follows(a, c),
{
    reveal(follows);
    assert forall|i: int| 0 <= i < a.reports.len() implies a.reports[i] == #[trigger] c.reports[i] by {
        assert(a.reports[i] == b.reports[i]);
    }
    assert forall|i: int| a.reports.len() <= i < c.reports.len() implies about_ownership(
        (#[trigger] c.reports[i]).code,
    ) by {
        if i < b.reports.len() {
            assert(c.reports[i] == b.reports[i]);
        }
    }
}

proof fn told_stays(a: Standing, b: Standing, x: Ident, at: Span)
    requires
        follows(a, b),
        told(a, x, at),
    ensures
        told(b, x, at),
{
    reveal(follows);
    let d = error_after(ErrorCode::UseAfterMove, x.span, seq![x.name@], at);
    let i = choose|i: int| 0 <= i < a.reports.len() && a.reports[i] == d;
    assert(b.reports[i] == d);
}

proof fn gone_now(w: Surroundings, a: Standing, b: Standing, x: Ident, at: Span, u: bool)
    requires
        kept_gone(w, a, b, x, at, u),
    ensures
        gone(w, b.vars, x.name@, at),
{
    reveal(kept_gone);
}

proof fn gone_less(w: Surroundings, a: Standing, b: Standing, x: Ident, at: Span, u: bool, v: bool)
    requires
        kept_gone(w, a, b, x, at, u),
        v ==> u,
    ensures
        kept_gone(w, a, b, x, at, v),
{
    reveal(kept_gone);
}

proof fn gone_still(w: Surroundings, s: Standing, x: Ident, at: Span)
    requires
        gone(w, s.vars, x.name@, at),
    ensures
        kept_gone(w, s, s, x, at, false),
{
    reveal(kept_gone);
    reveal(follows);
}

proof fn gone_read(w: Surroundings, s: Standing, ident: Ident, x: Ident, at: Span)
    requires
        gone(w, s.vars, x.name@, at),
    ensures
        kept_gone(w, s, read(s, ident), x, at, ident == x),
{
    reveal(kept_gone);
    follows_expr(w, s, Expr::Ident(ident));
    let t = read(s, ident);
    if ident == x {
        assert(t.reports.last() == error_after(ErrorCode::UseAfterMove, x.span, seq![x.name@], at));
    }
}

proof fn gone_consume(
    w: Surroundings,
    s: Standing,
    ident: Ident,
    span: Span,
    x: Ident,
    at: Span,
)
    requires
        gone(w, s.vars, x.name@, at),
    ensures
        kept_gone(w, s, consume_name(w, s, ident.name@, ident.span, span), x, at, ident == x),
{
    reveal(kept_gone);
    reveal(follows);
    let t = consume_name(w, s, ident.name@, ident.span, span);
    if ident == x {
        assert(t.reports.last() == error_after(ErrorCode::UseAfterMove, x.span, seq![x.name@], at));
    }
}

proof fn gone_bind(w: Surroundings, s: Standing, name: Seq<char>, info: VarInfo, x: Ident, at: Span)
    requires
        gone(w, s.vars, x.name@, at),
        name != x.name@,
        info.state == OwnershipState::Consumed <==> info.consumed_span is Some,
    ensures
        kept_gone(w, s, bind(s, name, info), x, at, false),
{
    reveal(kept_gone);
    reveal(follows);
}

proof fn gone_consuming(
    w: Surroundings,
    s: Standing,
    e: Expr,
    span: Span,
    x: Ident,
    at: Span,
)
    requires
        gone(w, s.vars, x.name@, at),
        !(binds(e, x.name@)),
    ensures
        kept_gone(w, s, after_consuming(w, s, e, span), x, at, reads(e, x)),
    decreases e, 1nat,
{
    match e {
        Expr::Ident(ident) => gone_consume(w, s, ident, span, x, at),
        Expr::View(inner, _) => gone_expr(w, s, *inner, x, at),
        _ => gone_expr(w, s, e, x, at),
    }
}

proof fn gone_args(
    w: Surroundings,
    s: Standing,
    args: Vec<CallArg>,
    view_first: bool,
    i: nat,
    x: Ident,
    at: Span,
)
    requires
        gone(w, s.vars, x.name@, at),
        !(exists|j: int| i <= j < args@.len() && binds((#[trigger] args@[j]).value, x.name@)),
    ensures
        kept_gone(w, s, after_args(w, s, args, view_first, i), x, at, (exists|j: int| i <= j < args@.len() && reads((#[trigger] args@[j]).value, x))),
    decreases args, args@.len() - i,
{
    if i >= args@.len() {
        gone_still(w, s, x, at);
    } else {
        let arg = args@[i as int];
        let s1 = match arg.value {
            Expr::View(inner, _) => after_expr(w, s, *inner),
            _ => if view_first && i == 0 {
                after_expr(w, s, arg.value)
            } else {
                after_consuming(w, s, arg.value, arg.span)
            },
        };
        let here = reads(args@[i as int].value, x);
        let later = exists|j: int| i + 1 <= j < args@.len() && reads((#[trigger] args@[j]).value, x);
        match arg.value {
            Expr::View(inner, _) => gone_expr(w, s, *inner, x, at),
            _ => {
                gone_expr(w, s, arg.value, x, at);
                gone_consuming(w, s, arg.value, arg.span, x, at);
            },
        }
        gone_now(w, s, s1, x, at, here);
        gone_args(w, s1, args, view_first, i + 1, x, at);
        gone_on(w, s, s1, after_args(w, s1, args, view_first, i + 1), x, at, here, later);
        assert(here || later <==> (exists|j: int| i <= j < args@.len() && reads((#[trigger] args@[j]).value, x))) by {
            if here {
                let j = i as int;
                assert(i <= j < args@.len() && reads((args@[j]).value, x));
            }
        }
    }
}

proof fn gone_read_args(
    w: Surroundings,
    s: Standing,
    args: Vec<CallArg>,
    i: nat,
    x: Ident,
    at: Span,
)
    requires
        gone(w, s.vars, x.name@, at),
        !(exists|j: int| i <= j < args@.len() && binds((#[trigger] args@[j]).value, x.name@)),
    ensures
        kept_gone(w, s, after_read_args(w, s, args, i), x, at, (exists|j: int| i <= j < args@.len() && reads((#[trigger] args@[j]).value, x))),
    decreases args, args@.len() - i,
{
    if i >= args@.len() {
        gone_still(w, s, x, at);
    } else {
        let s1 = after_expr(w, s, args@[i as int].value);
        let here = reads(args@[i as int].value, x);
        let later = exists|j: int| i + 1 <= j < args@.len() && reads((#[trigger] args@[j]).value, x);
        gone_expr(w, s, args@[i as int].value, x, at);
        gone_now(w, s, s1, x, at, here);
        gone_read_args(w, s1, args, i + 1, x, at);
        gone_on(w, s, s1, after_read_args(w, s1, args, i + 1), x, at, here, later);
        assert(here || later <==> (exists|j: int| i <= j < args@.len() && reads((#[trigger] args@[j]).value, x))) by {
            if here {
                let j = i as int;
                assert(i <= j < args@.len() && reads((args@[j]).value, x));
            }
        }
    }
}

proof fn gone_exprs(
    w: Surroundings,
    s: Standing,
    es: Vec<Expr>,
    i: nat,
    x: Ident,
    at: Span,
)
    requires
        gone(w, s.vars, x.name@, at),
        !(exists|j: int| i <= j < es@.len() && binds(#[trigger] es@[j], x.name@)),
    ensures
        kept_gone(w, s, after_exprs(w, s, es, i), x, at, (exists|j: int| i <= j < es@.len() && reads(#[trigger] es@[j], x))),
    decreases es, es@.len() - i,
{
    if i >= es@.len() {
        gone_still(w, s, x, at);
    } else {
        let s1 = after_expr(w, s, es@[i as int]);
        let here = reads(es@[i as int], x);
        let later = exists|j: int| i + 1 <= j < es@.len() && reads(#[trigger] es@[j], x);
        gone_expr(w, s, es@[i as int], x, at);
        gone_now(w, s, s1, x, at, here);
        gone_exprs(w, s1, es, i + 1, x, at);
        gone_on(w, s, s1, after_exprs(w, s1, es, i + 1), x, at, here, later);
        assert(here || later <==> (exists|j: int| i <= j < es@.len() && reads(#[trigger] es@[j], x))) by {
            if here {
                let j = i as int;
                assert(i <= j < es@.len() && reads(es@[j], x));
            }
        }
    }
}

proof fn gone_entries(
    w: Surroundings,
    s: Standing,
    es: Vec<(Expr, Expr)>,
    i: nat,
    x: Ident,
    at: Span,
)
    requires
        gone(w, s.vars, x.name@, at),
        !(exists|j: int| i <= j < es@.len() && (binds((#[trigger] es@[j]).0, x.name@) || binds(es@[j].1, x.name@))),
    ensures
        kept_gone(w, s, after_entries(w, s, es, i), x, at, (exists|j: int| i <= j < es@.len() && (reads((#[trigger] es@[j]).0, x) || reads(es@[j].1, x)))),
    decreases es, es@.len() - i,
{
    if i >= es@.len() {
        gone_still(w, s, x, at);
    } else {
        let s1 = after_expr(w, after_expr(w, s, es@[i as int].0), es@[i as int].1);
        let here = (reads(es@[i as int].0, x) || reads(es@[i as int].1, x));
        let later = exists|j: int| i + 1 <= j < es@.len() && (reads((#[trigger] es@[j]).0, x) || reads(es@[j].1, x));
        let k = after_expr(w, s, es@[i as int].0);
        gone_expr(w, s, es@[i as int].0, x, at);
        gone_now(w, s, k, x, at, reads(es@[i as int].0, x));
        gone_expr(w, k, es@[i as int].1, x, at);
        gone_on(w, s, k, s1, x, at, reads(es@[i as int].0, x), reads(es@[i as int].1, x));
        gone_now(w, s, s1, x, at, here);
        gone_entries(w, s1, es, i + 1, x, at);
        gone_on(w, s, s1, after_entries(w, s1, es, i + 1), x, at, here, later);
        assert(here || later <==> (exists|j: int| i <= j < es@.len() && (reads((#[trigger] es@[j]).0, x) || reads(es@[j].1, x)))) by {
            if here {
                let j = i as int;
                assert(i <= j < es@.len() && (reads((es@[j]).0, x) || reads(es@[j].1, x)));
            }
        }
    }
}

proof fn gone_parts(
    w: Surroundings,
    s: Standing,
    ps: Vec<StringPart>,
    i: nat,
    x: Ident,
    at: Span,
)
    requires
        gone(w, s.vars, x.name@, at),
        !(exists|j: int| i <= j < ps@.len() && (match #[trigger] ps@[j] { StringPart::Expr(e1) => binds(e1, x.name@), _ => false })),
    ensures
        kept_gone(w, s, after_parts(w, s, ps, i), x, at, (exists|j: int| i <= j < ps@.len() && (match #[trigger] ps@[j] { StringPart::Expr(e1) => reads(e1, x), _ => false }))),
    decreases ps, ps@.len() - i,
{
    if i >= ps@.len() {
        gone_still(w, s, x, at);
    } else {
        let s1 = match ps@[i as int] {
            StringPart::Expr(e1) => after_expr(w, s, e1),
            _ => s,
        };
        let here = (match ps@[i as int] { StringPart::Expr(e1) => reads(e1, x), _ => false });
        let later = exists|j: int| i + 1 <= j < ps@.len() && (match #[trigger] ps@[j] { StringPart::Expr(e1) => reads(e1, x), _ => false });
        match ps@[i as int] {
            StringPart::Expr(e1) => gone_expr(w, s, e1, x, at),
            _ => gone_still(w, s, x, at),
        }
        gone_now(w, s, s1, x, at, here);
        gone_parts(w, s1, ps, i + 1, x, at);
        gone_on(w, s, s1, after_parts(w, s1, ps, i + 1), x, at, here, later);
        assert(here || later <==> (exists|j: int| i <= j < ps@.len() && (match #[trigger] ps@[j] { StringPart::Expr(e1) => reads(e1, x), _ => false }))) by {
            if here {
                let j = i as int;
                assert(i <= j < ps@.len() && (match ps@[j] { StringPart::Expr(e1) => reads(e1, x), _ => false }));
            }
        }
    }
}

proof fn gone_steps(
    w: Surroundings,
    s: Standing,
    ps: Vec<PipelineStep>,
    i: nat,
    x: Ident,
    at: Span,
)
    requires
        gone(w, s.vars, x.name@, at),
        !(exists|j: int| i <= j < ps@.len() && step_binds(#[trigger] ps@[j], x.name@)),
    ensures
        kept_gone(w, s, after_steps(w, s, ps, i), x, at, (exists|j: int| i <= j < ps@.len() && step_reads(#[trigger] ps@[j], x))),
    decreases ps, ps@.len() - i,
{
    if i >= ps@.len() {
        gone_still(w, s, x, at);
    } else {
        let s1 = after_read_args(w, after_expr(w, s, ps@[i as int].function), ps@[i as int].extra_args, 0);
        let here = step_reads(ps@[i as int], x);
        let later = exists|j: int| i + 1 <= j < ps@.len() && step_reads(#[trigger] ps@[j], x);
        gone_step(w, s, ps@[i as int], x, at);
        gone_now(w, s, s1, x, at, here);
        gone_steps(w, s1, ps, i + 1, x, at);
        gone_on(w, s, s1, after_steps(w, s1, ps, i + 1), x, at, here, later);
        assert(here || later <==> (exists|j: int| i <= j < ps@.len() && step_reads(#[trigger] ps@[j], x))) by {
            if here {
                let j = i as int;
                assert(i <= j < ps@.len() && step_reads(ps@[j], x));
            }
        }
    }
}

proof fn gone_step(
    w: Surroundings,
    s: Standing,
    step: PipelineStep,
    x: Ident,
    at: Span,
)
    requires
        gone(w, s.vars, x.name@, at),
        !(step_binds(step, x.name@)),
    ensures
        kept_gone(w, s, after_read_args(w, after_expr(w, s, step.function), step.extra_args, 0), x, at, step_reads(step, x)),
    decreases step,
{
    let s1 = after_expr(w, s, step.function);
    gone_expr(w, s, step.function, x, at);
    gone_now(w, s, s1, x, at, reads(step.function, x));
    gone_read_args(w, s1, step.extra_args, 0, x, at);
    let more = exists|j: int|
        0 <= j < step.extra_args@.len() && reads((#[trigger] step.extra_args@[j]).value, x);
    gone_on(w, s, s1, after_read_args(w, s1, step.extra_args, 0), x, at, reads(step.function, x), more);
}

proof fn gone_expr(
    w: Surroundings,
    s: Standing,
    e: Expr,
    x: Ident,
    at: Span,
)
    requires
        gone(w, s.vars, x.name@, at),
        !(binds(e, x.name@)),
    ensures
        kept_gone(w, s, after_expr(w, s, e), x, at, reads(e, x)),
    decreases e, 0nat,
{
    match e {
        Expr::Ident(ident) => gone_read(w, s, ident, x, at),
        Expr::Binary(l, _, r, _) => {
            let s1 = after_expr(w, s, *l);
            gone_expr(w, s, *l, x, at);
            gone_now(w, s, s1, x, at, reads(*l, x));
            gone_expr(w, s1, *r, x, at);
            gone_on(w, s, s1, after_expr(w, s1, *r), x, at, reads(*l, x), reads(*r, x));
        },
        Expr::Call(callee, args, _) => {
            let first = views_first_argument(w, *callee);
            let more = exists|j: int| 0 <= j < args@.len() && reads((#[trigger] args@[j]).value, x);
            let s1 = after_expr(w, s, *callee);
            gone_expr(w, s, *callee, x, at);
            gone_now(w, s, s1, x, at, reads(*callee, x));
            gone_args(w, s1, args, first, 0, x, at);
            gone_on(w, s, s1, after_args(w, s1, args, first, 0), x, at, reads(*callee, x), more);
        },
        Expr::GenericCall(callee, _, args, _) => {
            let first = views_first_argument(w, *callee);
            let more = exists|j: int| 0 <= j < args@.len() && reads((#[trigger] args@[j]).value, x);
            let s1 = after_expr(w, s, *callee);
            gone_expr(w, s, *callee, x, at);
            gone_now(w, s, s1, x, at, reads(*callee, x));
            gone_args(w, s1, args, first, 0, x, at);
            gone_on(w, s, s1, after_args(w, s1, args, first, 0), x, at, reads(*callee, x), more);
        },
        Expr::ListConstruct(es, _) => gone_exprs(w, s, es, 0, x, at),
        Expr::MapConstruct(es, _) => gone_entries(w, s, es, 0, x, at),
        Expr::Handle(target, _, body, _) => {
            let s1 = after_expr(w, s, *target);
            gone_expr(w, s, *target, x, at);
            gone_now(w, s, s1, x, at, reads(*target, x));
            gone_block(w, s1, body, 0, x, at);
            gone_on(w, s, s1, after_block(w, s1, body, 0), x, at, reads(*target, x), block_reads(body, x));
        },
        Expr::StringInterpolation(ps, _) => gone_parts(w, s, ps, 0, x, at),
        Expr::Pipeline(initial, steps, _) => {
            let more = exists|j: int| 0 <= j < steps@.len() && step_reads(#[trigger] steps@[j], x);
            let s1 = after_expr(w, s, *initial);
            gone_expr(w, s, *initial, x, at);
            gone_now(w, s, s1, x, at, reads(*initial, x));
            gone_steps(w, s1, steps, 0, x, at);
            gone_on(w, s, s1, after_steps(w, s1, steps, 0), x, at, reads(*initial, x), more);
        },
        Expr::InlineFn(_, _, body, _) => {
            gone_block(w, s, body, 0, x, at);
            follows_expr(w, s, e);
            reveal(kept_gone);
        },
        Expr::Unary(_, e1, _) => gone_expr(w, s, *e1, x, at),
        Expr::Paren(e1, _) => gone_expr(w, s, *e1, x, at),
        Expr::View(e1, _) => gone_expr(w, s, *e1, x, at),
        Expr::FieldAccess(e1, _, _) => gone_expr(w, s, *e1, x, at),
        Expr::OkOf(e1, _) => gone_expr(w, s, *e1, x, at),
        Expr::FailOf(e1, _) => gone_expr(w, s, *e1, x, at),
        Expr::SomeOf(e1, _) => gone_expr(w, s, *e1, x, at),
        Expr::Default(e1, _) => gone_expr(w, s, *e1, x, at),
        Expr::Declassify(e1, _) => gone_expr(w, s, *e1, x, at),
        Expr::Coarsen(e1, _) => gone_expr(w, s, *e1, x, at),
        Expr::At(e1, _, _) => gone_expr(w, s, *e1, x, at),
        Expr::Spawn(e1, _) => gone_expr(w, s, *e1, x, at),
        Expr::Send(e1, _) => gone_expr(w, s, *e1, x, at),
        Expr::Ask(e1, _) => gone_expr(w, s, *e1, x, at),
        Expr::Clone(e1, _) => gone_expr(w, s, *e1, x, at),
        Expr::Run(e1, _) => gone_expr(w, s, *e1, x, at),
        Expr::Join(e1, _) => gone_expr(w, s, *e1, x, at),
        Expr::Cancel(e1, _) => gone_expr(w, s, *e1, x, at),
        _ => gone_still(w, s, x, at),
    }
}

/// Whether control comes from one statement of the block to the use.
spec fn reads_from(b: Block, i: nat, x: Ident) -> bool {
    exists|k: int|
        i <= k < b.stmts@.len() && (forall|j: int| i <= j < k ==> !exits(#[trigger] b.stmts@[j])) && stmt_reads(
            #[trigger] b.stmts@[k],
            x,
        )
}

proof fn gone_block_from(w: Surroundings, s: Standing, b: Block, i: nat, x: Ident, at: Span)
    requires
        gone(w, s.vars, x.name@, at),
        !block_binds(b, x.name@),
    ensures
        kept_gone(w, s, after_block(w, s, b, i), x, at, reads_from(b, i, x)),
    decreases b, b.stmts@.len() - i,
{
    if i >= b.stmts@.len() {
        gone_still(w, s, x, at);
    } else {
        let stmt = b.stmts@[i as int];
        let s1 = after_stmt(w, s, stmt);
        let here = stmt_reads(stmt, x);
        gone_stmt(w, s, stmt, x, at);
        gone_now(w, s, s1, x, at, here);
        if exits(stmt) {
            if reads_from(b, i, x) {
                let k = choose|k: int|
                    i <= k < b.stmts@.len() && (forall|j: int| i <= j < k ==> !exits(#[trigger] b.stmts@[j]))
                        && stmt_reads(#[trigger] b.stmts@[k], x);
                if k != i {
                    let j = i as int;
                    assert(!exits(b.stmts@[j]));
                }
            }
            gone_less(w, s, s1, x, at, here, reads_from(b, i, x));
        } else {
            gone_block_from(w, s1, b, i + 1, x, at);
            let later = reads_from(b, i + 1, x);
            gone_on(w, s, s1, after_block(w, s1, b, i + 1), x, at, here, later);
            if reads_from(b, i, x) && !here {
                let k = choose|k: int|
                    i <= k < b.stmts@.len() && (forall|j: int| i <= j < k ==> !exits(#[trigger] b.stmts@[j]))
                        && stmt_reads(#[trigger] b.stmts@[k], x);
                assert(i + 1 <= k < b.stmts@.len());
            }
            gone_less(
                w,
                s,
                after_block(w, s1, b, i + 1),
                x,
                at,
                here || later,
                reads_from(b, i, x),
            );
        }
    }
}

proof fn gone_block(w: Surroundings, s: Standing, b: Block, i: nat, x: Ident, at: Span)
    requires
        gone(w, s.vars, x.name@, at),
        !block_binds(b, x.name@),
        i == 0,
    ensures
        kept_gone(w, s, after_block(w, s, b, i), x, at, block_reads(b, x)),
    decreases b, b.stmts@.len() + 1,
{
    gone_block_from(w, s, b, 0, x, at);
    if block_reads(b, x) {
        let k = choose|k: int|
            0 <= k < b.stmts@.len() && reaches(b, k) && stmt_reads(#[trigger] b.stmts@[k], x);
        assert(reads_from(b, 0, x));
    }
    gone_less(w, s, after_block(w, s, b, 0), x, at, reads_from(b, 0, x), block_reads(b, x));
}

proof fn gone_decl(
    w: Surroundings,
    s: Standing,
    d: VarDecl,
    x: Ident,
    at: Span,
)
    requires
        gone(w, s.vars, x.name@, at),
        !(d.name.name@ == x.name@ || binds(d.value, x.name@)),
    ensures
        kept_gone(w, s, after_decl(w, s, d), x, at, reads(d.value, x)),
    decreases d, 0nat,
{
    let s1 = after_expr(w, s, d.value);
    let info = fresh_info(false, d.mutable, ownership_type(d.ty));
    gone_expr(w, s, d.value, x, at);
    gone_now(w, s, s1, x, at, reads(d.value, x));
    gone_bind(w, s1, d.name.name@, info, x, at);
    gone_on(w, s, s1, bind(s1, d.name.name@, info), x, at, reads(d.value, x), false);
}

proof fn gone_optional(
    w: Surroundings,
    s: Standing,
    e: Option<Expr>,
    x: Ident,
    at: Span,
)
    requires
        gone(w, s.vars, x.name@, at),
        !(maybe_binds(e, x.name@)),
    ensures
        kept_gone(w, s, after_optional(w, s, e), x, at, maybe_reads(e, x)),
    decreases e, 0nat,
{
    match e {
        Some(e1) => gone_expr(w, s, e1, x, at),
        None => gone_still(w, s, x, at),
    }
}

/// Whether the variable is gone at every end of a chain of branches.
spec fn chain_gone(w: Surroundings, s: Standing, b: Branching, x: Ident, at: Span, used: bool) -> bool {
    &&& kept_gone(w, s, between(b), x, at, used)
    &&& forall|i: int|
        0 <= i < b.reached.len() ==> (#[trigger] b.reached[i]).contains_key(x.name@) && b.reached[i][x.name@]
            == s.vars[x.name@]
}

proof fn gone_branch(
    w: Surroundings,
    s: Standing,
    b: Branching,
    block: Block,
    x: Ident,
    at: Span,
    used: bool,
)
    requires
        chain_gone(w, s, b, x, at, used),
        !block_binds(block, x.name@),
    ensures
        chain_gone(w, s, branch(w, b, block), x, at, used || block_reads(block, x)),
    decreases block, block.stmts@.len() + 2,
{
    gone_now(w, s, between(b), x, at, used);
    gone_block(w, between(b), block, 0, x, at);
    let t = after_block(w, between(b), block, 0);
    gone_on(w, s, between(b), t, x, at, used, block_reads(block, x));
    reveal(kept_gone);
    let after = branch(w, b, block);
    follows_block(w, between(b), block, 0);
    reveal(follows);
    assert forall|i: int| 0 <= i < after.reached.len() implies (#[trigger] after.reached[i]).contains_key(x.name@)
        && after.reached[i][x.name@] == s.vars[x.name@] by {
        if i < b.reached.len() {
            assert(after.reached[i] == b.reached[i]);
        }
    }
}

spec fn else_ifs_read(else_ifs: Vec<(Expr, Block)>, i: nat, x: Ident) -> bool {
    exists|j: int|
        i <= j < else_ifs@.len() && (reads((#[trigger] else_ifs@[j]).0, x) || block_reads(else_ifs@[j].1, x))
}

proof fn gone_else_ifs(
    w: Surroundings,
    s: Standing,
    b: Branching,
    else_ifs: Vec<(Expr, Block)>,
    i: nat,
    x: Ident,
    at: Span,
    used: bool,
)
    requires
        chain_gone(w, s, b, x, at, used),
        forall|j: int|
            0 <= j < else_ifs@.len() ==> !binds((#[trigger] else_ifs@[j]).0, x.name@) && !block_binds(
                else_ifs@[j].1,
                x.name@,
            ),
    ensures
        chain_gone(w, s, after_else_ifs(w, b, else_ifs, i), x, at, used || else_ifs_read(else_ifs, i, x)),
    decreases else_ifs, else_ifs@.len() - i,
{
    if i < else_ifs@.len() {
        let (condition, block) = else_ifs@[i as int];
        assert(!binds(else_ifs@[i as int].0, x.name@));
        let t = after_expr(w, between(b), condition);
        gone_now(w, s, between(b), x, at, used);
        gone_expr(w, between(b), condition, x, at);
        gone_on(w, s, between(b), t, x, at, used, reads(condition, x));
        let evaluated = Branching { conditions: t.vars, reached: b.reached, reports: t.reports };
        assert(between(evaluated) == t);
        let u = used || reads(condition, x);
        gone_branch(w, s, evaluated, block, x, at, u);
        let here = u || block_reads(block, x);
        gone_else_ifs(w, s, branch(w, evaluated, block), else_ifs, i + 1, x, at, here);
        let end = after_else_ifs(w, branch(w, evaluated, block), else_ifs, i + 1);
        if else_ifs_read(else_ifs, i, x) && !else_ifs_read(else_ifs, i + 1, x) {
            let j = choose|j: int|
                i <= j < else_ifs@.len() && (reads((#[trigger] else_ifs@[j]).0, x) || block_reads(
                    else_ifs@[j].1,
                    x,
                ));
            if j != i {
                assert(i + 1 <= j < else_ifs@.len());
            }
        }
        gone_less(
            w,
            s,
            between(end),
            x,
            at,
            here || else_ifs_read(else_ifs, i + 1, x),
            used || else_ifs_read(else_ifs, i, x),
        );
    } else {
        gone_less(w, s, between(b), x, at, used, used || else_ifs_read(else_ifs, i, x));
    }
}

proof fn gone_joined(before: Vars, branches: Seq<Vars>, name: Seq<char>, info: VarInfo)
    requires
        before.contains_key(name),
        before[name] == info,
        info.state == OwnershipState::Consumed,
        forall|i: int|
            0 <= i < branches.len() ==> (#[trigger] branches[i]).contains_key(name) && branches[i][name] == info,
    ensures
        join(before, branches).contains_key(name),
        join(before, branches)[name] == info,
{
    if branches.len() > 0 {
        let first: int = 0;
        assert(branches[first].contains_key(name));
        assert(first_consuming(branches, name, 0) == 0);
    }
}

proof fn gone_if(
    w: Surroundings,
    s: Standing,
    i: IfStmt,
    x: Ident,
    at: Span,
)
    requires
        gone(w, s.vars, x.name@, at),
        !(stmt_binds(Stmt::If(i), x.name@)),
    ensures
        kept_gone(w, s, after_if(w, s, i), x, at, stmt_reads(Stmt::If(i), x)),
    decreases i, 0nat,
{
    let s1 = after_expr(w, s, i.condition);
    gone_expr(w, s, i.condition, x, at);
    let u1 = reads(i.condition, x);
    let b0 = Branching { conditions: s1.vars, reached: Seq::empty(), reports: s1.reports };
    assert(between(b0) == s1);
    gone_branch(w, s, b0, i.then_block, x, at, u1);
    let b1 = branch(w, b0, i.then_block);
    let u2 = u1 || block_reads(i.then_block, x);
    gone_else_ifs(w, s, b1, i.else_ifs, 0, x, at, u2);
    let b2 = after_else_ifs(w, b1, i.else_ifs, 0);
    let u3 = u2 || else_ifs_read(i.else_ifs, 0, x);
    let u4 = u3 || (match i.else_block {
        Some(block) => block_reads(block, x),
        None => false,
    });
    let b3 = match i.else_block {
        Some(block) => branch(w, b2, block),
        None => Branching { reached: b2.reached.push(b2.conditions), ..b2 },
    };
    match i.else_block {
        Some(block) => gone_branch(w, s, b2, block, x, at, u3),
        None => {
            assert(between(b3) == between(b2));
            reveal(kept_gone);
            assert forall|j: int| 0 <= j < b3.reached.len() implies (#[trigger] b3.reached[j]).contains_key(x.name@)
                && b3.reached[j][x.name@] == s.vars[x.name@] by {
                if j < b2.reached.len() {
                    assert(b3.reached[j] == b2.reached[j]);
                }
            }
        },
    }
    assert(chain_gone(w, s, b3, x, at, u4));
    reveal(kept_gone);
    gone_joined(b3.conditions, b3.reached, x.name@, s.vars[x.name@]);
    follows_stmt(w, s, Stmt::If(i));
    assert(stmt_reads(Stmt::If(i), x) ==> u4);
}

proof fn gone_for(
    w: Surroundings,
    s: Standing,
    f: ForStmt,
    x: Ident,
    at: Span,
)
    requires
        gone(w, s.vars, x.name@, at),
        !(f.variable.name@ == x.name@ || binds(f.iterable, x.name@) || block_binds(f.body, x.name@)),
    ensures
        kept_gone(w, s, after_for(w, s, f), x, at, reads(f.iterable, x) || block_reads(f.body, x)),
    decreases f, 0nat,
{
    let s1 = if f.view {
        after_expr(w, s, f.iterable)
    } else {
        after_consuming(w, s, f.iterable, expr_span(f.iterable))
    };
    gone_expr(w, s, f.iterable, x, at);
    gone_consuming(w, s, f.iterable, expr_span(f.iterable), x, at);
    let u = reads(f.iterable, x);
    gone_now(w, s, s1, x, at, u);
    let info = fresh_info(f.view, false, TypeInterner::ERROR);
    let s2 = bind(s1, f.variable.name@, info);
    gone_bind(w, s1, f.variable.name@, info, x, at);
    gone_on(w, s, s1, s2, x, at, u, false);
    gone_now(w, s, s2, x, at, u || false);
    gone_block(w, s2, f.body, 0, x, at);
    gone_on(w, s, s2, after_block(w, s2, f.body, 0), x, at, u || false, block_reads(f.body, x));
}

proof fn gone_arms(
    w: Surroundings,
    s: Standing,
    m: MatchStmt,
    i: nat,
    x: Ident,
    at: Span,
)
    requires
        gone(w, s.vars, x.name@, at),
        !(exists|j: int| i <= j < m.arms@.len() && block_binds((#[trigger] m.arms@[j]).body, x.name@)),
    ensures
        kept_gone(w, s, after_arms(w, s, m, i), x, at, (exists|j: int| i <= j < m.arms@.len() && block_reads((#[trigger] m.arms@[j]).body, x))),
    decreases m, m.arms@.len() - i,
{
    if i >= m.arms@.len() {
        gone_still(w, s, x, at);
    } else {
        let s1 = after_block(w, s, m.arms@[i as int].body, 0);
        let here = block_reads(m.arms@[i as int].body, x);
        let later = exists|j: int| i + 1 <= j < m.arms@.len() && block_reads((#[trigger] m.arms@[j]).body, x);
        gone_block(w, s, m.arms@[i as int].body, 0, x, at);
        gone_now(w, s, s1, x, at, here);
        gone_arms(w, s1, m, i + 1, x, at);
        gone_on(w, s, s1, after_arms(w, s1, m, i + 1), x, at, here, later);
        assert(here || later <==> (exists|j: int| i <= j < m.arms@.len() && block_reads((#[trigger] m.arms@[j]).body, x))) by {
            if here {
                let j = i as int;
                assert(i <= j < m.arms@.len() && block_reads((m.arms@[j]).body, x));
            }
        }
    }
}

proof fn gone_stmt(
    w: Surroundings,
    s: Standing,
    stmt: Stmt,
    x: Ident,
    at: Span,
)
    requires
        gone(w, s.vars, x.name@, at),
        !(stmt_binds(stmt, x.name@)),
    ensures
        kept_gone(w, s, after_stmt(w, s, stmt), x, at, stmt_reads(stmt, x)),
    decreases stmt, 1nat,
{
    match stmt {
        Stmt::VarDecl(d) => gone_decl(w, s, d, x, at),
        Stmt::Assign(t) => {
            let s1 = after_expr(w, s, t.value);
            let u = reads(t.value, x);
            gone_expr(w, s, t.value, x, at);
            gone_now(w, s, s1, x, at, u);
            match t.target {
                Expr::Ident(ident) => {
                    if s1.vars.contains_key(ident.name@) && s1.vars[ident.name@].mutable {
                        gone_bind(w, s1, ident.name@, rebind(s1, ident.name@).vars[ident.name@], x, at);
                    } else {
                        gone_still(w, s1, x, at);
                    }
                    gone_on(w, s, s1, rebind(s1, ident.name@), x, at, u, false);
                },
                _ => {
                    gone_expr(w, s1, t.target, x, at);
                    gone_on(w, s, s1, after_expr(w, s1, t.target), x, at, u, reads(t.target, x));
                },
            }
        },
        Stmt::Return(r) => gone_optional(w, s, r.value, x, at),
        Stmt::ComptimeTypeBind(b) => gone_block(w, s, b.body, 0, x, at),
        Stmt::If(i) => gone_if(w, s, i, x, at),
        Stmt::For(f) => gone_for(w, s, f, x, at),
        Stmt::While(l) => {
            let s1 = after_expr(w, s, l.condition);
            gone_expr(w, s, l.condition, x, at);
            gone_now(w, s, s1, x, at, reads(l.condition, x));
            gone_block(w, s1, l.body, 0, x, at);
            gone_on(w, s, s1, after_block(w, s1, l.body, 0), x, at, reads(l.condition, x), block_reads(l.body, x));
        },
        Stmt::Expr(e) => gone_expr(w, s, e.expr, x, at),
        Stmt::Assert(t) => {
            let s1 = after_expr(w, s, t.condition);
            gone_expr(w, s, t.condition, x, at);
            gone_now(w, s, s1, x, at, reads(t.condition, x));
            gone_optional(w, s1, t.message, x, at);
            gone_on(w, s, s1, after_optional(w, s1, t.message), x, at, reads(t.condition, x), maybe_reads(t.message, x));
        },
        Stmt::Trace(t) => gone_read(w, s, t.name, x, at),
        Stmt::Breakpoint(b) => gone_optional(w, s, b.condition, x, at),
        Stmt::Match(m) => {
            let more = exists|j: int| 0 <= j < m.arms@.len() && block_reads((#[trigger] m.arms@[j]).body, x);
            let s1 = after_expr(w, s, m.expr);
            gone_expr(w, s, m.expr, x, at);
            gone_now(w, s, s1, x, at, reads(m.expr, x));
            gone_arms(w, s1, m, 0, x, at);
            gone_on(w, s, s1, after_arms(w, s1, m, 0), x, at, reads(m.expr, x), more);
        },
        Stmt::Respond(r) => gone_expr(w, s, r.value, x, at),
        _ => gone_still(w, s, x, at),
    }
}

/// Every use of a consumed variable in an expression is reported, however deep it lies:
/// in a field access, an operation, a list, an argument, a handling block. The variable
/// stays consumed.
pub proof fn law_uses_in_expressions_are_reported(w: Surroundings, s: Standing, e: Expr, x: Ident, at: Span)
    requires
        gone(w, s.vars, x.name@, at),
        !binds(e, x.name@),
    ensures
        reads(e, x) ==> told(after_expr(w, s, e), x, at),
        gone(w, after_expr(w, s, e).vars, x.name@, at),
{
    gone_expr(w, s, e, x, at);
    reveal(kept_gone);
}

/// The same of statements.
pub proof fn law_uses_in_statements_are_reported(w: Surroundings, s: Standing, stmt: Stmt, x: Ident, at: Span)
    requires
        gone(w, s.vars, x.name@, at),
        !stmt_binds(stmt, x.name@),
    ensures
        stmt_reads(stmt, x) ==> told(after_stmt(w, s, stmt), x, at),
        gone(w, after_stmt(w, s, stmt).vars, x.name@, at),
{
    gone_stmt(w, s, stmt, x, at);
    reveal(kept_gone);
}

/// The same of blocks, as far as control comes.
pub proof fn law_uses_in_blocks_are_reported(w: Surroundings, s: Standing, b: Block, x: Ident, at: Span)
    requires
        gone(w, s.vars, x.name@, at),
        !block_binds(b, x.name@),
    ensures
        block_reads(b, x) ==> told(after_block(w, s, b, 0), x, at),
        gone(w, after_block(w, s, b, 0).vars, x.name@, at),
{
    gone_block(w, s, b, 0, x, at);
    reveal(kept_gone);
}

// ---------------------------------------------------------------------------
// Values that are passed on
// ---------------------------------------------------------------------------

/// Whether the expression holds no handling block.
pub open spec fn blockless(e: Expr) -> bool
    decreases e,
{
    match e {
        Expr::Binary(l, _, r, _) => blockless(*l) && blockless(*r),
        Expr::Call(callee, args, _) => blockless(*callee) && forall|i: int|
            0 <= i < args@.len() ==> blockless((#[trigger] args@[i]).value),
        Expr::GenericCall(callee, _, args, _) => blockless(*callee) && forall|i: int|
            0 <= i < args@.len() ==> blockless((#[trigger] args@[i]).value),
        Expr::ListConstruct(es, _) => forall|i: int|
            0 <= i < es@.len() ==> blockless(#[trigger] es@[i]),
        Expr::MapConstruct(es, _) => forall|i: int|
            0 <= i < es@.len() ==> blockless((#[trigger] es@[i]).0) && blockless(es@[i].1),
        Expr::Handle(_, _, _, _) => false,
        Expr::StringInterpolation(ps, _) => forall|i: int|
            0 <= i < ps@.len() ==> (match #[trigger] ps@[i] {
                StringPart::Expr(e1) => blockless(e1),
                _ => true,
            }),
        Expr::Pipeline(initial, steps, _) => blockless(*initial) && forall|i: int|
            0 <= i < steps@.len() ==> step_blockless(#[trigger] steps@[i]),
        Expr::Unary(_, e1, _) => blockless(*e1),
        Expr::Paren(e1, _) => blockless(*e1),
        Expr::View(e1, _) => blockless(*e1),
        Expr::FieldAccess(e1, _, _) => blockless(*e1),
        Expr::OkOf(e1, _) => blockless(*e1),
        Expr::FailOf(e1, _) => blockless(*e1),
        Expr::SomeOf(e1, _) => blockless(*e1),
        Expr::Default(e1, _) => blockless(*e1),
        Expr::Declassify(e1, _) => blockless(*e1),
        Expr::Coarsen(e1, _) => blockless(*e1),
        Expr::At(e1, _, _) => blockless(*e1),
        Expr::Spawn(e1, _) => blockless(*e1),
        Expr::Send(e1, _) => blockless(*e1),
        Expr::Ask(e1, _) => blockless(*e1),
        Expr::Clone(e1, _) => blockless(*e1),
        Expr::Run(e1, _) => blockless(*e1),
        Expr::Join(e1, _) => blockless(*e1),
        Expr::Cancel(e1, _) => blockless(*e1),
        _ => true,
    }
}

pub open spec fn step_blockless(step: PipelineStep) -> bool
    decreases step,
{
    blockless(step.function) && forall|i: int|
        0 <= i < step.extra_args@.len() ==> blockless((#[trigger] step.extra_args@[i]).value)
}

/// Whether the argument hands the variable itself over, and not a view of it.
pub open spec fn hands_over(args: Vec<CallArg>, view_first: bool, i: int, name: Seq<char>) -> bool {
    &&& args@[i].value matches Expr::Ident(ident) && ident.name@ == name
    &&& !(view_first && i == 0)
}

/// Whether evaluating the expression passes the value of the variable on: it is an
/// argument of a call and not viewed there.
pub open spec fn moves(w: Surroundings, e: Expr, name: Seq<char>) -> bool
    decreases e,
{
    match e {
        Expr::Binary(l, _, r, _) => moves(w, *l, name) || moves(w, *r, name),
        Expr::Call(callee, args, _) => moves(w, *callee, name) || exists|i: int|
            0 <= i < args@.len() && (moves(w, (#[trigger] args@[i]).value, name) || hands_over(
                args,
                views_first_argument(w, *callee),
                i,
                name,
            )),
        Expr::GenericCall(callee, _, args, _) => moves(w, *callee, name) || exists|i: int|
            0 <= i < args@.len() && (moves(w, (#[trigger] args@[i]).value, name) || hands_over(
                args,
                views_first_argument(w, *callee),
                i,
                name,
            )),
        Expr::ListConstruct(es, _) => exists|i: int|
            0 <= i < es@.len() && moves(w, #[trigger] es@[i], name),
        Expr::MapConstruct(es, _) => exists|i: int|
            0 <= i < es@.len() && (moves(w, (#[trigger] es@[i]).0, name) || moves(w, es@[i].1, name)),
        Expr::StringInterpolation(ps, _) => exists|i: int|
            0 <= i < ps@.len() && (match #[trigger] ps@[i] {
                StringPart::Expr(e1) => moves(w, e1, name),
                _ => false,
            }),
        Expr::Pipeline(initial, steps, _) => moves(w, *initial, name) || exists|i: int|
            0 <= i < steps@.len() && step_moves(w, #[trigger] steps@[i], name),
        Expr::Unary(_, e1, _) => moves(w, *e1, name),
        Expr::Paren(e1, _) => moves(w, *e1, name),
        Expr::View(e1, _) => moves(w, *e1, name),
        Expr::FieldAccess(e1, _, _) => moves(w, *e1, name),
        Expr::OkOf(e1, _) => moves(w, *e1, name),
        Expr::FailOf(e1, _) => moves(w, *e1, name),
        Expr::SomeOf(e1, _) => moves(w, *e1, name),
        Expr::Default(e1, _) => moves(w, *e1, name),
        Expr::Declassify(e1, _) => moves(w, *e1, name),
        Expr::Coarsen(e1, _) => moves(w, *e1, name),
        Expr::At(e1, _, _) => moves(w, *e1, name),
        Expr::Spawn(e1, _) => moves(w, *e1, name),
        Expr::Send(e1, _) => moves(w, *e1, name),
        Expr::Ask(e1, _) => moves(w, *e1, name),
        Expr::Clone(e1, _) => moves(w, *e1, name),
        Expr::Run(e1, _) => moves(w, *e1, name),
        Expr::Join(e1, _) => moves(w, *e1, name),
        Expr::Cancel(e1, _) => moves(w, *e1, name),
        _ => false,
    }
}

pub open spec fn step_moves(w: Surroundings, step: PipelineStep, name: Seq<char>) -> bool
    decreases step,
{
    moves(w, step.function, name) || exists|i: int|
        0 <= i < step.extra_args@.len() && moves(w, (#[trigger] step.extra_args@[i]).value, name)
}

/// Whether the variable is one whose value moves, and it is owned or gone.
pub open spec fn held(w: Surroundings, vars: Vars, name: Seq<char>) -> bool {
    &&& vars.contains_key(name)
    &&& vars[name].state == OwnershipState::Owned || vars[name].state == OwnershipState::Consumed
    &&& !copyable(ty(w.types, vars[name].type_id))
}

pub open spec fn is_gone(vars: Vars, name: Seq<char>) -> bool {
    vars[name].state == OwnershipState::Consumed
}

/// Whether the variable is held after the code too: gone exactly where it was gone
/// before or the code passes it on.
#[verifier::opaque]
pub open spec fn kept_held(w: Surroundings, s: Standing, t: Standing, name: Seq<char>, moved: bool) -> bool {
    &&& held(w, t.vars, name)
    &&& is_gone(t.vars, name) <==> is_gone(s.vars, name) || moved
}

proof fn held_on(w: Surroundings, a: Standing, b: Standing, c: Standing, name: Seq<char>, u: bool, v: bool)
    requires
        kept_held(w, a, b, name, u),
        kept_held(w, b, c, name, v),
    ensures
        kept_held(w, a, c, name, u || v),
        held(w, c.vars, name),
{
    reveal(kept_held);
}

proof fn held_now(w: Surroundings, a: Standing, b: Standing, name: Seq<char>, u: bool)
    requires
        kept_held(w, a, b, name, u),
    ensures
        held(w, b.vars, name),
{
    reveal(kept_held);
}

proof fn held_still(w: Surroundings, s: Standing, name: Seq<char>)
    requires
        held(w, s.vars, name),
    ensures
        kept_held(w, s, s, name, false),
{
    reveal(kept_held);
}

proof fn held_args(
    w: Surroundings,
    s: Standing,
    args: Vec<CallArg>,
    view_first: bool,
    i: nat,
    name: Seq<char>,
)
    requires
        held(w, s.vars, name),
        forall|j: int| 0 <= j < args@.len() ==> blockless((#[trigger] args@[j]).value),
    ensures
        kept_held(w, s, after_args(w, s, args, view_first, i), name, (exists|j: int| i <= j < args@.len() && (moves(w, (#[trigger] args@[j]).value, name) || hands_over(args, view_first, j, name)))),
    decreases args, args@.len() - i,
{
    if i >= args@.len() {
        held_still(w, s, name);
    } else {
        let arg = args@[i as int];
        let s1 = match arg.value {
            Expr::View(inner, _) => after_expr(w, s, *inner),
            _ => if view_first && i == 0 {
                after_expr(w, s, arg.value)
            } else {
                after_consuming(w, s, arg.value, arg.span)
            },
        };
        let here = (moves(w, (args@[i as int]).value, name) || hands_over(args, view_first, i as int, name));
        let later = exists|j: int| i + 1 <= j < args@.len() && (moves(w, (#[trigger] args@[j]).value, name) || hands_over(args, view_first, j, name));
        match arg.value {
            Expr::View(inner, _) => held_expr(w, s, *inner, name),
            Expr::Ident(ident) => {
                reveal(kept_held);
                held_still(w, s, name);
            },
            _ => held_expr(w, s, arg.value, name),
        }
        held_now(w, s, s1, name, here);
        held_args(w, s1, args, view_first, i + 1, name);
        held_on(w, s, s1, after_args(w, s1, args, view_first, i + 1), name, here, later);
        assert(here || later <==> (exists|j: int| i <= j < args@.len() && (moves(w, (#[trigger] args@[j]).value, name) || hands_over(args, view_first, j, name)))) by {
            if here {
                let j = i as int;
                assert(i <= j < args@.len() && (moves(w, (args@[j]).value, name) || hands_over(args, view_first, j, name)));
            }
        }
    }
}

proof fn held_read_args(
    w: Surroundings,
    s: Standing,
    args: Vec<CallArg>,
    i: nat,
    name: Seq<char>,
)
    requires
        held(w, s.vars, name),
        forall|j: int| 0 <= j < args@.len() ==> blockless((#[trigger] args@[j]).value),
    ensures
        kept_held(w, s, after_read_args(w, s, args, i), name, (exists|j: int| i <= j < args@.len() && moves(w, (#[trigger] args@[j]).value, name))),
    decreases args, args@.len() - i,
{
    if i >= args@.len() {
        held_still(w, s, name);
    } else {
        let s1 = after_expr(w, s, args@[i as int].value);
        let here = moves(w, (args@[i as int]).value, name);
        let later = exists|j: int| i + 1 <= j < args@.len() && moves(w, (#[trigger] args@[j]).value, name);
        held_expr(w, s, args@[i as int].value, name);
        held_now(w, s, s1, name, here);
        held_read_args(w, s1, args, i + 1, name);
        held_on(w, s, s1, after_read_args(w, s1, args, i + 1), name, here, later);
        assert(here || later <==> (exists|j: int| i <= j < args@.len() && moves(w, (#[trigger] args@[j]).value, name))) by {
            if here {
                let j = i as int;
                assert(i <= j < args@.len() && moves(w, (args@[j]).value, name));
            }
        }
    }
}

proof fn held_exprs(
    w: Surroundings,
    s: Standing,
    es: Vec<Expr>,
    i: nat,
    name: Seq<char>,
)
    requires
        held(w, s.vars, name),
        forall|j: int| 0 <= j < es@.len() ==> blockless(#[trigger] es@[j]),
    ensures
        kept_held(w, s, after_exprs(w, s, es, i), name, (exists|j: int| i <= j < es@.len() && moves(w, #[trigger] es@[j], name))),
    decreases es, es@.len() - i,
{
    if i >= es@.len() {
        held_still(w, s, name);
    } else {
        let s1 = after_expr(w, s, es@[i as int]);
        let here = moves(w, es@[i as int], name);
        let later = exists|j: int| i + 1 <= j < es@.len() && moves(w, #[trigger] es@[j], name);
        held_expr(w, s, es@[i as int], name);
        held_now(w, s, s1, name, here);
        held_exprs(w, s1, es, i + 1, name);
        held_on(w, s, s1, after_exprs(w, s1, es, i + 1), name, here, later);
        assert(here || later <==> (exists|j: int| i <= j < es@.len() && moves(w, #[trigger] es@[j], name))) by {
            if here {
                let j = i as int;
                assert(i <= j < es@.len() && moves(w, es@[j], name));
            }
        }
    }
}

proof fn held_entries(
    w: Surroundings,
    s: Standing,
    es: Vec<(Expr, Expr)>,
    i: nat,
    name: Seq<char>,
)
    requires
        held(w, s.vars, name),
        forall|j: int| 0 <= j < es@.len() ==> blockless((#[trigger] es@[j]).0) && blockless(es@[j].1),
    ensures
        kept_held(w, s, after_entries(w, s, es, i), name, (exists|j: int| i <= j < es@.len() && (moves(w, (#[trigger] es@[j]).0, name) || moves(w, es@[j].1, name)))),
    decreases es, es@.len() - i,
{
    if i >= es@.len() {
        held_still(w, s, name);
    } else {
        let s1 = after_expr(w, after_expr(w, s, es@[i as int].0), es@[i as int].1);
        let here = (moves(w, (es@[i as int]).0, name) || moves(w, es@[i as int].1, name));
        let later = exists|j: int| i + 1 <= j < es@.len() && (moves(w, (#[trigger] es@[j]).0, name) || moves(w, es@[j].1, name));
        let k = after_expr(w, s, es@[i as int].0);
        held_expr(w, s, es@[i as int].0, name);
        held_now(w, s, k, name, moves(w, es@[i as int].0, name));
        held_expr(w, k, es@[i as int].1, name);
        held_on(w, s, k, s1, name, moves(w, es@[i as int].0, name), moves(w, es@[i as int].1, name));
        held_now(w, s, s1, name, here);
        held_entries(w, s1, es, i + 1, name);
        held_on(w, s, s1, after_entries(w, s1, es, i + 1), name, here, later);
        assert(here || later <==> (exists|j: int| i <= j < es@.len() && (moves(w, (#[trigger] es@[j]).0, name) || moves(w, es@[j].1, name)))) by {
            if here {
                let j = i as int;
                assert(i <= j < es@.len() && (moves(w, (es@[j]).0, name) || moves(w, es@[j].1, name)));
            }
        }
    }
}

proof fn held_parts(
    w: Surroundings,
    s: Standing,
    ps: Vec<StringPart>,
    i: nat,
    name: Seq<char>,
)
    requires
        held(w, s.vars, name),
        forall|j: int| 0 <= j < ps@.len() ==> (match #[trigger] ps@[j] { StringPart::Expr(e1) => blockless(e1), _ => true }),
    ensures
        kept_held(w, s, after_parts(w, s, ps, i), name, (exists|j: int| i <= j < ps@.len() && (match #[trigger] ps@[j] { StringPart::Expr(e1) => moves(w, e1, name), _ => false }))),
    decreases ps, ps@.len() - i,
{
    if i >= ps@.len() {
        held_still(w, s, name);
    } else {
        let s1 = match ps@[i as int] {
            StringPart::Expr(e1) => after_expr(w, s, e1),
            _ => s,
        };
        let here = (match ps@[i as int] { StringPart::Expr(e1) => moves(w, e1, name), _ => false });
        let later = exists|j: int| i + 1 <= j < ps@.len() && (match #[trigger] ps@[j] { StringPart::Expr(e1) => moves(w, e1, name), _ => false });
        match ps@[i as int] {
            StringPart::Expr(e1) => held_expr(w, s, e1, name),
            _ => held_still(w, s, name),
        }
        held_now(w, s, s1, name, here);
        held_parts(w, s1, ps, i + 1, name);
        held_on(w, s, s1, after_parts(w, s1, ps, i + 1), name, here, later);
        assert(here || later <==> (exists|j: int| i <= j < ps@.len() && (match #[trigger] ps@[j] { StringPart::Expr(e1) => moves(w, e1, name), _ => false }))) by {
            if here {
                let j = i as int;
                assert(i <= j < ps@.len() && (match ps@[j] { StringPart::Expr(e1) => moves(w, e1, name), _ => false }));
            }
        }
    }
}

proof fn held_steps(
    w: Surroundings,
    s: Standing,
    ps: Vec<PipelineStep>,
    i: nat,
    name: Seq<char>,
)
    requires
        held(w, s.vars, name),
        forall|j: int| 0 <= j < ps@.len() ==> step_blockless(#[trigger] ps@[j]),
    ensures
        kept_held(w, s, after_steps(w, s, ps, i), name, (exists|j: int| i <= j < ps@.len() && step_moves(w, #[trigger] ps@[j], name))),
    decreases ps, ps@.len() - i,
{
    if i >= ps@.len() {
        held_still(w, s, name);
    } else {
        let s1 = after_read_args(w, after_expr(w, s, ps@[i as int].function), ps@[i as int].extra_args, 0);
        let here = step_moves(w, ps@[i as int], name);
        let later = exists|j: int| i + 1 <= j < ps@.len() && step_moves(w, #[trigger] ps@[j], name);
        held_step(w, s, ps@[i as int], name);
        held_now(w, s, s1, name, here);
        held_steps(w, s1, ps, i + 1, name);
        held_on(w, s, s1, after_steps(w, s1, ps, i + 1), name, here, later);
        assert(here || later <==> (exists|j: int| i <= j < ps@.len() && step_moves(w, #[trigger] ps@[j], name))) by {
            if here {
                let j = i as int;
                assert(i <= j < ps@.len() && step_moves(w, ps@[j], name));
            }
        }
    }
}

proof fn held_step(
    w: Surroundings,
    s: Standing,
    step: PipelineStep,
    name: Seq<char>,
)
    requires
        held(w, s.vars, name),
        step_blockless(step),
    ensures
        kept_held(w, s, after_read_args(w, after_expr(w, s, step.function), step.extra_args, 0), name, step_moves(w, step, name)),
    decreases step,
{
    let s1 = after_expr(w, s, step.function);
    held_expr(w, s, step.function, name);
    held_now(w, s, s1, name, moves(w, step.function, name));
    held_read_args(w, s1, step.extra_args, 0, name);
    let more = exists|j: int|
        0 <= j < step.extra_args@.len() && moves(w, (#[trigger] step.extra_args@[j]).value, name);
    held_on(
        w,
        s,
        s1,
        after_read_args(w, s1, step.extra_args, 0),
        name,
        moves(w, step.function, name),
        more,
    );
}

proof fn held_expr(
    w: Surroundings,
    s: Standing,
    e: Expr,
    name: Seq<char>,
)
    requires
        held(w, s.vars, name),
        blockless(e),
    ensures
        kept_held(w, s, after_expr(w, s, e), name, moves(w, e, name)),
    decreases e, 0nat,
{
    match e {
        Expr::Ident(ident) => {
            reveal(kept_held);
        },
        Expr::Binary(l, _, r, _) => {
            let s1 = after_expr(w, s, *l);
            held_expr(w, s, *l, name);
            held_now(w, s, s1, name, moves(w, *l, name));
            held_expr(w, s1, *r, name);
            held_on(w, s, s1, after_expr(w, s1, *r), name, moves(w, *l, name), moves(w, *r, name));
        },
        Expr::Call(callee, args, _) => {
            let first = views_first_argument(w, *callee);
            let more = exists|j: int|
                0 <= j < args@.len() && (moves(w, (#[trigger] args@[j]).value, name) || hands_over(
                    args,
                    first,
                    j,
                    name,
                ));
            let s1 = after_expr(w, s, *callee);
            held_expr(w, s, *callee, name);
            held_now(w, s, s1, name, moves(w, *callee, name));
            held_args(w, s1, args, first, 0, name);
            held_on(w, s, s1, after_args(w, s1, args, first, 0), name, moves(w, *callee, name), more);
        },
        Expr::GenericCall(callee, _, args, _) => {
            let first = views_first_argument(w, *callee);
            let more = exists|j: int|
                0 <= j < args@.len() && (moves(w, (#[trigger] args@[j]).value, name) || hands_over(
                    args,
                    first,
                    j,
                    name,
                ));
            let s1 = after_expr(w, s, *callee);
            held_expr(w, s, *callee, name);
            held_now(w, s, s1, name, moves(w, *callee, name));
            held_args(w, s1, args, first, 0, name);
            held_on(w, s, s1, after_args(w, s1, args, first, 0), name, moves(w, *callee, name), more);
        },
        Expr::ListConstruct(es, _) => held_exprs(w, s, es, 0, name),
        Expr::MapConstruct(es, _) => held_entries(w, s, es, 0, name),
        Expr::StringInterpolation(ps, _) => held_parts(w, s, ps, 0, name),
        Expr::Pipeline(initial, steps, _) => {
            let more = exists|j: int| 0 <= j < steps@.len() && step_moves(w, #[trigger] steps@[j], name);
            let s1 = after_expr(w, s, *initial);
            held_expr(w, s, *initial, name);
            held_now(w, s, s1, name, moves(w, *initial, name));
            held_steps(w, s1, steps, 0, name);
            held_on(w, s, s1, after_steps(w, s1, steps, 0), name, moves(w, *initial, name), more);
        },
        Expr::InlineFn(_, _, body, _) => {
            reveal(kept_held);
        },
        Expr::Unary(_, e1, _) => held_expr(w, s, *e1, name),
        Expr::Paren(e1, _) => held_expr(w, s, *e1, name),
        Expr::View(e1, _) => held_expr(w, s, *e1, name),
        Expr::FieldAccess(e1, _, _) => held_expr(w, s, *e1, name),
        Expr::OkOf(e1, _) => held_expr(w, s, *e1, name),
        Expr::FailOf(e1, _) => held_expr(w, s, *e1, name),
        Expr::SomeOf(e1, _) => held_expr(w, s, *e1, name),
        Expr::Default(e1, _) => held_expr(w, s, *e1, name),
        Expr::Declassify(e1, _) => held_expr(w, s, *e1, name),
        Expr::Coarsen(e1, _) => held_expr(w, s, *e1, name),
        Expr::At(e1, _, _) => held_expr(w, s, *e1, name),
        Expr::Spawn(e1, _) => held_expr(w, s, *e1, name),
        Expr::Send(e1, _) => held_expr(w, s, *e1, name),
        Expr::Ask(e1, _) => held_expr(w, s, *e1, name),
        Expr::Clone(e1, _) => held_expr(w, s, *e1, name),
        Expr::Run(e1, _) => held_expr(w, s, *e1, name),
        Expr::Join(e1, _) => held_expr(w, s, *e1, name),
        Expr::Cancel(e1, _) => held_expr(w, s, *e1, name),
        _ => held_still(w, s, name),
    }
}

/// An owned variable is gone after an expression exactly where the expression passes its
/// value on: as an argument that is not viewed, however deep the call lies. Reading it,
/// viewing it or looking at a field leaves it owned.
pub proof fn law_values_are_gone_once_passed_on(w: Surroundings, s: Standing, e: Expr, name: Seq<char>)
    requires
        held(w, s.vars, name),
        !is_gone(s.vars, name),
        blockless(e),
    ensures
        after_expr(w, s, e).vars.contains_key(name),
        is_gone(after_expr(w, s, e).vars, name) <==> moves(w, e, name),
{
    held_expr(w, s, e, name);
    reveal(kept_held);
}

/// The expression that a statement evaluates first.
pub open spec fn evaluated(stmt: Stmt) -> Option<Expr> {
    match stmt {
        Stmt::VarDecl(d) => Some(d.value),
        Stmt::Return(r) => r.value,
        Stmt::Respond(r) => Some(r.value),
        Stmt::Expr(e) => Some(e.expr),
        Stmt::Breakpoint(b) => b.condition,
        _ => None,
    }
}

pub open spec fn declares(stmt: Stmt, name: Seq<char>) -> bool {
    match stmt {
        Stmt::VarDecl(d) => d.name.name@ == name,
        _ => false,
    }
}

/// Statements that only evaluate an expression pass on what it passes on. A name that is
/// declared is owned anew.
pub proof fn law_statements_pass_on_what_they_evaluate(w: Surroundings, s: Standing, stmt: Stmt, name: Seq<char>)
    requires
        held(w, s.vars, name),
        !is_gone(s.vars, name),
        evaluated(stmt) is Some,
        blockless(evaluated(stmt)->0),
    ensures
        ({
            let after = after_stmt(w, s, stmt);
            &&& after.vars.contains_key(name)
            &&& after.reports == after_expr(w, s, evaluated(stmt)->0).reports
            &&& if declares(stmt, name) {
                after.vars[name].state == OwnershipState::Owned
            } else {
                is_gone(after.vars, name) <==> moves(w, evaluated(stmt)->0, name)
            }
        }),
{
    held_expr(w, s, evaluated(stmt)->0, name);
    reveal(kept_held);
}

/// A loop over a variable consumes it, unless it goes over a view of it, whatever the
/// body does besides.
pub proof fn law_loops_consume_what_they_go_over(w: Surroundings, s: Standing, f: ForStmt, ident: Ident)
    requires
        held(w, s.vars, ident.name@),
        !is_gone(s.vars, ident.name@),
        f.iterable == Expr::Ident(ident),
        f.variable.name@ != ident.name@,
        !block_binds(f.body, ident.name@),
    ensures
        !f.view ==> gone(w, after_stmt(w, s, Stmt::For(f)).vars, ident.name@, ident.span),
        f.view && f.body.stmts@.len() == 0 ==> !is_gone(
            after_stmt(w, s, Stmt::For(f)).vars,
            ident.name@,
        ),
{
    let s1 = if f.view {
        after_expr(w, s, f.iterable)
    } else {
        after_consuming(w, s, f.iterable, expr_span(f.iterable))
    };
    assert(expr_span(f.iterable) == ident.span);
    let s2 = bind(s1, f.variable.name@, fresh_info(f.view, false, TypeInterner::ERROR));
    assert(after_stmt(w, s, Stmt::For(f)) == after_block(w, s2, f.body, 0)) by {
        reveal_with_fuel(after_for, 2);
    }
    if !f.view {
        gone_block(w, s2, f.body, 0, ident, ident.span);
        reveal(kept_gone);
    }
}

/// The loop variable belongs to the loop, or is a view where the loop goes over one.
pub proof fn law_loop_variables_are_owned_or_viewed(w: Surroundings, s: Standing, f: ForStmt)
    requires
        f.body.stmts@.len() == 0,
    ensures
        after_stmt(w, s, Stmt::For(f)).vars[f.variable.name@].state == if f.view {
            OwnershipState::Viewed
        } else {
            OwnershipState::Owned
        },
{
    let s1 = if f.view {
        after_expr(w, s, f.iterable)
    } else {
        after_consuming(w, s, f.iterable, expr_span(f.iterable))
    };
    let s2 = bind(s1, f.variable.name@, fresh_info(f.view, false, TypeInterner::ERROR));
    assert(after_stmt(w, s, Stmt::For(f)) == after_block(w, s2, f.body, 0)) by {
        reveal_with_fuel(after_for, 2);
    }
}

/// Parameters are owned by the function, or views where they say so.
pub proof fn law_parameters_are_owned_or_viewed(params: Seq<Param>, i: int)
    requires
        0 <= i < params.len(),
        forall|j: int| i < j < params.len() ==> (#[trigger] params[j]).name.name@ != params[i].name.name@,
    ensures
        ({
            let vars = with_params(Map::empty(), params, 0);
            let name = params[i].name.name@;
            &&& vars.contains_key(name)
            &&& vars[name].mutable == params[i].mutable
            &&& vars[name].state == if params[i].view {
                OwnershipState::Viewed
            } else {
                OwnershipState::Owned
            }
        }),
{
    params_from(Map::empty(), params, 0, i);
}

proof fn params_from(vars: Vars, params: Seq<Param>, from: nat, i: int)
    requires
        0 <= i < params.len(),
        forall|j: int| i < j < params.len() ==> (#[trigger] params[j]).name.name@ != params[i].name.name@,
        from > i ==> vars.contains_key(params[i].name.name@) && vars[params[i].name.name@] == fresh_info(
            params[i].view,
            params[i].mutable,
            ownership_type(params[i].ty),
        ),
    ensures
        with_params(vars, params, from).contains_key(params[i].name.name@),
        with_params(vars, params, from)[params[i].name.name@] == fresh_info(
            params[i].view,
            params[i].mutable,
            ownership_type(params[i].ty),
        ),
    decreases params.len() - from,
{
    if from < params.len() {
        let p = params[from as int];
        params_from(
            vars.insert(p.name.name@, fresh_info(p.view, p.mutable, ownership_type(p.ty))),
            params,
            from + 1,
            i,
        );
    }
}

/// Numbers, texts, booleans and `nothing` are copied; every other value moves.
pub proof fn law_plain_values_are_copied(t: Type)
    ensures
        copyable(t) <==> numeric(t) || t is String || t is Bool || t is Nothing || t is Error,
{
}

/// A variable of a written primitive type is copied exactly where values of that type
/// are. Views are as what they view; lists, maps, functions and declared types move.
pub proof fn law_written_types_tell_what_is_copied(types: Types, t: TypeExpr)
    requires
        sound(types),
    ensures
        match t {
            TypeExpr::Named(ident) => match primitive_named(ident.name@) {
                Some(p) => copyable(ty(types, ownership_type(t))) <==> copyable(p),
                None => copyable(ty(types, ownership_type(t))) <==> ident.name@ == "TypeKind"@
                    || ident.name@ == "TypePrimitive"@,
            },
            TypeExpr::View(inner, _) => ownership_type(t) == ownership_type(*inner),
            _ => !copyable(ty(types, ownership_type(t))),
        },
{
    lemma_basics(types);
    reveal_strlit("TypeKind");
    reveal_strlit("TypePrimitive");
    assert("TypeKind"@.len() == 8 && "TypeKind"@[0] == 'T');
    assert("TypePrimitive"@.len() == 13 && "TypePrimitive"@[0] == 'T');
    reveal_strlit("int8");
    assert("int8"@.len() == 4 && "int8"@[0] == 'i' && "int8"@[3] == '8');
    reveal_strlit("int16");
    assert("int16"@.len() == 5 && "int16"@[0] == 'i' && "int16"@[4] == '6');
    reveal_strlit("int32");
    assert("int32"@.len() == 5 && "int32"@[0] == 'i' && "int32"@[4] == '2');
    reveal_strlit("int64");
    assert("int64"@.len() == 5 && "int64"@[0] == 'i' && "int64"@[4] == '4');
    reveal_strlit("uint8");
    assert("uint8"@.len() == 5 && "uint8"@[0] == 'u' && "uint8"@[4] == '8');
    reveal_strlit("uint16");
    assert("uint16"@.len() == 6 && "uint16"@[0] == 'u' && "uint16"@[5] == '6');
    reveal_strlit("uint32");
    assert("uint32"@.len() == 6 && "uint32"@[0] == 'u' && "uint32"@[5] == '2');
    reveal_strlit("uint64");
    assert("uint64"@.len() == 6 && "uint64"@[0] == 'u' && "uint64"@[5] == '4');
    reveal_strlit("float32");
    assert("float32"@.len() == 7 && "float32"@[0] == 'f' && "float32"@[6] == '2');
    reveal_strlit("float64");
    assert("float64"@.len() == 7 && "float64"@[0] == 'f' && "float64"@[6] == '4');
    reveal_strlit("string");
    assert("string"@.len() == 6 && "string"@[0] == 's' && "string"@[5] == 'g');
    reveal_strlit("bool");
    assert("bool"@.len() == 4 && "bool"@[0] == 'b' && "bool"@[3] == 'l');
    reveal_strlit("bytes");
    assert("bytes"@.len() == 5 && "bytes"@[0] == 'b' && "bytes"@[4] == 's');
    reveal_strlit("nothing");
    assert("nothing"@.len() == 7 && "nothing"@[0] == 'n' && "nothing"@[6] == 'g');
    reveal_strlit("TypeConstruction");
    assert("TypeConstruction"@.len() == 16 && "TypeConstruction"@[0] == 'T' && "TypeConstruction"@[15] == 'n');
}

/// The collection builtins view the collection that they are called on.
pub proof fn law_collection_builtins_keep_their_collection(w: Surroundings, callee: Expr, name: Seq<char>)
    requires
        dotted_name(callee) == Some(name),
    ensures
        name == "map.length"@
            || name == "map.has"@
            || name == "map.get"@
            || name == "map.insert"@
            || name == "map.remove"@
            || name == "map.keys"@
            || name == "map.values"@
            || name == "map.is_empty"@
            || name == "list.length"@
            || name == "list.get"@
            || name == "list.first"@
            || name == "list.last"@
            || name == "list.append"@
            || name == "list.is_empty"@
            || name == "list.skip"@
            || name == "list.take"@
            || name == "list.reverse"@
            || name == "list.sort"@
            || name == "list.contains"@
            || name == "list.index_of"@
            || name == "list.remove"@
            || name == "list.concat"@
            || name == "list.flatten"@
            || name == "list.unique"@
            || name == "list.zip"@
            || name == "list.filter"@
            || name == "list.map"@
            || name == "list.find"@
            || name == "list.sort_by"@
            || name == "list.all"@
            || name == "list.any"@
            || name == "list.count"@
            || name == "list.sum"@
            || name == "list.group_by"@
            || name == "random.choice"@
            || name == "random.shuffle"@
            || name == "math.average"@
            || name == "math.median"@
            || name == "list.chunk"@
            || name == "list.sort_by_index"@
            || name == "list.is_sorted"@
            || name == "list.all_elements_in"@
            || name == "map.get_or"@
            || name == "map.merge"@
            || name == "map.contains_key"@
            || name == "map.set"@ ==> views_first_argument(
            w,
            callee,
        ),
        views_first_argument(w, callee) ==> w.facades.contains(name) || name == "map.length"@
            || name == "map.has"@
            || name == "map.get"@
            || name == "map.insert"@
            || name == "map.remove"@
            || name == "map.keys"@
            || name == "map.values"@
            || name == "map.is_empty"@
            || name == "list.length"@
            || name == "list.get"@
            || name == "list.first"@
            || name == "list.last"@
            || name == "list.append"@
            || name == "list.is_empty"@
            || name == "list.skip"@
            || name == "list.take"@
            || name == "list.reverse"@
            || name == "list.sort"@
            || name == "list.contains"@
            || name == "list.index_of"@
            || name == "list.remove"@
            || name == "list.concat"@
            || name == "list.flatten"@
            || name == "list.unique"@
            || name == "list.zip"@
            || name == "list.filter"@
            || name == "list.map"@
            || name == "list.find"@
            || name == "list.sort_by"@
            || name == "list.all"@
            || name == "list.any"@
            || name == "list.count"@
            || name == "list.sum"@
            || name == "list.group_by"@
            || name == "random.choice"@
            || name == "random.shuffle"@
            || name == "math.average"@
            || name == "math.median"@
            || name == "list.chunk"@
            || name == "list.sort_by_index"@
            || name == "list.is_sorted"@
            || name == "list.all_elements_in"@
            || name == "map.get_or"@
            || name == "map.merge"@
            || name == "map.contains_key"@
            || name == "map.set"@,
{
}

} // verus!
