//! What holds of the ownership analysis as a whole.
use vstd::prelude::*;

use crate::ast::{
    expr_span, Block, CallArg, Expr, ForStmt, FunctionDef, Ident, IfStmt, Item, MatchStmt, Module,
    Param, PipelineStep, Stmt, StringPart, TypeExpr, VarDecl,
};
use crate::diagnostics::{error, error_after, ErrorCode};
use crate::ownership::{
    after_args, after_arms, after_block, after_consuming, after_decl, after_else_ifs,
    after_entries, after_expr, after_exprs, after_for, after_function, after_if, after_item, after_items,
    after_optional, after_parts, after_read_args, after_steps, after_stmt, bind, branch,
    consume_name, copyable, exits, first_consuming, fresh_info, join, joined_info, module_reports,
    ownership_type, read, rebind, report, views_first_argument, with_params, Branching,
    OwnershipState, Standing, Surroundings, VarInfo, Vars,
};
use crate::span::Span;
use crate::steady::goes_on;
use crate::types::{ty, TypeInterner};

verus! {

/// Whether it is known of every consumed variable, and of no other, where it was
/// consumed.
pub open spec fn places_known(vars: Vars) -> bool {
    forall|name: Seq<char>| #[trigger]
        vars.contains_key(name) ==> (vars[name].state == OwnershipState::Consumed <==> vars[name].consumed_span
            is Some)
}

/// The two errors of ownership.
pub open spec fn about_ownership(code: ErrorCode) -> bool {
    code == ErrorCode::UseAfterMove || code == ErrorCode::CannotConsumeView
}

/// Whether `t` can come after `s`: reports are only added, and only on ownership;
/// no variable is forgotten; and it stays known where variables were consumed.
#[verifier::opaque]
pub open spec fn follows(s: Standing, t: Standing) -> bool {
    &&& goes_on(s.reports, t.reports)
    &&& forall|i: int| s.reports.len() <= i < t.reports.len() ==> about_ownership((#[trigger] t.reports[i]).code)
    &&& forall|name: Seq<char>| #[trigger] s.vars.contains_key(name) ==> t.vars.contains_key(name)
    &&& places_known(s.vars) ==> places_known(t.vars)
}

proof fn follows_itself(s: Standing)
    ensures
        follows(s, s),
{
    reveal(follows);
}

proof fn follows_on(a: Standing, b: Standing, c: Standing)
    requires
        follows(a, b),
        follows(b, c),
    ensures
        follows(a, c),
{
    reveal(follows);
    assert forall|i: int| 0 <= i < a.reports.len() implies a.reports[i] == #[trigger] c.reports[i] by {
        assert(a.reports[i] == b.reports[i]);
    }
    assert forall|i: int| a.reports.len() <= i < c.reports.len() implies about_ownership(
        (#[trigger] c.reports[i]).code,
    ) by {
        if i < b.reports.len() {
            assert(c.reports[i] == b.reports[i]);
        }
    }
}

proof fn follows_report(s: Standing, code: ErrorCode, span: Span, args: Seq<Seq<char>>)
    requires
        about_ownership(code),
    ensures
        follows(s, report(s, error(code, span, args))),
        forall|earlier: Span| #[trigger]
            follows(s, report(s, error_after(code, span, args, earlier))),
{
    reveal(follows);
}

proof fn follows_bind(s: Standing, name: Seq<char>, info: VarInfo)
    requires
        info.state == OwnershipState::Consumed <==> info.consumed_span is Some,
    ensures
        follows(s, bind(s, name, info)),
{
    reveal(follows);
}

proof fn follows_read(s: Standing, ident: Ident)
    ensures
        follows(s, read(s, ident)),
{
    follows_itself(s);
    follows_report(s, ErrorCode::UseAfterMove, ident.span, seq![ident.name@]);
}

proof fn follows_consume(w: Surroundings, s: Standing, name: Seq<char>, name_span: Span, span: Span)
    ensures
        follows(s, consume_name(w, s, name, name_span, span)),
{
    follows_itself(s);
    follows_report(s, ErrorCode::UseAfterMove, name_span, seq![name]);
    follows_report(s, ErrorCode::CannotConsumeView, name_span, seq![name]);
    follows_bind(
        s,
        name,
        VarInfo { state: OwnershipState::Consumed, consumed_span: Some(span), ..s.vars[name] },
    );
}

proof fn follows_consuming(w: Surroundings, s: Standing, e: Expr, span: Span)
    ensures
        follows(s, after_consuming(w, s, e, span)),
    decreases e, 1nat,
{
    match e {
        Expr::Ident(ident) => follows_consume(w, s, ident.name@, ident.span, span),
        Expr::View(inner, _) => follows_expr(w, s, *inner),
        _ => follows_expr(w, s, e),
    }
}

proof fn follows_args(w: Surroundings, s: Standing, args: Vec<CallArg>, view_first: bool, i: nat)
    ensures
        follows(s, after_args(w, s, args, view_first, i)),
    decreases args, args@.len() - i,
{
    if i >= args@.len() {
        follows_itself(s);
    } else {
        let arg = args@[i as int];
        let next = match arg.value {
            Expr::View(inner, _) => after_expr(w, s, *inner),
            _ => if view_first && i == 0 {
                after_expr(w, s, arg.value)
            } else {
                after_consuming(w, s, arg.value, arg.span)
            },
        };
        follows_expr(w, s, arg.value);
        follows_consuming(w, s, arg.value, arg.span);
        follows_args(w, next, args, view_first, i + 1);
        follows_on(s, next, after_args(w, next, args, view_first, i + 1));
    }
}

proof fn follows_read_args(w: Surroundings, s: Standing, args: Vec<CallArg>, i: nat)
    ensures
        follows(s, after_read_args(w, s, args, i)),
    decreases args, args@.len() - i,
{
    if i >= args@.len() {
        follows_itself(s);
    } else {
        let next = after_expr(w, s, args@[i as int].value);
        follows_expr(w, s, args@[i as int].value);
        follows_read_args(w, next, args, i + 1);
        follows_on(s, next, after_read_args(w, next, args, i + 1));
    }
}

proof fn follows_exprs(w: Surroundings, s: Standing, es: Vec<Expr>, i: nat)
    ensures
        follows(s, after_exprs(w, s, es, i)),
    decreases es, es@.len() - i,
{
    if i >= es@.len() {
        follows_itself(s);
    } else {
        let next = after_expr(w, s, es@[i as int]);
        follows_expr(w, s, es@[i as int]);
        follows_exprs(w, next, es, i + 1);
        follows_on(s, next, after_exprs(w, next, es, i + 1));
    }
}

proof fn follows_entries(w: Surroundings, s: Standing, es: Vec<(Expr, Expr)>, i: nat)
    ensures
        follows(s, after_entries(w, s, es, i)),
    decreases es, es@.len() - i,
{
    if i >= es@.len() {
        follows_itself(s);
    } else {
        let s1 = after_expr(w, s, es@[i as int].0);
        let s2 = after_expr(w, s1, es@[i as int].1);
        follows_expr(w, s, es@[i as int].0);
        follows_expr(w, s1, es@[i as int].1);
        follows_on(s, s1, s2);
        follows_entries(w, s2, es, i + 1);
        follows_on(s, s2, after_entries(w, s2, es, i + 1));
    }
}

proof fn follows_parts(w: Surroundings, s: Standing, ps: Vec<StringPart>, i: nat)
    ensures
        follows(s, after_parts(w, s, ps, i)),
    decreases ps, ps@.len() - i,
{
    if i >= ps@.len() {
        follows_itself(s);
    } else {
        let next = match ps@[i as int] {
            StringPart::Expr(e) => after_expr(w, s, e),
            _ => s,
        };
        match ps@[i as int] {
            StringPart::Expr(e) => follows_expr(w, s, e),
            _ => follows_itself(s),
        }
        follows_parts(w, next, ps, i + 1);
        follows_on(s, next, after_parts(w, next, ps, i + 1));
    }
}

proof fn follows_steps(w: Surroundings, s: Standing, ps: Vec<PipelineStep>, i: nat)
    ensures
        follows(s, after_steps(w, s, ps, i)),
    decreases ps, ps@.len() - i,
{
    if i >= ps@.len() {
        follows_itself(s);
    } else {
        let s1 = after_expr(w, s, ps@[i as int].function);
        let s2 = after_read_args(w, s1, ps@[i as int].extra_args, 0);
        follows_expr(w, s, ps@[i as int].function);
        follows_read_args(w, s1, ps@[i as int].extra_args, 0);
        follows_on(s, s1, s2);
        follows_steps(w, s2, ps, i + 1);
        follows_on(s, s2, after_steps(w, s2, ps, i + 1));
    }
}

/// Evaluating an expression only adds reports, all of them on ownership, forgets
/// no variable, and leaves it known where each consumed variable was consumed.
pub proof fn follows_expr(w: Surroundings, s: Standing, e: Expr)
    ensures
        follows(s, after_expr(w, s, e)),
    decreases e, 0nat,
{
    match e {
        Expr::Ident(ident) => follows_read(s, ident),
        Expr::Binary(l, _, r, _) => {
            let s1 = after_expr(w, s, *l);
            follows_expr(w, s, *l);
            follows_expr(w, s1, *r);
            follows_on(s, s1, after_expr(w, s1, *r));
        },
        Expr::Call(callee, args, _) => {
            let s1 = after_expr(w, s, *callee);
            let view_first = views_first_argument(w, *callee);
            follows_expr(w, s, *callee);
            follows_args(w, s1, args, view_first, 0);
            follows_on(s, s1, after_args(w, s1, args, view_first, 0));
        },
        Expr::GenericCall(callee, _, args, _) => {
            let s1 = after_expr(w, s, *callee);
            let view_first = views_first_argument(w, *callee);
            follows_expr(w, s, *callee);
            follows_args(w, s1, args, view_first, 0);
            follows_on(s, s1, after_args(w, s1, args, view_first, 0));
        },
        Expr::ListConstruct(es, _) => follows_exprs(w, s, es, 0),
        Expr::MapConstruct(es, _) => follows_entries(w, s, es, 0),
        Expr::Handle(target, _, body, _) => {
            let s1 = after_expr(w, s, *target);
            follows_expr(w, s, *target);
            follows_block(w, s1, body, 0);
            follows_on(s, s1, after_block(w, s1, body, 0));
        },
        Expr::StringInterpolation(ps, _) => follows_parts(w, s, ps, 0),
        Expr::Pipeline(initial, steps, _) => {
            let s1 = after_expr(w, s, *initial);
            follows_expr(w, s, *initial);
            follows_steps(w, s1, steps, 0);
            follows_on(s, s1, after_steps(w, s1, steps, 0));
        },
        Expr::InlineFn(_, _, body, _) => {
            follows_block(w, s, body, 0);
            reveal(follows);
        },
        Expr::Unary(_, x, _) => follows_expr(w, s, *x),
        Expr::Paren(x, _) => follows_expr(w, s, *x),
        Expr::View(x, _) => follows_expr(w, s, *x),
        Expr::FieldAccess(x, _, _) => follows_expr(w, s, *x),
        Expr::OkOf(x, _) => follows_expr(w, s, *x),
        Expr::FailOf(x, _) => follows_expr(w, s, *x),
        Expr::SomeOf(x, _) => follows_expr(w, s, *x),
        Expr::Default(x, _) => follows_expr(w, s, *x),
        Expr::Declassify(x, _) => follows_expr(w, s, *x),
        Expr::Coarsen(x, _) => follows_expr(w, s, *x),
        Expr::At(x, _, _) => follows_expr(w, s, *x),
        Expr::Spawn(x, _) => follows_expr(w, s, *x),
        Expr::Send(x, _) => follows_expr(w, s, *x),
        Expr::Ask(x, _) => follows_expr(w, s, *x),
        Expr::Clone(x, _) => follows_expr(w, s, *x),
        Expr::Run(x, _) => follows_expr(w, s, *x),
        Expr::Join(x, _) => follows_expr(w, s, *x),
        Expr::Cancel(x, _) => follows_expr(w, s, *x),
        _ => follows_itself(s),
    }
}

/// The same of a block, from a statement on.
pub proof fn follows_block(w: Surroundings, s: Standing, b: Block, i: nat)
    ensures
        follows(s, after_block(w, s, b, i)),
    decreases b, b.stmts@.len() - i,
{
    if i >= b.stmts@.len() {
        follows_itself(s);
    } else {
        let next = after_stmt(w, s, b.stmts@[i as int]);
        follows_stmt(w, s, b.stmts@[i as int]);
        if !exits(b.stmts@[i as int]) {
            follows_block(w, next, b, i + 1);
            follows_on(s, next, after_block(w, next, b, i + 1));
        }
    }
}

proof fn follows_decl(w: Surroundings, s: Standing, d: VarDecl)
    ensures
        follows(s, after_decl(w, s, d)),
    decreases d, 0nat,
{
    let s1 = after_expr(w, s, d.value);
    let info = fresh_info(false, d.mutable, ownership_type(d.ty));
    follows_expr(w, s, d.value);
    follows_bind(s1, d.name.name@, info);
    follows_on(s, s1, bind(s1, d.name.name@, info));
}

proof fn follows_optional(w: Surroundings, s: Standing, e: Option<Expr>)
    ensures
        follows(s, after_optional(w, s, e)),
    decreases e, 0nat,
{
    match e {
        Some(x) => follows_expr(w, s, x),
        None => follows_itself(s),
    }
}

/// Where a chain of conditions stands outside of its branches.
pub open spec fn between(b: Branching) -> Standing {
    Standing { vars: b.conditions, reports: b.reports }
}

/// Whether the end of every branch that can be reached leaves it known where
/// variables were consumed, if it is known before the branches.
pub open spec fn ends_known(s: Standing, b: Branching) -> bool {
    places_known(s.vars) ==> forall|i: int| 0 <= i < b.reached.len() ==> places_known(#[trigger] b.reached[i])
}

proof fn follows_branch(w: Surroundings, s: Standing, b: Branching, block: Block)
    requires
        follows(s, between(b)),
        ends_known(s, b),
    ensures
        follows(s, between(branch(w, b, block))),
        ends_known(s, branch(w, b, block)),
    decreases block, block.stmts@.len() + 1,
{
    follows_block(w, between(b), block, 0);
    reveal(follows);
    let t = after_block(w, between(b), block, 0);
    follows_on(s, between(b), t);
    assert(places_known(s.vars) ==> places_known(b.conditions));
    let after = branch(w, b, block);
    assert forall|i: int|
        places_known(s.vars) && 0 <= i < after.reached.len() implies places_known(
        #[trigger] after.reached[i],
    ) by {
        if i < b.reached.len() {
            assert(after.reached[i] == b.reached[i]);
        }
    }
}

proof fn follows_else_ifs(w: Surroundings, s: Standing, b: Branching, else_ifs: Vec<(Expr, Block)>, i: nat)
    requires
        follows(s, between(b)),
        ends_known(s, b),
    ensures
        follows(s, between(after_else_ifs(w, b, else_ifs, i))),
        ends_known(s, after_else_ifs(w, b, else_ifs, i)),
    decreases else_ifs, else_ifs@.len() - i,
{
    if i < else_ifs@.len() {
        let (condition, block) = else_ifs@[i as int];
        let t = after_expr(w, between(b), condition);
        follows_expr(w, between(b), condition);
        follows_on(s, between(b), t);
        let evaluated = Branching { conditions: t.vars, reached: b.reached, reports: t.reports };
        assert(between(evaluated) == t);
        follows_branch(w, s, evaluated, block);
        follows_else_ifs(w, s, branch(w, evaluated, block), else_ifs, i + 1);
    }
}

proof fn known_when_joined(before: Vars, branches: Seq<Vars>)
    requires
        places_known(before),
        forall|i: int| 0 <= i < branches.len() ==> places_known(#[trigger] branches[i]),
    ensures
        places_known(join(before, branches)),
{
    if branches.len() > 0 {
        assert forall|name: Seq<char>| #[trigger]
            before.contains_key(name) implies ({
            let info = joined_info(before[name], branches, name);
            info.state == OwnershipState::Consumed <==> info.consumed_span is Some
        }) by {
            if !(exists|i: int| 0 <= i < branches.len() && !(#[trigger] branches[i]).contains_key(name)) {
                let k = first_consuming(branches, name, 0);
                first_consuming_in_range(branches, name, 0);
                if k < branches.len() {
                    assert(branches[k as int].contains_key(name));
                    assert(places_known(branches[k as int]));
                } else {
                    let last = branches.len() - 1;
                    assert(branches[last].contains_key(name));
                    assert(places_known(branches[last]));
                }
            }
        }
    }
}

proof fn first_consuming_in_range(branches: Seq<Vars>, name: Seq<char>, i: nat)
    requires
        i <= branches.len(),
    ensures
        i <= first_consuming(branches, name, i) <= branches.len(),
        first_consuming(branches, name, i) < branches.len() ==> branches[first_consuming(
            branches,
            name,
            i,
        ) as int][name].state == OwnershipState::Consumed,
        forall|j: int|
            i <= j < first_consuming(branches, name, i) ==> (#[trigger] branches[j])[name].state
                != OwnershipState::Consumed,
    decreases branches.len() - i,
{
    if i < branches.len() && branches[i as int][name].state != OwnershipState::Consumed {
        first_consuming_in_range(branches, name, i + 1);
    }
}

proof fn follows_if(w: Surroundings, s: Standing, i: IfStmt)
    ensures
        follows(s, after_if(w, s, i)),
    decreases i, 0nat,
{
    let s1 = after_expr(w, s, i.condition);
    follows_expr(w, s, i.condition);
    let b0 = Branching { conditions: s1.vars, reached: Seq::empty(), reports: s1.reports };
    assert(between(b0) == s1);
    follows_branch(w, s, b0, i.then_block);
    let b1 = branch(w, b0, i.then_block);
    follows_else_ifs(w, s, b1, i.else_ifs, 0);
    let b2 = after_else_ifs(w, b1, i.else_ifs, 0);
    let b3 = match i.else_block {
        Some(block) => branch(w, b2, block),
        None => Branching { reached: b2.reached.push(b2.conditions), ..b2 },
    };
    reveal(follows);
    match i.else_block {
        Some(block) => follows_branch(w, s, b2, block),
        None => {
            assert(between(b3) == between(b2));
            assert forall|j: int|
                places_known(s.vars) && 0 <= j < b3.reached.len() implies places_known(
                #[trigger] b3.reached[j],
            ) by {
                if j < b2.reached.len() {
                    assert(b3.reached[j] == b2.reached[j]);
                }
            }
        },
    }
    if places_known(s.vars) {
        known_when_joined(b3.conditions, b3.reached);
    }
}

proof fn follows_for(w: Surroundings, s: Standing, f: ForStmt)
    ensures
        follows(s, after_for(w, s, f)),
    decreases f, 0nat,
{
    let s1 = if f.view {
        after_expr(w, s, f.iterable)
    } else {
        after_consuming(w, s, f.iterable, expr_span(f.iterable))
    };
    follows_expr(w, s, f.iterable);
    follows_consuming(w, s, f.iterable, expr_span(f.iterable));
    let info = fresh_info(f.view, false, TypeInterner::ERROR);
    let s2 = bind(s1, f.variable.name@, info);
    follows_bind(s1, f.variable.name@, info);
    follows_on(s, s1, s2);
    follows_block(w, s2, f.body, 0);
    follows_on(s, s2, after_block(w, s2, f.body, 0));
}

proof fn follows_arms(w: Surroundings, s: Standing, m: MatchStmt, i: nat)
    ensures
        follows(s, after_arms(w, s, m, i)),
    decreases m, m.arms@.len() - i,
{
    if i >= m.arms@.len() {
        follows_itself(s);
    } else {
        let next = after_block(w, s, m.arms@[i as int].body, 0);
        follows_block(w, s, m.arms@[i as int].body, 0);
        follows_arms(w, next, m, i + 1);
        follows_on(s, next, after_arms(w, next, m, i + 1));
    }
}

proof fn follows_rebind(s: Standing, name: Seq<char>)
    ensures
        follows(s, rebind(s, name)),
{
    follows_itself(s);
    follows_bind(
        s,
        name,
        VarInfo { state: OwnershipState::Owned, consumed_span: None, ..s.vars[name] },
    );
}

/// The same of a statement.
pub proof fn follows_stmt(w: Surroundings, s: Standing, stmt: Stmt)
    ensures
        follows(s, after_stmt(w, s, stmt)),
    decreases stmt, 0nat,
{
    match stmt {
        Stmt::VarDecl(d) => follows_decl(w, s, d),
        Stmt::Assign(a) => {
            let s1 = after_expr(w, s, a.value);
            follows_expr(w, s, a.value);
            match a.target {
                Expr::Ident(ident) => {
                    follows_rebind(s1, ident.name@);
                    follows_on(s, s1, rebind(s1, ident.name@));
                },
                _ => {
                    follows_expr(w, s1, a.target);
                    follows_on(s, s1, after_expr(w, s1, a.target));
                },
            }
        },
        Stmt::Return(r) => follows_optional(w, s, r.value),
        Stmt::ComptimeTypeBind(b) => follows_block(w, s, b.body, 0),
        Stmt::If(i) => follows_if(w, s, i),
        Stmt::For(f) => follows_for(w, s, f),
        Stmt::While(l) => {
            let s1 = after_expr(w, s, l.condition);
            follows_expr(w, s, l.condition);
            follows_block(w, s1, l.body, 0);
            follows_on(s, s1, after_block(w, s1, l.body, 0));
        },
        Stmt::Expr(e) => follows_expr(w, s, e.expr),
        Stmt::Assert(a) => {
            let s1 = after_expr(w, s, a.condition);
            follows_expr(w, s, a.condition);
            follows_optional(w, s1, a.message);
            follows_on(s, s1, after_optional(w, s1, a.message));
        },
        Stmt::Trace(t) => follows_read(s, t.name),
        Stmt::Breakpoint(b) => follows_optional(w, s, b.condition),
        Stmt::Match(m) => {
            let s1 = after_expr(w, s, m.expr);
            follows_expr(w, s, m.expr);
            follows_arms(w, s1, m, 0);
            follows_on(s, s1, after_arms(w, s1, m, 0));
        },
        Stmt::Respond(r) => follows_expr(w, s, r.value),
        _ => follows_itself(s),
    }
}

proof fn follows_function(w: Surroundings, s: Standing, f: FunctionDef)
    ensures
        follows(s, after_function(w, s, f)),
{
    let inside = Standing {
        vars: with_params(Map::empty(), f.params@, 0),
        reports: s.reports,
    };
    follows_block(w, inside, f.body, 0);
    reveal(follows);
}

proof fn follows_items(w: Surroundings, s: Standing, items: Seq<Item>, i: nat)
    ensures
        follows(s, after_items(w, s, items, i)),
    decreases items.len() - i,
{
    if i >= items.len() {
        follows_itself(s);
    } else {
        let next = after_item(w, s, items[i as int]);
        match items[i as int] {
            Item::Function(f) => follows_function(w, s, f),
            Item::VarDecl(d) => follows_decl(w, s, d),
            _ => follows_itself(s),
        }
        follows_items(w, next, items, i + 1);
        follows_on(s, next, after_items(w, next, items, i + 1));
    }
}

/// Every report of the analysis is about ownership.
pub proof fn law_module_reports_are_about_ownership(w: Surroundings, m: Module)
    ensures
        forall|i: int|
            0 <= i < module_reports(w, m).len() ==> about_ownership((#[trigger] module_reports(w, m)[i]).code),
{
    let start = Standing { vars: Map::empty(), reports: Seq::empty() };
    follows_items(w, start, m.items@, 0);
    reveal(follows);
}

// ---------------------------------------------------------------------------
// Moves
// ---------------------------------------------------------------------------

/// Whether `name` is a variable that owns a value which moves.
pub open spec fn owns_movable(w: Surroundings, s: Standing, name: Seq<char>) -> bool {
    s.vars.contains_key(name) && s.vars[name].state == OwnershipState::Owned && !copyable(
        ty(w.types, s.vars[name].type_id),
    )
}

/// A variable is consumed once: the first time without a report, and every later
/// time with a report that points at the first.
pub proof fn law_second_move_is_reported(
    w: Surroundings,
    s: Standing,
    name: Seq<char>,
    first_name: Span,
    first: Span,
    second_name: Span,
    second: Span,
)
    requires
        owns_movable(w, s, name),
    ensures
        ({
            let once = consume_name(w, s, name, first_name, first);
            let twice = consume_name(w, once, name, second_name, second);
            &&& once.reports == s.reports
            &&& once.vars[name].state == OwnershipState::Consumed
            &&& once.vars[name].consumed_span == Some(first)
            &&& twice.vars == once.vars
            &&& twice.reports == s.reports.push(
                error_after(ErrorCode::UseAfterMove, second_name, seq![name], first),
            )
        }),
{
}

/// Reading a variable after it was consumed is reported, with the place where it
/// was consumed; reading any other variable is not.
pub proof fn law_reads_report_moved_variables(s: Standing, ident: Ident)
    requires
        places_known(s.vars),
    ensures
        read(s, ident).vars == s.vars,
        s.vars.contains_key(ident.name@) && s.vars[ident.name@].state == OwnershipState::Consumed ==> read(
            s,
            ident,
        ).reports == s.reports.push(
            error_after(
                ErrorCode::UseAfterMove,
                ident.span,
                seq![ident.name@],
                s.vars[ident.name@].consumed_span->0,
            ),
        ),
        !(s.vars.contains_key(ident.name@) && s.vars[ident.name@].state == OwnershipState::Consumed)
            ==> read(s, ident) == s,
{
}

/// A view parameter is never consumed: to try is an error, and changes nothing.
pub proof fn law_views_are_not_consumed(
    w: Surroundings,
    s: Standing,
    name: Seq<char>,
    name_span: Span,
    span: Span,
)
    requires
        s.vars.contains_key(name),
        s.vars[name].state == OwnershipState::Viewed,
        !copyable(ty(w.types, s.vars[name].type_id)),
    ensures
        consume_name(w, s, name, name_span, span) == report(
            s,
            error(ErrorCode::CannotConsumeView, name_span, seq![name]),
        ),
{
}

/// Values that are copied are never consumed, however often they are passed on.
pub proof fn law_copies_are_not_consumed(
    w: Surroundings,
    s: Standing,
    name: Seq<char>,
    name_span: Span,
    span: Span,
)
    requires
        s.vars.contains_key(name),
        copyable(ty(w.types, s.vars[name].type_id)),
    ensures
        consume_name(w, s, name, name_span, span) == s,
{
}

/// A mutable variable that is assigned to owns a value again.
pub proof fn law_assignment_gives_ownership_back(s: Standing, name: Seq<char>)
    requires
        s.vars.contains_key(name),
        s.vars[name].mutable,
    ensures
        rebind(s, name).vars[name].state == OwnershipState::Owned,
        rebind(s, name).reports == s.reports,
        forall|other: Seq<char>|
            other != name ==> (#[trigger] rebind(s, name).vars.contains_key(other) <==> s.vars.contains_key(
                other,
            )) && rebind(s, name).vars[other] == s.vars[other],
{
}

// ---------------------------------------------------------------------------
// Arguments
// ---------------------------------------------------------------------------

/// Whether the expression passes no value on, except inside an inline function.
pub open spec fn only_reads(e: Expr) -> bool
    decreases e,
{
    match e {
        Expr::Binary(l, _, r, _) => only_reads(*l) && only_reads(*r),
        Expr::Unary(_, x, _) => only_reads(*x),
        Expr::Paren(x, _) => only_reads(*x),
        Expr::View(x, _) => only_reads(*x),
        Expr::FieldAccess(x, _, _) => only_reads(*x),
        Expr::OkOf(x, _) => only_reads(*x),
        Expr::FailOf(x, _) => only_reads(*x),
        Expr::SomeOf(x, _) => only_reads(*x),
        Expr::Default(x, _) => only_reads(*x),
        Expr::Declassify(x, _) => only_reads(*x),
        Expr::Coarsen(x, _) => only_reads(*x),
        Expr::At(x, _, _) => only_reads(*x),
        Expr::Spawn(x, _) => only_reads(*x),
        Expr::Send(x, _) => only_reads(*x),
        Expr::Ask(x, _) => only_reads(*x),
        Expr::Clone(x, _) => only_reads(*x),
        Expr::Run(x, _) => only_reads(*x),
        Expr::Join(x, _) => only_reads(*x),
        Expr::Cancel(x, _) => only_reads(*x),
        Expr::ListConstruct(es, _) => forall|i: int|
            0 <= i < es@.len() ==> only_reads(#[trigger] es@[i]),
        Expr::MapConstruct(es, _) => forall|i: int|
            0 <= i < es@.len() ==> only_reads((#[trigger] es@[i]).0) && only_reads(es@[i].1),
        Expr::StringInterpolation(ps, _) => forall|i: int|
            0 <= i < ps@.len() ==> match #[trigger] ps@[i] {
                StringPart::Expr(x) => only_reads(x),
                _ => true,
            },
        Expr::Pipeline(initial, steps, _) => {
            &&& only_reads(*initial)
            &&& forall|i: int|
                0 <= i < steps@.len() ==> only_reads((#[trigger] steps@[i]).function) && forall|j: int|
                    0 <= j < steps@[i].extra_args@.len() ==> only_reads(
                        (#[trigger] steps@[i].extra_args@[j]).value,
                    )
        },
        Expr::InlineFn(_, _, _, _) => true,
        Expr::Ident(_) => true,
        Expr::IntLiteral(_, _) => true,
        Expr::FloatLiteral(_, _) => true,
        Expr::StringLiteral(_, _) => true,
        Expr::BoolLiteral(_, _) => true,
        Expr::Nothing(_) => true,
        Expr::NoneOf(_) => true,
        Expr::EnumVariant(_, _, _) => true,
        Expr::Error(_) => true,
        _ => false,
    }
}

/// An inline function consumes no variable outside, whatever its body does.
pub proof fn law_inline_functions_consume_nothing(
    w: Surroundings,
    s: Standing,
    params: Vec<Param>,
    ret: Option<TypeExpr>,
    body: Block,
    span: Span,
)
    ensures
        after_expr(w, s, Expr::InlineFn(params, ret, body, span)).vars == s.vars,
{
}

proof fn lemma_listed_consume_nothing(w: Surroundings, s: Standing, es: Vec<Expr>, i: nat)
    requires
        forall|j: int| 0 <= j < es@.len() ==> only_reads(#[trigger] es@[j]),
    ensures
        after_exprs(w, s, es, i).vars == s.vars,
    decreases es, es@.len() - i,
{
    if i < es@.len() {
        law_reading_consumes_nothing(w, s, es@[i as int]);
        lemma_listed_consume_nothing(w, after_expr(w, s, es@[i as int]), es, i + 1);
    }
}

proof fn lemma_entries_consume_nothing(w: Surroundings, s: Standing, es: Vec<(Expr, Expr)>, i: nat)
    requires
        forall|j: int| 0 <= j < es@.len() ==> only_reads((#[trigger] es@[j]).0) && only_reads(es@[j].1),
    ensures
        after_entries(w, s, es, i).vars == s.vars,
    decreases es, es@.len() - i,
{
    if i < es@.len() {
        let s1 = after_expr(w, s, es@[i as int].0);
        law_reading_consumes_nothing(w, s, es@[i as int].0);
        law_reading_consumes_nothing(w, s1, es@[i as int].1);
        lemma_entries_consume_nothing(w, after_expr(w, s1, es@[i as int].1), es, i + 1);
    }
}

proof fn lemma_parts_consume_nothing(w: Surroundings, s: Standing, ps: Vec<StringPart>, i: nat)
    requires
        forall|j: int|
            0 <= j < ps@.len() ==> match #[trigger] ps@[j] {
                StringPart::Expr(x) => only_reads(x),
                _ => true,
            },
    ensures
        after_parts(w, s, ps, i).vars == s.vars,
    decreases ps, ps@.len() - i,
{
    if i < ps@.len() {
        match ps@[i as int] {
            StringPart::Expr(x) => {
                law_reading_consumes_nothing(w, s, x);
                lemma_parts_consume_nothing(w, after_expr(w, s, x), ps, i + 1);
            },
            _ => lemma_parts_consume_nothing(w, s, ps, i + 1),
        }
    }
}

proof fn lemma_read_args_consume_nothing(w: Surroundings, s: Standing, args: Vec<CallArg>, i: nat)
    requires
        forall|j: int| 0 <= j < args@.len() ==> only_reads((#[trigger] args@[j]).value),
    ensures
        after_read_args(w, s, args, i).vars == s.vars,
    decreases args, args@.len() - i,
{
    if i < args@.len() {
        law_reading_consumes_nothing(w, s, args@[i as int].value);
        lemma_read_args_consume_nothing(w, after_expr(w, s, args@[i as int].value), args, i + 1);
    }
}

proof fn lemma_steps_consume_nothing(w: Surroundings, s: Standing, ps: Vec<PipelineStep>, i: nat)
    requires
        forall|j: int|
            0 <= j < ps@.len() ==> only_reads((#[trigger] ps@[j]).function) && forall|k: int|
                0 <= k < ps@[j].extra_args@.len() ==> only_reads((#[trigger] ps@[j].extra_args@[k]).value),
    ensures
        after_steps(w, s, ps, i).vars == s.vars,
    decreases ps, ps@.len() - i,
{
    if i < ps@.len() {
        let step = ps@[i as int];
        let s1 = after_expr(w, s, step.function);
        law_reading_consumes_nothing(w, s, step.function);
        lemma_read_args_consume_nothing(w, s1, step.extra_args, 0);
        lemma_steps_consume_nothing(w, after_read_args(w, s1, step.extra_args, 0), ps, i + 1);
    }
}

/// Evaluating an expression that passes no value on consumes nothing.
pub proof fn law_reading_consumes_nothing(w: Surroundings, s: Standing, e: Expr)
    requires
        only_reads(e),
    ensures
        after_expr(w, s, e).vars == s.vars,
    decreases e,
{
    match e {
        Expr::ListConstruct(es, _) => lemma_listed_consume_nothing(w, s, es, 0),
        Expr::MapConstruct(es, _) => lemma_entries_consume_nothing(w, s, es, 0),
        Expr::StringInterpolation(ps, _) => lemma_parts_consume_nothing(w, s, ps, 0),
        Expr::Pipeline(initial, steps, _) => {
            law_reading_consumes_nothing(w, s, *initial);
            lemma_steps_consume_nothing(w, after_expr(w, s, *initial), steps, 0);
        },
        Expr::Binary(l, _, r, _) => {
            law_reading_consumes_nothing(w, s, *l);
            law_reading_consumes_nothing(w, after_expr(w, s, *l), *r);
        },
        Expr::Unary(_, x, _) => law_reading_consumes_nothing(w, s, *x),
        Expr::Paren(x, _) => law_reading_consumes_nothing(w, s, *x),
        Expr::View(x, _) => law_reading_consumes_nothing(w, s, *x),
        Expr::FieldAccess(x, _, _) => law_reading_consumes_nothing(w, s, *x),
        Expr::OkOf(x, _) => law_reading_consumes_nothing(w, s, *x),
        Expr::FailOf(x, _) => law_reading_consumes_nothing(w, s, *x),
        Expr::SomeOf(x, _) => law_reading_consumes_nothing(w, s, *x),
        Expr::Default(x, _) => law_reading_consumes_nothing(w, s, *x),
        Expr::Declassify(x, _) => law_reading_consumes_nothing(w, s, *x),
        Expr::Coarsen(x, _) => law_reading_consumes_nothing(w, s, *x),
        Expr::At(x, _, _) => law_reading_consumes_nothing(w, s, *x),
        Expr::Spawn(x, _) => law_reading_consumes_nothing(w, s, *x),
        Expr::Send(x, _) => law_reading_consumes_nothing(w, s, *x),
        Expr::Ask(x, _) => law_reading_consumes_nothing(w, s, *x),
        Expr::Clone(x, _) => law_reading_consumes_nothing(w, s, *x),
        Expr::Run(x, _) => law_reading_consumes_nothing(w, s, *x),
        Expr::Join(x, _) => law_reading_consumes_nothing(w, s, *x),
        Expr::Cancel(x, _) => law_reading_consumes_nothing(w, s, *x),
        _ => {},
    }
}

/// Arguments that are passed as views are not consumed.
pub proof fn law_view_arguments_are_not_consumed(
    w: Surroundings,
    s: Standing,
    args: Vec<CallArg>,
    view_first: bool,
    i: nat,
)
    requires
        forall|j: int|
            0 <= j < args@.len() ==> (#[trigger] args@[j]).value is View && only_reads(args@[j].value),
    ensures
        after_args(w, s, args, view_first, i).vars == s.vars,
    decreases args@.len() - i,
{
    if i < args@.len() {
        let arg = args@[i as int];
        law_reading_consumes_nothing(w, s, arg.value);
        let next = match arg.value {
            Expr::View(inner, _) => after_expr(w, s, *inner),
            _ => s,
        };
        law_view_arguments_are_not_consumed(w, next, args, view_first, i + 1);
    }
}

/// An argument that is a variable owning a value which moves, and that is not
/// passed as a view, is consumed by the call.
pub proof fn law_arguments_are_consumed(w: Surroundings, s: Standing, args: Vec<CallArg>, ident: Ident)
    requires
        args@.len() == 1,
        args@[0].value == Expr::Ident(ident),
        owns_movable(w, s, ident.name@),
    ensures
        ({
            let after = after_args(w, s, args, false, 0);
            &&& after.reports == s.reports
            &&& after.vars[ident.name@].state == OwnershipState::Consumed
            &&& after.vars[ident.name@].consumed_span == Some(args@[0].span)
        }),
{
    let next = after_consuming(w, s, args@[0].value, args@[0].span);
    assert(after_args(w, s, args, false, 0) == after_args(w, next, args, false, 1));
    assert(after_args(w, next, args, false, 1) == next);
}

// ---------------------------------------------------------------------------
// Branches
// ---------------------------------------------------------------------------

/// A variable that some branch consumes is consumed after the branches meet.
pub proof fn law_consumed_in_a_branch_is_consumed(before: Vars, branches: Seq<Vars>, name: Seq<char>, i: int)
    requires
        before.contains_key(name),
        forall|j: int| 0 <= j < branches.len() ==> (#[trigger] branches[j]).contains_key(name),
        0 <= i < branches.len(),
        branches[i][name].state == OwnershipState::Consumed,
    ensures
        join(before, branches).contains_key(name),
        join(before, branches)[name].state == OwnershipState::Consumed,
{
    first_consuming_in_range(branches, name, 0);
}

/// A variable that every branch leaves owned is owned after the branches meet.
pub proof fn law_owned_in_all_branches_is_owned(before: Vars, branches: Seq<Vars>, name: Seq<char>)
    requires
        before.contains_key(name),
        branches.len() > 0,
        forall|j: int|
            0 <= j < branches.len() ==> (#[trigger] branches[j]).contains_key(name) && branches[j][name].state
                == OwnershipState::Owned,
    ensures
        join(before, branches)[name].state == OwnershipState::Owned,
{
    first_consuming_in_range(branches, name, 0);
    assert(branches[branches.len() - 1].contains_key(name));
}

/// What stands behind a statement that control does not pass is not looked at.
pub proof fn law_code_behind_an_exit_is_ignored(w: Surroundings, s: Standing, a: Block, b: Block, i: nat, k: nat)
    requires
        i <= k < a.stmts@.len(),
        k < b.stmts@.len(),
        exits(a.stmts@[k as int]),
        forall|j: int| 0 <= j <= k ==> a.stmts@[j] == b.stmts@[j],
    ensures
        after_block(w, s, a, i) == after_block(w, s, b, i),
    decreases k - i,
{
    assert(a.stmts@[i as int] == b.stmts@[i as int]);
    if !exits(a.stmts@[i as int]) {
        law_code_behind_an_exit_is_ignored(w, after_stmt(w, s, a.stmts@[i as int]), a, b, i + 1, k);
    }
}

/// A function starts from its parameters alone, and what it does with variables
/// is not seen outside.
pub proof fn law_functions_are_looked_at_alone(w: Surroundings, s: Standing, t: Standing, f: FunctionDef)
    requires
        s.reports == t.reports,
    ensures
        after_function(w, s, f).vars == s.vars,
        after_function(w, s, f).reports == after_function(w, t, f).reports,
{
}

} // verus!
