//! The same code followed twice: from the same variables it does the same to them and
//! adds the same reports, whatever was reported before and whatever types were added.
use vstd::prelude::*;

use crate::ast::{
    expr_span, Block, CallArg, Expr, ForStmt, FunctionDef, Ident, IfStmt, Item, MatchStmt, Module,
    Param, PipelineStep, Stmt, StringPart, TypeExpr, VarDecl,
};
use crate::diagnostics::DiagnosticV;
use crate::ownership::{
    after_args, after_arms, after_block, after_consuming, after_decl, after_else_ifs,
    after_entries, after_expr, after_exprs, after_for, after_function, after_if, after_item,
    after_items, after_optional, after_parts, after_read_args, after_steps, after_stmt, bind, branch,
    consume_name, exits, fresh_info, items_reports, join, joined_info, module_reports, ownership_type,
    read, rebind, report, views_first_argument, with_params, Branching, Standing, Surroundings,
    VarInfo, Vars,
};
use crate::ownership_laws::between;
use crate::span::Span;
use crate::types::{lemma_basics, sound, ty, TypeId, TypeInterner};

verus! {

/// Whether every variable has one of the basic types, which stand for all others here.
pub open spec fn placed(vars: Vars) -> bool {
    forall|name: Seq<char>| #[trigger]
        vars.contains_key(name) ==> vars[name].type_id <= TypeInterner::ERROR
}

/// Whether the analysis cannot tell the two apart.
pub open spec fn alike(v: Surroundings, w: Surroundings) -> bool {
    sound(v.types) && sound(w.types) && v.facades == w.facades
}

pub open spec fn paired(a: Standing, b: Standing) -> bool {
    a.vars == b.vars && placed(a.vars)
}

/// Whether `a` became `c` by the reports by which `b` became `d`.
pub open spec fn same_added(a: Standing, b: Standing, c: Standing, d: Standing) -> bool {
    exists|more: Seq<DiagnosticV>|
        c.reports == a.reports + more && #[trigger] (b.reports + more) == d.reports
}

proof fn lemma_added_on(a: Standing, b: Standing, c: Standing, d: Standing, e: Standing, f: Standing)
    requires
        same_added(a, b, c, d),
        same_added(c, d, e, f),
    ensures
        same_added(a, b, e, f),
{
    let x = choose|more: Seq<DiagnosticV>|
        c.reports == a.reports + more && #[trigger] (b.reports + more) == d.reports;
    let y = choose|more: Seq<DiagnosticV>|
        e.reports == c.reports + more && #[trigger] (d.reports + more) == f.reports;
    assert(e.reports =~= a.reports + (x + y));
    assert(b.reports + (x + y) =~= f.reports);
}

/// Whether `a` became `c` as `b` became `d`: by the same reports, to the same variables.
#[verifier::opaque]
pub open spec fn in_step(a: Standing, b: Standing, c: Standing, d: Standing) -> bool {
    paired(c, d) && same_added(a, b, c, d)
}

proof fn step_pairs(a: Standing, b: Standing, c: Standing, d: Standing)
    requires
        in_step(a, b, c, d),
    ensures
        paired(c, d),
{
    reveal(in_step);
}

proof fn step_stays(a: Standing, b: Standing)
    requires
        paired(a, b),
    ensures
        in_step(a, b, a, b),
{
    reveal(in_step);
    let none = Seq::<DiagnosticV>::empty();
    assert(a.reports =~= a.reports + none);
    assert(b.reports + none =~= b.reports);
}

proof fn step_on(a: Standing, b: Standing, c: Standing, d: Standing, e: Standing, f: Standing)
    requires
        in_step(a, b, c, d),
        in_step(c, d, e, f),
    ensures
        in_step(a, b, e, f),
{
    reveal(in_step);
    lemma_added_on(a, b, c, d, e, f);
}

proof fn step_report(a: Standing, b: Standing, d: DiagnosticV)
    requires
        paired(a, b),
    ensures
        in_step(a, b, report(a, d), report(b, d)),
{
    reveal(in_step);
    let one = seq![d];
    assert(a.reports.push(d) =~= a.reports + one);
    assert(b.reports + one =~= b.reports.push(d));
}

proof fn step_bind(a: Standing, b: Standing, name: Seq<char>, info: VarInfo)
    requires
        paired(a, b),
        info.type_id <= TypeInterner::ERROR,
    ensures
        in_step(a, b, bind(a, name, info), bind(b, name, info)),
{
    step_stays(a, b);
    reveal(in_step);
}

proof fn step_read(a: Standing, b: Standing, ident: Ident)
    requires
        paired(a, b),
    ensures
        in_step(a, b, read(a, ident), read(b, ident)),
{
    step_stays(a, b);
    let d = read(a, ident).reports.last();
    step_report(a, b, d);
}

/// A basic type is what it is in all surroundings.
proof fn lemma_basic_types_agree(v: Surroundings, w: Surroundings, id: TypeId)
    requires
        alike(v, w),
        id <= TypeInterner::ERROR,
    ensures
        ty(v.types, id) == ty(w.types, id),
{
    lemma_basics(v.types);
    lemma_basics(w.types);
}

proof fn step_consume(
    v: Surroundings,
    w: Surroundings,
    a: Standing,
    b: Standing,
    name: Seq<char>,
    name_span: Span,
    span: Span,
)
    requires
        alike(v, w),
        paired(a, b),
    ensures
        in_step(
            a,
            b,
            consume_name(v, a, name, name_span, span),
            consume_name(w, b, name, name_span, span),
        ),
{
    step_stays(a, b);
    let c = consume_name(v, a, name, name_span, span);
    if a.vars.contains_key(name) {
        lemma_basic_types_agree(v, w, a.vars[name].type_id);
        step_report(a, b, c.reports.last());
        step_bind(a, b, name, c.vars[name]);
    }
}

proof fn step_rebind(a: Standing, b: Standing, name: Seq<char>)
    requires
        paired(a, b),
    ensures
        in_step(a, b, rebind(a, name), rebind(b, name)),
{
    step_stays(a, b);
    if a.vars.contains_key(name) {
        step_bind(a, b, name, rebind(a, name).vars[name]);
    }
}

proof fn lemma_stand_ins_are_basic(t: TypeExpr)
    ensures
        ownership_type(t) <= TypeInterner::ERROR,
    decreases t,
{
    match t {
        TypeExpr::View(inner, _) => lemma_stand_ins_are_basic(*inner),
        _ => {},
    }
}

proof fn step_consuming(
    v: Surroundings,
    w: Surroundings,
    a: Standing,
    b: Standing,
    e: Expr,
    span: Span,
)
    requires
        alike(v, w),
        paired(a, b),
    ensures
        in_step(a, b, after_consuming(v, a, e, span), after_consuming(w, b, e, span)),
    decreases e, 1nat,
{
    match e {
        Expr::Ident(ident) => step_consume(v, w, a, b, ident.name@, ident.span, span),
        Expr::View(inner, _) => step_expr(v, w, a, b, *inner),
        _ => step_expr(v, w, a, b, e),
    }
}

proof fn step_args(
    v: Surroundings,
    w: Surroundings,
    a: Standing,
    b: Standing,
    args: Vec<CallArg>,
    view_first: bool,
    i: nat,
)
    requires
        alike(v, w),
        paired(a, b),
    ensures
        in_step(a, b, after_args(v, a, args, view_first, i), after_args(w, b, args, view_first, i)),
    decreases args, args@.len() - i,
{
    if i >= args@.len() {
        step_stays(a, b);
    } else {
        let arg = args@[i as int];
        let c = match arg.value {
            Expr::View(inner, _) => after_expr(v, a, *inner),
            _ => if view_first && i == 0 {
                after_expr(v, a, arg.value)
            } else {
                after_consuming(v, a, arg.value, arg.span)
            },
        };
        let d = match arg.value {
            Expr::View(inner, _) => after_expr(w, b, *inner),
            _ => if view_first && i == 0 {
                after_expr(w, b, arg.value)
            } else {
                after_consuming(w, b, arg.value, arg.span)
            },
        };
        match arg.value {
            Expr::View(inner, _) => step_expr(v, w, a, b, *inner),
            _ => {
                step_expr(v, w, a, b, arg.value);
                step_consuming(v, w, a, b, arg.value, arg.span);
            },
        }
        step_pairs(a, b, c, d);
        step_args(v, w, c, d, args, view_first, i + 1);
        step_on(
            a,
            b,
            c,
            d,
            after_args(v, c, args, view_first, i + 1),
            after_args(w, d, args, view_first, i + 1),
        );
    }
}

proof fn step_read_args(
    v: Surroundings,
    w: Surroundings,
    a: Standing,
    b: Standing,
    args: Vec<CallArg>,
    i: nat,
)
    requires
        alike(v, w),
        paired(a, b),
    ensures
        in_step(a, b, after_read_args(v, a, args, i), after_read_args(w, b, args, i)),
    decreases args, args@.len() - i,
{
    if i >= args@.len() {
        step_stays(a, b);
    } else {
        let c = after_expr(v, a, args@[i as int].value);
        let d = after_expr(w, b, args@[i as int].value);
        step_expr(v, w, a, b, args@[i as int].value);
        step_pairs(a, b, c, d);
        step_read_args(v, w, c, d, args, i + 1);
        step_on(a, b, c, d, after_read_args(v, c, args, i + 1), after_read_args(w, d, args, i + 1));
    }
}

proof fn step_exprs(
    v: Surroundings,
    w: Surroundings,
    a: Standing,
    b: Standing,
    es: Vec<Expr>,
    i: nat,
)
    requires
        alike(v, w),
        paired(a, b),
    ensures
        in_step(a, b, after_exprs(v, a, es, i), after_exprs(w, b, es, i)),
    decreases es, es@.len() - i,
{
    if i >= es@.len() {
        step_stays(a, b);
    } else {
        let c = after_expr(v, a, es@[i as int]);
        let d = after_expr(w, b, es@[i as int]);
        step_expr(v, w, a, b, es@[i as int]);
        step_pairs(a, b, c, d);
        step_exprs(v, w, c, d, es, i + 1);
        step_on(a, b, c, d, after_exprs(v, c, es, i + 1), after_exprs(w, d, es, i + 1));
    }
}

proof fn step_entries(
    v: Surroundings,
    w: Surroundings,
    a: Standing,
    b: Standing,
    es: Vec<(Expr, Expr)>,
    i: nat,
)
    requires
        alike(v, w),
        paired(a, b),
    ensures
        in_step(a, b, after_entries(v, a, es, i), after_entries(w, b, es, i)),
    decreases es, es@.len() - i,
{
    if i >= es@.len() {
        step_stays(a, b);
    } else {
        let c = after_expr(v, after_expr(v, a, es@[i as int].0), es@[i as int].1);
        let d = after_expr(w, after_expr(w, b, es@[i as int].0), es@[i as int].1);
        let c1 = after_expr(v, a, es@[i as int].0);
        let d1 = after_expr(w, b, es@[i as int].0);
        step_expr(v, w, a, b, es@[i as int].0);
        step_pairs(a, b, c1, d1);
        step_expr(v, w, c1, d1, es@[i as int].1);
        step_on(a, b, c1, d1, c, d);
        step_pairs(a, b, c, d);
        step_entries(v, w, c, d, es, i + 1);
        step_on(a, b, c, d, after_entries(v, c, es, i + 1), after_entries(w, d, es, i + 1));
    }
}

proof fn step_parts(
    v: Surroundings,
    w: Surroundings,
    a: Standing,
    b: Standing,
    ps: Vec<StringPart>,
    i: nat,
)
    requires
        alike(v, w),
        paired(a, b),
    ensures
        in_step(a, b, after_parts(v, a, ps, i), after_parts(w, b, ps, i)),
    decreases ps, ps@.len() - i,
{
    if i >= ps@.len() {
        step_stays(a, b);
    } else {
        let c = match ps@[i as int] {
            StringPart::Expr(e) => after_expr(v, a, e),
            _ => a,
        };
        let d = match ps@[i as int] {
            StringPart::Expr(e) => after_expr(w, b, e),
            _ => b,
        };
        match ps@[i as int] {
            StringPart::Expr(e) => step_expr(v, w, a, b, e),
            _ => step_stays(a, b),
        }
        step_pairs(a, b, c, d);
        step_parts(v, w, c, d, ps, i + 1);
        step_on(a, b, c, d, after_parts(v, c, ps, i + 1), after_parts(w, d, ps, i + 1));
    }
}

proof fn step_steps(
    v: Surroundings,
    w: Surroundings,
    a: Standing,
    b: Standing,
    ps: Vec<PipelineStep>,
    i: nat,
)
    requires
        alike(v, w),
        paired(a, b),
    ensures
        in_step(a, b, after_steps(v, a, ps, i), after_steps(w, b, ps, i)),
    decreases ps, ps@.len() - i,
{
    if i >= ps@.len() {
        step_stays(a, b);
    } else {
        let c = after_read_args(v, after_expr(v, a, ps@[i as int].function), ps@[i as int].extra_args, 0);
        let d = after_read_args(w, after_expr(w, b, ps@[i as int].function), ps@[i as int].extra_args, 0);
        let c1 = after_expr(v, a, ps@[i as int].function);
        let d1 = after_expr(w, b, ps@[i as int].function);
        step_expr(v, w, a, b, ps@[i as int].function);
        step_pairs(a, b, c1, d1);
        step_read_args(v, w, c1, d1, ps@[i as int].extra_args, 0);
        step_on(a, b, c1, d1, c, d);
        step_pairs(a, b, c, d);
        step_steps(v, w, c, d, ps, i + 1);
        step_on(a, b, c, d, after_steps(v, c, ps, i + 1), after_steps(w, d, ps, i + 1));
    }
}

proof fn step_expr(
    v: Surroundings,
    w: Surroundings,
    a: Standing,
    b: Standing,
    e: Expr,
)
    requires
        alike(v, w),
        paired(a, b),
    ensures
        in_step(a, b, after_expr(v, a, e), after_expr(w, b, e)),
    decreases e, 0nat,
{
    match e {
        Expr::Ident(ident) => step_read(a, b, ident),
        Expr::Binary(l, _, r, _) => {
            let c = after_expr(v, a, *l);
            let d = after_expr(w, b, *l);
            step_expr(v, w, a, b, *l);
            step_pairs(a, b, c, d);
            step_expr(v, w, c, d, *r);
            step_on(a, b, c, d, after_expr(v, c, *r), after_expr(w, d, *r));
        },
        Expr::Call(callee, args, _) => {
            let view_first = views_first_argument(v, *callee);
            let c = after_expr(v, a, *callee);
            let d = after_expr(w, b, *callee);
            step_expr(v, w, a, b, *callee);
            step_pairs(a, b, c, d);
            step_args(v, w, c, d, args, view_first, 0);
            step_on(
                a,
                b,
                c,
                d,
                after_args(v, c, args, view_first, 0),
                after_args(w, d, args, view_first, 0),
            );
        },
        Expr::GenericCall(callee, _, args, _) => {
            let view_first = views_first_argument(v, *callee);
            let c = after_expr(v, a, *callee);
            let d = after_expr(w, b, *callee);
            step_expr(v, w, a, b, *callee);
            step_pairs(a, b, c, d);
            step_args(v, w, c, d, args, view_first, 0);
            step_on(
                a,
                b,
                c,
                d,
                after_args(v, c, args, view_first, 0),
                after_args(w, d, args, view_first, 0),
            );
        },
        Expr::ListConstruct(es, _) => step_exprs(v, w, a, b, es, 0),
        Expr::MapConstruct(es, _) => step_entries(v, w, a, b, es, 0),
        Expr::Handle(target, _, body, _) => {
            let c = after_expr(v, a, *target);
            let d = after_expr(w, b, *target);
            step_expr(v, w, a, b, *target);
            step_pairs(a, b, c, d);
            step_block(v, w, c, d, body, 0);
            step_on(a, b, c, d, after_block(v, c, body, 0), after_block(w, d, body, 0));
        },
        Expr::StringInterpolation(ps, _) => step_parts(v, w, a, b, ps, 0),
        Expr::Pipeline(initial, steps, _) => {
            let c = after_expr(v, a, *initial);
            let d = after_expr(w, b, *initial);
            step_expr(v, w, a, b, *initial);
            step_pairs(a, b, c, d);
            step_steps(v, w, c, d, steps, 0);
            step_on(a, b, c, d, after_steps(v, c, steps, 0), after_steps(w, d, steps, 0));
        },
        Expr::InlineFn(_, _, body, _) => {
            step_block(v, w, a, b, body, 0);
            reveal(in_step);
        },
        Expr::Unary(_, x, _) => step_expr(v, w, a, b, *x),
        Expr::Paren(x, _) => step_expr(v, w, a, b, *x),
        Expr::View(x, _) => step_expr(v, w, a, b, *x),
        Expr::FieldAccess(x, _, _) => step_expr(v, w, a, b, *x),
        Expr::OkOf(x, _) => step_expr(v, w, a, b, *x),
        Expr::FailOf(x, _) => step_expr(v, w, a, b, *x),
        Expr::SomeOf(x, _) => step_expr(v, w, a, b, *x),
        Expr::Default(x, _) => step_expr(v, w, a, b, *x),
        Expr::Declassify(x, _) => step_expr(v, w, a, b, *x),
        Expr::Coarsen(x, _) => step_expr(v, w, a, b, *x),
        Expr::At(x, _, _) => step_expr(v, w, a, b, *x),
        Expr::Spawn(x, _) => step_expr(v, w, a, b, *x),
        Expr::Send(x, _) => step_expr(v, w, a, b, *x),
        Expr::Ask(x, _) => step_expr(v, w, a, b, *x),
        Expr::Clone(x, _) => step_expr(v, w, a, b, *x),
        Expr::Run(x, _) => step_expr(v, w, a, b, *x),
        Expr::Join(x, _) => step_expr(v, w, a, b, *x),
        Expr::Cancel(x, _) => step_expr(v, w, a, b, *x),
        _ => step_stays(a, b),
    }
}

proof fn step_block(
    v: Surroundings,
    w: Surroundings,
    a: Standing,
    b: Standing,
    block: Block,
    i: nat,
)
    requires
        alike(v, w),
        paired(a, b),
    ensures
        in_step(a, b, after_block(v, a, block, i), after_block(w, b, block, i)),
    decreases block, block.stmts@.len() - i,
{
    if i >= block.stmts@.len() {
        step_stays(a, b);
    } else {
        let c = after_stmt(v, a, block.stmts@[i as int]);
        let d = after_stmt(w, b, block.stmts@[i as int]);
        step_stmt(v, w, a, b, block.stmts@[i as int]);
        step_pairs(a, b, c, d);
        if !exits(block.stmts@[i as int]) {
            step_block(v, w, c, d, block, i + 1);
            step_on(a, b, c, d, after_block(v, c, block, i + 1), after_block(w, d, block, i + 1));
        }
    }
}

proof fn step_decl(
    v: Surroundings,
    w: Surroundings,
    a: Standing,
    b: Standing,
    x: VarDecl,
)
    requires
        alike(v, w),
        paired(a, b),
    ensures
        in_step(a, b, after_decl(v, a, x), after_decl(w, b, x)),
    decreases x, 0nat,
{
    let c = after_expr(v, a, x.value);
    let d = after_expr(w, b, x.value);
    let info = fresh_info(false, x.mutable, ownership_type(x.ty));
    step_expr(v, w, a, b, x.value);
    step_pairs(a, b, c, d);
    lemma_stand_ins_are_basic(x.ty);
    step_bind(c, d, x.name.name@, info);
    step_on(a, b, c, d, bind(c, x.name.name@, info), bind(d, x.name.name@, info));
}

proof fn step_optional(
    v: Surroundings,
    w: Surroundings,
    a: Standing,
    b: Standing,
    e: Option<Expr>,
)
    requires
        alike(v, w),
        paired(a, b),
    ensures
        in_step(a, b, after_optional(v, a, e), after_optional(w, b, e)),
    decreases e, 0nat,
{
    match e {
        Some(x) => step_expr(v, w, a, b, x),
        None => step_stays(a, b),
    }
}

/// Whether two chains of conditions are in step, and so is every branch.
pub open spec fn chains_in_step(a: Standing, b: Standing, c: Branching, d: Branching) -> bool {
    &&& in_step(a, b, between(c), between(d))
    &&& c.reached == d.reached
    &&& forall|i: int| 0 <= i < c.reached.len() ==> placed(#[trigger] c.reached[i])
}

proof fn step_branch(
    v: Surroundings,
    w: Surroundings,
    a: Standing,
    b: Standing,
    c: Branching,
    d: Branching,
    block: Block,
)
    requires
        alike(v, w),
        chains_in_step(a, b, c, d),
    ensures
        chains_in_step(a, b, branch(v, c, block), branch(w, d, block)),
    decreases block, block.stmts@.len() + 1,
{
    step_pairs(a, b, between(c), between(d));
    step_block(v, w, between(c), between(d), block, 0);
    let e = after_block(v, between(c), block, 0);
    let f = after_block(w, between(d), block, 0);
    step_pairs(between(c), between(d), e, f);
    step_on(a, b, between(c), between(d), e, f);
    reveal(in_step);
    let next = branch(v, c, block);
    assert forall|i: int| 0 <= i < next.reached.len() implies placed(#[trigger] next.reached[i]) by {
        if i < c.reached.len() {
            assert(next.reached[i] == c.reached[i]);
        }
    }
}

proof fn step_else_ifs(
    v: Surroundings,
    w: Surroundings,
    a: Standing,
    b: Standing,
    c: Branching,
    d: Branching,
    else_ifs: Vec<(Expr, Block)>,
    i: nat,
)
    requires
        alike(v, w),
        chains_in_step(a, b, c, d),
    ensures
        chains_in_step(a, b, after_else_ifs(v, c, else_ifs, i), after_else_ifs(w, d, else_ifs, i)),
    decreases else_ifs, else_ifs@.len() - i,
{
    if i < else_ifs@.len() {
        let (condition, block) = else_ifs@[i as int];
        let e = after_expr(v, between(c), condition);
        let f = after_expr(w, between(d), condition);
        step_pairs(a, b, between(c), between(d));
        step_expr(v, w, between(c), between(d), condition);
        step_on(a, b, between(c), between(d), e, f);
        let c1 = Branching { conditions: e.vars, reached: c.reached, reports: e.reports };
        let d1 = Branching { conditions: f.vars, reached: d.reached, reports: f.reports };
        assert(between(c1) == e);
        assert(between(d1) == f);
        step_branch(v, w, a, b, c1, d1, block);
        step_else_ifs(v, w, a, b, branch(v, c1, block), branch(w, d1, block), else_ifs, i + 1);
    }
}

proof fn lemma_joined_placed(before: Vars, branches: Seq<Vars>)
    requires
        placed(before),
        forall|i: int| 0 <= i < branches.len() ==> placed(#[trigger] branches[i]),
    ensures
        placed(join(before, branches)),
{
    if branches.len() > 0 {
        assert forall|name: Seq<char>| #[trigger] before.contains_key(name) implies joined_info(
            before[name],
            branches,
            name,
        ).type_id <= TypeInterner::ERROR by {
            if !(exists|i: int| 0 <= i < branches.len() && !(#[trigger] branches[i]).contains_key(name)) {
                assert(branches[0].contains_key(name));
                assert(placed(branches[0]));
            }
        }
    }
}

proof fn step_if(
    v: Surroundings,
    w: Surroundings,
    a: Standing,
    b: Standing,
    x: IfStmt,
)
    requires
        alike(v, w),
        paired(a, b),
    ensures
        in_step(a, b, after_if(v, a, x), after_if(w, b, x)),
    decreases x, 0nat,
{
    let c = after_expr(v, a, x.condition);
    let d = after_expr(w, b, x.condition);
    step_expr(v, w, a, b, x.condition);
    let c0 = Branching { conditions: c.vars, reached: Seq::empty(), reports: c.reports };
    let d0 = Branching { conditions: d.vars, reached: Seq::empty(), reports: d.reports };
    assert(between(c0) == c);
    assert(between(d0) == d);
    step_branch(v, w, a, b, c0, d0, x.then_block);
    let c1 = branch(v, c0, x.then_block);
    let d1 = branch(w, d0, x.then_block);
    step_else_ifs(v, w, a, b, c1, d1, x.else_ifs, 0);
    let c2 = after_else_ifs(v, c1, x.else_ifs, 0);
    let d2 = after_else_ifs(w, d1, x.else_ifs, 0);
    step_pairs(a, b, between(c2), between(d2));
    let c3 = match x.else_block {
        Some(block) => branch(v, c2, block),
        None => Branching { reached: c2.reached.push(c2.conditions), ..c2 },
    };
    let d3 = match x.else_block {
        Some(block) => branch(w, d2, block),
        None => Branching { reached: d2.reached.push(d2.conditions), ..d2 },
    };
    match x.else_block {
        Some(block) => step_branch(v, w, a, b, c2, d2, block),
        None => {
            assert(between(c3) == between(c2));
            assert(between(d3) == between(d2));
            assert forall|i: int| 0 <= i < c3.reached.len() implies placed(#[trigger] c3.reached[i]) by {
                if i < c2.reached.len() {
                    assert(c3.reached[i] == c2.reached[i]);
                }
            }
        },
    }
    step_pairs(a, b, between(c3), between(d3));
    lemma_joined_placed(c3.conditions, c3.reached);
    reveal(in_step);
}

proof fn step_for(
    v: Surroundings,
    w: Surroundings,
    a: Standing,
    b: Standing,
    x: ForStmt,
)
    requires
        alike(v, w),
        paired(a, b),
    ensures
        in_step(a, b, after_for(v, a, x), after_for(w, b, x)),
    decreases x, 0nat,
{
    let span = expr_span(x.iterable);
    let c = if x.view {
        after_expr(v, a, x.iterable)
    } else {
        after_consuming(v, a, x.iterable, span)
    };
    let d = if x.view {
        after_expr(w, b, x.iterable)
    } else {
        after_consuming(w, b, x.iterable, span)
    };
    step_expr(v, w, a, b, x.iterable);
    step_consuming(v, w, a, b, x.iterable, span);
    step_pairs(a, b, c, d);
    let info = fresh_info(x.view, false, TypeInterner::ERROR);
    let c1 = bind(c, x.variable.name@, info);
    let d1 = bind(d, x.variable.name@, info);
    step_bind(c, d, x.variable.name@, info);
    step_on(a, b, c, d, c1, d1);
    step_pairs(a, b, c1, d1);
    step_block(v, w, c1, d1, x.body, 0);
    step_on(a, b, c1, d1, after_block(v, c1, x.body, 0), after_block(w, d1, x.body, 0));
}

proof fn step_arms(
    v: Surroundings,
    w: Surroundings,
    a: Standing,
    b: Standing,
    m: MatchStmt,
    i: nat,
)
    requires
        alike(v, w),
        paired(a, b),
    ensures
        in_step(a, b, after_arms(v, a, m, i), after_arms(w, b, m, i)),
    decreases m, m.arms@.len() - i,
{
    if i >= m.arms@.len() {
        step_stays(a, b);
    } else {
        let c = after_block(v, a, m.arms@[i as int].body, 0);
        let d = after_block(w, b, m.arms@[i as int].body, 0);
        step_block(v, w, a, b, m.arms@[i as int].body, 0);
        step_pairs(a, b, c, d);
        step_arms(v, w, c, d, m, i + 1);
        step_on(a, b, c, d, after_arms(v, c, m, i + 1), after_arms(w, d, m, i + 1));
    }
}

proof fn step_stmt(
    v: Surroundings,
    w: Surroundings,
    a: Standing,
    b: Standing,
    stmt: Stmt,
)
    requires
        alike(v, w),
        paired(a, b),
    ensures
        in_step(a, b, after_stmt(v, a, stmt), after_stmt(w, b, stmt)),
    decreases stmt, 0nat,
{
    match stmt {
        Stmt::VarDecl(x) => step_decl(v, w, a, b, x),
        Stmt::Assign(x) => {
            let c = after_expr(v, a, x.value);
            let d = after_expr(w, b, x.value);
            step_expr(v, w, a, b, x.value);
            step_pairs(a, b, c, d);
            match x.target {
                Expr::Ident(ident) => {
                    step_rebind(c, d, ident.name@);
                    step_on(a, b, c, d, rebind(c, ident.name@), rebind(d, ident.name@));
                },
                _ => {
                    step_expr(v, w, c, d, x.target);
                    step_on(a, b, c, d, after_expr(v, c, x.target), after_expr(w, d, x.target));
                },
            }
        },
        Stmt::Return(x) => step_optional(v, w, a, b, x.value),
        Stmt::ComptimeTypeBind(x) => step_block(v, w, a, b, x.body, 0),
        Stmt::If(x) => step_if(v, w, a, b, x),
        Stmt::For(x) => step_for(v, w, a, b, x),
        Stmt::While(x) => {
            let c = after_expr(v, a, x.condition);
            let d = after_expr(w, b, x.condition);
            step_expr(v, w, a, b, x.condition);
            step_pairs(a, b, c, d);
            step_block(v, w, c, d, x.body, 0);
            step_on(a, b, c, d, after_block(v, c, x.body, 0), after_block(w, d, x.body, 0));
        },
        Stmt::Expr(x) => step_expr(v, w, a, b, x.expr),
        Stmt::Assert(x) => {
            let c = after_expr(v, a, x.condition);
            let d = after_expr(w, b, x.condition);
            step_expr(v, w, a, b, x.condition);
            step_pairs(a, b, c, d);
            step_optional(v, w, c, d, x.message);
            step_on(a, b, c, d, after_optional(v, c, x.message), after_optional(w, d, x.message));
        },
        Stmt::Trace(x) => step_read(a, b, x.name),
        Stmt::Breakpoint(x) => step_optional(v, w, a, b, x.condition),
        Stmt::Match(x) => {
            let c = after_expr(v, a, x.expr);
            let d = after_expr(w, b, x.expr);
            step_expr(v, w, a, b, x.expr);
            step_pairs(a, b, c, d);
            step_arms(v, w, c, d, x, 0);
            step_on(a, b, c, d, after_arms(v, c, x, 0), after_arms(w, d, x, 0));
        },
        Stmt::Respond(x) => step_expr(v, w, a, b, x.value),
        _ => step_stays(a, b),
    }
}

proof fn lemma_params_placed(vars: Vars, params: Seq<Param>, i: nat)
    requires
        placed(vars),
    ensures
        placed(with_params(vars, params, i)),
    decreases params.len() - i,
{
    if i < params.len() {
        let p = params[i as int];
        lemma_stand_ins_are_basic(p.ty);
        lemma_params_placed(
            vars.insert(p.name.name@, fresh_info(p.view, p.mutable, ownership_type(p.ty))),
            params,
            i + 1,
        );
    }
}

/// Whether no item is a variable.
pub open spec fn no_variables(items: Seq<Item>) -> bool {
    forall|i: int| 0 <= i < items.len() ==> !((#[trigger] items[i]) is VarDecl)
}

/// A function adds the same reports wherever it stands.
proof fn step_function(v: Surroundings, w: Surroundings, a: Standing, b: Standing, f: FunctionDef)
    requires
        alike(v, w),
    ensures
        same_added(a, b, after_function(v, a, f), after_function(w, b, f)),
        paired(a, b) ==> in_step(a, b, after_function(v, a, f), after_function(w, b, f)),
{
    let vars = with_params(Map::empty(), f.params@, 0);
    lemma_params_placed(Map::empty(), f.params@, 0);
    let c = Standing { vars, reports: a.reports };
    let d = Standing { vars, reports: b.reports };
    step_block(v, w, c, d, f.body, 0);
    reveal(in_step);
}

proof fn step_items(v: Surroundings, w: Surroundings, a: Standing, b: Standing, items: Seq<Item>, i: nat)
    requires
        alike(v, w),
        paired(a, b),
    ensures
        in_step(a, b, after_items(v, a, items, i), after_items(w, b, items, i)),
    decreases items.len() - i,
{
    if i >= items.len() {
        step_stays(a, b);
    } else {
        let c = after_item(v, a, items[i as int]);
        let d = after_item(w, b, items[i as int]);
        match items[i as int] {
            Item::Function(f) => step_function(v, w, a, b, f),
            Item::VarDecl(x) => step_decl(v, w, a, b, x),
            _ => step_stays(a, b),
        }
        step_pairs(a, b, c, d);
        step_items(v, w, c, d, items, i + 1);
        step_on(a, b, c, d, after_items(v, c, items, i + 1), after_items(w, d, items, i + 1));
    }
}

/// Items that declare no variables add the same reports behind whatever stands before
/// them.
proof fn step_plain_items(w: Surroundings, a: Standing, b: Standing, items: Seq<Item>, i: nat)
    requires
        sound(w.types),
        no_variables(items),
    ensures
        same_added(a, b, after_items(w, a, items, i), after_items(w, b, items, i)),
        after_items(w, a, items, i).vars == a.vars,
    decreases items.len() - i,
{
    let none = Seq::<DiagnosticV>::empty();
    assert(a.reports =~= a.reports + none);
    assert(b.reports + none =~= b.reports);
    if i < items.len() {
        let c = after_item(w, a, items[i as int]);
        let d = after_item(w, b, items[i as int]);
        match items[i as int] {
            Item::Function(f) => step_function(w, w, a, b, f),
            _ => {},
        }
        step_plain_items(w, c, d, items, i + 1);
        lemma_added_on(a, b, c, d, after_items(w, c, items, i + 1), after_items(w, d, items, i + 1));
    }
}

/// The first list, then the second.
proof fn lemma_items_in_a_row(w: Surroundings, s: Standing, a: Seq<Item>, b: Seq<Item>, i: nat)
    requires
        i <= a.len(),
    ensures
        after_items(w, s, a + b, i) == after_items(w, after_items(w, s, a, i), b, 0),
    decreases a.len() - i,
{
    if i < a.len() {
        assert((a + b)[i as int] == a[i as int]);
        lemma_items_in_a_row(w, after_item(w, s, a[i as int]), a, b, i + 1);
    } else {
        lemma_items_behind(w, s, a, b, 0);
    }
}

proof fn lemma_items_behind(w: Surroundings, s: Standing, a: Seq<Item>, b: Seq<Item>, i: nat)
    ensures
        after_items(w, s, a + b, a.len() + i) == after_items(w, s, b, i),
    decreases b.len() - i,
{
    if i < b.len() {
        assert((a + b)[(a.len() + i) as int] == b[i as int]);
        lemma_items_behind(w, after_item(w, s, b[i as int]), a, b, i + 1);
    }
}

/// The reports of two lists of items in a row are those of the first, followed by those
/// of the second: what happens to the variables of a function is not seen outside, and
/// items other than functions and variables add nothing. Where both lists declare
/// variables the second may use what the first one consumed.
pub proof fn law_reports_of_items_add_up(w: Surroundings, a: Seq<Item>, b: Seq<Item>)
    requires
        sound(w.types),
        no_variables(a) || no_variables(b),
    ensures
        items_reports(w, a + b) == items_reports(w, a) + items_reports(w, b),
{
    let start = Standing { vars: Map::empty(), reports: Seq::empty() };
    let between_them = after_items(w, start, a, 0);
    lemma_items_in_a_row(w, start, a, b, 0);
    if no_variables(b) {
        step_plain_items(w, between_them, start, b, 0);
    } else {
        step_plain_items(w, start, start, a, 0);
        step_items(w, w, between_them, start, b, 0);
        reveal(in_step);
    }
    let end = after_items(w, between_them, b, 0);
    let alone = after_items(w, start, b, 0);
    let more = choose|more: Seq<DiagnosticV>|
        end.reports == between_them.reports + more && #[trigger] (start.reports + more) == alone.reports;
    assert(start.reports + more =~= more);
}

/// The same of modules.
pub proof fn law_reports_of_modules_add_up(w: Surroundings, m: Module, first: Module, second: Module)
    requires
        sound(w.types),
        m.items@ == first.items@ + second.items@,
        no_variables(first.items@) || no_variables(second.items@),
    ensures
        module_reports(w, m) == module_reports(w, first) + module_reports(w, second),
{
    law_reports_of_items_add_up(w, first.items@, second.items@);
}

/// Types that are added change no report: only the basic types matter.
pub proof fn law_more_types_change_no_report(v: Surroundings, w: Surroundings, m: Module)
    requires
        alike(v, w),
    ensures
        module_reports(v, m) == module_reports(w, m),
{
    let start = Standing { vars: Map::empty(), reports: Seq::empty() };
    step_items(v, w, start, start, m.items@, 0);
    reveal(in_step);
    let more = choose|more: Seq<DiagnosticV>|
        module_reports(v, m) == start.reports + more && #[trigger] (start.reports + more)
            == module_reports(w, m);
}

} // verus!
