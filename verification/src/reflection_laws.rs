//! What holds of looks at type parameters as a whole.
use vstd::prelude::*;

use crate::ast::{
    expr_span, Block, CallArg, Expr, MatchArm, PipelineStep, Stmt, StringPart, TypeExpr,
};
use crate::reflection_use::{
    any_mentions, arms_place, block_place, block_uses, branches_place, else_ifs_place, maybe_uses,
    mentions, step_uses, stmt_place, stmt_uses, uses, TypeParams,
};
use crate::resolution::Names;

verus! {

/// A written type that mentions one of the parameters mentions one of more parameters
/// too. Without any it mentions none.
pub proof fn law_mentions_grow(t: TypeExpr, few: TypeParams, many: TypeParams)
    requires
        few.subset_of(many),
        mentions(t, few),
    ensures
        mentions(t, many),
        few != Set::<Seq<char>>::empty(),
    decreases t,
{
    match t {
        TypeExpr::Named(ident) => {},
        TypeExpr::View(inner, _) => law_mentions_grow(*inner, few, many),
        TypeExpr::StateQualified(base, _, _) => law_mentions_grow(*base, few, many),
        TypeExpr::Generic(_, args, _) => {
            if exists|i: int| 0 <= i < args@.len() && mentions(#[trigger] args@[i], few) {
                let i = choose|i: int| 0 <= i < args@.len() && mentions(#[trigger] args@[i], few);
                law_mentions_grow(args@[i], few, many);
            }
        },
        TypeExpr::Function(params, ret, _) => {
            if mentions(*ret, few) {
                law_mentions_grow(*ret, few, many);
            } else {
                let i = choose|i: int| 0 <= i < params@.len() && mentions(#[trigger] params@[i], few);
                law_mentions_grow(params@[i], few, many);
            }
        },
    }
}

proof fn any_mentions_grow(ts: Seq<TypeExpr>, few: TypeParams, many: TypeParams)
    requires
        few.subset_of(many),
        any_mentions(ts, few),
    ensures
        any_mentions(ts, many),
        few != Set::<Seq<char>>::empty(),
{
    let i = choose|i: int| 0 <= i < ts.len() && mentions(#[trigger] ts[i], few);
    law_mentions_grow(ts[i], few, many);
}

proof fn args_use_more(names: Names, args: Vec<CallArg>, few: TypeParams, many: TypeParams)
    requires
        few.subset_of(many),
        exists|i: int| 0 <= i < args@.len() && uses(names, (#[trigger] args@[i]).value, few),
    ensures
        exists|i: int| 0 <= i < args@.len() && uses(names, (#[trigger] args@[i]).value, many),
        few != Set::<Seq<char>>::empty(),
    decreases args,
{
    let i = choose|i: int| 0 <= i < args@.len() && uses(names, (#[trigger] args@[i]).value, few);
    law_uses_grow(names, args@[i].value, few, many);
}

/// An expression that looks at one of the type parameters looks at one of more
/// parameters too. Without any it looks at none.
pub proof fn law_uses_grow(names: Names, e: Expr, few: TypeParams, many: TypeParams)
    requires
        few.subset_of(many),
        uses(names, e, few),
    ensures
        uses(names, e, many),
        few != Set::<Seq<char>>::empty(),
    decreases e,
{
    match e {
        Expr::GenericCall(callee, type_args, args, _) => {
            if uses(names, *callee, few) {
                law_uses_grow(names, *callee, few, many);
            } else if exists|i: int| 0 <= i < args@.len() && uses(names, (#[trigger] args@[i]).value, few) {
                args_use_more(names, args, few, many);
            } else {
                any_mentions_grow(type_args@, few, many);
            }
        },
        Expr::Call(callee, args, _) => {
            if uses(names, *callee, few) {
                law_uses_grow(names, *callee, few, many);
            } else {
                args_use_more(names, args, few, many);
            }
        },
        Expr::Binary(l, _, r, _) => {
            if uses(names, *l, few) {
                law_uses_grow(names, *l, few, many);
            } else {
                law_uses_grow(names, *r, few, many);
            }
        },
        Expr::Unary(_, x, _) => law_uses_grow(names, *x, few, many),
        Expr::FieldAccess(x, _, _) => law_uses_grow(names, *x, few, many),
        Expr::Paren(x, _) => law_uses_grow(names, *x, few, many),
        Expr::View(x, _) => law_uses_grow(names, *x, few, many),
        Expr::OkOf(x, _) => law_uses_grow(names, *x, few, many),
        Expr::FailOf(x, _) => law_uses_grow(names, *x, few, many),
        Expr::SomeOf(x, _) => law_uses_grow(names, *x, few, many),
        Expr::Default(x, _) => law_uses_grow(names, *x, few, many),
        Expr::Declassify(x, _) => law_uses_grow(names, *x, few, many),
        Expr::Coarsen(x, _) => law_uses_grow(names, *x, few, many),
        Expr::At(x, _, _) => law_uses_grow(names, *x, few, many),
        Expr::Spawn(x, _) => law_uses_grow(names, *x, few, many),
        Expr::Send(x, _) => law_uses_grow(names, *x, few, many),
        Expr::Ask(x, _) => law_uses_grow(names, *x, few, many),
        Expr::Clone(x, _) => law_uses_grow(names, *x, few, many),
        Expr::Run(x, _) => law_uses_grow(names, *x, few, many),
        Expr::Join(x, _) => law_uses_grow(names, *x, few, many),
        Expr::Cancel(x, _) => law_uses_grow(names, *x, few, many),
        Expr::ListConstruct(es, _) => {
            let i = choose|i: int| 0 <= i < es@.len() && uses(names, #[trigger] es@[i], few);
            law_uses_grow(names, es@[i], few, many);
        },
        Expr::MapConstruct(es, _) => {
            let i = choose|i: int|
                0 <= i < es@.len() && (uses(names, (#[trigger] es@[i]).0, few) || uses(names, es@[i].1, few));
            if uses(names, es@[i].0, few) {
                law_uses_grow(names, es@[i].0, few, many);
            } else {
                law_uses_grow(names, es@[i].1, few, many);
            }
        },
        Expr::Handle(target, _, body, _) => {
            if uses(names, *target, few) {
                law_uses_grow(names, *target, few, many);
            } else {
                law_block_uses_grow(names, body, few, many);
            }
        },
        Expr::StringInterpolation(ps, _) => {
            let i = choose|i: int|
                0 <= i < ps@.len() && (match #[trigger] ps@[i] {
                    StringPart::Expr(x) => uses(names, x, few),
                    _ => false,
                });
            match ps@[i] {
                StringPart::Expr(x) => law_uses_grow(names, x, few, many),
                _ => {},
            }
        },
        Expr::Pipeline(base, steps, _) => {
            if uses(names, *base, few) {
                law_uses_grow(names, *base, few, many);
            } else {
                let i = choose|i: int| 0 <= i < steps@.len() && step_uses(names, #[trigger] steps@[i], few);
                step_uses_more(names, steps@[i], few, many);
            }
        },
        Expr::InlineFn(_, ret, body, _) => {
            if block_uses(names, body, few) {
                law_block_uses_grow(names, body, few, many);
            } else {
                law_mentions_grow(ret->0, few, many);
            }
        },
        _ => {},
    }
}

proof fn step_uses_more(names: Names, step: PipelineStep, few: TypeParams, many: TypeParams)
    requires
        few.subset_of(many),
        step_uses(names, step, few),
    ensures
        step_uses(names, step, many),
        few != Set::<Seq<char>>::empty(),
    decreases step,
{
    if uses(names, step.function, few) {
        law_uses_grow(names, step.function, few, many);
    } else {
        args_use_more(names, step.extra_args, few, many);
    }
}

proof fn maybe_uses_more(names: Names, e: Option<Expr>, few: TypeParams, many: TypeParams)
    requires
        few.subset_of(many),
        maybe_uses(names, e, few),
    ensures
        maybe_uses(names, e, many),
        few != Set::<Seq<char>>::empty(),
    decreases e,
{
    match e {
        Some(x) => law_uses_grow(names, x, few, many),
        None => {},
    }
}

/// The same of a block.
pub proof fn law_block_uses_grow(names: Names, b: Block, few: TypeParams, many: TypeParams)
    requires
        few.subset_of(many),
        block_uses(names, b, few),
    ensures
        block_uses(names, b, many),
        few != Set::<Seq<char>>::empty(),
    decreases b,
{
    let i = choose|i: int| 0 <= i < b.stmts@.len() && stmt_uses(names, #[trigger] b.stmts@[i], few);
    stmt_uses_more(names, b.stmts@[i], few, many);
}

proof fn stmt_uses_more(names: Names, s: Stmt, few: TypeParams, many: TypeParams)
    requires
        few.subset_of(many),
        stmt_uses(names, s, few),
    ensures
        stmt_uses(names, s, many),
        few != Set::<Seq<char>>::empty(),
    decreases s,
{
    match s {
        Stmt::VarDecl(d) => law_uses_grow(names, d.value, few, many),
        Stmt::Assign(a) => {
            if uses(names, a.target, few) {
                law_uses_grow(names, a.target, few, many);
            } else {
                law_uses_grow(names, a.value, few, many);
            }
        },
        Stmt::Return(r) => maybe_uses_more(names, r.value, few, many),
        Stmt::Respond(r) => law_uses_grow(names, r.value, few, many),
        Stmt::ComptimeTypeBind(b) => {
            if uses(names, b.value, few) {
                law_uses_grow(names, b.value, few, many);
            } else {
                law_block_uses_grow(names, b.body, few, many);
            }
        },
        Stmt::If(i) => {
            if uses(names, i.condition, few) {
                law_uses_grow(names, i.condition, few, many);
            } else if block_uses(names, i.then_block, few) {
                law_block_uses_grow(names, i.then_block, few, many);
            } else if i.else_block is Some && block_uses(names, i.else_block->0, few) {
                law_block_uses_grow(names, i.else_block->0, few, many);
            } else {
                let j = choose|j: int|
                    0 <= j < i.else_ifs@.len() && (uses(names, (#[trigger] i.else_ifs@[j]).0, few)
                        || block_uses(names, i.else_ifs@[j].1, few));
                if uses(names, i.else_ifs@[j].0, few) {
                    law_uses_grow(names, i.else_ifs@[j].0, few, many);
                } else {
                    law_block_uses_grow(names, i.else_ifs@[j].1, few, many);
                }
            }
        },
        Stmt::For(f) => {
            if uses(names, f.iterable, few) {
                law_uses_grow(names, f.iterable, few, many);
            } else {
                law_block_uses_grow(names, f.body, few, many);
            }
        },
        Stmt::While(w) => {
            if uses(names, w.condition, few) {
                law_uses_grow(names, w.condition, few, many);
            } else {
                law_block_uses_grow(names, w.body, few, many);
            }
        },
        Stmt::Match(m) => {
            if uses(names, m.expr, few) {
                law_uses_grow(names, m.expr, few, many);
            } else {
                let j = choose|j: int|
                    0 <= j < m.arms@.len() && block_uses(names, (#[trigger] m.arms@[j]).body, few);
                law_block_uses_grow(names, m.arms@[j].body, few, many);
            }
        },
        Stmt::Expr(x) => law_uses_grow(names, x.expr, few, many),
        Stmt::Assert(a) => {
            if uses(names, a.condition, few) {
                law_uses_grow(names, a.condition, few, many);
            } else {
                maybe_uses_more(names, a.message, few, many);
            }
        },
        Stmt::Breakpoint(b) => maybe_uses_more(names, b.condition, few, many),
        _ => {},
    }
}

// ---------------------------------------------------------------------------
// Places
// ---------------------------------------------------------------------------

/// Where a place is named at which a statement looks at a type parameter, the statement does.
pub proof fn law_places_are_uses(names: Names, s: Stmt, tp: TypeParams)
    ensures
        stmt_place(names, s, tp) is Some ==> stmt_uses(names, s, tp),
    decreases s, 0nat,
{
    match s {
        Stmt::ComptimeTypeBind(b) => law_block_places_are_uses(names, b.body, 0, tp),
        Stmt::If(i) => {
            law_block_places_are_uses(names, i.then_block, 0, tp);
            else_if_places_are_uses(names, i.else_ifs, 0, tp);
            if let Some(b) = i.else_block {
                law_block_places_are_uses(names, b, 0, tp);
            }
            reveal_with_fuel(branches_place, 2);
        },
        Stmt::For(f) => law_block_places_are_uses(names, f.body, 0, tp),
        Stmt::While(w) => law_block_places_are_uses(names, w.body, 0, tp),
        Stmt::Match(m) => arm_places_are_uses(names, m.arms, 0, tp),
        _ => {},
    }
}

/// The same of a block, from a statement on.
pub proof fn law_block_places_are_uses(names: Names, b: Block, i: nat, tp: TypeParams)
    ensures
        block_place(names, b, i, tp) is Some ==> block_uses(names, b, tp),
    decreases b, b.stmts@.len() - i,
{
    if i < b.stmts@.len() {
        law_places_are_uses(names, b.stmts@[i as int], tp);
        law_block_places_are_uses(names, b, i + 1, tp);
        reveal_with_fuel(block_place, 2);
    }
}

proof fn else_if_places_are_uses(names: Names, es: Vec<(Expr, Block)>, i: nat, tp: TypeParams)
    ensures
        else_ifs_place(names, es, i, tp) is Some ==> exists|j: int|
            0 <= j < es@.len() && block_uses(names, (#[trigger] es@[j]).1, tp),
    decreases es, es@.len() - i,
{
    if i < es@.len() {
        law_block_places_are_uses(names, es@[i as int].1, 0, tp);
        else_if_places_are_uses(names, es, i + 1, tp);
        reveal_with_fuel(else_ifs_place, 2);
    }
}

proof fn arm_places_are_uses(names: Names, arms: Vec<MatchArm>, i: nat, tp: TypeParams)
    ensures
        arms_place(names, arms, i, tp) is Some ==> exists|j: int|
            0 <= j < arms@.len() && block_uses(names, (#[trigger] arms@[j]).body, tp),
    decreases arms, arms@.len() - i,
{
    if i < arms@.len() {
        law_block_places_are_uses(names, arms@[i as int].body, 0, tp);
        arm_places_are_uses(names, arms, i + 1, tp);
        reveal_with_fuel(arms_place, 2);
    }
}

/// A statement that looks at a type parameter in what it evaluates first is named at that place.
pub proof fn law_first_places(names: Names, s: Stmt, tp: TypeParams)
    ensures
        ({
            let first = match s {
                Stmt::VarDecl(d) => Some(d.value),
                Stmt::Assign(a) => Some(a.target),
                Stmt::Return(r) => r.value,
                Stmt::Respond(r) => Some(r.value),
                Stmt::ComptimeTypeBind(b) => Some(b.value),
                Stmt::If(i) => Some(i.condition),
                Stmt::For(f) => Some(f.iterable),
                Stmt::While(w) => Some(w.condition),
                Stmt::Match(m) => Some(m.expr),
                Stmt::Expr(e) => Some(e.expr),
                Stmt::Assert(a) => Some(a.condition),
                Stmt::Breakpoint(b) => b.condition,
                _ => None,
            };
            first matches Some(e) ==> (uses(names, e, tp) ==> stmt_place(names, s, tp) == Some(expr_span(e))
                && stmt_uses(names, s, tp))
        }),
{
    reveal_with_fuel(stmt_place, 2);
    reveal_with_fuel(stmt_uses, 2);
}

/// What an expression looks at, its parts look at, or it asks for a type that mentions a
/// parameter.
pub proof fn law_what_uses_type_parameters(names: Names, e: Expr, tp: TypeParams)
    ensures
        match e {
            Expr::Binary(l, _, r, _) => uses(names, e, tp) <==> uses(names, *l, tp) || uses(names, *r, tp),
            Expr::Unary(_, x, _) => uses(names, e, tp) <==> uses(names, *x, tp),
            Expr::FieldAccess(x, _, _) => uses(names, e, tp) <==> uses(names, *x, tp),
            Expr::Paren(x, _) => uses(names, e, tp) <==> uses(names, *x, tp),
            Expr::View(x, _) => uses(names, e, tp) <==> uses(names, *x, tp),
            Expr::Handle(x, _, b, _) => uses(names, e, tp) <==> uses(names, *x, tp) || block_uses(names, b, tp),
            Expr::Call(callee, args, _) => uses(names, e, tp) <==> uses(names, *callee, tp) || exists|i: int|
                0 <= i < args@.len() && uses(names, (#[trigger] args@[i]).value, tp),
            Expr::Ident(_) | Expr::IntLiteral(_, _) | Expr::BoolLiteral(_, _) => !uses(names, e, tp),
            _ => true,
        },
{
    reveal_with_fuel(uses, 2);
}

} // verus!
