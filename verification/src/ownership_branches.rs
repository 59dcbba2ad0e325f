//! What branches, loops and arms do to the ownership of variables.
use vstd::prelude::*;

use crate::ast::{
    Block, ComptimeTypeBindStmt, Expr, IfStmt, Item, MatchStmt, Stmt, VarDecl, WhileStmt,
};
use crate::ownership::{
    after_arms, after_block, after_decl, after_else_ifs, after_expr, after_if, after_item,
    after_items, after_stmt, block_exits, branch, exits, first_consuming, join, Branching,
    OwnershipState, Standing, Surroundings, Vars,
};
use crate::ownership_laws::{
    law_consumed_in_a_branch_is_consumed, law_owned_in_all_branches_is_owned,
};

verus! {

/// Control does not pass a return or a response, nor an `if` with an `else` none of whose
/// branches it leaves. It passes everything else. It leaves a block that holds nothing that it
/// does not pass.
pub proof fn law_where_control_ends(s: Stmt, b: Block)
    ensures
        exits(s) <==> match s {
            Stmt::Return(_) => true,
            Stmt::Respond(_) => true,
            Stmt::If(i) => i.else_block is Some && block_exits(i.then_block) && block_exits(i.else_block->0) && (
            forall|j: int| 0 <= j < i.else_ifs@.len() ==> block_exits((#[trigger] i.else_ifs@[j]).1)),
            _ => false,
        },
        block_exits(b) <==> exists|i: int| 0 <= i < b.stmts@.len() && exits(#[trigger] b.stmts@[i]),
{
    reveal_with_fuel(exits, 2);
    reveal_with_fuel(block_exits, 2);
}

/// What the condition of an `if` leaves of the variables.
pub open spec fn after_condition(w: Surroundings, s: Standing, i: IfStmt) -> Standing {
    after_expr(w, s, i.condition)
}

/// What the first branch of an `if` leaves of the variables.
pub open spec fn after_then(w: Surroundings, s: Standing, i: IfStmt) -> Standing {
    after_block(w, after_condition(w, s, i), i.then_block, 0)
}

/// Without an `else`, a variable is consumed after an `if` where its condition or its branch
/// consumed it. What a branch consumed that control does not leave is not consumed behind it.
/// The reports are those of the condition and the branch.
pub proof fn law_one_branch(w: Surroundings, s: Standing, i: IfStmt, name: Seq<char>)
    requires
        i.else_ifs@.len() == 0,
        i.else_block is None,
        after_condition(w, s, i).vars.contains_key(name),
        after_then(w, s, i).vars.contains_key(name),
    ensures
        ({
            let cond = after_condition(w, s, i);
            let then = after_then(w, s, i);
            let after = after_stmt(w, s, Stmt::If(i));
            let gone = OwnershipState::Consumed;
            &&& after.reports == then.reports
            &&& after.vars.contains_key(name)
            &&& !block_exits(i.then_block) && (then.vars[name].state == gone || cond.vars[name].state == gone)
                ==> after.vars[name].state == gone
            &&& !block_exits(i.then_block) && then.vars[name].state == OwnershipState::Owned
                && cond.vars[name].state == OwnershipState::Owned ==> after.vars[name].state
                == OwnershipState::Owned
            &&& block_exits(i.then_block) ==> after.vars[name].state == cond.vars[name].state
        }),
{
    reveal_with_fuel(after_stmt, 2);
    reveal_with_fuel(after_if, 2);
    reveal_with_fuel(branch, 2);
    reveal_with_fuel(after_else_ifs, 2);
    let cond = after_condition(w, s, i);
    let then = after_then(w, s, i);
    let gone = OwnershipState::Consumed;
    let reached = if block_exits(i.then_block) {
        seq![cond.vars]
    } else {
        seq![then.vars, cond.vars]
    };
    let b1 = branch(
        w,
        Branching { conditions: cond.vars, reached: Seq::empty(), reports: cond.reports },
        i.then_block,
    );
    assert(Standing { vars: cond.vars, reports: cond.reports } == cond);
    assert(b1.reached.push(cond.vars) =~= reached);
    assert(after_stmt(w, s, Stmt::If(i)) == (Standing {
        vars: join(cond.vars, reached),
        reports: then.reports,
    }));
    if then.vars[name].state == gone && !block_exits(i.then_block) {
        law_consumed_in_a_branch_is_consumed(cond.vars, reached, name, 0);
    }
    if cond.vars[name].state == gone && !block_exits(i.then_block) {
        law_consumed_in_a_branch_is_consumed(cond.vars, reached, name, 1);
    }
    if block_exits(i.then_block) {
        only_one(cond.vars, name);
    } else if then.vars[name].state == OwnershipState::Owned && cond.vars[name].state == OwnershipState::Owned {
        law_owned_in_all_branches_is_owned(cond.vars, reached, name);
    }
}

proof fn only_one(vars: Vars, name: Seq<char>)
    requires
        vars.contains_key(name),
    ensures
        join(vars, seq![vars])[name].state == vars[name].state,
{
    reveal_with_fuel(first_consuming, 2);
    assert(seq![vars].last() == vars);
}

/// With an `else`, a variable is consumed after an `if` where a branch consumed it that control
/// leaves. Both branches start from what the condition leaves.
pub proof fn law_two_branches(w: Surroundings, s: Standing, i: IfStmt, name: Seq<char>)
    requires
        i.else_ifs@.len() == 0,
        i.else_block is Some,
        after_condition(w, s, i).vars.contains_key(name),
        after_then(w, s, i).vars.contains_key(name),
        after_block(
            w,
            Standing { vars: after_condition(w, s, i).vars, reports: after_then(w, s, i).reports },
            i.else_block->0,
            0,
        ).vars.contains_key(name),
    ensures
        ({
            let cond = after_condition(w, s, i);
            let then = after_then(w, s, i);
            let other = after_block(
                w,
                Standing { vars: cond.vars, reports: then.reports },
                i.else_block->0,
                0,
            );
            let after = after_stmt(w, s, Stmt::If(i));
            let gone = OwnershipState::Consumed;
            let owned = OwnershipState::Owned;
            let (a, b) = (block_exits(i.then_block), block_exits(i.else_block->0));
            &&& after.reports == other.reports
            &&& after.vars.contains_key(name)
            &&& !a && !b && (then.vars[name].state == gone || other.vars[name].state == gone)
                ==> after.vars[name].state == gone
            &&& !a && !b && then.vars[name].state == owned && other.vars[name].state == owned
                ==> after.vars[name].state == owned
            &&& a && !b ==> after.vars[name].state == other.vars[name].state
            &&& !a && b ==> after.vars[name].state == then.vars[name].state
            &&& a && b ==> after.vars[name].state == cond.vars[name].state
        }),
{
    reveal_with_fuel(after_stmt, 2);
    reveal_with_fuel(after_if, 2);
    reveal_with_fuel(branch, 2);
    reveal_with_fuel(after_else_ifs, 2);
    let cond = after_condition(w, s, i);
    let then = after_then(w, s, i);
    let other = after_block(w, Standing { vars: cond.vars, reports: then.reports }, i.else_block->0, 0);
    let gone = OwnershipState::Consumed;
    let (a, b) = (block_exits(i.then_block), block_exits(i.else_block->0));
    let reached: Seq<Vars> = if a && b {
        Seq::empty()
    } else if a {
        seq![other.vars]
    } else if b {
        seq![then.vars]
    } else {
        seq![then.vars, other.vars]
    };
    let b1 = branch(
        w,
        Branching { conditions: cond.vars, reached: Seq::empty(), reports: cond.reports },
        i.then_block,
    );
    assert(Standing { vars: cond.vars, reports: cond.reports } == cond);
    assert(branch(w, b1, i.else_block->0).reached =~= reached);
    assert(after_stmt(w, s, Stmt::If(i)) == (Standing {
        vars: join(cond.vars, reached),
        reports: other.reports,
    }));
    if !a && !b {
        if then.vars[name].state == gone {
            law_consumed_in_a_branch_is_consumed(cond.vars, reached, name, 0);
        }
        if other.vars[name].state == gone {
            law_consumed_in_a_branch_is_consumed(cond.vars, reached, name, 1);
        }
        if then.vars[name].state == OwnershipState::Owned && other.vars[name].state == OwnershipState::Owned {
            law_owned_in_all_branches_is_owned(cond.vars, reached, name);
        }
    } else if a != b {
        one_reached(cond.vars, reached[0], name);
    }
}

proof fn one_reached(before: Vars, vars: Vars, name: Seq<char>)
    requires
        before.contains_key(name),
        vars.contains_key(name),
    ensures
        join(before, seq![vars]).contains_key(name),
        join(before, seq![vars])[name].state == vars[name].state,
{
    reveal_with_fuel(first_consuming, 2);
    assert(seq![vars].last() == vars);
}

/// The condition of a further branch is evaluated after those before it, and its block starts
/// from what it leaves. What a block leaves of the variables counts where control leaves it.
pub proof fn law_further_branches(w: Surroundings, b: Branching, else_ifs: Vec<(Expr, Block)>, i: nat)
    ensures
        i >= else_ifs@.len() ==> after_else_ifs(w, b, else_ifs, i) == b,
        i < else_ifs@.len() ==> ({
            let (condition, block) = else_ifs@[i as int];
            let s = after_expr(w, Standing { vars: b.conditions, reports: b.reports }, condition);
            let t = after_block(w, s, block, 0);
            after_else_ifs(w, b, else_ifs, i) == after_else_ifs(
                w,
                Branching {
                    conditions: s.vars,
                    reached: if block_exits(block) {
                        b.reached
                    } else {
                        b.reached.push(t.vars)
                    },
                    reports: t.reports,
                },
                else_ifs,
                i + 1,
            )
        }),
{
    reveal_with_fuel(after_else_ifs, 2);
    reveal_with_fuel(branch, 2);
    if i < else_ifs@.len() {
        let s = after_expr(w, Standing { vars: b.conditions, reports: b.reports }, else_ifs@[i as int].0);
        assert(Standing { vars: s.vars, reports: s.reports } == s);
    }
}

/// The body of a loop is looked at once, after its condition; the arms of a `match` one after
/// the other; the block of a binding as it stands.
pub proof fn law_other_blocks(w: Surroundings, s: Standing, l: WhileStmt, m: MatchStmt, x: ComptimeTypeBindStmt, i: nat)
    ensures
        after_stmt(w, s, Stmt::While(l)) == after_block(w, after_expr(w, s, l.condition), l.body, 0),
        after_stmt(w, s, Stmt::Match(m)) == after_arms(w, after_expr(w, s, m.expr), m, 0),
        i < m.arms@.len() ==> after_arms(w, s, m, i) == after_arms(
            w,
            after_block(w, s, m.arms@[i as int].body, 0),
            m,
            i + 1,
        ),
        i >= m.arms@.len() ==> after_arms(w, s, m, i) == s,
        after_stmt(w, s, Stmt::ComptimeTypeBind(x)) == after_block(w, s, x.body, 0),
{
    reveal_with_fuel(after_stmt, 2);
    reveal_with_fuel(after_arms, 2);
}

/// A declared variable owns what it is given. Items are looked at in their order; only
/// functions and variables matter.
pub proof fn law_declared_variables_are_owned(w: Surroundings, s: Standing, d: VarDecl, items: Seq<Item>, i: nat)
    ensures
        after_stmt(w, s, Stmt::VarDecl(d)).vars.contains_key(d.name.name@),
        after_stmt(w, s, Stmt::VarDecl(d)).vars[d.name.name@].state == OwnershipState::Owned,
        after_stmt(w, s, Stmt::VarDecl(d)).reports == after_expr(w, s, d.value).reports,
        forall|name: Seq<char>|
            name != d.name.name@ ==> (#[trigger] after_stmt(w, s, Stmt::VarDecl(d)).vars.contains_key(name)
                <==> after_expr(w, s, d.value).vars.contains_key(name)),
        after_item(w, s, Item::VarDecl(d)) == after_stmt(w, s, Stmt::VarDecl(d)),
        i < items.len() ==> after_items(w, s, items, i) == after_items(
            w,
            after_item(w, s, items[i as int]),
            items,
            i + 1,
        ),
        i < items.len() && !(items[i as int] is Function) && !(items[i as int] is VarDecl) ==> after_item(
            w,
            s,
            items[i as int],
        ) == s,
{
    reveal_with_fuel(after_stmt, 2);
    reveal_with_fuel(after_decl, 2);
    reveal_with_fuel(after_items, 2);
}

} // verus!
