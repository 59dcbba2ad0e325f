//! Where variables are known to be at a state.
use vstd::prelude::*;

use crate::ast::{Block, Expr, Ident, IfStmt, UnaryOp};
use crate::check_blocks::{branch_block, check_block, overridden_block};
use crate::narrowing::{
    about, add_fact, add_failed, branch_facts, branch_variable, machine_of, names_unknown, narrow,
    negative_check, only_left, plain_ident, positive_check, required, ruled_out, settled_state,
    settles, tested_state, Branch, StateFactV,
};
use crate::resolution::{definition_at, DefId, Names};
use crate::span::Span;
use crate::state::{intern_type, State};
use crate::types::{state_named, ty, MachineId, MachineStateId, Type, TypeId};

verus! {

/// `x at state` tests `x` for the state, in any number of parentheses, and `not x at state`
/// tests it for the other states.
pub proof fn law_tests_of_variables(x: Ident, state: Ident, inner: Box<Expr>, truth: bool, span: Span)
    ensures
        plain_ident(Expr::Ident(x)) == Some(x),
        plain_ident(Expr::Paren(inner, span)) == plain_ident(*inner),
        plain_ident(*inner) == Some(x) ==> tested_state(Expr::At(inner, state, span), truth) == Some(
            (x, state, truth),
        ),
        *inner is At && plain_ident(*inner->At_0) == Some(x) ==> tested_state(
            Expr::Unary(UnaryOp::Not, inner, span),
            truth,
        ) == Some((x, inner->At_1, !truth)),
        tested_state(Expr::Paren(inner, span), truth) == tested_state(*inner, truth),
{
    reveal_with_fuel(plain_ident, 2);
    reveal_with_fuel(positive_check, 2);
    reveal_with_fuel(negative_check, 2);
}

/// Whether a condition says that the variable is at the state.
pub open spec fn says_at(names: Names, e: Expr, def: DefId, state: Seq<char>) -> bool {
    e matches Expr::At(x, name, _) && name.name@ == state && (*x matches Expr::Ident(ident) && definition_at(
        names,
        ident.span,
    ) == Some(def))
}

/// A variable of a machine may be at any of its states, one of a machine at a state is not.
pub proof fn law_machines_of_variables(machine: MachineId, state: MachineStateId, t: Type)
    ensures
        machine_of(Type::Machine(machine)) == Some((machine, true)),
        machine_of(Type::MachineState { machine, state }) == Some((machine, false)),
        !(t is Machine) && !(t is MachineState) ==> machine_of(t) is None,
{
}

/// Where the condition of an `if` says that a variable is at a state of its machine, it has
/// the type of the machine at that state in the branch.
pub proof fn law_variables_are_at_the_tested_state(
    s: State,
    i: IfStmt,
    def: DefId,
    name: Seq<char>,
    machine: MachineId,
    state: MachineStateId,
)
    requires
        says_at(s.names, i.condition, def, name),
        s.type_env.contains_key(def),
        machine_of(ty(s.types, s.type_env[def])) matches Some((m, _)) && m == machine,
        state_named(s.types.machines[machine.0 as int], name) == Some(state),
    ensures
        ({
            let (s1, id) = intern_type(s, Type::MachineState { machine, state });
            narrow(s, i, Branch::Then) == (s1, Some((def, id)))
        }),
{
    reveal(narrow);
    reveal(branch_facts);
    reveal_with_fuel(plain_ident, 2);
    reveal_with_fuel(positive_check, 2);
    let m = s.types.machines[machine.0 as int];
    let facts = seq![StateFactV { def, state: name, holds: true }];
    assert(branch_facts(s.names, i, Branch::Then) == Some(facts)) by {
        assert(Seq::<StateFactV>::empty().push(facts[0]) =~= facts);
    }
    assert(branch_variable(i, Branch::Then, facts) == Some(def));
    let (_, whole) = machine_of(ty(s.types, s.type_env[def]))->0;
    assert(about(facts, def, 0));
    assert(required(m, facts, def, state));
    assert(!ruled_out(m, facts, def, state));
    assert(!names_unknown(m, facts, def));
    assert forall|other: MachineStateId| #[trigger] required(m, facts, def, other) implies other == state by {}
    assert(settles(m, facts, def, whole, state));
    assert forall|other: MachineStateId| settles(m, facts, def, whole, other) implies other == state by {
        assert(required(m, facts, def, state));
    }
    assert(settled_state(m, facts, def, whole) == Some(state));
}

/// Where an `if` without further conditions tests a variable that may be at any of two states,
/// the variable is at the other one in the last branch.
pub proof fn law_variables_are_at_the_other_state(
    s: State,
    i: IfStmt,
    def: DefId,
    name: Seq<char>,
    machine: MachineId,
    state: MachineStateId,
    other: MachineStateId,
)
    requires
        says_at(s.names, i.condition, def, name),
        i.else_ifs@.len() == 0,
        s.type_env.contains_key(def),
        ty(s.types, s.type_env[def]) == Type::Machine(machine),
        state_named(s.types.machines[machine.0 as int], name) == Some(state),
        s.types.machines[machine.0 as int].states.len() == 2,
        state.0 < 2,
        other.0 < 2,
        other != state,
    ensures
        ({
            let (s1, id) = intern_type(s, Type::MachineState { machine, state: other });
            narrow(s, i, Branch::Else) == (s1, Some((def, id)))
        }),
{
    reveal(narrow);
    reveal(branch_facts);
    reveal_with_fuel(plain_ident, 2);
    reveal_with_fuel(positive_check, 2);
    reveal_with_fuel(add_failed, 2);
    let m = s.types.machines[machine.0 as int];
    let facts = seq![StateFactV { def, state: name, holds: false }];
    assert(branch_facts(s.names, i, Branch::Else) == Some(facts)) by {
        assert(Seq::<StateFactV>::empty().push(facts[0]) =~= facts);
    }
    assert(branch_variable(i, Branch::Else, facts) == Some(def));
    assert(about(facts, def, 0));
    assert(ruled_out(m, facts, def, state));
    assert(!ruled_out(m, facts, def, other));
    assert(!names_unknown(m, facts, def));
    assert forall|x: MachineStateId| !(#[trigger] required(m, facts, def, x)) by {}
    assert forall|k: usize| k < m.states.len() && k != other.0 implies #[trigger] ruled_out(
        m,
        facts,
        def,
        MachineStateId(k),
    ) by {
        assert(MachineStateId(k) == state);
    }
    assert(only_left(m, facts, def, other));
    assert(settles(m, facts, def, true, other));
    assert forall|x: MachineStateId| settles(m, facts, def, true, x) implies x == other by {
        if x != other {
            let k: usize = other.0;
            assert(ruled_out(m, facts, def, MachineStateId(k)));
        }
    }
    assert(settled_state(m, facts, def, true) == Some(other));
}

/// In a branch, the conditions before it do not hold, and its own does.
pub proof fn law_what_is_known_in_a_branch(
    names: Names,
    i: IfStmt,
    k: usize,
    found: Option<Seq<StateFactV>>,
    j: nat,
    n: nat,
)
    ensures
        branch_facts(names, i, Branch::Then) == add_fact(names, Some(Seq::empty()), i.condition, true),
        branch_facts(names, i, Branch::ElseIf(k)) == add_failed(
            names,
            add_fact(
                names,
                add_fact(names, Some(Seq::empty()), i.else_ifs@[k as int].0, true),
                i.condition,
                false,
            ),
            i,
            0,
            k as nat,
        ),
        branch_facts(names, i, Branch::Else) == add_failed(
            names,
            add_fact(names, Some(Seq::empty()), i.condition, false),
            i,
            0,
            i.else_ifs@.len(),
        ),
        j < n && j < i.else_ifs@.len() ==> add_failed(names, found, i, j, n) == add_failed(
            names,
            add_fact(names, found, i.else_ifs@[j as int].0, false),
            i,
            j + 1,
            n,
        ),
        j >= n ==> add_failed(names, found, i, j, n) == found,
{
    reveal(branch_facts);
    reveal_with_fuel(add_failed, 2);
}

/// What a test tells is that the variable is, or is not, at the state. A condition that is no
/// test tells nothing.
pub proof fn law_what_a_condition_tells(names: Names, facts: Seq<StateFactV>, e: Expr, truth: bool)
    ensures
        match tested_state(e, truth) {
            None => add_fact(names, Some(facts), e, truth) == Some(facts),
            Some((x, state, holds)) => match definition_at(names, x.span) {
                None => add_fact(names, Some(facts), e, truth) is None,
                Some(def) => add_fact(names, Some(facts), e, truth) == Some(
                    facts.push(StateFactV { def, state: state.name@, holds }),
                ),
            },
        },
        add_fact(names, None, e, truth) is None,
{
}

/// A variable that is no machine, or of which nothing is known, keeps its type.
pub proof fn law_nothing_else_is_narrowed(s: State, i: IfStmt, branch: Branch, b: Block, d: nat)
    ensures
        branch_facts(s.names, i, branch) == Some(Seq::<StateFactV>::empty()) ==> narrow(s, i, branch) == (
            s,
            None::<(DefId, TypeId)>,
        ),
        narrow(s, i, branch).1 matches Some((def, id)) ==> s.type_env.contains_key(def) && (ty(
            s.types,
            s.type_env[def],
        ) is Machine || ty(s.types, s.type_env[def]) is MachineState),
        narrow(s, i, branch).1 is None ==> branch_block(s, i, branch, b, d) == check_block(
            narrow(s, i, branch).0,
            b,
            d,
        ),
        narrow(s, i, branch).1 matches Some((def, id)) ==> ({
            let s1 = narrow(s, i, branch).0;
            let inside = check_block(State { type_env: s1.type_env.insert(def, id), ..s1 }, b, d);
            let after = branch_block(s, i, branch, b, d);
            &&& after == (State { type_env: after.type_env, ..inside })
            &&& s1.type_env.contains_key(def) ==> after.type_env == inside.type_env.insert(def, s1.type_env[def])
        }),
{
    reveal(narrow);
    reveal_with_fuel(branch_block, 2);
    reveal_with_fuel(overridden_block, 2);
}

} // verus!
