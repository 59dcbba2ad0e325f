//! What a condition on a machine's state says inside a branch.
use vstd::prelude::*;

use crate::ast::{Expr, Ident, IfStmt, UnaryOp};
use crate::resolution::{definition_at, DefId, Names, ResolveResult};
use crate::state::{intern_type, State, TypeChecker};
use crate::steady::{has, keeps, known};
use crate::table::{look, views};
use crate::types::{
    state_named, ty, MachineId, MachineShape, MachineShapeV, MachineStateId, Type, TypeId,
};

verus! {

broadcast use crate::steady::group_steady;

/// A branch of an `if`.
#[derive(Debug, Clone, Copy, PartialEq, Eq, Structural)]
pub enum Branch {
    Then,
    ElseIf(usize),
    Else,
}

/// That a variable is, or is not, at a state.
pub struct StateFact {
    pub def: DefId,
    pub state: String,
    pub holds: bool,
}

pub struct StateFactV {
    pub def: DefId,
    pub state: Seq<char>,
    pub holds: bool,
}

impl View for StateFact {
    type V = StateFactV;

    open spec fn view(&self) -> StateFactV {
        StateFactV { def: self.def, state: self.state@, holds: self.holds }
    }
}

/// The variable that the expression is, in any number of parentheses.
pub open spec fn plain_ident(e: Expr) -> Option<Ident>
    decreases e,
{
    match e {
        Expr::Ident(ident) => Some(ident),
        Expr::Paren(x, _) => plain_ident(*x),
        _ => None,
    }
}

/// `x at state`
pub open spec fn positive_check(e: Expr) -> Option<(Ident, Ident)>
    decreases e,
{
    match e {
        Expr::Paren(x, _) => positive_check(*x),
        Expr::At(x, state, _) => match plain_ident(*x) {
            Some(ident) => Some((ident, state)),
            None => None,
        },
        _ => None,
    }
}

/// `not x at state`
pub open spec fn negative_check(e: Expr) -> Option<(Ident, Ident)>
    decreases e,
{
    match e {
        Expr::Paren(x, _) => negative_check(*x),
        Expr::Unary(op, x, _) => if op == UnaryOp::Not {
            positive_check(*x)
        } else {
            None
        },
        _ => None,
    }
}

/// The variable and state that a condition tests, and whether the variable is
/// at the state where the condition turns out as `truth`.
pub open spec fn tested_state(e: Expr, truth: bool) -> Option<(Ident, Ident, bool)> {
    match positive_check(e) {
        Some((ident, state)) => Some((ident, state, truth)),
        None => match negative_check(e) {
            Some((ident, state)) => Some((ident, state, !truth)),
            None => None,
        },
    }
}

/// The facts with what a condition tells added. `None` where it tells of a
/// variable that is not defined.
pub open spec fn add_fact(
    names: Names,
    found: Option<Seq<StateFactV>>,
    e: Expr,
    truth: bool,
) -> Option<Seq<StateFactV>> {
    match found {
        None => None,
        Some(facts) => match tested_state(e, truth) {
            None => Some(facts),
            Some((ident, state, holds)) => match definition_at(names, ident.span) {
                None => None,
                Some(def) => Some(facts.push(StateFactV { def, state: state.name@, holds })),
            },
        },
    }
}

/// The facts from the `else if` conditions between `j` and `n` that did not hold.
pub open spec fn add_failed(
    names: Names,
    found: Option<Seq<StateFactV>>,
    i: IfStmt,
    j: nat,
    n: nat,
) -> Option<Seq<StateFactV>>
    decreases n - j,
{
    if j >= n || j >= i.else_ifs@.len() {
        found
    } else {
        add_failed(names, add_fact(names, found, i.else_ifs@[j as int].0, false), i, j + 1, n)
    }
}

/// What is known at the start of a branch: its own condition holds and those
/// before it do not.
#[verifier::opaque]
pub open spec fn branch_facts(names: Names, i: IfStmt, b: Branch) -> Option<Seq<StateFactV>> {
    match b {
        Branch::Then => add_fact(names, Some(Seq::empty()), i.condition, true),
        Branch::ElseIf(k) => add_failed(
            names,
            add_fact(
                names,
                add_fact(names, Some(Seq::empty()), i.else_ifs@[k as int].0, true),
                i.condition,
                false,
            ),
            i,
            0,
            k as nat,
        ),
        Branch::Else => add_failed(
            names,
            add_fact(names, Some(Seq::empty()), i.condition, false),
            i,
            0,
            i.else_ifs@.len(),
        ),
    }
}

/// Whether the branch has a condition of its own that tests a state.
pub open spec fn own_test(i: IfStmt, b: Branch) -> bool {
    match b {
        Branch::Then => tested_state(i.condition, true) is Some,
        Branch::ElseIf(k) => tested_state(i.else_ifs@[k as int].0, true) is Some,
        Branch::Else => false,
    }
}

/// The variable that a branch says something of: that of its own condition, or
/// the only one that the conditions before it speak of.
pub open spec fn branch_variable(i: IfStmt, b: Branch, facts: Seq<StateFactV>) -> Option<DefId> {
    if facts.len() == 0 {
        None
    } else if own_test(i, b) || (forall|j: int|
        0 <= j < facts.len() ==> (#[trigger] facts[j]).def == facts[0].def) {
        Some(facts[0].def)
    } else {
        None
    }
}

pub open spec fn about(facts: Seq<StateFactV>, def: DefId, j: int) -> bool {
    0 <= j < facts.len() && facts[j].def == def
}

/// Whether the facts say that the variable is not at the state.
pub open spec fn ruled_out(m: MachineShapeV, facts: Seq<StateFactV>, def: DefId, state: MachineStateId) -> bool {
    exists|j: int|
        #[trigger] about(facts, def, j) && !facts[j].holds && state_named(m, facts[j].state) == Some(
            state,
        )
}

/// Whether the facts say that the variable is at the state.
pub open spec fn required(m: MachineShapeV, facts: Seq<StateFactV>, def: DefId, state: MachineStateId) -> bool {
    exists|j: int|
        #[trigger] about(facts, def, j) && facts[j].holds && state_named(m, facts[j].state) == Some(
            state,
        )
}

/// Whether no other state than this one is left.
pub open spec fn only_left(m: MachineShapeV, facts: Seq<StateFactV>, def: DefId, state: MachineStateId) -> bool {
    &&& state.0 < m.states.len()
    &&& !ruled_out(m, facts, def, state)
    &&& forall|k: usize|
        k < m.states.len() && k != state.0 ==> #[trigger] ruled_out(
            m,
            facts,
            def,
            MachineStateId(k),
        )
}

/// Whether a fact on the variable names a state that the machine does not have.
pub open spec fn names_unknown(m: MachineShapeV, facts: Seq<StateFactV>, def: DefId) -> bool {
    exists|j: int| #[trigger] about(facts, def, j) && state_named(m, facts[j].state) is None
}

/// The state is the one that the facts require. A variable that may be at any
/// state (`whole`) is also known to be at the last one left.
pub open spec fn settles(
    m: MachineShapeV,
    facts: Seq<StateFactV>,
    def: DefId,
    whole: bool,
    state: MachineStateId,
) -> bool {
    &&& !names_unknown(m, facts, def)
    &&& !ruled_out(m, facts, def, state)
    &&& if exists|other: MachineStateId| required(m, facts, def, other) {
        forall|other: MachineStateId|
            #[trigger] required(m, facts, def, other) ==> other == state
    } else {
        whole && only_left(m, facts, def, state)
    }
    &&& (exists|other: MachineStateId| required(m, facts, def, other)) ==> required(
        m,
        facts,
        def,
        state,
    )
}

pub open spec fn settled_state(
    m: MachineShapeV,
    facts: Seq<StateFactV>,
    def: DefId,
    whole: bool,
) -> Option<MachineStateId> {
    if exists|state: MachineStateId| settles(m, facts, def, whole, state) {
        Some(choose|state: MachineStateId| settles(m, facts, def, whole, state))
    } else {
        None
    }
}

/// The machine of a variable, and whether it may be at any state.
pub open spec fn machine_of(t: Type) -> Option<(MachineId, bool)> {
    match t {
        Type::Machine(m) => Some((m, true)),
        Type::MachineState { machine, state } => Some((machine, false)),
        _ => None,
    }
}

/// The variable that is at a known state inside the branch, and its type there.
#[verifier::opaque]
pub open spec fn narrow(s: State, i: IfStmt, b: Branch) -> (State, Option<(DefId, TypeId)>) {
    match branch_facts(s.names, i, b) {
        None => (s, None),
        Some(facts) => match branch_variable(i, b, facts) {
            None => (s, None),
            Some(def) => match look(s.type_env, def) {
                None => (s, None),
                Some(id) => match machine_of(ty(s.types, id)) {
                    None => (s, None),
                    Some((machine, whole)) => match settled_state(
                        s.types.machines[machine.0 as int],
                        facts,
                        def,
                        whole,
                    ) {
                        None => (s, None),
                        Some(state) => {
                            let (s1, narrowed) = intern_type(s, Type::MachineState { machine, state });
                            (s1, Some((def, narrowed)))
                        },
                    },
                },
            },
        },
    }
}

fn narrowable_ident_expr(e: &Expr) -> (r: Option<&Ident>)
    ensures
        r is Some <==> plain_ident(*e) is Some,
        r matches Some(x) ==> plain_ident(*e) == Some(*x),
    decreases e,
{
    match e {
        Expr::Ident(ident) => Some(ident),
        Expr::Paren(x, _) => narrowable_ident_expr(x),
        _ => None,
    }
}

fn positive_machine_state_check(e: &Expr) -> (r: Option<(&Ident, &Ident)>)
    ensures
        r is Some <==> positive_check(*e) is Some,
        r matches Some((x, y)) ==> positive_check(*e) == Some((*x, *y)),
    decreases e,
{
    match e {
        Expr::Paren(x, _) => positive_machine_state_check(x),
        Expr::At(x, state, _) => match narrowable_ident_expr(x) {
            Some(ident) => Some((ident, state)),
            None => None,
        },
        _ => None,
    }
}

fn negative_machine_state_check(e: &Expr) -> (r: Option<(&Ident, &Ident)>)
    ensures
        r is Some <==> negative_check(*e) is Some,
        r matches Some((x, y)) ==> negative_check(*e) == Some((*x, *y)),
    decreases e,
{
    match e {
        Expr::Paren(x, _) => negative_machine_state_check(x),
        Expr::Unary(op, x, _) => {
            if *op == UnaryOp::Not {
                positive_machine_state_check(x)
            } else {
                None
            }
        },
        _ => None,
    }
}

fn machine_state_fact(e: &Expr, truth: bool) -> (r: Option<(&Ident, &Ident, bool)>)
    ensures
        r is Some <==> tested_state(*e, truth) is Some,
        r matches Some((x, y, h)) ==> tested_state(*e, truth) == Some((*x, *y, h)),
{
    match positive_machine_state_check(e) {
        Some((ident, state)) => Some((ident, state, truth)),
        None => match negative_machine_state_check(e) {
            Some((ident, state)) => Some((ident, state, !truth)),
            None => None,
        },
    }
}

pub open spec fn maybe_state_facts(o: Option<Vec<StateFact>>) -> Option<Seq<StateFactV>> {
    match o {
        Some(v) => Some(views(v@)),
        None => None,
    }
}

impl ResolveResult {
    fn add_fact(&self, found: Option<Vec<StateFact>>, e: &Expr, truth: bool) -> (r: Option<
        Vec<StateFact>,
    >)
        ensures
            maybe_state_facts(r) == add_fact(self@, maybe_state_facts(found), *e, truth),
    {
        match found {
            None => None,
            Some(facts) => match machine_state_fact(e, truth) {
                None => Some(facts),
                Some((ident, state, holds)) => match self.declaration_def_id(ident.span) {
                    None => None,
                    Some(def) => {
                        let mut facts = facts;
                        let ghost before = views(facts@);
                        let fact = StateFact { def, state: state.name.clone(), holds };
                        let ghost shown = fact@;
                        facts.push(fact);
                        assert(views(facts@) =~= before.push(shown));
                        Some(facts)
                    },
                },
            },
        }
    }

    fn add_failed(&self, found: Option<Vec<StateFact>>, i: &IfStmt, n: usize) -> (r: Option<
        Vec<StateFact>,
    >)
        ensures
            maybe_state_facts(r) == add_failed(self@, maybe_state_facts(found), *i, 0, n as nat),
    {
        let ghost start = maybe_state_facts(found);
        let mut facts = found;
        let mut j: usize = 0;
        while j < n && j < i.else_ifs.len()
            invariant
                j <= i.else_ifs@.len(),
                add_failed(self@, maybe_state_facts(facts), *i, j as nat, n as nat) == add_failed(
                    self@,
                    start,
                    *i,
                    0,
                    n as nat,
                ),
            decreases i.else_ifs@.len() - j,
        {
            facts = self.add_fact(facts, &i.else_ifs[j].0, false);
            j = j + 1;
        }
        facts
    }

    fn branch_facts(&self, i: &IfStmt, b: Branch) -> (r: Option<Vec<StateFact>>)
        requires
            b matches Branch::ElseIf(k) ==> k < i.else_ifs@.len(),
        ensures
            maybe_state_facts(r) == branch_facts(self@, *i, b),
    {
        proof {
            reveal(branch_facts);
        }
        let none: Vec<StateFact> = Vec::new();
        assert(views(none@) =~= Seq::<StateFactV>::empty());
        match b {
            Branch::Then => self.add_fact(Some(none), &i.condition, true),
            Branch::ElseIf(k) => {
                let own = self.add_fact(Some(none), &i.else_ifs[k].0, true);
                let first = self.add_fact(own, &i.condition, false);
                self.add_failed(first, i, k)
            },
            Branch::Else => {
                let first = self.add_fact(Some(none), &i.condition, false);
                self.add_failed(first, i, i.else_ifs.len())
            },
        }
    }
}

fn branch_variable_of(i: &IfStmt, b: Branch, facts: &Vec<StateFact>) -> (r: Option<DefId>)
    requires
        b matches Branch::ElseIf(k) ==> k < i.else_ifs@.len(),
    ensures
        r == branch_variable(*i, b, views(facts@)),
{
    let ghost vs = views(facts@);
    if facts.len() == 0 {
        return None;
    }
    let own = match b {
        Branch::Then => machine_state_fact(&i.condition, true).is_some(),
        Branch::ElseIf(k) => machine_state_fact(&i.else_ifs[k].0, true).is_some(),
        Branch::Else => false,
    };
    assert(vs[0] == facts@[0]@);
    if own {
        return Some(facts[0].def);
    }
    let mut j: usize = 0;
    while j < facts.len()
        invariant
            j <= facts@.len(),
            facts@.len() > 0,
            vs == views(facts@),
            !own_test(*i, b),
            forall|q: int| 0 <= q < j ==> (#[trigger] vs[q]).def == vs[0].def,
        decreases facts@.len() - j,
    {
        assert(vs[j as int] == facts@[j as int]@);
        assert(vs[0] == facts@[0]@);
        if facts[j].def != facts[0].def {
            assert(vs[j as int].def != vs[0].def);
            return None;
        }
        j = j + 1;
    }
    Some(facts[0].def)
}

fn is_ruled_out(m: &MachineShape, facts: &Vec<StateFact>, def: DefId, state: MachineStateId) -> (r: bool)
    ensures
        r == ruled_out(m@, views(facts@), def, state),
{
    let ghost vs = views(facts@);
    let mut j: usize = 0;
    while j < facts.len()
        invariant
            j <= facts@.len(),
            vs == views(facts@),
            forall|q: int|
                0 <= q < j && #[trigger] about(vs, def, q) && !vs[q].holds ==> state_named(
                    m@,
                    vs[q].state,
                ) != Some(state),
        decreases facts@.len() - j,
    {
        assert(vs[j as int] == facts@[j as int]@);
        if facts[j].def == def && !facts[j].holds {
            if let Some(id) = m.state_id(&facts[j].state) {
                if id == state {
                    assert(about(vs, def, j as int));
                    return true;
                }
            }
        }
        j = j + 1;
    }
    false
}

/// The state that a variable is at, where the facts settle it.
fn settle(m: &MachineShape, facts: &Vec<StateFact>, def: DefId, whole: bool) -> (r: Option<
    MachineStateId,
>)
    ensures
        r == settled_state(m@, views(facts@), def, whole),
{
    let ghost vs = views(facts@);
    let mut needed: Option<MachineStateId> = None;
    let mut j: usize = 0;
    while j < facts.len()
        invariant
            j <= facts@.len(),
            vs == views(facts@),
            forall|q: int|
                0 <= q < j && #[trigger] about(vs, def, q) ==> state_named(m@, vs[q].state) is Some,
            needed is None ==> forall|q: int|
                0 <= q < j && #[trigger] about(vs, def, q) ==> !vs[q].holds,
            needed matches Some(n) ==> required(m@, vs, def, n) && forall|q: int|
                0 <= q < j && #[trigger] about(vs, def, q) && vs[q].holds ==> state_named(
                    m@,
                    vs[q].state,
                ) == Some(n),
        decreases facts@.len() - j,
    {
        assert(vs[j as int] == facts@[j as int]@);
        if facts[j].def == def {
            assert(about(vs, def, j as int));
            match m.state_id(&facts[j].state) {
                None => {
                    assert(names_unknown(m@, vs, def));
                    assert(forall|s: MachineStateId| !settles(m@, vs, def, whole, s));
                    return None;
                },
                Some(id) => {
                    if facts[j].holds {
                        assert(required(m@, vs, def, id));
                        match needed {
                            Some(n) => {
                                if n != id {
                                    assert(required(m@, vs, def, n));
                                    assert(forall|s: MachineStateId|
                                        !settles(m@, vs, def, whole, s));
                                    return None;
                                }
                            },
                            None => {},
                        }
                        needed = Some(id);
                    }
                },
            }
        }
        j = j + 1;
    }
    assert(!names_unknown(m@, vs, def));
    match needed {
        Some(n) => {
            assert forall|other: MachineStateId| #[trigger] required(m@, vs, def, other) implies other
                == n by {
                let q = choose|q: int|
                    #[trigger] about(vs, def, q) && vs[q].holds && state_named(m@, vs[q].state)
                        == Some(other);
                assert(about(vs, def, q));
            }
            if is_ruled_out(m, facts, def, n) {
                assert forall|s: MachineStateId| !settles(m@, vs, def, whole, s) by {
                    if settles(m@, vs, def, whole, s) {
                        assert(required(m@, vs, def, n));
                        assert(s == n);
                    }
                }
                None
            } else {
                assert(settles(m@, vs, def, whole, n));
                assert forall|s: MachineStateId| settles(m@, vs, def, whole, s) implies s == n by {
                    assert(required(m@, vs, def, n));
                }
                Some(n)
            }
        },
        None => {
            assert forall|other: MachineStateId| !required(m@, vs, def, other) by {
                if required(m@, vs, def, other) {
                    let q = choose|q: int|
                        #[trigger] about(vs, def, q) && vs[q].holds && state_named(m@, vs[q].state)
                            == Some(other);
                    assert(about(vs, def, q));
                }
            }
            if !whole {
                assert(forall|s: MachineStateId| !settles(m@, vs, def, whole, s));
                return None;
            }
            let mut left: Option<MachineStateId> = None;
            let mut k: usize = 0;
            while k < m.states.len()
                invariant
                    k <= m.states@.len(),
                    whole,
                    !names_unknown(m@, vs, def),
                    vs == views(facts@),
                    forall|other: MachineStateId| !required(m@, vs, def, other),
                    left is None ==> forall|q: usize|
                        q < k ==> #[trigger] ruled_out(m@, vs, def, MachineStateId(q)),
                    left matches Some(n) ==> n.0 < k && !ruled_out(m@, vs, def, n) && forall|q: usize|
                        q < k && q != n.0 ==> #[trigger] ruled_out(m@, vs, def, MachineStateId(q)),
                decreases m.states@.len() - k,
            {
                if !is_ruled_out(m, facts, def, MachineStateId(k)) {
                    match left {
                        Some(n) => {
                            assert forall|s: MachineStateId| !settles(m@, vs, def, whole, s) by {
                                if settles(m@, vs, def, whole, s) {
                                    assert(only_left(m@, vs, def, s));
                                    if s.0 != n.0 {
                                        assert(ruled_out(m@, vs, def, MachineStateId(n.0)));
                                        assert(MachineStateId(n.0) == n);
                                    } else {
                                        assert(ruled_out(m@, vs, def, MachineStateId(k)));
                                    }
                                }
                            }
                            return None;
                        },
                        None => {
                            left = Some(MachineStateId(k));
                        },
                    }
                }
                k = k + 1;
            }
            proof {
                match left {
                    Some(n) => {
                        assert(only_left(m@, vs, def, n));
                        assert(settles(m@, vs, def, whole, n));
                        assert forall|s: MachineStateId| settles(m@, vs, def, whole, s) implies s == n by {
                            if s.0 != n.0 {
                                assert(ruled_out(m@, vs, def, MachineStateId(s.0)));
                                assert(MachineStateId(s.0) == s);
                            }
                        }
                    },
                    None => {
                        assert forall|s: MachineStateId| !settles(m@, vs, def, whole, s) by {
                            if settles(m@, vs, def, whole, s) {
                                assert(only_left(m@, vs, def, s));
                                assert(ruled_out(m@, vs, def, MachineStateId(s.0)));
                                assert(MachineStateId(s.0) == s);
                            }
                        }
                    },
                }
            }
            left
        },
    }
}

impl<'a> TypeChecker<'a> {
    pub(crate) fn machine_state_narrowing_for_branch(&mut self, i: &IfStmt, b: Branch) -> (r: Option<
        (DefId, TypeId),
    >)
        requires
            b matches Branch::ElseIf(k) ==> k < i.else_ifs@.len(),
        ensures
            keeps(old(self)@, final(self)@),
            known(old(self)@)
                ==> known(final(self)@) && (r matches Some((_, x)) ==> has(final(self)@, x)),
            (final(self)@, r) == narrow(old(self)@, *i, b),
    {
        proof {
            reveal(narrow);
        }
        match self.names().branch_facts(i, b) {
            None => None,
            Some(facts) => match branch_variable_of(i, b, &facts) {
                None => None,
                Some(def) => match self.get_type_env(def) {
                    None => None,
                    Some(id) => {
                        let (machine, whole) = match self.interner().resolve(id) {
                            Type::Machine(m) => (m, true),
                            Type::MachineState { machine, state } => (machine, false),
                            _ => {
                                return None;
                            },
                        };
                        let found = settle(
                            self.interner().resolve_machine(machine),
                            &facts,
                            def,
                            whole,
                        );
                        match found {
                            None => None,
                            Some(state) => {
                                let narrowed: usize = self.intern(
                                    Type::MachineState { machine, state },
                                );
                                Some((def, narrowed))
                            },
                        }
                    },
                },
            },
        }
    }
}

} // verus!
