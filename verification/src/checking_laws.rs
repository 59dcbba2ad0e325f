//! What holds of checking as a whole.
use vstd::prelude::*;

use crate::ast::{
    expr_span, BitfieldField, BitfieldFieldKind, Block, EnumVariantDef, Expr, FunctionDef, IfStmt,
    ImplementBlock, MachineStateDef, MachineTransitionDef,
};
use crate::check_blocks::{branch_block, uncovered};
use crate::check_calls::{instance_of, instantiate, Generic};
use crate::check_construct::missing_fields;
use crate::check_exprs::{check_expected, check_expr};
use crate::check_rules::{argument, call_result, callee_pure, purity_reports};
use crate::declare::{
    bits_slot, earlier_state, next_number, payload_slot, slots_from, states_from, transitions_from,
    unknown_state, variant_at, variants_from,
};
use crate::diagnostics::{error, error_after, ErrorCode};
use crate::made::{ground, is_instance, made, made_is_found};
use crate::names::{canonical, pure_params};
use crate::narrowing::{
    about, names_unknown, narrow, only_left, required, ruled_out, settled_state, settles, Branch,
    StateFactV,
};
use crate::reflect_written::{any_secret, declared_fields};
use crate::resolution::DefId;
use crate::signatures::{implement_types, register_function, register_implement};
use crate::span::Span;
use crate::state::{report, State};
use crate::steady::grows;
use crate::table::look;
use crate::type_laws::law_made_secret_once;
use crate::type_names::name_of;
use crate::type_rules::{compatible, impure_builtin, output_boundary};
use crate::types::{
    sound, state_named, state_named_from, ty, BitfieldFieldShapeV, BitfieldSlot, EnumShapeV,
    MachineShapeV, MachineStateId, MachineStateShapeV, MachineTransition, TypeId, TypeInterner,
    VariantShapeV,
};
use crate::reflection::{MachineStateInfoV, MachineTransitionInfoV};
use crate::written_types::{alias_at, can_be_made, made_earlier, resolve_fields, struct_at};

verus! {

// ---------------------------------------------------------------------------
// Types
// ---------------------------------------------------------------------------

/// A generic struct is made once for the same arguments: from then on they give the
/// same type, and nothing changes.
pub proof fn law_generic_structs_are_made_once(
    s: State,
    name: Seq<char>,
    args: Seq<TypeId>,
    span: Span,
    depth: nat,
    later: Span,
    more: nat,
)
    requires
        depth > 0,
        made_earlier(s, name, args) is Some || can_be_made(s, name, args),
    ensures
        ({
            let (after, id) = struct_at(s, name, args, span, depth);
            struct_at(after, name, args, later, more) == (after, id)
        }),
{
}

/// A generic struct that was made is named after its arguments and has the fields of
/// its template with the arguments in them, however long ago it was made.
pub proof fn law_generic_structs_are_instances(s: State, name: Seq<char>, args: Seq<TypeId>)
    requires
        made(s),
    ensures
        made_earlier(s, name, args) matches Some(id) ==> is_instance(ground(s), id, name, args),
{
    made_is_found(ground(s), s.monos, name, args, s.monos.len());
}

/// A place that has a type keeps one, whatever is looked at later.
pub proof fn law_noted_places_stay_noted(a: State, b: State)
    requires
        grows(a, b),
    ensures
        a.type_map.dom().subset_of(b.type_map.dom()),
{
    reveal(grows);
}

/// The body of a generic function is checked once for the same arguments: from then
/// on nothing changes.
pub proof fn law_instances_are_checked_once(s: State, f: FunctionDef, g: Generic, d: nat)
    requires
        s.instances.contains(instance_of(f, g)),
    ensures
        instantiate(s, f, g, d) == s,
{
}

/// A type that implements an interface may stand where the interface is asked for.
pub proof fn law_implementations_fit(s: State, block: ImplementBlock)
    requires
        sound(register_implement(s, block).types),
    ensures
        ({
            let (s1, interface, owner) = implement_types(s, block);
            let after = register_implement(s, block);
            interface != TypeInterner::ERROR && owner != TypeInterner::ERROR && ty(after.types, interface)
                is Interface && !(ty(after.types, owner) is Interface) ==> compatible(
                after.types,
                after.impls,
                interface,
                owner,
            )
        }),
{
}

/// An alias is resolved once: from then on its name gives the same type, and nothing
/// changes.
pub proof fn law_aliases_are_resolved_once(s: State, name: Seq<char>, span: Span, depth: nat, later: Span, more: nat)
    requires
        s.aliases.contains_key(name),
        !s.resolving.contains(name),
        depth > 0,
    ensures
        ({
            let (after, id) = alias_at(s, name, span, depth);
            &&& after.named_types.contains_key(name)
            &&& after.named_types[name] == id
            &&& alias_at(after, name, later, more) == (after, id)
        }),
{
}

/// The type found for an expression is noted at its place.
pub proof fn law_types_are_noted(s: State, e: Expr, expected: TypeId, allow: bool, d: nat)
    ensures
        ({
            let (after, t) = check_expr(s, e, d);
            after.type_map.contains_key(expr_span(e)) && after.type_map[expr_span(e)] == t
        }),
        ({
            let (after, t) = check_expected(s, e, expected, allow, d);
            after.type_map.contains_key(expr_span(e)) && after.type_map[expr_span(e)] == t
        }),
{
}

// ---------------------------------------------------------------------------
// Declarations
// ---------------------------------------------------------------------------

/// The number of a variant: the one that is written, or the one after that of the
/// variant before, starting from 0.
pub open spec fn number_of(defs: Seq<EnumVariantDef>, i: int) -> i64
    decreases i,
{
    match defs[i].discriminant {
        Some(d) => d,
        None => if i <= 0 {
            0
        } else {
            next_number(number_of(defs, i - 1))
        },
    }
}

proof fn lemma_variants(s: State, owner: Seq<char>, defs: Seq<EnumVariantDef>, next: i64, found: Seq<VariantShapeV>)
    requires
        found.len() <= defs.len(),
        found.len() == 0 ==> next == 0,
        found.len() > 0 ==> next == next_number(found.last().discriminant),
        forall|i: int|
            0 <= i < found.len() ==> (#[trigger] found[i]).name == defs[i].name.name@ && found[i].discriminant
                == number_of(defs, i),
    ensures
        ({
            let vs = variants_from(s, owner, defs, next, found).1;
            &&& vs.len() == defs.len()
            &&& forall|i: int|
                0 <= i < vs.len() ==> (#[trigger] vs[i]).name == defs[i].name.name@ && vs[i].discriminant
                    == number_of(defs, i)
        }),
    decreases defs.len() - found.len(),
{
    if found.len() < defs.len() {
        let (s1, v) = variant_at(s, owner, defs, next, found);
        let n = found.len() as int;
        assert(v.discriminant == number_of(defs, n)) by {
            if n > 0 {
                assert(found.last() == found[n - 1]);
            }
        }
        lemma_variants(s1, owner, defs, next_number(v.discriminant), found.push(v));
    }
}

/// An enum keeps its variants in order, each with its number.
pub proof fn law_variants_are_numbered(s: State, owner: Seq<char>, defs: Seq<EnumVariantDef>)
    ensures
        ({
            let vs = variants_from(s, owner, defs, 0, Seq::empty()).1;
            &&& vs.len() == defs.len()
            &&& forall|i: int|
                0 <= i < vs.len() ==> (#[trigger] vs[i]).name == defs[i].name.name@ && vs[i].discriminant
                    == number_of(defs, i)
        }),
{
    lemma_variants(s, owner, defs, 0, Seq::empty());
}

/// Whether a slot is what was written.
pub open spec fn slot_as_written(field: BitfieldField, slot: BitfieldFieldShapeV) -> bool {
    slot.name == field.name.name@ && slot.kind == match field.kind {
        BitfieldFieldKind::Bits { width, as_type } => BitfieldSlot::Bits { width },
        BitfieldFieldKind::Payload(_) => BitfieldSlot::Payload,
    }
}

proof fn lemma_slots(
    s: State,
    owner: Seq<char>,
    fields: Seq<BitfieldField>,
    bytes: TypeId,
    bits: nat,
    i: nat,
    found: Seq<BitfieldFieldShapeV>,
)
    requires
        i == found.len() <= fields.len(),
        forall|j: int| 0 <= j < found.len() ==> slot_as_written(fields[j], #[trigger] found[j]),
    ensures
        ({
            let slots = slots_from(s, owner, fields, bytes, bits, i, found).1;
            &&& slots.len() == fields.len()
            &&& forall|j: int| 0 <= j < slots.len() ==> slot_as_written(fields[j], #[trigger] slots[j])
        }),
    decreases fields.len() - i,
{
    if i < fields.len() {
        let field = fields[i as int];
        let (s1, id, kind, wide) = match field.kind {
            BitfieldFieldKind::Bits { width, as_type } => {
                let (s1, id) = bits_slot(s, owner, field, width, as_type);
                (s1, id, BitfieldSlot::Bits { width }, width as nat)
            },
            BitfieldFieldKind::Payload(t) => {
                let (s1, id) = payload_slot(s, owner, field, t, bytes, i + 1 == fields.len(), bits);
                (s1, id, BitfieldSlot::Payload, 0)
            },
        };
        let slot = BitfieldFieldShapeV { name: field.name.name@, ty: id, kind };
        lemma_slots(s1, owner, fields, bytes, bits + wide, i + 1, found.push(slot));
    }
}

/// A bitfield keeps its fields in order, whatever is wrong with them.
pub proof fn law_slots_are_kept_in_order(s: State, owner: Seq<char>, fields: Seq<BitfieldField>, bytes: TypeId)
    ensures
        ({
            let slots = slots_from(s, owner, fields, bytes, 0, 0, Seq::empty()).1;
            &&& slots.len() == fields.len()
            &&& forall|j: int| 0 <= j < slots.len() ==> slot_as_written(fields[j], #[trigger] slots[j])
        }),
{
    lemma_slots(s, owner, fields, bytes, 0, 0, Seq::empty());
}

/// Whether one of the states has the name.
pub open spec fn has_state(states: Seq<MachineStateShapeV>, name: Seq<char>) -> bool {
    exists|k: int| 0 <= k < states.len() && (#[trigger] states[k]).name == name
}

/// Whether no two states have the same name.
pub open spec fn states_differ(states: Seq<MachineStateShapeV>) -> bool {
    forall|a: int, b: int|
        0 <= a < b < states.len() ==> (#[trigger] states[a]).name != (#[trigger] states[b]).name
}

proof fn lemma_earlier_state(defs: Seq<MachineStateDef>, i: nat, j: nat)
    ensures
        earlier_state(defs, i, j) is Some <==> exists|k: int|
            j <= k < i && (#[trigger] defs[k]).name.name@ == defs[i as int].name.name@,
    decreases i - j,
{
    if j < i && defs[j as int].name.name@ != defs[i as int].name.name@ {
        lemma_earlier_state(defs, i, j + 1);
    }
}

proof fn lemma_states(
    s: State,
    owner: Seq<char>,
    defs: Seq<MachineStateDef>,
    namespace: Option<Seq<char>>,
    i: nat,
    found: Seq<MachineStateShapeV>,
    infos: Seq<MachineStateInfoV>,
)
    requires
        i <= defs.len(),
        states_differ(found),
        forall|j: int| 0 <= j < i ==> has_state(found, (#[trigger] defs[j]).name.name@),
        forall|k: int|
            0 <= k < found.len() ==> exists|j: int|
                0 <= j < i && (#[trigger] defs[j]).name.name@ == (#[trigger] found[k]).name,
    ensures
        ({
            let states = states_from(s, owner, defs, namespace, i, found, infos).1;
            &&& states_differ(states)
            &&& forall|j: int| 0 <= j < defs.len() ==> has_state(states, (#[trigger] defs[j]).name.name@)
        }),
    decreases defs.len() - i,
{
    if i < defs.len() {
        let def = defs[i as int];
        let name = def.name.name@;
        lemma_earlier_state(defs, i, 0);
        match earlier_state(defs, i, 0) {
            Some(earlier) => {
                let k = choose|k: int| 0 <= k < i && (#[trigger] defs[k]).name.name@ == name;
                assert(has_state(found, defs[k].name.name@));
                lemma_states(
                    report(
                        s,
                        error_after(
                            ErrorCode::DuplicateMachineState,
                            def.name.span,
                            seq![owner, name],
                            earlier,
                        ),
                    ),
                    owner,
                    defs,
                    namespace,
                    i + 1,
                    found,
                    infos,
                );
            },
            None => {
                let (s1, fields) = resolve_fields(s, def.fields);
                let (s2, told) = declared_fields(
                    s1,
                    def.fields@,
                    fields,
                    namespace,
                    0,
                    Seq::empty(),
                );
                let info = MachineStateInfoV {
                    index: found.len() as usize,
                    name,
                    has_secret: any_secret(told),
                    fields: told,
                };
                let more = found.push(MachineStateShapeV { name, fields });
                assert forall|j: int| 0 <= j < i + 1 implies has_state(
                    more,
                    (#[trigger] defs[j]).name.name@,
                ) by {
                    if j < i {
                        assert(has_state(found, defs[j].name.name@));
                        let k = choose|k: int|
                            0 <= k < found.len() && (#[trigger] found[k]).name == defs[j].name.name@;
                        assert(more[k].name == defs[j].name.name@);
                    } else {
                        assert(more[found.len() as int].name == name);
                    }
                }
                assert forall|k: int| 0 <= k < more.len() implies exists|j: int|
                    0 <= j < i + 1 && (#[trigger] defs[j]).name.name@ == (#[trigger] more[k]).name by {
                    if k < found.len() {
                        assert(more[k] == found[k]);
                        let j = choose|j: int|
                            0 <= j < i && (#[trigger] defs[j]).name.name@ == found[k].name;
                        assert(defs[j].name.name@ == more[k].name);
                    } else {
                        assert(defs[i as int].name.name@ == more[k].name);
                    }
                }
                assert(states_differ(more)) by {
                    assert forall|a: int, b: int| 0 <= a < b < more.len() implies (#[trigger] more[a]).name
                        != (#[trigger] more[b]).name by {
                        if b == found.len() {
                            assert(more[a] == found[a]);
                            let j = choose|j: int|
                                0 <= j < i && (#[trigger] defs[j]).name.name@ == found[a].name;
                            assert(defs[j].name.name@ != name);
                        } else {
                            assert(more[a] == found[a] && more[b] == found[b]);
                        }
                    }
                }
                lemma_states(s2, owner, defs, namespace, i + 1, more, infos.push(info));
            },
        }
    }
}

/// The states of a machine have different names, and every name that is written is
/// among them.
pub proof fn law_states_differ(s: State, owner: Seq<char>, defs: Seq<MachineStateDef>, namespace: Option<Seq<char>>)
    ensures
        ({
            let states = states_from(s, owner, defs, namespace, 0, Seq::empty(), Seq::empty()).1;
            &&& states_differ(states)
            &&& forall|j: int| 0 <= j < defs.len() ==> has_state(states, (#[trigger] defs[j]).name.name@)
        }),
{
    lemma_states(s, owner, defs, namespace, 0, Seq::empty(), Seq::empty());
}

proof fn lemma_state_named(states: Seq<MachineStateShapeV>, name: Seq<char>, i: nat)
    requires
        states.len() <= usize::MAX,
    ensures
        state_named_from(states, name, i) matches Some(id) ==> id.0 < states.len() && states[id.0 as int].name
            == name,
    decreases states.len() - i,
{
    if i < states.len() && states[i as int].name != name {
        lemma_state_named(states, name, i + 1);
    }
}

/// Whether every transition goes between states of the machine.
pub open spec fn transitions_known(m: MachineShapeV) -> bool {
    forall|i: int|
        0 <= i < m.transitions.len() ==> (#[trigger] m.transitions[i]).from.0 < m.states.len()
            && m.transitions[i].to.0 < m.states.len()
}

/// Transitions go between states of the machine, whatever was written.
pub proof fn law_transitions_are_known(
    s: State,
    defs: Seq<MachineTransitionDef>,
    i: nat,
    m: MachineShapeV,
    infos: Seq<MachineTransitionInfoV>,
)
    requires
        transitions_known(m),
        m.states.len() <= usize::MAX,
    ensures
        transitions_known(transitions_from(s, defs, i, m, infos).1),
        transitions_from(s, defs, i, m, infos).1.states == m.states,
    decreases defs.len() - i,
{
    if i < defs.len() {
        let def = defs[i as int];
        let from = state_named(m, def.from.name@);
        let to = state_named(m, def.to.name@);
        lemma_state_named(m.states, def.from.name@, 0);
        lemma_state_named(m.states, def.to.name@, 0);
        if from is None {
            law_transitions_are_known(unknown_state(s, m.name, def, true), defs, i + 1, m, infos);
        } else if to is None {
            law_transitions_are_known(unknown_state(s, m.name, def, false), defs, i + 1, m, infos);
        } else {
            let info = MachineTransitionInfoV {
                index: m.transitions.len() as usize,
                source_index: (from->0).0,
                source: def.from.name@,
                target_index: (to->0).0,
                target: def.to.name@,
            };
            let step = MachineTransition { from: from->0, to: to->0 };
            let m1 = MachineShapeV { transitions: m.transitions.push(step), ..m };
            assert(transitions_known(m1));
            law_transitions_are_known(s, defs, i + 1, m1, infos.push(info));
        }
    }
}

/// Whether a variable at `state` agrees with what is known of it.
pub open spec fn agrees(
    m: MachineShapeV,
    facts: Seq<StateFactV>,
    def: DefId,
    state: MachineStateId,
) -> bool {
    forall|j: int| #[trigger]
        about(facts, def, j) ==> (facts[j].holds <==> state_named(m, facts[j].state) == Some(state))
}

/// Inside a branch a variable is taken to be at the state at which it is: no other
/// agrees with the conditions that lead there.
pub proof fn law_narrowing_is_sound(
    m: MachineShapeV,
    facts: Seq<StateFactV>,
    def: DefId,
    whole: bool,
    state: MachineStateId,
)
    requires
        state.0 < m.states.len(),
        agrees(m, facts, def, state),
    ensures
        settled_state(m, facts, def, whole) matches Some(settled) ==> settled == state,
{
    if let Some(settled) = settled_state(m, facts, def, whole) {
        assert(settles(m, facts, def, whole, settled));
        if settled != state {
            if exists|other: MachineStateId| required(m, facts, def, other) {
                assert(required(m, facts, def, settled));
            } else {
                let k: usize = state.0;
                assert(ruled_out(m, facts, def, MachineStateId(k)));
            }
        }
    }
}

/// A test of a state settles it, and so do tests that rule out all others where the
/// variable may be at any state.
pub proof fn law_tests_settle_the_state(
    m: MachineShapeV,
    facts: Seq<StateFactV>,
    def: DefId,
    whole: bool,
    state: MachineStateId,
)
    requires
        !names_unknown(m, facts, def),
        agrees(m, facts, def, state),
        required(m, facts, def, state) || whole && only_left(m, facts, def, state),
    ensures
        settled_state(m, facts, def, whole) == Some(state),
{
    assert forall|other: MachineStateId| #[trigger] required(m, facts, def, other) implies other
        == state by {}
    assert(settles(m, facts, def, whole, state));
    assert forall|other: MachineStateId| settles(m, facts, def, whole, other) implies other
        == state by {
        if !(exists|o: MachineStateId| required(m, facts, def, o)) && other != state {
            let k: usize = other.0;
            assert(ruled_out(m, facts, def, MachineStateId(k)));
        }
    }
}

/// Inside a branch a variable has a type of its own only there: behind the branch it
/// has the type that it had before.
pub proof fn law_narrowing_ends_with_the_branch(
    s: State,
    i: IfStmt,
    branch: Branch,
    b: Block,
    d: nat,
)
    ensures
        narrow(s, i, branch).1 matches Some((def, _)) ==> look(
            branch_block(s, i, branch, b, d).type_env,
            def,
        ) == look(s.type_env, def),
{
    reveal(narrow);
}

// ---------------------------------------------------------------------------
// Purity
// ---------------------------------------------------------------------------

/// A declared function counts as pure exactly where no parameter is a capability.
pub proof fn law_capabilities_make_impure(s: State, f: FunctionDef, namespace: Option<Seq<char>>)
    requires
        !impure_builtin(canonical(namespace, f.name.name@)),
    ensures
        ({
            let after = register_function(s, f, namespace);
            callee_pure(after, Some(canonical(namespace, f.name.name@))) <==> pure_params(
                after.names,
                f.params@,
            )
        }),
{
}

/// A call of an impure function is reported in a pure function and in a verify
/// block, and nowhere else; a call of a pure function never is.
pub proof fn law_impure_calls_are_reported(s: State, callee: Seq<char>, span: Span)
    ensures
        purity_reports(s, Some(callee), true, span) == s,
        !s.context.function_pure && !s.context.in_verify ==> purity_reports(
            s,
            Some(callee),
            false,
            span,
        ) == s,
        s.context.function_pure && s.context.function_name is Some && !s.context.in_verify
            ==> purity_reports(s, Some(callee), false, span).reports == s.reports.push(
            error(ErrorCode::PureCallsImpure, span, seq![s.context.function_name->0, callee]),
        ),
        !s.context.function_pure && s.context.in_verify && s.context.verify_name is Some
            ==> purity_reports(s, Some(callee), false, span).reports == s.reports.push(
            error(ErrorCode::VerifyCallsImpure, span, seq![s.context.verify_name->0, callee]),
        ),
{
    reveal(purity_reports);
}

// ---------------------------------------------------------------------------
// Secrets
// ---------------------------------------------------------------------------

/// A secret that is handed to the outside is reported.
pub proof fn law_secrets_do_not_go_out(
    s: State,
    name: Seq<char>,
    pure: bool,
    label: Seq<char>,
    param: TypeId,
    arg: TypeId,
    span: Span,
)
    requires
        sound(s.types),
        output_boundary(name),
        ty(s.types, arg) is Secret,
        !(ty(s.types, param) is Refinement),
    ensures
        ({
            let (after, lifted) = argument(s, Some(name), pure, label, param, arg, span);
            &&& !lifted
            &&& after.reports == s.reports.push(
                error(ErrorCode::SecretExposure, span, seq![name, name_of(s.types, arg)]),
            )
        }),
{
    reveal(argument);
}

/// A secret goes into a call as its public form only where the call is pure, and
/// hands nothing to the outside; what the call gives is then secret.
pub proof fn law_secrets_come_back_secret(
    s: State,
    name: Seq<char>,
    pure: bool,
    label: Seq<char>,
    param: TypeId,
    arg: TypeId,
    span: Span,
    ret: TypeId,
)
    requires
        sound(s.types),
        argument(s, Some(name), pure, label, param, arg, span).1,
        ret < s.types.types.len() < usize::MAX,
        ret != TypeInterner::ERROR,
        ret != TypeInterner::NOTHING,
    ensures
        pure,
        !output_boundary(name),
        ({
            let (after, t) = call_result(s, Some(name), pure, true, ret);
            ty(after.types, t) is Secret
        }),
{
    reveal(argument);
    law_made_secret_once(s.types, ret);
}

// ---------------------------------------------------------------------------
// Completeness
// ---------------------------------------------------------------------------

/// A `match` leaves nothing uncovered exactly where every variant is named.
pub proof fn law_matches_cover_all_variants(def: EnumShapeV, names: Seq<Seq<char>>, j: nat)
    ensures
        uncovered(def, names, j) is None <==> forall|i: int|
            j <= i < def.variants.len() ==> names.contains((#[trigger] def.variants[i]).name),
    decreases def.variants.len() - j,
{
    if j < def.variants.len() {
        law_matches_cover_all_variants(def, names, j + 1);
    }
}

/// A constructor reports each field that has no value, and no other.
pub proof fn law_missing_fields_are_reported(
    s: State,
    owner: Seq<char>,
    names: Seq<Seq<char>>,
    assigned: Seq<bool>,
    i: nat,
    span: Span,
    k: int,
)
    requires
        names.len() == assigned.len(),
        i <= k < names.len(),
    ensures
        ({
            let after = missing_fields(s, owner, names, assigned, i, span);
            &&& after == (State { reports: after.reports, ..s })
            &&& s.reports.len() <= after.reports.len()
            &&& forall|j: int| 0 <= j < s.reports.len() ==> after.reports[j] == s.reports[j]
            &&& !assigned[k] ==> exists|j: int|
                s.reports.len() <= j < after.reports.len() && #[trigger] after.reports[j] == error(
                    ErrorCode::MissingConstructorField,
                    span,
                    seq![owner, names[k]],
                )
            &&& (forall|j: int| i <= j < assigned.len() ==> assigned[j]) ==> after == s
        }),
    decreases names.len() - i,
{
    let next = if assigned[i as int] {
        s
    } else {
        crate::check_rules::report2(
            s,
            ErrorCode::MissingConstructorField,
            span,
            owner,
            names[i as int],
        )
    };
    if i < k {
        law_missing_fields_are_reported(next, owner, names, assigned, i + 1, span, k);
    } else if i + 1 < names.len() {
        law_missing_fields_are_reported(next, owner, names, assigned, i + 1, span, i as int + 1);
    } else {
        assert(missing_fields(next, owner, names, assigned, i + 1, span) == next);
    }
    let after = missing_fields(s, owner, names, assigned, i, span);
    assert(after == missing_fields(next, owner, names, assigned, i + 1, span));
    if i == k && !assigned[k] {
        assert(next.reports[s.reports.len() as int] == error(
            ErrorCode::MissingConstructorField,
            span,
            seq![owner, names[k]],
        ));
        assert(after.reports[s.reports.len() as int] == next.reports[s.reports.len() as int]);
    }
}

} // verus!
