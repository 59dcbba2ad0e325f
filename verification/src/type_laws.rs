//! What holds of types as a whole.
use vstd::prelude::*;

use crate::steady::{goes_on, ids_last};
use crate::type_rules::{
    all_parts, can_coarsen, can_refine, compatible, contains_secret, fully_coarsened,
    json_odd_keys, json_unsupported, json_unsupported_in, odd_keys_among, open_parts,
    public_projection, refinement_base, revealed, secret_argument, unsupported_among, wrap_secret,
    Impls,
};
use crate::type_walk::{
    chain, law_walk_meets_each_part_once, lemma_made_of_transitive, made_of, named_ids, parts,
    walk, WalkMode,
};
use crate::types::{
    grounded, intern, lemma_basics, sound, ty, MachineId, MachineStateId, MachineStateShapeV, Type, TypeId,
    TypeInterner, Types,
};
use crate::written_types::{apply_one, OneArg};

verus! {

// ---------------------------------------------------------------------------
// Ids
// ---------------------------------------------------------------------------

/// A type that is stored is found again under its id, storing it once more gives
/// the same id and changes nothing, and no other id changes its meaning.
pub proof fn law_stored_types_are_found_again(ts: Types, t: Type)
    requires
        sound(ts),
        grounded(ts, t, ts.types.len()),
        ts.types.len() < usize::MAX,
    ensures
        ({
            let (after, id) = intern(ts, t);
            &&& ty(after, id) == t
            &&& intern(after, t) == (after, id)
            &&& sound(after)
            &&& ids_last(ts, after)
        }),
{
    let (after, id) = intern(ts, t);
    assert(goes_on(ts.types, after.types));
    if ts.types.contains(t) {
        let i = choose|i: int| 0 <= i < ts.types.len() && ts.types[i] == t;
        assert(ts.types.index_of(t) == i);
    } else {
        assert(after.types.last() == t);
        assert(after.types.contains(t));
        assert(after.types.index_of(t) == ts.types.len()) by {
            let k = after.types.index_of(t);
            assert(after.types[k] == t);
            if k < ts.types.len() {
                assert(ts.types[k] == t);
            }
        }
        assert(grounded(after, t, after.types.len()));
        assert forall|i: int| 0 <= i < after.types.len() implies grounded(
            after,
            #[trigger] after.types[i],
            i as nat,
        ) by {
            if i < ts.types.len() {
                assert(grounded(ts, ts.types[i], i as nat));
            }
        }
        assert(after.types.no_duplicates());
    }
}

/// Two types have the same id only where they are the same.
pub proof fn law_ids_tell_types_apart(ts: Types, a: Type, b: Type)
    requires
        sound(ts),
        grounded(ts, a, ts.types.len()),
        grounded(ts, b, ts.types.len()),
        ts.types.len() < usize::MAX - 1,
    ensures
        ({
            let (s1, x) = intern(ts, a);
            let (_, y) = intern(s1, b);
            x == y <==> a == b
        }),
{
    law_stored_types_are_found_again(ts, a);
    let (s1, x) = intern(ts, a);
    assert(grounded(s1, b, s1.types.len()));
    law_stored_types_are_found_again(s1, b);
    let (s2, y) = intern(s1, b);
    if x == y {
        assert(ty(s2, y) == b);
        assert(s1.types[x as int] == s2.types[x as int]);
    }
}

// ---------------------------------------------------------------------------
// Fitting
// ---------------------------------------------------------------------------

/// Every type fits itself, and the error type fits everywhere and takes everything.
pub proof fn law_what_always_fits(ts: Types, impls: Impls, id: TypeId)
    requires
        sound(ts),
    ensures
        compatible(ts, impls, id, id),
        compatible(ts, impls, TypeInterner::ERROR, id),
        compatible(ts, impls, id, TypeInterner::ERROR),
{
}

/// A public value may stand where a secret is asked for.
pub proof fn law_public_values_may_become_secret(ts: Types, impls: Impls, secret: TypeId, inner: TypeId)
    requires
        sound(ts),
        ty(ts, secret) == Type::Secret(inner),
    ensures
        compatible(ts, impls, secret, inner),
    decreases secret,
{
    assert(grounded(ts, ts.types[secret as int], secret as nat));
    assert(compatible(ts, impls, inner, inner));
    if ty(ts, inner) is Secret {
        law_public_values_may_become_secret(ts, impls, inner, ty(ts, inner)->Secret_0);
    }
}

/// A secret does not stand where a public value is asked for.
pub proof fn law_secrets_do_not_become_public(ts: Types, impls: Impls, expected: TypeId, secret: TypeId)
    requires
        sound(ts),
        ty(ts, secret) is Secret,
        !(ty(ts, expected) is Secret),
        !(ty(ts, expected) is Interface),
        expected != TypeInterner::ERROR,
    ensures
        !compatible(ts, impls, expected, secret),
{
    lemma_basics(ts);
}

/// A list, set or optional of public values may become one of secrets, never the
/// other way, as with the values themselves. Only the error type and interfaces say
/// nothing of what they take.
pub proof fn law_secrecy_goes_one_way(
    ts: Types,
    impls: Impls,
    public: TypeId,
    secret: TypeId,
    around: OneArg,
    of_public: TypeId,
    of_secret: TypeId,
)
    requires
        sound(ts),
        public != TypeInterner::ERROR,
        !(ty(ts, public) is Secret),
        !(ty(ts, public) is Interface),
        ty(ts, secret) == Type::Secret(public),
        around != OneArg::Secret,
        ty(ts, of_public) == apply_one(around, public),
        ty(ts, of_secret) == apply_one(around, secret),
    ensures
        compatible(ts, impls, secret, public),
        !compatible(ts, impls, public, secret),
        compatible(ts, impls, of_secret, of_public),
        !compatible(ts, impls, of_public, of_secret),
{
    lemma_basics(ts);
    law_public_values_may_become_secret(ts, impls, secret, public);
    law_secrets_do_not_become_public(ts, impls, public, secret);
}

/// An argument that does not fit as it is fits as a secret exactly where what it
/// holds would fit.
pub proof fn law_secret_arguments(ts: Types, impls: Impls, expected: TypeId, got: TypeId)
    requires
        sound(ts),
    ensures
        ({
            let (fits, lifted) = secret_argument(ts, impls, expected, got);
            &&& lifted ==> fits
            &&& lifted <==> !compatible(ts, impls, expected, got) && ty(ts, got) is Secret && compatible(
                ts,
                impls,
                expected,
                revealed(ts, got),
            )
            &&& fits && !lifted <==> compatible(ts, impls, expected, got)
        }),
{
}

// ---------------------------------------------------------------------------
// Secrets inside
// ---------------------------------------------------------------------------

/// A type holds a secret where it is one, or one of its direct parts holds one.
pub proof fn law_secrets_lie_in_parts(ts: Types, id: TypeId)
    ensures
        contains_secret(ts, id) <==> ty(ts, id) is Secret || exists|p: TypeId| #[trigger]
            parts(ts, open_parts(), ty(ts, id)).contains(p) && contains_secret(ts, p),
{
    let mode = open_parts();
    let ps = parts(ts, mode, ty(ts, id));
    if ty(ts, id) is Secret {
        assert(chain(ts, mode, seq![id]));
        assert(made_of(ts, mode, id, id));
    }
    if exists|p: TypeId| #[trigger] ps.contains(p) && contains_secret(ts, p) {
        let p = choose|p: TypeId| #[trigger] ps.contains(p) && contains_secret(ts, p);
        let x = choose|x: TypeId| #[trigger] made_of(ts, mode, p, x) && ty(ts, x) is Secret;
        assert(chain(ts, mode, seq![id, p]));
        assert(made_of(ts, mode, id, p));
        lemma_made_of_transitive(ts, mode, id, p, x);
    }
    if contains_secret(ts, id) && !(ty(ts, id) is Secret) {
        let x = choose|x: TypeId| #[trigger] made_of(ts, mode, id, x) && ty(ts, x) is Secret;
        let c = choose|c: Seq<TypeId>|
            #![trigger chain(ts, mode, c)]
            chain(ts, mode, c) && c.first() == id && c.last() == x;
        assert(c.len() > 1);
        let p = c[1];
        let first: int = 0;
        assert(parts(ts, mode, ty(ts, c[first])).contains(c[first + 1]));
        let rest = c.drop_first();
        assert forall|i: int| 0 <= i && i + 1 < rest.len() implies parts(
            ts,
            mode,
            ty(ts, #[trigger] rest[i]),
        ).contains(rest[i + 1]) by {
            assert(parts(ts, mode, ty(ts, c[i + 1])).contains(c[i + 1 + 1]));
        }
        assert(chain(ts, mode, rest));
        assert(rest.first() == p && rest.last() == x);
        assert(made_of(ts, mode, p, x));
        assert(contains_secret(ts, p));
    }
}

/// Whether nothing inside the type takes values of other types unseen.
#[verifier::opaque]
pub open spec fn fully_written(ts: Types, id: TypeId) -> bool {
    forall|x: TypeId| #[trigger]
        made_of(ts, open_parts(), id, x) ==> x != TypeInterner::ERROR && !(ty(ts, x) is Interface)
}

proof fn lemma_fully_written(ts: Types, id: TypeId)
    requires
        fully_written(ts, id),
    ensures
        id != TypeInterner::ERROR,
        !(ty(ts, id) is Interface),
{
    reveal(fully_written);
    assert(chain(ts, open_parts(), seq![id]));
    assert(made_of(ts, open_parts(), id, id));
}

proof fn lemma_part_fully_written(ts: Types, id: TypeId, i: int)
    requires
        fully_written(ts, id),
        0 <= i < parts(ts, open_parts(), ty(ts, id)).len(),
    ensures
        fully_written(ts, parts(ts, open_parts(), ty(ts, id))[i]),
{
    reveal(fully_written);
    let mode = open_parts();
    let p = parts(ts, mode, ty(ts, id))[i];
    assert(chain(ts, mode, seq![id, p]));
    assert(made_of(ts, mode, id, p));
    assert forall|x: TypeId| #[trigger] made_of(ts, mode, p, x) implies x != TypeInterner::ERROR && !(ty(
        ts,
        x,
    ) is Interface) by {
        lemma_made_of_transitive(ts, mode, id, p, x);
    }
}

proof fn lemma_secret_in_one(ts: Types, id: TypeId, x: TypeId)
    requires
        parts(ts, open_parts(), ty(ts, id)) == seq![x],
        !(ty(ts, id) is Secret),
    ensures
        contains_secret(ts, id) <==> contains_secret(ts, x),
{
    law_secrets_lie_in_parts(ts, id);
    assert(seq![x][0] == x);
    assert(seq![x].contains(x));
}

proof fn lemma_secret_in_two(ts: Types, id: TypeId, x: TypeId, y: TypeId)
    requires
        parts(ts, open_parts(), ty(ts, id)) == seq![x, y],
        !(ty(ts, id) is Secret),
    ensures
        contains_secret(ts, id) <==> contains_secret(ts, x) || contains_secret(ts, y),
{
    law_secrets_lie_in_parts(ts, id);
    assert(seq![x, y][0] == x);
    assert(seq![x, y][1] == y);
    assert(seq![x, y].contains(x));
    assert(seq![x, y].contains(y));
}

proof fn lemma_state_in_machine(ts: Types, m: MachineId, state: MachineStateId, p: TypeId)
    requires
        parts(ts, open_parts(), Type::MachineState { machine: m, state }).contains(p),
    ensures
        parts(ts, open_parts(), Type::Machine(m)).contains(p),
{
    let states = ts.machines[m.0 as int].states;
    let lists = states.map_values(|s: MachineStateShapeV| named_ids(s.fields));
    assert(lists[state.0 as int] == named_ids(states[state.0 as int].fields));
    lemma_flatten_contains(lists, state.0 as int, p);
}

proof fn lemma_flatten_contains<T>(s: Seq<Seq<T>>, i: int, x: T)
    requires
        0 <= i < s.len(),
        s[i].contains(x),
    ensures
        s.flatten().contains(x),
    decreases s.len(),
{
    assert(s.flatten() == s.first() + s.drop_first().flatten());
    if i == 0 {
        let k = choose|k: int| 0 <= k < s[0].len() && s[0][k] == x;
        assert(s.flatten()[k] == x);
    } else {
        lemma_flatten_contains(s.drop_first(), i - 1, x);
        let rest = s.drop_first().flatten();
        let k = choose|k: int| 0 <= k < rest.len() && rest[k] == x;
        assert(s.flatten()[s.first().len() + k] == x);
    }
}

proof fn lemma_state_secrets(ts: Types, whole: TypeId, part: TypeId)
    requires
        ty(ts, whole) is Machine,
        ty(ts, part) matches Type::MachineState { machine, state } && ty(ts, whole) == Type::Machine(machine),
        contains_secret(ts, part),
    ensures
        contains_secret(ts, whole),
{
    law_secrets_lie_in_parts(ts, whole);
    law_secrets_lie_in_parts(ts, part);
    let ps = parts(ts, open_parts(), ty(ts, part));
    let p = choose|p: TypeId| #[trigger] ps.contains(p) && contains_secret(ts, p);
    lemma_state_in_machine(ts, ty(ts, part)->machine, ty(ts, part)->state, p);
}

proof fn lemma_plain_holds_no_secret(ts: Types, id: TypeId)
    requires
        parts(ts, open_parts(), ty(ts, id)).len() == 0,
        !(ty(ts, id) is Secret),
    ensures
        !contains_secret(ts, id),
{
    law_secrets_lie_in_parts(ts, id);
}

/// No secret is lost: where a value that holds a secret may stand, a secret is
/// asked for at some place too. Only the error type and interfaces say nothing of
/// what they take.
pub proof fn law_secrets_stay_secret(ts: Types, impls: Impls, expected: TypeId, got: TypeId)
    requires
        sound(ts),
        fully_written(ts, expected),
        compatible(ts, impls, expected, got),
        contains_secret(ts, got),
    ensures
        contains_secret(ts, expected),
    decreases expected,
{
    lemma_basics(ts);
    lemma_fully_written(ts, expected);
    if expected == got {
    } else if ty(ts, expected) is Secret {
        law_secrets_lie_in_parts(ts, expected);
    } else {
        if got == TypeInterner::ERROR {
            lemma_plain_holds_no_secret(ts, got);
        }
        if expected < ts.types.len() {
            assert(grounded(ts, ts.types[expected as int], expected as nat));
        }
        match (ty(ts, expected), ty(ts, got)) {
            (Type::List(e), Type::List(g)) => {
                lemma_part_fully_written(ts, expected, 0);
                lemma_secret_in_one(ts, expected, e);
                lemma_secret_in_one(ts, got, g);
                law_secrets_stay_secret(ts, impls, e, g);
            },
            (Type::Optional(e), Type::Optional(g)) => {
                lemma_part_fully_written(ts, expected, 0);
                lemma_secret_in_one(ts, expected, e);
                lemma_secret_in_one(ts, got, g);
                law_secrets_stay_secret(ts, impls, e, g);
            },
            (Type::SetOf(e), Type::SetOf(g)) => {
                lemma_part_fully_written(ts, expected, 0);
                lemma_secret_in_one(ts, expected, e);
                lemma_secret_in_one(ts, got, g);
                law_secrets_stay_secret(ts, impls, e, g);
            },
            (Type::MapOf(ek, ev), Type::MapOf(gk, gv)) => {
                lemma_part_fully_written(ts, expected, 0);
                lemma_part_fully_written(ts, expected, 1);
                lemma_secret_in_two(ts, expected, ek, ev);
                lemma_secret_in_two(ts, got, gk, gv);
                if contains_secret(ts, gk) {
                    law_secrets_stay_secret(ts, impls, ek, gk);
                } else {
                    law_secrets_stay_secret(ts, impls, ev, gv);
                }
            },
            (Type::Result(ek, ev), Type::Result(gk, gv)) => {
                lemma_part_fully_written(ts, expected, 0);
                lemma_part_fully_written(ts, expected, 1);
                lemma_secret_in_two(ts, expected, ek, ev);
                lemma_secret_in_two(ts, got, gk, gv);
                if contains_secret(ts, gk) {
                    law_secrets_stay_secret(ts, impls, ek, gk);
                } else {
                    law_secrets_stay_secret(ts, impls, ev, gv);
                }
            },
            (Type::Function(_), Type::Function(_)) => {
                lemma_plain_holds_no_secret(ts, got);
            },
            (Type::Machine(_), Type::MachineState { machine, state }) => {
                lemma_state_secrets(ts, expected, got);
            },
            _ => {},
        }
    }
}

/// A type made secret is secret, and making it secret again changes nothing.
pub proof fn law_made_secret_once(ts: Types, id: TypeId)
    requires
        sound(ts),
        id < ts.types.len(),
        ts.types.len() < usize::MAX,
        id != TypeInterner::ERROR,
        id != TypeInterner::NOTHING,
    ensures
        ({
            let (after, secret) = wrap_secret(ts, id, true);
            &&& ty(after, secret) is Secret
            &&& wrap_secret(after, secret, true) == (after, secret)
            &&& wrap_secret(ts, id, false) == (ts, id)
        }),
{
    lemma_basics(ts);
    if !(ty(ts, id) is Secret) {
        law_stored_types_are_found_again(ts, Type::Secret(id));
    }
}

/// A type without secrets shows everything in its public form.
pub proof fn law_open_types_are_public(ts: Types, id: TypeId)
    requires
        sound(ts),
        !contains_secret(ts, id),
    ensures
        public_projection(ts, id),
    decreases id,
{
    law_secrets_lie_in_parts(ts, id);
    let ps = parts(ts, open_parts(), ty(ts, id));
    if id < ts.types.len() {
        assert(grounded(ts, ts.types[id as int], id as nat));
    }
    match ty(ts, id) {
        Type::List(x) => {
            assert(ps[0] == x);
            assert(ps.contains(x));
            law_open_types_are_public(ts, x);
        },
        Type::SetOf(x) => {
            assert(ps[0] == x);
            assert(ps.contains(x));
            law_open_types_are_public(ts, x);
        },
        Type::Optional(x) => {
            assert(ps[0] == x);
            assert(ps.contains(x));
            law_open_types_are_public(ts, x);
        },
        Type::MapOf(k, v) => {
            assert(ps[0] == k && ps[1] == v);
            assert(ps.contains(k) && ps.contains(v));
            law_open_types_are_public(ts, k);
            law_open_types_are_public(ts, v);
        },
        Type::Result(k, v) => {
            assert(ps[0] == k && ps[1] == v);
            assert(ps.contains(k) && ps.contains(v));
            law_open_types_are_public(ts, k);
            law_open_types_are_public(ts, v);
        },
        Type::Refinement(r) => {
            let base = ts.refinements[r.0 as int].base;
            assert(ps[0] == base);
            assert(ps.contains(base));
            law_open_types_are_public(ts, base);
        },
        _ => {},
    }
}

// ---------------------------------------------------------------------------
// Refinements
// ---------------------------------------------------------------------------

/// Below all refinements lies a type that is none, and going down from there
/// changes nothing.
pub proof fn law_coarsening_ends(ts: Types, id: TypeId)
    requires
        sound(ts),
    ensures
        refinement_base(ts, fully_coarsened(ts, id)) is None,
        fully_coarsened(ts, fully_coarsened(ts, id)) == fully_coarsened(ts, id),
    decreases id,
{
    if let Some(base) = refinement_base(ts, id) {
        assert(grounded(ts, ts.types[id as int], id as nat));
        law_coarsening_ends(ts, base);
    }
}

/// A refinement can be coarsened to the type below all refinements, and a value of
/// that type can be tested against it.
pub proof fn law_refinements_go_down_to_their_base(ts: Types, id: TypeId)
    requires
        sound(ts),
        ty(ts, id) is Refinement,
    ensures
        can_coarsen(ts, id, fully_coarsened(ts, id)),
        can_refine(ts, fully_coarsened(ts, id), id),
    decreases id,
{
    assert(grounded(ts, ts.types[id as int], id as nat));
    let base = refinement_base(ts, id)->0;
    assert(fully_coarsened(ts, id) == fully_coarsened(ts, base));
    if ty(ts, base) is Refinement {
        law_refinements_go_down_to_their_base(ts, base);
    } else {
        assert(fully_coarsened(ts, base) == base);
    }
}

/// What a refinement can be coarsened to can be tested against it.
pub proof fn law_coarser_values_can_be_refined(ts: Types, source: TypeId, target: TypeId)
    requires
        sound(ts),
        can_coarsen(ts, source, target),
    ensures
        can_refine(ts, target, source),
        target < source,
    decreases source,
{
    assert(grounded(ts, ts.types[source as int], source as nat));
    let base = refinement_base(ts, source)->0;
    if base != target {
        law_coarser_values_can_be_refined(ts, base, target);
    }
}

/// Coarsening in two steps is coarsening.
pub proof fn law_coarsening_goes_on(ts: Types, a: TypeId, b: TypeId, c: TypeId)
    requires
        sound(ts),
        can_coarsen(ts, a, b),
        can_coarsen(ts, b, c),
    ensures
        can_coarsen(ts, a, c),
    decreases a,
{
    assert(grounded(ts, ts.types[a as int], a as nat));
    let base = refinement_base(ts, a)->0;
    if base != b {
        law_coarsening_goes_on(ts, base, b, c);
    }
}

/// No value becomes a refinement by itself: where a refinement is asked for, only
/// it and the error type fit.
pub proof fn law_refinements_take_only_themselves(ts: Types, impls: Impls, expected: TypeId, got: TypeId)
    requires
        sound(ts),
        ty(ts, expected) is Refinement,
    ensures
        compatible(ts, impls, expected, got) <==> got == expected || got == TypeInterner::ERROR || expected
            == TypeInterner::ERROR,
{
}

// ---------------------------------------------------------------------------
// JSON
// ---------------------------------------------------------------------------

proof fn lemma_unsupported_among(ts: Types, machines: bool, ids: Seq<TypeId>, i: nat, x: TypeId)
    ensures
        unsupported_among(ts, machines, ids, i).contains(x) <==> json_unsupported(ty(ts, x), machines) && exists|
            k: int,
        |
            i <= k < ids.len() && #[trigger] ids[k] == x,
    decreases ids.len() - i,
{
    if i < ids.len() {
        lemma_unsupported_among(ts, machines, ids, i + 1, x);
        let rest = unsupported_among(ts, machines, ids, i + 1);
        let first = seq![ids[i as int]];
        if json_unsupported(ty(ts, ids[i as int]), machines) {
            let all = first + rest;
            if rest.contains(x) {
                let k = choose|k: int| 0 <= k < rest.len() && rest[k] == x;
                assert(all[k + 1] == x);
            }
            if ids[i as int] == x {
                assert(all[0] == x);
            }
            if all.contains(x) && ids[i as int] != x {
                let k = choose|k: int| 0 <= k < all.len() && all[k] == x;
                assert(rest[k - 1] == x);
            }
        }
    }
}

/// What JSON cannot stand for is found exactly, however deep it lies.
pub proof fn law_unsupported_types_are_all_found(
    ts: Types,
    id: TypeId,
    into_secrets: bool,
    machines: bool,
    x: TypeId,
)
    ensures
        json_unsupported_in(ts, id, into_secrets, machines).contains(x) <==> json_unsupported(
            ty(ts, x),
            machines,
        ) && made_of(
            ts,
            (WalkMode { into_secrets, into_keys: false, into_machines: machines }),
            id,
            x,
        ),
{
    let mode = WalkMode { into_secrets, into_keys: false, into_machines: machines };
    let all = walk(ts, mode, id);
    law_walk_meets_each_part_once(ts, mode, id);
    lemma_unsupported_among(ts, machines, all, 0, x);
    assert(all.contains(x) <==> made_of(ts, mode, id, x));
}

/// Whether `k` is the key of a map, and not `string`.
pub open spec fn odd_key_of(ts: Types, map: TypeId, k: TypeId) -> bool {
    k != TypeInterner::STRING && (ty(ts, map) matches Type::MapOf(key, _) && key == k)
}

proof fn lemma_odd_keys_among(ts: Types, ids: Seq<TypeId>, i: nat, found: Seq<TypeId>, x: TypeId)
    requires
        found.no_duplicates(),
    ensures
        odd_keys_among(ts, ids, i, found).no_duplicates(),
        odd_keys_among(ts, ids, i, found).contains(x) <==> found.contains(x) || exists|j: int|
            i <= j < ids.len() && #[trigger] odd_key_of(ts, ids[j], x),
    decreases ids.len() - i,
{
    if i < ids.len() {
        let next = match ty(ts, ids[i as int]) {
            Type::MapOf(k, _) => if k != TypeInterner::STRING && !found.contains(k) {
                found.push(k)
            } else {
                found
            },
            _ => found,
        };
        assert(next.no_duplicates());
        assert(next.contains(x) <==> found.contains(x) || odd_key_of(ts, ids[i as int], x)) by {
            if found.contains(x) {
                let k = choose|k: int| 0 <= k < found.len() && found[k] == x;
                assert(next[k] == x);
            }
            if odd_key_of(ts, ids[i as int], x) && !found.contains(x) {
                assert(next[found.len() as int] == x);
            }
        }
        lemma_odd_keys_among(ts, ids, i + 1, next, x);
    }
}

/// The keys that JSON cannot have are found exactly, each once.
pub proof fn law_odd_keys_are_all_found(ts: Types, id: TypeId, x: TypeId)
    ensures
        json_odd_keys(ts, id).no_duplicates(),
        json_odd_keys(ts, id).contains(x) <==> exists|m: TypeId| #[trigger]
            made_of(ts, all_parts(), id, m) && odd_key_of(ts, m, x),
{
    let all = walk(ts, all_parts(), id);
    law_walk_meets_each_part_once(ts, all_parts(), id);
    lemma_odd_keys_among(ts, all, 0, Seq::empty(), x);
    if exists|m: TypeId| #[trigger] made_of(ts, all_parts(), id, m) && odd_key_of(ts, m, x) {
        let m = choose|m: TypeId| #[trigger] made_of(ts, all_parts(), id, m) && odd_key_of(ts, m, x);
        assert(all.contains(m));
        let j = choose|j: int| 0 <= j < all.len() && all[j] == m;
        assert(odd_key_of(ts, all[j], x));
    }
    if json_odd_keys(ts, id).contains(x) {
        let j = choose|j: int| 0 <= j < all.len() && #[trigger] odd_key_of(ts, all[j], x);
        assert(all.contains(all[j]));
        assert(made_of(ts, all_parts(), id, all[j]));
    }
}

} // verus!
