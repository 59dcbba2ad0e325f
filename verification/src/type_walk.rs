//! Walking through everything a type is made of.
use vstd::prelude::*;
use vstd::set_lib::set_int_range;

use crate::table::views;
use crate::types::{
    ty, BitfieldFieldShapeV, BitfieldId, EnumId, MachineId, MachineStateShapeV, NamedType,
    NamedTypeV, Type, TypeId, TypeInterner, Types, VariantShapeV,
};

verus! {

/// Which parts of a type a walk goes into.
#[derive(Debug, Clone, Copy, PartialEq, Eq, Structural)]
pub struct WalkMode {
    /// Go into what a `secret` holds.
    pub into_secrets: bool,
    /// Go into the keys of a map, and not into its values alone.
    pub into_keys: bool,
    /// Go into the fields of a machine's states.
    pub into_machines: bool,
}

pub open spec fn named_ids(fields: Seq<NamedTypeV>) -> Seq<TypeId> {
    fields.map_values(|f: NamedTypeV| f.ty)
}

pub open spec fn slot_ids(fields: Seq<BitfieldFieldShapeV>) -> Seq<TypeId> {
    fields.map_values(|f: BitfieldFieldShapeV| f.ty)
}

pub open spec fn variant_ids(variants: Seq<VariantShapeV>) -> Seq<TypeId> {
    variants.map_values(|v: VariantShapeV| named_ids(v.fields)).flatten()
}

pub open spec fn state_ids(states: Seq<MachineStateShapeV>) -> Seq<TypeId> {
    states.map_values(|s: MachineStateShapeV| named_ids(s.fields)).flatten()
}

/// What a type is directly made of, in order.
pub open spec fn parts(ts: Types, mode: WalkMode, t: Type) -> Seq<TypeId> {
    match t {
        Type::List(x) => seq![x],
        Type::SetOf(x) => seq![x],
        Type::Optional(x) => seq![x],
        Type::Secret(x) => if mode.into_secrets {
            seq![x]
        } else {
            seq![]
        },
        Type::MapOf(k, v) => if mode.into_keys {
            seq![k, v]
        } else {
            seq![v]
        },
        Type::Result(a, b) => seq![a, b],
        Type::Struct(s) => named_ids(ts.structs[s.0 as int].fields),
        Type::Bitfield(b) => slot_ids(ts.bitfields[b.0 as int].fields),
        Type::Enum(e) => variant_ids(ts.enums[e.0 as int].variants),
        Type::Machine(m) => if mode.into_machines {
            state_ids(ts.machines[m.0 as int].states)
        } else {
            seq![]
        },
        Type::MachineState { machine, state } => if mode.into_machines && state.0
            < ts.machines[machine.0 as int].states.len() {
            named_ids(ts.machines[machine.0 as int].states[state.0 as int].fields)
        } else {
            seq![]
        },
        Type::Refinement(r) => seq![ts.refinements[r.0 as int].base],
        _ => seq![],
    }
}

/// A chain in which each type is a direct part of the one before.
pub open spec fn chain(ts: Types, mode: WalkMode, p: Seq<TypeId>) -> bool {
    &&& p.len() > 0
    &&& forall|i: int|
        0 <= i && i + 1 < p.len() ==> parts(ts, mode, ty(ts, #[trigger] p[i])).contains(p[i + 1])
}

/// Whether `to` is `from` or somewhere inside it.
pub open spec fn made_of(ts: Types, mode: WalkMode, from: TypeId, to: TypeId) -> bool {
    exists|p: Seq<TypeId>|
        #![trigger chain(ts, mode, p)]
        chain(ts, mode, p) && p.first() == from && p.last() == to
}

/// Adds `id` and what it is made of to `seen`, each once, outside in and left to right.
pub open spec fn visit(ts: Types, mode: WalkMode, id: TypeId, seen: Seq<TypeId>, depth: nat) -> Seq<
    TypeId,
>
    decreases depth, 0nat,
{
    if depth == 0 || seen.contains(id) {
        seen
    } else {
        visit_all(ts, mode, parts(ts, mode, ty(ts, id)), 0, seen.push(id), (depth - 1) as nat)
    }
}

pub open spec fn visit_all(
    ts: Types,
    mode: WalkMode,
    ids: Seq<TypeId>,
    i: nat,
    seen: Seq<TypeId>,
    depth: nat,
) -> Seq<TypeId>
    decreases depth, ids.len() + 1 - i,
{
    if i >= ids.len() {
        seen
    } else {
        visit_all(ts, mode, ids, i + 1, visit(ts, mode, ids[i as int], seen, depth), depth)
    }
}

/// Everything a type is made of, itself first.
pub open spec fn walk(ts: Types, mode: WalkMode, id: TypeId) -> Seq<TypeId> {
    visit(ts, mode, id, Seq::empty(), ts.types.len() + 1)
}

// ---------------------------------------------------------------------------
// A walk meets each part exactly once
// ---------------------------------------------------------------------------

pub open spec fn unseen(ts: Types, seen: Seq<TypeId>) -> Set<int> {
    set_int_range(0, ts.types.len() as int).filter(|i: int| !seen.contains(i as usize))
}

/// Nothing seen twice, and nothing lost that was seen before.
pub open spec fn extends(before: Seq<TypeId>, after: Seq<TypeId>) -> bool {
    &&& before.no_duplicates() ==> after.no_duplicates()
    &&& forall|x: TypeId| before.contains(x) ==> #[trigger] after.contains(x)
}

/// What was added to `before` has all its parts in `after`.
pub open spec fn settled(ts: Types, mode: WalkMode, before: Seq<TypeId>, after: Seq<TypeId>) -> bool {
    forall|x: TypeId, y: TypeId|
        #![trigger after.contains(x), parts(ts, mode, ty(ts, x)).contains(y)]
        after.contains(x) && !before.contains(x) && parts(ts, mode, ty(ts, x)).contains(y)
            ==> after.contains(y)
}

/// What was added to `before` lies inside one of `roots`.
pub open spec fn rooted(
    ts: Types,
    mode: WalkMode,
    root: TypeId,
    before: Seq<TypeId>,
    after: Seq<TypeId>,
) -> bool {
    forall|x: TypeId|
        #[trigger]
        after.contains(x) && !before.contains(x) ==> made_of(ts, mode, root, x)
}

proof fn lemma_push_contains(s: Seq<TypeId>, id: TypeId)
    ensures
        forall|x: TypeId| #[trigger] s.push(id).contains(x) <==> s.contains(x) || x == id,
{
    assert forall|x: TypeId| #[trigger] s.push(id).contains(x) <==> s.contains(x) || x == id by {
        if s.contains(x) {
            let i = choose|i: int| 0 <= i < s.len() && s[i] == x;
            assert(s.push(id)[i] == x);
        }
        if x == id {
            assert(s.push(id)[s.len() as int] == id);
        }
    }
}

proof fn lemma_unseen_shrinks(ts: Types, before: Seq<TypeId>, after: Seq<TypeId>)
    requires
        extends(before, after),
    ensures
        unseen(ts, after).subset_of(unseen(ts, before)),
        unseen(ts, before).finite(),
        unseen(ts, after).finite(),
        unseen(ts, after).len() <= unseen(ts, before).len(),
{
    vstd::set_lib::lemma_int_range(0, ts.types.len() as int);
    vstd::set_lib::lemma_len_subset(unseen(ts, after), unseen(ts, before));
}

proof fn lemma_unseen_drops(ts: Types, seen: Seq<TypeId>, id: TypeId)
    requires
        !seen.contains(id),
        id < ts.types.len(),
    ensures
        unseen(ts, seen.push(id)).len() < unseen(ts, seen).len(),
{
    vstd::set_lib::lemma_int_range(0, ts.types.len() as int);
    lemma_push_contains(seen, id);
    let a = unseen(ts, seen);
    let b = unseen(ts, seen.push(id));
    assert(a.contains(id as int));
    assert(!b.contains(id as int));
    assert(b.subset_of(a.remove(id as int)));
    vstd::set_lib::lemma_len_subset(b, a.remove(id as int));
}

proof fn lemma_step(ts: Types, mode: WalkMode, from: TypeId, to: TypeId)
    requires
        parts(ts, mode, ty(ts, from)).contains(to),
    ensures
        made_of(ts, mode, from, to),
{
    let p = seq![from, to];
    assert(chain(ts, mode, p));
}

/// A part of a part is a part.
pub proof fn lemma_made_of_transitive(ts: Types, mode: WalkMode, a: TypeId, b: TypeId, c: TypeId)
    requires
        made_of(ts, mode, a, b),
        made_of(ts, mode, b, c),
    ensures
        made_of(ts, mode, a, c),
{
    let p = choose|p: Seq<TypeId>|
        #![trigger chain(ts, mode, p)]
        chain(ts, mode, p) && p.first() == a && p.last() == b;
    let q = choose|q: Seq<TypeId>|
        #![trigger chain(ts, mode, q)]
        chain(ts, mode, q) && q.first() == b && q.last() == c;
    let r = p + q.drop_first();
    assert forall|i: int| 0 <= i && i + 1 < r.len() implies parts(
        ts,
        mode,
        ty(ts, #[trigger] r[i]),
    ).contains(r[i + 1]) by {
        if i + 1 < p.len() {
            assert(r[i] == p[i] && r[i + 1] == p[i + 1]);
        } else {
            let j = i - (p.len() - 1);
            assert(r[i] == q[j]);
            assert(r[i + 1] == q[j + 1]);
        }
    }
    assert(chain(ts, mode, r));
    assert(r.first() == a);
    if q.len() == 1 {
        assert(r =~= p);
    } else {
        assert(r.last() == q.last());
    }
}

proof fn lemma_made_of_self(ts: Types, mode: WalkMode, id: TypeId)
    ensures
        made_of(ts, mode, id, id),
{
    assert(chain(ts, mode, seq![id]));
}

proof fn lemma_visit(ts: Types, mode: WalkMode, id: TypeId, seen: Seq<TypeId>, depth: nat)
    ensures
        extends(seen, visit(ts, mode, id, seen, depth)),
        rooted(ts, mode, id, seen, visit(ts, mode, id, seen, depth)),
        depth > unseen(ts, seen).len() ==> {
            let after = visit(ts, mode, id, seen, depth);
            after.contains(id) && settled(ts, mode, seen, after)
        },
    decreases depth, 0nat,
{
    let after = visit(ts, mode, id, seen, depth);
    if depth == 0 || seen.contains(id) {
    } else {
        let ids = parts(ts, mode, ty(ts, id));
        let start = seen.push(id);
        lemma_push_contains(seen, id);
        assert(extends(seen, start));
        lemma_visit_all(ts, mode, id, ids, 0, start, (depth - 1) as nat);
        lemma_made_of_self(ts, mode, id);
        assert(start.contains(id));
        if id < ts.types.len() {
            lemma_unseen_drops(ts, seen, id);
        }
        if depth > unseen(ts, seen).len() {
            if id < ts.types.len() {
                assert forall|x: TypeId, y: TypeId|
                    #![trigger after.contains(x), parts(ts, mode, ty(ts, x)).contains(y)]
                    after.contains(x) && !seen.contains(x) && parts(ts, mode, ty(ts, x)).contains(y)
                        implies after.contains(y) by {
                    if x == id {
                        let k = choose|k: int| 0 <= k < ids.len() && ids[k] == y;
                        assert(after.contains(ids[k]));
                    }
                }
            } else {
                assert(ids =~= Seq::empty());
                assert(after =~= start);
            }
        }
    }
}

proof fn lemma_visit_all(
    ts: Types,
    mode: WalkMode,
    root: TypeId,
    ids: Seq<TypeId>,
    i: nat,
    seen: Seq<TypeId>,
    depth: nat,
)
    requires
        ids == parts(ts, mode, ty(ts, root)),
    ensures
        extends(seen, visit_all(ts, mode, ids, i, seen, depth)),
        rooted(ts, mode, root, seen, visit_all(ts, mode, ids, i, seen, depth)),
        depth > unseen(ts, seen).len() ==> {
            let after = visit_all(ts, mode, ids, i, seen, depth);
            &&& settled(ts, mode, seen, after)
            &&& forall|k: int| i <= k < ids.len() ==> after.contains(#[trigger] ids[k])
        },
    decreases depth, ids.len() + 1 - i,
{
    if i < ids.len() {
        let child = ids[i as int];
        let mid = visit(ts, mode, child, seen, depth);
        let after = visit_all(ts, mode, ids, i + 1, mid, depth);
        lemma_visit(ts, mode, child, seen, depth);
        lemma_visit_all(ts, mode, root, ids, i + 1, mid, depth);
        lemma_unseen_shrinks(ts, seen, mid);
        lemma_step(ts, mode, root, child);
        assert forall|x: TypeId| #[trigger] after.contains(x) && !seen.contains(x) implies made_of(
            ts,
            mode,
            root,
            x,
        ) by {
            if mid.contains(x) {
                lemma_made_of_transitive(ts, mode, root, child, x);
            }
        }
        if depth > unseen(ts, seen).len() {
            assert forall|x: TypeId, y: TypeId|
                #![trigger after.contains(x), parts(ts, mode, ty(ts, x)).contains(y)]
                after.contains(x) && !seen.contains(x) && parts(ts, mode, ty(ts, x)).contains(y)
                    implies after.contains(y) by {
                if mid.contains(x) {
                    assert(mid.contains(y));
                }
            }
            assert forall|k: int| i <= k < ids.len() implies after.contains(#[trigger] ids[k]) by {
                if k == i {
                    assert(mid.contains(ids[k]));
                }
            }
        }
    }
}

/// A walk meets exactly what the type is made of, and each of it once.
pub proof fn law_walk_meets_each_part_once(ts: Types, mode: WalkMode, id: TypeId)
    ensures
        walk(ts, mode, id).no_duplicates(),
        forall|x: TypeId| #[trigger] walk(ts, mode, id).contains(x) <==> made_of(ts, mode, id, x),
{
    let none = Seq::<TypeId>::empty();
    let all = walk(ts, mode, id);
    vstd::set_lib::lemma_int_range(0, ts.types.len() as int);
    vstd::set_lib::lemma_len_subset(unseen(ts, none), set_int_range(0, ts.types.len() as int));
    lemma_visit(ts, mode, id, none, ts.types.len() + 1);
    assert forall|x: TypeId| made_of(ts, mode, id, x) implies #[trigger] all.contains(x) by {
        let p = choose|p: Seq<TypeId>|
            #![trigger chain(ts, mode, p)]
            chain(ts, mode, p) && p.first() == id && p.last() == x;
        lemma_chain_stays(ts, mode, all, p, (p.len() - 1) as nat);
    }
}

proof fn lemma_chain_stays(ts: Types, mode: WalkMode, all: Seq<TypeId>, p: Seq<TypeId>, k: nat)
    requires
        settled(ts, mode, Seq::empty(), all),
        chain(ts, mode, p),
        all.contains(p.first()),
        k < p.len(),
    ensures
        all.contains(p[k as int]),
    decreases k,
{
    if k > 0 {
        lemma_chain_stays(ts, mode, all, p, (k - 1) as nat);
        let x = p[k - 1];
        let y = p[k as int];
        assert(parts(ts, mode, ty(ts, p[k - 1])).contains(p[k - 1 + 1]));
        assert(all.contains(x) && !Seq::<TypeId>::empty().contains(x));
        assert(parts(ts, mode, ty(ts, x)).contains(y));
    }
}

// ---------------------------------------------------------------------------
// The walk
// ---------------------------------------------------------------------------

fn push_named(ids: &mut Vec<TypeId>, fields: &Vec<NamedType>)
    ensures
        final(ids)@ == old(ids)@ + named_ids(views(fields@)),
{
    let mut i: usize = 0;
    while i < fields.len()
        invariant
            i <= fields@.len(),
            ids@ =~= old(ids)@ + named_ids(views(fields@)).take(i as int),
        decreases fields@.len() - i,
    {
        ids.push(fields[i].ty);
        assert(named_ids(views(fields@)).take(i + 1) =~= named_ids(views(fields@)).take(
            i as int,
        ).push(fields@[i as int].ty));
        i = i + 1;
    }
    assert(named_ids(views(fields@)).take(i as int) =~= named_ids(views(fields@)));
}

proof fn lemma_flatten_take<T>(s: Seq<Seq<T>>, i: int)
    requires
        0 <= i < s.len(),
    ensures
        s.take(i + 1).flatten() == s.take(i).flatten() + s[i],
{
    assert(s.take(i + 1).drop_last() =~= s.take(i));
    s.take(i + 1).lemma_flatten_and_flatten_alt_are_equivalent();
    s.take(i).lemma_flatten_and_flatten_alt_are_equivalent();
}

impl TypeInterner {
    /// The types of the fields of a bitfield.
    pub(crate) fn parts_of_bitfield(&self, id: BitfieldId) -> (r: Vec<TypeId>)
        requires
            id.0 < self@.bitfields.len(),
        ensures
            r@ == slot_ids(self@.bitfields[id.0 as int].fields),
    {
        let fields = &self.resolve_bitfield(id).fields;
        let mut ids: Vec<TypeId> = Vec::new();
        let mut i: usize = 0;
        while i < fields.len()
            invariant
                i <= fields@.len(),
                ids@ =~= slot_ids(views(fields@)).take(i as int),
            decreases fields@.len() - i,
        {
            ids.push(fields[i].ty);
            i = i + 1;
        }
        assert(ids@ =~= slot_ids(views(fields@)));
        ids
    }

    /// The types of the fields of all variants of an enum.
    pub(crate) fn parts_of_enum(&self, id: EnumId) -> (r: Vec<TypeId>)
        requires
            id.0 < self@.enums.len(),
        ensures
            r@ == variant_ids(self@.enums[id.0 as int].variants),
    {
        let items = &self.resolve_enum(id).variants;
        let ghost lists = views(items@).map_values(|v: VariantShapeV| named_ids(v.fields));
        let mut ids: Vec<TypeId> = Vec::new();
        assert(lists.take(0).flatten() =~= Seq::<TypeId>::empty()) by {
            lists.take(0).lemma_flatten_and_flatten_alt_are_equivalent();
        }
        let mut i: usize = 0;
        while i < items.len()
            invariant
                i <= items@.len(),
                lists == views(items@).map_values(|v: VariantShapeV| named_ids(v.fields)),
                ids@ == lists.take(i as int).flatten(),
            decreases items@.len() - i,
        {
            push_named(&mut ids, &items[i].fields);
            proof {
                lemma_flatten_take(lists, i as int);
            }
            i = i + 1;
        }
        assert(lists.take(i as int) =~= lists);
        ids
    }

    /// The types of the fields of all states of a machine.
    pub(crate) fn parts_of_machine(&self, id: MachineId) -> (r: Vec<TypeId>)
        requires
            id.0 < self@.machines.len(),
        ensures
            r@ == state_ids(self@.machines[id.0 as int].states),
    {
        let items = &self.resolve_machine(id).states;
        let ghost lists = views(items@).map_values(|v: MachineStateShapeV| named_ids(v.fields));
        let mut ids: Vec<TypeId> = Vec::new();
        assert(lists.take(0).flatten() =~= Seq::<TypeId>::empty()) by {
            lists.take(0).lemma_flatten_and_flatten_alt_are_equivalent();
        }
        let mut i: usize = 0;
        while i < items.len()
            invariant
                i <= items@.len(),
                lists == views(items@).map_values(|v: MachineStateShapeV| named_ids(v.fields)),
                ids@ == lists.take(i as int).flatten(),
            decreases items@.len() - i,
        {
            push_named(&mut ids, &items[i].fields);
            proof {
                lemma_flatten_take(lists, i as int);
            }
            i = i + 1;
        }
        assert(lists.take(i as int) =~= lists);
        ids
    }

    fn parts(&self, mode: WalkMode, id: TypeId) -> (r: Vec<TypeId>)
        ensures
            r@ == parts(self@, mode, ty(self@, id)),
    {
        let mut ids: Vec<TypeId> = Vec::new();
        match self.resolve(id) {
            Type::List(x) | Type::SetOf(x) | Type::Optional(x) => {
                ids.push(x);
                assert(ids@ =~= seq![x]);
            },
            Type::Secret(x) => {
                if mode.into_secrets {
                    ids.push(x);
                    assert(ids@ =~= seq![x]);
                }
            },
            Type::MapOf(k, v) => {
                if mode.into_keys {
                    ids.push(k);
                    ids.push(v);
                    assert(ids@ =~= seq![k, v]);
                } else {
                    ids.push(v);
                    assert(ids@ =~= seq![v]);
                }
            },
            Type::Result(a, b) => {
                ids.push(a);
                ids.push(b);
                assert(ids@ =~= seq![a, b]);
            },
            Type::Struct(s) => {
                push_named(&mut ids, &self.resolve_struct(s).fields);
                assert(ids@ =~= named_ids(self@.structs[s.0 as int].fields));
            },
            Type::Bitfield(b) => {
                ids = self.parts_of_bitfield(b);
            },
            Type::Enum(e) => {
                ids = self.parts_of_enum(e);
            },
            Type::Machine(m) => if mode.into_machines {
                ids = self.parts_of_machine(m);
            },
            Type::MachineState { machine, state } => if mode.into_machines {
                if let Some(s) = self.resolve_machine(machine).state(state) {
                    push_named(&mut ids, &s.fields);
                    assert(ids@ =~= named_ids(s@.fields));
                }
            },
            Type::Refinement(r) => {
                ids.push(self.resolve_refinement(r).base);
                assert(ids@ =~= seq![self@.refinements[r.0 as int].base]);
            },
            _ => {},
        }
        assert(ids@ =~= parts(self@, mode, ty(self@, id)));
        ids
    }

    fn visit(&self, mode: WalkMode, id: TypeId, seen: &mut Vec<TypeId>, depth: u128)
        ensures
            final(seen)@ == visit(self@, mode, id, old(seen)@, depth as nat),
        decreases depth,
    {
        if depth == 0 || contains_id(seen, id) {
            return;
        }
        let ids = self.parts(mode, id);
        seen.push(id);
        let ghost start = seen@;
        let mut i: usize = 0;
        while i < ids.len()
            invariant
                i <= ids@.len(),
                depth > 0,
                visit_all(self@, mode, ids@, i as nat, seen@, (depth - 1) as nat) == visit_all(
                    self@,
                    mode,
                    ids@,
                    0,
                    start,
                    (depth - 1) as nat,
                ),
            decreases ids@.len() - i,
        {
            self.visit(mode, ids[i], seen, depth - 1);
            i = i + 1;
        }
    }

    /// Everything the type is made of, itself first.
    pub fn walk(&self, mode: WalkMode, id: TypeId) -> (r: Vec<TypeId>)
        ensures
            r@ == walk(self@, mode, id),
    {
        let mut seen: Vec<TypeId> = Vec::new();
        let depth: u128 = self.len() as u128 + 1;
        self.visit(mode, id, &mut seen, depth);
        seen
    }
}

/// Whether one of the entries is `id`.
pub fn contains_id(v: &Vec<TypeId>, id: TypeId) -> (r: bool)
    ensures
        r == v@.contains(id),
{
    let mut i: usize = 0;
    while i < v.len()
        invariant
            i <= v@.len(),
            forall|j: int| 0 <= j < i ==> v@[j] != id,
        decreases v@.len() - i,
    {
        if v[i] == id {
            assert(v@[i as int] == id);
            return true;
        }
        i = i + 1;
    }
    false
}

} // verus!
