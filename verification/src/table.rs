//! A finite map held as a list of entries with distinct keys.
use vstd::prelude::*;

verus! {

/// A value that can be copied in full.
pub trait Dup: View + Sized {
    fn dup(&self) -> (r: Self)
        ensures
            r@ == self@,
    ;
}

/// A key that can be compared by what it stands for.
pub trait Key: Dup {
    fn same(&self, other: &Self) -> (r: bool)
        ensures
            r == (self@ == other@),
    ;
}

#[derive(Debug)]
pub struct Table<K: Key, V: View> {
    entries: Vec<(K, V)>,
}

impl<K: Key, V: View> Table<K, V> {
    #[verifier::type_invariant]
    pub closed spec fn distinct(&self) -> bool {
        forall|i: int, j: int|
            0 <= i < j < self.entries@.len() ==> (#[trigger] self.entries@[i]).0@ != (
            #[trigger] self.entries@[j]).0@
    }

    pub closed spec fn at(&self, k: K::V, i: int) -> bool {
        0 <= i < self.entries@.len() && self.entries@[i].0@ == k
    }
}

impl<K: Key, V: View> View for Table<K, V> {
    type V = Map<K::V, V::V>;

    closed spec fn view(&self) -> Map<K::V, V::V> {
        Map::new(
            |k: K::V| exists|i: int| self.at(k, i),
            |k: K::V| self.entries@[choose|i: int| self.at(k, i)].1@,
        )
    }
}

impl<K: Key, V: View> Table<K, V> {
    pub fn new() -> (r: Self)
        ensures
            r@ == Map::<K::V, V::V>::empty(),
    {
        let r = Table { entries: Vec::new() };
        assert(r@ =~= Map::<K::V, V::V>::empty());
        r
    }

    fn find(&self, k: &K) -> (r: Option<usize>)
        ensures
            r matches Some(i) ==> self.at(k@, i as int) && self@.contains_key(k@) && self@[k@]
                == self.entries@[i as int].1@,
            r is None ==> !self@.contains_key(k@),
    {
        proof {
            use_type_invariant(self);
        }
        let mut i: usize = 0;
        while i < self.entries.len()
            invariant
                i <= self.entries@.len(),
                forall|j: int| 0 <= j < i ==> !self.at(k@, j),
            decreases self.entries@.len() - i,
        {
            if self.entries[i].0.same(k) {
                proof {
                    use_type_invariant(self);
                    assert(self.at(k@, i as int));
                    let j = choose|j: int| self.at(k@, j);
                    assert(self.at(k@, j));
                    assert(self.entries@[i as int].0@ == self.entries@[j].0@);
                }
                return Some(i);
            }
            i = i + 1;
        }
        None
    }

    pub fn get(&self, k: &K) -> (r: Option<&V>)
        ensures
            r is Some <==> self@.contains_key(k@),
            r matches Some(v) ==> v@ == self@[k@],
    {
        match self.find(k) {
            Some(i) => Some(&self.entries[i].1),
            None => None,
        }
    }

    /// Every key, once.
    pub fn keys(&self) -> (r: Vec<K>)
        ensures
            views(r@).no_duplicates(),
            forall|k: K::V| #[trigger] self@.contains_key(k) <==> views(r@).contains(k),
    {
        let mut r: Vec<K> = Vec::new();
        let mut i: usize = 0;
        while i < self.entries.len()
            invariant
                i <= self.entries@.len(),
                r@.len() == i,
                forall|j: int| 0 <= j < i ==> (#[trigger] r@[j])@ == self.entries@[j].0@,
            decreases self.entries@.len() - i,
        {
            r.push(self.entries[i].0.dup());
            i = i + 1;
        }
        proof {
            use_type_invariant(self);
            assert forall|k: K::V| #[trigger] self@.contains_key(k) <==> views(r@).contains(k) by {
                if self@.contains_key(k) {
                    let j = choose|j: int| self.at(k, j);
                    assert(views(r@)[j] == k);
                }
                if views(r@).contains(k) {
                    let j = choose|j: int| 0 <= j < views(r@).len() && views(r@)[j] == k;
                    assert(r@[j]@ == k);
                    assert(self.at(k, j));
                }
            }
            assert forall|a: int, b: int| 0 <= a < b < views(r@).len() implies views(r@)[a]
                != views(r@)[b] by {
                assert(r@[a]@ == self.entries@[a].0@);
                assert(r@[b]@ == self.entries@[b].0@);
            }
        }
        r
    }

    /// Takes a key out.
    pub fn remove(&mut self, k: &K)
        ensures
            final(self)@ == old(self)@.remove(k@),
    {
        proof {
            use_type_invariant(&*self);
        }
        let ghost before = *self;
        match self.find(k) {
            None => {
                assert(self@ =~= before@.remove(k@));
            },
            Some(i) => {
                let mut held = Table { entries: Vec::new() };
                core::mem::swap(self, &mut held);
                let Table { entries: mut entries } = held;
                let taken = entries.remove(i);
                *self = Table { entries };
                proof {
                    assert forall|q: K::V, j: int| #[trigger] self.at(q, j) implies before.at(
                        q,
                        if j < i {
                            j
                        } else {
                            j + 1
                        },
                    ) by {}
                    assert forall|q: K::V, j: int| #[trigger] before.at(q, j) && j != i implies self.at(
                        q,
                        if j < i {
                            j
                        } else {
                            j - 1
                        },
                    ) by {}
                    assert forall|q: K::V| q != k@ implies #[trigger] self@.contains_key(q)
                        == before@.contains_key(q) by {
                        if before@.contains_key(q) {
                            let j = choose|j: int| before.at(q, j);
                            assert(before.at(q, j) && j != i);
                        }
                        if self@.contains_key(q) {
                            let j = choose|j: int| self.at(q, j);
                            assert(self.at(q, j));
                        }
                    }
                    assert(!self@.contains_key(k@)) by {
                        if self@.contains_key(k@) {
                            let j = choose|j: int| self.at(k@, j);
                            assert(self.at(k@, j));
                            let j2 = if j < i {
                                j
                            } else {
                                j + 1
                            };
                            assert(before.at(k@, j2));
                            assert(before.entries@[j2].0@ == before.entries@[i as int].0@);
                        }
                    }
                    assert forall|q: K::V| #[trigger] self@.contains_key(q) implies self@[q]
                        == before@[q] by {
                        let j1 = choose|j: int| self.at(q, j);
                        let j2 = choose|j: int| before.at(q, j);
                        assert(self.at(q, j1));
                        let j3 = if j1 < i {
                            j1
                        } else {
                            j1 + 1
                        };
                        assert(before.at(q, j3));
                        assert(before.entries@[j3].0@ == before.entries@[j2].0@);
                        assert(j2 == j3);
                    }
                    assert(self@ =~= before@.remove(k@));
                }
            },
        }
    }

    pub fn contains(&self, k: &K) -> (r: bool)
        ensures
            r == self@.contains_key(k@),
    {
        self.find(k).is_some()
    }

    pub fn insert(&mut self, k: K, v: V)
        ensures
            final(self)@ == old(self)@.insert(k@, v@),
    {
        proof {
            use_type_invariant(&*self);
        }
        let ghost before = *self;
        match self.find(&k) {
            Some(i) => {
                let mut held = Table { entries: Vec::new() };
                core::mem::swap(self, &mut held);
                let Table { entries: mut entries } = held;
                entries[i] = (k, v);
                *self = Table { entries };
                assert forall|q: K::V| #[trigger] self@.contains_key(q) == before@.contains_key(q) by {
                    if before@.contains_key(q) {
                        let j = choose|j: int| before.at(q, j);
                        assert(self.at(q, j));
                    }
                    if self@.contains_key(q) {
                        let j = choose|j: int| self.at(q, j);
                        assert(before.at(q, j));
                    }
                }
                assert forall|q: K::V| #[trigger] self@.contains_key(q) && q != k@ implies self@[q]
                    == before@[q] by {
                    let j1 = choose|j: int| self.at(q, j);
                    let j2 = choose|j: int| before.at(q, j);
                    assert(before.at(q, j1));
                    assert(j1 == j2);
                }
                assert(self.at(k@, i as int));
                assert(self@ =~= before@.insert(k@, v@));
            },
            None => {
                let ghost n = self.entries@.len() as int;
                proof {
                    assert forall|i: int| 0 <= i < n implies before.entries@[i].0@ != k@ by {
                        if before.entries@[i].0@ == k@ {
                            assert(before.at(k@, i));
                        }
                    }
                }
                let mut held = Table { entries: Vec::new() };
                core::mem::swap(self, &mut held);
                let Table { entries: mut entries } = held;
                entries.push((k, v));
                *self = Table { entries };
                assert(self.at(k@, n));
                assert forall|q: K::V| q != k@ implies #[trigger] self@.contains_key(q) == before@.contains_key(q) by {
                    if before@.contains_key(q) {
                        let j = choose|j: int| before.at(q, j);
                        assert(self.at(q, j));
                    }
                    if self@.contains_key(q) {
                        let j = choose|j: int| self.at(q, j);
                        assert(before.at(q, j));
                    }
                }
                assert forall|q: K::V| #[trigger] self@.contains_key(q) && q != k@ implies self@[q]
                    == before@[q] by {
                    let j1 = choose|j: int| self.at(q, j);
                    let j2 = choose|j: int| before.at(q, j);
                    assert(before.at(q, j1));
                    assert(j1 == j2);
                }
                assert(self@ =~= before@.insert(k@, v@));
            },
        }
    }
}

impl<K: Key, V: Dup> Dup for Table<K, V> {
    fn dup(&self) -> (r: Self) {
        proof {
            use_type_invariant(self);
        }
        let mut entries: Vec<(K, V)> = Vec::new();
        let mut i: usize = 0;
        while i < self.entries.len()
            invariant
                i <= self.entries@.len(),
                entries@.len() == i,
                forall|j: int|
                    0 <= j < i ==> (#[trigger] entries@[j]).0@ == self.entries@[j].0@
                        && entries@[j].1@ == self.entries@[j].1@,
            decreases self.entries@.len() - i,
        {
            let e = &self.entries[i];
            entries.push((e.0.dup(), e.1.dup()));
            i = i + 1;
        }
        proof {
            use_type_invariant(self);
        }
        let r = Table { entries };
        proof {
            assert forall|k: K::V, j: int| #[trigger] r.at(k, j) == self.at(k, j) by {}
            assert forall|k: K::V| #[trigger] r@.contains_key(k) == self@.contains_key(k) by {
                if self@.contains_key(k) {
                    let j = choose|j: int| self.at(k, j);
                    assert(r.at(k, j));
                }
                if r@.contains_key(k) {
                    let j = choose|j: int| r.at(k, j);
                    assert(self.at(k, j));
                }
            }
            assert forall|k: K::V| #[trigger] r@.contains_key(k) implies r@[k] == self@[k] by {
                let j1 = choose|j: int| r.at(k, j);
                let j2 = choose|j: int| self.at(k, j);
                assert(self.at(k, j1));
                assert(r.at(k, j2));
                assert(self.entries@[j1].0@ == self.entries@[j2].0@);
                assert(j1 == j2);
            }
            assert(r@ =~= self@);
        }
        r
    }
}

/// What `m` holds under `k`.
pub open spec fn look<K, V>(m: Map<K, V>, k: K) -> Option<V> {
    if m.contains_key(k) {
        Some(m[k])
    } else {
        None
    }
}

/// What each entry of a list stands for.
pub open spec fn views<T: View>(s: Seq<T>) -> Seq<T::V> {
    s.map_values(|t: T| t@)
}

/// A copy of a list, entry by entry.
pub fn dup_vec<T: Dup>(v: &Vec<T>) -> (r: Vec<T>)
    ensures
        views(r@) == views(v@),
{
    let mut r: Vec<T> = Vec::new();
    let mut i: usize = 0;
    while i < v.len()
        invariant
            i <= v@.len(),
            r@.len() == i,
            forall|j: int| 0 <= j < i ==> (#[trigger] r@[j])@ == v@[j]@,
        decreases v@.len() - i,
    {
        r.push(v[i].dup());
        i = i + 1;
    }
    assert(views(r@) =~= views(v@));
    r
}

impl Dup for String {
    fn dup(&self) -> (r: Self) {
        self.clone()
    }
}

impl Dup for usize {
    fn dup(&self) -> (r: Self) {
        *self
    }
}

impl Key for usize {
    fn same(&self, other: &Self) -> (r: bool) {
        *self == *other
    }
}

impl Dup for (usize, usize) {
    fn dup(&self) -> (r: Self) {
        *self
    }
}

impl Key for (usize, usize) {
    fn same(&self, other: &Self) -> (r: bool) {
        self.0 == other.0 && self.1 == other.1
    }
}

impl Key for String {
    fn same(&self, other: &Self) -> (r: bool) {
        *self == *other
    }
}

} // verus!
