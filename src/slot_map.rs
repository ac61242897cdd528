//! A finite map from keys to values that grows by upsert and never shrinks:
//! the storage model of the bridge's records, each keyed by the tuple its
//! slot is derived from.
use vstd::prelude::*;

verus! {

/// A key whose equality can be tested in executable code.
pub trait SlotKey: Sized + Copy {
    fn same_key(&self, other: &Self) -> (r: bool)
        ensures
            r == (*self == *other),
    ;
}

impl SlotKey for u64 {
    fn same_key(&self, other: &u64) -> (r: bool) {
        *self == *other
    }
}

impl SlotKey for [u8; 32] {
    fn same_key(&self, other: &[u8; 32]) -> (r: bool) {
        let mut i: usize = 0;
        while i < 32
            invariant
                0 <= i <= 32,
                self@.len() == 32,
                other@.len() == 32,
                forall|j: int| 0 <= j < i ==> self@[j] == other@[j],
            decreases 32 - i,
        {
            if self[i] != other[i] {
                return false;
            }
            i = i + 1;
        }
        assert(*self =~= *other);
        true
    }
}

/// Entries stored in a vector, with the map they stand for.
#[verifier::reject_recursive_types(K)]
pub struct SlotMap<K, V> {
    entries: Vec<(K, V)>,
    contents: Ghost<Map<K, V>>,
}

impl<K: SlotKey, V> SlotMap<K, V> {
    pub closed spec fn view(&self) -> Map<K, V> {
        self.contents@
    }

    /// The vector holds each key of the map once, with its value, and nothing else.
    pub closed spec fn wf(&self) -> bool {
        &&& forall|i: int|
            0 <= i < self.entries@.len() ==> {
                &&& #[trigger] self.contents@.contains_key(self.entries@[i].0)
                &&& self.contents@[self.entries@[i].0] == self.entries@[i].1
            }
        &&& forall|k: K| #[trigger]
            self.contents@.contains_key(k) ==> exists|i: int|
                0 <= i < self.entries@.len() && #[trigger] self.entries@[i].0 == k
        &&& forall|i: int, j: int|
            0 <= i < self.entries@.len() && 0 <= j < self.entries@.len() && #[trigger] self.entries@[i].0
                == #[trigger] self.entries@[j].0 ==> i == j
    }

    pub fn new() -> (r: Self)
        ensures
            r.wf(),
            r@ == Map::<K, V>::empty(),
    {
        SlotMap { entries: Vec::new(), contents: Ghost(Map::empty()) }
    }

    /// The position of `k` in the vector, if it is a key.
    fn find(&self, k: &K) -> (r: Option<usize>)
        requires
            self.wf(),
        ensures
            r.is_some() <==> self@.contains_key(*k),
            r matches Some(i) ==> i < self.entries@.len() && self.entries@[i as int].0 == *k,
    {
        let mut i: usize = 0;
        while i < self.entries.len()
            invariant
                self.wf(),
                0 <= i <= self.entries@.len(),
                forall|j: int| 0 <= j < i ==> self.entries@[j].0 != *k,
            decreases self.entries@.len() - i,
        {
            if self.entries[i].0.same_key(k) {
                return Some(i);
            }
            i = i + 1;
        }
        proof {
            if self@.contains_key(*k) {
                let j = choose|j: int| 0 <= j < self.entries@.len() && self.entries@[j].0 == *k;
                assert(self.entries@[j].0 != *k);
            }
        }
        None
    }

    pub fn contains_key(&self, k: &K) -> (r: bool)
        requires
            self.wf(),
        ensures
            r == self@.contains_key(*k),
    {
        self.find(k).is_some()
    }

    pub fn get(&self, k: &K) -> (r: Option<&V>)
        requires
            self.wf(),
        ensures
            r.is_some() <==> self@.contains_key(*k),
            r matches Some(v) ==> *v == self@[*k],
    {
        match self.find(k) {
            Some(i) => Some(&self.entries[i].1),
            None => None,
        }
    }

    /// Sets the value of `k`, adding the key if it is new.
    pub fn insert(&mut self, k: K, v: V)
        requires
            old(self).wf(),
        ensures
            final(self).wf(),
            final(self)@ == old(self)@.insert(k, v),
    {
        let ghost m = self.contents@.insert(k, v);
        match self.find(&k) {
            Some(i) => {
                self.entries.set(i, (k, v));
                self.contents = Ghost(m);
                assert forall|j: int| 0 <= j < self.entries@.len() implies {
                    &&& #[trigger] self.contents@.contains_key(self.entries@[j].0)
                    &&& self.contents@[self.entries@[j].0] == self.entries@[j].1
                } by {
                    if j != i {
                        assert(old(self).entries@[j].0 != old(self).entries@[i as int].0);
                    }
                }
                assert forall|a: int, b: int|
                    0 <= a < self.entries@.len() && 0 <= b < self.entries@.len()
                        && #[trigger] self.entries@[a].0 == #[trigger] self.entries@[b].0 implies a
                    == b by {
                    assert(old(self).entries@[a].0 == self.entries@[a].0);
                    assert(old(self).entries@[b].0 == self.entries@[b].0);
                }
                assert forall|kk: K| #[trigger] self.contents@.contains_key(kk) implies exists|j: int|
                    0 <= j < self.entries@.len() && #[trigger] self.entries@[j].0 == kk by {
                    if kk != k {
                        let j = choose|j: int|
                            0 <= j < old(self).entries@.len() && old(self).entries@[j].0 == kk;
                        assert(self.entries@[j].0 == kk);
                    } else {
                        assert(self.entries@[i as int].0 == kk);
                    }
                }
            },
            None => {
                self.entries.push((k, v));
                self.contents = Ghost(m);
                let ghost n = self.entries@.len() - 1;
                assert forall|j: int| 0 <= j < self.entries@.len() implies {
                    &&& #[trigger] self.contents@.contains_key(self.entries@[j].0)
                    &&& self.contents@[self.entries@[j].0] == self.entries@[j].1
                } by {
                    if j < n {
                        assert(old(self).entries@[j] == self.entries@[j]);
                        assert(old(self).contents@.contains_key(old(self).entries@[j].0));
                    }
                }
                assert forall|kk: K| #[trigger] self.contents@.contains_key(kk) implies exists|j: int|
                    0 <= j < self.entries@.len() && #[trigger] self.entries@[j].0 == kk by {
                    if kk != k {
                        let j = choose|j: int|
                            0 <= j < old(self).entries@.len() && old(self).entries@[j].0 == kk;
                        assert(self.entries@[j].0 == kk);
                    } else {
                        assert(self.entries@[n].0 == kk);
                    }
                }
                assert forall|a: int, b: int|
                    0 <= a < self.entries@.len() && 0 <= b < self.entries@.len()
                        && #[trigger] self.entries@[a].0 == #[trigger] self.entries@[b].0 implies a
                    == b by {
                    if a < n && b == n {
                        assert(old(self).contents@.contains_key(old(self).entries@[a].0));
                    } else if a == n && b < n {
                        assert(old(self).contents@.contains_key(old(self).entries@[b].0));
                    }
                }
            },
        }
    }
}

impl<K: SlotKey, V: Copy> SlotMap<K, V> {
    /// An independent copy, for work that may have to be rolled back.
    pub fn copy(&self) -> (r: Self)
        requires
            self.wf(),
        ensures
            r.wf(),
            r@ == self@,
    {
        let mut entries: Vec<(K, V)> = Vec::new();
        let mut i: usize = 0;
        while i < self.entries.len()
            invariant
                self.wf(),
                0 <= i <= self.entries@.len(),
                entries@ == self.entries@.subrange(0, i as int),
            decreases self.entries@.len() - i,
        {
            let e = self.entries[i];
            entries.push(e);
            assert(self.entries@.subrange(0, i as int + 1) =~= self.entries@.subrange(
                0,
                i as int,
            ).push(e));
            i = i + 1;
        }
        assert(self.entries@.subrange(0, self.entries@.len() as int) =~= self.entries@);
        let r = SlotMap { entries, contents: Ghost(self.contents@) };
        assert(r.entries@ == self.entries@);
        assert forall|k: K| #[trigger] r.contents@.contains_key(k) implies exists|i: int|
            0 <= i < r.entries@.len() && #[trigger] r.entries@[i].0 == k by {
            let i = choose|i: int| 0 <= i < self.entries@.len() && self.entries@[i].0 == k;
            assert(r.entries@[i].0 == k);
        }
        r
    }
}

} // verus!
