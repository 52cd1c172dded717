//! A small keyed table: the storage mappings of a precompile, held as a list of
//! `(key, value)` slots with no key twice, viewed as a finite map.
use crate::primitives::{Address, AddressPair, KeyedAddress, B256};
use vstd::prelude::*;

verus! {

/// A key that can be compared for equality in executable code.
pub trait TableKey: Copy + Sized {
    fn same_key(&self, other: &Self) -> (r: bool)
        ensures
            r == (*self == *other),
    ;
}

impl TableKey for Address {
    fn same_key(&self, other: &Self) -> (r: bool) {
        self.same(other)
    }
}

impl TableKey for B256 {
    fn same_key(&self, other: &Self) -> (r: bool) {
        self.same(other)
    }
}

impl TableKey for AddressPair {
    fn same_key(&self, other: &Self) -> (r: bool) {
        self.first.same(&other.first) && self.second.same(&other.second)
    }
}

impl TableKey for KeyedAddress {
    fn same_key(&self, other: &Self) -> (r: bool) {
        self.key.same(&other.key) && self.address.same(&other.address)
    }
}

/// Storage slots keyed by `K`. Keys never written read as absent.
#[verifier::reject_recursive_types(K)]
pub struct Table<K, V> {
    entries: Vec<(K, V)>,
    map: Ghost<Map<K, V>>,
}

impl<K, V> View for Table<K, V> {
    type V = Map<K, V>;

    closed spec fn view(&self) -> Map<K, V> {
        self.map@
    }
}

impl<K: TableKey, V> Table<K, V> {
    /// Well-formedness: the slot list holds each key at most once and matches the map.
    pub closed spec fn wf(&self) -> bool {
        &&& forall|i: int, j: int|
            0 <= i < j < self.entries@.len() ==> (#[trigger] self.entries@[i]).0 != (
            #[trigger] self.entries@[j]).0
        &&& forall|i: int|
            0 <= i < self.entries@.len() ==> self.map@.contains_key((#[trigger] self.entries@[i]).0)
                && self.map@[self.entries@[i].0] == self.entries@[i].1
        &&& forall|k: K|
            #[trigger] self.map@.contains_key(k) ==> exists|i: int|
                0 <= i < self.entries@.len() && (#[trigger] self.entries@[i]).0 == k
    }

    /// An empty table.
    pub fn new() -> (t: Self)
        ensures
            t.wf(),
            t@ == Map::<K, V>::empty(),
    {
        Table { entries: Vec::new(), map: Ghost(Map::empty()) }
    }

    /// Index of the slot holding `k`, if any.
    fn find(&self, k: &K) -> (r: Option<usize>)
        requires
            self.wf(),
        ensures
            r matches Some(i) ==> i < self.entries@.len() && self.entries@[i as int].0 == *k,
            r is None ==> !self@.contains_key(*k),
    {
        let mut i: usize = 0;
        while i < self.entries.len()
            invariant
                self.wf(),
                i <= self.entries@.len(),
                forall|j: int| 0 <= j < i ==> (#[trigger] self.entries@[j]).0 != *k,
            decreases self.entries@.len() - i,
        {
            if self.entries[i].0.same_key(k) {
                return Some(i);
            }
            i = i + 1;
        }
        None
    }

    /// The value stored under `k`, if any.
    pub fn get(&self, k: &K) -> (r: Option<&V>)
        requires
            self.wf(),
        ensures
            r matches Some(v) ==> self@.contains_key(*k) && *v == self@[*k],
            r is None ==> !self@.contains_key(*k),
    {
        match self.find(k) {
            Some(i) => Some(&self.entries[i].1),
            None => None,
        }
    }

    /// Stores `v` under `k`.
    pub fn set(&mut self, k: K, v: V)
        requires
            old(self).wf(),
        ensures
            final(self).wf(),
            final(self)@ == old(self)@.insert(k, v),
    {
        let ghost old_entries = self.entries@;
        let ghost new_map = self.map@.insert(k, v);
        match self.find(&k) {
            Some(i) => {
                self.entries.set(i, (k, v));
                self.map = Ghost(new_map);
                assert forall|q: K| #[trigger] self.map@.contains_key(q) implies exists|j: int|
                    0 <= j < self.entries@.len() && (#[trigger] self.entries@[j]).0 == q by {
                    if q == k {
                        assert(self.entries@[i as int].0 == q);
                    } else {
                        let j = choose|j: int| 0 <= j < old_entries.len() && old_entries[j].0 == q;
                        assert(self.entries@[j].0 == q);
                    }
                }
            },
            None => {
                self.entries.push((k, v));
                self.map = Ghost(new_map);
                let ghost n = old_entries.len() as int;
                assert(self.entries@[n].0 == k);
                assert forall|q: K| #[trigger] self.map@.contains_key(q) implies exists|j: int|
                    0 <= j < self.entries@.len() && (#[trigger] self.entries@[j]).0 == q by {
                    if q == k {
                        assert(self.entries@[n].0 == q);
                    } else {
                        let j = choose|j: int| 0 <= j < old_entries.len() && old_entries[j].0 == q;
                        assert(self.entries@[j].0 == q);
                    }
                }
            },
        }
    }
}

} // verus!
