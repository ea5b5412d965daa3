//! A keyed table: a vector of entries whose keys are pairwise distinct, read
//! through its view as a finite map.

use vstd::prelude::*;
use crate::env::{bytes_match, Address};

verus! {

/// A key that can be compared at run time with the meaning of equality of
/// its view.
pub trait TableKey: View + Sized {
    fn same_key(&self, other: &Self) -> (r: bool)
        ensures
            r == (self@ == other@),
    ;
}

impl TableKey for Address {
    fn same_key(&self, other: &Address) -> (r: bool) {
        bytes_match(&self.bytes, &other.bytes)
    }
}

impl TableKey for [u8; 32] {
    fn same_key(&self, other: &[u8; 32]) -> (r: bool) {
        let r = bytes_match(self, other);
        proof {
            if self@ == other@ {
                assert forall|i: int| 0 <= i < 32 implies self[i] == other[i] by {
                    assert(self@[i] == other@[i]);
                }
                assert(*self =~= *other);
            }
        }
        r
    }
}

impl TableKey for (Address, Address) {
    fn same_key(&self, other: &(Address, Address)) -> (r: bool) {
        self.0.same_key(&other.0) && self.1.same_key(&other.1)
    }
}

impl TableKey for (Address, String, String) {
    fn same_key(&self, other: &(Address, String, String)) -> (r: bool) {
        self.0.same_key(&other.0) && self.1 == other.1 && self.2 == other.2
    }
}

/// Entries keyed by `K`, at most one per key view.
#[verifier::reject_recursive_types(K)]
#[verifier::reject_recursive_types(V)]
pub struct Table<K: TableKey, V: View> {
    entries: Vec<(K, V)>,
    contents: Ghost<Map<K::V, V::V>>,
}

impl<K: TableKey, V: View> View for Table<K, V> {
    type V = Map<K::V, V::V>;

    closed spec fn view(&self) -> Map<K::V, V::V> {
        self.contents@
    }
}

impl<K: TableKey, V: View> Table<K, V> {
    /// Keys are pairwise distinct, and the view holds exactly the entries.
    pub closed spec fn wf(&self) -> bool {
        &&& forall|i: int, j: int|
            0 <= i < j < self.entries@.len() ==> (#[trigger] self.entries@[i]).0@
                != (#[trigger] self.entries@[j]).0@
        &&& forall|i: int|
            0 <= i < self.entries@.len() ==> {
                &&& self.contents@.contains_key((#[trigger] self.entries@[i]).0@)
                &&& self.contents@[self.entries@[i].0@] == self.entries@[i].1@
            }
        &&& forall|k: K::V|
            #[trigger] self.contents@.contains_key(k) ==> exists|i: int|
                0 <= i < self.entries@.len() && (#[trigger] self.entries@[i]).0@ == k
    }

    pub fn new() -> (r: Self)
        ensures
            r.wf(),
            r@ == Map::<K::V, V::V>::empty(),
    {
        Table { entries: Vec::new(), contents: Ghost(Map::empty()) }
    }

    /// The position of the entry under `k`, if any.
    fn find(&self, k: &K) -> (r: Option<usize>)
        requires
            self.wf(),
        ensures
            match r {
                Some(i) => i < self.entries@.len() && self.entries@[i as int].0@ == k@,
                None => !self@.contains_key(k@),
            },
    {
        let mut i: usize = 0;
        while i < self.entries.len()
            invariant
                0 <= i <= self.entries@.len(),
                forall|j: int| 0 <= j < i ==> (#[trigger] self.entries@[j]).0@ != k@,
            decreases self.entries@.len() - i,
        {
            if self.entries[i].0.same_key(k) {
                return Some(i);
            }
            i += 1;
        }
        None
    }

    pub fn get(&self, k: &K) -> (r: Option<&V>)
        requires
            self.wf(),
        ensures
            r is Some == self@.contains_key(k@),
            r is Some ==> r->0@ == self@[k@],
    {
        match self.find(k) {
            Some(i) => Some(&self.entries[i].1),
            None => None,
        }
    }

    pub fn insert(&mut self, k: K, v: V)
        requires
            old(self).wf(),
        ensures
            final(self).wf(),
            final(self)@ == old(self)@.insert(k@, v@),
    {
        let ghost key = k@;
        let ghost val = v@;
        let ghost pos: int;
        match self.find(&k) {
            Some(i) => {
                self.entries.set(i, (k, v));
                proof {
                    pos = i as int;
                }
            },
            None => {
                self.entries.push((k, v));
                proof {
                    pos = self.entries@.len() - 1;
                }
            },
        }
        self.contents = Ghost(self.contents@.insert(key, val));
        proof {
            assert(self.entries@[pos].0@ == key);
            assert forall|k2: K::V| #[trigger] self.contents@.contains_key(k2) implies exists|i: int|
                0 <= i < self.entries@.len() && (#[trigger] self.entries@[i]).0@ == k2 by {
                if k2 != key {
                    assert(old(self).contents@.contains_key(k2));
                    let j = choose|j: int| 0 <= j < old(self).entries@.len() && (#[trigger] old(self).entries@[j]).0@ == k2;
                    assert(self.entries@[j].0@ == k2);
                }
            }
        }
    }

    pub fn remove(&mut self, k: &K)
        requires
            old(self).wf(),
        ensures
            final(self).wf(),
            final(self)@ == old(self)@.remove(k@),
    {
        match self.find(k) {
            Some(i) => {
                self.entries.remove(i);
                self.contents = Ghost(self.contents@.remove(k@));
                proof {
                    let old_entries = old(self).entries@;
                    assert forall|j: int| 0 <= j < self.entries@.len() implies
                        #[trigger] self.entries@[j] == (if j < i { old_entries[j] } else { old_entries[j + 1] }) by {}
                    assert forall|k2: K::V| #[trigger] self.contents@.contains_key(k2) implies exists|j: int|
                        0 <= j < self.entries@.len() && (#[trigger] self.entries@[j]).0@ == k2 by {
                        assert(old(self).contents@.contains_key(k2));
                        let j = choose|j: int| 0 <= j < old_entries.len() && (#[trigger] old_entries[j]).0@ == k2;
                        if j < i {
                            assert(self.entries@[j].0@ == k2);
                        } else {
                            assert(j != i);
                            assert(self.entries@[j - 1].0@ == k2);
                        }
                    }
                }
            },
            None => {
                proof {
                    assert(self.contents@.remove(k@) =~= self.contents@);
                }
            },
        }
    }
}

} // verus!
