//! The payload-carrying variant's table: each key guards a value produced by
//! a caller-supplied factory, invoked under the exclusive view exactly when
//! the key is absent — never on lookup of an existing entry. The handles are
//! task-suspending mutexes, opaque here; the awaits that acquire the table's
//! surrounding lock and the handed-out mutexes belong to the task-based
//! registry built on top of this table.

use vstd::prelude::*;
use vstd::map::*;
use std::sync::Arc;
use crate::keys::LockKey;

verus! {

#[verifier::external_type_specification]
#[verifier::external_body]
#[verifier::reject_recursive_types(T)]
pub struct ExTokioMutex<T: ?Sized>(tokio::sync::Mutex<T>);

/// A table of payload-guarding mutexes, one per key ever resolved. Entries
/// are appended and never removed or replaced, so a key's handle, once
/// created, is the one every later resolution returns.
#[verifier::reject_recursive_types(T)]
pub struct PayloadTable<K: LockKey, T> {
    entries: Vec<(K, Arc<tokio::sync::Mutex<T>>)>,
}

/// A table is viewed as the map from each resolved key's view to the handle
/// registered under that key.
impl<K: LockKey, T> View for PayloadTable<K, T> {
    type V = Map<K::V, Arc<tokio::sync::Mutex<T>>>;

    closed spec fn view(&self) -> Map<K::V, Arc<tokio::sync::Mutex<T>>> {
        Map::new(
            |kv: K::V| self.contains_view(kv),
            |kv: K::V| self.entries@[self.index_of(kv)].1,
        )
    }
}

impl<K: LockKey, T> PayloadTable<K, T> {
    /// Well-formedness: no two entries share a key.
    pub closed spec fn wf(&self) -> bool {
        forall|i: int, j: int|
            0 <= i < self.entries@.len() && 0 <= j < self.entries@.len() && i != j
                ==> (#[trigger] self.entries@[i]).0@ != (#[trigger] self.entries@[j]).0@
    }

    /// Whether some entry's key has the view `kv`.
    pub closed spec fn contains_view(&self, kv: K::V) -> bool {
        exists|i: int|
            #![trigger self.entries@[i]]
            0 <= i < self.entries@.len() && self.entries@[i].0@ == kv
    }

    /// The position of the entry whose key has the view `kv`.
    pub closed spec fn index_of(&self, kv: K::V) -> int {
        choose|i: int|
            #![trigger self.entries@[i]]
            0 <= i < self.entries@.len() && self.entries@[i].0@ == kv
    }

    /// In a well-formed table an entry's position is determined by its key.
    proof fn lemma_index(&self, kv: K::V, i: int)
        requires
            self.wf(),
            0 <= i < self.entries@.len(),
            self.entries@[i].0@ == kv,
        ensures
            self.contains_view(kv),
            self.index_of(kv) == i,
            self@.contains_key(kv),
            self@[kv] == self.entries@[i].1,
    {
        assert(self.contains_view(kv));
        let j = self.index_of(kv);
        assert(0 <= j < self.entries@.len() && self.entries@[j].0@ == kv);
        if i != j {
            assert(self.entries@[i].0@ != self.entries@[j].0@);
        }
    }

    pub fn new() -> (t: Self)
        ensures
            t.wf(),
            t@ == Map::<K::V, Arc<tokio::sync::Mutex<T>>>::empty(),
    {
        let t = PayloadTable { entries: Vec::new() };
        proof {
            assert(t@ =~= Map::<K::V, Arc<tokio::sync::Mutex<T>>>::empty());
        }
        t
    }

    /// The position of `key`'s entry, if the key has been resolved before.
    fn find(&self, key: &K) -> (r: Option<usize>)
        ensures
            match r {
                Some(i) => 0 <= i < self.entries@.len() && self.entries@[i as int].0@ == key@,
                None => !self.contains_view(key@),
            },
    {
        let n = self.entries.len();
        let mut i: usize = 0;
        while i < n
            invariant
                n == self.entries@.len(),
                0 <= i <= n,
                forall|j: int| #![trigger self.entries@[j]] 0 <= j < i ==> self.entries@[j].0@ != key@,
            decreases n - i,
        {
            if self.entries[i].0.key_eq(key) {
                return Some(i);
            }
            i = i + 1;
        }
        None
    }

    /// Look the key up without creating anything: the existing entry's
    /// handle, or `None` for a key never resolved.
    pub fn get(&self, key: &K) -> (r: Option<Arc<tokio::sync::Mutex<T>>>)
        requires
            self.wf(),
        ensures
            match r {
                Some(m) => self@.contains_key(key@) && m == self@[key@],
                None => !self@.contains_key(key@),
            },
    {
        match self.find(key) {
            Some(i) => {
                let m = self.entries[i].1.clone();
                proof {
                    self.lemma_index(key@, i as int);
                }
                Some(m)
            },
            None => None,
        }
    }

    /// Resolve `key`: hand back the handle registered under it, or, exactly
    /// when the key is absent, invoke `make` once and register what it
    /// returns. An existing entry is never looked past, replaced or removed,
    /// and the factory never runs for a key that already has an entry.
    pub fn get_or_insert_with<F: FnOnce() -> Arc<tokio::sync::Mutex<T>>>(
        &mut self,
        key: K,
        make: F,
    ) -> (m: Arc<tokio::sync::Mutex<T>>)
        requires
            old(self).wf(),
            call_requires(make, ()),
        ensures
            final(self).wf(),
            final(self)@.contains_key(key@),
            m == final(self)@[key@],
            old(self)@.contains_key(key@) ==> *final(self) == *old(self) && m == old(self)@[key@],
            !old(self)@.contains_key(key@) ==> call_ensures(make, (), m) && final(self)@ == old(
                self,
            )@.insert(key@, m),
            forall|kv: K::V|
                old(self)@.contains_key(kv) ==> final(self)@.contains_key(kv) && final(self)@[kv]
                    == old(self)@[kv],
    {
        match self.find(&key) {
            Some(i) => {
                let m = self.entries[i].1.clone();
                proof {
                    self.lemma_index(key@, i as int);
                }
                m
            },
            None => {
                let m = make();
                let handle = m.clone();
                self.entries.push((key, m));
                proof {
                    let prev = *old(self);
                    let n = prev.entries@.len() as int;
                    assert forall|i: int, j: int|
                        0 <= i < self.entries@.len() && 0 <= j < self.entries@.len() && i != j
                            implies (#[trigger] self.entries@[i]).0@
                            != (#[trigger] self.entries@[j]).0@ by {
                        if i < n && j < n {
                            assert(prev.entries@[i].0@ != prev.entries@[j].0@);
                        } else if i == n {
                            assert(!(0 <= j < n && prev.entries@[j].0@ == key@));
                        } else {
                            assert(!(0 <= i < n && prev.entries@[i].0@ == key@));
                        }
                    }
                    self.lemma_index(key@, n);
                    assert(!prev.contains_view(key@));
                    assert_maps_equal!(self@, prev@.insert(key@, handle), kv => {
                        if kv != key@ {
                            if self.contains_view(kv) {
                                let i = self.index_of(kv);
                                assert(0 <= i < n + 1 && self.entries@[i].0@ == kv);
                                if i < n {
                                    prev.lemma_index(kv, i);
                                    self.lemma_index(kv, i);
                                }
                            }
                            if prev.contains_view(kv) {
                                let i = prev.index_of(kv);
                                assert(0 <= i < n && prev.entries@[i].0@ == kv);
                                prev.lemma_index(kv, i);
                                self.lemma_index(kv, i);
                            }
                        }
                    });
                }
                handle
            },
        }
    }
}

} // verus!
