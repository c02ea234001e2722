//! The registry's state: an association of keys with exclusion primitives,
//! grown monotonically by get-or-create resolution. This is the part of the
//! registry that every variant shares; the surrounding lock that lets many
//! callers reach one table concurrently lives with the variants.

use vstd::prelude::*;
use vstd::map::*;
use std::sync::Arc;
use crate::keys::LockKey;
use crate::mutex::NamedMutex;

verus! {

/// The map after one resolution of `k`, where `fresh` is the serial number a
/// newly created primitive would get: an existing entry is kept as it is, a
/// missing one is created.
pub open spec fn resolved_map<KV>(m: Map<KV, usize>, k: KV, fresh: usize) -> Map<KV, usize> {
    if m.contains_key(k) {
        m
    } else {
        m.insert(k, fresh)
    }
}

/// The serial number that one resolution of `k` hands back: the existing
/// entry's, or `fresh` for a newly created one.
pub open spec fn resolved_id<KV>(m: Map<KV, usize>, k: KV, fresh: usize) -> usize {
    if m.contains_key(k) {
        m[k]
    } else {
        fresh
    }
}

/// How many primitives exist after one resolution of `k`: creation happens
/// exactly when `k` was absent.
pub open spec fn resolved_created<KV>(m: Map<KV, usize>, created: nat, k: KV) -> nat {
    if m.contains_key(k) {
        created
    } else {
        created + 1
    }
}

/// The registry invariant over the model: every serial number handed out so
/// far is below the creation count, and no two keys share a primitive.
pub open spec fn registry_inv<KV>(m: Map<KV, usize>, created: nat) -> bool {
    &&& forall|k: KV| #[trigger] m.contains_key(k) ==> (m[k] as nat) < created
    &&& forall|k1: KV, k2: KV|
        #![trigger m[k1], m[k2]]
        m.contains_key(k1) && m.contains_key(k2) && k1 != k2 ==> m[k1] != m[k2]
}

/// The predicate that a registry's reader-writer lock maintains on the table
/// it guards: every caller that acquires the lock receives a well-formed
/// table and must hand a well-formed table back.
pub struct WfPred;

impl<K: LockKey> vstd::rwlock::RwLockPredicate<LockTable<K>> for WfPred {
    open spec fn inv(self, t: LockTable<K>) -> bool {
        t.wf()
    }
}

/// A table of exclusion primitives, one per key ever resolved. Entries are
/// appended and never removed, and the primitive created for the `i`-th new
/// key carries serial number `i`.
pub struct LockTable<K: LockKey> {
    entries: Vec<(K, Arc<NamedMutex>)>,
}

/// A table is viewed as the map from each resolved key's view to the serial
/// number of that key's primitive.
impl<K: LockKey> View for LockTable<K> {
    type V = Map<K::V, usize>;

    closed spec fn view(&self) -> Map<K::V, usize> {
        Map::new(|kv: K::V| self.contains_view(kv), |kv: K::V| self.index_of(kv) as usize)
    }
}

impl<K: LockKey> LockTable<K> {
    /// Well-formedness: no two entries share a key, and each entry's
    /// primitive carries its position as serial number — so the serial
    /// number identifies the instance within the table.
    pub closed spec fn wf(&self) -> bool {
        &&& forall|i: int, j: int|
            0 <= i < self.entries@.len() && 0 <= j < self.entries@.len() && i != j
                ==> (#[trigger] self.entries@[i]).0@ != (#[trigger] self.entries@[j]).0@
        &&& forall|i: int|
            #![trigger self.entries@[i]]
            0 <= i < self.entries@.len() ==> (*self.entries@[i].1).spec_id() == i
    }

    /// How many primitives this table has created so far.
    pub closed spec fn created(&self) -> nat {
        self.entries@.len()
    }

    /// Whether some entry's key has the view `kv`.
    pub closed spec fn contains_view(&self, kv: K::V) -> bool {
        exists|i: int|
            #![trigger self.entries@[i]]
            0 <= i < self.entries@.len() && self.entries@[i].0@ == kv
    }

    /// The position of the entry whose key has the view `kv`.
    pub closed spec fn index_of(&self, kv: K::V) -> int {
        choose|i: int|
            #![trigger self.entries@[i]]
            0 <= i < self.entries@.len() && self.entries@[i].0@ == kv
    }

    /// The primitive registered under the key with view `kv`: the one
    /// instance every resolution of that key hands back.
    pub closed spec fn primitive(&self, kv: K::V) -> NamedMutex {
        *self.entries@[self.index_of(kv)].1
    }

    /// In a well-formed table an entry's position is determined by its key.
    proof fn lemma_index(&self, kv: K::V, i: int)
        requires
            self.wf(),
            0 <= i < self.entries@.len(),
            self.entries@[i].0@ == kv,
        ensures
            self.contains_view(kv),
            self.index_of(kv) == i,
            self@.contains_key(kv),
            self@[kv] == i as usize,
    {
        assert(self.contains_view(kv));
        let j = self.index_of(kv);
        assert(0 <= j < self.entries@.len() && self.entries@[j].0@ == kv);
        if i != j {
            assert(self.entries@[i].0@ != self.entries@[j].0@);
        }
    }

    pub fn new() -> (t: Self)
        ensures
            t.wf(),
            t@ == Map::<K::V, usize>::empty(),
            t.created() == 0,
    {
        let t = LockTable { entries: Vec::new() };
        proof {
            assert(t@ =~= Map::<K::V, usize>::empty());
        }
        t
    }

    /// The position of `key`'s entry, if the key has been resolved before.
    fn find(&self, key: &K) -> (r: Option<usize>)
        ensures
            match r {
                Some(i) => 0 <= i < self.entries@.len() && self.entries@[i as int].0@ == key@,
                None => !self.contains_view(key@),
            },
    {
        let n = self.entries.len();
        let mut i: usize = 0;
        while i < n
            invariant
                n == self.entries@.len(),
                0 <= i <= n,
                forall|j: int| #![trigger self.entries@[j]] 0 <= j < i ==> self.entries@[j].0@ != key@,
            decreases n - i,
        {
            if self.entries[i].0.key_eq(key) {
                return Some(i);
            }
            i = i + 1;
        }
        None
    }

    /// Look the key up without creating anything: the existing entry's
    /// primitive, or `None` for a key never resolved.
    pub fn get(&self, key: &K) -> (r: Option<Arc<NamedMutex>>)
        requires
            self.wf(),
        ensures
            match r {
                Some(m) => {
                    &&& self@.contains_key(key@)
                    &&& *m == self.primitive(key@)
                    &&& (*m).spec_id() == self@[key@]
                },
                None => !self@.contains_key(key@),
            },
    {
        match self.find(key) {
            Some(i) => {
                let m = self.entries[i].1.clone();
                proof {
                    self.lemma_index(key@, i as int);
                }
                Some(m)
            },
            None => None,
        }
    }

    /// Resolve `key`: hand back the primitive of its entry, creating the
    /// entry first if this is the key's first resolution. Nothing else in
    /// the table changes, and an existing entry is never replaced.
    pub fn get_or_insert(&mut self, key: K) -> (m: Arc<NamedMutex>)
        requires
            old(self).wf(),
        ensures
            final(self).wf(),
            final(self)@ == resolved_map(old(self)@, key@, old(self).created() as usize),
            final(self).created() == resolved_created(old(self)@, old(self).created(), key@),
            (*m).spec_id() == resolved_id(old(self)@, key@, old(self).created() as usize),
            final(self)@.contains_key(key@),
            *m == final(self).primitive(key@),
            (*m).spec_id() == final(self)@[key@],
            old(self)@.contains_key(key@) ==> *final(self) == *old(self),
            forall|kv: K::V|
                old(self)@.contains_key(kv) ==> final(self)@.contains_key(kv)
                    && final(self).primitive(kv) == old(self).primitive(kv),
    {
        match self.find(&key) {
            Some(i) => {
                let m = self.entries[i].1.clone();
                proof {
                    self.lemma_index(key@, i as int);
                }
                m
            },
            None => {
                let serial = self.entries.len();
                let m = Arc::new(NamedMutex::with_serial(serial));
                let handle = m.clone();
                self.entries.push((key, m));
                proof {
                    let prev = *old(self);
                    let n = prev.entries@.len() as int;
                    assert forall|i: int, j: int|
                        0 <= i < self.entries@.len() && 0 <= j < self.entries@.len() && i != j
                            implies (#[trigger] self.entries@[i]).0@
                            != (#[trigger] self.entries@[j]).0@ by {
                        if i < n && j < n {
                            assert(prev.entries@[i].0@ != prev.entries@[j].0@);
                        } else if i == n {
                            assert(!(0 <= j < n && prev.entries@[j].0@ == key@));
                        } else {
                            assert(!(0 <= i < n && prev.entries@[i].0@ == key@));
                        }
                    }
                    assert forall|i: int|
                        #![trigger self.entries@[i]]
                        0 <= i < self.entries@.len() implies (*self.entries@[i].1).spec_id()
                        == i by {
                        if i < n {
                            assert((*prev.entries@[i].1).spec_id() == i);
                        }
                    }
                    self.lemma_index(key@, n);
                    assert(!prev.contains_view(key@));
                    assert forall|kv: K::V| prev@.contains_key(kv)
                        implies self@.contains_key(kv) && self.primitive(kv) == prev.primitive(
                        kv,
                    ) by {
                        let i = prev.index_of(kv);
                        assert(0 <= i < n && prev.entries@[i].0@ == kv);
                        prev.lemma_index(kv, i);
                        self.lemma_index(kv, i);
                        assert(self.entries@[i] == prev.entries@[i]);
                    }
                    assert_maps_equal!(self@, prev@.insert(key@, n as usize), kv => {
                        if kv != key@ {
                            if self.contains_view(kv) {
                                let i = self.index_of(kv);
                                assert(0 <= i < n + 1 && self.entries@[i].0@ == kv);
                                if i < n {
                                    prev.lemma_index(kv, i);
                                    self.lemma_index(kv, i);
                                }
                            }
                            if prev.contains_view(kv) {
                                let i = prev.index_of(kv);
                                assert(0 <= i < n && prev.entries@[i].0@ == kv);
                                prev.lemma_index(kv, i);
                                self.lemma_index(kv, i);
                            }
                        }
                    });
                }
                handle
            },
        }
    }

    /// A well-formed table's view satisfies the registry invariant: serial
    /// numbers stay below the creation count, and distinct keys hold
    /// distinct primitives.
    pub proof fn lemma_inv(&self)
        requires
            self.wf(),
        ensures
            registry_inv(self@, self.created()),
    {
        assert forall|k: K::V| #[trigger] self@.contains_key(k)
            implies (self@[k] as nat) < self.created() by {
            let i = self.index_of(k);
            assert(0 <= i < self.entries@.len() && self.entries@[i].0@ == k);
        }
        assert forall|k1: K::V, k2: K::V|
            #![trigger self@[k1], self@[k2]]
            self@.contains_key(k1) && self@.contains_key(k2) && k1 != k2
            implies self@[k1] != self@[k2] by {
            let i1 = self.index_of(k1);
            let i2 = self.index_of(k2);
            assert(0 <= i1 < self.entries@.len() && self.entries@[i1].0@ == k1);
            assert(0 <= i2 < self.entries@.len() && self.entries@[i2].0@ == k2);
            if i1 == i2 {
                assert(k1 == k2);
            }
        }
    }
}

} // verus!
