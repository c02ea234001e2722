//! The registry variant with a read-mostly fast path: a resolution first
//! takes a shared view of the map, and only a first resolution of a key
//! falls back to the exclusive view, re-checking presence there because
//! another caller may have created the entry in between.

use vstd::prelude::*;
use vstd::rwlock::RwLock;
use std::sync::Arc;
use crate::keys::LockKey;
use crate::mutex::NamedMutex;
use crate::table::{LockTable, WfPred};

verus! {

/// A keyed mutex registry for OS threads, generic over the key type and
/// cheap to share: cloning the registry clones only the handle, so every
/// clone resolves keys against the same table.
pub struct SyncLocker<K: LockKey> {
    mutexes: Arc<RwLock<LockTable<K>, WfPred>>,
}

impl<K: LockKey> SyncLocker<K> {
    /// An empty registry: no key has a mutex yet.
    pub fn new() -> (s: Self) {
        SyncLocker { mutexes: Arc::new(RwLock::new(LockTable::new(), Ghost(WfPred))) }
    }

    /// Get the mutex registered under `key`, creating it if `key` has never
    /// been resolved; blocks the calling thread while the registry's
    /// internal lock is unavailable.
    ///
    /// The fast path holds only a shared view of the map, so steady-state
    /// resolutions of known keys never wait for one another. What each
    /// resolution returns and creates is stated on [`LockTable::get`] and
    /// [`LockTable::get_or_insert`], which this method applies to the
    /// guarded table; nothing can be promised here about the registry's
    /// state after the call, because other callers may resolve further keys
    /// at any moment.
    ///
    /// Resolution has no failure path: the map sits behind a verified lock
    /// that a failed holder cannot leave unusable, so the fatal
    /// poisoned-registry condition of lock-guarded maps cannot arise.
    pub fn get_mutex(&self, key: K) -> (m: Arc<NamedMutex>) {
        let read_handle = self.mutexes.acquire_read();
        let existing = read_handle.borrow().get(&key);
        read_handle.release_read();
        match existing {
            Some(m) => m,
            None => {
                let (mut table, write_handle) = self.mutexes.acquire_write();
                let m = table.get_or_insert(key);
                write_handle.release_write(table);
                m
            },
        }
    }
}

impl<K: LockKey> Clone for SyncLocker<K> {
    /// The clone is the same registry: both handles resolve keys against
    /// one shared table.
    fn clone(&self) -> (c: Self)
        ensures
            c == *self,
    {
        SyncLocker { mutexes: self.mutexes.clone() }
    }
}

} // verus!
