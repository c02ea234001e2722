//! A keyed lock registry: a shared map that hands out one mutual-exclusion
//! primitive per key, creating it on first request and returning the same
//! instance to every later request for the same key. Callers then acquire
//! the returned primitive directly; distinct keys never contend on one
//! primitive.
//!
//! The get-or-create logic and its guarantees are stated and proved on
//! [`table::LockTable`]; [`Locker`] and [`blocking::SyncLocker`] wrap that
//! table in a verified reader-writer lock so that arbitrarily many callers
//! can share one registry.

use vstd::prelude::*;
use vstd::rwlock::RwLock;
use std::sync::Arc;

pub mod blocking;
pub mod keys;
pub mod laws;
pub mod mutex;
pub mod payload;
pub mod table;

use crate::mutex::NamedMutex;
use crate::table::{LockTable, WfPred};

verus! {

/// Named mutex registry: a map from string names to exclusion primitives,
/// shared by wrapping a `Locker` in `Arc`. The map itself sits behind a
/// verified lock, acquired exclusively for the whole of each resolution.
pub struct Locker {
    locks: RwLock<LockTable<String>, WfPred>,
}

impl Locker {
    /// An empty registry: no name has a mutex yet.
    pub fn new() -> (l: Locker) {
        Locker { locks: RwLock::new(LockTable::new(), Ghost(WfPred)) }
    }

    /// Get the mutex registered under `name`, creating it if `name` has
    /// never been resolved; blocks the calling thread while another caller
    /// holds the registry's internal lock.
    ///
    /// The returned handle shares the primitive with every other caller
    /// that resolves the same name: what each resolution returns and
    /// creates is stated on [`LockTable::get_or_insert`], which this method
    /// applies to the guarded table. Nothing can be promised here about the
    /// registry's state after the call, because other callers may resolve
    /// further names at any moment.
    ///
    /// Resolution has no failure path: the map sits behind a verified lock
    /// that a failed holder cannot leave unusable, so the fatal
    /// poisoned-registry condition of lock-guarded maps cannot arise.
    pub fn get_mutex(&self, name: &str) -> (m: Arc<NamedMutex>) {
        let (mut table, handle) = self.locks.acquire_write();
        let m = table.get_or_insert(name.to_owned());
        handle.release_write(table);
        m
    }

    /// Run `code` while holding the mutex registered under `name`: resolve
    /// the name, acquire its mutex, run the work, and release the mutex on
    /// every exit path — also when the work returns an error. The work's
    /// result is handed back unchanged.
    pub fn lock_mutex<F, T, E>(&self, name: &str, code: F) -> (r: Result<T, E>) where
        F: FnOnce() -> Result<T, E>,
        requires
            call_requires(code, ()),
        ensures
            call_ensures(code, (), r),
    {
        let mutex = self.get_mutex(name);
        let guard = mutex.acquire();
        let r = code();
        crate::mutex::release(guard);
        r
    }
}

} // verus!
