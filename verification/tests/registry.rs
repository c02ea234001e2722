use locker::blocking::SyncLocker;
use locker::payload::PayloadTable;
use locker::table::LockTable;
use locker::Locker;

#[test]
fn same_name_returns_same_primitive() {
    let locker = Locker::new();
    let first = locker.get_mutex("name");
    let second = locker.get_mutex("name");
    assert_eq!(first.id(), second.id());
    assert!(std::sync::Arc::ptr_eq(&first, &second));
}

#[test]
fn distinct_names_return_distinct_primitives() {
    let locker = Locker::new();
    let a = locker.get_mutex("a");
    let b = locker.get_mutex("b");
    assert_ne!(a.id(), b.id());
}

#[test]
fn distinct_names_lock_independently() {
    // Holding "a" must not block acquiring "b": if both names shared one
    // primitive, the second acquisition would deadlock this thread.
    let locker = Locker::new();
    let a = locker.get_mutex("a");
    let b = locker.get_mutex("b");
    let guard_a = a.acquire();
    let guard_b = b.acquire();
    drop(guard_a);
    drop(guard_b);
}

#[test]
fn first_resolution_creates_exactly_once() {
    // Serial numbers count creations: repeated resolutions of one name do
    // not create further primitives, so the next new name gets serial 1.
    let locker = Locker::new();
    assert_eq!(locker.get_mutex("x").id(), 0);
    assert_eq!(locker.get_mutex("x").id(), 0);
    assert_eq!(locker.get_mutex("x").id(), 0);
    assert_eq!(locker.get_mutex("y").id(), 1);
}

#[test]
fn try_acquire_reports_held() {
    let locker = Locker::new();
    let mutex = locker.get_mutex("x");
    let other = locker.get_mutex("x");
    let guard = mutex.acquire();
    assert!(other.try_acquire().is_none());
    drop(guard);
    let probe = other.try_acquire();
    assert!(probe.is_some());
}

#[test]
fn lock_mutex_returns_work_result() {
    let value = String::from("value");
    let locker = Locker::new();
    let r = locker.lock_mutex("name", || Ok::<String, String>(value.clone()));
    assert_eq!(r, Ok(String::from("value")));
}

#[test]
fn lock_mutex_releases_after_error() {
    // The error is handed back unchanged, and the mutex is free again: a
    // second run under the same name would deadlock had it stayed held.
    let locker = Locker::new();
    let r = locker.lock_mutex("k", || Err::<u32, String>(String::from("boom")));
    assert_eq!(r, Err(String::from("boom")));
    let r2 = locker.lock_mutex("k", || Ok::<u32, String>(7));
    assert_eq!(r2, Ok(7));
    let probe = locker.get_mutex("k");
    assert!(probe.try_acquire().is_some());
}

#[test]
fn sync_locker_integer_keys() {
    let locker = SyncLocker::<i32>::new();
    let one = locker.get_mutex(1);
    let again = locker.get_mutex(1);
    let two = locker.get_mutex(2);
    assert_eq!(one.id(), again.id());
    assert_ne!(one.id(), two.id());
}

#[test]
fn sync_locker_clone_shares_the_registry() {
    let locker = SyncLocker::<u64>::new();
    let clone = locker.clone();
    let from_original = locker.get_mutex(10);
    let from_clone = clone.get_mutex(10);
    assert_eq!(from_original.id(), from_clone.id());
    assert!(std::sync::Arc::ptr_eq(&from_original, &from_clone));
    let guard = from_original.acquire();
    assert!(from_clone.try_acquire().is_none());
    drop(guard);
}

#[test]
fn sync_locker_string_keys() {
    let locker = SyncLocker::<String>::new();
    let a = locker.get_mutex(String::from("a"));
    let a_again = locker.get_mutex(String::from("a"));
    let b = locker.get_mutex(String::from("b"));
    assert_eq!(a.id(), a_again.id());
    assert_ne!(a.id(), b.id());
}

#[test]
fn resolving_new_names_preserves_existing_primitives() {
    // Inserting "y" must neither remove nor replace "x"'s primitive: the
    // two "x" handles are the same instance, not merely equal serials.
    let locker = Locker::new();
    let x_before = locker.get_mutex("x");
    let y = locker.get_mutex("y");
    let x_after = locker.get_mutex("x");
    assert!(std::sync::Arc::ptr_eq(&x_before, &x_after));
    assert_ne!(x_before.id(), y.id());
}

#[test]
fn payload_factory_runs_once_and_never_on_lookup() {
    let mut table = PayloadTable::<u64, String>::new();
    assert!(table.get(&1).is_none());
    let m = table.get_or_insert_with(1, || {
        std::sync::Arc::new(tokio::sync::Mutex::new(String::from("value")))
    });
    assert_eq!(*m.try_lock().unwrap(), "value");
    let found = table.get(&1).unwrap();
    assert!(std::sync::Arc::ptr_eq(&m, &found));
    // a second resolution must return the same handle without invoking the
    // factory at all
    let again = table.get_or_insert_with(1, || unreachable!());
    assert!(std::sync::Arc::ptr_eq(&m, &again));
    // inserting another key leaves the first key's handle in place
    let other = table.get_or_insert_with(2, || {
        std::sync::Arc::new(tokio::sync::Mutex::new(String::from("fresh")))
    });
    assert!(!std::sync::Arc::ptr_eq(&m, &other));
    let still = table.get(&1).unwrap();
    assert!(std::sync::Arc::ptr_eq(&m, &still));
}

#[test]
fn table_get_or_insert_basics() {
    let mut table = LockTable::<u64>::new();
    assert!(table.get(&5).is_none());
    let m = table.get_or_insert(5);
    assert_eq!(m.id(), 0);
    let found = table.get(&5);
    assert!(found.is_some());
    assert_eq!(found.unwrap().id(), 0);
    let n = table.get_or_insert(9);
    assert_eq!(n.id(), 1);
    assert!(table.get(&7).is_none());
}
