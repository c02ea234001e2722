//! The per-key exclusion primitive: a unit mutex together with a serial
//! number that identifies the instance. The registry assigns serial numbers
//! in creation order, so two primitives of one registry are the same instance
//! exactly when their serial numbers are equal.
//!
//! Blocking, non-blocking probing and release are the operations of
//! `std::sync::Mutex`, which this module declares and wraps; everything said
//! about those operations is trusted, not proved.

use vstd::prelude::*;

verus! {

#[verifier::external_type_specification]
#[verifier::external_body]
#[verifier::reject_recursive_types(T)]
pub struct ExMutex<T: ?Sized>(std::sync::Mutex<T>);

#[verifier::external_type_specification]
#[verifier::external_body]
#[verifier::reject_recursive_types(T)]
pub struct ExMutexGuard<'a, T: ?Sized + 'a>(std::sync::MutexGuard<'a, T>);

/// Relies on `std::sync::Mutex::new`: creates an unlocked mutex guarding `()`.
#[verifier::external_body]
fn new_unit_mutex() -> std::sync::Mutex<()> {
    std::sync::Mutex::new(())
}

/// One exclusion primitive of a registry. Acquiring it serializes every
/// holder of the key it was created for; its serial number is the instance
/// identity that the registry's contracts speak about.
pub struct NamedMutex {
    serial: usize,
    inner: std::sync::Mutex<()>,
}

impl NamedMutex {
    /// The serial number, as contracts see it.
    pub closed spec fn spec_id(&self) -> usize {
        self.serial
    }

    /// The serial number: the position of this primitive in its registry's
    /// creation order.
    #[verifier::when_used_as_spec(spec_id)]
    pub fn id(&self) -> (r: usize)
        ensures
            r == self.spec_id(),
    {
        self.serial
    }

    /// A fresh, unlocked primitive carrying the given serial number.
    pub(crate) fn with_serial(serial: usize) -> (m: NamedMutex)
        ensures
            m.spec_id() == serial,
    {
        NamedMutex { serial, inner: new_unit_mutex() }
    }

    /// Acquire the primitive, blocking the calling thread until the previous
    /// holder releases; the returned guard holds it until released.
    ///
    /// Relies on `std::sync::Mutex::lock` for blocking mutual exclusion. A
    /// mutex abandoned by a holder that panicked is taken over via
    /// `PoisonError::into_inner`: the guarded value is `()`, so there is no
    /// state a failed holder could have left half-written.
    ///
    /// Reacquiring a primitive the calling thread already holds is not
    /// supported: std documents that `lock` may panic or deadlock there.
    #[verifier::external_body]
    pub fn acquire(&self) -> std::sync::MutexGuard<'_, ()> {
        match self.inner.lock() {
            Ok(guard) => guard,
            Err(poisoned) => poisoned.into_inner(),
        }
    }

    /// Probe the primitive without waiting: the guard if it was free, `None`
    /// if another holder currently has it.
    ///
    /// Relies on `std::sync::Mutex::try_lock`, which returns without
    /// blocking in every case. A poisoned mutex is taken over as in
    /// [`NamedMutex::acquire`].
    #[verifier::external_body]
    pub fn try_acquire(&self) -> Option<std::sync::MutexGuard<'_, ()>> {
        match self.inner.try_lock() {
            Ok(guard) => Some(guard),
            Err(std::sync::TryLockError::Poisoned(poisoned)) => Some(poisoned.into_inner()),
            Err(std::sync::TryLockError::WouldBlock) => None,
        }
    }
}

/// Release an acquired primitive by giving its guard back.
///
/// Relies on `std::sync::MutexGuard`'s drop, which unlocks the mutex; the
/// same happens when a guard goes out of scope.
#[verifier::external_body]
pub fn release(guard: std::sync::MutexGuard<'_, ()>) {
    drop(guard);
}

} // verus!
