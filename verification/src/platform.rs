//! The trusted layer over the platform mutex.
//!
//! The platform mutex is taken as a given primitive: it provides mutual
//! exclusion over the protected value and turns poisoned when a holder
//! panics. Everything this module states about it is assumed, not proved;
//! each item's doc comment names the `std::sync` function it relies on.
//!
//! [`GuardedValue`] pairs the platform guard with a ghost record of the last
//! value written through it. While the guard is alive the holder has
//! exclusive access, so the protected value is exactly the last value
//! written, which is what [`GuardedValue::get`] states.

use std::sync::Mutex;
use std::sync::MutexGuard;
use std::sync::PoisonError;
use vstd::prelude::*;

verus! {

#[verifier::external_type_specification]
#[verifier::external_body]
#[verifier::reject_recursive_types(T)]
pub struct ExMutex<T: ?Sized>(Mutex<T>);

#[verifier::external_type_specification]
#[verifier::external_body]
#[verifier::reject_recursive_types(T)]
pub struct ExMutexGuard<'a, T: ?Sized + 'a>(MutexGuard<'a, T>);

#[verifier::external_type_specification]
#[verifier::external_body]
#[verifier::reject_recursive_types(T)]
pub struct ExPoisonError<T>(PoisonError<T>);

/// Relies on `std::sync::Mutex::new`: wraps the value in a fresh, unlocked,
/// unpoisoned mutex.
#[verifier::external_body]
pub(crate) fn mutex_new<T>(value: T) -> (r: Mutex<T>) {
    Mutex::new(value)
}

/// Relies on `std::sync::Mutex::lock`: blocks until the mutex is acquired,
/// then returns the platform guard, or the platform's poison error if a
/// previous holder panicked.
#[verifier::external_body]
pub(crate) fn mutex_lock<'a, T>(mutex: &'a Mutex<T>) -> (r: Result<
    MutexGuard<'a, T>,
    PoisonError<MutexGuard<'a, T>>,
>) {
    mutex.lock()
}

/// Relies on `MutexGuard`'s `DerefMut`: stores `value` as the protected value.
#[verifier::external_body]
fn guard_store<'a, T>(guard: &mut MutexGuard<'a, T>, value: T) {
    **guard = value;
}

/// Exclusive access to the value a locked platform mutex protects, together
/// with a ghost record of the last value written through it.
#[verifier::reject_recursive_types(T)]
pub(crate) struct GuardedValue<'a, T> {
    guard: MutexGuard<'a, T>,
    written: Ghost<Option<T>>,
}

impl<'a, T> GuardedValue<'a, T> {
    /// The last value written through this guard since the lock was taken,
    /// if any. While the guard is alive, no other thread can touch the
    /// protected value, so this is the protected value itself.
    pub(crate) closed spec fn written(self) -> Option<T> {
        self.written@
    }

    pub(crate) fn new(guard: MutexGuard<'a, T>) -> (r: GuardedValue<'a, T>)
        ensures
            r.written() == None::<T>,
    {
        GuardedValue { guard, written: Ghost(None) }
    }

    /// Relies on `MutexGuard`'s `Deref`, and on the platform mutex's mutual
    /// exclusion: the protected value can have changed only through this
    /// guard since the lock was taken, so whenever a value was written
    /// through it, that value is read back.
    #[verifier::external_body]
    pub(crate) fn get(&self) -> (r: &T)
        ensures
            (match self.written() {
                Some(value) => *r == value,
                None => true,
            }),
    {
        &*self.guard
    }

    /// Replaces the protected value.
    pub(crate) fn set(&mut self, value: T)
        ensures
            final(self).written() == Some(value),
    {
        let snapshot: Ghost<Option<T>> = Ghost(Some(value));
        guard_store(&mut self.guard, value);
        self.written = snapshot;
    }
}

} // verus!
