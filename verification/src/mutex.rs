//! The deadlock-proof mutex and its guards.
//!
//! A [`DeadlockProofMutex`] is a platform mutex whose `lock` operations
//! consume a permission token of the type the mutex was declared with, and
//! whose guards hand a token back on release. The contracts here pin down the
//! flow of those tokens: locking captures exactly the token given, and every
//! release operation returns exactly the captured token, possibly rebased
//! into a sequential successor.

use crate::permissions::MutexIdentifier;
use crate::permissions::MutexPermission;
use crate::permissions::NestedMutexPermission;
use crate::permissions::SequentialMutexPermission;
use crate::platform::mutex_lock;
use crate::platform::mutex_new;
use crate::platform::GuardedValue;
use std::marker::PhantomData;
use std::sync::Mutex;
use std::sync::MutexGuard;
use std::sync::PoisonError;
use vstd::prelude::*;

verus! {

/// A mutex which is compile-time guaranteed not to deadlock.
///
/// To lock it, a caller must give up a permission token of type `P`; the
/// token is held captive inside the returned guard and comes back when the
/// guard is released. Three patterns are possible:
///
/// * Each thread holds only one mutex at once, because every mutex in the
///   program expects an [`OuterMutexPermission`](crate::OuterMutexPermission).
/// * Each thread claims mutexes in one identical nested order: the first with
///   an [`OuterMutexPermission`](crate::OuterMutexPermission), each deeper one
///   with the token that [`DeadlockProofMutex::lock_for_nested`] emits.
/// * Each thread claims, then releases, mutexes in one identical sequence:
///   each release through
///   [`DeadlockProofMutexGuard::unlock_for_sequential`] emits the token that
///   the next mutex in the sequence expects.
///
/// The permission type only marks the mutex: the mutex itself can be shared
/// freely between threads, while the tokens themselves never can.
#[verifier::reject_recursive_types(T)]
#[verifier::reject_recursive_types(P)]
#[verifier::reject_recursive_types(I)]
pub struct DeadlockProofMutex<T, P: MutexPermission, I: MutexIdentifier> {
    inner: Mutex<T>,
    initial: Ghost<T>,
    permission_marker: Ghost<Option<P>>,
    identity_marker: Ghost<Option<I>>,
}

impl<T, P: MutexPermission, I: MutexIdentifier> DeadlockProofMutex<T, P, I> {
    /// The value this mutex was constructed around: what it protects until
    /// the first write through one of its guards.
    pub closed spec fn initial_content(self) -> T {
        self.initial@
    }

    /// Create a new deadlock-proof mutex, moving `content` into a freshly
    /// constructed platform mutex. The `_identifier` parameter is a type
    /// unique to this mutex, typically a blank struct, implementing
    /// [`MutexIdentifier`]; its value only fixes the type parameter `I`.
    pub fn new(content: T, _identifier: I) -> (r: Self)
        ensures
            r.initial_content() == content,
    {
        let snapshot: Ghost<T> = Ghost(content);
        DeadlockProofMutex {
            inner: mutex_new(content),
            initial: snapshot,
            permission_marker: Ghost(None),
            identity_marker: Ghost(None),
        }
    }

    /// Acquires this mutex, blocking the current thread until it is able to
    /// do so. Consumes a permission token of the type this mutex expects and
    /// holds it captive in the returned guard. Returns the platform's poison
    /// error, untranslated, if a previous holder panicked; the token is lost
    /// with it.
    pub fn lock(&self, permission: P) -> (r: Result<
        DeadlockProofMutexGuard<T, P, I>,
        PoisonError<MutexGuard<T>>,
    >)
        ensures
            (match r {
                Ok(guard) => guard.permission() == permission && guard.written() == None::<T>,
                Err(_) => true,
            }),
    {
        match mutex_lock(&self.inner) {
            Ok(platform_guard) => Ok(
                DeadlockProofMutexGuard {
                    value: GuardedValue::new(platform_guard),
                    permission,
                    identity: PhantomData,
                },
            ),
            Err(poison) => Err(poison),
        }
    }

    /// Acquires this mutex, blocking the current thread until it is able to
    /// do so. Besides the guard, provides a fresh token which can be used to
    /// claim one mutex nested strictly inside this one.
    pub fn lock_for_nested(&self, permission: P) -> (r: Result<
        (DeadlockProofNestedMutexGuard<T, P, I>, NestedMutexPermission<P, I>),
        PoisonError<MutexGuard<T>>,
    >)
        ensures
            (match r {
                Ok(pair) => pair.0.permission() == permission && pair.0.written() == None::<T>,
                Err(_) => true,
            }),
    {
        match mutex_lock(&self.inner) {
            Ok(platform_guard) => Ok(
                (
                    DeadlockProofNestedMutexGuard {
                        value: GuardedValue::new(platform_guard),
                        permission,
                        identity: PhantomData,
                    },
                    NestedMutexPermission::new(),
                ),
            ),
            Err(poison) => Err(poison),
        }
    }
}

/// Deadlock-proof equivalent to the platform guard. Grants access to the
/// protected value while alive; releasing it through
/// [`DeadlockProofMutexGuard::unlock`] returns the captured permission token.
/// If the guard is instead dropped, the platform mutex is released and the
/// captured token is destroyed.
#[verifier::reject_recursive_types(T)]
#[verifier::reject_recursive_types(P)]
#[verifier::reject_recursive_types(I)]
pub struct DeadlockProofMutexGuard<'a, T, P: MutexPermission, I: MutexIdentifier> {
    value: GuardedValue<'a, T>,
    permission: P,
    identity: PhantomData<I>,
}

impl<'a, T, P: MutexPermission, I: MutexIdentifier> DeadlockProofMutexGuard<'a, T, P, I> {
    /// The permission token this guard captured when the mutex was locked.
    pub closed spec fn permission(self) -> P {
        self.permission
    }

    /// The last value written through this guard, if any. While the guard is
    /// alive the holder has exclusive access, so this is the protected value
    /// itself.
    pub closed spec fn written(self) -> Option<T> {
        self.value.written()
    }

    /// Read the protected value.
    pub fn get(&self) -> (r: &T)
        ensures
            (match self.written() {
                Some(value) => *r == value,
                None => true,
            }),
    {
        self.value.get()
    }

    /// Replace the protected value.
    pub fn set(&mut self, value: T)
        ensures
            final(self).written() == Some(value),
            final(self).permission() == old(self).permission(),
    {
        self.value.set(value);
    }

    /// Unlock the mutex. Returns the permission token that was consumed to
    /// lock it, so that it can be used to claim a mutex again.
    pub fn unlock(self) -> (r: P)
        ensures
            r == self.permission(),
    {
        let DeadlockProofMutexGuard { permission, .. } = self;
        permission
    }

    /// Unlock the mutex. Instead of the captured token itself, returns a
    /// sequential successor wrapping it, which can claim the next mutex in a
    /// program-wide sequence, and which [`SequentialMutexPermission::to_earlier`]
    /// can always turn back into the captured token.
    pub fn unlock_for_sequential(self) -> (r: SequentialMutexPermission<P, I>)
        ensures
            r.parent() == self.permission(),
    {
        let DeadlockProofMutexGuard { permission, .. } = self;
        SequentialMutexPermission::new(permission)
    }
}

/// Deadlock-proof guard produced together with a nested permission token.
/// Releasing it through [`DeadlockProofNestedMutexGuard::unlock`] demands
/// that matching token back, which forces every mutex nested inside this one
/// to be released first.
#[verifier::reject_recursive_types(T)]
#[verifier::reject_recursive_types(P)]
#[verifier::reject_recursive_types(I)]
pub struct DeadlockProofNestedMutexGuard<'a, T, P: MutexPermission, I: MutexIdentifier> {
    value: GuardedValue<'a, T>,
    permission: P,
    identity: PhantomData<I>,
}

impl<'a, T, P: MutexPermission, I: MutexIdentifier> DeadlockProofNestedMutexGuard<'a, T, P, I> {
    /// The permission token this guard captured when the mutex was locked.
    pub closed spec fn permission(self) -> P {
        self.permission
    }

    /// The last value written through this guard, if any. While the guard is
    /// alive the holder has exclusive access, so this is the protected value
    /// itself.
    pub closed spec fn written(self) -> Option<T> {
        self.value.written()
    }

    /// Read the protected value.
    pub fn get(&self) -> (r: &T)
        ensures
            (match self.written() {
                Some(value) => *r == value,
                None => true,
            }),
    {
        self.value.get()
    }

    /// Replace the protected value.
    pub fn set(&mut self, value: T)
        ensures
            final(self).written() == Some(value),
            final(self).permission() == old(self).permission(),
    {
        self.value.set(value);
    }

    /// Unlock the mutex. Consumes the nested token that was produced
    /// alongside this guard, proving that no deeper mutex still depends on
    /// it, and returns the token that was consumed to lock this mutex.
    pub fn unlock(self, _token: NestedMutexPermission<P, I>) -> (r: P)
        ensures
            r == self.permission(),
    {
        let DeadlockProofNestedMutexGuard { permission, .. } = self;
        permission
    }

    /// Unlock the mutex and return a sequential successor of the captured
    /// token, as [`DeadlockProofMutexGuard::unlock_for_sequential`] does. The
    /// nested token produced alongside this guard is not demanded back: the
    /// move to a sequential successor abandons the nested chain, and the
    /// leftover token, still confined to this thread, can only go out of
    /// scope.
    pub fn unlock_for_sequential(self) -> (r: SequentialMutexPermission<P, I>)
        ensures
            r.parent() == self.permission(),
    {
        let DeadlockProofNestedMutexGuard { permission, .. } = self;
        SequentialMutexPermission::new(permission)
    }
}

} // verus!
