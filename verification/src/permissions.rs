//! The permission tokens that gate every lock acquisition.
//!
//! A token is zero-sized, cannot be cloned or copied, and owns a phantom
//! `Rc` so that it can never be moved to another thread. Each lock operation
//! consumes one token by value and hands it back (possibly rebased into a
//! sequential successor) when the guard is released.

use crate::claim_table::new_claim_table;
use crate::claim_table::table_set;
use std::marker::PhantomData;
use std::rc::Rc;
use thread_local_object::ThreadLocal;
use vstd::prelude::*;

verus! {

/// A unique identifier for each mutex. One of these is needed for each
/// [`DeadlockProofMutex`](crate::DeadlockProofMutex): use a different type
/// for each mutex, typically an empty struct.
pub trait MutexIdentifier {}

/// Some type of permission token required to claim a mutex.
pub trait MutexPermission {}

/// Permission to claim an "outer" mutex: a class of mutexes of which only one
/// can be held at once in each thread, which prevents deadlock.
pub struct OuterMutexPermission {
    thread_confined: PhantomData<Rc<()>>,
}

impl MutexPermission for OuterMutexPermission {}

/// The error returned when a thread asks for its root permission twice.
#[derive(Debug)]
pub struct DoubleClaim;

/// Hands each thread at most one [`OuterMutexPermission`]: a table of
/// per-thread slots, each of which starts with one permission inside and is
/// drained by the first [`OuterMutexPermission::get`] on that thread.
///
/// A program should create exactly one source and share it, behind a
/// reference-counted handle, with every thread that takes part in the locking
/// disciplines; with several sources, each enforces its own claims only.
pub struct OuterPermissionSource {
    claimed: ThreadLocal<bool>,
}

impl OuterPermissionSource {
    /// Create a source with a full slot for every thread.
    pub fn new() -> OuterPermissionSource {
        OuterPermissionSource { claimed: new_claim_table() }
    }
}

impl OuterMutexPermission {
    /// Get the calling thread's mutex claiming permission from `source`.
    /// This succeeds exactly once per thread, and every later call on the
    /// same thread fails with [`DoubleClaim`]. It is strongly recommended to
    /// claim this in the start up of a thread and store it in some context
    /// object, so that no claim can fail later. The resulting zero-sized
    /// token is the permission to claim a first mutex.
    pub fn get(source: &OuterPermissionSource) -> (r: Result<OuterMutexPermission, DoubleClaim>) {
        let earlier_claim = table_set(&source.claimed, true);
        OuterMutexPermission::from_claim(earlier_claim)
    }

    /// Turns the calling thread's earlier entry in the claim table into the
    /// claim's outcome: the permission exactly where there was no earlier
    /// claim.
    fn from_claim(earlier_claim: Option<bool>) -> (r: Result<OuterMutexPermission, DoubleClaim>)
        ensures
            r is Err <==> earlier_claim is Some,
    {
        match earlier_claim {
            Some(_) => Err(DoubleClaim),
            None => Ok(OuterMutexPermission { thread_confined: PhantomData }),
        }
    }
}

/// Permission to claim a mutex nested strictly inside the one whose
/// acquisition produced this token.
pub struct NestedMutexPermission<P: MutexPermission, I: MutexIdentifier> {
    thread_confined: PhantomData<Rc<()>>,
    parent_kind: PhantomData<P>,
    identity: PhantomData<I>,
}

impl<P: MutexPermission, I: MutexIdentifier> MutexPermission for NestedMutexPermission<P, I> {}

impl<P: MutexPermission, I: MutexIdentifier> NestedMutexPermission<P, I> {
    pub(crate) fn new() -> (r: NestedMutexPermission<P, I>) {
        NestedMutexPermission {
            thread_confined: PhantomData,
            parent_kind: PhantomData,
            identity: PhantomData,
        }
    }
}

/// Permission to claim the next mutex in a fixed cross-thread sequence,
/// produced by releasing the previous one.
pub struct SequentialMutexPermission<P: MutexPermission, I: MutexIdentifier> {
    thread_confined: PhantomData<Rc<()>>,
    parent: P,
    identity: PhantomData<I>,
}

impl<P: MutexPermission, I: MutexIdentifier> MutexPermission for SequentialMutexPermission<P, I> {}

impl<P: MutexPermission, I: MutexIdentifier> SequentialMutexPermission<P, I> {
    /// The token that was consumed to produce this one, and that
    /// [`Self::to_earlier`] hands back.
    pub closed spec fn parent(self) -> P {
        self.parent
    }

    pub(crate) fn new(permission: P) -> (r: SequentialMutexPermission<P, I>)
        ensures
            r.parent() == permission,
    {
        SequentialMutexPermission {
            thread_confined: PhantomData,
            parent: permission,
            identity: PhantomData,
        }
    }

    /// Consumes this sequential permission to return the permission token
    /// earlier in the sequence.
    pub fn to_earlier(self) -> (r: P)
        ensures
            r == self.parent(),
    {
        self.parent
    }
}

/// Law: rewinding a sequential chain recovers the capability that started it.
/// Whatever capability `origin` a sequence was entered with, after two
/// releases in sequence the token in hand rewinds, step by step, to exactly
/// `origin` — the same holds for longer chains, one step at a time — so the
/// thread can claim again whatever the original capability allowed.
pub proof fn lemma_rewind_recovers_origin<
    P: MutexPermission,
    FirstId: MutexIdentifier,
    SecondId: MutexIdentifier,
>(
    origin: P,
    first: SequentialMutexPermission<P, FirstId>,
    second: SequentialMutexPermission<SequentialMutexPermission<P, FirstId>, SecondId>,
)
    requires
        first.parent() == origin,
        second.parent() == first,
    ensures
        second.parent().parent() == origin,
{
}

} // verus!
