//! Mutexes whose locking disciplines are enforced by the type system, so that
//! a program that compiles cannot deadlock through them.
//!
//! Locking a [`DeadlockProofMutex`] consumes a linear permission token and
//! returns it only when the guard is released. The token types encode which
//! locks may be taken, in which order, and by which thread.

mod claim_table;
mod mutex;
mod permissions;
mod platform;

pub use mutex::DeadlockProofMutex;
pub use mutex::DeadlockProofMutexGuard;
pub use mutex::DeadlockProofNestedMutexGuard;

pub use permissions::lemma_rewind_recovers_origin;
pub use permissions::DoubleClaim;
pub use permissions::MutexIdentifier;
pub use permissions::MutexPermission;
pub use permissions::NestedMutexPermission;
pub use permissions::OuterMutexPermission;
pub use permissions::OuterPermissionSource;
pub use permissions::SequentialMutexPermission;
