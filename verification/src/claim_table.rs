//! The trusted layer over per-thread storage.
//!
//! A claim table holds one entry per thread. A thread's entry is created by
//! the first store that thread makes and dies with the thread, so whether a
//! store found an earlier entry tells the caller whether this thread had
//! already claimed its root permission. Everything stated about the table is
//! assumed, not proved; each item's doc comment names the outside function it
//! relies on.

use thread_local_object::ThreadLocal;
use vstd::prelude::*;

verus! {

#[verifier::external_type_specification]
#[verifier::external_body]
#[verifier::reject_recursive_types(T)]
pub struct ExThreadLocal<T: 'static>(ThreadLocal<T>);

/// Relies on `thread_local_object::ThreadLocal::new`: creates a table with no
/// entry for any thread.
#[verifier::external_body]
pub(crate) fn new_claim_table() -> (r: ThreadLocal<bool>) {
    ThreadLocal::new()
}

/// Relies on `thread_local_object::ThreadLocal::set`: stores `value` as the
/// calling thread's own entry in this table — no other thread's entry, nor
/// this thread's entry in any other table — and returns the entry that the
/// store replaced, `None` exactly when this thread had none in this table.
/// Entries are kept in storage owned by the thread itself, so a thread
/// started later can never inherit one.
#[verifier::external_body]
pub(crate) fn table_set(table: &ThreadLocal<bool>, value: bool) -> (r: Option<bool>) {
    table.set(value)
}

} // verus!
