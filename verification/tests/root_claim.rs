//! Claiming the per-thread root permission: once per thread it succeeds,
//! after that it fails with `DoubleClaim`.

use deadlock_proof_mutex::DeadlockProofMutex;
use deadlock_proof_mutex::DoubleClaim;
use deadlock_proof_mutex::MutexIdentifier;
use deadlock_proof_mutex::OuterMutexPermission;
use deadlock_proof_mutex::OuterPermissionSource;

struct CounterId;
impl MutexIdentifier for CounterId {}

#[test]
fn double_root_claim_fails() {
    let source = OuterPermissionSource::new();
    let first = OuterMutexPermission::get(&source);
    assert!(first.is_ok());
    let second = OuterMutexPermission::get(&source);
    assert!(matches!(second, Err(DoubleClaim)));
    let third = OuterMutexPermission::get(&source);
    assert!(third.is_err());
}

#[test]
fn each_thread_gets_one_root() {
    let source = OuterPermissionSource::new();

    crossbeam_utils::thread::scope(|scope| {
        let first_thread = scope.spawn(|_| {
            assert!(OuterMutexPermission::get(&source).is_ok());
            assert!(OuterMutexPermission::get(&source).is_err());
        });
        let second_thread = scope.spawn(|_| {
            assert!(OuterMutexPermission::get(&source).is_ok());
        });
        first_thread.join().unwrap();
        second_thread.join().unwrap();
    })
    .unwrap();

    // This thread still has its own claim.
    assert!(OuterMutexPermission::get(&source).is_ok());
    assert!(OuterMutexPermission::get(&source).is_err());
}

#[test]
fn reading_before_any_write_sees_the_initial_value() {
    let source = OuterPermissionSource::new();
    let cell = DeadlockProofMutex::new(7i32, CounterId);
    let permission = OuterMutexPermission::get(&source).ok().unwrap();
    let guard = cell.lock(permission).ok().unwrap();
    assert_eq!(*guard.get(), 7);
    let permission = guard.unlock();

    // A write through a later guard is what the next reader sees.
    let mut guard = cell.lock(permission).ok().unwrap();
    guard.set(41);
    assert_eq!(*guard.get(), 41);
    guard.set(42);
    assert_eq!(*guard.get(), 42);
    let permission = guard.unlock();
    let guard = cell.lock(permission).ok().unwrap();
    assert_eq!(*guard.get(), 42);
}
