//! The transaction handle's three-state lifecycle.

use axum_sqlx_tx::extension::{AcquirePlan, LazyTransaction, ResolveAction};

#[test]
fn fresh_handle_is_unacquired_and_keeps_the_pool() {
    let handle: LazyTransaction<u32, String> = LazyTransaction::new(7);
    assert!(matches!(handle.acquire_plan(), AcquirePlan::Start));
    assert_eq!(*handle.pool(), 7);
}

#[test]
fn started_handle_reuses_the_same_transaction() {
    let mut handle: LazyTransaction<u32, String> = LazyTransaction::new(7);
    handle.start(String::from("tx-1"));
    assert!(matches!(handle.acquire_plan(), AcquirePlan::AlreadyStarted));
    assert_eq!(handle.as_ref(), "tx-1");
    // A second look still sees the very transaction that was started.
    assert!(matches!(handle.acquire_plan(), AcquirePlan::AlreadyStarted));
    assert_eq!(handle.as_ref(), "tx-1");
}

#[test]
fn as_mut_works_on_the_open_transaction_in_place() {
    let mut handle: LazyTransaction<u32, String> = LazyTransaction::new(7);
    handle.start(String::from("tx"));
    handle.as_mut().push_str("-used");
    assert_eq!(handle.as_ref(), "tx-used");
}

#[test]
fn resolving_a_never_started_handle_is_trivial() {
    let mut handle: LazyTransaction<u32, String> = LazyTransaction::new(7);
    assert!(matches!(handle.resolve(), ResolveAction::Done));
    assert!(matches!(handle.acquire_plan(), AcquirePlan::Rejected));
}

#[test]
fn resolving_twice_is_idempotent() {
    let mut handle: LazyTransaction<u32, String> = LazyTransaction::new(7);
    handle.start(String::from("tx-1"));
    match handle.resolve() {
        ResolveAction::Commit(tx) => assert_eq!(tx, "tx-1"),
        ResolveAction::Done => panic!("an open transaction must be handed out for commit"),
    }
    // The second resolution finds nothing to do.
    assert!(matches!(handle.resolve(), ResolveAction::Done));
    assert!(matches!(handle.acquire_plan(), AcquirePlan::Rejected));
}

#[test]
fn commit_takes_the_open_transaction_and_closes_the_handle() {
    let mut handle: LazyTransaction<u32, String> = LazyTransaction::new(7);
    handle.start(String::from("tx-1"));
    let tx = handle.commit();
    assert_eq!(tx, "tx-1");
    assert!(matches!(handle.acquire_plan(), AcquirePlan::Rejected));
}

#[test]
fn resolved_handle_rejects_every_later_acquisition() {
    let mut handle: LazyTransaction<u32, String> = LazyTransaction::new(7);
    handle.start(String::from("tx-1"));
    handle.resolve();
    assert!(matches!(handle.acquire_plan(), AcquirePlan::Rejected));
    assert!(matches!(handle.resolve(), ResolveAction::Done));
    assert!(matches!(handle.acquire_plan(), AcquirePlan::Rejected));
}
