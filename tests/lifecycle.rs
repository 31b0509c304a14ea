use game_master::control::{status, stop, StopAction};
use game_master::error::ErrorKind;
use game_master::lifecycle::{InstanceState, StateStore};

#[test]
fn new_store_is_idle() {
    let store = StateStore::new();
    assert_eq!(store.snapshot(), InstanceState::Idle);
    assert_eq!(store.snapshot().pid(), None);
}

#[test]
fn only_one_of_many_claims_succeeds() {
    let mut store = StateStore::new();
    let mut granted = 0;
    let mut refused = 0;
    for _ in 0..16 {
        match store.claim() {
            Ok(()) => granted += 1,
            Err(e) => {
                assert_eq!(e.kind(), ErrorKind::AlreadyRunning);
                refused += 1;
            }
        }
    }
    assert_eq!(granted, 1);
    assert_eq!(refused, 15);
    assert_eq!(store.snapshot(), InstanceState::Provisioning);
}

#[test]
fn claim_refused_while_running() {
    let mut store = StateStore::new();
    store.claim().unwrap();
    assert!(store.commit(42));
    let e = store.claim().unwrap_err();
    assert_eq!(e.kind(), ErrorKind::AlreadyRunning);
    assert_eq!(store.snapshot(), InstanceState::Running { pid: 42 });
}

#[test]
fn abort_restores_idle_and_allows_a_new_claim() {
    let mut store = StateStore::new();
    store.claim().unwrap();
    store.abort();
    assert_eq!(store.snapshot(), InstanceState::Idle);
    assert!(!status(&store, 3).running);
    assert!(store.claim().is_ok());
}

#[test]
fn commit_without_claim_changes_nothing() {
    let mut store = StateStore::new();
    assert!(!store.commit(7));
    assert_eq!(store.snapshot(), InstanceState::Idle);
}

#[test]
fn abort_and_clear_outside_their_state_change_nothing() {
    let mut store = StateStore::new();
    store.clear();
    assert_eq!(store.snapshot(), InstanceState::Idle);
    store.claim().unwrap();
    store.clear();
    assert_eq!(store.snapshot(), InstanceState::Provisioning);
    store.commit(9);
    store.abort();
    assert_eq!(store.snapshot(), InstanceState::Running { pid: 9 });
}

#[test]
fn exit_is_reflected_in_status() {
    let mut store = StateStore::new();
    store.claim().unwrap();
    store.commit(1234);
    let s = status(&store, 5);
    assert_eq!(s.index, 5);
    assert!(s.running);
    store.clear();
    let s = status(&store, 5);
    assert!(!s.running);
    assert_eq!(store.snapshot().pid(), None);
}

#[test]
fn stop_when_idle_does_nothing() {
    let store = StateStore::new();
    assert_eq!(stop(&store), StopAction::Nothing);
    assert_eq!(store.snapshot(), InstanceState::Idle);
}

#[test]
fn stop_twice_on_running_instance_signals_again() {
    let mut store = StateStore::new();
    store.claim().unwrap();
    store.commit(77);
    assert_eq!(stop(&store), StopAction::Signal(77));
    assert_eq!(stop(&store), StopAction::Signal(77));
    store.clear();
    assert_eq!(stop(&store), StopAction::Nothing);
}

#[test]
fn stop_while_provisioning_does_nothing() {
    let mut store = StateStore::new();
    store.claim().unwrap();
    assert_eq!(stop(&store), StopAction::Nothing);
    assert!(!status(&store, 0).running);
}
