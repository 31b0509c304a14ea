use crate::lifecycle::{cleared, InstanceState, StateStore};
use vstd::prelude::*;

verus! {

/// What a stop request has to do.
#[derive(Clone, Copy, Debug, PartialEq, Eq, Structural)]
pub enum StopAction {
    /// Nothing runs: succeed at once.
    Nothing,
    /// Send the cooperative interrupt to this pid. The store is left to the
    /// watcher, which clears it when the process exits.
    Signal(u32),
}

/// The stop action for an instance in state `s`.
pub open spec fn stop_action(s: InstanceState) -> StopAction {
    match s {
        InstanceState::Running { pid } => StopAction::Signal(pid),
        _ => StopAction::Nothing,
    }
}

/// Decides a stop request from the store's current state, without changing it.
pub fn stop(store: &StateStore) -> (r: StopAction)
    ensures
        r == stop_action(store@),
{
    match store.snapshot() {
        InstanceState::Running { pid } => StopAction::Signal(pid),
        _ => StopAction::Nothing,
    }
}

/// A stop on an instance that is not running does nothing, and a second stop
/// never finds more to complain about than the first: whether or not the
/// process exited in between, it either does nothing or signals the same pid
/// again. A stop never yields an error of its own.
pub proof fn lemma_stop_idempotent(s: InstanceState, exited_between: bool)
    ensures
        !(s is Running) ==> stop_action(s) == StopAction::Nothing,
        ({
            let later = if exited_between {
                cleared(s)
            } else {
                s
            };
            stop_action(later) == StopAction::Nothing || stop_action(later) == stop_action(s)
        }),
{
}

/// What the control API reports about the instance.
#[derive(Clone, Copy, Debug, PartialEq, Eq, Structural)]
pub struct Status {
    pub index: u8,
    pub running: bool,
}

/// The status of the instance numbered `index`, read from a snapshot of the
/// store.
pub fn status(store: &StateStore, index: u8) -> (r: Status)
    ensures
        r.index == index,
        r.running == (store@ is Running),
{
    let state = store.snapshot();
    Status { index, running: state.is_running() }
}

} // verus!
