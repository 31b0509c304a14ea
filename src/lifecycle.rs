use crate::error::{AppError, ErrorKind};
use vstd::prelude::*;

verus! {

/// What the host's single game-server instance is doing.
#[derive(Clone, Copy, Debug, PartialEq, Eq, Structural)]
pub enum InstanceState {
    Idle,
    Provisioning,
    Running { pid: u32 },
}

impl InstanceState {
    /// Active states exclude a new provisioning cycle.
    pub open spec fn is_active(&self) -> bool {
        !(self is Idle)
    }

    pub open spec fn spec_pid(&self) -> Option<u32> {
        match self {
            InstanceState::Running { pid } => Some(*pid),
            _ => None,
        }
    }

    pub fn is_running(&self) -> (r: bool)
        ensures
            r == (*self is Running),
    {
        match self {
            InstanceState::Running { .. } => true,
            _ => false,
        }
    }

    #[verifier::when_used_as_spec(spec_pid)]
    pub fn pid(&self) -> (r: Option<u32>)
        ensures
            r == self.spec_pid(),
    {
        match self {
            InstanceState::Running { pid } => Some(*pid),
            _ => None,
        }
    }
}

/// The state after a claim: only an idle instance may start provisioning.
pub open spec fn claimed(s: InstanceState) -> InstanceState {
    if s is Idle {
        InstanceState::Provisioning
    } else {
        s
    }
}

/// The state after committing `pid`: a provisioning instance becomes running.
pub open spec fn committed(s: InstanceState, pid: u32) -> InstanceState {
    if s is Provisioning {
        InstanceState::Running { pid }
    } else {
        s
    }
}

/// The state after an abort: a provisioning instance returns to idle.
pub open spec fn aborted(s: InstanceState) -> InstanceState {
    if s is Provisioning {
        InstanceState::Idle
    } else {
        s
    }
}

/// The state after the watcher saw the process exit: a running instance
/// returns to idle.
pub open spec fn cleared(s: InstanceState) -> InstanceState {
    if s is Running {
        InstanceState::Idle
    } else {
        s
    }
}

/// The single record of the instance's state. Every change goes through
/// `claim`, `commit`, `abort` or `clear`.
pub struct StateStore {
    state: InstanceState,
}

impl View for StateStore {
    type V = InstanceState;

    closed spec fn view(&self) -> InstanceState {
        self.state
    }
}

impl StateStore {
    /// A store for an instance that is not doing anything yet.
    pub fn new() -> (r: StateStore)
        ensures
            r@ == InstanceState::Idle,
    {
        StateStore { state: InstanceState::Idle }
    }

    /// Moves an idle instance to provisioning. Any other state is left as it
    /// is and reported as `AlreadyRunning`.
    pub fn claim(&mut self) -> (r: Result<(), AppError>)
        ensures
            r is Ok <==> old(self)@ is Idle,
            final(self)@ == claimed(old(self)@),
            r is Err ==> r->Err_0.spec_kind() == ErrorKind::AlreadyRunning,
    {
        match self.state {
            InstanceState::Idle => {
                self.state = InstanceState::Provisioning;
                Ok(())
            },
            _ => Err(AppError::AlreadyRunning(String::from_str("an instance is already provisioning or running"))),
        }
    }

    /// Records the pid of the process started by the current claim. Returns
    /// whether the store was provisioning; otherwise nothing changes.
    pub fn commit(&mut self, pid: u32) -> (r: bool)
        ensures
            r == (old(self)@ is Provisioning),
            final(self)@ == committed(old(self)@, pid),
    {
        match self.state {
            InstanceState::Provisioning => {
                self.state = InstanceState::Running { pid };
                true
            },
            _ => false,
        }
    }

    /// Gives up the current claim after a failed provisioning step.
    pub fn abort(&mut self)
        ensures
            final(self)@ == aborted(old(self)@),
    {
        if let InstanceState::Provisioning = self.state {
            self.state = InstanceState::Idle;
        }
    }

    /// Reflects the exit of the running process.
    pub fn clear(&mut self)
        ensures
            final(self)@ == cleared(old(self)@),
    {
        if let InstanceState::Running { .. } = self.state {
            self.state = InstanceState::Idle;
        }
    }

    /// A copy of the current state.
    pub fn snapshot(&self) -> (r: InstanceState)
        ensures
            r == self@,
    {
        self.state
    }
}

} // verus!

verus! {

/// The state after `n` claims in a row, with nothing else in between.
pub open spec fn after_claims(s: InstanceState, n: nat) -> InstanceState
    decreases n,
{
    if n == 0 {
        s
    } else {
        after_claims(claimed(s), (n - 1) as nat)
    }
}

/// How many of `n` claims in a row, starting from `s`, succeed.
pub open spec fn claims_granted(s: InstanceState, n: nat) -> nat
    decreases n,
{
    if n == 0 {
        0
    } else {
        (if s is Idle {
            1nat
        } else {
            0nat
        }) + claims_granted(claimed(s), (n - 1) as nat)
    }
}

/// Of any number of claims issued before any of them completes, exactly one
/// succeeds when the instance was idle and none otherwise; afterwards the
/// instance is provisioning (or in whatever active state it already was).
pub proof fn lemma_mutual_exclusion(s: InstanceState, n: nat)
    requires
        n > 0,
    ensures
        claims_granted(s, n) == (if s is Idle {
            1nat
        } else {
            0nat
        }),
        after_claims(s, n) == claimed(s),
        after_claims(s, n).is_active(),
    decreases n,
{
    if n > 1 {
        lemma_mutual_exclusion(claimed(s), (n - 1) as nat);
    } else {
        assert(claims_granted(claimed(s), 0) == 0);
        assert(after_claims(claimed(s), 0) == claimed(s));
    }
}

/// After a successful claim, an abort returns the instance to idle: it is not
/// running, holds no pid, and the next claim succeeds.
pub proof fn lemma_abort_restores_idle(s: InstanceState)
    requires
        s is Idle,
    ensures
        aborted(claimed(s)) == InstanceState::Idle,
        aborted(claimed(s)).spec_pid() is None,
        claimed(aborted(claimed(s))) == InstanceState::Provisioning,
{
}

/// Once a claimed start committed its pid, the watcher's clear on process
/// exit leaves the instance idle, with no pid.
pub proof fn lemma_exit_reflected(s: InstanceState, pid: u32)
    requires
        s is Idle,
    ensures
        committed(claimed(s), pid) == (InstanceState::Running { pid }),
        cleared(committed(claimed(s), pid)) == InstanceState::Idle,
        cleared(committed(claimed(s), pid)).spec_pid() is None,
{
}

} // verus!
