//! The outermost loop, as a machine that is driven from outside: probe the
//! families in order, run a session with the first headset found, wait and
//! probe again when there is none.
//!
//! The wait is always the same. A headset is plugged in or it is not; there
//! is no load to back off from.

use crate::device::DeviceKind;
use crate::error::{DeviceError, Error};
use vstd::prelude::*;

verus! {

/// How long to wait before the bus is looked at again, in seconds.
pub const RETRY_DELAY_SECS: u64 = 5;

/// The status with which the process ends after a failure.
pub const EXIT_FAILURE: i32 = 1;

/// What the caller is to do next.
#[derive(Debug, Clone, Copy, PartialEq, Eq, Structural)]
pub enum SupervisorAction {
    /// Probe the bus for a headset of this family, and open it if there is
    /// one.
    Probe(DeviceKind),
    /// Run a session with the headset that was found, to its end.
    RunSession(DeviceKind),
    /// Wait, then enumerate the bus anew.
    Backoff { seconds: u64 },
    /// End the process with this status.
    Exit { code: i32 },
}

/// How the last action went.
#[derive(Debug, PartialEq, Eq)]
pub enum SupervisorEvent {
    /// A headset of the probed family was found and opened.
    Found,
    /// There is none, or it could not be opened.
    NotFound,
    /// The session is closed, with what it came to.
    SessionEnded(Result<(), Error>),
    /// The wait is over and the bus was enumerated.
    Refreshed,
    /// The wait is over and the bus could not be enumerated.
    RefreshFailed(DeviceError),
}

/// The supervisor.
#[derive(Debug, PartialEq, Eq)]
pub struct Supervisor {
    /// What the caller is to do next.
    pub pending: SupervisorAction,
    /// The failure that ends the process, once there is one.
    pub failure: Option<Error>,
}

impl Supervisor {
    /// The family that every round of probing starts with.
    pub open spec fn first_kind() -> DeviceKind {
        DeviceKind::spec_all()[0]
    }

    /// The supervisor at the start of the process and of every round.
    pub open spec fn spec_new() -> Supervisor {
        Supervisor { pending: SupervisorAction::Probe(Supervisor::first_kind()), failure: None }
    }

    /// The states that a supervisor can be in: it holds a failure when the
    /// process is to end, and only then, and it never waits for anything but
    /// the fixed delay.
    pub open spec fn wf(self) -> bool {
        match self.pending {
            SupervisorAction::Exit { code } => code == EXIT_FAILURE && self.failure is Some,
            SupervisorAction::Backoff { seconds } => seconds == RETRY_DELAY_SECS
                && self.failure is None,
            _ => self.failure is None,
        }
    }

    /// The supervisor after `event`. An event that does not report on the
    /// pending action changes nothing.
    pub open spec fn spec_step(self, event: SupervisorEvent) -> Supervisor {
        match (self.pending, event) {
            (SupervisorAction::Probe(kind), SupervisorEvent::Found) => Supervisor {
                pending: SupervisorAction::RunSession(kind),
                ..self
            },
            (SupervisorAction::Probe(kind), SupervisorEvent::NotFound) => Supervisor {
                pending: match kind.spec_next() {
                    Some(next) => SupervisorAction::Probe(next),
                    None => SupervisorAction::Backoff { seconds: RETRY_DELAY_SECS },
                },
                ..self
            },
            (
                SupervisorAction::RunSession(_),
                SupervisorEvent::SessionEnded(Err(Error::ChatMix(e))),
            ) => Supervisor {
                pending: SupervisorAction::Exit { code: EXIT_FAILURE },
                failure: Some(Error::ChatMix(e)),
            },
            (SupervisorAction::RunSession(_), SupervisorEvent::SessionEnded(_)) => Supervisor {
                pending: SupervisorAction::Probe(Supervisor::first_kind()),
                ..self
            },
            (SupervisorAction::Backoff { .. }, SupervisorEvent::Refreshed) => Supervisor {
                pending: SupervisorAction::Probe(Supervisor::first_kind()),
                ..self
            },
            (SupervisorAction::Backoff { .. }, SupervisorEvent::RefreshFailed(e)) => Supervisor {
                pending: SupervisorAction::Exit { code: EXIT_FAILURE },
                failure: Some(Error::Device(e)),
            },
            _ => self,
        }
    }

    /// One round in which no headset is found: every family is probed in
    /// vain, then the wait passes and the bus is enumerated.
    pub open spec fn spec_idle_round(self) -> Supervisor {
        self.spec_step(SupervisorEvent::NotFound).spec_step(SupervisorEvent::NotFound).spec_step(
            SupervisorEvent::Refreshed,
        )
    }

    /// The supervisor after `n` rounds in which no headset was found.
    pub open spec fn spec_idle_rounds(n: nat) -> Supervisor
        decreases n,
    {
        if n == 0 {
            Supervisor::spec_new()
        } else {
            Supervisor::spec_idle_rounds((n - 1) as nat).spec_idle_round()
        }
    }

    /// The supervisor at the start of the process.
    pub fn new() -> (r: Supervisor)
        ensures
            r == Supervisor::spec_new(),
            r.wf(),
    {
        Supervisor { pending: SupervisorAction::Probe(DeviceKind::NovaProWireless), failure: None }
    }

    /// What the caller is to do next.
    pub fn action(&self) -> (r: SupervisorAction)
        ensures
            r == self.pending,
    {
        self.pending
    }

    /// The failure that ends the process, once there is one.
    pub fn failure(&self) -> (r: &Option<Error>)
        ensures
            *r == self.failure,
    {
        &self.failure
    }

    /// Takes in how the pending action went and moves on.
    pub fn step(self, event: SupervisorEvent) -> (r: Supervisor)
        ensures
            r == self.spec_step(event),
            self.wf() ==> r.wf(),
    {
        match (self.pending, event) {
            (SupervisorAction::Probe(kind), SupervisorEvent::Found) => Supervisor {
                pending: SupervisorAction::RunSession(kind),
                failure: self.failure,
            },
            (SupervisorAction::Probe(kind), SupervisorEvent::NotFound) => {
                let pending = match kind.next() {
                    Some(next) => SupervisorAction::Probe(next),
                    None => SupervisorAction::Backoff { seconds: RETRY_DELAY_SECS },
                };
                Supervisor { pending, failure: self.failure }
            },
            (
                SupervisorAction::RunSession(_),
                SupervisorEvent::SessionEnded(Err(Error::ChatMix(e))),
            ) => Supervisor {
                pending: SupervisorAction::Exit { code: EXIT_FAILURE },
                failure: Some(Error::ChatMix(e)),
            },
            (SupervisorAction::RunSession(_), SupervisorEvent::SessionEnded(_)) => Supervisor {
                pending: SupervisorAction::Probe(DeviceKind::NovaProWireless),
                failure: self.failure,
            },
            (SupervisorAction::Backoff { .. }, SupervisorEvent::Refreshed) => Supervisor {
                pending: SupervisorAction::Probe(DeviceKind::NovaProWireless),
                failure: self.failure,
            },
            (SupervisorAction::Backoff { .. }, SupervisorEvent::RefreshFailed(e)) => Supervisor {
                pending: SupervisorAction::Exit { code: EXIT_FAILURE },
                failure: Some(Error::Device(e)),
            },
            _ => self,
        }
    }
}

/// Every step keeps a supervisor well formed.
pub proof fn lemma_step_keeps_wf(s: Supervisor, event: SupervisorEvent)
    requires
        s.wf(),
    ensures
        s.spec_step(event).wf(),
{
}

/// A round without a headset: the families are probed once each, in order;
/// then comes one wait of the fixed delay; then the supervisor stands where
/// it started.
pub proof fn lemma_idle_round()
    ensures
        Supervisor::spec_new().pending == SupervisorAction::Probe(DeviceKind::NovaProWireless),
        Supervisor::spec_new().spec_step(SupervisorEvent::NotFound).pending
            == SupervisorAction::Probe(DeviceKind::Nova7),
        Supervisor::spec_new().spec_step(SupervisorEvent::NotFound).spec_step(
            SupervisorEvent::NotFound,
        ).pending == (SupervisorAction::Backoff { seconds: RETRY_DELAY_SECS }),
        Supervisor::spec_new().spec_idle_round() == Supervisor::spec_new(),
{
}

/// While no headset is found the supervisor goes round for ever: after any
/// number of rounds it is about to probe again, and it never asks for the
/// process to end.
pub proof fn lemma_retries_for_ever(n: nat)
    ensures
        Supervisor::spec_idle_rounds(n) == Supervisor::spec_new(),
        !(Supervisor::spec_idle_rounds(n).pending is Exit),
    decreases n,
{
    if n > 0 {
        lemma_retries_for_ever((n - 1) as nat);
        lemma_idle_round();
    }
}

/// One session at a time: while a session runs, nothing but its end moves
/// the supervisor, so no second session is started beside it.
pub proof fn lemma_one_session_at_a_time(s: Supervisor, event: SupervisorEvent)
    requires
        s.pending is RunSession,
        !(event is SessionEnded),
    ensures
        s.spec_step(event) == s,
{
}

/// The end of a session is followed by a new round of probing at once,
/// without a wait, unless the session ended for want of a routing backend:
/// then the process ends.
pub proof fn lemma_after_session(kind: DeviceKind, outcome: Result<(), Error>)
    ensures
        ({
            let s = Supervisor {
                pending: SupervisorAction::RunSession(kind),
                failure: None,
            }.spec_step(SupervisorEvent::SessionEnded(outcome));
            if outcome matches Err(Error::ChatMix(_)) {
                s.pending == (SupervisorAction::Exit { code: EXIT_FAILURE })
            } else {
                s.pending == SupervisorAction::Probe(Supervisor::first_kind())
            }
        }),
{
}

} // verus!
