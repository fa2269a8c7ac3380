//! One session with one headset, from building the routing backend to
//! giving it up again, as a machine that is driven from outside.
//!
//! The machine holds what has been done and says what is to be done next.
//! The caller does it and reports how it went; the machine answers with the
//! next thing to do. Nothing is tried twice: a failure moves the session
//! towards its end, and whatever was set up on the way is undone before the
//! session closes.

use crate::error::{ChatMixError, DeviceError, Error};
use vstd::prelude::*;

verus! {

/// Where a session stands.
#[derive(Debug, Clone, Copy, PartialEq, Eq, Structural)]
pub enum SessionPhase {
    /// The routing backend is being built and the headset switched on.
    Constructing,
    /// Reports are read and volumes applied.
    Active,
    /// The headset is being switched off and the backend given up.
    Draining,
    /// Nothing of the session is left.
    Closed,
}

/// What the caller is to do next.
#[derive(Debug, Clone, Copy, PartialEq, Eq, Structural)]
pub enum SessionAction {
    /// Build the routing backend for the headset's output.
    BuildBackend,
    /// Write the headset's enable messages.
    EnableDevice,
    /// Look at the cancellation flag; if it is not set, read one report and
    /// decode it.
    Poll,
    /// Apply a pair of volumes through the routing backend.
    SetVolumes { game: u8, chat: u8 },
    /// Write the headset's disable messages. A failure is reported and
    /// passed over.
    DisableDevice,
    /// Give up the routing backend, ending what it owns.
    ReleaseBackend,
    /// Nothing: the session is closed.
    Finish,
}

/// How the last action went.
#[derive(Debug, PartialEq, Eq)]
pub enum SessionEvent {
    BackendBuilt,
    BackendFailed(ChatMixError),
    Enabled,
    EnableFailed(DeviceError),
    /// The cancellation flag was found set.
    Cancelled,
    /// A read ended, with the volumes that its report carried, if any.
    Polled(Option<(u8, u8)>),
    PollFailed(DeviceError),
    VolumesSet,
    SetVolumesFailed(ChatMixError),
    Disabled,
    DisableFailed(DeviceError),
    BackendReleased,
}

/// A session.
#[derive(Debug, PartialEq, Eq)]
pub struct Session {
    pub phase: SessionPhase,
    /// What the caller is to do next.
    pub pending: SessionAction,
    /// The routing backend has been built and not yet given up.
    pub backend_live: bool,
    /// Enable messages have been written, and no disable messages since.
    pub disable_owed: bool,
    /// What the session has come to: the first failure of building the
    /// backend or of switching the headset, if there was one. A failure
    /// while the session was active ends it, and is not held against it.
    pub outcome: Result<(), Error>,
}

impl SessionPhase {
    /// How far along a phase is.
    pub open spec fn rank(self) -> int {
        match self {
            SessionPhase::Constructing => 0,
            SessionPhase::Active => 1,
            SessionPhase::Draining => 2,
            SessionPhase::Closed => 3,
        }
    }
}

impl SessionEvent {
    /// The events that take an active session to its end: cancellation, a
    /// read that failed, volumes that could not be applied.
    pub open spec fn is_exit(self) -> bool {
        self is Cancelled || self is PollFailed || self is SetVolumesFailed
    }

    /// The two ways in which switching the headset off can end.
    pub open spec fn is_disable_result(self) -> bool {
        self is Disabled || self is DisableFailed
    }
}

impl Session {
    /// A session before anything was done.
    pub open spec fn spec_new() -> Session {
        Session {
            phase: SessionPhase::Constructing,
            pending: SessionAction::BuildBackend,
            backend_live: false,
            disable_owed: false,
            outcome: Ok(()),
        }
    }

    /// The states that a session can be in: the phase goes with the pending
    /// action, and what is held goes with both. In particular an active
    /// session holds a backend and an enabled headset, and a closed session
    /// holds nothing.
    pub open spec fn wf(self) -> bool {
        match self.pending {
            SessionAction::BuildBackend => {
                &&& self.phase == SessionPhase::Constructing
                &&& !self.backend_live
                &&& !self.disable_owed
                &&& self.outcome is Ok
            },
            SessionAction::EnableDevice => {
                &&& self.phase == SessionPhase::Constructing
                &&& self.backend_live
                &&& !self.disable_owed
                &&& self.outcome is Ok
            },
            SessionAction::Poll | SessionAction::SetVolumes { .. } => {
                &&& self.phase == SessionPhase::Active
                &&& self.backend_live
                &&& self.disable_owed
                &&& self.outcome is Ok
            },
            SessionAction::DisableDevice => {
                &&& self.phase == SessionPhase::Draining
                &&& self.backend_live
                &&& self.disable_owed
                &&& !(self.outcome matches Err(Error::ChatMix(_)))
            },
            SessionAction::ReleaseBackend => {
                &&& self.phase == SessionPhase::Draining
                &&& self.backend_live
                &&& !self.disable_owed
                &&& !(self.outcome matches Err(Error::ChatMix(_)))
            },
            SessionAction::Finish => {
                &&& self.phase == SessionPhase::Closed
                &&& !self.backend_live
                &&& !self.disable_owed
            },
        }
    }

    /// Whether `event` reports on the pending action.
    pub open spec fn answers(self, event: SessionEvent) -> bool {
        match self.pending {
            SessionAction::BuildBackend => event is BackendBuilt || event is BackendFailed,
            SessionAction::EnableDevice => event is Enabled || event is EnableFailed,
            SessionAction::Poll => event is Cancelled || event is Polled || event is PollFailed,
            SessionAction::SetVolumes { .. } => event is VolumesSet || event is SetVolumesFailed,
            SessionAction::DisableDevice => event.is_disable_result(),
            SessionAction::ReleaseBackend => event is BackendReleased,
            SessionAction::Finish => false,
        }
    }

    /// The session after `event`. An event that does not report on the
    /// pending action changes nothing.
    pub open spec fn spec_step(self, event: SessionEvent) -> Session {
        match (self.pending, event) {
            (SessionAction::BuildBackend, SessionEvent::BackendBuilt) => Session {
                pending: SessionAction::EnableDevice,
                backend_live: true,
                ..self
            },
            (SessionAction::BuildBackend, SessionEvent::BackendFailed(e)) => Session {
                phase: SessionPhase::Closed,
                pending: SessionAction::Finish,
                outcome: Err(Error::ChatMix(e)),
                ..self
            },
            (SessionAction::EnableDevice, SessionEvent::Enabled) => Session {
                phase: SessionPhase::Active,
                pending: SessionAction::Poll,
                disable_owed: true,
                ..self
            },
            (SessionAction::EnableDevice, SessionEvent::EnableFailed(e)) => Session {
                phase: SessionPhase::Draining,
                pending: SessionAction::DisableDevice,
                disable_owed: true,
                outcome: Err(Error::Device(e)),
                ..self
            },
            (SessionAction::Poll, SessionEvent::Polled(Some((game, chat)))) => Session {
                pending: SessionAction::SetVolumes { game, chat },
                ..self
            },
            (SessionAction::Poll, SessionEvent::Polled(None)) => self,
            (SessionAction::Poll, SessionEvent::Cancelled)
            | (SessionAction::Poll, SessionEvent::PollFailed(_))
            | (SessionAction::SetVolumes { .. }, SessionEvent::SetVolumesFailed(_)) => Session {
                phase: SessionPhase::Draining,
                pending: SessionAction::DisableDevice,
                ..self
            },
            (SessionAction::SetVolumes { .. }, SessionEvent::VolumesSet) => Session {
                pending: SessionAction::Poll,
                ..self
            },
            (SessionAction::DisableDevice, SessionEvent::Disabled) => Session {
                pending: SessionAction::ReleaseBackend,
                disable_owed: false,
                ..self
            },
            (SessionAction::DisableDevice, SessionEvent::DisableFailed(e)) => Session {
                pending: SessionAction::ReleaseBackend,
                disable_owed: false,
                outcome: match self.outcome {
                    Ok(_) => Err(Error::Device(e)),
                    Err(first) => Err(first),
                },
                ..self
            },
            (SessionAction::ReleaseBackend, SessionEvent::BackendReleased) => Session {
                phase: SessionPhase::Closed,
                pending: SessionAction::Finish,
                backend_live: false,
                ..self
            },
            _ => self,
        }
    }

    /// The session after a run of events.
    pub open spec fn spec_run(self, events: Seq<SessionEvent>) -> Session
        decreases events.len(),
    {
        if events.len() == 0 {
            self
        } else {
            self.spec_run(events.drop_last()).spec_step(events.last())
        }
    }

    /// A session before anything was done. Its first action is to build the
    /// routing backend.
    pub fn new() -> (r: Session)
        ensures
            r == Session::spec_new(),
            r.wf(),
    {
        Session {
            phase: SessionPhase::Constructing,
            pending: SessionAction::BuildBackend,
            backend_live: false,
            disable_owed: false,
            outcome: Ok(()),
        }
    }

    /// What the caller is to do next.
    pub fn action(&self) -> (r: SessionAction)
        ensures
            r == self.pending,
    {
        self.pending
    }

    /// Where the session stands.
    pub fn phase(&self) -> (r: SessionPhase)
        ensures
            r == self.phase,
    {
        self.phase
    }

    /// Whether nothing of the session is left.
    pub fn is_closed(&self) -> (r: bool)
        ensures
            r == (self.phase == SessionPhase::Closed),
    {
        match self.phase {
            SessionPhase::Closed => true,
            _ => false,
        }
    }

    /// What the session has come to.
    pub fn outcome(self) -> (r: Result<(), Error>)
        ensures
            r == self.outcome,
    {
        self.outcome
    }

    /// Takes in how the pending action went and moves on.
    pub fn step(self, event: SessionEvent) -> (r: Session)
        ensures
            r == self.spec_step(event),
            self.wf() ==> r.wf(),
    {
        match (self.pending, event) {
            (SessionAction::BuildBackend, SessionEvent::BackendBuilt) => Session {
                pending: SessionAction::EnableDevice,
                backend_live: true,
                ..self
            },
            (SessionAction::BuildBackend, SessionEvent::BackendFailed(e)) => Session {
                phase: SessionPhase::Closed,
                pending: SessionAction::Finish,
                outcome: Err(Error::ChatMix(e)),
                ..self
            },
            (SessionAction::EnableDevice, SessionEvent::Enabled) => Session {
                phase: SessionPhase::Active,
                pending: SessionAction::Poll,
                disable_owed: true,
                ..self
            },
            (SessionAction::EnableDevice, SessionEvent::EnableFailed(e)) => Session {
                phase: SessionPhase::Draining,
                pending: SessionAction::DisableDevice,
                disable_owed: true,
                outcome: Err(Error::Device(e)),
                ..self
            },
            (SessionAction::Poll, SessionEvent::Polled(Some((game, chat)))) => Session {
                pending: SessionAction::SetVolumes { game, chat },
                ..self
            },
            (SessionAction::Poll, SessionEvent::Polled(None)) => self,
            (SessionAction::Poll, SessionEvent::Cancelled) => Session {
                phase: SessionPhase::Draining,
                pending: SessionAction::DisableDevice,
                ..self
            },
            (SessionAction::Poll, SessionEvent::PollFailed(_)) => Session {
                phase: SessionPhase::Draining,
                pending: SessionAction::DisableDevice,
                ..self
            },
            (SessionAction::SetVolumes { .. }, SessionEvent::SetVolumesFailed(_)) => Session {
                phase: SessionPhase::Draining,
                pending: SessionAction::DisableDevice,
                ..self
            },
            (SessionAction::SetVolumes { .. }, SessionEvent::VolumesSet) => Session {
                pending: SessionAction::Poll,
                ..self
            },
            (SessionAction::DisableDevice, SessionEvent::Disabled) => Session {
                pending: SessionAction::ReleaseBackend,
                disable_owed: false,
                ..self
            },
            (SessionAction::DisableDevice, SessionEvent::DisableFailed(e)) => {
                let outcome = match self.outcome {
                    Ok(_) => Err(Error::Device(e)),
                    Err(first) => Err(first),
                };
                Session {
                    phase: self.phase,
                    pending: SessionAction::ReleaseBackend,
                    backend_live: self.backend_live,
                    disable_owed: false,
                    outcome,
                }
            },
            (SessionAction::ReleaseBackend, SessionEvent::BackendReleased) => Session {
                phase: SessionPhase::Closed,
                pending: SessionAction::Finish,
                backend_live: false,
                ..self
            },
            _ => self,
        }
    }
}

/// Every step keeps a session well formed.
pub proof fn lemma_step_keeps_wf(s: Session, event: SessionEvent)
    requires
        s.wf(),
    ensures
        s.spec_step(event).wf(),
{
}

/// Whatever events a session is driven with, it stays well formed: while it
/// is active it holds a backend and an enabled headset, and once it is closed
/// it holds neither.
pub proof fn lemma_reachable_wf(events: Seq<SessionEvent>)
    ensures
        Session::spec_new().spec_run(events).wf(),
        Session::spec_new().spec_run(events).phase == SessionPhase::Active ==> {
            &&& Session::spec_new().spec_run(events).backend_live
            &&& Session::spec_new().spec_run(events).disable_owed
        },
        Session::spec_new().spec_run(events).phase == SessionPhase::Closed ==> {
            &&& !Session::spec_new().spec_run(events).backend_live
            &&& !Session::spec_new().spec_run(events).disable_owed
        },
    decreases events.len(),
{
    if events.len() > 0 {
        lemma_reachable_wf(events.drop_last());
        lemma_step_keeps_wf(Session::spec_new().spec_run(events.drop_last()), events.last());
    }
}

/// Teardown is total. From an active session each way out (cancellation, a
/// failed read, volumes that could not be set) leads to the headset being
/// switched off, then to the backend being given up, then to a closed
/// session that holds nothing; and this is so whether switching off succeeds
/// or not.
pub proof fn lemma_teardown_is_total(s: Session, exit: SessionEvent, disabled: SessionEvent)
    requires
        s.wf(),
        s.phase == SessionPhase::Active,
        exit.is_exit(),
        s.answers(exit),
        disabled.is_disable_result(),
    ensures
        s.spec_step(exit).pending == SessionAction::DisableDevice,
        s.spec_step(exit).spec_step(disabled).pending == SessionAction::ReleaseBackend,
        ({
            let end = s.spec_step(exit).spec_step(disabled).spec_step(
                SessionEvent::BackendReleased,
            );
            &&& end.phase == SessionPhase::Closed
            &&& end.pending == SessionAction::Finish
            &&& !end.backend_live
            &&& !end.disable_owed
        }),
{
}

/// A headset that could not be switched on is switched off all the same, and
/// the backend that was built for it is given up before the session closes
/// with the failure.
pub proof fn lemma_enable_failure_tears_down(s: Session, e: DeviceError, disabled: SessionEvent)
    requires
        s.wf(),
        s.pending == SessionAction::EnableDevice,
        disabled.is_disable_result(),
    ensures
        ({
            let end = s.spec_step(SessionEvent::EnableFailed(e)).spec_step(disabled).spec_step(
                SessionEvent::BackendReleased,
            );
            &&& end.phase == SessionPhase::Closed
            &&& !end.backend_live
            &&& !end.disable_owed
            &&& end.outcome == Err::<(), Error>(Error::Device(e))
        }),
{
}

/// A session never goes back: no event takes it to an earlier phase, and a
/// closed session stays as it is.
pub proof fn lemma_no_way_back(s: Session, event: SessionEvent)
    requires
        s.wf(),
    ensures
        s.spec_step(event).phase.rank() >= s.phase.rank(),
        s.phase == SessionPhase::Closed ==> s.spec_step(event) == s,
{
}

/// Only a backend that could not be built makes a session end with a
/// routing failure.
pub proof fn lemma_routing_failure_is_from_construction(s: Session, event: SessionEvent)
    requires
        s.wf(),
        s.spec_step(event).outcome matches Err(Error::ChatMix(_)),
    ensures
        (s.outcome matches Err(Error::ChatMix(_))) || (s.pending == SessionAction::BuildBackend
            && event is BackendFailed),
{
}

} // verus!
