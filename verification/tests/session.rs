use nonar::error::{ChatMixError, DeviceError, Error};
use nonar::session::{Session, SessionAction, SessionEvent, SessionPhase};

fn hid(text: &str) -> DeviceError {
    DeviceError::Hid(text.to_string())
}

fn io(text: &str) -> ChatMixError {
    ChatMixError::Io(text.to_string())
}

fn active() -> Session {
    Session::new().step(SessionEvent::BackendBuilt).step(SessionEvent::Enabled)
}

#[test]
fn a_session_starts_by_building_the_backend() {
    let s = Session::new();
    assert_eq!(s.phase(), SessionPhase::Constructing);
    assert_eq!(s.action(), SessionAction::BuildBackend);
    assert!(!s.backend_live);
    assert!(!s.disable_owed);
    assert!(!s.is_closed());
    assert_eq!(s.outcome(), Ok(()));
}

#[test]
fn a_session_becomes_active_once_the_headset_is_enabled() {
    let s = Session::new().step(SessionEvent::BackendBuilt);
    assert_eq!(s.phase(), SessionPhase::Constructing);
    assert_eq!(s.action(), SessionAction::EnableDevice);
    assert!(s.backend_live);
    let s = s.step(SessionEvent::Enabled);
    assert_eq!(s.phase(), SessionPhase::Active);
    assert_eq!(s.action(), SessionAction::Poll);
    assert!(s.backend_live && s.disable_owed);
}

#[test]
fn a_sample_is_applied_and_polling_goes_on() {
    let s = active().step(SessionEvent::Polled(Some((30, 70))));
    assert_eq!(s.action(), SessionAction::SetVolumes { game: 30, chat: 70 });
    assert_eq!(s.phase(), SessionPhase::Active);
    let s = s.step(SessionEvent::VolumesSet);
    assert_eq!(s.action(), SessionAction::Poll);
    assert_eq!(s.phase(), SessionPhase::Active);
}

#[test]
fn a_report_without_sample_changes_nothing() {
    assert_eq!(active().step(SessionEvent::Polled(None)), active());
}

fn drained(s: Session, disabled: SessionEvent) -> Session {
    assert_eq!(s.phase(), SessionPhase::Draining);
    assert_eq!(s.action(), SessionAction::DisableDevice);
    assert!(s.backend_live);
    let s = s.step(disabled);
    assert_eq!(s.phase(), SessionPhase::Draining);
    assert_eq!(s.action(), SessionAction::ReleaseBackend);
    assert!(s.backend_live && !s.disable_owed);
    let s = s.step(SessionEvent::BackendReleased);
    assert_eq!(s.phase(), SessionPhase::Closed);
    assert_eq!(s.action(), SessionAction::Finish);
    assert!(s.is_closed());
    assert!(!s.backend_live && !s.disable_owed);
    s
}

#[test]
fn cancellation_drains_and_closes() {
    let s = drained(active().step(SessionEvent::Cancelled), SessionEvent::Disabled);
    assert_eq!(s.outcome(), Ok(()));
}

#[test]
fn a_failed_read_drains_and_closes() {
    let s = drained(active().step(SessionEvent::PollFailed(hid("gone"))), SessionEvent::Disabled);
    assert_eq!(s.outcome(), Ok(()));
}

#[test]
fn a_routing_failure_drains_and_closes() {
    let s = active()
        .step(SessionEvent::Polled(Some((1, 2))))
        .step(SessionEvent::SetVolumesFailed(io("pactl")));
    let s = drained(s, SessionEvent::Disabled);
    assert_eq!(s.outcome(), Ok(()));
}

#[test]
fn a_failed_disable_does_not_keep_the_session_open() {
    let s = drained(active().step(SessionEvent::Cancelled), SessionEvent::DisableFailed(hid("w")));
    assert_eq!(s.outcome(), Err(Error::Device(hid("w"))));
}

#[test]
fn a_backend_that_cannot_be_built_closes_the_session_at_once() {
    let s = Session::new().step(SessionEvent::BackendFailed(ChatMixError::SinkNotFound {
        sink: "out".to_string(),
    }));
    assert!(s.is_closed());
    assert_eq!(s.action(), SessionAction::Finish);
    assert!(!s.backend_live && !s.disable_owed);
    assert_eq!(
        s.outcome(),
        Err(Error::ChatMix(ChatMixError::SinkNotFound { sink: "out".to_string() }))
    );
}

#[test]
fn a_headset_that_cannot_be_enabled_is_disabled_and_the_backend_released() {
    let s = Session::new()
        .step(SessionEvent::BackendBuilt)
        .step(SessionEvent::EnableFailed(hid("write")));
    let s = drained(s, SessionEvent::DisableFailed(hid("again")));
    assert_eq!(s.outcome(), Err(Error::Device(hid("write"))));
}

#[test]
fn session_passes_over_events_that_do_not_answer() {
    assert_eq!(Session::new().step(SessionEvent::Enabled), Session::new());
    assert_eq!(Session::new().step(SessionEvent::Cancelled), Session::new());
    assert_eq!(Session::new().step(SessionEvent::BackendReleased), Session::new());
    assert_eq!(active().step(SessionEvent::VolumesSet), active());
    assert_eq!(active().step(SessionEvent::BackendBuilt), active());
    assert_eq!(active().step(SessionEvent::Disabled), active());
    let waiting = active().step(SessionEvent::Polled(Some((5, 6))));
    assert_eq!(
        active().step(SessionEvent::Polled(Some((5, 6)))).step(SessionEvent::Polled(Some((7, 8)))),
        waiting
    );
    assert_eq!(
        active().step(SessionEvent::Polled(Some((5, 6)))).step(SessionEvent::Cancelled),
        waiting
    );
}

#[test]
fn a_closed_session_stays_closed() {
    let closed = drained(active().step(SessionEvent::Cancelled), SessionEvent::Disabled);
    let events = vec![
        SessionEvent::BackendBuilt,
        SessionEvent::BackendFailed(io("x")),
        SessionEvent::Enabled,
        SessionEvent::EnableFailed(hid("x")),
        SessionEvent::Cancelled,
        SessionEvent::Polled(None),
        SessionEvent::Polled(Some((1, 1))),
        SessionEvent::PollFailed(hid("x")),
        SessionEvent::VolumesSet,
        SessionEvent::SetVolumesFailed(io("x")),
        SessionEvent::Disabled,
        SessionEvent::DisableFailed(hid("x")),
        SessionEvent::BackendReleased,
    ];
    let mut s = closed;
    for e in events {
        s = s.step(e);
        assert!(s.is_closed());
        assert_eq!(s.action(), SessionAction::Finish);
        assert!(!s.backend_live && !s.disable_owed);
    }
    assert_eq!(s.outcome(), Ok(()));
}
