use clipboard_qr::source::{
    select_backend, BackendKind, EventSourceState, HostKind, SourceAction, SourceEvent,
    POLL_INTERVAL_MS,
};

#[test]
fn backend_selection_matches_host() {
    assert_eq!(select_backend(HostKind::NativeDesktop), BackendKind::NativeCallback);
    assert_eq!(select_backend(HostKind::CompositorManaged), BackendKind::Poll);
    assert_eq!(select_backend(HostKind::SelectionServer), BackendKind::SelectionListener);
    assert_eq!(select_backend(HostKind::Unknown), BackendKind::Poll);
}

#[test]
fn setup_failure_falls_back_to_polling() {
    // A source forced to fail at setup keeps detecting: the very next
    // poll tick after the failure already emits a wake-up.
    let mut source = EventSourceState::new();
    assert_eq!(source.step(SourceEvent::SetupFailed), SourceAction::Ignore);
    assert_eq!(source.step(SourceEvent::PollTick), SourceAction::EmitWake);
    assert_eq!(source.step(SourceEvent::PollTick), SourceAction::EmitWake);
}

#[test]
fn stream_error_falls_back_to_polling() {
    let mut source = EventSourceState::new();
    assert_eq!(source.step(SourceEvent::SetupSucceeded), SourceAction::Ignore);
    assert_eq!(source.step(SourceEvent::Signal), SourceAction::EmitWake);
    assert_eq!(source.step(SourceEvent::StreamError), SourceAction::Ignore);
    assert_eq!(source.step(SourceEvent::PollTick), SourceAction::EmitWake);
    // Once degraded, platform signals no longer drive wake-ups.
    assert_eq!(source.step(SourceEvent::Signal), SourceAction::Ignore);
}

#[test]
fn shutdown_terminates_from_any_state() {
    // Shutdown while the source sits in its blocking wait orders the
    // backing thread to terminate, so the owner's join completes.
    let mut starting = EventSourceState::new();
    assert_eq!(starting.step(SourceEvent::ShutdownRequested), SourceAction::Terminate);

    let mut listening = EventSourceState::new();
    listening.step(SourceEvent::SetupSucceeded);
    assert_eq!(listening.step(SourceEvent::ShutdownRequested), SourceAction::Terminate);

    let mut polling = EventSourceState::new();
    polling.step(SourceEvent::SetupFailed);
    assert_eq!(polling.step(SourceEvent::ShutdownRequested), SourceAction::Terminate);
}

#[test]
fn stopped_source_stays_silent() {
    let mut source = EventSourceState::new();
    source.step(SourceEvent::SetupSucceeded);
    source.step(SourceEvent::ShutdownRequested);
    assert_eq!(source.step(SourceEvent::Signal), SourceAction::Ignore);
    assert_eq!(source.step(SourceEvent::PollTick), SourceAction::Ignore);
    assert_eq!(source.step(SourceEvent::SetupSucceeded), SourceAction::Ignore);
}

#[test]
fn poll_interval_is_a_tenth_of_a_second() {
    assert_eq!(POLL_INTERVAL_MS, 100);
}
