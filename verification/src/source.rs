//! The platform event source, as a state machine. The blocking waits —
//! a native message pump, a display-server event stream, a sleep timer —
//! run outside this library; what is modelled and verified here is every
//! decision they feed: which backend a host gets, how setup and stream
//! failures degrade to polling instead of going silent, and how shutdown
//! reaches a terminal state from anywhere.

use vstd::prelude::*;

verus! {

/// The poll interval, in milliseconds, of the fallback timer backend.
pub const POLL_INTERVAL_MS: u64 = 100;

/// What kind of host the process found itself on, as probed at startup.
#[derive(Clone, Copy, Debug, PartialEq, Eq, Structural)]
pub enum HostKind {
    /// A desktop whose window manager delivers clipboard-update messages
    /// to a registered listener window.
    NativeDesktop,
    /// A compositor-managed session with no selection-change events.
    CompositorManaged,
    /// A display server that reports selection changes over its event
    /// stream.
    SelectionServer,
    /// Nothing recognisable; only polling is safe.
    Unknown,
}

/// The three interchangeable wake-up mechanisms.
#[derive(Clone, Copy, Debug, PartialEq, Eq, Structural)]
pub enum BackendKind {
    /// A hidden native window registered as a clipboard-format listener,
    /// pumped by a dedicated message loop.
    NativeCallback,
    /// An invisible utility window blocking on the display server's
    /// selection events.
    SelectionListener,
    /// A fixed-interval timer; the universal fallback.
    Poll,
}

/// Which backend a host gets at construction.
pub open spec fn backend_for(host: HostKind) -> BackendKind {
    match host {
        HostKind::NativeDesktop => BackendKind::NativeCallback,
        HostKind::CompositorManaged => BackendKind::Poll,
        HostKind::SelectionServer => BackendKind::SelectionListener,
        HostKind::Unknown => BackendKind::Poll,
    }
}

/// Picks the wake-up mechanism for a host: the native listener on a
/// native desktop, the selection listener where the display server offers
/// one, and plain polling everywhere else.
pub fn select_backend(host: HostKind) -> (b: BackendKind)
    ensures
        b == backend_for(host),
{
    match host {
        HostKind::NativeDesktop => BackendKind::NativeCallback,
        HostKind::CompositorManaged => BackendKind::Poll,
        HostKind::SelectionServer => BackendKind::SelectionListener,
        HostKind::Unknown => BackendKind::Poll,
    }
}

/// Where an event source stands in its lifecycle.
#[derive(Clone, Copy, Debug, PartialEq, Eq, Structural)]
pub enum SourceMode {
    /// Registration or connection is still in progress.
    Starting,
    /// The platform mechanism is registered and delivering signals.
    Listening,
    /// The mechanism failed; the timer drives wake-ups for the rest of
    /// the process lifetime.
    Polling,
    /// Shut down; nothing more is emitted.
    Stopped,
}

/// What the running loop tells the state machine.
#[derive(Clone, Copy, Debug, PartialEq, Eq, Structural)]
pub enum SourceEvent {
    /// Registration or connection completed.
    SetupSucceeded,
    /// Registration or connection failed at some step.
    SetupFailed,
    /// The platform mechanism delivered a clipboard-change signal.
    Signal,
    /// The platform mechanism's stream broke after it had been working.
    StreamError,
    /// The fallback timer fired.
    PollTick,
    /// The owner asked the source to shut down.
    ShutdownRequested,
}

/// What the state machine tells the running loop to do.
#[derive(Clone, Copy, Debug, PartialEq, Eq, Structural)]
pub enum SourceAction {
    /// Nothing; keep waiting.
    Ignore,
    /// Emit one wake-up signal to the watcher.
    EmitWake,
    /// Unblock and terminate the backing thread so it can be joined.
    Terminate,
}

/// The transition function of an event source: a shutdown request wins
/// from every state; a setup or stream failure degrades to polling and
/// never goes silent; a stopped source stays stopped and emits nothing.
pub open spec fn source_step(mode: SourceMode, event: SourceEvent) -> (SourceMode, SourceAction) {
    match (mode, event) {
        (_, SourceEvent::ShutdownRequested) => (SourceMode::Stopped, SourceAction::Terminate),
        (SourceMode::Stopped, _) => (SourceMode::Stopped, SourceAction::Ignore),
        (SourceMode::Starting, SourceEvent::SetupSucceeded) => (
            SourceMode::Listening,
            SourceAction::Ignore,
        ),
        (SourceMode::Starting, SourceEvent::SetupFailed) => (
            SourceMode::Polling,
            SourceAction::Ignore,
        ),
        (SourceMode::Starting, _) => (SourceMode::Starting, SourceAction::Ignore),
        (SourceMode::Listening, SourceEvent::Signal) => (
            SourceMode::Listening,
            SourceAction::EmitWake,
        ),
        (SourceMode::Listening, SourceEvent::StreamError) => (
            SourceMode::Polling,
            SourceAction::Ignore,
        ),
        (SourceMode::Listening, _) => (SourceMode::Listening, SourceAction::Ignore),
        (SourceMode::Polling, SourceEvent::PollTick) => (
            SourceMode::Polling,
            SourceAction::EmitWake,
        ),
        (SourceMode::Polling, _) => (SourceMode::Polling, SourceAction::Ignore),
    }
}

/// The verified lifecycle of one event source. The owning loop feeds it
/// every event and performs the returned actions.
pub struct EventSourceState {
    mode: SourceMode,
}

impl EventSourceState {
    /// A new source is still starting up.
    pub fn new() -> (s: EventSourceState)
        ensures
            s.mode() == SourceMode::Starting,
    {
        EventSourceState { mode: SourceMode::Starting }
    }

    /// The current lifecycle state.
    pub closed spec fn mode(&self) -> SourceMode {
        self.mode
    }

    /// Feeds one event through the transition function and reports the
    /// action the loop must perform.
    pub fn step(&mut self, event: SourceEvent) -> (action: SourceAction)
        ensures
            (final(self).mode(), action) == source_step(old(self).mode(), event),
    {
        let (next, action) = match (self.mode, event) {
            (_, SourceEvent::ShutdownRequested) => (SourceMode::Stopped, SourceAction::Terminate),
            (SourceMode::Stopped, _) => (SourceMode::Stopped, SourceAction::Ignore),
            (SourceMode::Starting, SourceEvent::SetupSucceeded) => (
                SourceMode::Listening,
                SourceAction::Ignore,
            ),
            (SourceMode::Starting, SourceEvent::SetupFailed) => (
                SourceMode::Polling,
                SourceAction::Ignore,
            ),
            (SourceMode::Starting, _) => (SourceMode::Starting, SourceAction::Ignore),
            (SourceMode::Listening, SourceEvent::Signal) => (
                SourceMode::Listening,
                SourceAction::EmitWake,
            ),
            (SourceMode::Listening, SourceEvent::StreamError) => (
                SourceMode::Polling,
                SourceAction::Ignore,
            ),
            (SourceMode::Listening, _) => (SourceMode::Listening, SourceAction::Ignore),
            (SourceMode::Polling, SourceEvent::PollTick) => (
                SourceMode::Polling,
                SourceAction::EmitWake,
            ),
            (SourceMode::Polling, _) => (SourceMode::Polling, SourceAction::Ignore),
        };
        self.mode = next;
        action
    }
}

/// A source whose setup fails — or whose working stream later breaks —
/// moves to polling, and the very next poll tick already emits a wake-up:
/// after a failure the watcher keeps detecting changes, one poll interval
/// later at the worst, instead of going silent.
pub proof fn lemma_failure_falls_back_to_polling()
    ensures
        source_step(SourceMode::Starting, SourceEvent::SetupFailed).0 == SourceMode::Polling,
        source_step(SourceMode::Listening, SourceEvent::StreamError).0 == SourceMode::Polling,
        source_step(SourceMode::Polling, SourceEvent::PollTick).1 == SourceAction::EmitWake,
{
}

/// A shutdown request from any state — including one blocked waiting, to
/// which the owner delivers the request by unblocking it — stops the
/// source at once and orders the backing thread to terminate, so the
/// owner's join completes; and a stopped source never emits another
/// wake-up nor leaves the stopped state.
pub proof fn lemma_shutdown_stops_from_any_state()
    ensures
        forall|m: SourceMode|
            #[trigger] source_step(m, SourceEvent::ShutdownRequested) == (
                SourceMode::Stopped,
                SourceAction::Terminate,
            ),
        forall|e: SourceEvent| #[trigger] source_step(SourceMode::Stopped, e).0
            == SourceMode::Stopped,
        forall|e: SourceEvent| source_step(SourceMode::Stopped, e).1 != SourceAction::EmitWake,
{
    assert forall|e: SourceEvent| source_step(SourceMode::Stopped, e).1
        != SourceAction::EmitWake by {
        assert(source_step(SourceMode::Stopped, e).1 == SourceAction::Ignore || source_step(
            SourceMode::Stopped,
            e,
        ).1 == SourceAction::Terminate);
    }
}

} // verus!
