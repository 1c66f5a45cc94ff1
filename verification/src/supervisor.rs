//! The connection lifecycle as an explicit state machine.
//!
//! The surrounding program owns the radio transport, the presence client
//! and the cancellation gate; on every loop boundary it reports what
//! happened as a [`SupervisorEvent`] and this module decides the next state
//! and the next action. Retry-forever behaviour, the restart-from-scratch
//! policy after a lost link, and cooperative cancellation are all visible
//! transitions here rather than artifacts of nested loops.

use crate::display::DisplayStatus;
use crate::display::detail_line_spec;
use crate::display::format_status;
use crate::display::state_line_spec;
use crate::telemetry::DecodeError;
use crate::telemetry::IronStreamingState;
use vstd::prelude::*;

verus! {

/// Where the supervisor stands in one outer iteration.
///
/// `Cancelled` and `Failed` are terminal: the outer loop has ended, cleanly
/// after the cancellation gate was observed, or because the presence
/// collaborator could not be reached — the one unrecoverable error class.
#[derive(Clone, Copy, Debug, PartialEq, Eq, Structural)]
pub enum SupervisorState {
    Idle,
    Discovering,
    Connecting,
    Polling,
    Cancelled,
    Failed,
}

/// What the surrounding program observed since the last step.
#[derive(Clone, Copy, Debug, PartialEq, Eq, Structural)]
pub enum SupervisorEvent {
    /// The cancellation gate was read as set at a loop boundary.
    CancelObserved,
    /// A fresh presence session was opened.
    PresenceOpened,
    /// The presence collaborator could not be reached at session open.
    PresenceOpenFailed,
    /// An enumerated peripheral advertises the iron's service identifier.
    DeviceFound,
    /// No enumerated peripheral advertises it yet.
    DeviceNotFound,
    /// A connection attempt succeeded.
    Connected,
    /// A connection attempt ran into its timeout.
    ConnectTimeout,
    /// A connection attempt was rejected by the stack or the device.
    ConnectRejected,
    /// A full snapshot was decoded on this poll tick.
    SnapshotRead(IronStreamingState),
    /// Some attribute read failed; the link is treated as lost.
    ReadFailed(DecodeError),
    /// The per-tick presence publish failed while the link stayed healthy.
    PublishFailed,
}

/// What the surrounding program must do next. Opening the fresh presence
/// session is part of observing in Idle: its outcome is the event there.
pub enum SupervisorAction {
    /// Start a scan and enumerate peripherals for the first time.
    BeginDiscovery,
    /// Wait one poll interval (100 ms), then enumerate peripherals again.
    PollDiscovery,
    /// Request a connection to the discovered device, 5 s timeout.
    AttemptConnect,
    /// Wait 1 s so the radio stack settles, then attempt exactly once more.
    BackoffThenRetry,
    /// Enumerate the device's attribute set once, then start polling.
    EnumerateAttributes,
    /// Push both lines, wait one tick (100 ms), then read again.
    Publish(DisplayStatus),
    /// Report the failed publish, keep the session, read again after a tick.
    ContinuePolling,
    /// The link is assumed dead: skip the disconnect handshake and the
    /// presence-session close, and restart from scratch.
    RestartWithoutTeardown,
    /// Attempt the disconnect handshake and close the presence session.
    GracefulTeardown,
    /// End the outer loop cleanly.
    Stop,
    /// Propagate the unrecoverable presence failure; the process ends.
    FailFatal,
}

/// The states in which the outer loop is over.
pub open spec fn is_terminal(s: SupervisorState) -> bool {
    s is Cancelled || s is Failed
}

/// Which events can arise in which state; the supervisor is only ever
/// stepped on such a pair.
pub open spec fn accepts(s: SupervisorState, e: SupervisorEvent) -> bool {
    match (s, e) {
        (SupervisorState::Idle, SupervisorEvent::CancelObserved) => true,
        (SupervisorState::Idle, SupervisorEvent::PresenceOpened) => true,
        (SupervisorState::Idle, SupervisorEvent::PresenceOpenFailed) => true,
        (SupervisorState::Discovering, SupervisorEvent::CancelObserved) => true,
        (SupervisorState::Discovering, SupervisorEvent::DeviceFound) => true,
        (SupervisorState::Discovering, SupervisorEvent::DeviceNotFound) => true,
        (SupervisorState::Connecting, SupervisorEvent::CancelObserved) => true,
        (SupervisorState::Connecting, SupervisorEvent::Connected) => true,
        (SupervisorState::Connecting, SupervisorEvent::ConnectTimeout) => true,
        (SupervisorState::Connecting, SupervisorEvent::ConnectRejected) => true,
        (SupervisorState::Polling, SupervisorEvent::CancelObserved) => true,
        (SupervisorState::Polling, SupervisorEvent::SnapshotRead(_)) => true,
        (SupervisorState::Polling, SupervisorEvent::ReadFailed(_)) => true,
        (SupervisorState::Polling, SupervisorEvent::PublishFailed) => true,
        _ => false,
    }
}

/// The transition table of the supervisor.
pub open spec fn next_state_spec(s: SupervisorState, e: SupervisorEvent) -> SupervisorState {
    match (s, e) {
        (SupervisorState::Idle, SupervisorEvent::CancelObserved) => SupervisorState::Cancelled,
        (SupervisorState::Idle, SupervisorEvent::PresenceOpened) => SupervisorState::Discovering,
        (SupervisorState::Idle, SupervisorEvent::PresenceOpenFailed) => SupervisorState::Failed,
        (
            SupervisorState::Discovering,
            SupervisorEvent::CancelObserved,
        ) => SupervisorState::Cancelled,
        (SupervisorState::Discovering, SupervisorEvent::DeviceFound) => SupervisorState::Connecting,
        (
            SupervisorState::Discovering,
            SupervisorEvent::DeviceNotFound,
        ) => SupervisorState::Discovering,
        (
            SupervisorState::Connecting,
            SupervisorEvent::CancelObserved,
        ) => SupervisorState::Cancelled,
        (SupervisorState::Connecting, SupervisorEvent::Connected) => SupervisorState::Polling,
        (SupervisorState::Connecting, SupervisorEvent::ConnectTimeout) => SupervisorState::Connecting,
        (
            SupervisorState::Connecting,
            SupervisorEvent::ConnectRejected,
        ) => SupervisorState::Connecting,
        (SupervisorState::Polling, SupervisorEvent::CancelObserved) => SupervisorState::Cancelled,
        (SupervisorState::Polling, SupervisorEvent::SnapshotRead(_)) => SupervisorState::Polling,
        (SupervisorState::Polling, SupervisorEvent::ReadFailed(_)) => SupervisorState::Idle,
        (SupervisorState::Polling, SupervisorEvent::PublishFailed) => SupervisorState::Polling,
        _ => s,
    }
}

/// What the action of a step must be, given the state and the event.
pub open spec fn action_ok(s: SupervisorState, e: SupervisorEvent, a: SupervisorAction) -> bool {
    match (s, e) {
        (SupervisorState::Idle, SupervisorEvent::CancelObserved) => a is Stop,
        (SupervisorState::Idle, SupervisorEvent::PresenceOpened) => a is BeginDiscovery,
        (SupervisorState::Idle, SupervisorEvent::PresenceOpenFailed) => a is FailFatal,
        (SupervisorState::Discovering, SupervisorEvent::CancelObserved) => a is Stop,
        (SupervisorState::Discovering, SupervisorEvent::DeviceFound) => a is AttemptConnect,
        (SupervisorState::Discovering, SupervisorEvent::DeviceNotFound) => a is PollDiscovery,
        (SupervisorState::Connecting, SupervisorEvent::CancelObserved) => a is Stop,
        (SupervisorState::Connecting, SupervisorEvent::Connected) => a is EnumerateAttributes,
        (SupervisorState::Connecting, SupervisorEvent::ConnectTimeout) => a is BackoffThenRetry,
        (SupervisorState::Connecting, SupervisorEvent::ConnectRejected) => a is BackoffThenRetry,
        (SupervisorState::Polling, SupervisorEvent::CancelObserved) => a is GracefulTeardown,
        (SupervisorState::Polling, SupervisorEvent::SnapshotRead(snap)) => a matches
            SupervisorAction::Publish(d) && d.detail@ == detail_line_spec(snap) && d.state@
            == state_line_spec(snap),
        (SupervisorState::Polling, SupervisorEvent::ReadFailed(_)) => a is RestartWithoutTeardown,
        (SupervisorState::Polling, SupervisorEvent::PublishFailed) => a is ContinuePolling,
        _ => false,
    }
}

/// One step of the supervisor: from the current state and the observed
/// event to the next state and the action the surrounding program performs.
pub fn supervisor_step(s: SupervisorState, e: SupervisorEvent) -> (r: (
    SupervisorState,
    SupervisorAction,
))
    requires
        accepts(s, e),
    ensures
        r.0 == next_state_spec(s, e),
        action_ok(s, e, r.1),
{
    match (s, e) {
        (SupervisorState::Idle, SupervisorEvent::CancelObserved) => (
            SupervisorState::Cancelled,
            SupervisorAction::Stop,
        ),
        (SupervisorState::Idle, SupervisorEvent::PresenceOpened) => (
            SupervisorState::Discovering,
            SupervisorAction::BeginDiscovery,
        ),
        (SupervisorState::Idle, SupervisorEvent::PresenceOpenFailed) => (
            SupervisorState::Failed,
            SupervisorAction::FailFatal,
        ),
        (SupervisorState::Discovering, SupervisorEvent::CancelObserved) => (
            SupervisorState::Cancelled,
            SupervisorAction::Stop,
        ),
        (SupervisorState::Discovering, SupervisorEvent::DeviceFound) => (
            SupervisorState::Connecting,
            SupervisorAction::AttemptConnect,
        ),
        (SupervisorState::Discovering, SupervisorEvent::DeviceNotFound) => (
            SupervisorState::Discovering,
            SupervisorAction::PollDiscovery,
        ),
        (SupervisorState::Connecting, SupervisorEvent::CancelObserved) => (
            SupervisorState::Cancelled,
            SupervisorAction::Stop,
        ),
        (SupervisorState::Connecting, SupervisorEvent::Connected) => (
            SupervisorState::Polling,
            SupervisorAction::EnumerateAttributes,
        ),
        (SupervisorState::Connecting, SupervisorEvent::ConnectTimeout) => (
            SupervisorState::Connecting,
            SupervisorAction::BackoffThenRetry,
        ),
        (SupervisorState::Connecting, SupervisorEvent::ConnectRejected) => (
            SupervisorState::Connecting,
            SupervisorAction::BackoffThenRetry,
        ),
        (SupervisorState::Polling, SupervisorEvent::CancelObserved) => (
            SupervisorState::Cancelled,
            SupervisorAction::GracefulTeardown,
        ),
        (SupervisorState::Polling, SupervisorEvent::SnapshotRead(snap)) => (
            SupervisorState::Polling,
            SupervisorAction::Publish(format_status(&snap)),
        ),
        (SupervisorState::Polling, SupervisorEvent::ReadFailed(_)) => (
            SupervisorState::Idle,
            SupervisorAction::RestartWithoutTeardown,
        ),
        (SupervisorState::Polling, SupervisorEvent::PublishFailed) => (
            SupervisorState::Polling,
            SupervisorAction::ContinuePolling,
        ),
        _ => (s, SupervisorAction::Stop),
    }
}

/// The state the supervisor reaches after observing `events` in order.
pub open spec fn run_steps(s: SupervisorState, events: Seq<SupervisorEvent>) -> SupervisorState
    decreases events.len(),
{
    if events.len() == 0 {
        s
    } else {
        run_steps(next_state_spec(s, events[0]), events.skip(1))
    }
}

/// Law: failed connection attempts never end the outer loop. However many
/// timeouts and rejections arrive in a row while Connecting, the supervisor
/// is still Connecting, and each failure is answered by a settling wait and
/// exactly one more attempt; only cancellation or a success moves it on.
pub proof fn lemma_connect_retry_indefinite(events: Seq<SupervisorEvent>)
    requires
        forall|i: int|
            0 <= i < events.len() ==> events[i] is ConnectTimeout || events[i] is ConnectRejected,
    ensures
        run_steps(SupervisorState::Connecting, events) == SupervisorState::Connecting,
        forall|i: int, a: SupervisorAction|
            0 <= i < events.len() && #[trigger] action_ok(SupervisorState::Connecting, events[i], a)
                ==> a is BackoffThenRetry,
    decreases events.len(),
{
    if events.len() > 0 {
        assert(next_state_spec(SupervisorState::Connecting, events[0])
            == SupervisorState::Connecting);
        assert(forall|i: int|
            0 <= i < events.skip(1).len() ==> events.skip(1)[i] == events[i + 1]);
        lemma_connect_retry_indefinite(events.skip(1));
    }
}

/// Law: once the cancellation gate is observed at a loop boundary, a single
/// transition ends the outer loop: from every non-terminal state the
/// supervisor moves straight to Cancelled, with no error surfaced — the
/// only remaining outside work is the graceful teardown out of Polling.
pub proof fn lemma_cancel_terminates(s: SupervisorState)
    requires
        !is_terminal(s),
    ensures
        next_state_spec(s, SupervisorEvent::CancelObserved) is Cancelled,
        forall|a: SupervisorAction|
            #[trigger] action_ok(s, SupervisorEvent::CancelObserved, a) ==> a is Stop
                || a is GracefulTeardown,
{
}

/// Law: after a mid-poll read failure the supervisor returns to Idle while
/// skipping the disconnect handshake and the presence close, and its next
/// accepted step out of Idle opens a brand-new presence session and starts
/// a fresh discovery — the dead handle is never touched again.
pub proof fn lemma_read_failure_restarts(err: DecodeError)
    ensures
        next_state_spec(SupervisorState::Polling, SupervisorEvent::ReadFailed(err)) is Idle,
        forall|a: SupervisorAction|
            #[trigger] action_ok(SupervisorState::Polling, SupervisorEvent::ReadFailed(err), a)
                ==> a is RestartWithoutTeardown,
        next_state_spec(SupervisorState::Idle, SupervisorEvent::PresenceOpened) is Discovering,
        forall|a: SupervisorAction|
            #[trigger] action_ok(SupervisorState::Idle, SupervisorEvent::PresenceOpened, a)
                ==> a is BeginDiscovery,
{
}

} // verus!
