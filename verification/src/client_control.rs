//! The engine's reaction to what the UI sends: which state changes, and what
//! the host must do next (publish, start a connection attempt, report an
//! error). The host performs the action; nothing here touches a window or a
//! socket.
//!
//! Times are milliseconds of a monotonic clock chosen by the host.

use crate::handshake::HandshakeRejectionReason;
use crate::identity::{display_name_spec, DisplayName};
use crate::match_presenter::{next_sequence, MatchSessionPresenter, MatchStateView, PresenterView};
use crate::session_lifecycle::{
    failed_from, in_flight, may_connect, AttemptView, ConnectionAttempt, HandshakeOutcome, PhaseView,
    SessionLifecycle, CONNECTION_TIMEOUT_MS,
};
use crate::ui_bridge::{due_spec, heartbeat_due, BridgeView, UiBridge};
use crate::ui_protocol::{
    ConnectionFailureReason, DisconnectedReason, MatchSessionResetReason, ProtocolDecodeError, ProtocolErrorCode,
    ProtocolValidationError, UiToEngineMessage,
};
use vstd::prelude::*;

verus! {

/// What the host must do after a message from the UI.
#[derive(Debug)]
pub enum UiAction {
    /// Nothing to publish.
    Ignore,
    /// Report this protocol error to the UI.
    ReportError(ProtocolErrorCode),
    /// Publish the connection state and the match session state.
    PublishAll,
    /// Publish the connection state.
    PublishConnection,
    /// Publish the reset match session state and the connection state, then
    /// run this connection attempt.
    StartAttempt(ConnectionAttempt),
    /// Drop the connected session's resources, then publish the reset match
    /// session state and the connection state.
    Disconnected,
}

/// Whether the bridge takes messages from `bridge_id`.
pub open spec fn accepts_spec(b: BridgeView, bridge_id: Seq<char>) -> bool {
    !b.faulted && b.bridge_id == Some(bridge_id)
}

/// The presenter after a reset for `reason`.
pub open spec fn reset_spec(p: PresenterView, reason: MatchSessionResetReason) -> PresenterView {
    PresenterView {
        sequence: next_sequence(p.sequence),
        last_opponent: None,
        last_elapsed: None,
        state: MatchStateView::Reset { sequence: next_sequence(p.sequence), reason },
    }
}

/// The error code that the UI is told for a message it sent that could not be decoded.
pub open spec fn decode_error_code_spec(e: ProtocolDecodeError) -> ProtocolErrorCode {
    match e {
        ProtocolDecodeError::Invalid { code, .. } => code,
        ProtocolDecodeError::Validation(ProtocolValidationError::UnsupportedVersion(_)) => ProtocolErrorCode::UnsupportedVersion,
        ProtocolDecodeError::Validation(_) => ProtocolErrorCode::InvalidFieldValue,
    }
}

/// The error code that the UI is told for a message it sent that could not be decoded.
pub fn decode_error_code(e: &ProtocolDecodeError) -> (r: ProtocolErrorCode)
    ensures
        r == decode_error_code_spec(*e),
{
    match e {
        ProtocolDecodeError::Invalid { code, .. } => *code,
        ProtocolDecodeError::Validation(ProtocolValidationError::UnsupportedVersion(_)) => ProtocolErrorCode::UnsupportedVersion,
        ProtocolDecodeError::Validation(_) => ProtocolErrorCode::InvalidFieldValue,
    }
}

/// How the connection state reports a handshake that the server refused.
pub fn rejection_outcome(reason: HandshakeRejectionReason) -> (r: HandshakeOutcome)
    ensures
        r == (match reason {
            HandshakeRejectionReason::ServerFull => HandshakeOutcome::ServerFull,
            HandshakeRejectionReason::IncompatibleVersion => HandshakeOutcome::VersionMismatch,
            _ => HandshakeOutcome::Rejected,
        }),
{
    match reason {
        HandshakeRejectionReason::ServerFull => HandshakeOutcome::ServerFull,
        HandshakeRejectionReason::IncompatibleVersion => HandshakeOutcome::VersionMismatch,
        _ => HandshakeOutcome::Rejected,
    }
}

/// The attempt that a connect request starts, for a name that passed validation.
pub open spec fn requested_attempt(request_id: Seq<char>, address: Seq<char>, name: Seq<char>, now: u64) -> AttemptView {
    AttemptView { id: request_id, address, display_name: name, deadline: (now + CONNECTION_TIMEOUT_MS) as u64 }
}

/// Handles one message from the UI at time `now`: updates the bridge, the
/// connection lifecycle and the match session presenter, and says what the
/// host must do next.
///
/// A message from any bridge but the ready, unfaulted one changes nothing
/// (an announcement of readiness excepted), and so does a request that the
/// lifecycle refuses. A connect request whose display name fails validation
/// is answered with `InvalidFieldValue` whichever bridge sent it.
pub fn handle_ui_message<S>(
    bridge: &mut UiBridge,
    lifecycle: &mut SessionLifecycle<S>,
    presenter: &mut MatchSessionPresenter,
    message: UiToEngineMessage,
    now: u64,
) -> (r: UiAction)
    requires
        now + old(bridge)@.config.interval_ms <= u64::MAX,
        now + CONNECTION_TIMEOUT_MS <= u64::MAX,
    ensures
        match message {
            UiToEngineMessage::UiReady { bridge_id, .. } => {
                &&& final(bridge)@ == (BridgeView {
                    bridge_id: Some(bridge_id@),
                    next_heartbeat: Some((now + old(bridge)@.config.interval_ms) as u64),
                    awaiting: None,
                    missed: 0,
                    faulted: false,
                    config: old(bridge)@.config,
                })
                &&& final(lifecycle)@ == old(lifecycle)@
                &&& final(presenter)@ == old(presenter)@
                &&& r is PublishAll
            },
            UiToEngineMessage::ConnectRequested { bridge_id, request_id, address, display_name, .. } => {
                &&& final(bridge)@ == old(bridge)@
                &&& match display_name_spec(display_name@) {
                    Err(_) => {
                        &&& r == UiAction::ReportError(ProtocolErrorCode::InvalidFieldValue)
                        &&& final(lifecycle)@ == old(lifecycle)@
                        &&& final(presenter)@ == old(presenter)@
                    },
                    Ok(name) => if accepts_spec(old(bridge)@, bridge_id@) && may_connect(old(lifecycle)@) {
                        let a = requested_attempt(request_id@, address@, name, now);
                        &&& r matches UiAction::StartAttempt(attempt) && attempt@ == a
                        &&& final(lifecycle)@ == PhaseView::ResolvingHost(a)
                        &&& final(presenter)@ == reset_spec(
                            old(presenter)@,
                            MatchSessionResetReason::NewConnectionAttempt,
                        )
                    } else {
                        &&& r is Ignore
                        &&& final(lifecycle)@ == old(lifecycle)@
                        &&& final(presenter)@ == old(presenter)@
                    },
                }
            },
            UiToEngineMessage::ConnectionCancelled { bridge_id, request_id, .. } => {
                &&& final(bridge)@ == old(bridge)@
                &&& final(presenter)@ == old(presenter)@
                &&& if accepts_spec(old(bridge)@, bridge_id@)
                    && (in_flight(old(lifecycle)@) matches Some(a) && a.id == request_id@) {
                    &&& r is PublishConnection
                    &&& final(lifecycle)@ == (PhaseView::Idle {
                        address: in_flight(old(lifecycle)@)->0.address,
                        reason: DisconnectedReason::Cancelled,
                    })
                } else {
                    &&& r is Ignore
                    &&& final(lifecycle)@ == old(lifecycle)@
                }
            },
            UiToEngineMessage::DisconnectRequested { bridge_id, request_id, .. } => {
                &&& final(bridge)@ == old(bridge)@
                &&& if accepts_spec(old(bridge)@, bridge_id@)
                    && (old(lifecycle)@ matches PhaseView::Connected { request_id: id, .. } && id == request_id@) {
                    &&& r is Disconnected
                    &&& final(lifecycle)@ == (PhaseView::Idle {
                        address: old(lifecycle)@->Connected_address,
                        reason: DisconnectedReason::UserDisconnected,
                    })
                    &&& final(presenter)@ == reset_spec(
                        old(presenter)@,
                        MatchSessionResetReason::UserDisconnected,
                    )
                } else {
                    &&& r is Ignore
                    &&& final(lifecycle)@ == old(lifecycle)@
                    &&& final(presenter)@ == old(presenter)@
                }
            },
            UiToEngineMessage::HeartbeatAcknowledged { bridge_id, sequence, .. } => {
                &&& final(bridge)@ == (if accepts_spec(old(bridge)@, bridge_id@)
                    && old(bridge)@.awaiting == Some(sequence) {
                    BridgeView { awaiting: None, missed: 0, ..old(bridge)@ }
                } else {
                    old(bridge)@
                })
                &&& final(lifecycle)@ == old(lifecycle)@
                &&& final(presenter)@ == old(presenter)@
                &&& r is Ignore
            },
            UiToEngineMessage::BridgeFaultReported { bridge_id, code, .. } => {
                &&& final(bridge)@ == old(bridge)@
                &&& final(lifecycle)@ == old(lifecycle)@
                &&& final(presenter)@ == old(presenter)@
                &&& r == (if accepts_spec(old(bridge)@, bridge_id@) {
                    UiAction::ReportError(code)
                } else {
                    UiAction::Ignore
                })
            },
        },
{
    match message {
        UiToEngineMessage::UiReady { bridge_id, .. } => {
            bridge.ready(bridge_id, now);
            UiAction::PublishAll
        },
        UiToEngineMessage::ConnectRequested { bridge_id, request_id, address, display_name, .. } => {
            let name = match DisplayName::parse(display_name.as_str()) {
                Ok(name) => name,
                Err(_) => {
                    return UiAction::ReportError(ProtocolErrorCode::InvalidFieldValue);
                },
            };
            if !bridge.accepts(&bridge_id) {
                return UiAction::Ignore;
            }
            match lifecycle.connect(request_id, address, name.as_str().to_owned(), now) {
                Some(attempt) => {
                    presenter.reset(MatchSessionResetReason::NewConnectionAttempt);
                    UiAction::StartAttempt(attempt)
                },
                None => UiAction::Ignore,
            }
        },
        UiToEngineMessage::ConnectionCancelled { bridge_id, request_id, .. } => {
            if bridge.accepts(&bridge_id) && lifecycle.cancel(&request_id) {
                UiAction::PublishConnection
            } else {
                UiAction::Ignore
            }
        },
        UiToEngineMessage::DisconnectRequested { bridge_id, request_id, .. } => {
            if bridge.accepts(&bridge_id) && lifecycle.disconnect(&request_id) {
                presenter.reset(MatchSessionResetReason::UserDisconnected);
                UiAction::Disconnected
            } else {
                UiAction::Ignore
            }
        },
        UiToEngineMessage::HeartbeatAcknowledged { bridge_id, sequence, .. } => {
            let _ = bridge.acknowledge(&bridge_id, sequence);
            UiAction::Ignore
        },
        UiToEngineMessage::BridgeFaultReported { bridge_id, code, .. } => {
            if bridge.accepts(&bridge_id) {
                UiAction::ReportError(code)
            } else {
                UiAction::Ignore
            }
        },
    }
}

/// What the host must do after the periodic housekeeping.
#[derive(Clone, Copy, Debug, PartialEq, Eq, Structural)]
pub struct Housekeeping {
    /// Send a heartbeat with this sequence number.
    pub heartbeat: Option<u64>,
    /// The bridge has faulted: the engine must shut down.
    pub bridge_failed: bool,
    /// The connection state changed and must be published.
    pub connection_changed: bool,
}

/// The periodic housekeeping at `now`: a heartbeat when one is due, then,
/// unless that faulted the bridge, the timeout of the connection attempt in
/// flight.
pub fn housekeeping<S>(bridge: &mut UiBridge, lifecycle: &mut SessionLifecycle<S>, now: u64) -> (r: Housekeeping)
    requires
        heartbeat_due(old(bridge)@, now) ==> now + old(bridge)@.config.interval_ms <= u64::MAX,
    ensures
        (r.heartbeat, final(bridge)@) == due_spec(old(bridge)@, now),
        r.bridge_failed == final(bridge)@.faulted,
        r.bridge_failed ==> !r.connection_changed && final(lifecycle)@ == old(lifecycle)@,
        !r.bridge_failed ==> {
            &&& r.connection_changed == (in_flight(old(lifecycle)@) matches Some(a) && now >= a.deadline)
            &&& r.connection_changed ==> final(lifecycle)@ == failed_from(
                in_flight(old(lifecycle)@)->0,
                ConnectionFailureReason::Timeout,
            )
            &&& !r.connection_changed ==> final(lifecycle)@ == old(lifecycle)@
        },
{
    let heartbeat = bridge.due(now);
    if bridge.failed() {
        return Housekeeping { heartbeat, bridge_failed: true, connection_changed: false };
    }
    let connection_changed = lifecycle.timeout(now);
    Housekeeping { heartbeat, bridge_failed: false, connection_changed }
}

/// The earlier of two optional deadlines.
pub open spec fn earliest(a: Option<u64>, b: Option<u64>) -> Option<u64> {
    match (a, b) {
        (Some(x), Some(y)) => Some(if x <= y { x } else { y }),
        (Some(x), None) => Some(x),
        (None, y) => y,
    }
}

fn earlier(a: Option<u64>, b: Option<u64>) -> (r: Option<u64>)
    ensures
        r == earliest(a, b),
{
    match (a, b) {
        (Some(x), Some(y)) => Some(if x <= y { x } else { y }),
        (Some(x), None) => Some(x),
        (None, y) => y,
    }
}

/// When the host must wake next: the earliest of the connection attempt's
/// deadline, the next heartbeat, the HUD's next deadline and, while
/// connected, the next simulation tick. `None` means: wait for an event.
pub fn next_wake(
    attempt_deadline: Option<u64>,
    heartbeat_deadline: Option<u64>,
    hud_deadline: Option<u64>,
    next_tick: Option<u64>,
) -> (r: Option<u64>)
    ensures
        r == earliest(earliest(earliest(attempt_deadline, heartbeat_deadline), hud_deadline), next_tick),
        r is None <==> (attempt_deadline is None && heartbeat_deadline is None && hud_deadline is None
            && next_tick is None),
        r matches Some(w) ==> {
            &&& attempt_deadline matches Some(d) ==> w <= d
            &&& heartbeat_deadline matches Some(d) ==> w <= d
            &&& hud_deadline matches Some(d) ==> w <= d
            &&& next_tick matches Some(d) ==> w <= d
        },
{
    earlier(earlier(earlier(attempt_deadline, heartbeat_deadline), hud_deadline), next_tick)
}

} // verus!
