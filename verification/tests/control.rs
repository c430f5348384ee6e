use spacegame2d::client_control::{
    decode_error_code, handle_ui_message, housekeeping, next_wake, rejection_outcome, UiAction,
};
use spacegame2d::command::{AuthoritativeCommand, CommandData, CommandRejectionReason};
use spacegame2d::handshake::HandshakeRejectionReason;
use spacegame2d::match_presenter::MatchSessionPresenter;
use spacegame2d::mirror::CommandMirror;
use spacegame2d::presentation::{title_with_notice, RejectionNotice};
use spacegame2d::session_lifecycle::{HandshakeOutcome, SessionLifecycle, CONNECTION_TIMEOUT_MS};
use spacegame2d::tick::Tick;
use spacegame2d::ui_bridge::{BridgeHealthConfig, UiBridge};
use spacegame2d::ui_protocol::{
    BridgeId, ConnectionFailureReason, ConnectionStateSnapshot, DisconnectedReason,
    MatchSessionResetReason, MatchSessionState, ProtocolDecodeError, ProtocolErrorCode,
    ProtocolValidationError, RequestId, UiToEngineMessage,
};

fn bridge_id(value: &str) -> BridgeId {
    BridgeId::new(value.into()).unwrap()
}

fn request_id(value: &str) -> RequestId {
    RequestId::new(value.into()).unwrap()
}

fn ready_engine() -> (UiBridge, SessionLifecycle<()>, MatchSessionPresenter) {
    let mut bridge = UiBridge::new(BridgeHealthConfig::default());
    let mut lifecycle = SessionLifecycle::new("127.0.0.1:7000".to_owned());
    let mut presenter = MatchSessionPresenter::default();
    let action = handle_ui_message(
        &mut bridge,
        &mut lifecycle,
        &mut presenter,
        UiToEngineMessage::UiReady { protocol_version: 1, bridge_id: bridge_id("bridge-1") },
        100,
    );
    assert!(matches!(action, UiAction::PublishAll));
    (bridge, lifecycle, presenter)
}

fn connect_request(bridge: &str, request: &str, name: &str) -> UiToEngineMessage {
    UiToEngineMessage::ConnectRequested {
        protocol_version: 1,
        bridge_id: bridge_id(bridge),
        request_id: request_id(request),
        address: "example.test:7000".to_owned(),
        display_name: name.to_owned(),
    }
}

#[test]
fn ready_bridge_starts_heartbeats_one_interval_later() {
    let (bridge, _, _) = ready_engine();
    assert_eq!(bridge.next_deadline(), Some(1100));
    assert!(bridge.accepts(&bridge_id("bridge-1")));
}

#[test]
fn connect_request_starts_an_attempt_with_the_canonical_name() {
    let (mut bridge, mut lifecycle, mut presenter) = ready_engine();
    let action = handle_ui_message(
        &mut bridge,
        &mut lifecycle,
        &mut presenter,
        connect_request("bridge-1", "req-1", "  Ada  "),
        200,
    );
    match action {
        UiAction::StartAttempt(attempt) => {
            assert_eq!(attempt.id.as_str(), "req-1");
            assert_eq!(attempt.address, "example.test:7000");
            assert_eq!(attempt.display_name, "Ada");
            assert_eq!(attempt.deadline, 200 + CONNECTION_TIMEOUT_MS);
        }
        other => panic!("unexpected action {other:?}"),
    }
    assert_eq!(
        presenter.state(),
        &MatchSessionState::Reset { sequence: 1, reason: MatchSessionResetReason::NewConnectionAttempt }
    );
    assert!(matches!(lifecycle.ui_state(), ConnectionStateSnapshot::ResolvingHost { .. }));
}

#[test]
fn invalid_display_name_is_a_field_error() {
    let (mut bridge, mut lifecycle, mut presenter) = ready_engine();
    let action = handle_ui_message(
        &mut bridge,
        &mut lifecycle,
        &mut presenter,
        connect_request("bridge-1", "req-1", "   "),
        200,
    );
    assert!(matches!(action, UiAction::ReportError(ProtocolErrorCode::InvalidFieldValue)));
    assert!(matches!(lifecycle.ui_state(), ConnectionStateSnapshot::Idle { .. }));
    assert_eq!(
        presenter.state(),
        &MatchSessionState::Reset { sequence: 0, reason: MatchSessionResetReason::Startup }
    );
}

#[test]
fn messages_from_an_unknown_bridge_are_ignored() {
    let (mut bridge, mut lifecycle, mut presenter) = ready_engine();
    let action = handle_ui_message(
        &mut bridge,
        &mut lifecycle,
        &mut presenter,
        connect_request("bridge-2", "req-1", "Ada"),
        200,
    );
    assert!(matches!(action, UiAction::Ignore));
    assert!(matches!(lifecycle.ui_state(), ConnectionStateSnapshot::Idle { .. }));
    let fault = UiToEngineMessage::BridgeFaultReported {
        protocol_version: 1,
        bridge_id: bridge_id("bridge-2"),
        code: ProtocolErrorCode::MalformedJson,
    };
    assert!(matches!(
        handle_ui_message(&mut bridge, &mut lifecycle, &mut presenter, fault, 200),
        UiAction::Ignore
    ));
    let fault = UiToEngineMessage::BridgeFaultReported {
        protocol_version: 1,
        bridge_id: bridge_id("bridge-1"),
        code: ProtocolErrorCode::MalformedJson,
    };
    assert!(matches!(
        handle_ui_message(&mut bridge, &mut lifecycle, &mut presenter, fault, 200),
        UiAction::ReportError(ProtocolErrorCode::MalformedJson)
    ));
}

#[test]
fn second_connect_while_in_flight_is_ignored_and_cancel_publishes() {
    let (mut bridge, mut lifecycle, mut presenter) = ready_engine();
    let first = handle_ui_message(
        &mut bridge,
        &mut lifecycle,
        &mut presenter,
        connect_request("bridge-1", "req-1", "Ada"),
        200,
    );
    assert!(matches!(first, UiAction::StartAttempt(_)));
    let second = handle_ui_message(
        &mut bridge,
        &mut lifecycle,
        &mut presenter,
        connect_request("bridge-1", "req-2", "Ada"),
        210,
    );
    assert!(matches!(second, UiAction::Ignore));
    let stale = UiToEngineMessage::ConnectionCancelled {
        protocol_version: 1,
        bridge_id: bridge_id("bridge-1"),
        request_id: request_id("req-2"),
    };
    assert!(matches!(
        handle_ui_message(&mut bridge, &mut lifecycle, &mut presenter, stale, 220),
        UiAction::Ignore
    ));
    let cancel = UiToEngineMessage::ConnectionCancelled {
        protocol_version: 1,
        bridge_id: bridge_id("bridge-1"),
        request_id: request_id("req-1"),
    };
    assert!(matches!(
        handle_ui_message(&mut bridge, &mut lifecycle, &mut presenter, cancel, 230),
        UiAction::PublishConnection
    ));
    assert_eq!(
        lifecycle.ui_state(),
        ConnectionStateSnapshot::Idle {
            address: "example.test:7000".to_owned(),
            reason: DisconnectedReason::Cancelled,
        }
    );
}

#[test]
fn disconnect_resets_the_match_session() {
    let (mut bridge, mut lifecycle, mut presenter) = ready_engine();
    let _ = handle_ui_message(
        &mut bridge,
        &mut lifecycle,
        &mut presenter,
        connect_request("bridge-1", "req-1", "Ada"),
        200,
    );
    assert!(lifecycle.complete(
        request_id("req-1"),
        spacegame2d::session_lifecycle::ConnectionOutcome::Connected { session: (), player_slot: 2 },
    ));
    let disconnect = UiToEngineMessage::DisconnectRequested {
        protocol_version: 1,
        bridge_id: bridge_id("bridge-1"),
        request_id: request_id("req-1"),
    };
    assert!(matches!(
        handle_ui_message(&mut bridge, &mut lifecycle, &mut presenter, disconnect, 300),
        UiAction::Disconnected
    ));
    assert_eq!(
        presenter.state(),
        &MatchSessionState::Reset { sequence: 2, reason: MatchSessionResetReason::UserDisconnected }
    );
    assert_eq!(
        lifecycle.ui_state(),
        ConnectionStateSnapshot::Idle {
            address: "example.test:7000".to_owned(),
            reason: DisconnectedReason::UserDisconnected,
        }
    );
}

#[test]
fn acknowledgement_only_counts_for_the_awaited_heartbeat() {
    let (mut bridge, mut lifecycle, mut presenter) = ready_engine();
    let step = housekeeping(&mut bridge, &mut lifecycle, 1100);
    assert_eq!(step.heartbeat, Some(1));
    assert!(!step.bridge_failed);
    let ack = UiToEngineMessage::HeartbeatAcknowledged {
        protocol_version: 1,
        bridge_id: bridge_id("bridge-1"),
        sequence: 1,
    };
    assert!(matches!(
        handle_ui_message(&mut bridge, &mut lifecycle, &mut presenter, ack, 1150),
        UiAction::Ignore
    ));
    let step = housekeeping(&mut bridge, &mut lifecycle, 2100);
    assert_eq!(step.heartbeat, Some(1));
}

#[test]
fn housekeeping_fails_the_bridge_after_missed_heartbeats() {
    let (mut bridge, mut lifecycle, _) = ready_engine();
    assert_eq!(housekeeping(&mut bridge, &mut lifecycle, 1100).heartbeat, Some(1));
    assert_eq!(housekeeping(&mut bridge, &mut lifecycle, 2100).heartbeat, Some(2));
    assert_eq!(housekeeping(&mut bridge, &mut lifecycle, 3100).heartbeat, Some(3));
    let step = housekeeping(&mut bridge, &mut lifecycle, 4100);
    assert_eq!(step.heartbeat, None);
    assert!(step.bridge_failed);
    assert!(!step.connection_changed);
}

#[test]
fn housekeeping_times_out_the_attempt() {
    let (mut bridge, mut lifecycle, mut presenter) = ready_engine();
    let _ = handle_ui_message(
        &mut bridge,
        &mut lifecycle,
        &mut presenter,
        connect_request("bridge-1", "req-1", "Ada"),
        200,
    );
    let step = housekeeping(&mut bridge, &mut lifecycle, 200 + CONNECTION_TIMEOUT_MS - 1);
    assert!(!step.connection_changed);
    let step = housekeeping(&mut bridge, &mut lifecycle, 200 + CONNECTION_TIMEOUT_MS);
    assert!(step.connection_changed);
    assert!(matches!(
        lifecycle.ui_state(),
        ConnectionStateSnapshot::Failed { reason: ConnectionFailureReason::Timeout, .. }
    ));
}

#[test]
fn next_wake_is_the_earliest_deadline() {
    assert_eq!(next_wake(None, None, None, None), None);
    assert_eq!(next_wake(Some(50), Some(20), None, Some(30)), Some(20));
    assert_eq!(next_wake(None, None, Some(7), None), Some(7));
    assert_eq!(next_wake(Some(9), None, Some(12), Some(9)), Some(9));
}

#[test]
fn rejections_map_to_connection_failures() {
    assert_eq!(rejection_outcome(HandshakeRejectionReason::ServerFull), HandshakeOutcome::ServerFull);
    assert_eq!(
        rejection_outcome(HandshakeRejectionReason::IncompatibleVersion),
        HandshakeOutcome::VersionMismatch
    );
    assert_eq!(
        rejection_outcome(HandshakeRejectionReason::MissingRequiredCapability),
        HandshakeOutcome::Rejected
    );
    assert_eq!(rejection_outcome(HandshakeRejectionReason::InvalidHandshake), HandshakeOutcome::Rejected);
}

#[test]
fn decode_errors_map_to_protocol_codes() {
    let invalid = ProtocolDecodeError::Invalid {
        code: ProtocolErrorCode::UnknownField,
        detail: "unknown field".to_owned(),
    };
    assert_eq!(decode_error_code(&invalid), ProtocolErrorCode::UnknownField);
    let version = ProtocolDecodeError::Validation(ProtocolValidationError::UnsupportedVersion(9));
    assert_eq!(decode_error_code(&version), ProtocolErrorCode::UnsupportedVersion);
    let id = ProtocolDecodeError::Validation(ProtocolValidationError::InvalidId("bridgeId"));
    assert_eq!(decode_error_code(&id), ProtocolErrorCode::InvalidFieldValue);
}

#[test]
fn rejection_notice_expires_after_two_seconds() {
    let mut notice = RejectionNotice::new();
    assert_eq!(notice.text(0), None);
    notice.show(CommandRejectionReason::DestinationOutsideArena, 1000);
    assert_eq!(notice.text(2999), Some("Command rejected: outside arena"));
    assert_eq!(notice.text(3000), None);
    assert_eq!(notice.text(1000), None);
    notice.show(CommandRejectionReason::InvalidPlayer, 10);
    notice.clear();
    assert_eq!(notice.text(11), None);
}

#[test]
fn title_carries_the_notice() {
    assert_eq!(title_with_notice(None, None), "Spacegame 2D");
    assert_eq!(title_with_notice(Some(2), None), "Spacegame 2D - Player 2");
    assert_eq!(
        title_with_notice(Some(1), Some("Command rejected: invalid command")),
        "Spacegame 2D - Player 1 \u{2014} Command rejected: invalid command"
    );
}

fn command(tick: u64, sequence: u32, data: CommandData) -> AuthoritativeCommand {
    AuthoritativeCommand { execute_tick: Tick(tick), player_slot: 1, sequence, command: data }
}

fn destination(tick: u64, sequence: u32) -> AuthoritativeCommand {
    command(tick, sequence, CommandData::SetDestination { destination: [0, 0], target_unit_ids: vec![] })
}

#[test]
fn mirror_hands_out_due_commands_in_tick_then_arrival_order() {
    let mut mirror = CommandMirror::new();
    mirror.insert(destination(12, 1));
    mirror.insert(destination(10, 2));
    mirror.insert(destination(12, 3));
    mirror.insert(destination(11, 4));
    mirror.insert(destination(20, 5));
    let due = mirror.take_due(Tick(12));
    assert!(!due.reset_applied);
    let sequences: Vec<u32> = due.commands.iter().map(|c| c.sequence).collect();
    assert_eq!(sequences, vec![2, 4, 1, 3]);
    let ticks: Vec<u64> = due.commands.iter().map(|c| c.execute_tick.0).collect();
    assert_eq!(ticks, vec![12, 12, 12, 12]);
    assert_eq!(mirror.len(), 1);
    assert!(mirror.take_due(Tick(19)).commands.is_empty());
    assert_eq!(mirror.take_due(Tick(20)).commands, vec![destination(20, 5)]);
    assert_eq!(mirror.len(), 0);
}

#[test]
fn mirror_reset_wins_and_clears_the_schedule() {
    let mut mirror = CommandMirror::new();
    mirror.insert(destination(5, 1));
    mirror.insert(command(6, 2, CommandData::ResetSimulation));
    mirror.insert(destination(6, 3));
    mirror.insert(destination(40, 4));
    let due = mirror.take_due(Tick(8));
    assert!(due.reset_applied);
    assert_eq!(due.commands, vec![command(8, 2, CommandData::ResetSimulation)]);
    assert_eq!(mirror.len(), 0);
}
