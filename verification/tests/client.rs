use spacegame2d::actuator::{ActuationConfig, CoarseActuator};
use spacegame2d::hud::{
    allowed_navigation, embedded_asset, initialization_script, HudAsset, HudLayout,
};
use spacegame2d::input::{ControlKey, InputController, ShipInput, SimulationCommand};
use spacegame2d::presentation::{vertex_buffer_capacity, window_title, PlayerColor};
use spacegame2d::session_lifecycle::{
    local_player, ConnectionOutcome, ConnectionProgress, HandshakeOutcome, SessionLifecycle,
    CONNECTION_TIMEOUT_MS,
};
use spacegame2d::ui_bridge::{BridgeHealthConfig, UiBridge};
use spacegame2d::ui_protocol::{
    BridgeId, ConnectionFailureReason, ConnectionStateSnapshot, DisconnectedReason, RequestId,
};

#[test]
fn movement_keys_toggle_controls() {
    let mut c = InputController::default();
    c.press(ControlKey::Thrust);
    assert!(c.controls().thrust);
    c.release(ControlKey::Thrust);
    assert!(!c.controls().thrust);
}

#[test]
fn reset_is_one_shot() {
    let mut c = InputController::default();
    c.press(ControlKey::Reset);
    assert_eq!(c.take_command(), Some(SimulationCommand::ResetSimulation));
    assert_eq!(c.take_command(), None);
}

#[test]
fn reset_blocks_held_controls_until_release_and_repress() {
    let mut c = InputController::default();
    c.press(ControlKey::Thrust);
    c.press(ControlKey::TurnLeft);
    c.press(ControlKey::Reset);
    assert_eq!(c.controls(), ShipInput::default());
    assert_eq!(c.take_command(), Some(SimulationCommand::ResetSimulation));
    c.press(ControlKey::Thrust);
    assert_eq!(c.controls(), ShipInput::default());
    c.release(ControlKey::Thrust);
    c.press(ControlKey::Thrust);
    assert!(c.controls().thrust);
    assert!(!c.controls().turn_left);
}

#[test]
fn focus_loss_clears_controls() {
    let mut c = InputController::default();
    c.press(ControlKey::Thrust);
    c.clear_for_focus_loss();
    assert_eq!(c.controls(), ShipInput::default());
}

#[test]
fn suppression_waits_for_a_fresh_press() {
    let mut c = InputController::default();
    c.press(ControlKey::TurnRight);
    c.suppress_held_movement_until_release();
    assert!(!c.controls().turn_right);
    assert_eq!(c.take_command(), None);
    c.release(ControlKey::TurnRight);
    c.press(ControlKey::TurnRight);
    assert!(c.controls().turn_right);
    c.press(ControlKey::Reset);
    c.clear_for_focus_loss();
    assert_eq!(c.take_command(), None);
}

#[test]
fn window_title_includes_player_slot() {
    assert_eq!(window_title(1), "Spacegame 2D - Player 1");
    assert_eq!(window_title(2), "Spacegame 2D - Player 2");
}

#[test]
fn window_title_renders_every_digit() {
    assert_eq!(window_title(0), "Spacegame 2D - Player 0");
    assert_eq!(window_title(4_294_967_295), "Spacegame 2D - Player 4294967295");
}

#[test]
fn slot_colours_preserve_the_native_mapping() {
    assert_eq!(PlayerColor::for_slot(1), PlayerColor::Cyan);
    assert_eq!(PlayerColor::for_slot(2), PlayerColor::Coral);
    assert_eq!(PlayerColor::for_slot(0), PlayerColor::Cyan);
}

#[test]
fn vertex_buffer_capacity_only_grows_when_required() {
    let initial = 40u64;
    assert_eq!(vertex_buffer_capacity(initial, 0), initial);
    assert_eq!(vertex_buffer_capacity(524_288, 403_200), 524_288);
    assert_eq!(vertex_buffer_capacity(initial, 403_200), 524_288);
    assert_eq!(vertex_buffer_capacity(0, 1), 1);
    assert_eq!(vertex_buffer_capacity(64, 65), 128);
    assert_eq!(vertex_buffer_capacity(0, 1 << 63), 1 << 63);
}

#[test]
fn script_installs_an_immutable_namespace() {
    let script = initialization_script();
    assert!(script.contains("Object.defineProperty(window, '__SPACEGAME_HUD__'"));
    assert!(script.contains("writable: false"));
    assert!(script.contains("receiveJson"));
}

#[test]
fn assets_and_navigation_are_strictly_local() {
    assert_eq!(embedded_asset("/assets/hud.css").1, "text/css; charset=utf-8");
    assert_eq!(embedded_asset("/nope").0, 404);
    assert_eq!(embedded_asset("/nope").2, HudAsset::NotFound);
    assert_eq!(embedded_asset("/").2, HudAsset::Index);
    assert_eq!(embedded_asset("/index.html").0, 200);
    assert_eq!(embedded_asset("/assets/hud.js").2, HudAsset::Script);
    assert!(allowed_navigation("spacegame-hud://localhost/index.html"));
    assert!(allowed_navigation("http://spacegame-hud.localhost/assets/hud.js"));
    assert!(allowed_navigation("spacegame-hud://localhost"));
    assert!(!allowed_navigation("https://example.com"));
    assert!(!allowed_navigation("spacegame-hud://localhost.evil"));
}

fn id(value: &str) -> RequestId {
    RequestId::new(value.into()).unwrap()
}

#[test]
fn layout_follows_the_connection() {
    let idle = ConnectionStateSnapshot::Idle {
        address: "x".into(),
        reason: DisconnectedReason::Startup,
    };
    assert_eq!(HudLayout::for_state(&idle), HudLayout::Pregame);
    let mut lifecycle = SessionLifecycle::<()>::new("x".into());
    lifecycle.connect(id("one"), "a".into(), "Rook".into(), 0);
    assert!(lifecycle.complete(
        id("one"),
        ConnectionOutcome::Connected {
            session: (),
            player_slot: 2
        }
    ));
    assert_eq!(HudLayout::for_state(&lifecycle.ui_state()), HudLayout::Compact);
}

#[test]
fn cancellation_and_stale_completion_are_ignored() {
    let now = 0;
    let mut lifecycle = SessionLifecycle::<()>::new("x".into());
    let attempt = lifecycle
        .connect(id("one"), "a".into(), "Rook".into(), now)
        .unwrap();
    assert!(lifecycle.cancel(&id("one")));
    assert!(!lifecycle.complete(id("one"), ConnectionOutcome::Failed));
    assert!(matches!(
        lifecycle.ui_state(),
        ConnectionStateSnapshot::Idle {
            reason: DisconnectedReason::Cancelled,
            ..
        }
    ));
    let next = lifecycle
        .connect(id("two"), "b".into(), "Nova".into(), now)
        .unwrap();
    assert_ne!(attempt.id, next.id);
}

#[test]
fn progress_is_ordered_and_request_scoped() {
    let now = 0;
    let mut lifecycle = SessionLifecycle::<()>::new("x".into());
    lifecycle.connect(id("one"), "a".into(), "Rook".into(), now);
    assert!(!lifecycle.progress(&id("two"), ConnectionProgress::OpeningSocket));
    assert!(lifecycle.progress(&id("one"), ConnectionProgress::OpeningSocket));
    assert!(lifecycle.progress(&id("one"), ConnectionProgress::Handshaking));
    assert!(!lifecycle.progress(&id("one"), ConnectionProgress::OpeningSocket));
}

#[test]
fn display_name_is_retained_for_attempt_failure_and_connection() {
    let now = 0;
    let mut lifecycle = SessionLifecycle::<()>::new("x".into());
    lifecycle.connect(id("one"), "a".into(), "Café".into(), now);
    assert!(
        matches!(lifecycle.ui_state(), ConnectionStateSnapshot::ResolvingHost { display_name, .. } if display_name == "Café")
    );
    assert!(lifecycle.timeout(now + CONNECTION_TIMEOUT_MS));
    assert!(
        matches!(lifecycle.ui_state(), ConnectionStateSnapshot::Failed { display_name, .. } if display_name == "Café")
    );
    lifecycle.connect(id("two"), "a".into(), "Café".into(), now);
    assert!(lifecycle.complete(
        id("two"),
        ConnectionOutcome::Connected {
            session: (),
            player_slot: 1
        }
    ));
    assert!(
        matches!(lifecycle.ui_state(), ConnectionStateSnapshot::Connected { display_name, .. } if display_name == "Café")
    );
}

#[test]
fn disconnect_is_connected_request_scoped() {
    let now = 0;
    let mut lifecycle = SessionLifecycle::<()>::new("x".into());
    lifecycle.connect(id("one"), "a".into(), "Rook".into(), now);
    assert!(lifecycle.complete(
        id("one"),
        ConnectionOutcome::Connected {
            session: (),
            player_slot: 1,
        }
    ));
    assert!(!lifecycle.disconnect(&id("stale")));
    assert!(lifecycle.disconnect(&id("one")));
    assert!(matches!(
        lifecycle.ui_state(),
        ConnectionStateSnapshot::Idle {
            reason: DisconnectedReason::UserDisconnected,
            ..
        }
    ));
}

#[test]
fn rejected_handshakes_and_deadlines() {
    let mut lifecycle = SessionLifecycle::<()>::new("x".into());
    assert_eq!(lifecycle.next_deadline(), None);
    lifecycle.connect(id("one"), "a".into(), "Rook".into(), 100);
    assert_eq!(lifecycle.next_deadline(), Some(100 + CONNECTION_TIMEOUT_MS));
    assert!(lifecycle
        .connect(id("two"), "a".into(), "Rook".into(), 100)
        .is_none());
    assert!(!lifecycle.timeout(100 + CONNECTION_TIMEOUT_MS - 1));
    assert!(lifecycle.complete(
        id("one"),
        ConnectionOutcome::Rejected(HandshakeOutcome::ServerFull)
    ));
    assert!(matches!(
        lifecycle.ui_state(),
        ConnectionStateSnapshot::Failed {
            reason: ConnectionFailureReason::ServerFull,
            ..
        }
    ));
    assert!(!lifecycle.is_connected());
    assert!(!lifecycle.session_lost());
}

#[test]
fn local_player_colours_follow_the_slot() {
    let two = local_player(2);
    assert_eq!(two.player_slot, 2);
    assert_eq!(two.color_hex, "#FF6A47");
    assert_eq!(local_player(1).color_hex, "#22CFE8");
}

#[test]
fn three_missed_acks_fail_the_bridge() {
    let now = 0;
    let mut bridge = UiBridge::new(BridgeHealthConfig {
        interval_ms: 1,
        missed_ack_threshold: 3,
    });
    bridge.ready(BridgeId::new("bridge-1".into()).unwrap(), now);
    assert!(bridge.due(now + 1).is_some());
    assert!(bridge.due(now + 2).is_some());
    assert!(bridge.due(now + 3).is_some());
    let _ = bridge.due(now + 4);
    assert!(bridge.failed());
}

#[test]
fn acknowledged_heartbeats_keep_the_bridge_healthy() {
    let mut bridge = UiBridge::new(BridgeHealthConfig::default());
    let id = BridgeId::new("bridge-1".into()).unwrap();
    assert!(!bridge.accepts(&id));
    bridge.ready(id, 0);
    assert_eq!(bridge.next_deadline(), Some(1000));
    assert_eq!(bridge.due(999), None);
    let sequence = bridge.due(1000).unwrap();
    let same = BridgeId::new("bridge-1".into()).unwrap();
    assert!(bridge.accepts(&same));
    assert!(!bridge.acknowledge(&same, sequence + 1));
    assert!(bridge.acknowledge(&same, sequence));
    for step in 2..10u64 {
        let sequence = bridge.due(step * 1000).unwrap();
        assert!(bridge.acknowledge(&same, sequence));
    }
    assert!(!bridge.failed());
}

#[test]
fn first_decision_is_immediate() {
    let mut a = CoarseActuator::default();
    let config = ActuationConfig {
        thrust_min_hold_ticks: 3,
        turn_left_min_hold_ticks: 2,
        turn_right_min_hold_ticks: 2,
        decision_cooldown_ticks: 4,
    };
    let thrust = ShipInput {
        thrust: true,
        ..Default::default()
    };
    assert!(a.apply(thrust, 0, config).thrust);
}

#[test]
fn holds_and_cooldown_are_enforced() {
    let config = ActuationConfig {
        thrust_min_hold_ticks: 3,
        turn_left_min_hold_ticks: 2,
        turn_right_min_hold_ticks: 2,
        decision_cooldown_ticks: 4,
    };
    let thrust = ShipInput {
        thrust: true,
        ..Default::default()
    };
    let mut a = CoarseActuator::default();
    assert!(a.apply(thrust, 0, config).thrust);
    assert!(a.apply(ShipInput::default(), 1, config).thrust);
    assert!(a.apply(ShipInput::default(), 3, config).thrust);
    assert!(!a.apply(ShipInput::default(), 4, config).thrust);
    a.apply(thrust, 5, config);
    assert!(!a.output().thrust);
    a.allow_immediate_decision(7);
    assert!(a.apply(thrust, 7, config).thrust);
    a.clear();
    assert_eq!(a.output(), ShipInput::default());
    assert_eq!(ActuationConfig::default().decision_cooldown_ticks, 18);
}

#[test]
fn controls_follow_the_key_history() {
    let mut c = InputController::default();
    c.press(ControlKey::Thrust);
    c.press(ControlKey::TurnLeft);
    c.suppress_held_movement_until_release();
    c.press(ControlKey::TurnRight);
    assert_eq!(c.controls(), ShipInput { thrust: false, turn_left: false, turn_right: true });
    c.release(ControlKey::Thrust);
    c.press(ControlKey::Thrust);
    assert_eq!(c.controls(), ShipInput { thrust: true, turn_left: false, turn_right: true });
    c.clear_for_focus_loss();
    assert_eq!(c.controls(), ShipInput { thrust: false, turn_left: false, turn_right: false });
}
