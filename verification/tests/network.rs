use spacegame2d::client_net::{
    expect_initial_world, expect_server_hello, expect_session, HandshakeFailure, NetworkState,
    ServerEvent,
};
use spacegame2d::command::{
    AuthoritativeCommand, CommandData, CommandRejected, CommandRejectionReason,
};
use spacegame2d::config::SimulationConfigError;
use spacegame2d::error::ProtocolError;
use spacegame2d::handshake::{Capability, HandshakeRejected, HandshakeRejectionReason, ServerHello};
use spacegame2d::match_presenter::MatchSessionPresenter;
use spacegame2d::message::Message;
use spacegame2d::objective::SIMULATION_HZ;
use spacegame2d::presentation::rejection_message;
use spacegame2d::session::{
    MatchTiming, OpponentPresence, PlayerColor, SessionParticipant, SessionSnapshot,
};
use spacegame2d::tick::Tick;
use spacegame2d::ui_protocol::{
    MatchSessionResetReason, MatchSessionState, OpponentPresence as HudPresence,
    PlayerColor as HudColor,
};
use spacegame2d::wire;
use spacegame2d::world_state::{InitialWorldState, StateChecksum};
use spacegame2d::SIMULATION_VERSION;

fn server_hello() -> ServerHello {
    ServerHello {
        simulation_version: SIMULATION_VERSION,
        simulation_hz: SIMULATION_HZ,
        player_slot: 1,
        server_tick: Tick::from(123),
        fleet_size: 30,
        world_radius_bits: 64.0_f32.to_bits(),
        capabilities: vec![Capability::StateChecksums, Capability::WorldSnapshots],
    }
}

fn session_snapshot(hello: &ServerHello) -> SessionSnapshot {
    SessionSnapshot {
        local_player_slot: hello.player_slot,
        participants: vec![SessionParticipant {
            player_slot: hello.player_slot,
            display_name: "Test Player".into(),
            color: PlayerColor::Cyan,
        }],
        opponent_presence: OpponentPresence::Waiting,
        presence_revision: 0,
        match_timing: MatchTiming::Inactive,
    }
}

fn active_session_snapshot(revision: u64) -> SessionSnapshot {
    SessionSnapshot {
        local_player_slot: 1,
        participants: vec![
            SessionParticipant {
                player_slot: 1,
                display_name: "Rook".into(),
                color: PlayerColor::Cyan,
            },
            SessionParticipant {
                player_slot: 2,
                display_name: "Nova".into(),
                color: PlayerColor::Coral,
            },
        ],
        opponent_presence: OpponentPresence::Present,
        presence_revision: revision,
        match_timing: MatchTiming::Active {
            started_at_tick: Tick::from(100),
        },
    }
}

fn world(tick: Tick) -> InitialWorldState {
    InitialWorldState {
        snapshot_format_version: 8,
        simulation_version: SIMULATION_VERSION,
        tick,
        world_radius_bits: 64.0_f32.to_bits(),
        next_unit_id: 61,
        unit_id_exhausted: false,
        units: vec![],
        state_hash: vec![0; 32],
        pending_commands: vec![],
    }
}

fn connected() -> NetworkState {
    let hello = server_hello();
    let (hello, config) = expect_server_hello(Message::ServerHello(hello)).unwrap();
    expect_initial_world(Message::InitialWorldState(world(hello.server_tick)), &hello).unwrap();
    let session =
        expect_session(Message::SessionSnapshot(session_snapshot(&hello)), &hello).unwrap();
    NetworkState::new(&hello, config, session)
}

#[test]
fn connect_returns_slot_and_tick() {
    let session = connected();
    assert_eq!(session.player_slot(), 1);
    assert_eq!(session.server_tick(), Tick::new(123));
    assert_eq!(session.local_tick(), Tick::new(123));
    assert_eq!(
        f32::from_bits(session.simulation_config().world_radius_bits()),
        64.0
    );
    assert!(session.checksum_enabled());
    assert_eq!(session.local_participant().display_name, "Test Player");
    assert_eq!(session.opponent_presence(), OpponentPresence::Waiting);
    assert_eq!(session.match_started_at(), None);
    assert_eq!(session.elapsed_match_seconds(), None);
}

#[test]
fn connect_rejects_wrong_version() {
    let mut hello = server_hello();
    hello.simulation_version = SIMULATION_VERSION + 1;
    assert_eq!(
        expect_server_hello(Message::ServerHello(hello)).unwrap_err(),
        HandshakeFailure::Protocol(ProtocolError::SimulationVersionMismatch)
    );
}

#[test]
fn connect_rejects_wrong_hz() {
    let mut hello = server_hello();
    hello.simulation_hz = SIMULATION_HZ + 1;
    assert_eq!(
        expect_server_hello(Message::ServerHello(hello)).unwrap_err(),
        HandshakeFailure::Protocol(ProtocolError::SimulationFrequencyMismatch)
    );
}

#[test]
fn connect_returns_typed_handshake_rejection() {
    let rejected = Message::HandshakeRejected(HandshakeRejected {
        reason: HandshakeRejectionReason::ServerFull,
    });
    assert_eq!(
        expect_server_hello(rejected.clone()).unwrap_err(),
        HandshakeFailure::Rejected(HandshakeRejectionReason::ServerFull)
    );
    let hello = server_hello();
    assert_eq!(
        expect_session(rejected, &hello).unwrap_err(),
        HandshakeFailure::Rejected(HandshakeRejectionReason::ServerFull)
    );
}

#[test]
fn handshake_replies_must_arrive_in_order_and_agree() {
    let hello = server_hello();
    assert_eq!(
        expect_server_hello(Message::SessionSnapshot(session_snapshot(&hello))).unwrap_err(),
        HandshakeFailure::Invalid("expected ServerHello")
    );
    assert_eq!(
        expect_initial_world(Message::InitialWorldState(world(Tick(5))), &hello).unwrap_err(),
        HandshakeFailure::Invalid("server hello and snapshot ticks differ")
    );
    assert_eq!(
        expect_initial_world(Message::ServerHello(hello.clone()), &hello).unwrap_err(),
        HandshakeFailure::Invalid("expected InitialWorldState")
    );
    let mut other = session_snapshot(&hello);
    other.local_player_slot = 2;
    assert_eq!(
        expect_session(Message::SessionSnapshot(other), &hello).unwrap_err(),
        HandshakeFailure::Invalid("server hello and session local slot differ")
    );
    let mut huge = server_hello();
    huge.fleet_size = u32::MAX;
    assert_eq!(
        expect_server_hello(Message::ServerHello(huge)).unwrap_err(),
        HandshakeFailure::Config(SimulationConfigError::FleetSizeTooLarge)
    );
}

#[test]
fn register_player_rejects_invalid_slot() {
    let mut hello = server_hello();
    hello.player_slot = u32::from(u8::MAX) + 1;
    let mut session = session_snapshot(&hello);
    session.participants[0].color = PlayerColor::Coral;
    let state = NetworkState::new(&hello, expect_server_hello(Message::ServerHello(server_hello())).unwrap().1, session);
    assert_eq!(state.player_id().unwrap_err(), "server assigned invalid player slot");
    assert_eq!(connected().player_id().unwrap().0, 1);
}

#[test]
fn poll_events_returns_authoritative_and_rejected_messages_and_ignores_others() {
    let authoritative = AuthoritativeCommand {
        execute_tick: Tick::from(9),
        player_slot: 1,
        sequence: 3,
        command: CommandData::ResetSimulation,
    };
    let rejected = CommandRejected {
        sequence: 4,
        reason: CommandRejectionReason::InvalidCommand,
    };
    let mut session = connected();
    let mut events = Vec::new();
    for message in [
        Message::StateChecksum(StateChecksum {
            tick: Tick::from(9),
            hash: vec![1],
        }),
        Message::AuthoritativeCommand(authoritative.clone()),
        Message::CommandRejected(rejected.clone()),
    ] {
        events.extend(session.receive(message).unwrap());
    }
    assert_eq!(
        events,
        vec![
            ServerEvent::Authoritative(authoritative),
            ServerEvent::Rejected(rejected)
        ]
    );
}

#[test]
fn session_updates_ignore_stale_revisions_and_derive_elapsed_seconds() {
    let newer = active_session_snapshot(2);
    let stale = active_session_snapshot(1);
    let mut session = connected();
    let mut events = Vec::new();
    for message in [
        Message::SessionSnapshot(newer.clone()),
        Message::SessionSnapshot(stale),
    ] {
        events.extend(session.receive(message).unwrap());
    }
    assert_eq!(events, vec![ServerEvent::SessionStateChanged(newer)]);
    assert_eq!(session.session_snapshot().presence_revision, 2);
    session.set_local_tick(Tick::from(159));
    assert_eq!(session.elapsed_match_seconds(), Some(0));
    session.set_local_tick(Tick::from(160));
    assert_eq!(session.elapsed_match_seconds(), Some(1));
    session.set_local_tick(Tick::from(219));
    assert_eq!(session.elapsed_match_seconds(), Some(1));
    session.set_local_tick(Tick::from(50));
    assert_eq!(session.elapsed_match_ticks(), Some(Tick(0)));
}

#[test]
fn session_updates_for_another_slot_are_errors() {
    let mut session = connected();
    let mut foreign = active_session_snapshot(5);
    foreign.local_player_slot = 2;
    assert_eq!(
        session.receive(Message::SessionSnapshot(foreign)).unwrap_err(),
        "session update local slot differs"
    );
    assert_eq!(session.session_snapshot().presence_revision, 0);
}

#[test]
fn envelopes_are_decoded_before_they_are_handled() {
    let mut session = connected();
    assert_eq!(
        session
            .receive_envelope(wire::Envelope { payload: None })
            .unwrap_err(),
        "missing envelope payload"
    );
    let envelope = wire::Envelope::from_message(&Message::SessionSnapshot(active_session_snapshot(3)));
    assert_eq!(
        session.receive_envelope(envelope).unwrap(),
        Some(ServerEvent::SessionStateChanged(active_session_snapshot(3)))
    );
}

#[test]
fn presenter_shows_waiting_then_the_running_match() {
    let mut session = connected();
    let mut presenter = MatchSessionPresenter::default();
    assert_eq!(
        presenter.state(),
        &MatchSessionState::Reset {
            sequence: 0,
            reason: MatchSessionResetReason::Startup
        }
    );
    match presenter.update(&session).unwrap() {
        MatchSessionState::Waiting {
            sequence,
            local_player,
            opponent_presence,
            presence_revision,
        } => {
            assert_eq!(*sequence, 1);
            assert_eq!(local_player.display_name, "Test Player");
            assert_eq!(local_player.color, HudColor::Cyan);
            assert_eq!(local_player.color_hex, "#22CFE8");
            assert_eq!(*opponent_presence, HudPresence::Waiting);
            assert_eq!(*presence_revision, 0);
        }
        other => panic!("unexpected {other:?}"),
    }
    session.receive(Message::SessionSnapshot(active_session_snapshot(1))).unwrap();
    session.set_local_tick(Tick(220));
    match presenter.update(&session).unwrap() {
        MatchSessionState::Active {
            sequence,
            opponent_player,
            clock,
            ..
        } => {
            assert_eq!(*sequence, 2);
            assert_eq!(opponent_player.display_name, "Nova");
            assert_eq!(opponent_player.color_hex, "#FF6A47");
            assert_eq!(clock.started_at_tick, 100);
            assert_eq!(clock.current_tick, 220);
            assert_eq!(clock.ticks_per_second, 60);
            assert_eq!(clock.elapsed_whole_seconds, 2);
        }
        other => panic!("unexpected {other:?}"),
    }
    assert!(presenter.update_if_elapsed_changed(&session).unwrap().is_none());
    session.set_local_tick(Tick(280));
    assert!(presenter.update_if_elapsed_changed(&session).unwrap().is_some());
    let mut away = active_session_snapshot(2);
    away.participants.truncate(1);
    away.opponent_presence = OpponentPresence::Disconnected;
    session.receive(Message::SessionSnapshot(away)).unwrap();
    match presenter.update(&session).unwrap() {
        MatchSessionState::Active {
            opponent_player,
            opponent_presence,
            ..
        } => {
            assert_eq!(opponent_player.display_name, "Nova");
            assert_eq!(*opponent_presence, HudPresence::Disconnected);
        }
        other => panic!("unexpected {other:?}"),
    }
    assert_eq!(
        presenter.reset(MatchSessionResetReason::SessionLost),
        &MatchSessionState::Reset {
            sequence: 5,
            reason: MatchSessionResetReason::SessionLost
        }
    );
}

#[test]
fn rejection_messages_name_the_reason() {
    assert_eq!(
        rejection_message(CommandRejectionReason::DestinationOutsideArena),
        "Command rejected: outside arena"
    );
    assert_eq!(
        rejection_message(CommandRejectionReason::NonFiniteDestination),
        "Command rejected: invalid destination"
    );
}
