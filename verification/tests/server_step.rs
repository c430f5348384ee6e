use spacegame2d::command::{
    AuthoritativeCommand, CommandData, CommandRejected, CommandRejectionReason, CommandRequest,
};
use spacegame2d::config::SimulationConfig;
use spacegame2d::handshake::{
    Capability, ClientHello, HandshakeRejected, HandshakeRejectionReason, ServerHello,
};
use spacegame2d::ids::PlayerId;
use spacegame2d::message::Message;
use spacegame2d::server_step::{handle_client_message, new_connection, ServerClient, ServerOutput};
use spacegame2d::tick::Tick;
use spacegame2d::SIMULATION_VERSION;

fn hello(name: &str) -> Message {
    Message::ClientHello(ClientHello {
        simulation_version: SIMULATION_VERSION,
        capabilities: vec![Capability::WorldSnapshots, Capability::StateChecksums],
        display_name: name.into(),
    })
}

fn joined_client(slot: u32) -> ServerClient {
    let mut client = new_connection(&vec![]).unwrap();
    client.slot = slot;
    let config = SimulationConfig::default();
    let mut cutover = false;
    let outcome = handle_client_message(&mut client, &mut cutover, hello("Rook"), Tick(3), &config, &[], &[], false);
    assert_eq!(outcome.joined.as_deref(), Some("Rook"));
    client
}

#[test]
fn new_connections_take_the_lowest_free_slot_or_are_told_the_server_is_full() {
    assert_eq!(new_connection(&vec![]).unwrap().slot, 1);
    assert_eq!(new_connection(&vec![1]).unwrap().slot, 2);
    assert_eq!(new_connection(&vec![2]).unwrap().slot, 1);
    assert_eq!(
        new_connection(&vec![1, 2]).unwrap_err(),
        Message::HandshakeRejected(HandshakeRejected { reason: HandshakeRejectionReason::ServerFull })
    );
}

#[test]
fn a_first_message_other_than_hello_is_an_invalid_handshake() {
    let mut client = new_connection(&vec![]).unwrap();
    let mut cutover = false;
    let outcome = handle_client_message(
        &mut client,
        &mut cutover,
        Message::CommandRequest(CommandRequest { sequence: 1, command: CommandData::ResetSimulation }),
        Tick(0),
        &SimulationConfig::default(),
        &[],
        &[],
        false,
    );
    assert!(matches!(
        outcome.outputs.as_slice(),
        [ServerOutput::ToSender(Message::HandshakeRejected(HandshakeRejected {
            reason: HandshakeRejectionReason::InvalidHandshake
        }))]
    ));
    assert!(client.closing_after_flush);
    assert!(!client.connected);
}

#[test]
fn rejected_hellos_name_their_reason() {
    let config = SimulationConfig::default();
    let cases = [
        (
            Message::ClientHello(ClientHello {
                simulation_version: SIMULATION_VERSION + 1,
                capabilities: vec![Capability::WorldSnapshots, Capability::StateChecksums],
                display_name: "Rook".into(),
            }),
            HandshakeRejectionReason::IncompatibleVersion,
        ),
        (
            Message::ClientHello(ClientHello {
                simulation_version: SIMULATION_VERSION,
                capabilities: vec![Capability::WorldSnapshots],
                display_name: "Rook".into(),
            }),
            HandshakeRejectionReason::MissingRequiredCapability,
        ),
        (hello("   "), HandshakeRejectionReason::InvalidHandshake),
    ];
    for (message, reason) in cases {
        let mut client = new_connection(&vec![]).unwrap();
        let mut cutover = false;
        let outcome = handle_client_message(&mut client, &mut cutover, message, Tick(0), &config, &[], &[], false);
        match outcome.outputs.as_slice() {
            [ServerOutput::ToSender(Message::HandshakeRejected(rejected))] => assert_eq!(rejected.reason, reason),
            other => panic!("unexpected outputs {other:?}"),
        }
        assert!(client.closing_after_flush);
        assert!(outcome.joined.is_none());
    }
}

#[test]
fn an_accepted_hello_gets_the_server_hello_then_the_world() {
    let config = SimulationConfig::new(12).unwrap().with_world_radius_bits(80.0_f32.to_bits()).unwrap();
    let mut client = new_connection(&vec![1]).unwrap();
    let mut cutover = false;
    let outcome = handle_client_message(&mut client, &mut cutover, hello("  Ada  "), Tick(77), &config, &[], &[], false);
    match outcome.outputs.as_slice() {
        [ServerOutput::ToSender(Message::ServerHello(server_hello)), ServerOutput::InitialWorldToSender] => {
            assert_eq!(
                server_hello,
                &ServerHello {
                    simulation_version: SIMULATION_VERSION,
                    simulation_hz: 60,
                    player_slot: 2,
                    server_tick: Tick(77),
                    fleet_size: 12,
                    world_radius_bits: 80.0_f32.to_bits(),
                    capabilities: vec![Capability::StateChecksums, Capability::WorldSnapshots],
                }
            );
        }
        other => panic!("unexpected outputs {other:?}"),
    }
    assert_eq!(outcome.joined.as_deref(), Some("Ada"));
    assert!(client.connected && client.checksum_enabled);
    assert_eq!(client.display_name.as_deref(), Some("Ada"));
}

#[test]
fn rejections_go_to_the_sender_and_accepted_commands_to_everyone() {
    let mut client = joined_client(1);
    let config = SimulationConfig::default();
    let owners = [Some(PlayerId(1)), Some(PlayerId(2))];
    let players = [PlayerId(1), PlayerId(2)];
    let mut cutover = false;
    let request = |sequence: u32, x: f32| {
        Message::CommandRequest(CommandRequest {
            sequence,
            command: CommandData::SetDestination { destination: [x.to_bits(), 0], target_unit_ids: vec![4] },
        })
    };
    let outcome = handle_client_message(&mut client, &mut cutover, request(5, f32::NAN), Tick(10), &config, &owners, &players, false);
    assert!(matches!(
        outcome.outputs.as_slice(),
        [ServerOutput::ToSender(Message::CommandRejected(CommandRejected {
            sequence: 5,
            reason: CommandRejectionReason::NonFiniteDestination
        }))]
    ));
    assert!(outcome.scheduled.is_none());
    let outcome = handle_client_message(&mut client, &mut cutover, request(6, 500.0), Tick(10), &config, &owners, &players, true);
    assert!(matches!(
        outcome.outputs.as_slice(),
        [ServerOutput::ToSender(Message::CommandRejected(CommandRejected {
            sequence: 6,
            reason: CommandRejectionReason::DestinationOutsideArena
        }))]
    ));
    let outcome = handle_client_message(&mut client, &mut cutover, request(7, 1.0), Tick(10), &config, &owners, &players, false);
    let expected = AuthoritativeCommand {
        execute_tick: Tick(12),
        player_slot: 1,
        sequence: 7,
        command: CommandData::SetDestination { destination: [1.0_f32.to_bits(), 0], target_unit_ids: vec![4] },
    };
    match outcome.outputs.as_slice() {
        [ServerOutput::ToEveryConnected(Message::AuthoritativeCommand(command))] => assert_eq!(command, &expected),
        other => panic!("unexpected outputs {other:?}"),
    }
    assert_eq!(outcome.scheduled, Some(expected));
    assert!(!outcome.reset && !cutover);
}

#[test]
fn an_accepted_reset_cuts_over_the_round() {
    let mut client = joined_client(2);
    let config = SimulationConfig::default();
    let players = [PlayerId(1), PlayerId(2)];
    let mut cutover = false;
    let reset = Message::CommandRequest(CommandRequest { sequence: 9, command: CommandData::ResetSimulation });
    let outcome = handle_client_message(&mut client, &mut cutover, reset.clone(), Tick(30), &config, &[], &players, false);
    assert!(outcome.reset && cutover);
    assert_eq!(outcome.scheduled.as_ref().unwrap().execute_tick, Tick(30));
    let outcome = handle_client_message(&mut client, &mut cutover, reset, Tick(30), &config, &[], &players, false);
    assert!(outcome.outputs.is_empty() && outcome.scheduled.is_none() && !outcome.reset);
}

#[test]
fn checksum_reports_are_handed_to_the_ledger_once_enabled() {
    let mut client = joined_client(1);
    let mut cutover = false;
    let report = Message::StateChecksum(spacegame2d::world_state::StateChecksum { tick: Tick(60), hash: vec![1, 2] });
    let outcome = handle_client_message(&mut client, &mut cutover, report.clone(), Tick(61), &SimulationConfig::default(), &[], &[], false);
    assert_eq!(outcome.checksum, Some((Tick(60), vec![1, 2])));
    client.checksum_enabled = false;
    let outcome = handle_client_message(&mut client, &mut cutover, report, Tick(61), &SimulationConfig::default(), &[], &[], false);
    assert!(outcome.checksum.is_none() && outcome.outputs.is_empty());
}
