use spacegame2d::text::trim;
use spacegame2d::command::{
    AuthoritativeCommand, CommandData, CommandRejected, CommandRejectionReason, CommandRequest,
};
use spacegame2d::error::ProtocolError;
use spacegame2d::framing::{encode_frame, FrameDecoder, MAX_FRAME_BYTES};
use spacegame2d::handshake::{
    Capability, ClientHello, HandshakeRejected, HandshakeRejectionReason, ServerHello,
};
use spacegame2d::identity::{DisplayName, DisplayNameError};
use spacegame2d::message::Message;
use spacegame2d::session::{
    MatchTiming, OpponentPresence, PlayerColor, SessionParticipant, SessionSnapshot,
};
use spacegame2d::tick::Tick;
use spacegame2d::wire;
use spacegame2d::world_state::StateChecksum;
use spacegame2d::SIMULATION_VERSION;

fn round_trip(message: &Message) -> Result<Message, ProtocolError> {
    Message::try_from_envelope(wire::Envelope::from_message(message))
}

#[test]
fn handshake_rejections_bump_simulation_version() {
    assert_eq!(SIMULATION_VERSION, 19);
}

#[test]
fn display_names_are_canonicalized_and_validated() {
    assert_eq!(
        DisplayName::try_from("  Cafe\u{301}  ").unwrap().as_str(),
        "Café"
    );
    assert_eq!(
        DisplayName::try_from("\u{1f680}").unwrap().as_str(),
        "\u{1f680}"
    );
    assert_eq!(
        DisplayName::try_from("   ").unwrap_err(),
        DisplayNameError::Required
    );
    assert_eq!(
        DisplayName::try_from("A\u{200d}B").unwrap_err(),
        DisplayNameError::ContainsControlOrFormat
    );
    assert_eq!(
        DisplayName::try_from("x".repeat(25)).unwrap_err(),
        DisplayNameError::TooLong
    );
}

#[test]
fn display_name_limit_counts_graphemes() {
    assert_eq!(DisplayName::try_from("x".repeat(24)).unwrap().as_str(), "x".repeat(24));
    // Each flag is one grapheme made of two scalar values.
    let flags = "\u{1f1eb}\u{1f1f7}".repeat(24);
    assert_eq!(DisplayName::try_from(flags.as_str()).unwrap().as_str(), flags);
    assert_eq!(
        DisplayName::try_from("\t\n").unwrap_err(),
        DisplayNameError::Required
    );
}

fn destination() -> CommandData {
    CommandData::SetDestination {
        destination: [0x8000_0000, 0x0000_0001],
        target_unit_ids: vec![],
    }
}

#[test]
fn all_messages_round_trip() {
    let messages = [
        Message::ClientHello(ClientHello {
            simulation_version: SIMULATION_VERSION,
            capabilities: vec![Capability::StateChecksums, Capability::WorldSnapshots],
            display_name: "Rook".into(),
        }),
        Message::ServerHello(ServerHello {
            simulation_version: SIMULATION_VERSION,
            simulation_hz: 60,
            player_slot: 2,
            server_tick: Tick::from(9),
            fleet_size: 30,
            world_radius_bits: 64.0_f32.to_bits(),
            capabilities: vec![],
        }),
        Message::CommandRequest(CommandRequest {
            sequence: 4,
            command: destination(),
        }),
        Message::AuthoritativeCommand(AuthoritativeCommand {
            execute_tick: Tick::from(11),
            player_slot: 2,
            sequence: 4,
            command: CommandData::ResetSimulation,
        }),
        Message::CommandRejected(CommandRejected {
            sequence: 8,
            reason: CommandRejectionReason::DestinationOutsideArena,
        }),
        Message::StateChecksum(StateChecksum {
            tick: Tick::from(60),
            hash: (0..32).collect(),
        }),
        Message::HandshakeRejected(HandshakeRejected {
            reason: HandshakeRejectionReason::ServerFull,
        }),
        Message::SessionSnapshot(SessionSnapshot {
            local_player_slot: 1,
            participants: vec![SessionParticipant {
                player_slot: 1,
                display_name: "Rook".into(),
                color: PlayerColor::Cyan,
            }],
            opponent_presence: OpponentPresence::Waiting,
            presence_revision: 0,
            match_timing: MatchTiming::Inactive,
        }),
    ];
    for message in messages {
        assert_eq!(round_trip(&message).unwrap(), message);
    }
}

#[test]
fn session_snapshot_rejects_noncanonical_or_inconsistent_state() {
    let mut snapshot = SessionSnapshot {
        local_player_slot: 1,
        participants: vec![SessionParticipant {
            player_slot: 1,
            display_name: "Cafe\u{301}".into(),
            color: PlayerColor::Cyan,
        }],
        opponent_presence: OpponentPresence::Waiting,
        presence_revision: 0,
        match_timing: MatchTiming::Inactive,
    };
    assert_eq!(
        snapshot.validate().unwrap_err(),
        ProtocolError::NoncanonicalSessionDisplayName
    );
    snapshot.participants[0].display_name = "Café".into();
    snapshot.opponent_presence = OpponentPresence::Present;
    assert_eq!(
        snapshot.validate().unwrap_err(),
        ProtocolError::InconsistentSessionState
    );
}

#[test]
fn session_snapshot_errors_name_each_defect() {
    let participant = |slot: u32, name: &str, color: PlayerColor| SessionParticipant {
        player_slot: slot,
        display_name: name.into(),
        color,
    };
    let snapshot = |local: u32, participants: Vec<SessionParticipant>| SessionSnapshot {
        local_player_slot: local,
        participants,
        opponent_presence: OpponentPresence::Present,
        presence_revision: 3,
        match_timing: MatchTiming::Active {
            started_at_tick: Tick(20),
        },
    };
    let valid = snapshot(
        2,
        vec![
            participant(1, "Rook", PlayerColor::Cyan),
            participant(2, "Nova", PlayerColor::Coral),
        ],
    );
    assert_eq!(valid.validate(), Ok(()));
    assert_eq!(valid.local_participant().display_name, "Nova");
    assert_eq!(
        snapshot(3, vec![participant(1, "Rook", PlayerColor::Cyan)]).validate(),
        Err(ProtocolError::InvalidSessionRoster)
    );
    assert_eq!(
        snapshot(
            1,
            vec![
                participant(2, "Nova", PlayerColor::Coral),
                participant(1, "Rook", PlayerColor::Cyan),
            ]
        )
        .validate(),
        Err(ProtocolError::InvalidSessionParticipantSlots)
    );
    assert_eq!(
        snapshot(1, vec![participant(1, "   ", PlayerColor::Cyan)]).validate(),
        Err(ProtocolError::InvalidSessionDisplayName)
    );
    assert_eq!(
        snapshot(1, vec![participant(1, "Rook", PlayerColor::Coral)]).validate(),
        Err(ProtocolError::InvalidSessionParticipantColor)
    );
    assert_eq!(
        snapshot(1, vec![participant(2, "Nova", PlayerColor::Coral)]).validate(),
        Err(ProtocolError::SessionLocalPlayerMissing)
    );
}

#[test]
fn fragmented_and_multiple_frames_decode() {
    let message = Message::CommandRequest(CommandRequest {
        sequence: 1,
        command: destination(),
    });
    assert_eq!(round_trip(&message).unwrap(), message);
    let body = vec![0x1a, 0x04, 0x08, 0x01, 0x12, 0x00];
    let bytes = encode_frame(&body).unwrap();
    assert_eq!(bytes, vec![0, 0, 0, 6, 0x1a, 0x04, 0x08, 0x01, 0x12, 0x00]);
    let mut decoder = FrameDecoder::new();
    assert!(decoder.push(&bytes[..2]).unwrap().is_empty());
    assert_eq!(decoder.push(&bytes[2..]).unwrap(), vec![body.clone()]);
    assert_eq!(decoder.push(&bytes).unwrap(), vec![body.clone()]);
    let mut twice = bytes.clone();
    twice.extend_from_slice(&bytes);
    assert_eq!(decoder.push(&twice).unwrap(), vec![body.clone(), body]);
}

#[test]
fn invalid_lengths_and_missing_payloads_rejected() {
    let mut decoder = FrameDecoder::new();
    assert_eq!(
        decoder.push(&[0, 0, 0, 0]).unwrap_err(),
        ProtocolError::InvalidFrameSize
    );
    let mut decoder = FrameDecoder::new();
    let oversized = (MAX_FRAME_BYTES + 1).to_be_bytes().to_vec();
    assert_eq!(
        decoder.push(&oversized).unwrap_err(),
        ProtocolError::InvalidFrameSize
    );
    assert_eq!(
        encode_frame(&[]).unwrap_err(),
        ProtocolError::InvalidFrameSize
    );
    assert_eq!(
        Message::try_from_envelope(wire::Envelope { payload: None }).unwrap_err(),
        ProtocolError::MissingEnvelopePayload
    );
}

#[test]
fn state_checksum_accepts_malformed_for_server_validation() {
    let envelope = wire::Envelope {
        payload: Some(wire::EnvelopePayload::StateChecksum(wire::StateChecksum {
            tick: 60,
            hash: vec![0; 31],
        })),
    };
    assert!(
        matches!(Message::try_from_envelope(envelope).unwrap(), Message::StateChecksum(StateChecksum { hash, .. }) if hash.len() == 31)
    );
}

#[test]
fn missing_command_payload_reaches_empty_command_branch() {
    let envelope = wire::Envelope {
        payload: Some(wire::EnvelopePayload::CommandRequest(wire::CommandRequest {
            sequence: 1,
            command: Some(wire::Command { payload: None }),
        })),
    };
    let error = Message::try_from_envelope(envelope).unwrap_err();
    assert_eq!(error, ProtocolError::MissingCommandPayload);
    assert_eq!(error.message(), "missing command payload");
}

#[test]
fn exact_float_bits_and_unknown_capabilities_survive() {
    let message = Message::CommandRequest(CommandRequest {
        sequence: 2,
        command: CommandData::SetDestination {
            destination: [f32::NAN.to_bits(), f32::INFINITY.to_bits()],
            target_unit_ids: vec![],
        },
    });
    assert_eq!(round_trip(&message).unwrap(), message);
    let envelope = wire::Envelope {
        payload: Some(wire::EnvelopePayload::ClientHello(wire::ClientHello {
            simulation_version: SIMULATION_VERSION,
            supported_capabilities: vec![1, 999],
            display_name: "Rook".into(),
        })),
    };
    assert_eq!(
        Message::try_from_envelope(envelope).unwrap(),
        Message::ClientHello(ClientHello {
            simulation_version: SIMULATION_VERSION,
            capabilities: vec![Capability::StateChecksums],
            display_name: "Rook".into(),
        })
    );
}

#[test]
fn unknown_enumeration_codes_are_refused() {
    let rejected = wire::Envelope {
        payload: Some(wire::EnvelopePayload::CommandRejected(wire::CommandRejected {
            sequence: 1,
            reason: 99,
        })),
    };
    assert_eq!(
        Message::try_from_envelope(rejected).unwrap_err(),
        ProtocolError::InvalidCommandRejectionReason
    );
    let handshake = wire::Envelope {
        payload: Some(wire::EnvelopePayload::HandshakeRejected(wire::HandshakeRejected {
            reason: 0,
        })),
    };
    assert_eq!(
        Message::try_from_envelope(handshake).unwrap_err(),
        ProtocolError::InvalidHandshakeRejectionReason
    );
    let no_destination = wire::Envelope {
        payload: Some(wire::EnvelopePayload::CommandRequest(wire::CommandRequest {
            sequence: 1,
            command: Some(wire::Command {
                payload: Some(wire::CommandPayload::SetDestination(
                    wire::SetDestinationCommand { destination: None, target_unit_ids: vec![] },
                )),
            }),
        })),
    };
    assert_eq!(
        Message::try_from_envelope(no_destination).unwrap_err(),
        ProtocolError::MissingDestination
    );
}

#[test]
fn server_hello_validation_names_each_defect() {
    let hello = || ServerHello {
        simulation_version: SIMULATION_VERSION,
        simulation_hz: 60,
        player_slot: 1,
        server_tick: Tick(0),
        fleet_size: 30,
        world_radius_bits: 64.0_f32.to_bits(),
        capabilities: vec![Capability::StateChecksums, Capability::WorldSnapshots],
    };
    assert_eq!(hello().validate(60), Ok(()));
    let mut h = hello();
    h.simulation_version = SIMULATION_VERSION - 1;
    assert_eq!(h.validate(60), Err(ProtocolError::SimulationVersionMismatch));
    assert_eq!(hello().validate(30), Err(ProtocolError::SimulationFrequencyMismatch));
    let mut h = hello();
    h.player_slot = 0;
    assert_eq!(h.validate(60), Err(ProtocolError::InvalidPlayerSlot));
    let mut h = hello();
    h.fleet_size = 0;
    assert_eq!(h.validate(60), Err(ProtocolError::InvalidFleetSize));
    let mut h = hello();
    h.world_radius_bits = f32::NAN.to_bits();
    assert_eq!(h.validate(60), Err(ProtocolError::InvalidWorldRadius));
    let mut h = hello();
    h.capabilities = vec![Capability::WorldSnapshots];
    assert_eq!(h.validate(60), Err(ProtocolError::MissingStateChecksums));
    let mut h = hello();
    h.capabilities = vec![Capability::StateChecksums];
    assert_eq!(h.validate(60), Err(ProtocolError::MissingWorldSnapshots));
}

#[test]
fn handshake_validation() {
    assert!(ClientHello {
        simulation_version: SIMULATION_VERSION,
        capabilities: vec![Capability::StateChecksums, Capability::WorldSnapshots],
        display_name: "Rook".into(),
    }
    .is_compatible());
    assert!(!(ClientHello {
        simulation_version: SIMULATION_VERSION - 1,
        capabilities: vec![Capability::StateChecksums, Capability::WorldSnapshots],
        display_name: "Rook".into(),
    }
    .is_compatible()));
}

#[test]
fn scheduling_tick_math() {
    assert_eq!(
        Tick::from(40).increment(spacegame2d::server::command_input_delay()),
        Tick::from(42)
    );
    assert_eq!(Tick::from(u64::MAX).increment(Tick(2)), Tick(u64::MAX));
    assert_eq!(Tick::from(140) - Tick::from(20), Tick::from(120));
    assert_eq!(Tick::from(5).decrement(Tick(9)), Tick(0));
}

#[test]
fn destination_target_units_round_trip() {
    let message = Message::AuthoritativeCommand(AuthoritativeCommand {
        execute_tick: Tick::from(12),
        player_slot: 1,
        sequence: 3,
        command: CommandData::SetDestination {
            destination: [1.5_f32.to_bits(), (-2.0_f32).to_bits()],
            target_unit_ids: vec![3, 7, 12],
        },
    });
    assert_eq!(round_trip(&message).unwrap(), message);
}

#[test]
fn standard_conversions_match_the_named_ones() {
    let message = Message::CommandRequest(CommandRequest {
        sequence: 8,
        command: CommandData::SetDestination { destination: [1, 2], target_unit_ids: vec![5] },
    });
    let envelope = wire::Envelope::from(&message);
    assert_eq!(envelope, wire::Envelope::from_message(&message));
    assert_eq!(Message::try_from(envelope).unwrap(), message);
    assert_eq!(
        Message::try_from(wire::Envelope { payload: None }).unwrap_err(),
        ProtocolError::MissingEnvelopePayload
    );
}

#[test]
fn trimming_follows_the_white_space_property() {
    for code in (0u32..0x3100).chain([0x85, 0xa0, 0x1680, 0x2028, 0x2029, 0x202f, 0x205f, 0x3000, 0xfeff, 0x200b]) {
        if let Some(c) = char::from_u32(code) {
            let text = c.to_string();
            assert_eq!(trim(&text).is_empty(), c.is_whitespace(), "U+{code:04X}");
        }
    }
    assert_eq!(trim("\u{3000} Ada \u{85}"), "Ada");
}
