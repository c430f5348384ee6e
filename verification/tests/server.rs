use spacegame2d::config::SimulationConfig;
use spacegame2d::server::fleet_config_from_setting;
use spacegame2d::text::parse_u32;
use spacegame2d::checksum::{ChecksumLedger, StateHashHistory};
use spacegame2d::command::{CommandData, CommandRejectionReason, CommandRequest};
use spacegame2d::handshake::{Capability, ClientHello, HandshakeRejectionReason};
use spacegame2d::ids::PlayerId;
use spacegame2d::match_session::{MatchSession, SessionDelivery};
use spacegame2d::server::{
    build_git_sha, bytes_equal, checksum_divergence, first_free_slot, handshake_decision,
    hex_hash, request_precheck, schedule_request, ChecksumResult,
};
use spacegame2d::session::{MatchTiming, OpponentPresence};
use spacegame2d::tick::Tick;
use spacegame2d::SIMULATION_VERSION;

#[test]
fn build_git_sha_uses_a_stable_local_fallback() {
    assert_eq!(build_git_sha(Some("0123456789abcdef")), "0123456789abcdef");
    assert_eq!(build_git_sha(None), "unknown");
}

#[test]
fn deliberate_checksum_difference_is_detected() {
    let expected = [0u8; 32];
    let mut different = expected;
    different[0] = 1;
    let divergence = checksum_divergence(Tick::from(60), &expected, &different).unwrap();
    assert_eq!(divergence.tick, Tick::from(60));
    assert_eq!(divergence.server_hash, expected);
    assert_eq!(divergence.client_hash, different);
    assert!(checksum_divergence(Tick::from(60), &expected, &expected).is_none());
    assert!(checksum_divergence(Tick::from(60), &expected, &expected[..31]).is_some());
}

#[test]
fn hashes_render_as_lowercase_hex() {
    assert_eq!(hex_hash(&[0x00, 0x0f, 0xa0, 0xff]), "000fa0ff");
    assert_eq!(hex_hash(&[]), "");
    assert!(bytes_equal(&[1, 2], &[1, 2]));
    assert!(!bytes_equal(&[1, 2], &[1]));
}

#[test]
fn slots_fill_from_the_lowest() {
    assert_eq!(first_free_slot(&vec![]), Some(1));
    assert_eq!(first_free_slot(&vec![1]), Some(2));
    assert_eq!(first_free_slot(&vec![2]), Some(1));
    assert_eq!(first_free_slot(&vec![2, 1]), None);
}

#[test]
fn handshakes_are_judged_in_order() {
    let hello = |version: u32, capabilities: Vec<Capability>, name: &str| ClientHello {
        simulation_version: version,
        capabilities,
        display_name: name.into(),
    };
    let both = vec![Capability::StateChecksums, Capability::WorldSnapshots];
    assert_eq!(
        handshake_decision(&hello(SIMULATION_VERSION, both.clone(), "  Rook "))
            .unwrap()
            .as_str(),
        "Rook"
    );
    assert_eq!(
        handshake_decision(&hello(SIMULATION_VERSION - 1, vec![], "   ")).unwrap_err(),
        HandshakeRejectionReason::IncompatibleVersion
    );
    assert_eq!(
        handshake_decision(&hello(SIMULATION_VERSION, vec![Capability::WorldSnapshots], "Rook"))
            .unwrap_err(),
        HandshakeRejectionReason::MissingRequiredCapability
    );
    assert_eq!(
        handshake_decision(&hello(SIMULATION_VERSION, both, "   ")).unwrap_err(),
        HandshakeRejectionReason::InvalidHandshake
    );
}

#[test]
fn ownership_and_nan_are_rejected() {
    let owners = vec![Some(PlayerId(1)), None];
    let request = CommandRequest {
        sequence: 1,
        command: CommandData::SetDestination {
            destination: [f32::NAN.to_bits(), 0],
            target_unit_ids: vec![],
        },
    };
    assert_eq!(
        request_precheck(1, &request, &owners, &[]),
        Some(CommandRejectionReason::NonFiniteDestination)
    );
    assert_eq!(
        request_precheck(2, &request, &owners, &[]),
        Some(CommandRejectionReason::UnauthorizedFleet)
    );
    let finite = CommandRequest {
        sequence: 1,
        command: CommandData::SetDestination {
            destination: [3.0_f32.to_bits(), (-2.0_f32).to_bits()],
            target_unit_ids: vec![],
        },
    };
    assert_eq!(request_precheck(1, &finite, &owners, &[]), None);
}

#[test]
fn commands_are_scheduled_after_the_input_delay_and_resets_at_once() {
    let request = CommandRequest {
        sequence: 7,
        command: CommandData::SetDestination { destination: [0, 0], target_unit_ids: vec![] },
    };
    let scheduled = schedule_request(2, &request, Tick(40));
    assert_eq!(scheduled.execute_tick, Tick(42));
    assert_eq!(scheduled.player_slot, 2);
    assert_eq!(scheduled.sequence, 7);
    let reset = CommandRequest {
        sequence: 8,
        command: CommandData::ResetSimulation,
    };
    assert_eq!(schedule_request(1, &reset, Tick(40)).execute_tick, Tick(40));
}

#[test]
fn checksum_reports_are_classified() {
    let mut history = StateHashHistory::new();
    history.record(Tick(60), [7; 32]);
    let mut ledger = ChecksumLedger::new();
    assert_eq!(
        ledger.report(Tick(60), vec![7; 31], &history, Tick(61)),
        Some(ChecksumResult::Malformed {
            tick: Tick(60),
            length: 31
        })
    );
    assert_eq!(
        ledger.report(Tick(60), vec![7; 32], &history, Tick(61)),
        Some(ChecksumResult::Match { tick: Tick(60) })
    );
    assert_eq!(
        ledger.report(Tick(60), vec![7; 32], &history, Tick(61)),
        Some(ChecksumResult::Duplicate { tick: Tick(60) })
    );
    assert_eq!(
        ledger.report(Tick(61), vec![0; 32], &history, Tick(61)),
        Some(ChecksumResult::UnknownTick { tick: Tick(61) })
    );
    assert_eq!(ledger.report(Tick(120), vec![1; 32], &history, Tick(61)), None);
    assert_eq!(ledger.report(Tick(180), vec![1; 32], &history, Tick(61)), None);
    history.record(Tick(120), [1; 32]);
    assert_eq!(ledger.settle(&history, Tick(120)), vec![]);
    history.record(Tick(180), [2; 32]);
    assert_eq!(
        ledger.settle(&history, Tick(180)),
        vec![ChecksumResult::Divergence {
            tick: Tick(180),
            server_hash: [2; 32],
            client_hash: vec![1; 32],
        }]
    );
    assert_eq!(ledger.report(Tick(240), vec![1; 32], &history, Tick(181)), None);
    assert_eq!(
        ledger.settle(&history, Tick(300)),
        vec![ChecksumResult::Late { tick: Tick(240) }]
    );
}

#[test]
fn only_the_latest_sixteen_early_reports_wait() {
    let history = StateHashHistory::new();
    let mut ledger = ChecksumLedger::new();
    for second in 1..=20u64 {
        assert_eq!(
            ledger.report(Tick(second * 60), vec![0; 32], &history, Tick(0)),
            None
        );
    }
    let late = ledger.settle(&history, Tick(u64::MAX));
    let ticks: Vec<Tick> = late
        .iter()
        .map(|result| match result {
            ChecksumResult::Late { tick } => *tick,
            other => panic!("unexpected {other:?}"),
        })
        .collect();
    assert_eq!(ticks, (5..=20u64).map(|second| Tick(second * 60)).collect::<Vec<_>>());
}

#[test]
fn the_hash_history_keeps_ten_seconds() {
    let mut history = StateHashHistory::new();
    history.record(Tick(60), [1; 32]);
    history.record(Tick(600), [2; 32]);
    assert_eq!(history.get(Tick(60)), Some([1; 32]));
    history.record(Tick(660), [3; 32]);
    assert_eq!(history.get(Tick(60)), Some([1; 32]));
    history.record(Tick(720), [4; 32]);
    assert_eq!(history.get(Tick(60)), None);
    assert_eq!(history.get(Tick(600)), Some([2; 32]));
    history.record(Tick(720), [5; 32]);
    assert_eq!(history.get(Tick(720)), Some([5; 32]));
    history.clear();
    assert_eq!(history.get(Tick(720)), None);
}

fn active_anchor(deliveries: &[SessionDelivery]) -> Tick {
    let anchors = deliveries
        .iter()
        .map(|delivery| match delivery.snapshot.match_timing {
            MatchTiming::Active { started_at_tick } => started_at_tick,
            MatchTiming::Inactive => panic!("expected active match timing"),
        })
        .collect::<Vec<_>>();
    assert!(!anchors.is_empty());
    assert!(anchors.iter().all(|anchor| *anchor == anchors[0]));
    anchors[0]
}

#[test]
fn active_match_ends_when_the_last_participant_departs() {
    let mut session = MatchSession::default();
    session.accept(1, "Rook".into(), Tick::from(10)).unwrap();
    let joined = session.accept(2, "Nova".into(), Tick::from(20)).unwrap();
    assert_eq!(active_anchor(&joined), Tick::from(20));

    let survivor = session.depart(2);
    assert_eq!(active_anchor(&survivor.deliveries), Tick::from(20));
    assert_eq!(session.match_started_at(), Some(Tick::from(20)));

    let ended = session.depart(1);
    assert!(ended.deliveries.is_empty());
    assert!(ended.active_match_ended);
    assert_eq!(session.participant_count(), 0);
    assert_eq!(session.match_started_at(), None);
}

#[test]
fn replacement_preserves_the_active_match_start_anchor() {
    let mut session = MatchSession::default();
    session.accept(1, "Rook".into(), Tick::from(10)).unwrap();
    let joined = session.accept(2, "Nova".into(), Tick::from(20)).unwrap();
    let original_anchor = active_anchor(&joined);

    session.depart(2);
    let replacement = session.accept(2, "Echo".into(), Tick::from(140)).unwrap();
    assert_eq!(active_anchor(&replacement), original_anchor);
    assert_eq!(Tick::from(140) - original_anchor, Tick::from(120));
}

#[test]
fn next_two_player_match_receives_a_new_start_anchor() {
    let mut session = MatchSession::default();
    session.accept(1, "Rook".into(), Tick::from(10)).unwrap();
    let first_match = session.accept(2, "Nova".into(), Tick::from(20)).unwrap();
    let first_anchor = active_anchor(&first_match);

    session.depart(2);
    session.depart(1);

    let waiting = session.accept(1, "Rook".into(), Tick::from(40)).unwrap();
    assert!(matches!(
        waiting[0].snapshot.match_timing,
        MatchTiming::Inactive
    ));
    let next_match = session.accept(2, "Nova".into(), Tick::from(50)).unwrap();
    let next_anchor = active_anchor(&next_match);
    assert_eq!(next_anchor, Tick::from(50));
    assert_ne!(next_anchor, first_anchor);
}

#[test]
fn join_depart_and_replacement_preserve_authoritative_state() {
    let mut session = MatchSession::default();
    let first = session.accept(1, "Rook".into(), Tick::from(10)).unwrap();
    assert_eq!(
        first[0].snapshot.opponent_presence,
        OpponentPresence::Waiting
    );
    let joined = session.accept(2, "Nova".into(), Tick::from(20)).unwrap();
    assert!(joined.iter().all(|delivery| matches!(
        delivery.snapshot.match_timing,
        MatchTiming::Active {
            started_at_tick: Tick(20)
        }
    )));
    let departed = session.depart(2);
    assert_eq!(
        departed.deliveries[0].snapshot.opponent_presence,
        OpponentPresence::Disconnected
    );
    let replacement = session.accept(2, "Echo".into(), Tick::from(30)).unwrap();
    assert!(replacement.iter().all(|delivery| {
        delivery
            .snapshot
            .participants
            .iter()
            .all(|participant| participant.display_name != "Nova")
    }));
    assert!(replacement.iter().all(|delivery| matches!(
        delivery.snapshot.match_timing,
        MatchTiming::Active {
            started_at_tick: Tick(20)
        }
    )));
    session.depart(1);
    session.depart(2);
    let waiting = session.accept(1, "Rook".into(), Tick::from(40)).unwrap();
    assert!(matches!(
        waiting[0].snapshot.match_timing,
        MatchTiming::Inactive
    ));
    let next_match = session.accept(2, "Nova".into(), Tick::from(50)).unwrap();
    assert!(next_match.iter().all(|delivery| matches!(
        delivery.snapshot.match_timing,
        MatchTiming::Active {
            started_at_tick: Tick(50)
        }
    )));
}

#[test]
fn session_refuses_bad_slots_and_revisions_count_presence_changes() {
    let mut session = MatchSession::new();
    assert_eq!(
        session.accept(3, "Rook".into(), Tick(1)).unwrap_err(),
        "invalid session slot acceptance"
    );
    session.accept(1, "Rook".into(), Tick(1)).unwrap();
    assert_eq!(
        session.accept(1, "Nova".into(), Tick(1)).unwrap_err(),
        "invalid session slot acceptance"
    );
    let joined = session.accept(2, "Nova".into(), Tick(2)).unwrap();
    assert_eq!(joined[0].recipient_slot, 2);
    assert_eq!(joined[0].snapshot.presence_revision, 0);
    assert_eq!(joined[1].recipient_slot, 1);
    assert_eq!(joined[1].snapshot.presence_revision, 1);
    assert_eq!(joined[1].snapshot.opponent_presence, OpponentPresence::Present);
    let departed = session.depart(2);
    assert_eq!(departed.deliveries[0].snapshot.presence_revision, 2);
    assert!(!departed.active_match_ended);
    assert!(session.depart(2).deliveries.is_empty());
    assert_eq!(
        session.delivery(2).unwrap_err(),
        "unknown session recipient"
    );
}

#[test]
fn a_noncanonical_name_is_seated_but_its_snapshots_are_refused() {
    let mut session = MatchSession::new();
    assert_eq!(
        session.accept(1, "Cafe\u{301}".into(), Tick(1)).unwrap_err(),
        "invalid session snapshot"
    );
    assert_eq!(session.participant_count(), 1);
    assert!(session.depart_checked(2).is_some());
    session.accept(2, "Nova".into(), Tick(2)).unwrap_err();
    assert!(session.depart_checked(2).is_none());
    assert_eq!(session.participant_count(), 2);
    let departed = session.depart_checked(1).unwrap();
    assert_eq!(departed.deliveries.len(), 1);
    assert_eq!(session.participant_count(), 1);
}

#[test]
fn fleet_setting_selects_the_configuration() {
    assert_eq!(fleet_config_from_setting(None), Ok(SimulationConfig::default()));
    assert_eq!(fleet_config_from_setting(Some("12")).unwrap().fleet_size(), 12);
    assert_eq!(fleet_config_from_setting(Some("+7")).unwrap().fleet_size(), 7);
    let bad = Err("SPACEGAME_FLEET_SIZE must be a positive integer".to_owned());
    assert_eq!(fleet_config_from_setting(Some("")), bad);
    assert_eq!(fleet_config_from_setting(Some("-3")), bad);
    assert_eq!(fleet_config_from_setting(Some("4x")), bad);
    assert_eq!(fleet_config_from_setting(Some("4294967296")), bad);
    assert_eq!(
        fleet_config_from_setting(Some("0")),
        Err("fleet size must be greater than zero".to_owned())
    );
    assert_eq!(
        fleet_config_from_setting(Some("4294967295")),
        Err("fleet size is too large for the simulation".to_owned())
    );
}

#[test]
fn decimal_parsing_follows_the_standard_library() {
    for text in ["0", "42", "+42", "007", "4294967295", "", "+", "-1", " 1", "1 ", "4294967296", "99999999999", "1_0"] {
        assert_eq!(parse_u32(text), text.parse::<u32>().ok(), "{text:?}");
    }
}
