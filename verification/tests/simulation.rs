use spacegame2d::command::{AuthoritativeCommand, CommandData};
use spacegame2d::config::{
    SimulationConfig, SimulationConfigError, SnapshotRestoreError, DEFAULT_WORLD_RADIUS_BITS,
};
use spacegame2d::roster::{assign_mirror_owners, assign_player_fleet, PlayerRegistry};
use spacegame2d::world_state::{InitialWorldState, WorldUnit};
use spacegame2d::events::{match_result, run_objectives, MatchResult, ObjectiveTransition};
use spacegame2d::ids::{
    validate_authoritative, AuthoritativeCommandError, PlayerId, PlayerIdError, UnitId,
    UnitIdAllocationError, UnitIdAllocator,
};
use spacegame2d::objective::{
    advance_pair, ObjectivePresence, ObjectiveState, BREACH_DECAY_PER_TICK, BREACH_DURATION_TICKS,
    DECAY_DURATION_TICKS, EXPOSURE_DURATION_TICKS,
};
use spacegame2d::structure::{initial_home_objective_pairs, HomeObjectivePair, StaticStructureId};
use spacegame2d::tick::Tick;

fn pair() -> HomeObjectivePair {
    initial_home_objective_pairs()[0]
}

#[test]
fn breach_and_decay_rates_are_exact_integer_tick_rates() {
    assert_eq!(BREACH_DURATION_TICKS, 720);
    assert_eq!(DECAY_DURATION_TICKS, 360);
    assert_eq!(EXPOSURE_DURATION_TICKS, 480);
    assert_eq!(BREACH_DECAY_PER_TICK, 2);
}

#[test]
fn contested_presence_prevents_completion() {
    let mut pair = pair();
    pair.set_objective_state(ObjectiveState::Breaching, BREACH_DURATION_TICKS - 1, 0);
    assert_eq!(
        advance_pair(
            &mut pair,
            ObjectivePresence {
                has_attacker: true,
                has_defender: true
            },
            false,
        ),
        Some((ObjectiveState::Breaching, ObjectiveState::Contested))
    );
    assert_eq!(pair.breach_progress_ticks(), BREACH_DURATION_TICKS - 1);
}

#[test]
fn decay_uses_the_fixed_full_scale_rate_and_saturates() {
    let mut pair = pair();
    pair.set_objective_state(ObjectiveState::Breaching, BREACH_DURATION_TICKS, 0);
    for _ in 0..DECAY_DURATION_TICKS {
        advance_pair(&mut pair, ObjectivePresence::default(), false);
    }
    assert_eq!(pair.state(), ObjectiveState::Protected);
    assert_eq!(pair.breach_progress_ticks(), 0);
    assert_eq!(pair.exposure_ticks_remaining(), 0);
}

#[test]
fn exposure_ignores_presence_then_recovers() {
    let mut pair = pair();
    pair.set_objective_state(ObjectiveState::Breaching, BREACH_DURATION_TICKS - 1, 0);
    assert_eq!(
        advance_pair(
            &mut pair,
            ObjectivePresence {
                has_attacker: true,
                has_defender: false
            },
            false
        ),
        Some((ObjectiveState::Breaching, ObjectiveState::Exposed))
    );
    for _ in 0..EXPOSURE_DURATION_TICKS - 1 {
        assert_eq!(
            advance_pair(
                &mut pair,
                ObjectivePresence {
                    has_attacker: true,
                    has_defender: true
                },
                false
            ),
            None
        );
        assert_eq!(pair.state(), ObjectiveState::Exposed);
    }
    assert_eq!(
        advance_pair(
            &mut pair,
            ObjectivePresence {
                has_attacker: true,
                has_defender: false
            },
            false
        ),
        Some((ObjectiveState::Exposed, ObjectiveState::Protected))
    );
    assert_eq!(pair.breach_progress_ticks(), 0);
}

#[test]
fn frozen_pair_does_not_change() {
    let mut pair = pair();
    let before = pair;
    assert_eq!(
        advance_pair(
            &mut pair,
            ObjectivePresence {
                has_attacker: true,
                has_defender: false
            },
            true
        ),
        None
    );
    assert_eq!(pair, before);
}

#[test]
fn relay_breach_takes_exactly_the_breach_duration() {
    let mut pair = pair();
    let attacker = ObjectivePresence {
        has_attacker: true,
        has_defender: false,
    };
    assert_eq!(
        advance_pair(&mut pair, attacker, false),
        Some((ObjectiveState::Protected, ObjectiveState::Breaching))
    );
    for _ in 1..BREACH_DURATION_TICKS - 1 {
        assert_eq!(advance_pair(&mut pair, attacker, false), None);
    }
    assert_eq!(pair.breach_progress_ticks(), BREACH_DURATION_TICKS - 1);
    assert_eq!(
        advance_pair(&mut pair, attacker, false),
        Some((ObjectiveState::Breaching, ObjectiveState::Exposed))
    );
    assert_eq!(pair.exposure_ticks_remaining(), EXPOSURE_DURATION_TICKS);
    assert!(pair.is_core_targetable());
}

#[test]
fn decay_then_resumed_breach() {
    let mut pair = pair();
    pair.set_objective_state(ObjectiveState::Breaching, 10, 0);
    assert_eq!(
        advance_pair(&mut pair, ObjectivePresence::default(), false),
        Some((ObjectiveState::Breaching, ObjectiveState::Decaying))
    );
    assert_eq!(pair.breach_progress_ticks(), 8);
    let attacker = ObjectivePresence {
        has_attacker: true,
        has_defender: false,
    };
    assert_eq!(
        advance_pair(&mut pair, attacker, false),
        Some((ObjectiveState::Decaying, ObjectiveState::Breaching))
    );
    assert_eq!(pair.breach_progress_ticks(), 9);
}

#[test]
fn initial_pairs_are_protected_with_full_cores() {
    let pairs = initial_home_objective_pairs();
    assert_eq!(pairs.len(), 2);
    assert_eq!(pairs[0].owner(), PlayerId(1));
    assert_eq!(pairs[0].core_id(), StaticStructureId(1));
    assert_eq!(pairs[0].relay_id(), StaticStructureId(2));
    assert_eq!(pairs[1].owner(), PlayerId(2));
    assert_eq!(pairs[1].core_id(), StaticStructureId(3));
    assert_eq!(pairs[1].relay_id(), StaticStructureId(4));
    for pair in &pairs {
        assert_eq!(pair.state(), ObjectiveState::Protected);
        assert_eq!(pair.core_health_current(), pair.core_health_maximum());
        assert!(!pair.is_core_targetable());
    }
}

#[test]
fn a_destroyed_core_decides_the_match() {
    let mut pairs = initial_home_objective_pairs();
    assert_eq!(match_result(&pairs), None);
    pairs[1].set_core_health_current(0);
    assert_eq!(
        match_result(&pairs),
        Some(MatchResult::Victory {
            winner: PlayerId(1),
            loser: PlayerId(2),
            destroyed_core: StaticStructureId(3),
        })
    );
    pairs[0].set_core_health_current(0);
    assert_eq!(
        match_result(&pairs),
        Some(MatchResult::Draw {
            destroyed_cores: [StaticStructureId(1), StaticStructureId(3)],
        })
    );
}

#[test]
fn objective_step_reports_transitions_or_the_result() {
    let mut pairs = initial_home_objective_pairs();
    let presences = vec![
        ObjectivePresence {
            has_attacker: true,
            has_defender: false,
        },
        ObjectivePresence::default(),
    ];
    let mut events: Vec<ObjectiveTransition> = Vec::new();
    assert_eq!(
        run_objectives(&mut pairs, &presences, Tick(7), true, &mut events),
        None
    );
    assert!(events.is_empty());
    assert_eq!(pairs[0].state(), ObjectiveState::Protected);
    assert_eq!(
        run_objectives(&mut pairs, &presences, Tick(8), false, &mut events),
        None
    );
    assert_eq!(
        events,
        vec![ObjectiveTransition {
            tick: Tick(8),
            owner: PlayerId(1),
            relay_id: StaticStructureId(2),
            core_id: StaticStructureId(1),
            previous_state: ObjectiveState::Protected,
            next_state: ObjectiveState::Breaching,
        }]
    );
    assert_eq!(pairs[0].breach_progress_ticks(), 1);
    pairs[0].set_core_health_current(0);
    let before = pairs.clone();
    assert_eq!(
        run_objectives(&mut pairs, &presences, Tick(9), false, &mut events),
        Some(MatchResult::Victory {
            winner: PlayerId(2),
            loser: PlayerId(1),
            destroyed_core: StaticStructureId(1),
        })
    );
    assert_eq!(pairs, before);
    assert_eq!(events.len(), 1);
}

fn destination(slot: u32, sequence: u32, tick: u64) -> AuthoritativeCommand {
    AuthoritativeCommand {
        execute_tick: Tick(tick),
        player_slot: slot,
        sequence,
        command: CommandData::SetDestination {
            destination: [1.0_f32.to_bits(), 0],
            target_unit_ids: vec![],
        },
    }
}

fn reset(slot: u32, tick: u64) -> AuthoritativeCommand {
    AuthoritativeCommand {
        execute_tick: Tick(tick),
        player_slot: slot,
        sequence: 1,
        command: CommandData::ResetSimulation,
    }
}

#[test]
fn rejects_reserved_slot_and_unowned_units() {
    let owners = vec![None; 60];
    assert!(validate_authoritative(&destination(0, 1, 0), &owners, &[]).is_err());
    assert!(validate_authoritative(&destination(1, 1, 0), &owners, &[]).is_err());
}

#[test]
fn reset_requires_valid_player_slot() {
    let owners = vec![None; 60];
    let connected = vec![PlayerId(1)];
    assert!(validate_authoritative(&reset(0, 0), &owners, &connected).is_err());
    assert!(validate_authoritative(&reset(1, 0), &owners, &connected).is_ok());
    assert!(validate_authoritative(&reset(2, 0), &owners, &connected).is_err());
}

#[test]
fn rejects_player_slots_that_do_not_fit_player_id() {
    let owners = vec![None; 60];
    assert_eq!(
        validate_authoritative(&reset(u32::from(u8::MAX) + 1, 0), &owners, &[]),
        Err(AuthoritativeCommandError::InvalidPlayerSlot)
    );
    assert_eq!(PlayerId::try_from(256u32), Err(PlayerIdError::InvalidSlot));
    assert_eq!(PlayerId::try_from(0u32), Err(PlayerIdError::InvalidSlot));
    assert_eq!(PlayerId::try_from(2u32), Ok(PlayerId(2)));
    assert_eq!(PlayerId::new(0), None);
}

#[test]
fn owned_units_authorize_destinations() {
    let mut owners = vec![None; 60];
    owners[3] = Some(PlayerId(1));
    assert_eq!(validate_authoritative(&destination(1, 1, 0), &owners, &[]), Ok(()));
    assert_eq!(
        validate_authoritative(&destination(2, 1, 0), &owners, &[]),
        Err(AuthoritativeCommandError::NoOwnedFleet)
    );
    assert_eq!(
        validate_authoritative(&reset(2, 0), &owners, &[PlayerId(1)]),
        Err(AuthoritativeCommandError::PlayerNotConnected)
    );
}

#[test]
fn unit_id_allocation_reports_exhaustion() {
    let mut allocator = UnitIdAllocator::new(u32::MAX);
    assert_eq!(allocator.allocate_unit_id().unwrap(), UnitId(u32::MAX));
    assert_eq!(
        allocator.allocate_unit_id(),
        Err(UnitIdAllocationError::Exhausted)
    );
}

#[test]
fn reset_after_culling_allocates_ids_above_all_previous_ids() {
    let mut allocator = UnitIdAllocator::new(1);
    let mut ids = Vec::new();
    for _ in 0..60 {
        ids.push(allocator.allocate_unit_id().unwrap().0);
    }
    let highest_before = *ids.iter().max().unwrap();
    ids.truncate(1);
    allocator.advance_allocator_past_units(&ids);
    let fresh: Vec<u32> = (0..60)
        .map(|_| allocator.allocate_unit_id().unwrap().0)
        .collect();
    assert!(fresh.iter().all(|id| *id > highest_before));
    let mut sorted = fresh.clone();
    sorted.dedup();
    assert_eq!(sorted.len(), fresh.len());
    assert!(allocator.allocator_state().0 > *fresh.iter().max().unwrap());
}

#[test]
fn defaults_to_two_fleets_of_thirty() {
    let config = SimulationConfig::default();
    assert_eq!(config.fleet_size(), 30);
    assert_eq!(config.total_units(), 60);
    assert_eq!(f32::from_bits(config.world_radius_bits()), 64.0);
    assert_eq!(DEFAULT_WORLD_RADIUS_BITS, 64.0_f32.to_bits());
}

#[test]
fn accepts_custom_fleet_size() {
    let config = SimulationConfig::new(3).unwrap();
    assert_eq!(config.fleet_size(), 3);
    assert_eq!(config.total_units(), 6);
    assert_eq!(
        SimulationConfig::try_from(u32::MAX),
        Err(SimulationConfigError::FleetSizeTooLarge)
    );
}

#[test]
fn rejects_zero_fleet_size() {
    assert_eq!(
        SimulationConfig::new(0),
        Err(SimulationConfigError::ZeroFleetSize)
    );
}

#[test]
fn validates_custom_world_radius() {
    let config = SimulationConfig::default()
        .with_world_radius_bits(12.5_f32.to_bits())
        .unwrap();
    assert_eq!(f32::from_bits(config.world_radius_bits()), 12.5);
    for radius in [0.0_f32, -1.0, f32::NAN, f32::INFINITY] {
        assert_eq!(
            SimulationConfig::default().with_world_radius_bits(radius.to_bits()),
            Err(SimulationConfigError::InvalidWorldRadius)
        );
    }
}

#[test]
fn connected_player_registry_controls_membership() {
    let mut registry = PlayerRegistry::new();
    assert!(!registry.is_player_connected(PlayerId(1)));
    assert!(registry.connect_player(PlayerId(1)));
    assert!(!registry.connect_player(PlayerId(1)));
    assert!(registry.is_player_connected(PlayerId(1)));
    assert!(registry.disconnect_player(PlayerId(1)));
    assert!(!registry.disconnect_player(PlayerId(1)));
    assert!(!registry.is_player_connected(PlayerId(1)));
}

#[test]
fn mirror_ownership_is_deterministic_for_all_units() {
    let mut owners = vec![None; 61];
    assign_mirror_owners(&mut owners, 30);
    assert_eq!(owners[0], Some(PlayerId(1)));
    assert_eq!(owners[1], Some(PlayerId(1)));
    assert_eq!(owners[29], Some(PlayerId(1)));
    assert_eq!(owners[30], Some(PlayerId(2)));
    assert_eq!(owners[59], Some(PlayerId(2)));
    assert_eq!(owners[60], None);
}

#[test]
fn player_slot_assignment_is_deterministic() {
    let mut owners = vec![None; 60];
    assert!(assign_player_fleet(&mut owners, 30, PlayerId(2)));
    assert_eq!(owners[30], Some(PlayerId(2)));
    assert_eq!(owners[59], Some(PlayerId(2)));
    assert_eq!(owners[0], None);
    assert!(assign_player_fleet(&mut owners, 30, PlayerId(2)));
    assert!(!assign_player_fleet(&mut owners, 30, PlayerId(3)));
    owners[0] = Some(PlayerId(2));
    let before = owners.clone();
    assert!(!assign_player_fleet(&mut owners, 30, PlayerId(1)));
    assert_eq!(owners, before);
    let mut short = vec![None; 59];
    assert!(!assign_player_fleet(&mut short, 30, PlayerId(1)));
}

fn restorable_state() -> InitialWorldState {
    InitialWorldState {
        snapshot_format_version: 8,
        simulation_version: spacegame2d::SIMULATION_VERSION,
        tick: Tick(60),
        world_radius_bits: 64.0_f32.to_bits(),
        next_unit_id: 3,
        unit_id_exhausted: false,
        units: vec![WorldUnit {
            id: 1,
            owner: Some(1),
            position_bits: [0, 0],
            velocity_bits: [0, 0],
            heading_bits: 0,
            angular_velocity_bits: 0,
            active: false,
            destination_bits: None,
            hull_current: 100,
            hull_maximum: 100,
            turret_local_heading_bits: 0,
            turret_target: Some((2, 3)),
            turret_cooldown_ticks_remaining: 0,
        }],
        state_hash: vec![0; 32],
        pending_commands: vec![reset(1, 60)],
    }
}

#[test]
fn restorable_snapshots_are_checked_in_order() {
    let radius = 64.0_f32.to_bits();
    assert_eq!(restorable_state().check_restorable(radius), Ok(()));
    let mut s = restorable_state();
    s.snapshot_format_version = 7;
    s.simulation_version = 0;
    assert_eq!(s.check_restorable(radius), Err(SnapshotRestoreError::FormatVersion));
    let mut s = restorable_state();
    s.simulation_version = 0;
    assert_eq!(s.check_restorable(radius), Err(SnapshotRestoreError::SimulationVersion));
    assert_eq!(
        restorable_state().check_restorable(12.5_f32.to_bits()),
        Err(SnapshotRestoreError::WorldRadius)
    );
    let mut s = restorable_state();
    s.state_hash.pop();
    assert_eq!(s.check_restorable(radius), Err(SnapshotRestoreError::HashLength));
    let mut s = restorable_state();
    s.units[0].owner = Some(0);
    s.units[0].turret_target = Some((9, 1));
    assert_eq!(s.check_restorable(radius), Err(SnapshotRestoreError::InvalidPlayer));
    let mut s = restorable_state();
    s.units[0].turret_target = Some((9, 1));
    assert_eq!(s.check_restorable(radius), Err(SnapshotRestoreError::InvalidTarget));
    let mut s = restorable_state();
    s.pending_commands = vec![reset(1, 59)];
    assert_eq!(s.check_restorable(radius), Err(SnapshotRestoreError::InvalidCommand));
}
