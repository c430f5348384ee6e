//! World state as the protocol carries it: initial snapshots for late
//! joiners and periodic state checksums.

use crate::command::{AuthoritativeCommand, AuthoritativeCommandView};
use crate::config::SnapshotRestoreError;
use crate::ids::{player_id_spec, PlayerId};
use crate::sim_snapshot::{SNAPSHOT_FORMAT_VERSION, STATE_HASH_BYTES};
use crate::tick::Tick;
use crate::SIMULATION_VERSION;
use vstd::prelude::*;

verus! {

/// One unit of a transmitted world, every float carried as its bit pattern.
#[derive(Clone, Copy, Debug, PartialEq, Eq)]
pub struct WorldUnit {
    pub id: u32,
    pub owner: Option<u32>,
    pub position_bits: [u32; 2],
    pub velocity_bits: [u32; 2],
    pub heading_bits: u32,
    pub angular_velocity_bits: u32,
    pub active: bool,
    pub destination_bits: Option<[u32; 2]>,
    pub hull_current: u32,
    pub hull_maximum: u32,
    pub turret_local_heading_bits: u32,
    pub turret_target: Option<(u32, u32)>,
    pub turret_cooldown_ticks_remaining: u32,
}

/// The full authoritative world handed to a joining client.
#[derive(Clone, Debug, PartialEq, Eq)]
pub struct InitialWorldState {
    pub snapshot_format_version: u32,
    pub simulation_version: u32,
    pub tick: Tick,
    pub world_radius_bits: u32,
    pub next_unit_id: u32,
    pub unit_id_exhausted: bool,
    pub units: Vec<WorldUnit>,
    pub state_hash: Vec<u8>,
    pub pending_commands: Vec<AuthoritativeCommand>,
}

/// The mathematical model of an [`InitialWorldState`].
pub struct InitialWorldStateView {
    pub snapshot_format_version: u32,
    pub simulation_version: u32,
    pub tick: Tick,
    pub world_radius_bits: u32,
    pub next_unit_id: u32,
    pub unit_id_exhausted: bool,
    pub units: Seq<WorldUnit>,
    pub state_hash: Seq<u8>,
    pub pending_commands: Seq<AuthoritativeCommandView>,
}

impl View for InitialWorldState {
    type V = InitialWorldStateView;

    open spec fn view(&self) -> InitialWorldStateView {
        InitialWorldStateView {
            snapshot_format_version: self.snapshot_format_version,
            simulation_version: self.simulation_version,
            tick: self.tick,
            world_radius_bits: self.world_radius_bits,
            next_unit_id: self.next_unit_id,
            unit_id_exhausted: self.unit_id_exhausted,
            units: self.units@,
            state_hash: self.state_hash@,
            pending_commands: self.pending_commands@.map_values(|c: AuthoritativeCommand| c@),
        }
    }
}

/// A peer's state hash at the end of a tick.
#[derive(Clone, Debug, PartialEq, Eq)]
pub struct StateChecksum {
    pub tick: Tick,
    pub hash: Vec<u8>,
}

/// The mathematical model of a [`StateChecksum`].
pub struct StateChecksumView {
    pub tick: Tick,
    pub hash: Seq<u8>,
}

impl View for StateChecksum {
    type V = StateChecksumView;

    open spec fn view(&self) -> StateChecksumView {
        StateChecksumView { tick: self.tick, hash: self.hash@ }
    }
}

/// A copy of a byte vector.
pub fn copy_bytes(v: &Vec<u8>) -> (r: Vec<u8>)
    ensures
        r@ == v@,
{
    let mut r: Vec<u8> = Vec::new();
    let mut i: usize = 0;
    while i < v.len()
        invariant
            i <= v.len(),
            r@ == v@.subrange(0, i as int),
        decreases v.len() - i,
    {
        r.push(v[i]);
        i = i + 1;
        proof {
            assert(r@ =~= v@.subrange(0, i as int));
        }
    }
    proof {
        assert(v@.subrange(0, v@.len() as int) =~= v@);
    }
    r
}

/// The first unit, from index `i` on, whose owner is not a player or whose
/// turret target kind is unknown, with the error it causes.
pub open spec fn unit_defect(units: Seq<WorldUnit>, i: int) -> Option<SnapshotRestoreError>
    decreases units.len() - i,
{
    if i < 0 || i >= units.len() {
        None
    } else if units[i].owner matches Some(o) && player_id_spec(o) is Err {
        Some(SnapshotRestoreError::InvalidPlayer)
    } else if units[i].turret_target matches Some(t) && t.0 != 1 && t.0 != 2 {
        Some(SnapshotRestoreError::InvalidTarget)
    } else {
        unit_defect(units, i + 1)
    }
}

/// The checks of [`InitialWorldState::check_restorable`], in order.
pub open spec fn restorable_spec(s: InitialWorldStateView, world_radius_bits: u32) -> Result<(), SnapshotRestoreError> {
    if s.snapshot_format_version != SNAPSHOT_FORMAT_VERSION as u32 {
        Err(SnapshotRestoreError::FormatVersion)
    } else if s.simulation_version != SIMULATION_VERSION {
        Err(SnapshotRestoreError::SimulationVersion)
    } else if s.world_radius_bits != world_radius_bits {
        Err(SnapshotRestoreError::WorldRadius)
    } else if s.state_hash.len() != STATE_HASH_BYTES {
        Err(SnapshotRestoreError::HashLength)
    } else if unit_defect(s.units, 0) is Some {
        Err(unit_defect(s.units, 0)->0)
    } else if exists|k: int| 0 <= k < s.pending_commands.len() && #[trigger] s.pending_commands[k].execute_tick.0
        < s.tick.0 {
        Err(SnapshotRestoreError::InvalidCommand)
    } else {
        Ok(())
    }
}

impl InitialWorldState {
    /// The checks a joining client makes before it rebuilds the world from
    /// this snapshot for an arena of radius `world_radius_bits`: the format
    /// and simulation versions, the radius, the hash length, every unit's
    /// owner and turret target, and that no pending command lies in the past.
    pub fn check_restorable(&self, world_radius_bits: u32) -> (r: Result<(), SnapshotRestoreError>)
        ensures
            r == restorable_spec(self@, world_radius_bits),
    {
        if self.snapshot_format_version != SNAPSHOT_FORMAT_VERSION as u32 {
            return Err(SnapshotRestoreError::FormatVersion);
        }
        if self.simulation_version != SIMULATION_VERSION {
            return Err(SnapshotRestoreError::SimulationVersion);
        }
        if self.world_radius_bits != world_radius_bits {
            return Err(SnapshotRestoreError::WorldRadius);
        }
        if self.state_hash.len() != STATE_HASH_BYTES {
            return Err(SnapshotRestoreError::HashLength);
        }
        let mut i: usize = 0;
        while i < self.units.len()
            invariant
                i <= self.units@.len(),
                self.snapshot_format_version == SNAPSHOT_FORMAT_VERSION as u32,
                self.simulation_version == SIMULATION_VERSION,
                self.world_radius_bits == world_radius_bits,
                self.state_hash@.len() == STATE_HASH_BYTES,
                unit_defect(self.units@, 0) == unit_defect(self.units@, i as int),
            decreases self.units.len() - i,
        {
            let unit = self.units[i];
            if let Some(owner) = unit.owner {
                if PlayerId::from_slot(owner).is_err() {
                    return Err(SnapshotRestoreError::InvalidPlayer);
                }
            }
            if let Some(target) = unit.turret_target {
                if target.0 != 1 && target.0 != 2 {
                    return Err(SnapshotRestoreError::InvalidTarget);
                }
            }
            i = i + 1;
        }
        let mut j: usize = 0;
        while j < self.pending_commands.len()
            invariant
                j <= self.pending_commands@.len(),
                self.snapshot_format_version == SNAPSHOT_FORMAT_VERSION as u32,
                self.simulation_version == SIMULATION_VERSION,
                self.world_radius_bits == world_radius_bits,
                self.state_hash@.len() == STATE_HASH_BYTES,
                unit_defect(self.units@, 0) is None,
                forall|k: int| 0 <= k < j ==> #[trigger] self.pending_commands@[k].execute_tick.0 >= self.tick.0,
            decreases self.pending_commands.len() - j,
        {
            if self.pending_commands[j].execute_tick.0 < self.tick.0 {
                proof {
                    assert(self@.pending_commands[j as int] == self.pending_commands@[j as int]@);
                    assert(self@.pending_commands[j as int].execute_tick.0 < self@.tick.0);
                    assert(0 <= j < self@.pending_commands.len());
                }
                return Err(SnapshotRestoreError::InvalidCommand);
            }
            j = j + 1;
        }
        Ok(())
    }
}

} // verus!

