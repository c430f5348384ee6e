//! Canonical deterministic simulation snapshots and their state hashes.
//!
//! Every float of the simulation is recorded as its IEEE-754 bit pattern, so
//! two peers that computed the same state produce the same bytes.

use crate::tick::Tick;
use vstd::prelude::*;

verus! {

pub const SNAPSHOT_FORMAT_VERSION: u16 = 8;
pub const STATE_HASH_BYTES: usize = 32;

/// The BLAKE3 digest of a byte string, as `blake3::hash` computes it.
pub uninterp spec fn blake3_of(data: Seq<u8>) -> Seq<u8>;

/// `blake3::hash` from the `blake3` crate. Trusted: the 32 bytes are the named
/// BLAKE3 digest of `data`, a function of `data` alone; the hash function
/// itself is not stated.
#[verifier::external_body]
fn blake3_hash(data: &[u8]) -> (r: [u8; 32])
    ensures
        r@ == blake3_of(data@),
{
    *blake3::hash(data).as_bytes()
}

#[derive(Clone, Copy, Debug, PartialEq, Eq)]
pub struct StaticStructureSnapshot {
    pub id: u32,
    pub owner: u8,
    pub kind_tag: u8,
    pub position_bits: [u32; 2],
    pub visual_radius_bits: u32,
    pub hitbox_shape_tag: u8,
    pub hitbox_radius_bits: u32,
}

#[derive(Clone, Copy, Debug, PartialEq, Eq, Structural)]
pub struct HomeObjectivePairSnapshot {
    pub owner: u8,
    pub core_id: u32,
    pub relay_id: u32,
    pub state_tag: u8,
    pub breach_progress_ticks: u32,
    pub exposure_ticks_remaining: u32,
    pub core_health_current: u32,
    pub core_health_maximum: u32,
    /// Derived from objective state; never stored as authoritative world state.
    pub core_targetable: bool,
}

#[derive(Clone, Debug, PartialEq, Eq)]
pub struct UnitSnapshot {
    pub id: u32,
    pub owner: Option<u8>,
    pub position_bits: [u32; 2],
    pub velocity_bits: [u32; 2],
    pub heading_bits: u32,
    pub angular_velocity_bits: u32,
    pub controller_kind: String,
    pub destination_bits: Option<[u32; 2]>,
    pub active: bool,
    pub arrival_radius_bits: u32,
    pub stopped_speed_bits: u32,
    pub hull_current: u32,
    pub hull_maximum: u32,
    pub turret_local_heading_bits: u32,
    pub turret_target: Option<(u8, u32)>,
    pub turret_cooldown_ticks_remaining: u32,
}

#[derive(Clone, Debug, PartialEq, Eq)]
pub struct SimulationSnapshot {
    pub format_version: u16,
    pub simulation_version: u32,
    pub tick: Tick,
    pub world_radius_bits: u32,
    pub next_unit_id: u32,
    pub unit_id_exhausted: bool,
    pub structures: Vec<StaticStructureSnapshot>,
    pub home_objective_pairs: Vec<HomeObjectivePairSnapshot>,
    pub units: Vec<UnitSnapshot>,
}

/// The little-endian bytes of a 32-bit value.
pub open spec fn le_u32(v: u32) -> Seq<u8> {
    seq![(v % 256) as u8, ((v / 256) % 256) as u8, ((v / 65536) % 256) as u8, (v / 16777216) as u8]
}

/// The little-endian bytes of a 64-bit value.
pub open spec fn le_u64(v: u64) -> Seq<u8> {
    le_u32((v % 4294967296) as u32) + le_u32((v / 4294967296) as u32)
}

pub open spec fn structure_bytes(s: StaticStructureSnapshot) -> Seq<u8> {
    le_u32(s.id) + seq![s.owner, s.kind_tag] + le_u32(s.position_bits[0]) + le_u32(
        s.position_bits[1],
    ) + le_u32(s.visual_radius_bits) + seq![s.hitbox_shape_tag] + le_u32(s.hitbox_radius_bits)
}

/// The canonical bytes of a home pair. Whether the core is targetable is
/// derived from the state and is not encoded.
pub open spec fn pair_bytes(p: HomeObjectivePairSnapshot) -> Seq<u8> {
    seq![p.owner] + le_u32(p.core_id) + le_u32(p.relay_id) + seq![p.state_tag] + le_u32(
        p.breach_progress_ticks,
    ) + le_u32(p.exposure_ticks_remaining) + le_u32(p.core_health_current) + le_u32(
        p.core_health_maximum,
    )
}

pub open spec fn owner_bytes(owner: Option<u8>) -> Seq<u8> {
    match owner {
        Some(o) => seq![1u8, o],
        None => seq![0u8, 0u8],
    }
}

pub open spec fn target_bytes(t: Option<(u8, u32)>) -> Seq<u8> {
    match t {
        Some((tag, id)) => seq![1u8, tag] + le_u32(id),
        None => seq![0u8],
    }
}

pub open spec fn destination_bytes(d: Option<[u32; 2]>) -> Seq<u8> {
    match d {
        Some(d) => seq![1u8] + le_u32(d[0]) + le_u32(d[1]),
        None => seq![0u8],
    }
}

/// The position, velocity and heading bits of a unit, in that order.
pub open spec fn kinematics_bytes(u: UnitSnapshot) -> Seq<u8> {
    le_u32(u.position_bits[0]) + le_u32(u.position_bits[1]) + le_u32(u.velocity_bits[0]) + le_u32(
        u.velocity_bits[1],
    ) + le_u32(u.heading_bits) + le_u32(u.angular_velocity_bits)
}

/// The autopilot flag, hull and turret state of a unit, in that order.
pub open spec fn combat_bytes(u: UnitSnapshot) -> Seq<u8> {
    seq![if u.active { 1u8 } else { 0u8 }] + le_u32(u.hull_current) + le_u32(u.hull_maximum)
        + le_u32(u.turret_local_heading_bits) + target_bytes(u.turret_target) + le_u32(
        u.turret_cooldown_ticks_remaining,
    )
}

/// The canonical bytes of a unit. The controller kind and the autopilot's
/// arrival thresholds are shared by every unit and are not encoded.
pub open spec fn unit_bytes(u: UnitSnapshot) -> Seq<u8> {
    le_u32(u.id) + owner_bytes(u.owner) + kinematics_bytes(u) + combat_bytes(u) + destination_bytes(
        u.destination_bits,
    )
}

pub open spec fn structures_bytes(ss: Seq<StaticStructureSnapshot>) -> Seq<u8>
    decreases ss.len(),
{
    if ss.len() == 0 {
        seq![]
    } else {
        structures_bytes(ss.drop_last()) + structure_bytes(ss.last())
    }
}

pub open spec fn pairs_bytes(ps: Seq<HomeObjectivePairSnapshot>) -> Seq<u8>
    decreases ps.len(),
{
    if ps.len() == 0 {
        seq![]
    } else {
        pairs_bytes(ps.drop_last()) + pair_bytes(ps.last())
    }
}

pub open spec fn units_bytes(us: Seq<UnitSnapshot>) -> Seq<u8>
    decreases us.len(),
{
    if us.len() == 0 {
        seq![]
    } else {
        units_bytes(us.drop_last()) + unit_bytes(us.last())
    }
}

/// The canonical encoding of a snapshot: the world radius, the tick, then
/// each collection prefixed by its length. Versions, the id allocator and
/// derived fields are not part of it.
pub open spec fn snapshot_bytes(
    world_radius_bits: u32,
    tick: Tick,
    structures: Seq<StaticStructureSnapshot>,
    pairs: Seq<HomeObjectivePairSnapshot>,
    units: Seq<UnitSnapshot>,
) -> Seq<u8> {
    le_u32(world_radius_bits) + le_u64(tick.0) + le_u32(structures.len() as u32) + structures_bytes(
        structures,
    ) + le_u32(pairs.len() as u32) + pairs_bytes(pairs) + le_u32(units.len() as u32) + units_bytes(
        units,
    )
}

/// Appends the little-endian bytes of `value`.
pub fn put_u32(bytes: &mut Vec<u8>, value: u32)
    ensures
        final(bytes)@ == old(bytes)@ + le_u32(value),
{
    bytes.push((value % 256) as u8);
    bytes.push(((value / 256) % 256) as u8);
    bytes.push(((value / 65536) % 256) as u8);
    bytes.push((value / 16777216) as u8);
    proof {
        assert(final(bytes)@ =~= old(bytes)@ + le_u32(value));
    }
}

/// Appends the little-endian bytes of `value`.
pub fn put_u64(bytes: &mut Vec<u8>, value: u64)
    ensures
        final(bytes)@ == old(bytes)@ + le_u64(value),
{
    put_u32(bytes, (value % 4294967296) as u32);
    put_u32(bytes, (value / 4294967296) as u32);
    proof {
        assert(final(bytes)@ =~= old(bytes)@ + le_u64(value));
    }
}

fn push_byte(bytes: &mut Vec<u8>, b: u8)
    ensures
        final(bytes)@ == old(bytes)@ + seq![b],
{
    bytes.push(b);
    proof {
        assert(final(bytes)@ =~= old(bytes)@ + seq![b]);
    }
}

impl StaticStructureSnapshot {
    pub fn encode(&self, bytes: &mut Vec<u8>)
        ensures
            final(bytes)@ == old(bytes)@ + structure_bytes(*self),
    {
        put_u32(bytes, self.id);
        push_byte(bytes, self.owner);
        push_byte(bytes, self.kind_tag);
        put_u32(bytes, self.position_bits[0]);
        put_u32(bytes, self.position_bits[1]);
        put_u32(bytes, self.visual_radius_bits);
        push_byte(bytes, self.hitbox_shape_tag);
        put_u32(bytes, self.hitbox_radius_bits);
        proof {
            assert(final(bytes)@ =~= old(bytes)@ + structure_bytes(*self));
        }
    }
}

impl HomeObjectivePairSnapshot {
    pub fn encode(&self, bytes: &mut Vec<u8>)
        ensures
            final(bytes)@ == old(bytes)@ + pair_bytes(*self),
    {
        push_byte(bytes, self.owner);
        put_u32(bytes, self.core_id);
        put_u32(bytes, self.relay_id);
        push_byte(bytes, self.state_tag);
        put_u32(bytes, self.breach_progress_ticks);
        put_u32(bytes, self.exposure_ticks_remaining);
        put_u32(bytes, self.core_health_current);
        put_u32(bytes, self.core_health_maximum);
        proof {
            assert(final(bytes)@ =~= old(bytes)@ + pair_bytes(*self));
        }
    }
}

impl UnitSnapshot {
    fn encode_kinematics(&self, bytes: &mut Vec<u8>)
        ensures
            final(bytes)@ == old(bytes)@ + kinematics_bytes(*self),
    {
        put_u32(bytes, self.position_bits[0]);
        put_u32(bytes, self.position_bits[1]);
        put_u32(bytes, self.velocity_bits[0]);
        put_u32(bytes, self.velocity_bits[1]);
        put_u32(bytes, self.heading_bits);
        put_u32(bytes, self.angular_velocity_bits);
        proof {
            assert(final(bytes)@ =~= old(bytes)@ + kinematics_bytes(*self));
        }
    }

    fn encode_combat(&self, bytes: &mut Vec<u8>)
        ensures
            final(bytes)@ == old(bytes)@ + combat_bytes(*self),
    {
        push_byte(bytes, if self.active { 1 } else { 0 });
        put_u32(bytes, self.hull_current);
        put_u32(bytes, self.hull_maximum);
        put_u32(bytes, self.turret_local_heading_bits);
        let ghost mid = bytes@;
        match self.turret_target {
            Some((tag, target)) => {
                push_byte(bytes, 1);
                push_byte(bytes, tag);
                put_u32(bytes, target);
            },
            None => push_byte(bytes, 0),
        }
        proof {
            assert(bytes@ =~= mid + target_bytes(self.turret_target));
        }
        put_u32(bytes, self.turret_cooldown_ticks_remaining);
        proof {
            assert(final(bytes)@ =~= old(bytes)@ + combat_bytes(*self));
        }
    }

    pub fn encode(&self, bytes: &mut Vec<u8>)
        ensures
            final(bytes)@ == old(bytes)@ + unit_bytes(*self),
    {
        put_u32(bytes, self.id);
        let ghost a = bytes@;
        match self.owner {
            Some(owner) => {
                push_byte(bytes, 1);
                push_byte(bytes, owner);
            },
            None => {
                push_byte(bytes, 0);
                push_byte(bytes, 0);
            },
        }
        proof {
            assert(bytes@ =~= a + owner_bytes(self.owner));
        }
        self.encode_kinematics(bytes);
        self.encode_combat(bytes);
        let ghost b = bytes@;
        match self.destination_bits {
            Some(destination) => {
                push_byte(bytes, 1);
                put_u32(bytes, destination[0]);
                put_u32(bytes, destination[1]);
            },
            None => push_byte(bytes, 0),
        }
        proof {
            assert(bytes@ =~= b + destination_bytes(self.destination_bits));
            assert(final(bytes)@ =~= old(bytes)@ + unit_bytes(*self));
        }
    }
}

impl SimulationSnapshot {
    /// The canonical bytes that the state hash covers.
    pub fn encode_canonical(&self) -> (bytes: Vec<u8>)
        ensures
            bytes@ == snapshot_bytes(
                self.world_radius_bits,
                self.tick,
                self.structures@,
                self.home_objective_pairs@,
                self.units@,
            ),
    {
        let mut bytes: Vec<u8> = Vec::new();
        put_u32(&mut bytes, self.world_radius_bits);
        put_u64(&mut bytes, self.tick.0);
        put_u32(&mut bytes, self.structures.len() as u32);
        let ghost head = bytes@;
        let mut i: usize = 0;
        while i < self.structures.len()
            invariant
                i <= self.structures@.len(),
                bytes@ == head + structures_bytes(self.structures@.take(i as int)),
            decreases self.structures.len() - i,
        {
            self.structures[i].encode(&mut bytes);
            proof {
                let next = self.structures@.take(i + 1);
                assert(next.drop_last() =~= self.structures@.take(i as int));
            }
            i = i + 1;
            proof {
                assert(bytes@ =~= head + structures_bytes(self.structures@.take(i as int)));
            }
        }
        proof {
            assert(self.structures@.take(self.structures@.len() as int) =~= self.structures@);
        }
        put_u32(&mut bytes, self.home_objective_pairs.len() as u32);
        let ghost head2 = bytes@;
        let mut i: usize = 0;
        while i < self.home_objective_pairs.len()
            invariant
                i <= self.home_objective_pairs@.len(),
                bytes@ == head2 + pairs_bytes(self.home_objective_pairs@.take(i as int)),
            decreases self.home_objective_pairs.len() - i,
        {
            self.home_objective_pairs[i].encode(&mut bytes);
            proof {
                let next = self.home_objective_pairs@.take(i + 1);
                assert(next.drop_last() =~= self.home_objective_pairs@.take(i as int));
            }
            i = i + 1;
            proof {
                assert(bytes@ =~= head2 + pairs_bytes(self.home_objective_pairs@.take(i as int)));
            }
        }
        proof {
            assert(self.home_objective_pairs@.take(self.home_objective_pairs@.len() as int)
                =~= self.home_objective_pairs@);
        }
        put_u32(&mut bytes, self.units.len() as u32);
        let ghost head3 = bytes@;
        let mut i: usize = 0;
        while i < self.units.len()
            invariant
                i <= self.units@.len(),
                bytes@ == head3 + units_bytes(self.units@.take(i as int)),
            decreases self.units.len() - i,
        {
            self.units[i].encode(&mut bytes);
            proof {
                let next = self.units@.take(i + 1);
                assert(next.drop_last() =~= self.units@.take(i as int));
            }
            i = i + 1;
            proof {
                assert(bytes@ =~= head3 + units_bytes(self.units@.take(i as int)));
            }
        }
        proof {
            assert(self.units@.take(self.units@.len() as int) =~= self.units@);
            assert(bytes@ =~= snapshot_bytes(
                self.world_radius_bits,
                self.tick,
                self.structures@,
                self.home_objective_pairs@,
                self.units@,
            ));
        }
        bytes
    }

    /// The BLAKE3 digest of the canonical bytes.
    pub fn state_hash(&self) -> (h: [u8; 32])
        ensures
            h@ == blake3_of(
                snapshot_bytes(
                    self.world_radius_bits,
                    self.tick,
                    self.structures@,
                    self.home_objective_pairs@,
                    self.units@,
                ),
            ),
    {
        let bytes = self.encode_canonical();
        blake3_hash(bytes.as_slice())
    }
}

} // verus!
