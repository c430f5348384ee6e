//! Hull state, weapon constants and hostility between owners.

use crate::ids::{PlayerId, UnitId};
use crate::structure::StaticStructureId;
use vstd::prelude::*;

verus! {

pub const MAX_HULL: u32 = 100;
pub const FIRE_INTERVAL_TICKS: u32 = 15;
/// Each hit removes roughly one third of the previous hull damage, giving
/// ships enough time to maneuver and retarget during an engagement.
pub const WEAPON_DAMAGE: u32 = 6;

#[derive(Clone, Copy, Debug, PartialEq, Eq, Structural)]
pub struct HullState {
    pub current: u32,
    pub maximum: u32,
}

impl HullState {
    /// An undamaged hull.
    pub fn full() -> (h: HullState)
        ensures
            h == (HullState { current: MAX_HULL, maximum: MAX_HULL }),
    {
        HullState { current: MAX_HULL, maximum: MAX_HULL }
    }
}

/// What a turret can aim at.
#[derive(Clone, Copy, Debug, PartialEq, Eq, Structural)]
pub enum CombatTargetId {
    Unit(UnitId),
    CommandCore(StaticStructureId),
}

/// Two owners are hostile when both are players and they differ; unowned
/// units are hostile to nobody.
pub open spec fn hostile_spec(owner: Option<PlayerId>, other: Option<PlayerId>) -> bool {
    match (owner, other) {
        (Some(a), Some(b)) => a != b,
        _ => false,
    }
}

pub fn is_hostile(owner: Option<PlayerId>, other_owner: Option<PlayerId>) -> (r: bool)
    ensures
        r == hostile_spec(owner, other_owner),
{
    match (owner, other_owner) {
        (Some(a), Some(b)) => a.0 != b.0,
        _ => false,
    }
}

/// Units rank before command cores when two targets are equally close.
pub fn target_rank(target: CombatTargetId) -> (r: u8)
    ensures
        r == (match target {
            CombatTargetId::Unit(_) => 0u8,
            CombatTargetId::CommandCore(_) => 1u8,
        }),
{
    match target {
        CombatTargetId::Unit(_) => 0,
        CombatTargetId::CommandCore(_) => 1,
    }
}

/// Hostility is symmetric and irreflexive.
pub proof fn lemma_hostility_symmetric(a: Option<PlayerId>, b: Option<PlayerId>)
    ensures
        hostile_spec(a, b) == hostile_spec(b, a),
        !hostile_spec(a, a),
{
}

} // verus!
