//! Static world structures and the home objective pairs of each player.

use crate::combat::HullState;
use crate::ids::PlayerId;
use crate::objective::ObjectiveState;
use vstd::prelude::*;

verus! {

/// The full health of a command core.
pub const MAX_CORE_HEALTH: u32 = 100;

#[derive(Clone, Copy, Debug, PartialEq, Eq, Hash, PartialOrd, Ord, Structural)]
pub struct StaticStructureId(pub u32);

impl From<u32> for StaticStructureId {
    fn from(value: u32) -> (r: StaticStructureId) {
        StaticStructureId(value)
    }
}

impl vstd::std_specs::convert::FromSpecImpl<u32> for StaticStructureId {
    open spec fn obeys_from_spec() -> bool {
        true
    }

    open spec fn from_spec(v: u32) -> StaticStructureId {
        StaticStructureId(v)
    }
}

#[derive(Clone, Copy, Debug, PartialEq, Eq, Hash, PartialOrd, Ord, Structural)]
pub enum StaticStructureKind {
    CommandCore,
    ShieldRelay,
}

impl StaticStructureKind {
    /// The kind's tag in canonical snapshots.
    pub fn canonical_tag(self) -> (t: u8)
        ensures
            t == (match self {
                StaticStructureKind::CommandCore => 1u8,
                StaticStructureKind::ShieldRelay => 2u8,
            }),
    {
        match self {
            StaticStructureKind::CommandCore => 1,
            StaticStructureKind::ShieldRelay => 2,
        }
    }
}

/// A player's command core, its shield relay, and the relay's breach state.
#[derive(Clone, Copy, Debug, PartialEq, Eq, Structural)]
pub struct HomeObjectivePair {
    pub owner: PlayerId,
    pub core_id: StaticStructureId,
    pub relay_id: StaticStructureId,
    pub state: ObjectiveState,
    pub breach_progress_ticks: u32,
    pub exposure_ticks_remaining: u32,
    pub core_health: HullState,
}

impl HomeObjectivePair {
    /// A protected pair with an undamaged core.
    pub fn new(owner: PlayerId, core_id: StaticStructureId, relay_id: StaticStructureId) -> (p: HomeObjectivePair)
        ensures
            p == (HomeObjectivePair {
                owner,
                core_id,
                relay_id,
                state: ObjectiveState::Protected,
                breach_progress_ticks: 0,
                exposure_ticks_remaining: 0,
                core_health: HullState { current: MAX_CORE_HEALTH, maximum: MAX_CORE_HEALTH },
            }),
    {
        HomeObjectivePair {
            owner,
            core_id,
            relay_id,
            state: ObjectiveState::Protected,
            breach_progress_ticks: 0,
            exposure_ticks_remaining: 0,
            core_health: HullState { current: MAX_CORE_HEALTH, maximum: MAX_CORE_HEALTH },
        }
    }

    pub fn owner(self) -> (r: PlayerId)
        ensures
            r == self.owner,
    {
        self.owner
    }

    pub fn core_id(self) -> (r: StaticStructureId)
        ensures
            r == self.core_id,
    {
        self.core_id
    }

    pub fn relay_id(self) -> (r: StaticStructureId)
        ensures
            r == self.relay_id,
    {
        self.relay_id
    }

    pub fn state(self) -> (r: ObjectiveState)
        ensures
            r == self.state,
    {
        self.state
    }

    pub fn breach_progress_ticks(self) -> (r: u32)
        ensures
            r == self.breach_progress_ticks,
    {
        self.breach_progress_ticks
    }

    pub fn exposure_ticks_remaining(self) -> (r: u32)
        ensures
            r == self.exposure_ticks_remaining,
    {
        self.exposure_ticks_remaining
    }

    pub fn core_health_current(self) -> (r: u32)
        ensures
            r == self.core_health.current,
    {
        self.core_health.current
    }

    pub fn core_health_maximum(self) -> (r: u32)
        ensures
            r == self.core_health.maximum,
    {
        self.core_health.maximum
    }

    /// The core can be targeted only while its relay is breached.
    pub fn is_core_targetable(self) -> (r: bool)
        ensures
            r == (self.state == ObjectiveState::Exposed),
    {
        self.state == ObjectiveState::Exposed
    }

    pub fn set_objective_state(&mut self, state: ObjectiveState, progress: u32, exposure: u32)
        ensures
            *final(self) == (HomeObjectivePair {
                state,
                breach_progress_ticks: progress,
                exposure_ticks_remaining: exposure,
                ..*old(self)
            }),
    {
        self.state = state;
        self.breach_progress_ticks = progress;
        self.exposure_ticks_remaining = exposure;
    }

    pub fn set_core_health_current(&mut self, current: u32)
        ensures
            *final(self) == (HomeObjectivePair {
                core_health: HullState { current, maximum: old(self).core_health.maximum },
                ..*old(self)
            }),
    {
        self.core_health.current = current;
    }
}

/// The two home pairs of a fresh match: player 1 owns core 1 and relay 2,
/// player 2 owns core 3 and relay 4.
pub fn initial_home_objective_pairs() -> (pairs: Vec<HomeObjectivePair>)
    ensures
        pairs@ == seq![
            HomeObjectivePair::new_spec(PlayerId(1), StaticStructureId(1), StaticStructureId(2)),
            HomeObjectivePair::new_spec(PlayerId(2), StaticStructureId(3), StaticStructureId(4)),
        ],
{
    let mut pairs: Vec<HomeObjectivePair> = Vec::new();
    pairs.push(HomeObjectivePair::new(PlayerId(1), StaticStructureId(1), StaticStructureId(2)));
    pairs.push(HomeObjectivePair::new(PlayerId(2), StaticStructureId(3), StaticStructureId(4)));
    proof {
        assert(pairs@ =~= seq![
            HomeObjectivePair::new_spec(PlayerId(1), StaticStructureId(1), StaticStructureId(2)),
            HomeObjectivePair::new_spec(PlayerId(2), StaticStructureId(3), StaticStructureId(4)),
        ]);
    }
    pairs
}

impl HomeObjectivePair {
    pub open spec fn new_spec(owner: PlayerId, core_id: StaticStructureId, relay_id: StaticStructureId) -> HomeObjectivePair {
        HomeObjectivePair {
            owner,
            core_id,
            relay_id,
            state: ObjectiveState::Protected,
            breach_progress_ticks: 0,
            exposure_ticks_remaining: 0,
            core_health: HullState { current: MAX_CORE_HEALTH, maximum: MAX_CORE_HEALTH },
        }
    }
}

} // verus!
