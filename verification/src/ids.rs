//! Player slots, unit identities and the session's unit-id allocator.

use crate::command::{AuthoritativeCommand, CommandData};
use vstd::prelude::*;

verus! {

/// The number of players in a match.
pub const MAX_PLAYERS: usize = 2;

/// A player slot; slot 0 is reserved and never names a player.
#[derive(Clone, Copy, Debug, PartialEq, Eq, Hash, PartialOrd, Ord, Structural)]
pub struct PlayerId(pub u8);

#[derive(Clone, Copy, Debug, PartialEq, Eq, Structural)]
pub enum PlayerIdError {
    InvalidSlot,
}

impl PlayerId {
    /// Valid player slots start at 1; slot 0 is reserved and never accepted.
    pub fn new(slot: u8) -> (r: Option<PlayerId>)
        ensures
            slot == 0 ==> r is None,
            slot != 0 ==> r == Some(PlayerId(slot)),
    {
        if slot != 0 {
            Some(PlayerId(slot))
        } else {
            None
        }
    }

    /// A player slot received as a 32-bit value: it must be nonzero and fit in a byte.
    pub fn from_slot(value: u32) -> (r: Result<PlayerId, PlayerIdError>)
        ensures
            r == player_id_spec(value),
    {
        if value == 0 || value > 255 {
            Err(PlayerIdError::InvalidSlot)
        } else {
            Ok(PlayerId(value as u8))
        }
    }
}

pub open spec fn player_id_spec(value: u32) -> Result<PlayerId, PlayerIdError> {
    if value == 0 || value > 255 {
        Err(PlayerIdError::InvalidSlot)
    } else {
        Ok(PlayerId(value as u8))
    }
}

impl TryFrom<u32> for PlayerId {
    type Error = PlayerIdError;

    fn try_from(value: u32) -> (r: Result<PlayerId, PlayerIdError>) {
        PlayerId::from_slot(value)
    }
}

impl vstd::std_specs::convert::TryFromSpecImpl<u32> for PlayerId {
    open spec fn obeys_try_from_spec() -> bool {
        true
    }

    open spec fn try_from_spec(v: u32) -> Result<PlayerId, PlayerIdError> {
        player_id_spec(v)
    }
}

/// The identity of a movable unit.
#[derive(Clone, Copy, Debug, PartialEq, Eq, Hash, PartialOrd, Ord, Structural)]
pub struct UnitId(pub u32);

impl From<u32> for UnitId {
    fn from(value: u32) -> (r: UnitId) {
        UnitId(value)
    }
}

impl vstd::std_specs::convert::FromSpecImpl<u32> for UnitId {
    open spec fn obeys_from_spec() -> bool {
        true
    }

    open spec fn from_spec(v: u32) -> UnitId {
        UnitId(v)
    }
}

#[derive(Clone, Copy, Debug, PartialEq, Eq, Structural)]
pub enum UnitIdAllocationError {
    Exhausted,
}

#[derive(Clone, Copy, Debug, PartialEq, Eq, Structural)]
pub enum CommandDataError {
    NonFiniteDestination,
    InvalidPlayerSlot,
}

#[derive(Clone, Copy, Debug, PartialEq, Eq, Structural)]
pub enum AuthoritativeCommandError {
    InvalidPlayerSlot,
    NoOwnedFleet,
    PlayerNotConnected,
}

#[derive(Clone, Copy, Debug, PartialEq, Eq, Structural)]
pub enum CommandExecutionError {
    UnitIdAllocation(UnitIdAllocationError),
}

/// Hands out unit ids in increasing order; once `u32::MAX` has been handed
/// out, every further request fails, so no id is ever handed out twice.
#[derive(Clone, Copy, Debug, PartialEq, Eq, Structural)]
pub struct UnitIdAllocator {
    pub next_unit_id: u32,
    pub unit_id_exhausted: bool,
}

/// One allocation step: the id handed out (if any) and the allocator after it.
pub open spec fn allocate_spec(a: UnitIdAllocator) -> (Result<UnitId, UnitIdAllocationError>, UnitIdAllocator) {
    if a.unit_id_exhausted {
        (Err(UnitIdAllocationError::Exhausted), a)
    } else if a.next_unit_id == u32::MAX {
        (Ok(UnitId(a.next_unit_id)), UnitIdAllocator { next_unit_id: a.next_unit_id, unit_id_exhausted: true })
    } else {
        (Ok(UnitId(a.next_unit_id)), UnitIdAllocator { next_unit_id: (a.next_unit_id + 1) as u32, unit_id_exhausted: false })
    }
}

/// The largest of `ids`, if any.
pub open spec fn max_id(ids: Seq<u32>) -> Option<u32>
    decreases ids.len(),
{
    if ids.len() == 0 {
        None
    } else {
        match max_id(ids.drop_last()) {
            None => Some(ids.last()),
            Some(m) => Some(if m < ids.last() { ids.last() } else { m }),
        }
    }
}

/// The allocator after moving past every id in `ids`.
pub open spec fn advance_spec(a: UnitIdAllocator, ids: Seq<u32>) -> UnitIdAllocator {
    match max_id(ids) {
        None => a,
        Some(m) => if m == u32::MAX {
            UnitIdAllocator { next_unit_id: a.next_unit_id, unit_id_exhausted: true }
        } else {
            UnitIdAllocator {
                next_unit_id: if a.next_unit_id < m + 1 { (m + 1) as u32 } else { a.next_unit_id },
                unit_id_exhausted: a.unit_id_exhausted,
            }
        },
    }
}

impl UnitIdAllocator {
    pub fn new(next_unit_id: u32) -> (a: UnitIdAllocator)
        ensures
            a == (UnitIdAllocator { next_unit_id, unit_id_exhausted: false }),
    {
        UnitIdAllocator { next_unit_id, unit_id_exhausted: false }
    }

    /// The next id, or `Exhausted` once `u32::MAX` has been handed out.
    pub fn allocate_unit_id(&mut self) -> (r: Result<UnitId, UnitIdAllocationError>)
        ensures
            (r, *final(self)) == allocate_spec(*old(self)),
    {
        if self.unit_id_exhausted {
            return Err(UnitIdAllocationError::Exhausted);
        }
        let id = UnitId(self.next_unit_id);
        if self.next_unit_id == u32::MAX {
            self.unit_id_exhausted = true;
        } else {
            self.next_unit_id = self.next_unit_id + 1;
        }
        Ok(id)
    }

    /// Moves the allocator past every id already in use, so that no later
    /// allocation can repeat one of them.
    pub fn advance_allocator_past_units(&mut self, ids: &[u32])
        ensures
            *final(self) == advance_spec(*old(self), ids@),
    {
        let mut max: Option<u32> = None;
        let mut i: usize = 0;
        while i < ids.len()
            invariant
                i <= ids@.len(),
                max == max_id(ids@.take(i as int)),
            decreases ids.len() - i,
        {
            let v = ids[i];
            proof {
                let next = ids@.take(i + 1);
                assert(next.drop_last() =~= ids@.take(i as int));
                assert(next.last() == v);
            }
            max = match max {
                None => Some(v),
                Some(m) => Some(if m < v { v } else { m }),
            };
            i = i + 1;
        }
        proof {
            assert(ids@.take(ids@.len() as int) =~= ids@);
        }
        if let Some(m) = max {
            if m == u32::MAX {
                self.unit_id_exhausted = true;
            } else if self.next_unit_id < m + 1 {
                self.next_unit_id = m + 1;
            }
        }
    }

    /// The next id to hand out and whether the id space is exhausted.
    pub fn allocator_state(&self) -> (r: (u32, bool))
        ensures
            r == (self.next_unit_id, self.unit_id_exhausted),
    {
        (self.next_unit_id, self.unit_id_exhausted)
    }
}

/// Ids handed out by consecutive allocations strictly increase: an id is
/// never handed out twice.
pub proof fn lemma_allocations_increase(a: UnitIdAllocator)
    ensures
        ({
            let (r1, a1) = allocate_spec(a);
            let (r2, a2) = allocate_spec(a1);
            r1 is Ok && r2 is Ok ==> r1->Ok_0.0 < r2->Ok_0.0
        }),
        allocate_spec(a).1.unit_id_exhausted ==> allocate_spec(allocate_spec(a).1).0 is Err,
{
}

/// After moving past a set of ids, the next allocation returns none of them.
pub proof fn lemma_advance_avoids_used(a: UnitIdAllocator, ids: Seq<u32>, i: int)
    requires
        0 <= i < ids.len(),
    ensures
        allocate_spec(advance_spec(a, ids)).0 matches Ok(id) ==> id.0 != ids[i],
{
    lemma_max_id_bounds(ids, i);
}

proof fn lemma_max_id_bounds(ids: Seq<u32>, i: int)
    requires
        0 <= i < ids.len(),
    ensures
        max_id(ids) matches Some(m) && ids[i] <= m,
    decreases ids.len(),
{
    if i < ids.len() - 1 {
        lemma_max_id_bounds(ids.drop_last(), i);
    } else if ids.len() > 1 {
        lemma_max_id_some(ids.drop_last());
    }
}

proof fn lemma_max_id_some(ids: Seq<u32>)
    requires
        ids.len() > 0,
    ensures
        max_id(ids) is Some,
    decreases ids.len(),
{
}

/// The verdict on an authoritative command, given the owners of all units
/// and the connected players.
pub open spec fn authoritative_verdict(
    cmd: AuthoritativeCommand,
    owners: Seq<Option<PlayerId>>,
    connected: Seq<PlayerId>,
) -> Result<(), AuthoritativeCommandError> {
    match player_id_spec(cmd.player_slot) {
        Err(_) => Err(AuthoritativeCommandError::InvalidPlayerSlot),
        Ok(player) => match cmd.command {
            CommandData::SetDestination { .. } => if owners.contains(Some(player)) {
                Ok(())
            } else {
                Err(AuthoritativeCommandError::NoOwnedFleet)
            },
            CommandData::ResetSimulation => if connected.contains(player) {
                Ok(())
            } else {
                Err(AuthoritativeCommandError::PlayerNotConnected)
            },
        },
    }
}

/// Validates an authoritative command: the slot must name a player; a
/// destination needs a unit that the player owns, a reset a connected player.
pub fn validate_authoritative(
    cmd: &AuthoritativeCommand,
    owners: &[Option<PlayerId>],
    connected: &[PlayerId],
) -> (r: Result<(), AuthoritativeCommandError>)
    ensures
        r == authoritative_verdict(*cmd, owners@, connected@),
{
    let player = match PlayerId::from_slot(cmd.player_slot) {
        Ok(p) => p,
        Err(_) => {
            return Err(AuthoritativeCommandError::InvalidPlayerSlot);
        },
    };
    match cmd.command {
        CommandData::SetDestination { .. } => {
            let mut i: usize = 0;
            while i < owners.len()
                invariant
                    i <= owners@.len(),
                    player_id_spec(cmd.player_slot) == Ok::<PlayerId, PlayerIdError>(player),
                    cmd.command is SetDestination,
                    forall|k: int| 0 <= k < i ==> owners@[k] != Some(player),
                decreases owners.len() - i,
            {
                if let Some(owner) = owners[i] {
                    if owner.0 == player.0 {
                        assert(owners@[i as int] == Some(player));
                        return Ok(());
                    }
                }
                i = i + 1;
            }
            Err(AuthoritativeCommandError::NoOwnedFleet)
        },
        CommandData::ResetSimulation => {
            let mut i: usize = 0;
            while i < connected.len()
                invariant
                    i <= connected@.len(),
                    player_id_spec(cmd.player_slot) == Ok::<PlayerId, PlayerIdError>(player),
                    cmd.command is ResetSimulation,
                    forall|k: int| 0 <= k < i ==> connected@[k] != player,
                decreases connected.len() - i,
            {
                if connected[i].0 == player.0 {
                    assert(connected@[i as int] == player);
                    return Ok(());
                }
                i = i + 1;
            }
            Err(AuthoritativeCommandError::PlayerNotConnected)
        },
    }
}

} // verus!
