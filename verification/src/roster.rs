//! Which players are connected to the world, and which fleet each unit
//! belongs to. Units are laid out fleet by fleet: the first `fleet_size`
//! units form player 1's fleet, the next `fleet_size` player 2's.

use crate::ids::{PlayerId, MAX_PLAYERS};
use vstd::prelude::*;

verus! {

/// The connected players.
#[derive(Debug)]
pub struct PlayerRegistry {
    connected: Vec<PlayerId>,
}

impl View for PlayerRegistry {
    type V = Set<PlayerId>;

    closed spec fn view(&self) -> Set<PlayerId> {
        self.connected@.to_set()
    }
}

/// The registry's invariant: no player is listed twice.
pub closed spec fn registry_wf(r: PlayerRegistry) -> bool {
    r.connected@.no_duplicates()
}

fn position_of(players: &Vec<PlayerId>, player: PlayerId) -> (r: Option<usize>)
    ensures
        match r {
            Some(i) => i < players@.len() && players@[i as int] == player,
            None => !players@.contains(player),
        },
{
    let mut i: usize = 0;
    while i < players.len()
        invariant
            i <= players@.len(),
            forall|k: int| 0 <= k < i ==> players@[k] != player,
        decreases players.len() - i,
    {
        if players[i].0 == player.0 {
            return Some(i);
        }
        i = i + 1;
    }
    None
}

impl PlayerRegistry {
    pub fn new() -> (r: PlayerRegistry)
        ensures
            registry_wf(r),
            r@ == Set::<PlayerId>::empty(),
    {
        let r = PlayerRegistry { connected: Vec::new() };
        proof {
            assert(r.connected@.to_set() =~= Set::<PlayerId>::empty());
        }
        r
    }

    /// Connects `player`; reports whether it was not connected before.
    pub fn connect_player(&mut self, player: PlayerId) -> (r: bool)
        requires
            registry_wf(*old(self)),
        ensures
            registry_wf(*final(self)),
            r == !old(self)@.contains(player),
            final(self)@ == old(self)@.insert(player),
    {
        match position_of(&self.connected, player) {
            Some(_) => {
                proof {
                    assert(old(self)@.contains(player));
                    assert(old(self)@.insert(player) =~= old(self)@);
                }
                false
            },
            None => {
                let ghost before = self.connected@;
                self.connected.push(player);
                proof {
                    assert forall|q: PlayerId| #[trigger] self.connected@.contains(q) <==> (before.contains(q)
                        || q == player) by {
                        if before.contains(q) {
                            let k = choose|k: int| 0 <= k < before.len() && before[k] == q;
                            assert(self.connected@[k] == q);
                        }
                        if q == player {
                            assert(self.connected@[before.len() as int] == q);
                        }
                        if self.connected@.contains(q) {
                            let k = choose|k: int| 0 <= k < self.connected@.len() && self.connected@[k] == q;
                            if k < before.len() {
                                assert(before[k] == q);
                            }
                        }
                    }
                    assert(self.connected@.to_set() =~= before.to_set().insert(player));
                }
                true
            },
        }
    }

    /// Disconnects `player`; reports whether it was connected.
    pub fn disconnect_player(&mut self, player: PlayerId) -> (r: bool)
        requires
            registry_wf(*old(self)),
        ensures
            registry_wf(*final(self)),
            r == old(self)@.contains(player),
            final(self)@ == old(self)@.remove(player),
    {
        match position_of(&self.connected, player) {
            Some(i) => {
                let ghost before = self.connected@;
                self.connected.remove(i);
                proof {
                    assert(self.connected@ =~= before.remove(i as int));
                    assert forall|q: PlayerId| #[trigger] self.connected@.to_set().contains(q)
                        <==> before.to_set().remove(player).contains(q) by {
                        if q == player {
                            if self.connected@.contains(q) {
                                let k = choose|k: int| 0 <= k < self.connected@.len() && self.connected@[k] == q;
                                if k < i {
                                    assert(before[k] == q);
                                } else {
                                    assert(before[k + 1] == q);
                                }
                            }
                        } else {
                            if before.contains(q) {
                                let k = choose|k: int| 0 <= k < before.len() && before[k] == q;
                                if k < i {
                                    assert(self.connected@[k] == q);
                                } else {
                                    assert(self.connected@[k - 1] == q);
                                }
                            }
                            if self.connected@.contains(q) {
                                let k = choose|k: int| 0 <= k < self.connected@.len() && self.connected@[k] == q;
                                if k < i {
                                    assert(before[k] == q);
                                } else {
                                    assert(before[k + 1] == q);
                                }
                            }
                        }
                    }
                    assert(self.connected@.to_set() =~= before.to_set().remove(player));
                    assert(before.contains(player)) by {
                        assert(before[i as int] == player);
                    }
                }
                true
            },
            None => {
                proof {
                    assert(!old(self)@.contains(player));
                    assert(old(self)@.remove(player) =~= old(self)@);
                }
                false
            },
        }
    }

    pub fn is_player_connected(&self, player: PlayerId) -> (r: bool)
        ensures
            r == self@.contains(player),
    {
        position_of(&self.connected, player).is_some()
    }
}

/// The owner of unit `index` in a client mirror: the fleet it lies in, or
/// none past the last player's fleet.
pub open spec fn mirror_owner(index: int, fleet_size: int) -> Option<PlayerId> {
    if index < fleet_size {
        Some(PlayerId(1))
    } else if index < 2 * fleet_size {
        Some(PlayerId(2))
    } else {
        None
    }
}

/// Gives every unit the owner of the fleet it lies in.
pub fn assign_mirror_owners(owners: &mut Vec<Option<PlayerId>>, fleet_size: u32)
    requires
        fleet_size > 0,
    ensures
        final(owners)@.len() == old(owners)@.len(),
        forall|i: int| 0 <= i < final(owners)@.len() ==> #[trigger] final(owners)@[i] == mirror_owner(
            i,
            fleet_size as int,
        ),
{
    let fleet = fleet_size as usize;
    let mut i: usize = 0;
    while i < owners.len()
        invariant
            fleet == fleet_size,
            i <= owners@.len(),
            owners@.len() == old(owners)@.len(),
            forall|k: int| 0 <= k < i ==> #[trigger] owners@[k] == mirror_owner(k, fleet_size as int),
        decreases owners.len() - i,
    {
        let owner = if i < fleet {
            Some(PlayerId(1))
        } else if (i - fleet) < fleet {
            Some(PlayerId(2))
        } else {
            None
        };
        owners.set(i, owner);
        i = i + 1;
    }
}

/// Whether the units of `[start, end)` are unowned or owned by `player`.
pub open spec fn range_free_for(owners: Seq<Option<PlayerId>>, start: int, end: int, player: PlayerId) -> bool {
    forall|i: int| start <= i < end ==> (#[trigger] owners[i] is None || owners[i] == Some(player))
}

/// Gives `player` its fleet: the `fleet_size` units of its slot. It fails,
/// changing nothing, for a slot past the last fleet, for a world missing
/// units, and when another player owns a unit of that fleet.
pub fn assign_player_fleet(owners: &mut Vec<Option<PlayerId>>, fleet_size: u32, player: PlayerId) -> (r: bool)
    requires
        fleet_size > 0,
        fleet_size * MAX_PLAYERS <= u32::MAX,
    ensures
        ({
            let slot: int = if player.0 == 0 { 0 } else { player.0 - 1 };
            let start = slot * fleet_size;
            let end = (slot + 1) * fleet_size;
            let ok = slot < MAX_PLAYERS && old(owners)@.len() >= fleet_size * MAX_PLAYERS && range_free_for(
                old(owners)@,
                start,
                end,
                player,
            );
            &&& r == ok
            &&& !ok ==> final(owners)@ == old(owners)@
            &&& ok ==> final(owners)@.len() == old(owners)@.len() && forall|i: int|
                0 <= i < old(owners)@.len() ==> #[trigger] final(owners)@[i] == if start <= i < end {
                    Some(player)
                } else {
                    old(owners)@[i]
                }
        }),
{
    let slot: usize = if player.0 == 0 { 0 } else { (player.0 - 1) as usize };
    let fleet = fleet_size as usize;
    if slot >= MAX_PLAYERS || owners.len() < fleet * MAX_PLAYERS {
        return false;
    }
    assert(slot * fleet <= fleet) by (nonlinear_arith)
        requires
            slot <= 1,
    ;
    let start = slot * fleet;
    let end = start + fleet;
    assert(start as int == slot * fleet_size && end as int == (slot + 1) * fleet_size) by (nonlinear_arith)
        requires
            start == slot * fleet,
            end == start + fleet,
            fleet == fleet_size,
    ;
    let mut i: usize = start;
    while i < end
        invariant
            start <= i <= end,
            end <= owners@.len(),
            owners@ == old(owners)@,
            start as int == slot * fleet_size,
            end as int == (slot + 1) * fleet_size,
            slot as int == (if player.0 == 0 { 0 } else { player.0 - 1 }),
            slot < MAX_PLAYERS,
            old(owners)@.len() >= fleet_size * MAX_PLAYERS,
            forall|k: int| start <= k < i ==> (#[trigger] owners@[k] is None || owners@[k] == Some(player)),
        decreases end - i,
    {
        if let Some(owner) = owners[i] {
            if owner.0 != player.0 {
                proof {
                    assert(owners@[i as int] == Some(owner) && Some(owner) != Some(player));
                    assert(!range_free_for(owners@, start as int, end as int, player));
                }
                return false;
            }
        }
        i = i + 1;
    }
    let ghost before = owners@;
    let mut j: usize = start;
    while j < end
        invariant
            start <= j <= end,
            end <= owners@.len(),
            owners@.len() == before.len(),
            forall|k: int| 0 <= k < owners@.len() ==> #[trigger] owners@[k] == if start <= k < j {
                Some(player)
            } else {
                before[k]
            },
        decreases end - j,
    {
        owners.set(j, Some(player));
        j = j + 1;
    }
    true
}

} // verus!
