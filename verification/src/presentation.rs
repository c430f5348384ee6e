//! Client-side presentation rules that do not depend on the renderer: the
//! colour of each player's fleet, the window title and the growth of vertex
//! buffers.

use crate::command::{AuthoritativeCommand, CommandData, CommandRejected, CommandRejectionReason};
use crate::text::{decimal_spec, push_decimal};
use vstd::arithmetic::power2::pow2;
use vstd::prelude::*;
use vstd::string::StringExecFns;

verus! {

/// The colour of a player's fleet on screen.
#[derive(Clone, Copy, Debug, PartialEq, Eq, Structural)]
pub enum PlayerColor {
    Cyan,
    Coral,
}

impl PlayerColor {
    /// Slot 2 is coral; every other slot, the unowned fleet's included, is cyan.
    pub fn for_slot(player_slot: u32) -> (r: PlayerColor)
        ensures
            r == (if player_slot == 2 { PlayerColor::Coral } else { PlayerColor::Cyan }),
    {
        if player_slot == 2 {
            PlayerColor::Coral
        } else {
            PlayerColor::Cyan
        }
    }
}

/// The title of the game window for the local player's slot.
pub fn window_title(player_slot: u32) -> (r: String)
    ensures
        r@ == "Spacegame 2D - Player "@ + decimal_spec(player_slot as nat),
{
    let mut title = "Spacegame 2D - Player ".to_owned();
    push_decimal(&mut title, player_slot as u64);
    title
}

/// The smallest power of two that is at least `n` (`u64::next_power_of_two`).
pub open spec fn is_next_power_of_two(n: nat, p: nat) -> bool {
    &&& exists|e: nat| pow2(e) == p
    &&& n <= p
    &&& (p == 1 || p / 2 < n)
}

fn next_power_of_two(n: u64) -> (p: u64)
    requires
        n <= 0x8000_0000_0000_0000,
    ensures
        is_next_power_of_two(n as nat, p as nat),
{
    let mut p: u64 = 1;
    let ghost mut e: nat = 0;
    proof {
        vstd::arithmetic::power2::lemma2_to64();
    }
    while p < n
        invariant
            n <= 0x8000_0000_0000_0000,
            1 <= p <= 0x8000_0000_0000_0000,
            pow2(e) == p,
            p == 1 || p / 2 < n,
        decreases 0x8000_0000_0000_0000 - p,
    {
        proof {
            vstd::arithmetic::power2::lemma_pow2_unfold(e + 1);
            vstd::arithmetic::power2::lemma2_to64_rest();
            if e > 63 {
                vstd::arithmetic::power2::lemma_pow2_strictly_increases(63, e);
            }
            if e < 62 {
                vstd::arithmetic::power2::lemma_pow2_strictly_increases(e, 62);
            }
            assert(p <= 0x4000_0000_0000_0000);
        }
        p = p * 2;
        proof {
            e = e + 1;
        }
    }
    p
}

/// The capacity of a vertex buffer that must hold `required` bytes: it
/// stays as it is while large enough and otherwise grows to the next power
/// of two.
pub fn vertex_buffer_capacity(current: u64, required: u64) -> (r: u64)
    requires
        required > current ==> required <= 0x8000_0000_0000_0000,
    ensures
        required <= current ==> r == current,
        required > current ==> is_next_power_of_two(required as nat, r as nat),
{
    if required > current {
        next_power_of_two(required)
    } else {
        current
    }
}

/// The notice shown when the server rejects a command for `reason`.
pub open spec fn rejection_message_spec(reason: CommandRejectionReason) -> Seq<char> {
    match reason {
        CommandRejectionReason::InvalidPlayer => "Command rejected: invalid player"@,
        CommandRejectionReason::UnauthorizedFleet => "Command rejected: unauthorized fleet"@,
        CommandRejectionReason::NonFiniteDestination => "Command rejected: invalid destination"@,
        CommandRejectionReason::DestinationOutsideArena => "Command rejected: outside arena"@,
        CommandRejectionReason::InvalidCommand => "Command rejected: invalid command"@,
    }
}

/// The notice shown when the server rejects one of the player's commands.
pub fn rejection_message(reason: CommandRejectionReason) -> (r: &'static str)
    ensures
        r@ == rejection_message_spec(reason),
{
    match reason {
        CommandRejectionReason::InvalidPlayer => "Command rejected: invalid player",
        CommandRejectionReason::UnauthorizedFleet => "Command rejected: unauthorized fleet",
        CommandRejectionReason::NonFiniteDestination => "Command rejected: invalid destination",
        CommandRejectionReason::DestinationOutsideArena => "Command rejected: outside arena",
        CommandRejectionReason::InvalidCommand => "Command rejected: invalid command",
    }
}

/// How long a rejection notice is shown, in milliseconds.
pub const REJECTION_NOTICE_MS: u64 = 2000;

/// The rejection notice currently shown, if any, with the time (in
/// milliseconds of a monotonic clock chosen by the host) at which it expires.
pub struct RejectionNotice {
    notice: Option<(&'static str, u64)>,
}

impl View for RejectionNotice {
    type V = Option<(Seq<char>, u64)>;

    closed spec fn view(&self) -> Option<(Seq<char>, u64)> {
        match self.notice {
            Some((message, expires)) => Some((message@, expires)),
            None => None,
        }
    }
}

impl RejectionNotice {
    pub fn new() -> (r: RejectionNotice)
        ensures
            r@ is None,
    {
        RejectionNotice { notice: None }
    }

    /// Shows the notice for a rejection received at `now`.
    pub fn show(&mut self, reason: CommandRejectionReason, now: u64)
        requires
            now + REJECTION_NOTICE_MS <= u64::MAX,
        ensures
            final(self)@ == Some((rejection_message_spec(reason), (now + REJECTION_NOTICE_MS) as u64)),
    {
        self.notice = Some((rejection_message(reason), now + REJECTION_NOTICE_MS));
    }

    /// Hides the notice (a new command was issued, or the match was reset).
    pub fn clear(&mut self)
        ensures
            final(self)@ is None,
    {
        self.notice = None;
    }

    /// The notice shown at `now`; an expired one is dropped.
    pub fn text(&mut self, now: u64) -> (r: Option<&'static str>)
        ensures
            final(self)@ == (match old(self)@ {
                Some((_, expires)) => if expires <= now { None } else { old(self)@ },
                None => None,
            }),
            match final(self)@ {
                Some((message, _)) => r matches Some(t) && t@ == message,
                None => r is None,
            },
    {
        match self.notice {
            Some((message, expires)) => {
                if expires <= now {
                    self.notice = None;
                    None
                } else {
                    Some(message)
                }
            },
            None => None,
        }
    }
}

/// The window title: the player's title once a session is up (the game's
/// name before), followed by the rejection notice when one is shown.
pub fn title_with_notice(player_slot: Option<u32>, notice: Option<&str>) -> (r: String)
    ensures
        r@ == (match player_slot {
            Some(slot) => "Spacegame 2D - Player "@ + decimal_spec(slot as nat),
            None => "Spacegame 2D"@,
        }) + (match notice {
            Some(n) => " \u{2014} "@ + n@,
            None => Seq::<char>::empty(),
        }),
{
    let mut title = match player_slot {
        Some(slot) => window_title(slot),
        None => "Spacegame 2D".to_owned(),
    };
    match notice {
        Some(n) => {
            title.append(" \u{2014} ");
            title.append(n);
        },
        None => {},
    }
    title
}

/// Whether a destination marker waits for the server or was confirmed.
#[derive(Clone, Copy, Debug, PartialEq, Eq, Structural)]
pub enum MarkerStatus {
    Pending,
    Confirmed,
}

/// A destination marker to draw: its position, as the bit patterns of its
/// two coordinates, and its status.
#[derive(Clone, Copy, Debug, PartialEq, Eq)]
pub struct DestinationMarker {
    pub position: [u32; 2],
    pub status: MarkerStatus,
}

/// The requested destinations `p` without the one for request `sequence`.
pub open spec fn without_sequence(p: Seq<(u32, [u32; 2])>, sequence: u32) -> Seq<(u32, [u32; 2])>
    decreases p.len(),
{
    if p.len() == 0 {
        p
    } else {
        let rest = without_sequence(p.drop_last(), sequence);
        if p.last().0 != sequence {
            rest.push(p.last())
        } else {
            rest
        }
    }
}

/// The confirmed markers that survive a frame in which the `i`-th was
/// (`routing[i]`) or was not routing a unit: a marker becomes active once it
/// routes, and an active marker is dropped once it no longer does.
pub open spec fn surviving(c: Seq<([u32; 2], bool)>, routing: Seq<bool>) -> Seq<([u32; 2], bool)>
    decreases c.len(),
{
    if c.len() == 0 {
        c
    } else {
        let rest = surviving(c.drop_last(), routing);
        let i = c.len() - 1;
        let active = c[i].1 || routing[i];
        if !active || routing[i] {
            rest.push((c[i].0, active))
        } else {
            rest
        }
    }
}

/// The markers to draw: the pending ones, then the confirmed ones.
pub open spec fn markers_spec(
    pending: Seq<(u32, [u32; 2])>,
    confirmed: Seq<([u32; 2], bool)>,
) -> Seq<DestinationMarker> {
    pending.map_values(|e: (u32, [u32; 2])| DestinationMarker { position: e.1, status: MarkerStatus::Pending })
        + confirmed.map_values(
        |e: ([u32; 2], bool)| DestinationMarker { position: e.0, status: MarkerStatus::Confirmed },
    )
}

/// The destinations the local player asked for: pending until the server
/// confirms or rejects them, then confirmed until the fleet has arrived;
/// and the notice of the last rejection.
pub struct DestinationPresentation {
    pending: Vec<(u32, [u32; 2])>,
    confirmed: Vec<([u32; 2], bool)>,
    rejection: RejectionNotice,
}

/// The model of a [`DestinationPresentation`].
pub struct DestinationView {
    /// Requested destinations by request sequence number.
    pub pending: Seq<(u32, [u32; 2])>,
    /// Confirmed destinations, each with whether it has started routing a unit.
    pub confirmed: Seq<([u32; 2], bool)>,
    pub rejection: Option<(Seq<char>, u64)>,
}

impl View for DestinationPresentation {
    type V = DestinationView;

    closed spec fn view(&self) -> DestinationView {
        DestinationView { pending: self.pending@, confirmed: self.confirmed@, rejection: self.rejection@ }
    }
}

impl DestinationPresentation {
    pub fn new() -> (r: DestinationPresentation)
        ensures
            r@.pending.len() == 0,
            r@.confirmed.len() == 0,
            r@.rejection is None,
    {
        DestinationPresentation { pending: Vec::new(), confirmed: Vec::new(), rejection: RejectionNotice::new() }
    }

    /// The player asked for `destination` with request `sequence`; any
    /// rejection notice is hidden.
    pub fn begin(&mut self, sequence: u32, destination: [u32; 2])
        ensures
            final(self)@.pending == old(self)@.pending.push((sequence, destination)),
            final(self)@.confirmed == old(self)@.confirmed,
            final(self)@.rejection is None,
    {
        self.pending.push((sequence, destination));
        self.rejection.clear();
    }

    /// Forgets every marker and the rejection notice.
    pub fn clear(&mut self)
        ensures
            final(self)@.pending.len() == 0,
            final(self)@.confirmed.len() == 0,
            final(self)@.rejection is None,
    {
        self.pending = Vec::new();
        self.confirmed = Vec::new();
        self.rejection.clear();
    }

    fn drop_pending(&mut self, sequence: u32)
        ensures
            final(self)@ == (DestinationView {
                pending: without_sequence(old(self)@.pending, sequence),
                ..old(self)@
            }),
    {
        let mut kept: Vec<(u32, [u32; 2])> = Vec::new();
        let n = self.pending.len();
        let mut i: usize = 0;
        while i < n
            invariant
                n == self.pending@.len(),
                i <= n,
                kept@ == without_sequence(self.pending@.take(i as int), sequence),
            decreases n - i,
        {
            let entry = self.pending[i];
            proof {
                assert(self.pending@.take(i as int + 1).drop_last() == self.pending@.take(i as int));
            }
            if entry.0 != sequence {
                kept.push(entry);
            }
            i = i + 1;
        }
        proof {
            assert(self.pending@.take(n as int) == self.pending@);
        }
        self.pending = kept;
    }

    /// The server scheduled `command`. A reset clears everything; a
    /// destination of the local player's is confirmed and no longer pending.
    pub fn authoritative(&mut self, local_slot: u32, command: &AuthoritativeCommand)
        ensures
            match command.command {
                CommandData::ResetSimulation => {
                    &&& final(self)@.pending.len() == 0
                    &&& final(self)@.confirmed.len() == 0
                    &&& final(self)@.rejection is None
                },
                CommandData::SetDestination { destination, .. } => if command.player_slot == local_slot {
                    final(self)@ == (DestinationView {
                        pending: without_sequence(old(self)@.pending, command.sequence),
                        confirmed: old(self)@.confirmed.push((destination, false)),
                        rejection: old(self)@.rejection,
                    })
                } else {
                    final(self)@ == old(self)@
                },
            },
    {
        match &command.command {
            CommandData::ResetSimulation => {
                self.clear();
            },
            CommandData::SetDestination { destination, .. } => {
                if command.player_slot != local_slot {
                    return;
                }
                self.confirmed.push((*destination, false));
                self.drop_pending(command.sequence);
            },
        }
    }

    /// The server rejected request `rejection.sequence` at `now`: it is no
    /// longer pending and its notice is shown.
    pub fn rejected(&mut self, rejection: &CommandRejected, now: u64)
        requires
            now + REJECTION_NOTICE_MS <= u64::MAX,
        ensures
            final(self)@ == (DestinationView {
                pending: without_sequence(old(self)@.pending, rejection.sequence),
                confirmed: old(self)@.confirmed,
                rejection: Some((rejection_message_spec(rejection.reason), (now + REJECTION_NOTICE_MS) as u64)),
            }),
    {
        self.drop_pending(rejection.sequence);
        self.rejection.show(rejection.reason, now);
    }

    /// The markers to draw this frame, given for each confirmed destination
    /// whether a unit is routing to it now.
    pub fn markers(&mut self, routing: &[bool]) -> (r: Vec<DestinationMarker>)
        requires
            routing@.len() == old(self)@.confirmed.len(),
        ensures
            final(self)@ == (DestinationView {
                confirmed: surviving(old(self)@.confirmed, routing@),
                ..old(self)@
            }),
            r@ == markers_spec(final(self)@.pending, final(self)@.confirmed),
    {
        let n = self.confirmed.len();
        let mut kept: Vec<([u32; 2], bool)> = Vec::new();
        let mut i: usize = 0;
        while i < n
            invariant
                n == self.confirmed@.len(),
                n == routing@.len(),
                i <= n,
                kept@ == surviving(self.confirmed@.take(i as int), routing@),
            decreases n - i,
        {
            let (position, was_active) = self.confirmed[i];
            let active = was_active || routing[i];
            proof {
                let t = self.confirmed@.take(i as int + 1);
                assert(t.drop_last() == self.confirmed@.take(i as int));
            }
            if !active || routing[i] {
                kept.push((position, active));
            }
            i = i + 1;
        }
        proof {
            assert(self.confirmed@.take(n as int) == self.confirmed@);
        }
        self.confirmed = kept;
        let mut out: Vec<DestinationMarker> = Vec::new();
        let np = self.pending.len();
        let mut j: usize = 0;
        while j < np
            invariant
                np == self.pending@.len(),
                j <= np,
                out@ == self.pending@.take(j as int).map_values(
                    |e: (u32, [u32; 2])| DestinationMarker { position: e.1, status: MarkerStatus::Pending },
                ),
            decreases np - j,
        {
            out.push(DestinationMarker { position: self.pending[j].1, status: MarkerStatus::Pending });
            proof {
                assert(self.pending@.take(j as int + 1) == self.pending@.take(j as int).push(self.pending@[j as int]));
            }
            j = j + 1;
        }
        let ghost head = out@;
        let nc = self.confirmed.len();
        let mut k: usize = 0;
        while k < nc
            invariant
                nc == self.confirmed@.len(),
                k <= nc,
                out@ == head + self.confirmed@.take(k as int).map_values(
                    |e: ([u32; 2], bool)| DestinationMarker { position: e.0, status: MarkerStatus::Confirmed },
                ),
            decreases nc - k,
        {
            out.push(DestinationMarker { position: self.confirmed[k].0, status: MarkerStatus::Confirmed });
            proof {
                assert(self.confirmed@.take(k as int + 1) == self.confirmed@.take(k as int).push(self.confirmed@[k as int]));
            }
            k = k + 1;
        }
        proof {
            assert(self.pending@.take(np as int) == self.pending@);
            assert(self.confirmed@.take(nc as int) == self.confirmed@);
        }
        out
    }

    /// The rejection notice shown at `now`; an expired one is dropped.
    pub fn rejection_text(&mut self, now: u64) -> (r: Option<&'static str>)
        ensures
            final(self)@.pending == old(self)@.pending,
            final(self)@.confirmed == old(self)@.confirmed,
            final(self)@.rejection == (match old(self)@.rejection {
                Some((_, expires)) => if expires <= now { None } else { old(self)@.rejection },
                None => None,
            }),
            match final(self)@.rejection {
                Some((message, _)) => r matches Some(t) && t@ == message,
                None => r is None,
            },
    {
        self.rejection.text(now)
    }
}

} // verus!

