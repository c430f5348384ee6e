//! The shared view of a two-player match session.

use crate::error::ProtocolError;
use crate::identity::{display_name_spec, DisplayName};
use crate::text::str_eq;
use crate::tick::Tick;
use vstd::prelude::*;

verus! {

#[derive(Clone, Copy, Debug, PartialEq, Eq, Structural)]
pub enum PlayerColor {
    Cyan,
    Coral,
}

#[derive(Clone, Copy, Debug, PartialEq, Eq, Structural)]
pub enum OpponentPresence {
    Waiting,
    Present,
    Disconnected,
}

#[derive(Clone, Copy, Debug, PartialEq, Eq, Structural)]
pub enum MatchTiming {
    Inactive,
    Active { started_at_tick: Tick },
}

#[derive(Clone, Debug, PartialEq, Eq)]
pub struct SessionParticipant {
    pub player_slot: u32,
    pub display_name: String,
    pub color: PlayerColor,
}

/// The mathematical model of a [`SessionParticipant`].
pub struct SessionParticipantView {
    pub player_slot: u32,
    pub display_name: Seq<char>,
    pub color: PlayerColor,
}

impl View for SessionParticipant {
    type V = SessionParticipantView;

    open spec fn view(&self) -> SessionParticipantView {
        SessionParticipantView {
            player_slot: self.player_slot,
            display_name: self.display_name@,
            color: self.color,
        }
    }
}

#[derive(Clone, Debug, PartialEq, Eq)]
pub struct SessionSnapshot {
    pub local_player_slot: u32,
    pub participants: Vec<SessionParticipant>,
    pub opponent_presence: OpponentPresence,
    pub presence_revision: u64,
    pub match_timing: MatchTiming,
}

/// The mathematical model of a [`SessionSnapshot`].
pub struct SessionSnapshotView {
    pub local_player_slot: u32,
    pub participants: Seq<SessionParticipantView>,
    pub opponent_presence: OpponentPresence,
    pub presence_revision: u64,
    pub match_timing: MatchTiming,
}

pub open spec fn participant_views(ps: Seq<SessionParticipant>) -> Seq<SessionParticipantView> {
    ps.map_values(|p: SessionParticipant| p@)
}

impl View for SessionSnapshot {
    type V = SessionSnapshotView;

    open spec fn view(&self) -> SessionSnapshotView {
        SessionSnapshotView {
            local_player_slot: self.local_player_slot,
            participants: participant_views(self.participants@),
            opponent_presence: self.opponent_presence,
            presence_revision: self.presence_revision,
            match_timing: self.match_timing,
        }
    }
}

/// Slot 1 plays cyan, every other slot coral.
pub open spec fn expected_color(slot: u32) -> PlayerColor {
    if slot == 1 { PlayerColor::Cyan } else { PlayerColor::Coral }
}

/// The first defect of one participant whose predecessor held slot `previous`.
pub open spec fn participant_defect(p: SessionParticipantView, previous: u32) -> Option<
    ProtocolError,
> {
    if !(1 <= p.player_slot <= 2) || p.player_slot <= previous {
        Some(ProtocolError::InvalidSessionParticipantSlots)
    } else {
        match display_name_spec(p.display_name) {
            Err(_) => Some(ProtocolError::InvalidSessionDisplayName),
            Ok(canonical) => if canonical != p.display_name {
                Some(ProtocolError::NoncanonicalSessionDisplayName)
            } else if p.color != expected_color(p.player_slot) {
                Some(ProtocolError::InvalidSessionParticipantColor)
            } else {
                None
            },
        }
    }
}

/// The first defect in a roster, scanned in order with strictly increasing slots.
pub open spec fn roster_defect(ps: Seq<SessionParticipantView>, previous: u32) -> Option<
    ProtocolError,
>
    decreases ps.len(),
{
    if ps.len() == 0 {
        None
    } else {
        match participant_defect(ps[0], previous) {
            Some(e) => Some(e),
            None => roster_defect(ps.drop_first(), ps[0].player_slot),
        }
    }
}

/// How many participants hold `slot`.
pub open spec fn slot_count(ps: Seq<SessionParticipantView>, slot: u32) -> nat
    decreases ps.len(),
{
    if ps.len() == 0 {
        0
    } else {
        slot_count(ps.drop_last(), slot) + if ps.last().player_slot == slot { 1nat } else { 0nat }
    }
}

/// Whether the presence, roster size and match timing agree.
pub open spec fn presence_consistent(s: SessionSnapshotView) -> bool {
    let active = s.match_timing is Active;
    match s.opponent_presence {
        OpponentPresence::Waiting => s.participants.len() == 1 && !active,
        OpponentPresence::Present => s.participants.len() == 2 && active,
        OpponentPresence::Disconnected => s.participants.len() == 1 && active,
    }
}

/// The verdict of [`SessionSnapshot::validate`].
pub open spec fn session_verdict(s: SessionSnapshotView) -> Result<(), ProtocolError> {
    if !(1 <= s.local_player_slot <= 2) || s.participants.len() == 0 || s.participants.len() > 2 {
        Err(ProtocolError::InvalidSessionRoster)
    } else {
        match roster_defect(s.participants, 0) {
            Some(e) => Err(e),
            None => if slot_count(s.participants, s.local_player_slot) != 1 {
                Err(ProtocolError::SessionLocalPlayerMissing)
            } else if !presence_consistent(s) {
                Err(ProtocolError::InconsistentSessionState)
            } else {
                Ok(())
            },
        }
    }
}

proof fn lemma_roster_step(ps: Seq<SessionParticipantView>, i: int, previous: u32)
    requires
        0 <= i < ps.len(),
        participant_defect(ps[i], previous) is None,
    ensures
        roster_defect(ps.skip(i), previous) == roster_defect(ps.skip(i + 1), ps[i].player_slot),
{
    assert(ps.skip(i).drop_first() =~= ps.skip(i + 1));
    assert(ps.skip(i)[0] == ps[i]);
}

proof fn lemma_roster_fail(ps: Seq<SessionParticipantView>, i: int, previous: u32)
    requires
        0 <= i < ps.len(),
        participant_defect(ps[i], previous) is Some,
    ensures
        roster_defect(ps.skip(i), previous) == participant_defect(ps[i], previous),
{
    assert(ps.skip(i)[0] == ps[i]);
}

fn participant_check(p: &SessionParticipant, previous: u32) -> (r: Option<ProtocolError>)
    ensures
        r == participant_defect(p@, previous),
{
    if !(1 <= p.player_slot && p.player_slot <= 2) || p.player_slot <= previous {
        return Some(ProtocolError::InvalidSessionParticipantSlots);
    }
    match DisplayName::parse(p.display_name.as_str()) {
        Err(_) => Some(ProtocolError::InvalidSessionDisplayName),
        Ok(name) => {
            if !str_eq(name.as_str(), p.display_name.as_str()) {
                Some(ProtocolError::NoncanonicalSessionDisplayName)
            } else {
                let expected = if p.player_slot == 1 {
                    PlayerColor::Cyan
                } else {
                    PlayerColor::Coral
                };
                if p.color != expected {
                    Some(ProtocolError::InvalidSessionParticipantColor)
                } else {
                    None
                }
            }
        },
    }
}

impl SessionSnapshot {
    /// Checks that the roster holds one or two participants in increasing
    /// slot order with canonical names and slot colours, that the local
    /// player is among them exactly once, and that presence and match
    /// timing agree with the roster size.
    pub fn validate(&self) -> (r: Result<(), ProtocolError>)
        ensures
            r == session_verdict(self@),
    {
        let ghost ps = self@.participants;
        let n = self.participants.len();
        if !(1 <= self.local_player_slot && self.local_player_slot <= 2) || n == 0 || n > 2 {
            return Err(ProtocolError::InvalidSessionRoster);
        }
        let mut previous: u32 = 0;
        let mut local_count: usize = 0;
        let mut i: usize = 0;
        proof {
            assert(ps.skip(0) =~= ps);
            assert(ps.take(0) =~= Seq::<SessionParticipantView>::empty());
        }
        while i < n
            invariant
                n == self.participants@.len(),
                ps == self@.participants,
                ps.len() == n,
                i <= n,
                1 <= n <= 2,
                1 <= self.local_player_slot <= 2,
                roster_defect(ps, 0) == roster_defect(ps.skip(i as int), previous),
                local_count == slot_count(ps.take(i as int), self.local_player_slot),
                local_count <= i,
            decreases n - i,
        {
            let p = &self.participants[i];
            assert(p@ == ps[i as int]);
            let defect = participant_check(p, previous);
            if let Some(e) = defect {
                proof {
                    lemma_roster_fail(ps, i as int, previous);
                    assert(roster_defect(ps, 0) == Some(e));
                    assert(self@.participants.len() == n);
                }
                return Err(e);
            }
            proof {
                lemma_roster_step(ps, i as int, previous);
                assert(ps.take(i + 1).drop_last() =~= ps.take(i as int));
                assert(ps.take(i + 1).last() == ps[i as int]);
            }
            previous = p.player_slot;
            if p.player_slot == self.local_player_slot {
                local_count = local_count + 1;
            }
            i = i + 1;
        }
        proof {
            assert(ps.skip(n as int).len() == 0);
            assert(ps.take(n as int) =~= ps);
        }
        if local_count != 1 {
            return Err(ProtocolError::SessionLocalPlayerMissing);
        }
        let active = match self.match_timing {
            MatchTiming::Active { .. } => true,
            MatchTiming::Inactive => false,
        };
        let consistent = match self.opponent_presence {
            OpponentPresence::Waiting => n == 1 && !active,
            OpponentPresence::Present => n == 2 && active,
            OpponentPresence::Disconnected => n == 1 && active,
        };
        if !consistent {
            return Err(ProtocolError::InconsistentSessionState);
        }
        Ok(())
    }

    /// A copy of this snapshot.
    pub fn duplicate(&self) -> (r: SessionSnapshot)
        ensures
            r@ == self@,
    {
        let mut participants: Vec<SessionParticipant> = Vec::new();
        let mut i: usize = 0;
        while i < self.participants.len()
            invariant
                i <= self.participants@.len(),
                participants@.len() == i,
                forall|j: int| 0 <= j < i ==> #[trigger] participants@[j]@ == self.participants@[j]@,
            decreases self.participants.len() - i,
        {
            let p = &self.participants[i];
            participants.push(SessionParticipant {
                player_slot: p.player_slot,
                display_name: p.display_name.clone(),
                color: p.color,
            });
            i = i + 1;
        }
        proof {
            assert(participant_views(participants@) =~= participant_views(self.participants@));
        }
        SessionSnapshot {
            local_player_slot: self.local_player_slot,
            participants,
            opponent_presence: self.opponent_presence,
            presence_revision: self.presence_revision,
            match_timing: self.match_timing,
        }
    }

    /// The participant that holds the local slot.
    pub fn local_participant(&self) -> (r: &SessionParticipant)
        requires
            exists|k: int|
                0 <= k < self.participants@.len() && #[trigger] self.participants@[k].player_slot
                    == self.local_player_slot,
        ensures
            r.player_slot == self.local_player_slot,
            exists|k: int|
                0 <= k < self.participants@.len() && self.participants@[k] == *r && forall|j: int|
                    0 <= j < k ==> #[trigger] self.participants@[j].player_slot
                        != self.local_player_slot,
    {
        let mut i: usize = 0;
        while i < self.participants.len()
            invariant
                i <= self.participants@.len(),
                forall|j: int|
                    0 <= j < i ==> #[trigger] self.participants@[j].player_slot
                        != self.local_player_slot,
                exists|k: int|
                    0 <= k < self.participants@.len() && #[trigger] self.participants@[k].player_slot
                        == self.local_player_slot,
            decreases self.participants.len() - i,
        {
            if self.participants[i].player_slot == self.local_player_slot {
                return &self.participants[i];
            }
            i = i + 1;
        }
        proof {
            let k = choose|k: int|
                0 <= k < self.participants@.len() && #[trigger] self.participants@[k].player_slot
                    == self.local_player_slot;
            assert(self.participants@[k].player_slot != self.local_player_slot);
        }
        &self.participants[0]
    }
}

/// A snapshot that passes validation names its local player exactly once,
/// so [`SessionSnapshot::local_participant`] can be called on it.
pub proof fn lemma_valid_session_has_local(s: SessionSnapshotView)
    requires
        session_verdict(s) is Ok,
    ensures
        exists|k: int| 0 <= k < s.participants.len() && #[trigger] s.participants[k].player_slot
            == s.local_player_slot,
{
    lemma_slot_count_positive(s.participants, s.local_player_slot);
}

proof fn lemma_slot_count_positive(ps: Seq<SessionParticipantView>, slot: u32)
    requires
        slot_count(ps, slot) > 0,
    ensures
        exists|k: int| 0 <= k < ps.len() && #[trigger] ps[k].player_slot == slot,
    decreases ps.len(),
{
    if ps.last().player_slot == slot {
        assert(ps[ps.len() - 1].player_slot == slot);
    } else {
        lemma_slot_count_positive(ps.drop_last(), slot);
        let k = choose|k: int| 0 <= k < ps.drop_last().len() && #[trigger] ps.drop_last()[k].player_slot == slot;
        assert(ps[k] == ps.drop_last()[k]);
    }
}

} // verus!
