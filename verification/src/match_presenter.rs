//! The HUD's view of the match session: the client's network state turned
//! into the models the UI displays, numbered so that the UI can drop stale
//! updates, and remembering the opponent while it is away.

use crate::client_net::{has_local, network_wf, started_spec, NetworkState, NetworkView};
use crate::objective::SIMULATION_HZ;
use crate::session::{
    OpponentPresence as SessionPresence, PlayerColor as SessionColor, SessionParticipant,
    SessionParticipantView,
};
use crate::tick::saturating_add_u64;
use crate::ui_protocol::{
    MatchClockHudModel, MatchParticipantHudModel, MatchSessionResetReason, MatchSessionState,
    OpponentPresence, PlayerColor,
};
use vstd::prelude::*;

verus! {

/// The model of a [`MatchParticipantHudModel`].
pub struct HudParticipantView {
    pub player_slot: u32,
    pub display_name: Seq<char>,
    pub color: PlayerColor,
    pub color_hex: Seq<char>,
}

pub open spec fn hud_participant_view(m: MatchParticipantHudModel) -> HudParticipantView {
    HudParticipantView {
        player_slot: m.player_slot,
        display_name: m.display_name@,
        color: m.color,
        color_hex: m.color_hex@,
    }
}

/// The model of a [`MatchSessionState`].
pub enum MatchStateView {
    Reset { sequence: u64, reason: MatchSessionResetReason },
    Waiting {
        sequence: u64,
        local_player: HudParticipantView,
        opponent_presence: OpponentPresence,
        presence_revision: u64,
    },
    Active {
        sequence: u64,
        local_player: HudParticipantView,
        opponent_player: HudParticipantView,
        opponent_presence: OpponentPresence,
        presence_revision: u64,
        clock: MatchClockHudModel,
    },
}

pub open spec fn state_view(s: MatchSessionState) -> MatchStateView {
    match s {
        MatchSessionState::Reset { sequence, reason } => MatchStateView::Reset { sequence, reason },
        MatchSessionState::Waiting { sequence, local_player, opponent_presence, presence_revision } => {
            MatchStateView::Waiting {
                sequence,
                local_player: hud_participant_view(local_player),
                opponent_presence,
                presence_revision,
            }
        },
        MatchSessionState::Active {
            sequence,
            local_player,
            opponent_player,
            opponent_presence,
            presence_revision,
            clock,
        } => MatchStateView::Active {
            sequence,
            local_player: hud_participant_view(local_player),
            opponent_player: hud_participant_view(opponent_player),
            opponent_presence,
            presence_revision,
            clock,
        },
    }
}

/// The presenter's state: the last sequence number handed out, the last
/// opponent seen, the elapsed seconds last shown, and the current model.
pub struct MatchSessionPresenter {
    sequence: u64,
    last_opponent: Option<MatchParticipantHudModel>,
    last_elapsed_whole_seconds: Option<u64>,
    state: MatchSessionState,
}

/// The model of a [`MatchSessionPresenter`].
pub struct PresenterView {
    pub sequence: u64,
    pub last_opponent: Option<HudParticipantView>,
    pub last_elapsed: Option<u64>,
    pub state: MatchStateView,
}

impl View for MatchSessionPresenter {
    type V = PresenterView;

    closed spec fn view(&self) -> PresenterView {
        PresenterView {
            sequence: self.sequence,
            last_opponent: match self.last_opponent {
                Some(m) => Some(hud_participant_view(m)),
                None => None,
            },
            last_elapsed: self.last_elapsed_whole_seconds,
            state: state_view(self.state),
        }
    }
}

/// The HUD model of a session participant: slot 1 must play cyan and slot 2
/// coral.
pub open spec fn participant_spec(p: SessionParticipantView) -> Result<HudParticipantView, &'static str> {
    if p.color == SessionColor::Cyan && p.player_slot == 1 {
        Ok(
            HudParticipantView {
                player_slot: p.player_slot,
                display_name: p.display_name,
                color: PlayerColor::Cyan,
                color_hex: "#22CFE8"@,
            },
        )
    } else if p.color == SessionColor::Coral && p.player_slot == 2 {
        Ok(
            HudParticipantView {
                player_slot: p.player_slot,
                display_name: p.display_name,
                color: PlayerColor::Coral,
                color_hex: "#FF6A47"@,
            },
        )
    } else {
        Err("participant color does not match slot")
    }
}

pub open spec fn presence_spec(p: SessionPresence) -> OpponentPresence {
    match p {
        SessionPresence::Waiting => OpponentPresence::Waiting,
        SessionPresence::Present => OpponentPresence::Present,
        SessionPresence::Disconnected => OpponentPresence::Disconnected,
    }
}

/// The first participant from index `i` on that holds `slot`.
pub open spec fn find_slot(ps: Seq<SessionParticipantView>, slot: u32, i: int) -> Option<SessionParticipantView>
    decreases ps.len() - i,
{
    if i < 0 || i >= ps.len() {
        None
    } else if ps[i].player_slot == slot {
        Some(ps[i])
    } else {
        find_slot(ps, slot, i + 1)
    }
}

/// The first participant from index `i` on that does not hold `slot`.
pub open spec fn find_other(ps: Seq<SessionParticipantView>, slot: u32, i: int) -> Option<SessionParticipantView>
    decreases ps.len() - i,
{
    if i < 0 || i >= ps.len() {
        None
    } else if ps[i].player_slot != slot {
        Some(ps[i])
    } else {
        find_other(ps, slot, i + 1)
    }
}

proof fn lemma_find_slot_some(ps: Seq<SessionParticipantView>, slot: u32, i: int, k: int)
    requires
        0 <= i <= k < ps.len(),
        ps[k].player_slot == slot,
    ensures
        find_slot(ps, slot, i) is Some,
    decreases k - i,
{
    if ps[i].player_slot != slot {
        lemma_find_slot_some(ps, slot, i + 1, k);
    }
}

pub open spec fn next_sequence(sequence: u64) -> u64 {
    saturating_add_u64(sequence, 1)
}

/// The opponent remembered after looking at `n`: the current one if the
/// roster has one whose model is valid, the last one otherwise.
pub open spec fn remembered_opponent(p: PresenterView, n: NetworkView) -> Option<HudParticipantView> {
    match find_other(n.session.participants, n.session.local_player_slot, 0) {
        Some(o) => match participant_spec(o) {
            Ok(m) => Some(m),
            Err(_) => p.last_opponent,
        },
        None => p.last_opponent,
    }
}

/// What [`MatchSessionPresenter::update`] makes of the network state `n`:
/// the presenter afterwards, and whether the update failed (and why).
pub open spec fn update_spec(p: PresenterView, n: NetworkView) -> (PresenterView, Result<(), &'static str>) {
    let s = n.session;
    let local = participant_spec(find_slot(s.participants, s.local_player_slot, 0)->0);
    let presence = presence_spec(s.opponent_presence);
    if local is Err {
        (p, Err(local->Err_0))
    } else {
        match started_spec(s) {
            None => if s.opponent_presence != SessionPresence::Waiting {
                (p, Err("inactive match timing must be waiting"))
            } else {
                let seq = next_sequence(p.sequence);
                (
                    PresenterView {
                        sequence: seq,
                        last_opponent: None,
                        last_elapsed: None,
                        state: MatchStateView::Waiting {
                            sequence: seq,
                            local_player: local->Ok_0,
                            opponent_presence: presence,
                            presence_revision: s.presence_revision,
                        },
                    },
                    Ok(()),
                )
            },
            Some(started) => {
                let current = find_other(s.participants, s.local_player_slot, 0);
                if current is Some && participant_spec(current->0) is Err {
                    (p, Err(participant_spec(current->0)->Err_0))
                } else {
                    let remembered = remembered_opponent(p, n);
                    let kept = PresenterView { last_opponent: remembered, ..p };
                    if remembered is None {
                        (kept, Err("active match is missing opponent identity"))
                    } else if s.opponent_presence == SessionPresence::Waiting {
                        (kept, Err("active match timing cannot be waiting"))
                    } else {
                        let elapsed = crate::client_net::elapsed_seconds_spec(started, n.local_tick);
                        let seq = next_sequence(p.sequence);
                        (
                            PresenterView {
                                sequence: seq,
                                last_opponent: remembered,
                                last_elapsed: Some(elapsed),
                                state: MatchStateView::Active {
                                    sequence: seq,
                                    local_player: local->Ok_0,
                                    opponent_player: remembered->0,
                                    opponent_presence: presence,
                                    presence_revision: s.presence_revision,
                                    clock: MatchClockHudModel {
                                        started_at_tick: started.0,
                                        current_tick: n.local_tick.0,
                                        ticks_per_second: SIMULATION_HZ,
                                        elapsed_whole_seconds: elapsed,
                                    },
                                },
                            },
                            Ok(()),
                        )
                    }
                }
            },
        }
    }
}

fn participant(p: &SessionParticipant) -> (r: Result<MatchParticipantHudModel, &'static str>)
    ensures
        match participant_spec(p@) {
            Ok(m) => r matches Ok(x) && hud_participant_view(x) == m,
            Err(e) => r == Err::<MatchParticipantHudModel, &'static str>(e),
        },
{
    proof {
        reveal_strlit("#22CFE8");
        reveal_strlit("#FF6A47");
    }
    if p.color == SessionColor::Cyan && p.player_slot == 1 {
        Ok(
            MatchParticipantHudModel {
                player_slot: p.player_slot,
                display_name: p.display_name.clone(),
                color: PlayerColor::Cyan,
                color_hex: "#22CFE8".to_owned(),
            },
        )
    } else if p.color == SessionColor::Coral && p.player_slot == 2 {
        Ok(
            MatchParticipantHudModel {
                player_slot: p.player_slot,
                display_name: p.display_name.clone(),
                color: PlayerColor::Coral,
                color_hex: "#FF6A47".to_owned(),
            },
        )
    } else {
        Err("participant color does not match slot")
    }
}

fn presence(p: SessionPresence) -> (r: OpponentPresence)
    ensures
        r == presence_spec(p),
{
    match p {
        SessionPresence::Waiting => OpponentPresence::Waiting,
        SessionPresence::Present => OpponentPresence::Present,
        SessionPresence::Disconnected => OpponentPresence::Disconnected,
    }
}

fn copy_model(m: &MatchParticipantHudModel) -> (r: MatchParticipantHudModel)
    ensures
        hud_participant_view(r) == hud_participant_view(*m),
{
    MatchParticipantHudModel {
        player_slot: m.player_slot,
        display_name: m.display_name.clone(),
        color: m.color,
        color_hex: m.color_hex.clone(),
    }
}

impl MatchSessionPresenter {
    /// A presenter that has shown nothing yet: its model is the startup reset.
    pub fn new() -> (p: MatchSessionPresenter)
        ensures
            p@ == (PresenterView {
                sequence: 0,
                last_opponent: None,
                last_elapsed: None,
                state: MatchStateView::Reset { sequence: 0, reason: MatchSessionResetReason::Startup },
            }),
    {
        MatchSessionPresenter {
            sequence: 0,
            last_opponent: None,
            last_elapsed_whole_seconds: None,
            state: MatchSessionState::Reset { sequence: 0, reason: MatchSessionResetReason::Startup },
        }
    }

    /// The current model.
    pub fn state(&self) -> (r: &MatchSessionState)
        ensures
            state_view(*r) == self@.state,
    {
        &self.state
    }

    /// Forgets the match and shows a reset with the next sequence number.
    pub fn reset(&mut self, reason: MatchSessionResetReason) -> (r: &MatchSessionState)
        ensures
            final(self)@ == (PresenterView {
                sequence: next_sequence(old(self)@.sequence),
                last_opponent: None,
                last_elapsed: None,
                state: MatchStateView::Reset { sequence: next_sequence(old(self)@.sequence), reason },
            }),
            state_view(*r) == final(self)@.state,
    {
        self.sequence = self.sequence.saturating_add(1);
        self.last_opponent = None;
        self.last_elapsed_whole_seconds = None;
        self.state = MatchSessionState::Reset { sequence: self.sequence, reason };
        &self.state
    }

    /// Rebuilds the model from the client's network state. Without a
    /// running match the opponent must be awaited; with one, the opponent
    /// (present now or remembered from earlier) and the match clock are shown.
    pub fn update(&mut self, session: &NetworkState) -> (r: Result<&MatchSessionState, &'static str>)
        requires
            network_wf(session@),
        ensures
            final(self)@ == update_spec(old(self)@, session@).0,
            match update_spec(old(self)@, session@).1 {
                Ok(()) => r matches Ok(s) && state_view(*s) == final(self)@.state,
                Err(e) => r == Err::<&MatchSessionState, &'static str>(e),
            },
    {
        let snapshot = session.session_snapshot();
        let ghost ps = snapshot@.participants;
        let ghost slot = snapshot.local_player_slot;
        let mut i: usize = 0;
        proof {
            let k = choose|k: int| 0 <= k < ps.len() && #[trigger] ps[k].player_slot == slot;
            lemma_find_slot_some(ps, slot, 0, k);
        }
        while i < snapshot.participants.len() && snapshot.participants[i].player_slot != snapshot.local_player_slot
            invariant
                i <= snapshot.participants@.len(),
                ps == snapshot@.participants,
                slot == snapshot.local_player_slot,
                find_slot(ps, slot, 0) == find_slot(ps, slot, i as int),
                find_slot(ps, slot, 0) is Some,
            decreases snapshot.participants.len() - i,
        {
            i = i + 1;
        }
        if i >= snapshot.participants.len() {
            return Err("participant color does not match slot");
        }
        let local = participant(&snapshot.participants[i])?;
        let presence = presence(snapshot.opponent_presence);
        match session.match_started_at() {
            None => {
                if snapshot.opponent_presence != SessionPresence::Waiting {
                    return Err("inactive match timing must be waiting");
                }
                self.last_opponent = None;
                self.last_elapsed_whole_seconds = None;
                self.sequence = self.sequence.saturating_add(1);
                self.state = MatchSessionState::Waiting {
                    sequence: self.sequence,
                    local_player: local,
                    opponent_presence: presence,
                    presence_revision: snapshot.presence_revision,
                };
                Ok(&self.state)
            },
            Some(started_at_tick) => {
                let mut j: usize = 0;
                while j < snapshot.participants.len() && snapshot.participants[j].player_slot
                    == snapshot.local_player_slot
                    invariant
                        j <= snapshot.participants@.len(),
                        ps == snapshot@.participants,
                        slot == snapshot.local_player_slot,
                        find_other(ps, slot, 0) == find_other(ps, slot, j as int),
                    decreases snapshot.participants.len() - j,
                {
                    j = j + 1;
                }
                if j < snapshot.participants.len() {
                    let opponent = participant(&snapshot.participants[j])?;
                    self.last_opponent = Some(opponent);
                }
                let opponent = match &self.last_opponent {
                    Some(o) => copy_model(o),
                    None => {
                        return Err("active match is missing opponent identity");
                    },
                };
                if snapshot.opponent_presence == SessionPresence::Waiting {
                    return Err("active match timing cannot be waiting");
                }
                let elapsed = match session.elapsed_match_seconds() {
                    Some(e) => e,
                    None => {
                        return Err("active match is missing elapsed time");
                    },
                };
                self.last_elapsed_whole_seconds = Some(elapsed);
                self.sequence = self.sequence.saturating_add(1);
                self.state = MatchSessionState::Active {
                    sequence: self.sequence,
                    local_player: local,
                    opponent_player: opponent,
                    opponent_presence: presence,
                    presence_revision: snapshot.presence_revision,
                    clock: MatchClockHudModel {
                        started_at_tick: started_at_tick.0,
                        current_tick: session.local_tick().0,
                        ticks_per_second: SIMULATION_HZ,
                        elapsed_whole_seconds: elapsed,
                    },
                };
                Ok(&self.state)
            },
        }
    }

    /// Rebuilds the model only when the match clock shows another whole second.
    pub fn update_if_elapsed_changed(&mut self, session: &NetworkState) -> (r: Result<
        Option<&MatchSessionState>,
        &'static str,
    >)
        requires
            network_wf(session@),
        ensures
            ({
                let unchanged = match started_spec(session@.session) {
                    None => true,
                    Some(t) => old(self)@.last_elapsed == Some(
                        crate::client_net::elapsed_seconds_spec(t, session@.local_tick),
                    ),
                };
                &&& unchanged ==> r == Ok::<Option<&MatchSessionState>, &'static str>(None) && final(self)@
                    == old(self)@
                &&& !unchanged ==> final(self)@ == update_spec(old(self)@, session@).0 && match update_spec(
                    old(self)@,
                    session@,
                ).1 {
                    Ok(()) => r matches Ok(Some(s)) && state_view(*s) == final(self)@.state,
                    Err(e) => r == Err::<Option<&MatchSessionState>, &'static str>(e),
                }
            }),
    {
        let elapsed = match session.elapsed_match_seconds() {
            Some(e) => e,
            None => {
                return Ok(None);
            },
        };
        if self.last_elapsed_whole_seconds == Some(elapsed) {
            return Ok(None);
        }
        match self.update(session) {
            Ok(s) => Ok(Some(s)),
            Err(e) => Err(e),
        }
    }
}

impl Default for MatchSessionPresenter {
    fn default() -> (p: MatchSessionPresenter)
        ensures
            p@ == (PresenterView {
                sequence: 0,
                last_opponent: None,
                last_elapsed: None,
                state: MatchStateView::Reset { sequence: 0, reason: MatchSessionResetReason::Startup },
            }),
    {
        MatchSessionPresenter::new()
    }
}

/// Every model the presenter shows carries a larger sequence number than the
/// one before, until the counter saturates, so the UI can drop stale models.
pub proof fn lemma_sequence_advances(p: PresenterView, n: NetworkView)
    requires
        p.sequence < u64::MAX,
    ensures
        update_spec(p, n).1 is Ok ==> update_spec(p, n).0.sequence == p.sequence + 1,
        update_spec(p, n).1 is Err ==> update_spec(p, n).0.sequence == p.sequence,
        next_sequence(p.sequence) == p.sequence + 1,
{
}

} // verus!

