//! The server's two-player match session: who is present, since when the
//! match runs, and the session snapshot each participant is sent.

use crate::identity::{display_name_spec, DisplayName};
use crate::text::str_eq;
use crate::session::{
    participant_defect, participant_views, presence_consistent, roster_defect, session_verdict, slot_count, MatchTiming, OpponentPresence,
    PlayerColor, SessionParticipant, SessionParticipantView, SessionSnapshot, SessionSnapshotView,
};
use crate::tick::Tick;
use vstd::prelude::*;

verus! {

/// A snapshot addressed to one participant.
#[derive(Debug)]
pub struct SessionDelivery {
    pub recipient_slot: u32,
    pub snapshot: SessionSnapshot,
}

/// What a departure changes: the snapshots to send and whether a running match ended.
#[derive(Debug)]
pub struct SessionDeparture {
    pub deliveries: Vec<SessionDelivery>,
    pub active_match_ended: bool,
}

#[derive(Debug)]
pub struct ParticipantState {
    display_name: String,
    presence_revision: u64,
    has_seen_opponent: bool,
}

/// The mathematical model of a [`ParticipantState`].
pub struct ParticipantView {
    pub display_name: Seq<char>,
    pub presence_revision: u64,
    pub has_seen_opponent: bool,
}

impl View for ParticipantState {
    type V = ParticipantView;

    closed spec fn view(&self) -> ParticipantView {
        ParticipantView {
            display_name: self.display_name@,
            presence_revision: self.presence_revision,
            has_seen_opponent: self.has_seen_opponent,
        }
    }
}

/// The participants of slots 1 and 2 and the tick at which the running match started.
pub struct MatchSession {
    slot_one: Option<ParticipantState>,
    slot_two: Option<ParticipantState>,
    match_started_at: Option<Tick>,
}

/// The mathematical model of a [`MatchSession`].
pub struct MatchView {
    pub one: Option<ParticipantView>,
    pub two: Option<ParticipantView>,
    pub started: Option<Tick>,
}

pub open spec fn opt_view(p: Option<ParticipantState>) -> Option<ParticipantView> {
    match p {
        Some(p) => Some(p@),
        None => None,
    }
}

impl View for MatchSession {
    type V = MatchView;

    closed spec fn view(&self) -> MatchView {
        MatchView { one: opt_view(self.slot_one), two: opt_view(self.slot_two), started: self.match_started_at }
    }
}

pub open spec fn slot_of(v: MatchView, slot: u32) -> Option<ParticipantView> {
    if slot == 1 { v.one } else if slot == 2 { v.two } else { None }
}

pub open spec fn count(v: MatchView) -> nat {
    (if v.one is Some { 1nat } else { 0nat }) + (if v.two is Some { 1nat } else { 0nat })
}

/// A display name that canonicalises to itself.
pub open spec fn canonical(name: Seq<char>) -> bool {
    display_name_spec(name) == Ok::<Seq<char>, crate::identity::DisplayNameError>(name)
}

pub open spec fn participant_ok(p: Option<ParticipantView>) -> bool {
    match p {
        Some(p) => canonical(p.display_name),
        None => true,
    }
}

/// Whether every seated participant's display name is canonical.
pub open spec fn names_ok(v: MatchView) -> bool {
    participant_ok(v.one) && participant_ok(v.two)
}

/// The session's structural invariant: an empty session has no running
/// match; a full one has a running match that both have seen; and a lone
/// participant has seen an opponent exactly when a match is running.
pub open spec fn session_wf(v: MatchView) -> bool {
    &&& count(v) == 0 ==> v.started is None
    &&& count(v) == 2 ==> v.started is Some && v.one->0.has_seen_opponent && v.two->0.has_seen_opponent
    &&& v.one is Some && v.two is None ==> (v.one->0.has_seen_opponent <==> v.started is Some)
    &&& v.two is Some && v.one is None ==> (v.two->0.has_seen_opponent <==> v.started is Some)
}

pub open spec fn color_of_slot(slot: u32) -> PlayerColor {
    if slot == 1 { PlayerColor::Cyan } else { PlayerColor::Coral }
}

pub open spec fn roster(v: MatchView) -> Seq<SessionParticipantView> {
    let first = match v.one {
        Some(p) => seq![SessionParticipantView { player_slot: 1, display_name: p.display_name, color: PlayerColor::Cyan }],
        None => seq![],
    };
    let second = match v.two {
        Some(p) => seq![SessionParticipantView { player_slot: 2, display_name: p.display_name, color: PlayerColor::Coral }],
        None => seq![],
    };
    first + second
}

/// The snapshot sent to the participant in `recipient`.
pub open spec fn snapshot_for(v: MatchView, recipient: u32) -> SessionSnapshotView {
    let me = slot_of(v, recipient)->0;
    SessionSnapshotView {
        local_player_slot: recipient,
        participants: roster(v),
        opponent_presence: if count(v) == 2 {
            OpponentPresence::Present
        } else if me.has_seen_opponent {
            OpponentPresence::Disconnected
        } else {
            OpponentPresence::Waiting
        },
        presence_revision: me.presence_revision,
        match_timing: match v.started {
            Some(t) => MatchTiming::Active { started_at_tick: t },
            None => MatchTiming::Inactive,
        },
    }
}

pub open spec fn delivery_matches(d: SessionDelivery, v: MatchView, recipient: u32) -> bool {
    d.recipient_slot == recipient && d.snapshot@ == snapshot_for(v, recipient)
}

pub open spec fn bump(p: Option<ParticipantView>) -> Option<ParticipantView> {
    match p {
        Some(p) => Some(ParticipantView { presence_revision: (p.presence_revision + 1) as u64, ..p }),
        None => None,
    }
}

pub open spec fn seen(p: Option<ParticipantView>) -> Option<ParticipantView> {
    match p {
        Some(p) => Some(ParticipantView { has_seen_opponent: true, ..p }),
        None => None,
    }
}

/// The session after the participant `name` joins the free `slot` at `tick`.
pub open spec fn accept_spec(v: MatchView, slot: u32, name: Seq<char>, tick: Tick) -> MatchView {
    let newcomer = Some(ParticipantView { display_name: name, presence_revision: 0, has_seen_opponent: count(v) == 1 });
    let joined = if slot == 1 { MatchView { one: newcomer, ..v } } else { MatchView { two: newcomer, ..v } };
    if count(joined) == 2 {
        MatchView {
            one: if slot == 1 { seen(joined.one) } else { bump(seen(joined.one)) },
            two: if slot == 2 { seen(joined.two) } else { bump(seen(joined.two)) },
            started: if v.started is Some { v.started } else { Some(tick) },
        }
    } else {
        joined
    }
}

/// The session after the participant in `slot` leaves.
pub open spec fn depart_spec(v: MatchView, slot: u32) -> MatchView {
    if slot_of(v, slot) is None {
        v
    } else {
        let left = if slot == 1 { MatchView { one: None, ..v } } else { MatchView { two: None, ..v } };
        if count(left) == 0 {
            MatchView { started: None, ..left }
        } else {
            MatchView { one: bump(left.one), two: bump(left.two), ..left }
        }
    }
}

pub open spec fn revisions_bounded(v: MatchView) -> bool {
    &&& v.one matches Some(p) ==> p.presence_revision < u64::MAX
    &&& v.two matches Some(p) ==> p.presence_revision < u64::MAX
}

proof fn lemma_snapshot_valid(v: MatchView, recipient: u32)
    requires
        session_wf(v),
        names_ok(v),
        slot_of(v, recipient) is Some,
    ensures
        session_verdict(snapshot_for(v, recipient)) is Ok,
{
    let s = snapshot_for(v, recipient);
    let ps = roster(v);
    if v.one is Some && v.two is Some {
        assert(ps.len() == 2);
        assert(ps.drop_first().drop_first().len() == 0);
        assert(participant_defect(ps[0], 0) is None);
        assert(ps.drop_first()[0] == ps[1]);
        assert(participant_defect(ps[1], 1) is None);
        assert(roster_defect(ps.drop_first().drop_first(), 2) is None);
        assert(roster_defect(ps.drop_first(), 1) is None);
        assert(ps.drop_last().drop_last().len() == 0);
        assert(ps.drop_last().last() == ps[0]);
        assert(slot_count(ps.drop_last().drop_last(), recipient) == 0);
        assert(slot_count(ps.drop_last(), recipient) == if ps[0].player_slot == recipient { 1nat } else { 0nat });
        assert(slot_count(ps, recipient) == 1);
    } else if v.one is Some {
        assert(ps.len() == 1);
        assert(ps.drop_first().len() == 0);
        assert(participant_defect(ps[0], 0) is None);
        assert(roster_defect(ps.drop_first(), ps[0].player_slot) is None);
        assert(ps.drop_last().len() == 0);
        assert(slot_count(ps.drop_last(), recipient) == 0);
        assert(ps.last() == ps[0]);
        assert(slot_count(ps, recipient) == 1);
    } else {
        assert(ps.len() == 1);
        assert(ps.drop_first().len() == 0);
        assert(participant_defect(ps[0], 0) is None);
        assert(roster_defect(ps.drop_first(), ps[0].player_slot) is None);
        assert(ps.drop_last().len() == 0);
        assert(slot_count(ps.drop_last(), recipient) == 0);
        assert(ps.last() == ps[0]);
        assert(slot_count(ps, recipient) == 1);
    }
    assert(roster_defect(ps, 0) is None);
    assert(presence_consistent(s));
}

proof fn lemma_snapshot_invalid(v: MatchView, recipient: u32)
    requires
        session_wf(v),
        !names_ok(v),
        slot_of(v, recipient) is Some,
    ensures
        session_verdict(snapshot_for(v, recipient)) is Err,
{
    let ps = roster(v);
    if v.one is Some && v.two is Some {
        assert(ps.len() == 2);
        assert(ps.drop_first()[0] == ps[1]);
        if participant_ok(v.one) {
            assert(participant_defect(ps[0], 0) is None);
            assert(participant_defect(ps[1], 1) is Some);
            assert(roster_defect(ps.drop_first(), 1) is Some);
        } else {
            assert(participant_defect(ps[0], 0) is Some);
        }
        assert(roster_defect(ps, 0) is Some);
    } else {
        assert(ps.len() == 1);
        assert(participant_defect(ps[0], 0) is Some);
        assert(roster_defect(ps, 0) is Some);
    }
}

/// Every state a session reaches by joins and departures is consistent,
/// and the snapshot it sends a participant validates exactly when every
/// seated display name is canonical.
pub proof fn lemma_session_steps_preserve_wf(v: MatchView, slot: u32, name: Seq<char>, tick: Tick)
    requires
        session_wf(v),
    ensures
        (1 <= slot <= 2 && slot_of(v, slot) is None) ==> session_wf(accept_spec(v, slot, name, tick)),
        session_wf(depart_spec(v, slot)),
        forall|r: u32| #![trigger slot_of(v, r)] slot_of(v, r) is Some ==> (session_verdict(snapshot_for(v, r)) is Ok
            <==> names_ok(v)),
{
    assert forall|r: u32| #![trigger slot_of(v, r)] slot_of(v, r) is Some implies (session_verdict(
        snapshot_for(v, r),
    ) is Ok <==> names_ok(v)) by {
        if names_ok(v) {
            lemma_snapshot_valid(v, r);
        } else {
            lemma_snapshot_invalid(v, r);
        }
    }
}

/// A running match keeps its start tick while participants come and go, and
/// loses it only when the session empties.
pub proof fn lemma_start_anchor(v: MatchView, slot: u32, name: Seq<char>, tick: Tick)
    requires
        session_wf(v),
        v.started is Some,
    ensures
        (1 <= slot <= 2 && slot_of(v, slot) is None) ==> accept_spec(v, slot, name, tick).started == v.started,
        count(depart_spec(v, slot)) > 0 ==> depart_spec(v, slot).started == v.started,
        count(depart_spec(v, slot)) == 0 ==> depart_spec(v, slot).started is None,
{
}

/// Whether the participant who would survive the departure of `slot` has a
/// canonical name, so that its snapshot can be built.
pub open spec fn survivor_ok(v: MatchView, slot: u32) -> bool {
    slot_of(v, slot) is Some && count(v) == 2 ==> participant_ok(slot_of(v, (3 - slot) as u32))
}

/// Whether `name` is its own canonical display name.
fn is_canonical_name(name: &str) -> (r: bool)
    ensures
        r == canonical(name@),
{
    match DisplayName::parse(name) {
        Ok(parsed) => str_eq(parsed.as_str(), name),
        Err(_) => false,
    }
}

impl MatchSession {
    pub fn new() -> (s: MatchSession)
        ensures
            s@ == (MatchView { one: None, two: None, started: None }),
    {
        MatchSession { slot_one: None, slot_two: None, match_started_at: None }
    }

    /// The tick at which the running match started.
    pub fn match_started_at(&self) -> (r: Option<Tick>)
        ensures
            r == self@.started,
    {
        self.match_started_at
    }

    /// How many participants are present.
    pub fn participant_count(&self) -> (r: usize)
        ensures
            r == count(self@),
    {
        (if self.slot_one.is_some() { 1 } else { 0 }) + (if self.slot_two.is_some() { 1 } else { 0 })
    }

    /// The snapshot for the participant in `recipient_slot`; it is refused
    /// when it would not validate, which happens exactly when a seated
    /// display name is not canonical.
    pub fn delivery(&self, recipient_slot: u32) -> (r: Result<SessionDelivery, &'static str>)
        requires
            session_wf(self@),
        ensures
            slot_of(self@, recipient_slot) is None ==> r == Err::<SessionDelivery, &'static str>("unknown session recipient"),
            slot_of(self@, recipient_slot) is Some && names_ok(self@) ==> (r matches Ok(d) && delivery_matches(
                d,
                self@,
                recipient_slot,
            ) && session_verdict(d.snapshot@) is Ok),
            slot_of(self@, recipient_slot) is Some && !names_ok(self@) ==> r == Err::<SessionDelivery, &'static str>(
                "invalid session snapshot",
            ),
    {
        let me = if recipient_slot == 1 {
            &self.slot_one
        } else if recipient_slot == 2 {
            &self.slot_two
        } else {
            return Err("unknown session recipient");
        };
        let me = match me {
            Some(p) => p,
            None => {
                return Err("unknown session recipient");
            },
        };
        let full = self.slot_one.is_some() && self.slot_two.is_some();
        let opponent_presence = if full {
            OpponentPresence::Present
        } else if me.has_seen_opponent {
            OpponentPresence::Disconnected
        } else {
            OpponentPresence::Waiting
        };
        let mut participants: Vec<SessionParticipant> = Vec::new();
        if let Some(p) = &self.slot_one {
            participants.push(SessionParticipant { player_slot: 1, display_name: p.display_name.clone(), color: PlayerColor::Cyan });
        }
        if let Some(p) = &self.slot_two {
            participants.push(SessionParticipant { player_slot: 2, display_name: p.display_name.clone(), color: PlayerColor::Coral });
        }
        proof {
            assert(participant_views(participants@) =~= roster(self@));
        }
        let match_timing = match self.match_started_at {
            Some(started_at_tick) => MatchTiming::Active { started_at_tick },
            None => MatchTiming::Inactive,
        };
        let snapshot = SessionSnapshot {
            local_player_slot: recipient_slot,
            participants,
            opponent_presence,
            presence_revision: me.presence_revision,
            match_timing,
        };
        proof {
            assert(snapshot@ == snapshot_for(self@, recipient_slot));
            lemma_session_steps_preserve_wf(self@, 0, Seq::empty(), Tick(0));
            assert(slot_of(self@, recipient_slot) is Some);
        }
        if snapshot.validate().is_err() {
            return Err("invalid session snapshot");
        }
        Ok(SessionDelivery { recipient_slot, snapshot })
    }

    /// Seats `display_name` in the free `slot`. When the session becomes
    /// full, the match starts at `tick` unless it is already running, and
    /// both participants receive a snapshot (the newcomer's first);
    /// otherwise only the newcomer does. The participant is seated even
    /// when the snapshots are refused for a non-canonical name.
    pub fn accept(&mut self, slot: u32, display_name: String, tick: Tick) -> (r: Result<Vec<SessionDelivery>, &'static str>)
        requires
            session_wf(old(self)@),
            revisions_bounded(old(self)@),
        ensures
            !(1 <= slot <= 2 && slot_of(old(self)@, slot) is None) ==> r == Err::<Vec<SessionDelivery>, &'static str>(
                "invalid session slot acceptance",
            ) && final(self)@ == old(self)@,
            (1 <= slot <= 2 && slot_of(old(self)@, slot) is None) ==> ({
                let v = accept_spec(old(self)@, slot, display_name@, tick);
                &&& final(self)@ == v
                &&& session_wf(v)
                &&& names_ok(v) ==> (r matches Ok(ds) && (if count(v) == 2 {
                    ds@.len() == 2 && delivery_matches(ds@[0], v, slot) && delivery_matches(ds@[1], v, (3 - slot) as u32)
                } else {
                    ds@.len() == 1 && delivery_matches(ds@[0], v, slot)
                }))
                &&& !names_ok(v) ==> r == Err::<Vec<SessionDelivery>, &'static str>("invalid session snapshot")
            }),
    {
        let occupied = if slot == 1 {
            self.slot_one.is_some()
        } else if slot == 2 {
            self.slot_two.is_some()
        } else {
            true
        };
        if occupied {
            return Err("invalid session slot acceptance");
        }
        let ghost name = display_name@;
        let was_single = self.slot_one.is_some() || self.slot_two.is_some();
        let newcomer = ParticipantState { display_name, presence_revision: 0, has_seen_opponent: was_single };
        if slot == 1 {
            self.slot_one = Some(newcomer);
        } else {
            self.slot_two = Some(newcomer);
        }
        if self.slot_one.is_some() && self.slot_two.is_some() {
            if self.match_started_at.is_none() {
                self.match_started_at = Some(tick);
            }
            let one = self.slot_one.take();
            let two = self.slot_two.take();
            let one = match one {
                Some(p) => ParticipantState {
                    display_name: p.display_name,
                    presence_revision: if slot == 1 { p.presence_revision } else { p.presence_revision + 1 },
                    has_seen_opponent: true,
                },
                None => {
                    proof {
                        assert(false);
                    }
                    return Err("invalid session slot acceptance");
                },
            };
            let two = match two {
                Some(p) => ParticipantState {
                    display_name: p.display_name,
                    presence_revision: if slot == 2 { p.presence_revision } else { p.presence_revision + 1 },
                    has_seen_opponent: true,
                },
                None => {
                    proof {
                        assert(false);
                    }
                    return Err("invalid session slot acceptance");
                },
            };
            self.slot_one = Some(one);
            self.slot_two = Some(two);
            proof {
                assert(self@ == accept_spec(old(self)@, slot, name, tick));
                lemma_session_steps_preserve_wf(old(self)@, slot, name, tick);
            }
            let existing = if slot == 1 { 2 } else { 1 };
            let first = self.delivery(slot)?;
            let second = self.delivery(existing)?;
            let mut ds: Vec<SessionDelivery> = Vec::new();
            ds.push(first);
            ds.push(second);
            Ok(ds)
        } else {
            proof {
                assert(self@ == accept_spec(old(self)@, slot, name, tick));
                lemma_session_steps_preserve_wf(old(self)@, slot, name, tick);
            }
            let first = self.delivery(slot)?;
            let mut ds: Vec<SessionDelivery> = Vec::new();
            ds.push(first);
            Ok(ds)
        }
    }

    /// Removes the participant in `slot`. The last departure ends the
    /// running match; otherwise the survivor receives a snapshot.
    pub fn depart(&mut self, slot: u32) -> (r: SessionDeparture)
        requires
            session_wf(old(self)@),
            revisions_bounded(old(self)@),
            survivor_ok(old(self)@, slot),
        ensures
            final(self)@ == depart_spec(old(self)@, slot),
            session_wf(final(self)@),
            slot_of(old(self)@, slot) is None ==> r.deliveries@.len() == 0 && !r.active_match_ended,
            slot_of(old(self)@, slot) is Some && count(final(self)@) == 0 ==> r.deliveries@.len() == 0
                && r.active_match_ended == old(self)@.started is Some,
            slot_of(old(self)@, slot) is Some && count(final(self)@) == 1 ==> !r.active_match_ended
                && r.deliveries@.len() == 1 && delivery_matches(r.deliveries@[0], final(self)@, (3 - slot) as u32),
    {
        let removed = if slot == 1 {
            self.slot_one.take()
        } else if slot == 2 {
            self.slot_two.take()
        } else {
            None
        };
        if removed.is_none() {
            return SessionDeparture { deliveries: Vec::new(), active_match_ended: false };
        }
        proof {
            lemma_session_steps_preserve_wf(old(self)@, slot, Seq::empty(), Tick(0));
        }
        if self.slot_one.is_none() && self.slot_two.is_none() {
            let active_match_ended = self.match_started_at.is_some();
            self.match_started_at = None;
            return SessionDeparture { deliveries: Vec::new(), active_match_ended };
        }
        let survivor: u32 = if self.slot_one.is_some() { 1 } else { 2 };
        if survivor == 1 {
            let p = self.slot_one.take().unwrap();
            self.slot_one = Some(ParticipantState {
                display_name: p.display_name,
                presence_revision: p.presence_revision + 1,
                has_seen_opponent: p.has_seen_opponent,
            });
        } else {
            let p = self.slot_two.take().unwrap();
            self.slot_two = Some(ParticipantState {
                display_name: p.display_name,
                presence_revision: p.presence_revision + 1,
                has_seen_opponent: p.has_seen_opponent,
            });
        }
        proof {
            assert(self@ == depart_spec(old(self)@, slot));
            assert(names_ok(self@));
        }
        let mut deliveries: Vec<SessionDelivery> = Vec::new();
        match self.delivery(survivor) {
            Ok(d) => deliveries.push(d),
            Err(_) => {
                proof {
                    assert(false);
                }
            },
        }
        SessionDeparture { deliveries, active_match_ended: false }
    }

    /// Removes the participant in `slot` when the survivor's snapshot can be
    /// built; when the survivor's name is not canonical nothing changes and
    /// no departure is reported.
    pub fn depart_checked(&mut self, slot: u32) -> (r: Option<SessionDeparture>)
        requires
            session_wf(old(self)@),
            revisions_bounded(old(self)@),
        ensures
            !survivor_ok(old(self)@, slot) ==> r is None && final(self)@ == old(self)@,
            survivor_ok(old(self)@, slot) ==> r is Some && final(self)@ == depart_spec(old(self)@, slot),
    {
        let present = if slot == 1 {
            self.slot_one.is_some()
        } else if slot == 2 {
            self.slot_two.is_some()
        } else {
            false
        };
        if present && self.slot_one.is_some() && self.slot_two.is_some() {
            let other = if slot == 1 { &self.slot_two } else { &self.slot_one };
            let ok = match other {
                Some(p) => is_canonical_name(p.display_name.as_str()),
                None => true,
            };
            if !ok {
                return None;
            }
        }
        Some(self.depart(slot))
    }
}

impl Default for MatchSession {
    fn default() -> (s: MatchSession)
        ensures
            s@ == (MatchView { one: None, two: None, started: None }),
    {
        MatchSession::new()
    }
}

} // verus!
