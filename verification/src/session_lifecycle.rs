//! The client's connection lifecycle: one request at a time moves from
//! resolving the host through opening a socket and handshaking to a
//! connected session, or fails, or is cancelled.
//!
//! Times are milliseconds of a monotonic clock chosen by the host.

use crate::ui_protocol::{
    ConnectionFailureReason, ConnectionStateSnapshot, DisconnectedReason, LocalPlayerHudModel,
    PlayerColor, RequestId,
};
use vstd::prelude::*;

verus! {

/// How long a connection attempt may take, in milliseconds.
pub const CONNECTION_TIMEOUT_MS: u64 = 5000;

#[derive(Debug)]
pub struct ConnectionAttempt {
    pub id: RequestId,
    pub address: String,
    pub display_name: String,
    pub deadline: u64,
}

/// The mathematical model of a [`ConnectionAttempt`].
pub struct AttemptView {
    pub id: Seq<char>,
    pub address: Seq<char>,
    pub display_name: Seq<char>,
    pub deadline: u64,
}

impl View for ConnectionAttempt {
    type V = AttemptView;

    open spec fn view(&self) -> AttemptView {
        AttemptView { id: self.id@, address: self.address@, display_name: self.display_name@, deadline: self.deadline }
    }
}

impl ConnectionAttempt {
    /// A copy of this attempt.
    pub fn duplicate(&self) -> (r: ConnectionAttempt)
        ensures
            r@ == self@,
    {
        ConnectionAttempt {
            id: self.id.duplicate(),
            address: self.address.clone(),
            display_name: self.display_name.clone(),
            deadline: self.deadline,
        }
    }
}

pub enum ConnectionOutcome<S> {
    Connected { session: S, player_slot: u32 },
    Rejected(HandshakeOutcome),
    Failed,
}

#[derive(Clone, Copy, Debug, PartialEq, Eq, Structural)]
pub enum HandshakeOutcome {
    ServerFull,
    VersionMismatch,
    Rejected,
}

#[derive(Clone, Copy, Debug, PartialEq, Eq, Structural)]
pub enum ConnectionProgress {
    OpeningSocket,
    Handshaking,
}

enum SessionPhase<S> {
    Idle { address: String, reason: DisconnectedReason },
    ResolvingHost(ConnectionAttempt),
    OpeningSocket(ConnectionAttempt),
    Handshaking(ConnectionAttempt),
    Connected {
        request_id: RequestId,
        address: String,
        display_name: String,
        player_slot: u32,
        session: S,
    },
    Failed {
        request_id: RequestId,
        address: String,
        display_name: String,
        reason: ConnectionFailureReason,
    },
}

/// The mathematical model of the lifecycle's phase.
pub enum PhaseView {
    Idle { address: Seq<char>, reason: DisconnectedReason },
    ResolvingHost(AttemptView),
    OpeningSocket(AttemptView),
    Handshaking(AttemptView),
    Connected { request_id: Seq<char>, address: Seq<char>, display_name: Seq<char>, player_slot: u32 },
    Failed {
        request_id: Seq<char>,
        address: Seq<char>,
        display_name: Seq<char>,
        reason: ConnectionFailureReason,
    },
}

pub struct SessionLifecycle<S> {
    phase: SessionPhase<S>,
}

impl<S> View for SessionLifecycle<S> {
    type V = PhaseView;

    closed spec fn view(&self) -> PhaseView {
        match self.phase {
            SessionPhase::Idle { address, reason } => PhaseView::Idle { address: address@, reason },
            SessionPhase::ResolvingHost(a) => PhaseView::ResolvingHost(a@),
            SessionPhase::OpeningSocket(a) => PhaseView::OpeningSocket(a@),
            SessionPhase::Handshaking(a) => PhaseView::Handshaking(a@),
            SessionPhase::Connected { request_id, address, display_name, player_slot, .. } => PhaseView::Connected {
                request_id: request_id@,
                address: address@,
                display_name: display_name@,
                player_slot,
            },
            SessionPhase::Failed { request_id, address, display_name, reason } => PhaseView::Failed {
                request_id: request_id@,
                address: address@,
                display_name: display_name@,
                reason,
            },
        }
    }
}

/// The attempt in flight, if any.
pub open spec fn in_flight(p: PhaseView) -> Option<AttemptView> {
    match p {
        PhaseView::ResolvingHost(a) => Some(a),
        PhaseView::OpeningSocket(a) => Some(a),
        PhaseView::Handshaking(a) => Some(a),
        _ => None,
    }
}

/// Whether a new attempt may start: nothing is in flight and no session is up.
pub open spec fn may_connect(p: PhaseView) -> bool {
    in_flight(p) is None && !(p is Connected)
}

pub open spec fn failure_of(outcome: Option<HandshakeOutcome>) -> ConnectionFailureReason {
    match outcome {
        Some(HandshakeOutcome::ServerFull) => ConnectionFailureReason::ServerFull,
        Some(HandshakeOutcome::VersionMismatch) => ConnectionFailureReason::VersionMismatch,
        Some(HandshakeOutcome::Rejected) => ConnectionFailureReason::Rejected,
        None => ConnectionFailureReason::Network,
    }
}

pub open spec fn failed_from(a: AttemptView, reason: ConnectionFailureReason) -> PhaseView {
    PhaseView::Failed { request_id: a.id, address: a.address, display_name: a.display_name, reason }
}

/// The phase after an attempt ends with `outcome`.
pub open spec fn complete_spec<S>(a: AttemptView, outcome: ConnectionOutcome<S>) -> PhaseView {
    match outcome {
        ConnectionOutcome::Connected { player_slot, .. } => PhaseView::Connected {
            request_id: a.id,
            address: a.address,
            display_name: a.display_name,
            player_slot,
        },
        ConnectionOutcome::Rejected(h) => failed_from(a, failure_of(Some(h))),
        ConnectionOutcome::Failed => failed_from(a, failure_of(None)),
    }
}

impl<S> SessionLifecycle<S> {
    pub fn new(address: String) -> (l: SessionLifecycle<S>)
        ensures
            l@ == (PhaseView::Idle { address: address@, reason: DisconnectedReason::Startup }),
    {
        SessionLifecycle { phase: SessionPhase::Idle { address, reason: DisconnectedReason::Startup } }
    }

    /// Starts an attempt unless one is in flight or a session is up.
    pub fn connect(&mut self, id: RequestId, address: String, display_name: String, now: u64) -> (r: Option<ConnectionAttempt>)
        requires
            now + CONNECTION_TIMEOUT_MS <= u64::MAX,
        ensures
            !may_connect(old(self)@) ==> r is None && final(self)@ == old(self)@,
            may_connect(old(self)@) ==> ({
                let a = AttemptView {
                    id: id@,
                    address: address@,
                    display_name: display_name@,
                    deadline: (now + CONNECTION_TIMEOUT_MS) as u64,
                };
                &&& r matches Some(attempt) && attempt@ == a
                &&& final(self)@ == PhaseView::ResolvingHost(a)
            }),
    {
        match &self.phase {
            SessionPhase::ResolvingHost(_) | SessionPhase::OpeningSocket(_) | SessionPhase::Handshaking(_)
            | SessionPhase::Connected { .. } => {
                return None;
            },
            _ => {},
        }
        let attempt = ConnectionAttempt { id, address, display_name, deadline: now + CONNECTION_TIMEOUT_MS };
        let copy = attempt.duplicate();
        self.phase = SessionPhase::ResolvingHost(attempt);
        Some(copy)
    }

    /// Moves the attempt `id` one stage on: from resolving to opening the
    /// socket, or from opening the socket to handshaking.
    pub fn progress(&mut self, id: &RequestId, progress: ConnectionProgress) -> (r: bool)
        ensures
            r == (match (old(self)@, progress) {
                (PhaseView::ResolvingHost(a), ConnectionProgress::OpeningSocket) => a.id == id@,
                (PhaseView::OpeningSocket(a), ConnectionProgress::Handshaking) => a.id == id@,
                _ => false,
            }),
            r ==> final(self)@ == (match old(self)@ {
                PhaseView::ResolvingHost(a) => PhaseView::OpeningSocket(a),
                PhaseView::OpeningSocket(a) => PhaseView::Handshaking(a),
                p => p,
            }),
            !r ==> final(self)@ == old(self)@,
    {
        let next = match (&self.phase, progress) {
            (SessionPhase::ResolvingHost(attempt), ConnectionProgress::OpeningSocket) => {
                if !attempt.id.same_as(id) {
                    return false;
                }
                SessionPhase::OpeningSocket(attempt.duplicate())
            },
            (SessionPhase::OpeningSocket(attempt), ConnectionProgress::Handshaking) => {
                if !attempt.id.same_as(id) {
                    return false;
                }
                SessionPhase::Handshaking(attempt.duplicate())
            },
            _ => {
                return false;
            },
        };
        self.phase = next;
        true
    }

    /// Cancels the attempt `id` if it is in flight.
    pub fn cancel(&mut self, id: &RequestId) -> (r: bool)
        ensures
            r == (in_flight(old(self)@) matches Some(a) && a.id == id@),
            r ==> final(self)@ == (PhaseView::Idle {
                address: in_flight(old(self)@)->0.address,
                reason: DisconnectedReason::Cancelled,
            }),
            !r ==> final(self)@ == old(self)@,
    {
        let address = match &self.phase {
            SessionPhase::ResolvingHost(a) | SessionPhase::OpeningSocket(a) | SessionPhase::Handshaking(a) => {
                if !a.id.same_as(id) {
                    return false;
                }
                a.address.clone()
            },
            _ => {
                return false;
            },
        };
        self.phase = SessionPhase::Idle { address, reason: DisconnectedReason::Cancelled };
        true
    }

    /// Fails the attempt in flight once its deadline has passed.
    pub fn timeout(&mut self, now: u64) -> (r: bool)
        ensures
            r == (in_flight(old(self)@) matches Some(a) && now >= a.deadline),
            r ==> final(self)@ == failed_from(in_flight(old(self)@)->0, ConnectionFailureReason::Timeout),
            !r ==> final(self)@ == old(self)@,
    {
        let failed = match &self.phase {
            SessionPhase::ResolvingHost(a) | SessionPhase::OpeningSocket(a) | SessionPhase::Handshaking(a) => {
                if now < a.deadline {
                    return false;
                }
                SessionPhase::Failed {
                    request_id: a.id.duplicate(),
                    address: a.address.clone(),
                    display_name: a.display_name.clone(),
                    reason: ConnectionFailureReason::Timeout,
                }
            },
            _ => {
                return false;
            },
        };
        self.phase = failed;
        true
    }

    /// Ends the attempt `id` with `outcome`; a stale or unknown id is ignored.
    pub fn complete(&mut self, id: RequestId, outcome: ConnectionOutcome<S>) -> (r: bool)
        ensures
            r == (in_flight(old(self)@) matches Some(a) && a.id == id@),
            r ==> final(self)@ == complete_spec(in_flight(old(self)@)->0, outcome),
            !r ==> final(self)@ == old(self)@,
    {
        let attempt = match &self.phase {
            SessionPhase::ResolvingHost(a) | SessionPhase::OpeningSocket(a) | SessionPhase::Handshaking(a) => {
                if !a.id.same_as(&id) {
                    return false;
                }
                a.duplicate()
            },
            _ => {
                return false;
            },
        };
        let ConnectionAttempt { id: request_id, address, display_name, .. } = attempt;
        self.phase = match outcome {
            ConnectionOutcome::Connected { session, player_slot } => SessionPhase::Connected {
                request_id,
                address,
                display_name,
                player_slot,
                session,
            },
            ConnectionOutcome::Rejected(HandshakeOutcome::ServerFull) => SessionPhase::Failed {
                request_id,
                address,
                display_name,
                reason: ConnectionFailureReason::ServerFull,
            },
            ConnectionOutcome::Rejected(HandshakeOutcome::VersionMismatch) => SessionPhase::Failed {
                request_id,
                address,
                display_name,
                reason: ConnectionFailureReason::VersionMismatch,
            },
            ConnectionOutcome::Rejected(HandshakeOutcome::Rejected) => SessionPhase::Failed {
                request_id,
                address,
                display_name,
                reason: ConnectionFailureReason::Rejected,
            },
            ConnectionOutcome::Failed => SessionPhase::Failed {
                request_id,
                address,
                display_name,
                reason: ConnectionFailureReason::Network,
            },
        };
        true
    }

    /// The connected session dropped.
    pub fn session_lost(&mut self) -> (r: bool)
        ensures
            r == (old(self)@ is Connected),
            r ==> final(self)@ == (PhaseView::Idle {
                address: old(self)@->Connected_address,
                reason: DisconnectedReason::SessionLost,
            }),
            !r ==> final(self)@ == old(self)@,
    {
        let address = match &self.phase {
            SessionPhase::Connected { address, .. } => address.clone(),
            _ => {
                return false;
            },
        };
        self.phase = SessionPhase::Idle { address, reason: DisconnectedReason::SessionLost };
        true
    }

    /// The user disconnects the session that request `id` opened.
    pub fn disconnect(&mut self, id: &RequestId) -> (r: bool)
        ensures
            r == (old(self)@ matches PhaseView::Connected { request_id, .. } && request_id == id@),
            r ==> final(self)@ == (PhaseView::Idle {
                address: old(self)@->Connected_address,
                reason: DisconnectedReason::UserDisconnected,
            }),
            !r ==> final(self)@ == old(self)@,
    {
        let address = match &self.phase {
            SessionPhase::Connected { request_id, address, .. } => {
                if !request_id.same_as(id) {
                    return false;
                }
                address.clone()
            },
            _ => {
                return false;
            },
        };
        self.phase = SessionPhase::Idle { address, reason: DisconnectedReason::UserDisconnected };
        true
    }

    /// The deadline of the attempt in flight.
    pub fn next_deadline(&self) -> (r: Option<u64>)
        ensures
            r == (match in_flight(self@) {
                Some(a) => Some(a.deadline),
                None => None,
            }),
    {
        match &self.phase {
            SessionPhase::ResolvingHost(a) | SessionPhase::OpeningSocket(a) | SessionPhase::Handshaking(a) => Some(a.deadline),
            _ => None,
        }
    }

    pub fn is_connected(&self) -> (r: bool)
        ensures
            r == (self@ is Connected),
    {
        match &self.phase {
            SessionPhase::Connected { .. } => true,
            _ => false,
        }
    }

    /// The state as the UI shows it.
    pub fn ui_state(&self) -> (r: ConnectionStateSnapshot)
        ensures
            ui_state_matches(r, self@),
    {
        match &self.phase {
            SessionPhase::Idle { address, reason } => ConnectionStateSnapshot::Idle { address: address.clone(), reason: *reason },
            SessionPhase::ResolvingHost(a) => ConnectionStateSnapshot::ResolvingHost {
                request_id: a.id.duplicate(),
                address: a.address.clone(),
                display_name: a.display_name.clone(),
            },
            SessionPhase::OpeningSocket(a) => ConnectionStateSnapshot::OpeningSocket {
                request_id: a.id.duplicate(),
                address: a.address.clone(),
                display_name: a.display_name.clone(),
            },
            SessionPhase::Handshaking(a) => ConnectionStateSnapshot::Handshaking {
                request_id: a.id.duplicate(),
                address: a.address.clone(),
                display_name: a.display_name.clone(),
            },
            SessionPhase::Connected { request_id, address, display_name, player_slot, .. } => ConnectionStateSnapshot::Connected {
                request_id: request_id.duplicate(),
                address: address.clone(),
                display_name: display_name.clone(),
                local_player: local_player(*player_slot),
            },
            SessionPhase::Failed { request_id, address, display_name, reason } => ConnectionStateSnapshot::Failed {
                request_id: request_id.duplicate(),
                address: address.clone(),
                display_name: display_name.clone(),
                reason: *reason,
            },
        }
    }
}

/// Whether a UI snapshot shows a phase: same stage, request, address,
/// display name and reason, and the local player of a connected session.
pub open spec fn ui_state_matches(s: ConnectionStateSnapshot, p: PhaseView) -> bool {
    match (s, p) {
        (ConnectionStateSnapshot::Idle { address, reason }, PhaseView::Idle { address: a, reason: r }) => address@
            == a && reason == r,
        (ConnectionStateSnapshot::ResolvingHost { request_id, address, display_name }, PhaseView::ResolvingHost(a)) => request_id@
            == a.id && address@ == a.address && display_name@ == a.display_name,
        (ConnectionStateSnapshot::OpeningSocket { request_id, address, display_name }, PhaseView::OpeningSocket(a)) => request_id@
            == a.id && address@ == a.address && display_name@ == a.display_name,
        (ConnectionStateSnapshot::Handshaking { request_id, address, display_name }, PhaseView::Handshaking(a)) => request_id@
            == a.id && address@ == a.address && display_name@ == a.display_name,
        (
            ConnectionStateSnapshot::Connected { request_id, address, display_name, local_player },
            PhaseView::Connected { request_id: i, address: a, display_name: d, player_slot },
        ) => request_id@ == i && address@ == a && display_name@ == d && local_player_matches(
            local_player,
            player_slot,
        ),
        (
            ConnectionStateSnapshot::Failed { request_id, address, display_name, reason },
            PhaseView::Failed { request_id: i, address: a, display_name: d, reason: r },
        ) => request_id@ == i && address@ == a && display_name@ == d && reason == r,
        _ => false,
    }
}

/// Slot 2 plays coral; every other slot plays cyan.
pub open spec fn slot_color(player_slot: u32) -> PlayerColor {
    if player_slot == 2 { PlayerColor::Coral } else { PlayerColor::Cyan }
}

pub open spec fn local_player_matches(m: LocalPlayerHudModel, player_slot: u32) -> bool {
    &&& m.schema_version == 1
    &&& m.player_slot == player_slot
    &&& m.color == slot_color(player_slot)
    &&& m.color_hex@ == (if player_slot == 2 { "#FF6A47"@ } else { "#22CFE8"@ })
}

/// The HUD model of the local player in `player_slot`.
pub fn local_player(player_slot: u32) -> (m: LocalPlayerHudModel)
    ensures
        local_player_matches(m, player_slot),
{
    if player_slot == 2 {
        LocalPlayerHudModel {
            schema_version: 1,
            player_slot,
            color: PlayerColor::Coral,
            color_hex: String::from_str("#FF6A47"),
        }
    } else {
        LocalPlayerHudModel {
            schema_version: 1,
            player_slot,
            color: PlayerColor::Cyan,
            color_hex: String::from_str("#22CFE8"),
        }
    }
}

/// Once an attempt is cancelled nothing is in flight, so a late completion,
/// progress report or timeout for that attempt is ignored.
pub proof fn lemma_cancelled_attempt_is_final(p: PhaseView, id: Seq<char>)
    requires
        in_flight(p) matches Some(a) && a.id == id,
    ensures
        ({
            let cancelled = PhaseView::Idle { address: in_flight(p)->0.address, reason: DisconnectedReason::Cancelled };
            &&& in_flight(cancelled) is None
            &&& may_connect(cancelled)
        }),
{
}

} // verus!

