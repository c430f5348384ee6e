//! The client's side of a server connection, apart from the socket: the
//! checks of each handshake reply, and the state that the replies and later
//! server messages establish (slot, clock, session snapshot).

use crate::command::{AuthoritativeCommand, CommandRejected};
use crate::config::{SimulationConfig, SimulationConfigError};
use crate::error::{protocol_error_message, ProtocolError};
use crate::handshake::{has_capability, Capability, HandshakeRejectionReason, ServerHello};
use crate::ids::{PlayerId, PlayerIdError};
use crate::message::{decode_spec, Message, MessageView};
use crate::objective::SIMULATION_HZ;
use crate::session::{
    lemma_valid_session_has_local, MatchTiming, OpponentPresence, SessionParticipant, SessionSnapshot,
    SessionSnapshotView,
};
use crate::wire;
use crate::tick::{saturating_sub_u64, Tick};
use crate::world_state::InitialWorldState;
use vstd::prelude::*;

verus! {

/// What the server told the client between two polls.
#[derive(Clone, Debug, PartialEq, Eq)]
pub enum ServerEvent {
    Authoritative(AuthoritativeCommand),
    Rejected(CommandRejected),
    SessionStateChanged(SessionSnapshot),
}

/// Why a connection failed once the socket was open.
#[derive(Clone, Copy, Debug, PartialEq, Eq)]
pub enum HandshakeFailure {
    /// The server refused the client.
    Rejected(HandshakeRejectionReason),
    /// The server answered out of order or inconsistently.
    Invalid(&'static str),
    /// The server's hello does not suit this client.
    Protocol(ProtocolError),
    /// The configuration the server announced is unusable.
    Config(SimulationConfigError),
}

/// Whether a snapshot names its local player among its participants.
pub open spec fn has_local(s: SessionSnapshotView) -> bool {
    exists|k: int| 0 <= k < s.participants.len() && #[trigger] s.participants[k].player_slot == s.local_player_slot
}

/// The first handshake reply must be the server's hello, valid for this
/// client, and announce a usable configuration.
pub fn expect_server_hello(message: Message) -> (r: Result<(ServerHello, SimulationConfig), HandshakeFailure>)
    ensures
        message matches Message::HandshakeRejected(h) ==> r == Err::<(ServerHello, SimulationConfig), _>(
            HandshakeFailure::Rejected(h.reason),
        ),
        !(message is ServerHello) && !(message is HandshakeRejected) ==> r == Err::<(ServerHello, SimulationConfig), _>(
            HandshakeFailure::Invalid("expected ServerHello"),
        ),
        message matches Message::ServerHello(h) ==> match crate::handshake::server_hello_verdict(
            h@,
            SIMULATION_HZ,
        ) {
            Err(e) => r == Err::<(ServerHello, SimulationConfig), _>(HandshakeFailure::Protocol(e)),
            Ok(()) => if h.fleet_size * crate::ids::MAX_PLAYERS > u32::MAX {
                r == Err::<(ServerHello, SimulationConfig), _>(
                    HandshakeFailure::Config(SimulationConfigError::FleetSizeTooLarge),
                )
            } else {
                r matches Ok((hello, config)) && hello == h && config@ == (h.fleet_size, h.world_radius_bits)
            },
        },
{
    match message {
        Message::ServerHello(hello) => {
            match hello.validate(SIMULATION_HZ) {
                Err(e) => Err(HandshakeFailure::Protocol(e)),
                Ok(()) => {
                    let config = match SimulationConfig::new(hello.fleet_size) {
                        Ok(c) => c,
                        Err(e) => {
                            return Err(HandshakeFailure::Config(e));
                        },
                    };
                    match config.with_world_radius_bits(hello.world_radius_bits) {
                        Ok(c) => Ok((hello, c)),
                        Err(e) => Err(HandshakeFailure::Config(e)),
                    }
                },
            }
        },
        Message::HandshakeRejected(h) => Err(HandshakeFailure::Rejected(h.reason)),
        _ => Err(HandshakeFailure::Invalid("expected ServerHello")),
    }
}

/// The second reply must be the world as of the hello's tick.
pub fn expect_initial_world(message: Message, hello: &ServerHello) -> (r: Result<InitialWorldState, HandshakeFailure>)
    ensures
        message matches Message::HandshakeRejected(h) ==> r == Err::<InitialWorldState, _>(
            HandshakeFailure::Rejected(h.reason),
        ),
        !(message is InitialWorldState) && !(message is HandshakeRejected) ==> r == Err::<InitialWorldState, _>(
            HandshakeFailure::Invalid("expected InitialWorldState"),
        ),
        message matches Message::InitialWorldState(s) ==> if s.tick == hello.server_tick {
            r == Ok::<InitialWorldState, HandshakeFailure>(s)
        } else {
            r == Err::<InitialWorldState, _>(HandshakeFailure::Invalid("server hello and snapshot ticks differ"))
        },
{
    match message {
        Message::InitialWorldState(state) => {
            if state.tick.0 != hello.server_tick.0 {
                Err(HandshakeFailure::Invalid("server hello and snapshot ticks differ"))
            } else {
                Ok(state)
            }
        },
        Message::HandshakeRejected(h) => Err(HandshakeFailure::Rejected(h.reason)),
        _ => Err(HandshakeFailure::Invalid("expected InitialWorldState")),
    }
}

/// The third reply must be the session snapshot for the hello's slot.
pub fn expect_session(message: Message, hello: &ServerHello) -> (r: Result<SessionSnapshot, HandshakeFailure>)
    ensures
        message matches Message::HandshakeRejected(h) ==> r == Err::<SessionSnapshot, _>(
            HandshakeFailure::Rejected(h.reason),
        ),
        !(message is SessionSnapshot) && !(message is HandshakeRejected) ==> r == Err::<SessionSnapshot, _>(
            HandshakeFailure::Invalid("expected SessionSnapshot"),
        ),
        message matches Message::SessionSnapshot(s) ==> if s.local_player_slot == hello.player_slot {
            r == Ok::<SessionSnapshot, HandshakeFailure>(s)
        } else {
            r == Err::<SessionSnapshot, _>(HandshakeFailure::Invalid("server hello and session local slot differ"))
        },
{
    match message {
        Message::SessionSnapshot(s) => {
            if s.local_player_slot != hello.player_slot {
                Err(HandshakeFailure::Invalid("server hello and session local slot differ"))
            } else {
                Ok(s)
            }
        },
        Message::HandshakeRejected(h) => Err(HandshakeFailure::Rejected(h.reason)),
        _ => Err(HandshakeFailure::Invalid("expected SessionSnapshot")),
    }
}

/// The connection's state apart from its socket.
#[derive(Debug)]
pub struct NetworkState {
    player_slot: u32,
    server_tick: Tick,
    simulation_config: SimulationConfig,
    checksum_enabled: bool,
    local_tick: Tick,
    session_snapshot: SessionSnapshot,
}

/// The mathematical model of a [`NetworkState`].
pub struct NetworkView {
    pub player_slot: u32,
    pub server_tick: Tick,
    pub config: (u32, u32),
    pub checksum_enabled: bool,
    pub local_tick: Tick,
    pub session: SessionSnapshotView,
}

impl View for NetworkState {
    type V = NetworkView;

    closed spec fn view(&self) -> NetworkView {
        NetworkView {
            player_slot: self.player_slot,
            server_tick: self.server_tick,
            config: self.simulation_config@,
            checksum_enabled: self.checksum_enabled,
            local_tick: self.local_tick,
            session: self.session_snapshot@,
        }
    }
}

/// The state's invariant: the session snapshot is the local player's and names it.
pub open spec fn network_wf(v: NetworkView) -> bool {
    v.session.local_player_slot == v.player_slot && has_local(v.session)
}

/// The start tick of the running match, if any.
pub open spec fn started_spec(s: SessionSnapshotView) -> Option<Tick> {
    match s.match_timing {
        MatchTiming::Inactive => None,
        MatchTiming::Active { started_at_tick } => Some(started_at_tick),
    }
}

/// The whole seconds of match time at `local` since `started`.
pub open spec fn elapsed_seconds_spec(started: Tick, local: Tick) -> u64 {
    (saturating_sub_u64(local.0, started.0) / (SIMULATION_HZ as u64)) as u64
}

impl NetworkState {
    /// The state once the handshake succeeded: the client's clock starts at
    /// the server's tick, and checksums are sent when the server enabled them.
    pub fn new(hello: &ServerHello, simulation_config: SimulationConfig, session_snapshot: SessionSnapshot) -> (s: NetworkState)
        requires
            session_snapshot.local_player_slot == hello.player_slot,
            has_local(session_snapshot@),
        ensures
            network_wf(s@),
            s@.player_slot == hello.player_slot,
            s@.server_tick == hello.server_tick,
            s@.local_tick == hello.server_tick,
            s@.config == simulation_config@,
            s@.checksum_enabled == hello.capabilities@.contains(Capability::StateChecksums),
            s@.session == session_snapshot@,
    {
        NetworkState {
            player_slot: hello.player_slot,
            server_tick: hello.server_tick,
            simulation_config,
            checksum_enabled: has_capability(&hello.capabilities, Capability::StateChecksums),
            local_tick: hello.server_tick,
            session_snapshot,
        }
    }

    pub fn player_slot(&self) -> (r: u32)
        ensures
            r == self@.player_slot,
    {
        self.player_slot
    }

    pub fn server_tick(&self) -> (r: Tick)
        ensures
            r == self@.server_tick,
    {
        self.server_tick
    }

    pub fn simulation_config(&self) -> (r: SimulationConfig)
        ensures
            r@ == self@.config,
    {
        self.simulation_config
    }

    /// Whether the client sends its state checksums.
    pub fn checksum_enabled(&self) -> (r: bool)
        ensures
            r == self@.checksum_enabled,
    {
        self.checksum_enabled
    }

    pub fn local_tick(&self) -> (r: Tick)
        ensures
            r == self@.local_tick,
    {
        self.local_tick
    }

    pub fn set_local_tick(&mut self, tick: Tick)
        ensures
            final(self)@ == (NetworkView { local_tick: tick, ..old(self)@ }),
    {
        self.local_tick = tick;
    }

    /// The player id of the assigned slot.
    pub fn player_id(&self) -> (r: Result<PlayerId, &'static str>)
        ensures
            match crate::ids::player_id_spec(self@.player_slot) {
                Ok(p) => r == Ok::<PlayerId, &'static str>(p),
                Err(_) => r == Err::<PlayerId, &'static str>("server assigned invalid player slot"),
            },
    {
        match PlayerId::from_slot(self.player_slot) {
            Ok(p) => Ok(p),
            Err(_) => Err("server assigned invalid player slot"),
        }
    }

    pub fn session_snapshot(&self) -> (r: &SessionSnapshot)
        ensures
            r@ == self@.session,
    {
        &self.session_snapshot
    }

    /// The local player's entry of the session snapshot.
    pub fn local_participant(&self) -> (r: &SessionParticipant)
        requires
            network_wf(self@),
        ensures
            r.player_slot == self@.player_slot,
            exists|k: int| 0 <= k < self@.session.participants.len() && self@.session.participants[k] == r@,
    {
        let r = self.session_snapshot.local_participant();
        proof {
            let k = choose|k: int|
                0 <= k < self.session_snapshot.participants@.len() && self.session_snapshot.participants@[k] == *r
                    && forall|j: int|
                    0 <= j < k ==> #[trigger] self.session_snapshot.participants@[j].player_slot
                        != self.session_snapshot.local_player_slot;
            assert(self@.session.participants[k] == r@);
        }
        r
    }

    pub fn opponent_presence(&self) -> (r: OpponentPresence)
        ensures
            r == self@.session.opponent_presence,
    {
        self.session_snapshot.opponent_presence
    }

    /// The start tick of the running match.
    pub fn match_started_at(&self) -> (r: Option<Tick>)
        ensures
            r == started_spec(self@.session),
    {
        match self.session_snapshot.match_timing {
            MatchTiming::Inactive => None,
            MatchTiming::Active { started_at_tick } => Some(started_at_tick),
        }
    }

    /// The ticks of match time so far, saturating at zero.
    pub fn elapsed_match_ticks(&self) -> (r: Option<Tick>)
        ensures
            match started_spec(self@.session) {
                None => r is None,
                Some(t) => r == Some(Tick(saturating_sub_u64(self@.local_tick.0, t.0))),
            },
    {
        match self.match_started_at() {
            None => None,
            Some(t) => Some(self.local_tick.decrement(t)),
        }
    }

    /// The whole seconds of match time so far.
    pub fn elapsed_match_seconds(&self) -> (r: Option<u64>)
        ensures
            match started_spec(self@.session) {
                None => r is None,
                Some(t) => r == Some(elapsed_seconds_spec(t, self@.local_tick)),
            },
    {
        match self.elapsed_match_ticks() {
            None => None,
            Some(ticks) => Some(ticks.0 / (SIMULATION_HZ as u64)),
        }
    }

    /// Handles one message from the server: commands and rejections become
    /// events; a session snapshot for another slot is an error, one that is
    /// not newer than the current one is ignored, and a newer one replaces
    /// it; every other message is ignored.
    pub fn receive(&mut self, message: Message) -> (r: Result<Option<ServerEvent>, &'static str>)
        requires
            network_wf(old(self)@),
            message matches Message::SessionSnapshot(s) ==> has_local(s@),
        ensures
            network_wf(final(self)@),
            final(self)@.session.presence_revision >= old(self)@.session.presence_revision,
            final(self)@.player_slot == old(self)@.player_slot,
            message matches Message::AuthoritativeCommand(c) ==> r == Ok::<Option<ServerEvent>, &'static str>(
                Some(ServerEvent::Authoritative(c)),
            ) && final(self)@ == old(self)@,
            message matches Message::CommandRejected(c) ==> r == Ok::<Option<ServerEvent>, &'static str>(
                Some(ServerEvent::Rejected(c)),
            ) && final(self)@ == old(self)@,
            message matches Message::SessionSnapshot(s) ==> if s.local_player_slot != old(self)@.player_slot {
                r == Err::<Option<ServerEvent>, &'static str>("session update local slot differs")
                    && final(self)@ == old(self)@
            } else if s.presence_revision > old(self)@.session.presence_revision {
                (r matches Ok(Some(ServerEvent::SessionStateChanged(e))) && e@ == s@)
                    && final(self)@ == (NetworkView { session: s@, ..old(self)@ })
            } else {
                r == Ok::<Option<ServerEvent>, &'static str>(None) && final(self)@ == old(self)@
            },
            !(message is AuthoritativeCommand) && !(message is CommandRejected) && !(message is SessionSnapshot)
                ==> r == Ok::<Option<ServerEvent>, &'static str>(None) && final(self)@ == old(self)@,
    {
        match message {
            Message::AuthoritativeCommand(command) => Ok(Some(ServerEvent::Authoritative(command))),
            Message::CommandRejected(rejection) => Ok(Some(ServerEvent::Rejected(rejection))),
            Message::SessionSnapshot(snapshot) => {
                if snapshot.local_player_slot != self.player_slot {
                    return Err("session update local slot differs");
                }
                if snapshot.presence_revision > self.session_snapshot.presence_revision {
                    let event = snapshot.duplicate();
                    self.session_snapshot = snapshot;
                    Ok(Some(ServerEvent::SessionStateChanged(event)))
                } else {
                    Ok(None)
                }
            },
            _ => Ok(None),
        }
    }

    /// Decodes one envelope from the server and handles its message as
    /// [`NetworkState::receive`] does; an envelope that does not decode is
    /// refused with the description of its defect.
    pub fn receive_envelope(&mut self, envelope: wire::Envelope) -> (r: Result<Option<ServerEvent>, &'static str>)
        requires
            network_wf(old(self)@),
        ensures
            network_wf(final(self)@),
            match decode_spec(envelope@) {
                Err(e) => (r matches Err(m) && m@ == protocol_error_message(e)) && final(self)@ == old(self)@,
                Ok(MessageView::AuthoritativeCommand(c)) => (r matches Ok(Some(ServerEvent::Authoritative(x)))
                    && x@ == c) && final(self)@ == old(self)@,
                Ok(MessageView::CommandRejected(c)) => r == Ok::<Option<ServerEvent>, &'static str>(
                    Some(ServerEvent::Rejected(c)),
                ) && final(self)@ == old(self)@,
                Ok(MessageView::SessionSnapshot(s)) => if s.local_player_slot != old(self)@.player_slot {
                    r == Err::<Option<ServerEvent>, &'static str>("session update local slot differs")
                        && final(self)@ == old(self)@
                } else if s.presence_revision > old(self)@.session.presence_revision {
                    (r matches Ok(Some(ServerEvent::SessionStateChanged(e))) && e@ == s)
                        && final(self)@ == (NetworkView { session: s, ..old(self)@ })
                } else {
                    r == Ok::<Option<ServerEvent>, &'static str>(None) && final(self)@ == old(self)@
                },
                Ok(_) => r == Ok::<Option<ServerEvent>, &'static str>(None) && final(self)@ == old(self)@,
            },
    {
        let message = match Message::try_from_envelope(envelope) {
            Ok(m) => m,
            Err(e) => {
                return Err(e.message());
            },
        };
        proof {
            if message is SessionSnapshot {
                lemma_valid_session_has_local(message->SessionSnapshot_0@);
            }
        }
        self.receive(message)
    }
}

} // verus!
