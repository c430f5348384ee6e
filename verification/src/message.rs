//! Protocol messages and their conversion to and from the wire schema.

use crate::command::{
    AuthoritativeCommand, AuthoritativeCommandView, CommandData, CommandDataView, CommandRejected,
    CommandRejectionReason, CommandRequest, CommandRequestView,
};
use crate::error::ProtocolError;
use crate::handshake::{
    Capability, ClientHello, ClientHelloView, HandshakeRejected, HandshakeRejectionReason,
    ServerHello, ServerHelloView,
};
use crate::session::{
    participant_views, session_verdict, MatchTiming, OpponentPresence, PlayerColor,
    SessionParticipant, SessionParticipantView, SessionSnapshot, SessionSnapshotView,
};
use crate::tick::Tick;
use crate::wire;
use crate::world_state::{
    copy_bytes, InitialWorldState, InitialWorldStateView, StateChecksum, StateChecksumView,
    WorldUnit,
};
use vstd::prelude::*;

verus! {

/// Every message that client and server exchange.
#[derive(Clone, Debug, PartialEq, Eq)]
pub enum Message {
    ClientHello(ClientHello),
    ServerHello(ServerHello),
    CommandRequest(CommandRequest),
    AuthoritativeCommand(AuthoritativeCommand),
    CommandRejected(CommandRejected),
    StateChecksum(StateChecksum),
    HandshakeRejected(HandshakeRejected),
    InitialWorldState(InitialWorldState),
    SessionSnapshot(SessionSnapshot),
}

/// The mathematical model of a [`Message`].
pub enum MessageView {
    ClientHello(ClientHelloView),
    ServerHello(ServerHelloView),
    CommandRequest(CommandRequestView),
    AuthoritativeCommand(AuthoritativeCommandView),
    CommandRejected(CommandRejected),
    StateChecksum(StateChecksumView),
    HandshakeRejected(HandshakeRejected),
    InitialWorldState(InitialWorldStateView),
    SessionSnapshot(SessionSnapshotView),
}

impl View for Message {
    type V = MessageView;

    open spec fn view(&self) -> MessageView {
        match self {
            Message::ClientHello(v) => MessageView::ClientHello(v@),
            Message::ServerHello(v) => MessageView::ServerHello(v@),
            Message::CommandRequest(v) => MessageView::CommandRequest(v@),
            Message::AuthoritativeCommand(v) => MessageView::AuthoritativeCommand(v@),
            Message::CommandRejected(v) => MessageView::CommandRejected(*v),
            Message::StateChecksum(v) => MessageView::StateChecksum(v@),
            Message::HandshakeRejected(v) => MessageView::HandshakeRejected(*v),
            Message::InitialWorldState(v) => MessageView::InitialWorldState(v@),
            Message::SessionSnapshot(v) => MessageView::SessionSnapshot(v@),
        }
    }
}

// ---------------------------------------------------------------------------
// Enumeration codes
// ---------------------------------------------------------------------------

pub open spec fn capability_code(c: Capability) -> i32 {
    match c {
        Capability::StateChecksums => 1,
        Capability::WorldSnapshots => 2,
    }
}

pub open spec fn capability_of_code(code: i32) -> Option<Capability> {
    if code == 1 {
        Some(Capability::StateChecksums)
    } else if code == 2 {
        Some(Capability::WorldSnapshots)
    } else {
        None
    }
}

/// The known capabilities among `codes`, in order; unknown codes are dropped.
pub open spec fn caps_spec(codes: Seq<i32>) -> Seq<Capability>
    decreases codes.len(),
{
    if codes.len() == 0 {
        seq![]
    } else {
        let rest = caps_spec(codes.drop_last());
        match capability_of_code(codes.last()) {
            Some(c) => rest.push(c),
            None => rest,
        }
    }
}

pub open spec fn capability_codes_spec(caps: Seq<Capability>) -> Seq<i32> {
    caps.map_values(|c: Capability| capability_code(c))
}

pub open spec fn rejection_code(r: CommandRejectionReason) -> i32 {
    match r {
        CommandRejectionReason::InvalidPlayer => 1,
        CommandRejectionReason::UnauthorizedFleet => 2,
        CommandRejectionReason::NonFiniteDestination => 3,
        CommandRejectionReason::DestinationOutsideArena => 4,
        CommandRejectionReason::InvalidCommand => 5,
    }
}

pub open spec fn rejection_of_code(code: i32) -> Option<CommandRejectionReason> {
    if code == 1 {
        Some(CommandRejectionReason::InvalidPlayer)
    } else if code == 2 {
        Some(CommandRejectionReason::UnauthorizedFleet)
    } else if code == 3 {
        Some(CommandRejectionReason::NonFiniteDestination)
    } else if code == 4 {
        Some(CommandRejectionReason::DestinationOutsideArena)
    } else if code == 5 {
        Some(CommandRejectionReason::InvalidCommand)
    } else {
        None
    }
}

pub open spec fn handshake_rejection_code(r: HandshakeRejectionReason) -> i32 {
    match r {
        HandshakeRejectionReason::ServerFull => 1,
        HandshakeRejectionReason::IncompatibleVersion => 2,
        HandshakeRejectionReason::MissingRequiredCapability => 3,
        HandshakeRejectionReason::InvalidHandshake => 4,
    }
}

pub open spec fn handshake_rejection_of_code(code: i32) -> Option<HandshakeRejectionReason> {
    if code == 1 {
        Some(HandshakeRejectionReason::ServerFull)
    } else if code == 2 {
        Some(HandshakeRejectionReason::IncompatibleVersion)
    } else if code == 3 {
        Some(HandshakeRejectionReason::MissingRequiredCapability)
    } else if code == 4 {
        Some(HandshakeRejectionReason::InvalidHandshake)
    } else {
        None
    }
}

pub open spec fn presence_code(p: OpponentPresence) -> i32 {
    match p {
        OpponentPresence::Waiting => 1,
        OpponentPresence::Present => 2,
        OpponentPresence::Disconnected => 3,
    }
}

pub open spec fn presence_of_code(code: i32) -> Option<OpponentPresence> {
    if code == 1 {
        Some(OpponentPresence::Waiting)
    } else if code == 2 {
        Some(OpponentPresence::Present)
    } else if code == 3 {
        Some(OpponentPresence::Disconnected)
    } else {
        None
    }
}

pub open spec fn color_code(c: PlayerColor) -> i32 {
    match c {
        PlayerColor::Cyan => 1,
        PlayerColor::Coral => 2,
    }
}

pub open spec fn color_of_code(code: i32) -> Option<PlayerColor> {
    if code == 1 {
        Some(PlayerColor::Cyan)
    } else if code == 2 {
        Some(PlayerColor::Coral)
    } else {
        None
    }
}

// ---------------------------------------------------------------------------
// Decoding: wire schema to messages
// ---------------------------------------------------------------------------

/// The model of a result whose success value has a view.
pub open spec fn result_view<T: View, E>(r: Result<T, E>) -> Result<T::V, E> {
    match r {
        Ok(v) => Ok(v@),
        Err(e) => Err(e),
    }
}

pub open spec fn command_payload_spec(p: wire::CommandPayloadView) -> Result<CommandDataView, ProtocolError> {
    match p {
        wire::CommandPayloadView::SetDestination(v) => match v.destination {
            Some(d) => Ok(CommandDataView::SetDestination { destination: [d.x, d.y], target_unit_ids: v.target_unit_ids }),
            None => Err(ProtocolError::MissingDestination),
        },
        wire::CommandPayloadView::ResetSimulation => Ok(CommandDataView::ResetSimulation),
    }
}

/// The command that an optional wire command carries.
pub open spec fn command_spec(c: Option<wire::CommandView>) -> Result<CommandDataView, ProtocolError> {
    match c {
        Some(wire::CommandView { payload: Some(p) }) => command_payload_spec(p),
        _ => Err(ProtocolError::MissingCommandPayload),
    }
}

pub open spec fn authoritative_spec(c: wire::AuthoritativeCommandView) -> Result<
    AuthoritativeCommandView,
    ProtocolError,
> {
    match command_spec(c.command) {
        Ok(command) => Ok(
            AuthoritativeCommandView {
                execute_tick: Tick(c.execute_tick),
                player_slot: c.player_slot,
                sequence: c.sequence,
                command,
            },
        ),
        Err(e) => Err(e),
    }
}

/// The pending commands of a world snapshot; the first malformed one decides the error.
pub open spec fn pending_spec(cs: Seq<wire::AuthoritativeCommandView>) -> Result<
    Seq<AuthoritativeCommandView>,
    ProtocolError,
>
    decreases cs.len(),
{
    if cs.len() == 0 {
        Ok(seq![])
    } else {
        match pending_spec(cs.drop_last()) {
            Err(e) => Err(e),
            Ok(rest) => match authoritative_spec(cs.last()) {
                Err(e) => Err(e),
                Ok(c) => Ok(rest.push(c)),
            },
        }
    }
}

pub open spec fn world_unit_spec(w: wire::WorldUnit) -> WorldUnit {
    WorldUnit {
        id: w.id,
        owner: if w.has_owner { Some(w.owner) } else { None },
        position_bits: [w.position_x, w.position_y],
        velocity_bits: [w.velocity_x, w.velocity_y],
        heading_bits: w.heading,
        angular_velocity_bits: w.angular_velocity,
        active: w.active,
        destination_bits: if w.has_destination {
            Some([w.destination_x, w.destination_y])
        } else {
            None
        },
        hull_current: w.hull_current,
        hull_maximum: w.hull_maximum,
        turret_local_heading_bits: w.turret_local_heading,
        turret_target: if w.turret_target_kind != 0 {
            Some((w.turret_target_kind, w.turret_target_id))
        } else {
            None
        },
        turret_cooldown_ticks_remaining: w.turret_cooldown_ticks_remaining,
    }
}

pub open spec fn participant_spec(p: wire::SessionParticipantView) -> Result<
    SessionParticipantView,
    ProtocolError,
> {
    match color_of_code(p.color) {
        Some(color) => Ok(
            SessionParticipantView {
                player_slot: p.player_slot,
                display_name: p.display_name,
                color,
            },
        ),
        None => Err(ProtocolError::InvalidPlayerColor),
    }
}

/// The roster of a session snapshot; the first unknown colour decides the error.
pub open spec fn participants_spec(ps: Seq<wire::SessionParticipantView>) -> Result<
    Seq<SessionParticipantView>,
    ProtocolError,
>
    decreases ps.len(),
{
    if ps.len() == 0 {
        Ok(seq![])
    } else {
        match participants_spec(ps.drop_last()) {
            Err(e) => Err(e),
            Ok(rest) => match participant_spec(ps.last()) {
                Err(e) => Err(e),
                Ok(p) => Ok(rest.push(p)),
            },
        }
    }
}

pub open spec fn match_timing_spec(t: Option<wire::MatchTiming>) -> Result<MatchTiming, ProtocolError> {
    match t {
        Some(wire::MatchTiming { state: Some(wire::MatchTimingState::Inactive) }) => Ok(
            MatchTiming::Inactive,
        ),
        Some(wire::MatchTiming { state: Some(wire::MatchTimingState::Active { started_at_tick }) }) => Ok(
            MatchTiming::Active { started_at_tick: Tick(started_at_tick) },
        ),
        _ => Err(ProtocolError::MissingMatchTiming),
    }
}

/// A session snapshot is decoded field by field and must then validate.
pub open spec fn session_spec(v: wire::SessionSnapshotView) -> Result<MessageView, ProtocolError> {
    match presence_of_code(v.opponent_presence) {
        None => Err(ProtocolError::InvalidOpponentPresence),
        Some(opponent_presence) => match match_timing_spec(v.match_timing) {
            Err(e) => Err(e),
            Ok(match_timing) => match participants_spec(v.participants) {
                Err(e) => Err(e),
                Ok(participants) => {
                    let s = SessionSnapshotView {
                        local_player_slot: v.local_player_slot,
                        participants,
                        opponent_presence,
                        presence_revision: v.presence_revision,
                        match_timing,
                    };
                    match session_verdict(s) {
                        Err(e) => Err(e),
                        Ok(_) => Ok(MessageView::SessionSnapshot(s)),
                    }
                },
            },
        },
    }
}

/// What decoding an envelope yields.
pub open spec fn decode_spec(e: Option<wire::EnvelopePayloadView>) -> Result<MessageView, ProtocolError> {
    match e {
        None => Err(ProtocolError::MissingEnvelopePayload),
        Some(p) => match p {
            wire::EnvelopePayloadView::ClientHello(v) => Ok(
                MessageView::ClientHello(
                    ClientHelloView {
                        simulation_version: v.simulation_version,
                        capabilities: caps_spec(v.supported_capabilities),
                        display_name: v.display_name,
                    },
                ),
            ),
            wire::EnvelopePayloadView::ServerHello(v) => Ok(
                MessageView::ServerHello(
                    ServerHelloView {
                        simulation_version: v.simulation_version,
                        simulation_hz: v.simulation_hz,
                        player_slot: v.player_slot,
                        server_tick: Tick(v.server_tick),
                        fleet_size: v.fleet_size,
                        world_radius_bits: v.world_radius_bits,
                        capabilities: caps_spec(v.enabled_capabilities),
                    },
                ),
            ),
            wire::EnvelopePayloadView::CommandRequest(v) => match command_spec(v.command) {
                Ok(command) => Ok(
                    MessageView::CommandRequest(CommandRequestView { sequence: v.sequence, command }),
                ),
                Err(e) => Err(e),
            },
            wire::EnvelopePayloadView::AuthoritativeCommand(v) => match authoritative_spec(v) {
                Ok(c) => Ok(MessageView::AuthoritativeCommand(c)),
                Err(e) => Err(e),
            },
            wire::EnvelopePayloadView::CommandRejected(v) => match rejection_of_code(v.reason) {
                Some(reason) => Ok(
                    MessageView::CommandRejected(CommandRejected { sequence: v.sequence, reason }),
                ),
                None => Err(ProtocolError::InvalidCommandRejectionReason),
            },
            wire::EnvelopePayloadView::StateChecksum(v) => Ok(
                MessageView::StateChecksum(StateChecksumView { tick: Tick(v.tick), hash: v.hash }),
            ),
            wire::EnvelopePayloadView::HandshakeRejected(v) => match handshake_rejection_of_code(
                v.reason,
            ) {
                Some(reason) => Ok(MessageView::HandshakeRejected(HandshakeRejected { reason })),
                None => Err(ProtocolError::InvalidHandshakeRejectionReason),
            },
            wire::EnvelopePayloadView::InitialWorldState(v) => match pending_spec(
                v.pending_commands,
            ) {
                Err(e) => Err(e),
                Ok(pending_commands) => Ok(
                    MessageView::InitialWorldState(
                        InitialWorldStateView {
                            snapshot_format_version: v.snapshot_format_version,
                            simulation_version: v.simulation_version,
                            tick: Tick(v.tick),
                            world_radius_bits: v.world_radius_bits,
                            next_unit_id: v.next_unit_id,
                            unit_id_exhausted: v.unit_id_exhausted,
                            units: v.units.map_values(|u: wire::WorldUnit| world_unit_spec(u)),
                            state_hash: v.state_hash,
                            pending_commands,
                        },
                    ),
                ),
            },
            wire::EnvelopePayloadView::SessionSnapshot(v) => session_spec(v),
        },
    }
}

/// Whether a decoding result agrees with its specification.
pub open spec fn decoded_as(r: Result<Message, ProtocolError>, s: Result<MessageView, ProtocolError>) -> bool {
    match (r, s) {
        (Ok(m), Ok(v)) => m@ == v,
        (Err(e), Err(f)) => e == f,
        _ => false,
    }
}

// ---------------------------------------------------------------------------
// Encoding: messages to wire schema
// ---------------------------------------------------------------------------

pub open spec fn command_to_wire_spec(c: CommandDataView) -> wire::CommandView {
    match c {
        CommandDataView::SetDestination { destination, target_unit_ids } => wire::CommandView {
            payload: Some(
                wire::CommandPayloadView::SetDestination(
                    wire::SetDestinationCommandView {
                        destination: Some(wire::Vector2Bits { x: destination[0], y: destination[1] }),
                        target_unit_ids,
                    },
                ),
            ),
        },
        CommandDataView::ResetSimulation => wire::CommandView {
            payload: Some(wire::CommandPayloadView::ResetSimulation),
        },
    }
}

pub open spec fn authoritative_to_wire_spec(c: AuthoritativeCommandView) -> wire::AuthoritativeCommandView {
    wire::AuthoritativeCommandView {
        execute_tick: c.execute_tick.0,
        player_slot: c.player_slot,
        sequence: c.sequence,
        command: Some(command_to_wire_spec(c.command)),
    }
}

pub open spec fn world_unit_to_wire_spec(u: WorldUnit) -> wire::WorldUnit {
    wire::WorldUnit {
        id: u.id,
        owner: match u.owner { Some(o) => o, None => 0 },
        has_owner: u.owner is Some,
        position_x: u.position_bits[0],
        position_y: u.position_bits[1],
        velocity_x: u.velocity_bits[0],
        velocity_y: u.velocity_bits[1],
        heading: u.heading_bits,
        angular_velocity: u.angular_velocity_bits,
        active: u.active,
        has_destination: u.destination_bits is Some,
        destination_x: match u.destination_bits { Some(d) => d[0], None => 0 },
        destination_y: match u.destination_bits { Some(d) => d[1], None => 0 },
        hull_current: u.hull_current,
        hull_maximum: u.hull_maximum,
        turret_local_heading: u.turret_local_heading_bits,
        turret_target_kind: match u.turret_target { Some(t) => t.0, None => 0 },
        turret_target_id: match u.turret_target { Some(t) => t.1, None => 0 },
        turret_cooldown_ticks_remaining: u.turret_cooldown_ticks_remaining,
    }
}

pub open spec fn participant_to_wire_spec(p: SessionParticipantView) -> wire::SessionParticipantView {
    wire::SessionParticipantView {
        player_slot: p.player_slot,
        display_name: p.display_name,
        color: color_code(p.color),
    }
}

pub open spec fn match_timing_to_wire_spec(t: MatchTiming) -> wire::MatchTiming {
    match t {
        MatchTiming::Inactive => wire::MatchTiming { state: Some(wire::MatchTimingState::Inactive) },
        MatchTiming::Active { started_at_tick } => wire::MatchTiming {
            state: Some(wire::MatchTimingState::Active { started_at_tick: started_at_tick.0 }),
        },
    }
}

/// What encoding a message into the wire schema yields.
pub open spec fn encode_spec(m: MessageView) -> Option<wire::EnvelopePayloadView> {
    Some(
        match m {
            MessageView::ClientHello(v) => wire::EnvelopePayloadView::ClientHello(
                wire::ClientHelloView {
                    simulation_version: v.simulation_version,
                    supported_capabilities: capability_codes_spec(v.capabilities),
                    display_name: v.display_name,
                },
            ),
            MessageView::ServerHello(v) => wire::EnvelopePayloadView::ServerHello(
                wire::ServerHelloView {
                    simulation_version: v.simulation_version,
                    simulation_hz: v.simulation_hz,
                    player_slot: v.player_slot,
                    server_tick: v.server_tick.0,
                    fleet_size: v.fleet_size,
                    world_radius_bits: v.world_radius_bits,
                    enabled_capabilities: capability_codes_spec(v.capabilities),
                },
            ),
            MessageView::CommandRequest(v) => wire::EnvelopePayloadView::CommandRequest(
                wire::CommandRequestView {
                    sequence: v.sequence,
                    command: Some(command_to_wire_spec(v.command)),
                },
            ),
            MessageView::AuthoritativeCommand(v) => wire::EnvelopePayloadView::AuthoritativeCommand(
                authoritative_to_wire_spec(v),
            ),
            MessageView::CommandRejected(v) => wire::EnvelopePayloadView::CommandRejected(
                wire::CommandRejected { sequence: v.sequence, reason: rejection_code(v.reason) },
            ),
            MessageView::StateChecksum(v) => wire::EnvelopePayloadView::StateChecksum(
                wire::StateChecksumView { tick: v.tick.0, hash: v.hash },
            ),
            MessageView::HandshakeRejected(v) => wire::EnvelopePayloadView::HandshakeRejected(
                wire::HandshakeRejected { reason: handshake_rejection_code(v.reason) },
            ),
            MessageView::InitialWorldState(v) => wire::EnvelopePayloadView::InitialWorldState(
                wire::InitialWorldStateView {
                    snapshot_format_version: v.snapshot_format_version,
                    simulation_version: v.simulation_version,
                    tick: v.tick.0,
                    world_radius_bits: v.world_radius_bits,
                    next_unit_id: v.next_unit_id,
                    unit_id_exhausted: v.unit_id_exhausted,
                    units: v.units.map_values(|u: WorldUnit| world_unit_to_wire_spec(u)),
                    state_hash: v.state_hash,
                    pending_commands: v.pending_commands.map_values(
                        |c: AuthoritativeCommandView| authoritative_to_wire_spec(c),
                    ),
                },
            ),
            MessageView::SessionSnapshot(v) => wire::EnvelopePayloadView::SessionSnapshot(
                wire::SessionSnapshotView {
                    local_player_slot: v.local_player_slot,
                    participants: v.participants.map_values(
                        |p: SessionParticipantView| participant_to_wire_spec(p),
                    ),
                    opponent_presence: presence_code(v.opponent_presence),
                    presence_revision: v.presence_revision,
                    match_timing: Some(match_timing_to_wire_spec(v.match_timing)),
                },
            ),
        },
    )
}

// ---------------------------------------------------------------------------
// Executable conversions
// ---------------------------------------------------------------------------

/// The known capabilities among `values`, in order; unknown codes are ignored.
pub fn caps(values: &[i32]) -> (r: Vec<Capability>)
    ensures
        r@ == caps_spec(values@),
{
    let mut r: Vec<Capability> = Vec::new();
    let mut i: usize = 0;
    while i < values.len()
        invariant
            i <= values@.len(),
            r@ == caps_spec(values@.take(i as int)),
        decreases values.len() - i,
    {
        let v = values[i];
        proof {
            let next = values@.take(i + 1);
            assert(next.drop_last() =~= values@.take(i as int));
            assert(next.last() == v);
        }
        if v == 1 {
            r.push(Capability::StateChecksums);
        } else if v == 2 {
            r.push(Capability::WorldSnapshots);
        }
        i = i + 1;
    }
    proof {
        assert(values@.take(values@.len() as int) =~= values@);
    }
    r
}

fn capability_codes(cs: &Vec<Capability>) -> (r: Vec<i32>)
    ensures
        r@ == capability_codes_spec(cs@),
{
    let mut r: Vec<i32> = Vec::new();
    let mut i: usize = 0;
    while i < cs.len()
        invariant
            i <= cs@.len(),
            r@ == capability_codes_spec(cs@.take(i as int)),
        decreases cs.len() - i,
    {
        let code: i32 = match cs[i] {
            Capability::StateChecksums => 1,
            Capability::WorldSnapshots => 2,
        };
        r.push(code);
        i = i + 1;
        proof {
            assert(capability_codes_spec(cs@.take(i as int)) =~= r@);
        }
    }
    proof {
        assert(cs@.take(cs@.len() as int) =~= cs@);
    }
    r
}

impl CommandData {
    /// The command carried by an optional wire command.
    pub fn from_wire(c: &Option<wire::Command>) -> (r: Result<CommandData, ProtocolError>)
        ensures
            result_view(r) == command_spec(wire::command_view(*c)),
    {
        match c {
            Some(wire::Command { payload: Some(p) }) => match p {
                wire::CommandPayload::SetDestination(v) => match v.destination {
                    Some(d) => Ok(
                        CommandData::SetDestination {
                            destination: [d.x, d.y],
                            target_unit_ids: v.target_unit_ids.clone(),
                        },
                    ),
                    None => Err(ProtocolError::MissingDestination),
                },
                wire::CommandPayload::ResetSimulation => Ok(CommandData::ResetSimulation),
            },
            _ => Err(ProtocolError::MissingCommandPayload),
        }
    }

    /// The wire form of this command.
    pub fn to_wire(&self) -> (r: wire::Command)
        ensures
            r@ == command_to_wire_spec(self@),
    {
        match self {
            CommandData::SetDestination { destination, target_unit_ids } => wire::Command {
                payload: Some(
                    wire::CommandPayload::SetDestination(
                        wire::SetDestinationCommand {
                            destination: Some(
                                wire::Vector2Bits { x: destination[0], y: destination[1] },
                            ),
                            target_unit_ids: target_unit_ids.clone(),
                        },
                    ),
                ),
            },
            CommandData::ResetSimulation => wire::Command {
                payload: Some(wire::CommandPayload::ResetSimulation),
            },
        }
    }
}

impl AuthoritativeCommand {
    pub fn from_wire(c: &wire::AuthoritativeCommand) -> (r: Result<AuthoritativeCommand, ProtocolError>)
        ensures
            result_view(r) == authoritative_spec(c@),
    {
        let command = CommandData::from_wire(&c.command)?;
        Ok(
            AuthoritativeCommand {
                execute_tick: Tick(c.execute_tick),
                player_slot: c.player_slot,
                sequence: c.sequence,
                command,
            },
        )
    }

    pub fn to_wire(&self) -> (r: wire::AuthoritativeCommand)
        ensures
            r@ == authoritative_to_wire_spec(self@),
    {
        wire::AuthoritativeCommand {
            execute_tick: self.execute_tick.0,
            player_slot: self.player_slot,
            sequence: self.sequence,
            command: Some(self.command.to_wire()),
        }
    }
}

impl WorldUnit {
    pub fn from_wire(w: &wire::WorldUnit) -> (r: WorldUnit)
        ensures
            r == world_unit_spec(*w),
    {
        WorldUnit {
            id: w.id,
            owner: if w.has_owner { Some(w.owner) } else { None },
            position_bits: [w.position_x, w.position_y],
            velocity_bits: [w.velocity_x, w.velocity_y],
            heading_bits: w.heading,
            angular_velocity_bits: w.angular_velocity,
            active: w.active,
            destination_bits: if w.has_destination {
                Some([w.destination_x, w.destination_y])
            } else {
                None
            },
            hull_current: w.hull_current,
            hull_maximum: w.hull_maximum,
            turret_local_heading_bits: w.turret_local_heading,
            turret_target: if w.turret_target_kind != 0 {
                Some((w.turret_target_kind, w.turret_target_id))
            } else {
                None
            },
            turret_cooldown_ticks_remaining: w.turret_cooldown_ticks_remaining,
        }
    }

    pub fn to_wire(&self) -> (r: wire::WorldUnit)
        ensures
            r == world_unit_to_wire_spec(*self),
    {
        wire::WorldUnit {
            id: self.id,
            owner: match self.owner { Some(o) => o, None => 0 },
            has_owner: self.owner.is_some(),
            position_x: self.position_bits[0],
            position_y: self.position_bits[1],
            velocity_x: self.velocity_bits[0],
            velocity_y: self.velocity_bits[1],
            heading: self.heading_bits,
            angular_velocity: self.angular_velocity_bits,
            active: self.active,
            has_destination: self.destination_bits.is_some(),
            destination_x: match self.destination_bits { Some(d) => d[0], None => 0 },
            destination_y: match self.destination_bits { Some(d) => d[1], None => 0 },
            hull_current: self.hull_current,
            hull_maximum: self.hull_maximum,
            turret_local_heading: self.turret_local_heading_bits,
            turret_target_kind: match self.turret_target { Some(t) => t.0, None => 0 },
            turret_target_id: match self.turret_target { Some(t) => t.1, None => 0 },
            turret_cooldown_ticks_remaining: self.turret_cooldown_ticks_remaining,
        }
    }
}

fn units_from_wire(ws: &Vec<wire::WorldUnit>) -> (r: Vec<WorldUnit>)
    ensures
        r@ == ws@.map_values(|u: wire::WorldUnit| world_unit_spec(u)),
{
    let mut r: Vec<WorldUnit> = Vec::new();
    let mut i: usize = 0;
    while i < ws.len()
        invariant
            i <= ws@.len(),
            r@ == ws@.take(i as int).map_values(|u: wire::WorldUnit| world_unit_spec(u)),
        decreases ws.len() - i,
    {
        r.push(WorldUnit::from_wire(&ws[i]));
        i = i + 1;
        proof {
            assert(r@ =~= ws@.take(i as int).map_values(|u: wire::WorldUnit| world_unit_spec(u)));
        }
    }
    proof {
        assert(ws@.take(ws@.len() as int) =~= ws@);
    }
    r
}

fn units_to_wire(us: &Vec<WorldUnit>) -> (r: Vec<wire::WorldUnit>)
    ensures
        r@ == us@.map_values(|u: WorldUnit| world_unit_to_wire_spec(u)),
{
    let mut r: Vec<wire::WorldUnit> = Vec::new();
    let mut i: usize = 0;
    while i < us.len()
        invariant
            i <= us@.len(),
            r@ == us@.take(i as int).map_values(|u: WorldUnit| world_unit_to_wire_spec(u)),
        decreases us.len() - i,
    {
        r.push(us[i].to_wire());
        i = i + 1;
        proof {
            assert(r@ =~= us@.take(i as int).map_values(|u: WorldUnit| world_unit_to_wire_spec(u)));
        }
    }
    proof {
        assert(us@.take(us@.len() as int) =~= us@);
    }
    r
}

/// The models of a sequence of wire commands.
pub open spec fn wire_pending_view(cs: Seq<wire::AuthoritativeCommand>) -> Seq<wire::AuthoritativeCommandView> {
    cs.map_values(|c: wire::AuthoritativeCommand| c@)
}

/// The models of a sequence of commands.
pub open spec fn pending_view(cs: Seq<AuthoritativeCommand>) -> Seq<AuthoritativeCommandView> {
    cs.map_values(|c: AuthoritativeCommand| c@)
}

fn pending_from_wire(cs: &Vec<wire::AuthoritativeCommand>) -> (r: Result<
    Vec<AuthoritativeCommand>,
    ProtocolError,
>)
    ensures
        match (r, pending_spec(wire_pending_view(cs@))) {
            (Ok(v), Ok(s)) => pending_view(v@) == s,
            (Err(e), Err(f)) => e == f,
            _ => false,
        },
{
    let ghost w = wire_pending_view(cs@);
    let mut r: Vec<AuthoritativeCommand> = Vec::new();
    let mut i: usize = 0;
    proof {
        assert(w.take(0) =~= Seq::<wire::AuthoritativeCommandView>::empty());
        assert(pending_view(r@) =~= Seq::<AuthoritativeCommandView>::empty());
    }
    while i < cs.len()
        invariant
            i <= cs@.len(),
            w == wire_pending_view(cs@),
            pending_spec(w.take(i as int)) == Ok::<_, ProtocolError>(pending_view(r@)),
        decreases cs.len() - i,
    {
        let c = AuthoritativeCommand::from_wire(&cs[i]);
        proof {
            let next = w.take(i + 1);
            assert(next.drop_last() =~= w.take(i as int));
            assert(next.last() == cs@[i as int]@);
        }
        match c {
            Ok(c) => {
                let ghost before = r@;
                r.push(c);
                proof {
                    assert(pending_view(r@) =~= pending_view(before).push(c@));
                }
            },
            Err(e) => {
                proof {
                    lemma_pending_error_persists(w, i as int + 1);
                }
                return Err(e);
            },
        }
        i = i + 1;
    }
    proof {
        assert(w.take(w.len() as int) =~= w);
    }
    Ok(r)
}

proof fn lemma_pending_error_persists(cs: Seq<wire::AuthoritativeCommandView>, i: int)
    requires
        0 <= i <= cs.len(),
        pending_spec(cs.take(i)) is Err,
    ensures
        pending_spec(cs) == pending_spec(cs.take(i)),
    decreases cs.len() - i,
{
    if i == cs.len() {
        assert(cs.take(i) =~= cs);
    } else {
        let next = cs.take(i + 1);
        assert(next.drop_last() =~= cs.take(i));
        lemma_pending_error_persists(cs, i + 1);
    }
}

fn pending_to_wire(cs: &Vec<AuthoritativeCommand>) -> (r: Vec<wire::AuthoritativeCommand>)
    ensures
        wire_pending_view(r@) == pending_view(cs@).map_values(
            |c: AuthoritativeCommandView| authoritative_to_wire_spec(c),
        ),
{
    let mut r: Vec<wire::AuthoritativeCommand> = Vec::new();
    let mut i: usize = 0;
    while i < cs.len()
        invariant
            i <= cs@.len(),
            wire_pending_view(r@) == pending_view(cs@.take(i as int)).map_values(
                |c: AuthoritativeCommandView| authoritative_to_wire_spec(c),
            ),
        decreases cs.len() - i,
    {
        let ghost before = r@;
        r.push(cs[i].to_wire());
        proof {
            assert(wire_pending_view(r@) =~= wire_pending_view(before).push(r@[i as int]@));
            assert(cs@.take(i + 1) =~= cs@.take(i as int).push(cs@[i as int]));
        }
        i = i + 1;
        proof {
            assert(wire_pending_view(r@) =~= pending_view(cs@.take(i as int)).map_values(
                |c: AuthoritativeCommandView| authoritative_to_wire_spec(c),
            ));
        }
    }
    proof {
        assert(cs@.take(cs@.len() as int) =~= cs@);
    }
    r
}

proof fn lemma_participants_error_persists(ps: Seq<wire::SessionParticipantView>, i: int)
    requires
        0 <= i <= ps.len(),
        participants_spec(ps.take(i)) is Err,
    ensures
        participants_spec(ps) == participants_spec(ps.take(i)),
    decreases ps.len() - i,
{
    if i == ps.len() {
        assert(ps.take(i) =~= ps);
    } else {
        let next = ps.take(i + 1);
        assert(next.drop_last() =~= ps.take(i));
        lemma_participants_error_persists(ps, i + 1);
    }
}

fn participants_from_wire(ps: &Vec<wire::SessionParticipant>) -> (r: Result<
    Vec<SessionParticipant>,
    ProtocolError,
>)
    ensures
        match (r, participants_spec(ps@.map_values(|p: wire::SessionParticipant| p@))) {
            (Ok(v), Ok(s)) => participant_views(v@) == s,
            (Err(e), Err(f)) => e == f,
            _ => false,
        },
{
    let ghost views = ps@.map_values(|p: wire::SessionParticipant| p@);
    let mut r: Vec<SessionParticipant> = Vec::new();
    let mut i: usize = 0;
    proof {
        assert(views.take(0) =~= Seq::<wire::SessionParticipantView>::empty());
        assert(participant_views(r@) =~= Seq::<SessionParticipantView>::empty());
    }
    while i < ps.len()
        invariant
            i <= ps@.len(),
            views == ps@.map_values(|p: wire::SessionParticipant| p@),
            participants_spec(views.take(i as int)) == Ok::<_, ProtocolError>(
                participant_views(r@),
            ),
        decreases ps.len() - i,
    {
        let p = &ps[i];
        proof {
            let next = views.take(i + 1);
            assert(next.drop_last() =~= views.take(i as int));
            assert(next.last() == p@);
        }
        let color = if p.color == 1 {
            PlayerColor::Cyan
        } else if p.color == 2 {
            PlayerColor::Coral
        } else {
            proof {
                lemma_participants_error_persists(views, i as int + 1);
            }
            return Err(ProtocolError::InvalidPlayerColor);
        };
        let ghost old_r = r@;
        r.push(SessionParticipant { player_slot: p.player_slot, display_name: p.display_name.clone(), color });
        i = i + 1;
        proof {
            assert(participant_views(r@) =~= participant_views(old_r).push(r@.last()@));
        }
    }
    proof {
        assert(views.take(views.len() as int) =~= views);
    }
    Ok(r)
}

fn participants_to_wire(ps: &Vec<SessionParticipant>) -> (r: Vec<wire::SessionParticipant>)
    ensures
        r@.map_values(|p: wire::SessionParticipant| p@) == participant_views(ps@).map_values(
            |p: SessionParticipantView| participant_to_wire_spec(p),
        ),
{
    let mut r: Vec<wire::SessionParticipant> = Vec::new();
    let mut i: usize = 0;
    while i < ps.len()
        invariant
            i <= ps@.len(),
            r@.map_values(|p: wire::SessionParticipant| p@) == participant_views(
                ps@.take(i as int),
            ).map_values(|p: SessionParticipantView| participant_to_wire_spec(p)),
        decreases ps.len() - i,
    {
        let p = &ps[i];
        let color: i32 = match p.color {
            PlayerColor::Cyan => 1,
            PlayerColor::Coral => 2,
        };
        let ghost old_r = r@;
        let name = p.display_name.clone();
        let item = wire::SessionParticipant { player_slot: p.player_slot, display_name: name, color };
        assert(item@ == participant_to_wire_spec(ps@[i as int]@));
        r.push(item);
        i = i + 1;
        proof {
            assert(r@.map_values(|p: wire::SessionParticipant| p@) =~= old_r.map_values(
                |p: wire::SessionParticipant| p@,
            ).push(item@));
            assert(participant_views(ps@.take(i as int)) =~= participant_views(
                ps@.take(i - 1),
            ).push(ps@[i - 1]@));
            assert(r@.map_values(|p: wire::SessionParticipant| p@) =~= participant_views(
                ps@.take(i as int),
            ).map_values(|p: SessionParticipantView| participant_to_wire_spec(p)));
        }
    }
    proof {
        assert(ps@.take(ps@.len() as int) =~= ps@);
    }
    r
}

fn session_from_wire(v: wire::SessionSnapshot) -> (r: Result<Message, ProtocolError>)
    ensures
        decoded_as(r, session_spec(v@)),
{
    let opponent_presence = if v.opponent_presence == 1 {
        OpponentPresence::Waiting
    } else if v.opponent_presence == 2 {
        OpponentPresence::Present
    } else if v.opponent_presence == 3 {
        OpponentPresence::Disconnected
    } else {
        return Err(ProtocolError::InvalidOpponentPresence);
    };
    let match_timing = match v.match_timing {
        Some(wire::MatchTiming { state: Some(wire::MatchTimingState::Inactive) }) => MatchTiming::Inactive,
        Some(wire::MatchTiming { state: Some(wire::MatchTimingState::Active { started_at_tick }) }) => {
            MatchTiming::Active { started_at_tick: Tick(started_at_tick) }
        },
        _ => {
            return Err(ProtocolError::MissingMatchTiming);
        },
    };
    let participants = participants_from_wire(&v.participants)?;
    let snapshot = SessionSnapshot {
        local_player_slot: v.local_player_slot,
        participants,
        opponent_presence,
        presence_revision: v.presence_revision,
        match_timing,
    };
    snapshot.validate()?;
    Ok(Message::SessionSnapshot(snapshot))
}

impl Message {
    /// Converts a decoded wire envelope into a message. Unknown capability
    /// codes are dropped; unknown enumeration codes, missing payloads and
    /// session snapshots that do not validate are refused.
    pub fn try_from_envelope(e: wire::Envelope) -> (r: Result<Message, ProtocolError>)
        ensures
            decoded_as(r, decode_spec(e@)),
    {
        let payload = match e.payload {
            Some(p) => p,
            None => {
                return Err(ProtocolError::MissingEnvelopePayload);
            },
        };
        match payload {
            wire::EnvelopePayload::ClientHello(v) => {
                let capabilities = caps(v.supported_capabilities.as_slice());
                Ok(
                    Message::ClientHello(
                        ClientHello {
                            simulation_version: v.simulation_version,
                            capabilities,
                            display_name: v.display_name,
                        },
                    ),
                )
            },
            wire::EnvelopePayload::ServerHello(v) => {
                let capabilities = caps(v.enabled_capabilities.as_slice());
                Ok(
                    Message::ServerHello(
                        ServerHello {
                            simulation_version: v.simulation_version,
                            simulation_hz: v.simulation_hz,
                            player_slot: v.player_slot,
                            server_tick: Tick(v.server_tick),
                            fleet_size: v.fleet_size,
                            world_radius_bits: v.world_radius_bits,
                            capabilities,
                        },
                    ),
                )
            },
            wire::EnvelopePayload::CommandRequest(v) => {
                let command = CommandData::from_wire(&v.command)?;
                Ok(Message::CommandRequest(CommandRequest { sequence: v.sequence, command }))
            },
            wire::EnvelopePayload::AuthoritativeCommand(v) => {
                let c = AuthoritativeCommand::from_wire(&v)?;
                Ok(Message::AuthoritativeCommand(c))
            },
            wire::EnvelopePayload::CommandRejected(v) => {
                let reason = if v.reason == 1 {
                    CommandRejectionReason::InvalidPlayer
                } else if v.reason == 2 {
                    CommandRejectionReason::UnauthorizedFleet
                } else if v.reason == 3 {
                    CommandRejectionReason::NonFiniteDestination
                } else if v.reason == 4 {
                    CommandRejectionReason::DestinationOutsideArena
                } else if v.reason == 5 {
                    CommandRejectionReason::InvalidCommand
                } else {
                    return Err(ProtocolError::InvalidCommandRejectionReason);
                };
                Ok(Message::CommandRejected(CommandRejected { sequence: v.sequence, reason }))
            },
            wire::EnvelopePayload::StateChecksum(v) => {
                Ok(Message::StateChecksum(StateChecksum { tick: Tick(v.tick), hash: v.hash }))
            },
            wire::EnvelopePayload::HandshakeRejected(v) => {
                let reason = if v.reason == 1 {
                    HandshakeRejectionReason::ServerFull
                } else if v.reason == 2 {
                    HandshakeRejectionReason::IncompatibleVersion
                } else if v.reason == 3 {
                    HandshakeRejectionReason::MissingRequiredCapability
                } else if v.reason == 4 {
                    HandshakeRejectionReason::InvalidHandshake
                } else {
                    return Err(ProtocolError::InvalidHandshakeRejectionReason);
                };
                Ok(Message::HandshakeRejected(HandshakeRejected { reason }))
            },
            wire::EnvelopePayload::InitialWorldState(v) => {
                let units = units_from_wire(&v.units);
                let pending_commands = pending_from_wire(&v.pending_commands)?;
                Ok(
                    Message::InitialWorldState(
                        InitialWorldState {
                            snapshot_format_version: v.snapshot_format_version,
                            simulation_version: v.simulation_version,
                            tick: Tick(v.tick),
                            world_radius_bits: v.world_radius_bits,
                            next_unit_id: v.next_unit_id,
                            unit_id_exhausted: v.unit_id_exhausted,
                            units,
                            state_hash: v.state_hash,
                            pending_commands,
                        },
                    ),
                )
            },
            wire::EnvelopePayload::SessionSnapshot(v) => session_from_wire(v),
        }
    }
}

impl wire::Envelope {
    /// The wire form of a message.
    pub fn from_message(m: &Message) -> (r: wire::Envelope)
        ensures
            r@ == encode_spec(m@),
    {
        let payload = match m {
            Message::ClientHello(v) => wire::EnvelopePayload::ClientHello(
                wire::ClientHello {
                    simulation_version: v.simulation_version,
                    supported_capabilities: capability_codes(&v.capabilities),
                    display_name: v.display_name.clone(),
                },
            ),
            Message::ServerHello(v) => wire::EnvelopePayload::ServerHello(
                wire::ServerHello {
                    simulation_version: v.simulation_version,
                    simulation_hz: v.simulation_hz,
                    player_slot: v.player_slot,
                    server_tick: v.server_tick.0,
                    fleet_size: v.fleet_size,
                    world_radius_bits: v.world_radius_bits,
                    enabled_capabilities: capability_codes(&v.capabilities),
                },
            ),
            Message::CommandRequest(v) => wire::EnvelopePayload::CommandRequest(
                wire::CommandRequest { sequence: v.sequence, command: Some(v.command.to_wire()) },
            ),
            Message::AuthoritativeCommand(v) => wire::EnvelopePayload::AuthoritativeCommand(
                v.to_wire(),
            ),
            Message::CommandRejected(v) => {
                let reason: i32 = match v.reason {
                    CommandRejectionReason::InvalidPlayer => 1,
                    CommandRejectionReason::UnauthorizedFleet => 2,
                    CommandRejectionReason::NonFiniteDestination => 3,
                    CommandRejectionReason::DestinationOutsideArena => 4,
                    CommandRejectionReason::InvalidCommand => 5,
                };
                wire::EnvelopePayload::CommandRejected(
                    wire::CommandRejected { sequence: v.sequence, reason },
                )
            },
            Message::StateChecksum(v) => wire::EnvelopePayload::StateChecksum(
                wire::StateChecksum { tick: v.tick.0, hash: copy_bytes(&v.hash) },
            ),
            Message::HandshakeRejected(v) => {
                let reason: i32 = match v.reason {
                    HandshakeRejectionReason::ServerFull => 1,
                    HandshakeRejectionReason::IncompatibleVersion => 2,
                    HandshakeRejectionReason::MissingRequiredCapability => 3,
                    HandshakeRejectionReason::InvalidHandshake => 4,
                };
                wire::EnvelopePayload::HandshakeRejected(wire::HandshakeRejected { reason })
            },
            Message::InitialWorldState(v) => wire::EnvelopePayload::InitialWorldState(
                wire::InitialWorldState {
                    snapshot_format_version: v.snapshot_format_version,
                    simulation_version: v.simulation_version,
                    tick: v.tick.0,
                    world_radius_bits: v.world_radius_bits,
                    next_unit_id: v.next_unit_id,
                    unit_id_exhausted: v.unit_id_exhausted,
                    units: units_to_wire(&v.units),
                    state_hash: copy_bytes(&v.state_hash),
                    pending_commands: pending_to_wire(&v.pending_commands),
                },
            ),
            Message::SessionSnapshot(v) => {
                let match_timing = match v.match_timing {
                    MatchTiming::Inactive => wire::MatchTiming {
                        state: Some(wire::MatchTimingState::Inactive),
                    },
                    MatchTiming::Active { started_at_tick } => wire::MatchTiming {
                        state: Some(
                            wire::MatchTimingState::Active { started_at_tick: started_at_tick.0 },
                        ),
                    },
                };
                let opponent_presence: i32 = match v.opponent_presence {
                    OpponentPresence::Waiting => 1,
                    OpponentPresence::Present => 2,
                    OpponentPresence::Disconnected => 3,
                };
                wire::EnvelopePayload::SessionSnapshot(
                    wire::SessionSnapshot {
                        local_player_slot: v.local_player_slot,
                        participants: participants_to_wire(&v.participants),
                        opponent_presence,
                        presence_revision: v.presence_revision,
                        match_timing: Some(match_timing),
                    },
                )
            },
        };
        wire::Envelope { payload: Some(payload) }
    }
}

// ---------------------------------------------------------------------------
// Round trip
// ---------------------------------------------------------------------------

/// A unit whose turret target, if any, has a nonzero kind: kind 0 on the
/// wire means "no target", so a target of kind 0 cannot survive the trip.
pub open spec fn unit_round_trips(u: WorldUnit) -> bool {
    match u.turret_target {
        Some(t) => t.0 != 0,
        None => true,
    }
}

/// The messages whose wire form decodes back to the same message: every
/// message but a world state holding a unit aimed at a kind-0 target, and a
/// session snapshot that does not validate.
pub open spec fn round_trips(m: MessageView) -> bool {
    match m {
        MessageView::InitialWorldState(v) => forall|i: int|
            0 <= i < v.units.len() ==> unit_round_trips(#[trigger] v.units[i]),
        MessageView::SessionSnapshot(v) => session_verdict(v) is Ok,
        _ => true,
    }
}

proof fn lemma_caps_round_trip(cs: Seq<Capability>)
    ensures
        caps_spec(capability_codes_spec(cs)) == cs,
    decreases cs.len(),
{
    if cs.len() > 0 {
        lemma_caps_round_trip(cs.drop_last());
        assert(capability_codes_spec(cs).drop_last() =~= capability_codes_spec(cs.drop_last()));
        assert(cs.drop_last().push(cs.last()) =~= cs);
    } else {
        assert(capability_codes_spec(cs) =~= Seq::<i32>::empty());
        assert(cs =~= Seq::<Capability>::empty());
    }
}

proof fn lemma_command_round_trip(c: CommandDataView)
    ensures
        command_spec(Some(command_to_wire_spec(c))) == Ok::<CommandDataView, ProtocolError>(c),
{
    broadcast use vstd::array::group_array_axioms;

    match c {
        CommandDataView::SetDestination { destination, .. } => {
            let d2 = [destination[0], destination[1]];
            assert(d2@ =~= destination@);
            assert(d2 == destination);
        },
        CommandDataView::ResetSimulation => {},
    }
}

proof fn lemma_pending_round_trip(cs: Seq<AuthoritativeCommandView>)
    ensures
        pending_spec(cs.map_values(|c: AuthoritativeCommandView| authoritative_to_wire_spec(c)))
            == Ok::<Seq<AuthoritativeCommandView>, ProtocolError>(cs),
    decreases cs.len(),
{
    let w = cs.map_values(|c: AuthoritativeCommandView| authoritative_to_wire_spec(c));
    if cs.len() > 0 {
        lemma_pending_round_trip(cs.drop_last());
        assert(w.drop_last() =~= cs.drop_last().map_values(
            |c: AuthoritativeCommandView| authoritative_to_wire_spec(c),
        ));
        lemma_command_round_trip(cs.last().command);
        assert(cs.drop_last().push(cs.last()) =~= cs);
    } else {
        assert(w =~= Seq::<wire::AuthoritativeCommandView>::empty());
        assert(cs =~= Seq::<AuthoritativeCommandView>::empty());
    }
}

proof fn lemma_unit_round_trip(u: WorldUnit)
    requires
        unit_round_trips(u),
    ensures
        world_unit_spec(world_unit_to_wire_spec(u)) == u,
{
    broadcast use vstd::array::group_array_axioms;

    let r = world_unit_spec(world_unit_to_wire_spec(u));
    assert(r.position_bits@ =~= u.position_bits@);
    assert(r.velocity_bits@ =~= u.velocity_bits@);
    assert(r.position_bits == u.position_bits);
    assert(r.velocity_bits == u.velocity_bits);
    match u.destination_bits {
        Some(d) => {
            assert(r.destination_bits->0@ =~= d@);
            assert(r.destination_bits->0 == d);
            assert(r.destination_bits == u.destination_bits);
        },
        None => {},
    }
}

proof fn lemma_participants_round_trip(ps: Seq<SessionParticipantView>)
    ensures
        participants_spec(ps.map_values(|p: SessionParticipantView| participant_to_wire_spec(p)))
            == Ok::<Seq<SessionParticipantView>, ProtocolError>(ps),
    decreases ps.len(),
{
    let w = ps.map_values(|p: SessionParticipantView| participant_to_wire_spec(p));
    if ps.len() > 0 {
        lemma_participants_round_trip(ps.drop_last());
        assert(w.drop_last() =~= ps.drop_last().map_values(
            |p: SessionParticipantView| participant_to_wire_spec(p),
        ));
        assert(ps.drop_last().push(ps.last()) =~= ps);
    } else {
        assert(w =~= Seq::<wire::SessionParticipantView>::empty());
        assert(ps =~= Seq::<SessionParticipantView>::empty());
    }
}

/// Decoding the wire form of a message gives back the message, for every
/// message that [`round_trips`] admits.
pub proof fn lemma_message_round_trip(m: MessageView)
    requires
        round_trips(m),
    ensures
        decode_spec(encode_spec(m)) == Ok::<MessageView, ProtocolError>(m),
{
    match m {
        MessageView::ClientHello(v) => {
            lemma_caps_round_trip(v.capabilities);
        },
        MessageView::ServerHello(v) => {
            lemma_caps_round_trip(v.capabilities);
        },
        MessageView::CommandRequest(v) => {
            lemma_command_round_trip(v.command);
        },
        MessageView::AuthoritativeCommand(v) => {
            lemma_command_round_trip(v.command);
        },
        MessageView::CommandRejected(v) => {},
        MessageView::StateChecksum(v) => {},
        MessageView::HandshakeRejected(v) => {},
        MessageView::InitialWorldState(v) => {
            lemma_pending_round_trip(v.pending_commands);
            let back = v.units.map_values(|u: WorldUnit| world_unit_to_wire_spec(u)).map_values(
                |u: wire::WorldUnit| world_unit_spec(u),
            );
            assert forall|i: int| 0 <= i < v.units.len() implies back[i] == v.units[i] by {
                lemma_unit_round_trip(v.units[i]);
            }
            assert(back =~= v.units);
        },
        MessageView::SessionSnapshot(v) => {
            lemma_participants_round_trip(v.participants);
        },
    }
}

impl TryFrom<wire::Envelope> for Message {
    type Error = ProtocolError;

    /// The same conversion as [`Message::try_from_envelope`].
    fn try_from(value: wire::Envelope) -> (r: Result<Message, ProtocolError>)
        ensures
            decoded_as(r, decode_spec(value@)),
    {
        Message::try_from_envelope(value)
    }
}

/// The outcome of `try_from` is stated over views in its own `ensures`;
/// two messages with equal contents need not be equal values, so
/// `obeys_try_from_spec` is false and callers go by the `ensures`.
impl vstd::std_specs::convert::TryFromSpecImpl<wire::Envelope> for Message {
    open spec fn obeys_try_from_spec() -> bool {
        false
    }

    open spec fn try_from_spec(v: wire::Envelope) -> Result<Message, ProtocolError> {
        match decode_spec(v@) {
            Ok(m) => Ok(choose|x: Message| x@ == m),
            Err(e) => Err(e),
        }
    }
}

impl<'a> From<&'a Message> for wire::Envelope {
    /// The same conversion as [`wire::Envelope::from_message`].
    fn from(m: &'a Message) -> (r: wire::Envelope)
        ensures
            r@ == encode_spec(m@),
    {
        wire::Envelope::from_message(m)
    }
}

/// The result of `from` is stated over views in its own `ensures`; for the
/// same reason as above `obeys_from_spec` is false.
impl<'a> vstd::std_specs::convert::FromSpecImpl<&'a Message> for wire::Envelope {
    open spec fn obeys_from_spec() -> bool {
        false
    }

    open spec fn from_spec(m: &'a Message) -> wire::Envelope {
        choose|e: wire::Envelope| e@ == encode_spec(m@)
    }
}

/// Every session snapshot that decoding hands out validates: a snapshot
/// payload that does not validate is refused instead.
pub proof fn lemma_decoded_session_validates(e: Option<wire::EnvelopePayloadView>)
    ensures
        decode_spec(e) matches Ok(MessageView::SessionSnapshot(s)) ==> session_verdict(s) is Ok,
{
}

} // verus!
