//! The protobuf schema of the wire protocol, as plain values. Turning these
//! values into protobuf bytes and back is the business of the transport;
//! this crate converts between them and [`crate::message::Message`].

use vstd::prelude::*;

verus! {

#[derive(Clone, Copy, Debug, PartialEq, Eq, Structural)]
pub struct Vector2Bits {
    pub x: u32,
    pub y: u32,
}

#[derive(Clone, Debug, PartialEq, Eq)]
pub struct SetDestinationCommand {
    pub destination: Option<Vector2Bits>,
    pub target_unit_ids: Vec<u32>,
}

pub struct SetDestinationCommandView {
    pub destination: Option<Vector2Bits>,
    pub target_unit_ids: Seq<u32>,
}

impl View for SetDestinationCommand {
    type V = SetDestinationCommandView;

    open spec fn view(&self) -> SetDestinationCommandView {
        SetDestinationCommandView { destination: self.destination, target_unit_ids: self.target_unit_ids@ }
    }
}

#[derive(Clone, Debug, PartialEq, Eq)]
pub enum CommandPayload {
    SetDestination(SetDestinationCommand),
    ResetSimulation,
}

pub enum CommandPayloadView {
    SetDestination(SetDestinationCommandView),
    ResetSimulation,
}

impl View for CommandPayload {
    type V = CommandPayloadView;

    open spec fn view(&self) -> CommandPayloadView {
        match self {
            CommandPayload::SetDestination(v) => CommandPayloadView::SetDestination(v@),
            CommandPayload::ResetSimulation => CommandPayloadView::ResetSimulation,
        }
    }
}

#[derive(Clone, Debug, PartialEq, Eq)]
pub struct Command {
    pub payload: Option<CommandPayload>,
}

pub struct CommandView {
    pub payload: Option<CommandPayloadView>,
}

impl View for Command {
    type V = CommandView;

    open spec fn view(&self) -> CommandView {
        CommandView {
            payload: match self.payload {
                Some(p) => Some(p@),
                None => None,
            },
        }
    }
}

/// The model of an optional wire command.
pub open spec fn command_view(c: Option<Command>) -> Option<CommandView> {
    match c {
        Some(c) => Some(c@),
        None => None,
    }
}

#[derive(Clone, Debug, PartialEq, Eq)]
pub struct ClientHello {
    pub simulation_version: u32,
    pub supported_capabilities: Vec<i32>,
    pub display_name: String,
}

pub struct ClientHelloView {
    pub simulation_version: u32,
    pub supported_capabilities: Seq<i32>,
    pub display_name: Seq<char>,
}

impl View for ClientHello {
    type V = ClientHelloView;

    open spec fn view(&self) -> ClientHelloView {
        ClientHelloView {
            simulation_version: self.simulation_version,
            supported_capabilities: self.supported_capabilities@,
            display_name: self.display_name@,
        }
    }
}

#[derive(Clone, Debug, PartialEq, Eq)]
pub struct ServerHello {
    pub simulation_version: u32,
    pub simulation_hz: u32,
    pub player_slot: u32,
    pub server_tick: u64,
    pub fleet_size: u32,
    pub world_radius_bits: u32,
    pub enabled_capabilities: Vec<i32>,
}

pub struct ServerHelloView {
    pub simulation_version: u32,
    pub simulation_hz: u32,
    pub player_slot: u32,
    pub server_tick: u64,
    pub fleet_size: u32,
    pub world_radius_bits: u32,
    pub enabled_capabilities: Seq<i32>,
}

impl View for ServerHello {
    type V = ServerHelloView;

    open spec fn view(&self) -> ServerHelloView {
        ServerHelloView {
            simulation_version: self.simulation_version,
            simulation_hz: self.simulation_hz,
            player_slot: self.player_slot,
            server_tick: self.server_tick,
            fleet_size: self.fleet_size,
            world_radius_bits: self.world_radius_bits,
            enabled_capabilities: self.enabled_capabilities@,
        }
    }
}

#[derive(Clone, Debug, PartialEq, Eq)]
pub struct CommandRequest {
    pub sequence: u32,
    pub command: Option<Command>,
}

pub struct CommandRequestView {
    pub sequence: u32,
    pub command: Option<CommandView>,
}

impl View for CommandRequest {
    type V = CommandRequestView;

    open spec fn view(&self) -> CommandRequestView {
        CommandRequestView { sequence: self.sequence, command: command_view(self.command) }
    }
}

#[derive(Clone, Debug, PartialEq, Eq)]
pub struct AuthoritativeCommand {
    pub execute_tick: u64,
    pub player_slot: u32,
    pub sequence: u32,
    pub command: Option<Command>,
}

pub struct AuthoritativeCommandView {
    pub execute_tick: u64,
    pub player_slot: u32,
    pub sequence: u32,
    pub command: Option<CommandView>,
}

impl View for AuthoritativeCommand {
    type V = AuthoritativeCommandView;

    open spec fn view(&self) -> AuthoritativeCommandView {
        AuthoritativeCommandView {
            execute_tick: self.execute_tick,
            player_slot: self.player_slot,
            sequence: self.sequence,
            command: command_view(self.command),
        }
    }
}

#[derive(Clone, Copy, Debug, PartialEq, Eq, Structural)]
pub struct CommandRejected {
    pub sequence: u32,
    pub reason: i32,
}

#[derive(Clone, Debug, PartialEq, Eq)]
pub struct StateChecksum {
    pub tick: u64,
    pub hash: Vec<u8>,
}

pub struct StateChecksumView {
    pub tick: u64,
    pub hash: Seq<u8>,
}

impl View for StateChecksum {
    type V = StateChecksumView;

    open spec fn view(&self) -> StateChecksumView {
        StateChecksumView { tick: self.tick, hash: self.hash@ }
    }
}

#[derive(Clone, Copy, Debug, PartialEq, Eq, Structural)]
pub struct HandshakeRejected {
    pub reason: i32,
}

#[derive(Clone, Copy, Debug, PartialEq, Eq, Structural)]
pub struct WorldUnit {
    pub id: u32,
    pub owner: u32,
    pub has_owner: bool,
    pub position_x: u32,
    pub position_y: u32,
    pub velocity_x: u32,
    pub velocity_y: u32,
    pub heading: u32,
    pub angular_velocity: u32,
    pub active: bool,
    pub has_destination: bool,
    pub destination_x: u32,
    pub destination_y: u32,
    pub hull_current: u32,
    pub hull_maximum: u32,
    pub turret_local_heading: u32,
    pub turret_target_kind: u32,
    pub turret_target_id: u32,
    pub turret_cooldown_ticks_remaining: u32,
}

#[derive(Clone, Debug, PartialEq, Eq)]
pub struct InitialWorldState {
    pub snapshot_format_version: u32,
    pub simulation_version: u32,
    pub tick: u64,
    pub world_radius_bits: u32,
    pub next_unit_id: u32,
    pub unit_id_exhausted: bool,
    pub units: Vec<WorldUnit>,
    pub state_hash: Vec<u8>,
    pub pending_commands: Vec<AuthoritativeCommand>,
}

pub struct InitialWorldStateView {
    pub snapshot_format_version: u32,
    pub simulation_version: u32,
    pub tick: u64,
    pub world_radius_bits: u32,
    pub next_unit_id: u32,
    pub unit_id_exhausted: bool,
    pub units: Seq<WorldUnit>,
    pub state_hash: Seq<u8>,
    pub pending_commands: Seq<AuthoritativeCommandView>,
}

impl View for InitialWorldState {
    type V = InitialWorldStateView;

    open spec fn view(&self) -> InitialWorldStateView {
        InitialWorldStateView {
            snapshot_format_version: self.snapshot_format_version,
            simulation_version: self.simulation_version,
            tick: self.tick,
            world_radius_bits: self.world_radius_bits,
            next_unit_id: self.next_unit_id,
            unit_id_exhausted: self.unit_id_exhausted,
            units: self.units@,
            state_hash: self.state_hash@,
            pending_commands: self.pending_commands@.map_values(|c: AuthoritativeCommand| c@),
        }
    }
}

#[derive(Clone, Debug, PartialEq, Eq)]
pub struct SessionParticipant {
    pub player_slot: u32,
    pub display_name: String,
    pub color: i32,
}

pub struct SessionParticipantView {
    pub player_slot: u32,
    pub display_name: Seq<char>,
    pub color: i32,
}

impl View for SessionParticipant {
    type V = SessionParticipantView;

    open spec fn view(&self) -> SessionParticipantView {
        SessionParticipantView {
            player_slot: self.player_slot,
            display_name: self.display_name@,
            color: self.color,
        }
    }
}

#[derive(Clone, Copy, Debug, PartialEq, Eq, Structural)]
pub enum MatchTimingState {
    Inactive,
    Active { started_at_tick: u64 },
}

#[derive(Clone, Copy, Debug, PartialEq, Eq, Structural)]
pub struct MatchTiming {
    pub state: Option<MatchTimingState>,
}

#[derive(Clone, Debug, PartialEq, Eq)]
pub struct SessionSnapshot {
    pub local_player_slot: u32,
    pub participants: Vec<SessionParticipant>,
    pub opponent_presence: i32,
    pub presence_revision: u64,
    pub match_timing: Option<MatchTiming>,
}

pub struct SessionSnapshotView {
    pub local_player_slot: u32,
    pub participants: Seq<SessionParticipantView>,
    pub opponent_presence: i32,
    pub presence_revision: u64,
    pub match_timing: Option<MatchTiming>,
}

impl View for SessionSnapshot {
    type V = SessionSnapshotView;

    open spec fn view(&self) -> SessionSnapshotView {
        SessionSnapshotView {
            local_player_slot: self.local_player_slot,
            participants: self.participants@.map_values(|p: SessionParticipant| p@),
            opponent_presence: self.opponent_presence,
            presence_revision: self.presence_revision,
            match_timing: self.match_timing,
        }
    }
}

#[derive(Clone, Debug, PartialEq, Eq)]
pub enum EnvelopePayload {
    ClientHello(ClientHello),
    ServerHello(ServerHello),
    CommandRequest(CommandRequest),
    AuthoritativeCommand(AuthoritativeCommand),
    CommandRejected(CommandRejected),
    StateChecksum(StateChecksum),
    HandshakeRejected(HandshakeRejected),
    InitialWorldState(InitialWorldState),
    SessionSnapshot(SessionSnapshot),
}

pub enum EnvelopePayloadView {
    ClientHello(ClientHelloView),
    ServerHello(ServerHelloView),
    CommandRequest(CommandRequestView),
    AuthoritativeCommand(AuthoritativeCommandView),
    CommandRejected(CommandRejected),
    StateChecksum(StateChecksumView),
    HandshakeRejected(HandshakeRejected),
    InitialWorldState(InitialWorldStateView),
    SessionSnapshot(SessionSnapshotView),
}

impl View for EnvelopePayload {
    type V = EnvelopePayloadView;

    open spec fn view(&self) -> EnvelopePayloadView {
        match self {
            EnvelopePayload::ClientHello(v) => EnvelopePayloadView::ClientHello(v@),
            EnvelopePayload::ServerHello(v) => EnvelopePayloadView::ServerHello(v@),
            EnvelopePayload::CommandRequest(v) => EnvelopePayloadView::CommandRequest(v@),
            EnvelopePayload::AuthoritativeCommand(v) => EnvelopePayloadView::AuthoritativeCommand(v@),
            EnvelopePayload::CommandRejected(v) => EnvelopePayloadView::CommandRejected(*v),
            EnvelopePayload::StateChecksum(v) => EnvelopePayloadView::StateChecksum(v@),
            EnvelopePayload::HandshakeRejected(v) => EnvelopePayloadView::HandshakeRejected(*v),
            EnvelopePayload::InitialWorldState(v) => EnvelopePayloadView::InitialWorldState(v@),
            EnvelopePayload::SessionSnapshot(v) => EnvelopePayloadView::SessionSnapshot(v@),
        }
    }
}

/// The outermost protobuf message: exactly one payload, or none when malformed.
#[derive(Clone, Debug, PartialEq, Eq)]
pub struct Envelope {
    pub payload: Option<EnvelopePayload>,
}

impl View for Envelope {
    type V = Option<EnvelopePayloadView>;

    open spec fn view(&self) -> Option<EnvelopePayloadView> {
        match self.payload {
            Some(p) => Some(p@),
            None => None,
        }
    }
}

} // verus!
