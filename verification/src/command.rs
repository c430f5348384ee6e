//! Player commands as they travel between client and server.

use crate::tick::Tick;
use vstd::prelude::*;

verus! {

/// The payload of a command. A destination travels as the IEEE-754 bit
/// patterns of its two coordinates so that it survives the wire exactly,
/// together with the ids of the units it is meant for.
#[derive(Clone, Debug, PartialEq, Eq)]
pub enum CommandData {
    SetDestination { destination: [u32; 2], target_unit_ids: Vec<u32> },
    ResetSimulation,
}

/// The model of a [`CommandData`].
pub enum CommandDataView {
    SetDestination { destination: [u32; 2], target_unit_ids: Seq<u32> },
    ResetSimulation,
}

impl View for CommandData {
    type V = CommandDataView;

    open spec fn view(&self) -> CommandDataView {
        match self {
            CommandData::SetDestination { destination, target_unit_ids } => CommandDataView::SetDestination {
                destination: *destination,
                target_unit_ids: target_unit_ids@,
            },
            CommandData::ResetSimulation => CommandDataView::ResetSimulation,
        }
    }
}

impl CommandData {
    /// A copy of this command.
    pub fn duplicate(&self) -> (r: CommandData)
        ensures
            r@ == self@,
    {
        match self {
            CommandData::SetDestination { destination, target_unit_ids } => CommandData::SetDestination {
                destination: *destination,
                target_unit_ids: target_unit_ids.clone(),
            },
            CommandData::ResetSimulation => CommandData::ResetSimulation,
        }
    }

    pub fn is_reset(&self) -> (r: bool)
        ensures
            r == (self@ is ResetSimulation),
    {
        match self {
            CommandData::ResetSimulation => true,
            _ => false,
        }
    }
}

/// A command as a client requests it.
#[derive(Clone, Debug, PartialEq, Eq)]
pub struct CommandRequest {
    pub sequence: u32,
    pub command: CommandData,
}

/// The model of a [`CommandRequest`].
pub struct CommandRequestView {
    pub sequence: u32,
    pub command: CommandDataView,
}

impl View for CommandRequest {
    type V = CommandRequestView;

    open spec fn view(&self) -> CommandRequestView {
        CommandRequestView { sequence: self.sequence, command: self.command@ }
    }
}

/// A command that the server has scheduled for every peer.
#[derive(Clone, Debug, PartialEq, Eq)]
pub struct AuthoritativeCommand {
    pub execute_tick: Tick,
    pub player_slot: u32,
    pub sequence: u32,
    pub command: CommandData,
}

/// The model of an [`AuthoritativeCommand`].
pub struct AuthoritativeCommandView {
    pub execute_tick: Tick,
    pub player_slot: u32,
    pub sequence: u32,
    pub command: CommandDataView,
}

impl View for AuthoritativeCommand {
    type V = AuthoritativeCommandView;

    open spec fn view(&self) -> AuthoritativeCommandView {
        AuthoritativeCommandView {
            execute_tick: self.execute_tick,
            player_slot: self.player_slot,
            sequence: self.sequence,
            command: self.command@,
        }
    }
}

impl AuthoritativeCommand {
    /// A copy of this command.
    pub fn duplicate(&self) -> (r: AuthoritativeCommand)
        ensures
            r@ == self@,
    {
        AuthoritativeCommand {
            execute_tick: self.execute_tick,
            player_slot: self.player_slot,
            sequence: self.sequence,
            command: self.command.duplicate(),
        }
    }
}

#[derive(Clone, Copy, Debug, PartialEq, Eq, Structural)]
pub enum CommandRejectionReason {
    InvalidPlayer,
    UnauthorizedFleet,
    NonFiniteDestination,
    DestinationOutsideArena,
    InvalidCommand,
}

/// The server's refusal of a requested command.
#[derive(Clone, Copy, Debug, PartialEq, Eq, Structural)]
pub struct CommandRejected {
    pub sequence: u32,
    pub reason: CommandRejectionReason,
}

} // verus!
