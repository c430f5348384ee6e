//! The server's answer to each new connection and to each message a client
//! sends: what goes back to the sender, what goes to every connected client,
//! and what the host must do to its schedule. The host owns the sockets, the
//! simulation and the match session; it performs the outputs in order.

use crate::command::{
    AuthoritativeCommandView, CommandData, CommandRejected, CommandRejectionReason, CommandRequest,
};
use crate::config::SimulationConfig;
use crate::handshake::{Capability, HandshakeRejected, HandshakeRejectionReason, ServerHello, ServerHelloView};
use crate::ids::PlayerId;
use crate::message::{Message, MessageView};
use crate::objective::SIMULATION_HZ;
use crate::server::{
    free_slot_spec, first_free_slot, handshake_decision, handshake_verdict_spec, request_precheck,
    request_precheck_spec, schedule_request,
};
use crate::tick::{saturating_add_u64, Tick};
use crate::SIMULATION_VERSION;
use vstd::prelude::*;

verus! {

/// One thing the host must send.
#[derive(Debug)]
pub enum ServerOutput {
    /// Send this message to the client whose message is being handled.
    ToSender(Message),
    /// Send this message to every connected client, the sender included.
    ToEveryConnected(Message),
    /// Send the sender the current world, as the simulation builds it (an
    /// `InitialWorldState` holding the commands scheduled from this tick on).
    InitialWorldToSender,
}

/// The server's record of one connection.
#[derive(Debug)]
pub struct ServerClient {
    /// The player slot the connection holds.
    pub slot: u32,
    /// Whether its hello was accepted.
    pub connected: bool,
    /// Whether its checksum reports are judged.
    pub checksum_enabled: bool,
    /// Whether it is to be dropped once its queued frames are sent.
    pub closing_after_flush: bool,
    /// Its canonical display name, once accepted.
    pub display_name: Option<String>,
}

/// What the host must do after one message from a client.
#[derive(Debug)]
pub struct MessageOutcome {
    /// What to send, in order.
    pub outputs: Vec<ServerOutput>,
    /// The canonical name of a client whose hello was just accepted: the
    /// host seats it in the match session at the current tick.
    pub joined: Option<String>,
    /// A command to add to the schedule.
    pub scheduled: Option<crate::command::AuthoritativeCommand>,
    /// The command is a reset: before adding it, the host clears the
    /// schedule, the broadcasts queued earlier in this round and what the
    /// simulation has pending.
    pub reset: bool,
    /// A checksum report to hand to the checksum ledger.
    pub checksum: Option<(Tick, Vec<u8>)>,
}

/// Both capabilities the server offers and requires.
pub open spec fn server_capabilities() -> Seq<Capability> {
    seq![Capability::StateChecksums, Capability::WorldSnapshots]
}

/// The hello an accepted client in `slot` receives at `tick`.
pub open spec fn server_hello_spec(slot: u32, tick: Tick, config: SimulationConfig) -> ServerHelloView {
    ServerHelloView {
        simulation_version: SIMULATION_VERSION,
        simulation_hz: SIMULATION_HZ,
        player_slot: slot,
        server_tick: tick,
        fleet_size: config@.0,
        world_radius_bits: config@.1,
        capabilities: server_capabilities(),
    }
}

/// Whether `o` sends the sender a message whose model is `m`.
pub open spec fn to_sender(o: ServerOutput, m: MessageView) -> bool {
    o matches ServerOutput::ToSender(x) && x@ == m
}

/// The rejection of a command request: the checks without geometry, then
/// the arena bound that the host has worked out.
pub open spec fn command_rejection_spec(
    slot: u32,
    request: CommandRequest,
    owners: Seq<Option<PlayerId>>,
    connected: Seq<PlayerId>,
    outside_arena: bool,
) -> Option<CommandRejectionReason> {
    match request_precheck_spec(slot, request, owners, connected) {
        Some(reason) => Some(reason),
        None => if request.command is SetDestination && outside_arena {
            Some(CommandRejectionReason::DestinationOutsideArena)
        } else {
            None
        },
    }
}

/// The command an accepted request from `slot` becomes at `tick`.
pub open spec fn scheduled_spec(slot: u32, request: CommandRequest, tick: Tick) -> AuthoritativeCommandView {
    AuthoritativeCommandView {
        execute_tick: if request.command is ResetSimulation {
            tick
        } else {
            Tick(saturating_add_u64(tick.0, 2))
        },
        player_slot: slot,
        sequence: request.sequence,
        command: request.command@,
    }
}

/// Whether an outcome asks for nothing at all.
pub open spec fn quiet(r: MessageOutcome) -> bool {
    &&& r.outputs@.len() == 0
    &&& r.joined is None
    &&& r.scheduled is None
    &&& !r.reset
    &&& r.checksum is None
}

/// A new connection takes the lowest free slot; when none is free it is
/// answered `ServerFull` and dropped.
pub fn new_connection(occupied: &Vec<u32>) -> (r: Result<ServerClient, Message>)
    ensures
        match free_slot_spec(occupied@) {
            Some(slot) => r matches Ok(c) && c.slot == slot && !c.connected && !c.checksum_enabled
                && !c.closing_after_flush && c.display_name is None,
            None => r matches Err(m) && m@ == MessageView::HandshakeRejected(
                HandshakeRejected { reason: HandshakeRejectionReason::ServerFull },
            ),
        },
{
    match first_free_slot(occupied) {
        Some(slot) => Ok(
            ServerClient {
                slot,
                connected: false,
                checksum_enabled: false,
                closing_after_flush: false,
                display_name: None,
            },
        ),
        None => Err(Message::HandshakeRejected(HandshakeRejected { reason: HandshakeRejectionReason::ServerFull })),
    }
}

fn empty_outcome() -> (r: MessageOutcome)
    ensures
        quiet(r),
{
    MessageOutcome { outputs: Vec::new(), joined: None, scheduled: None, reset: false, checksum: None }
}

fn one_output(o: ServerOutput) -> (r: Vec<ServerOutput>)
    ensures
        r@ == seq![o],
{
    let mut v: Vec<ServerOutput> = Vec::new();
    v.push(o);
    v
}

/// Handles one message from `client` while the simulation is at `tick`.
/// `cutover` records whether a reset was accepted earlier in this round;
/// `owners` and `connected` describe the world's fleets and players, and
/// `outside_arena` whether a requested destination lies outside the arena.
///
/// Before its hello is accepted a client may only send a hello: anything
/// else, or a hello that fails the handshake, is answered with the
/// rejection and the client is closed. An accepted hello is answered with
/// the server's hello and then the world. Afterwards a checksum report is
/// handed to the ledger, a command request is rejected to the sender alone
/// or scheduled and broadcast to every connected client, and, once a reset
/// was accepted in this round, further requests are ignored.
pub fn handle_client_message(
    client: &mut ServerClient,
    cutover: &mut bool,
    message: Message,
    tick: Tick,
    config: &SimulationConfig,
    owners: &[Option<PlayerId>],
    connected: &[PlayerId],
    outside_arena: bool,
) -> (r: MessageOutcome)
    ensures
        final(client).slot == old(client).slot,
        !old(client).connected ==> *final(cutover) == *old(cutover),
        !old(client).connected && !(message is ClientHello) ==> {
            &&& r.outputs@.len() == 1
            &&& to_sender(
                r.outputs@[0],
                MessageView::HandshakeRejected(
                    HandshakeRejected { reason: HandshakeRejectionReason::InvalidHandshake },
                ),
            )
            &&& r.joined is None && r.scheduled is None && !r.reset && r.checksum is None
            &&& final(client).closing_after_flush
            &&& !final(client).connected
        },
        !old(client).connected ==> (message matches Message::ClientHello(hello) ==> match handshake_verdict_spec(
            hello@,
        ) {
            Err(reason) => {
                &&& r.outputs@.len() == 1
                &&& to_sender(r.outputs@[0], MessageView::HandshakeRejected(HandshakeRejected { reason }))
                &&& r.joined is None && r.scheduled is None && !r.reset && r.checksum is None
                &&& final(client).closing_after_flush
                &&& !final(client).connected
            },
            Ok(name) => {
                &&& r.outputs@.len() == 2
                &&& to_sender(
                    r.outputs@[0],
                    MessageView::ServerHello(server_hello_spec(old(client).slot, tick, *config)),
                )
                &&& r.outputs@[1] is InitialWorldToSender
                &&& r.joined matches Some(j) && j@ == name
                &&& r.scheduled is None && !r.reset && r.checksum is None
                &&& final(client).connected
                &&& final(client).checksum_enabled
                &&& final(client).display_name matches Some(d) && d@ == name
                &&& final(client).closing_after_flush == old(client).closing_after_flush
            },
        }),
        old(client).connected ==> {
            &&& final(client).connected
            &&& final(client).checksum_enabled == old(client).checksum_enabled
            &&& final(client).closing_after_flush == old(client).closing_after_flush
            &&& final(client).display_name == old(client).display_name
        },
        old(client).connected ==> (message matches Message::StateChecksum(c) ==> {
            &&& r.outputs@.len() == 0 && r.joined is None && r.scheduled is None && !r.reset
            &&& *final(cutover) == *old(cutover)
            &&& if old(client).checksum_enabled {
                r.checksum matches Some((t, h)) && t == c.tick && h@ == c.hash@
            } else {
                r.checksum is None
            }
        }),
        old(client).connected ==> (message matches Message::CommandRequest(request) ==> if *old(cutover) {
            quiet(r) && *final(cutover)
        } else {
            match command_rejection_spec(old(client).slot, request, owners@, connected@, outside_arena) {
                Some(reason) => {
                    &&& r.outputs@.len() == 1
                    &&& to_sender(
                        r.outputs@[0],
                        MessageView::CommandRejected(CommandRejected { sequence: request.sequence, reason }),
                    )
                    &&& r.joined is None && r.scheduled is None && !r.reset && r.checksum is None
                    &&& !*final(cutover)
                },
                None => {
                    let cmd = scheduled_spec(old(client).slot, request, tick);
                    &&& r.outputs@.len() == 1
                    &&& r.outputs@[0] matches ServerOutput::ToEveryConnected(m)
                    &&& m@ == MessageView::AuthoritativeCommand(cmd)
                    &&& r.scheduled matches Some(s) && s@ == cmd
                    &&& r.reset == (request.command is ResetSimulation)
                    &&& *final(cutover) == (request.command is ResetSimulation)
                    &&& r.joined is None && r.checksum is None
                },
            }
        }),
        old(client).connected && !(message is StateChecksum) && !(message is CommandRequest) ==> quiet(r)
            && *final(cutover) == *old(cutover),
{
    if !client.connected {
        let hello = match message {
            Message::ClientHello(hello) => hello,
            _ => {
                client.closing_after_flush = true;
                let mut out = empty_outcome();
                out.outputs = one_output(
                    ServerOutput::ToSender(
                        Message::HandshakeRejected(
                            HandshakeRejected { reason: HandshakeRejectionReason::InvalidHandshake },
                        ),
                    ),
                );
                return out;
            },
        };
        match handshake_decision(&hello) {
            Err(reason) => {
                client.closing_after_flush = true;
                let mut out = empty_outcome();
                out.outputs = one_output(ServerOutput::ToSender(Message::HandshakeRejected(HandshakeRejected { reason })));
                out
            },
            Ok(name) => {
                let mut capabilities: Vec<Capability> = Vec::new();
                capabilities.push(Capability::StateChecksums);
                capabilities.push(Capability::WorldSnapshots);
                let server_hello = ServerHello {
                    simulation_version: SIMULATION_VERSION,
                    simulation_hz: SIMULATION_HZ,
                    player_slot: client.slot,
                    server_tick: tick,
                    fleet_size: config.fleet_size(),
                    world_radius_bits: config.world_radius_bits(),
                    capabilities,
                };
                proof {
                    assert(server_hello.capabilities@ =~= server_capabilities());
                }
                let mut outputs: Vec<ServerOutput> = Vec::new();
                outputs.push(ServerOutput::ToSender(Message::ServerHello(server_hello)));
                outputs.push(ServerOutput::InitialWorldToSender);
                let text = name.as_str().to_owned();
                client.display_name = Some(name.as_str().to_owned());
                client.checksum_enabled = true;
                client.connected = true;
                MessageOutcome { outputs, joined: Some(text), scheduled: None, reset: false, checksum: None }
            },
        }
    } else {
        match message {
            Message::StateChecksum(c) => {
                let mut out = empty_outcome();
                if client.checksum_enabled {
                    out.checksum = Some((c.tick, c.hash));
                }
                out
            },
            Message::CommandRequest(request) => {
                if *cutover {
                    return empty_outcome();
                }
                let precheck = request_precheck(client.slot, &request, owners, connected);
                let reason = match precheck {
                    Some(reason) => Some(reason),
                    None => match &request.command {
                        CommandData::SetDestination { .. } => if outside_arena {
                            Some(CommandRejectionReason::DestinationOutsideArena)
                        } else {
                            None
                        },
                        CommandData::ResetSimulation => None,
                    },
                };
                match reason {
                    Some(reason) => {
                        let mut out = empty_outcome();
                        out.outputs = one_output(
                            ServerOutput::ToSender(
                                Message::CommandRejected(CommandRejected { sequence: request.sequence, reason }),
                            ),
                        );
                        out
                    },
                    None => {
                        let command = schedule_request(client.slot, &request, tick);
                        let is_reset = request.command.is_reset();
                        if is_reset {
                            *cutover = true;
                        }
                        let broadcast = command.duplicate();
                        let mut out = empty_outcome();
                        out.outputs = one_output(ServerOutput::ToEveryConnected(Message::AuthoritativeCommand(broadcast)));
                        out.scheduled = Some(command);
                        out.reset = is_reset;
                        out
                    },
                }
            },
            _ => empty_outcome(),
        }
    }
}

} // verus!
