//! The authoritative server's decisions: slot assignment, the handshake
//! verdict, command scheduling, and the bookkeeping that compares clients'
//! state checksums with the server's own.

use crate::config::{config_error_message, new_spec, SimulationConfig, DEFAULT_FLEET_SIZE};
use crate::command::{AuthoritativeCommand, CommandData, CommandRejectionReason, CommandRequest};
use crate::handshake::{ClientHello, HandshakeRejectionReason};
use crate::identity::{display_name_result_matches, display_name_spec, DisplayName, DisplayNameError};
use crate::ids::{authoritative_verdict, validate_authoritative, PlayerId, MAX_PLAYERS};
use crate::objective::SIMULATION_HZ;
use crate::text::{hex_spec, hex_string, parse_u32, parse_u32_spec};
use crate::tick::Tick;
use crate::SIMULATION_VERSION;
use vstd::prelude::*;

verus! {

/// The delay between a command's arrival and the tick at which every peer
/// executes it.
pub fn command_input_delay() -> (t: Tick)
    ensures
        t == Tick(2),
{
    Tick(2)
}

/// The build's commit, or `"unknown"` where the build recorded none.
pub fn build_git_sha<'a>(value: Option<&'a str>) -> (r: &'a str)
    ensures
        value matches Some(v) ==> r@ == v@,
        value is None ==> r@ == "unknown"@,
{
    match value {
        Some(v) => v,
        None => "unknown",
    }
}

/// A state hash in lowercase hexadecimal.
pub fn hex_hash(hash: &[u8]) -> (r: String)
    ensures
        r@ == hex_spec(hash@),
{
    hex_string(hash)
}

/// Byte-wise equality of two byte strings.
pub fn bytes_equal(a: &[u8], b: &[u8]) -> (r: bool)
    ensures
        r == (a@ == b@),
{
    if a.len() != b.len() {
        return false;
    }
    let mut i: usize = 0;
    while i < a.len()
        invariant
            a@.len() == b@.len(),
            i <= a@.len(),
            forall|k: int| 0 <= k < i ==> a@[k] == b@[k],
        decreases a.len() - i,
    {
        if a[i] != b[i] {
            return false;
        }
        i = i + 1;
    }
    proof {
        assert(a@ =~= b@);
    }
    true
}

fn copy_bytes(bytes: &[u8]) -> (r: Vec<u8>)
    ensures
        r@ == bytes@,
{
    let mut out: Vec<u8> = Vec::new();
    let mut i: usize = 0;
    while i < bytes.len()
        invariant
            i <= bytes@.len(),
            out@ == bytes@.subrange(0, i as int),
        decreases bytes.len() - i,
    {
        out.push(bytes[i]);
        proof {
            assert(out@ =~= bytes@.subrange(0, i + 1));
        }
        i = i + 1;
    }
    proof {
        assert(bytes@.subrange(0, bytes@.len() as int) =~= bytes@);
    }
    out
}

/// A client whose state hash for `tick` differs from the server's.
#[derive(Debug, PartialEq, Eq)]
pub struct ChecksumDivergence {
    pub tick: Tick,
    pub server_hash: [u8; 32],
    pub client_hash: Vec<u8>,
}

/// The divergence between the server's hash and a client's, if they differ.
pub fn checksum_divergence(tick: Tick, server_hash: &[u8; 32], client_hash: &[u8]) -> (r: Option<
    ChecksumDivergence,
>)
    ensures
        server_hash@ == client_hash@ ==> r is None,
        server_hash@ != client_hash@ ==> (r matches Some(d) && d.tick == tick && d.server_hash
            == *server_hash && d.client_hash@ == client_hash@),
{
    if bytes_equal(server_hash.as_slice(), client_hash) {
        None
    } else {
        Some(ChecksumDivergence { tick, server_hash: *server_hash, client_hash: copy_bytes(client_hash) })
    }
}

/// What the server made of one checksum report.
#[derive(Debug, PartialEq, Eq)]
pub enum ChecksumResult {
    Match { tick: Tick },
    Divergence { tick: Tick, server_hash: [u8; 32], client_hash: Vec<u8> },
    Duplicate { tick: Tick },
    Late { tick: Tick },
    UnknownTick { tick: Tick },
    Malformed { tick: Tick, length: usize },
}

/// The lowest free player slot, if any, given the slots that clients hold.
pub open spec fn free_slot_spec(occupied: Seq<u32>) -> Option<u32> {
    if !occupied.contains(1) {
        Some(1)
    } else if !occupied.contains(2) {
        Some(2)
    } else {
        None
    }
}

fn holds(occupied: &Vec<u32>, slot: u32) -> (r: bool)
    ensures
        r == occupied@.contains(slot),
{
    let mut i: usize = 0;
    while i < occupied.len()
        invariant
            i <= occupied@.len(),
            forall|k: int| 0 <= k < i ==> occupied@[k] != slot,
        decreases occupied.len() - i,
    {
        if occupied[i] == slot {
            proof {
                assert(occupied@[i as int] == slot);
            }
            return true;
        }
        i = i + 1;
    }
    false
}

/// The slot a new connection takes: the lowest of `1..=MAX_PLAYERS` that no
/// client holds, or none when the server is full.
pub fn first_free_slot(occupied: &Vec<u32>) -> (r: Option<u32>)
    ensures
        r == free_slot_spec(occupied@),
        r matches Some(s) ==> 1 <= s <= MAX_PLAYERS && !occupied@.contains(s),
{
    if !holds(occupied, 1) {
        Some(1)
    } else if !holds(occupied, 2) {
        Some(2)
    } else {
        None
    }
}

/// The server's verdict on a client's hello: the version must match, both
/// required capabilities must be offered, and the display name must be valid.
pub open spec fn handshake_verdict_spec(hello: crate::handshake::ClientHelloView) -> Result<
    Seq<char>,
    HandshakeRejectionReason,
> {
    if hello.simulation_version != SIMULATION_VERSION {
        Err(HandshakeRejectionReason::IncompatibleVersion)
    } else if !hello.capabilities.contains(crate::handshake::Capability::StateChecksums)
        || !hello.capabilities.contains(crate::handshake::Capability::WorldSnapshots) {
        Err(HandshakeRejectionReason::MissingRequiredCapability)
    } else {
        match display_name_spec(hello.display_name) {
            Ok(name) => Ok(name),
            Err(_) => Err(HandshakeRejectionReason::InvalidHandshake),
        }
    }
}

/// Accepts a hello with the canonical display name, or names the rejection.
pub fn handshake_decision(hello: &ClientHello) -> (r: Result<DisplayName, HandshakeRejectionReason>)
    ensures
        match (r, handshake_verdict_spec(hello@)) {
            (Ok(name), Ok(expected)) => name@ == expected,
            (Err(reason), Err(expected)) => reason == expected,
            _ => false,
        },
{
    let display_name = hello.display_name();
    if hello.simulation_version != SIMULATION_VERSION {
        return Err(HandshakeRejectionReason::IncompatibleVersion);
    }
    if !hello.is_compatible() {
        return Err(HandshakeRejectionReason::MissingRequiredCapability);
    }
    match display_name {
        Ok(name) => Ok(name),
        Err(_) => Err(HandshakeRejectionReason::InvalidHandshake),
    }
}

/// Whether an `f32` bit pattern is finite: its exponent is not all ones.
pub open spec fn finite_f32_bits(bits: u32) -> bool {
    bits & 0x7f80_0000 != 0x7f80_0000
}

/// The checks of a command request that need no geometry: the slot's
/// authority over the command, then finite destination coordinates.
pub open spec fn request_precheck_spec(
    slot: u32,
    request: CommandRequest,
    owners: Seq<Option<PlayerId>>,
    connected: Seq<PlayerId>,
) -> Option<CommandRejectionReason> {
    let cmd = AuthoritativeCommand {
        execute_tick: Tick(0),
        player_slot: slot,
        sequence: request.sequence,
        command: request.command,
    };
    if authoritative_verdict(cmd, owners, connected) is Err {
        Some(CommandRejectionReason::UnauthorizedFleet)
    } else {
        match request.command {
            CommandData::SetDestination { destination, .. } => if !finite_f32_bits(destination[0])
                || !finite_f32_bits(destination[1]) {
                Some(CommandRejectionReason::NonFiniteDestination)
            } else {
                None
            },
            CommandData::ResetSimulation => None,
        }
    }
}

/// Rejects a request from `slot` that the player may not issue, or whose
/// destination is not finite; the arena bound is checked by the caller.
pub fn request_precheck(
    slot: u32,
    request: &CommandRequest,
    owners: &[Option<PlayerId>],
    connected: &[PlayerId],
) -> (r: Option<CommandRejectionReason>)
    ensures
        r == request_precheck_spec(slot, *request, owners@, connected@),
{
    let cmd = AuthoritativeCommand {
        execute_tick: Tick(0),
        player_slot: slot,
        sequence: request.sequence,
        command: request.command.duplicate(),
    };
    if validate_authoritative(&cmd, owners, connected).is_err() {
        return Some(CommandRejectionReason::UnauthorizedFleet);
    }
    match &request.command {
        CommandData::SetDestination { destination, .. } => {
            if destination[0] & 0x7f80_0000 == 0x7f80_0000 || destination[1] & 0x7f80_0000
                == 0x7f80_0000 {
                Some(CommandRejectionReason::NonFiniteDestination)
            } else {
                None
            }
        },
        CommandData::ResetSimulation => None,
    }
}

/// Schedules an accepted request from `slot` received at `receive_tick`: a
/// reset runs at once, every other command after the input delay.
pub fn schedule_request(slot: u32, request: &CommandRequest, receive_tick: Tick) -> (r:
    AuthoritativeCommand)
    ensures
        r.player_slot == slot,
        r.sequence == request.sequence,
        r.command@ == request.command@,
        request.command is ResetSimulation ==> r.execute_tick == receive_tick,
        !(request.command is ResetSimulation) ==> r.execute_tick == Tick(
            crate::tick::saturating_add_u64(receive_tick.0, 2),
        ),
{
    let execute_tick = match request.command {
        CommandData::ResetSimulation => receive_tick,
        _ => receive_tick.increment(command_input_delay()),
    };
    AuthoritativeCommand {
        execute_tick,
        player_slot: slot,
        sequence: request.sequence,
        command: request.command.duplicate(),
    }
}

/// The configuration that the server's fleet-size setting selects: the
/// default fleet when the setting is absent, else the fleet it spells, which
/// the configuration must accept.
pub fn fleet_config_from_setting(setting: Option<&str>) -> (r: Result<SimulationConfig, String>)
    ensures
        match setting {
            None => r == Ok::<SimulationConfig, String>(new_spec(DEFAULT_FLEET_SIZE)->Ok_0),
            Some(text) => match parse_u32_spec(text@) {
                None => r matches Err(m) && m@ == "SPACEGAME_FLEET_SIZE must be a positive integer"@,
                Some(fleet) => match new_spec(fleet) {
                    Ok(c) => r == Ok::<SimulationConfig, String>(c),
                    Err(e) => r matches Err(m) && m@ == config_error_message(e),
                },
            },
        },
{
    let fleet_size = match setting {
        Some(text) => match parse_u32(text) {
            Some(fleet) => fleet,
            None => {
                return Err("SPACEGAME_FLEET_SIZE must be a positive integer".to_owned());
            },
        },
        None => DEFAULT_FLEET_SIZE,
    };
    match SimulationConfig::new(fleet_size) {
        Ok(config) => Ok(config),
        Err(e) => Err(e.message().to_owned()),
    }
}

/// A hello is accepted only when it has the server's version and offers both
/// state checksums and world snapshots; a hello of the right version that
/// lacks either capability is refused as missing a required capability,
/// whatever its display name.
pub proof fn lemma_accepted_hello_offers_both_capabilities(hello: crate::handshake::ClientHelloView)
    ensures
        handshake_verdict_spec(hello) is Ok ==> {
            &&& hello.simulation_version == SIMULATION_VERSION
            &&& hello.capabilities.contains(crate::handshake::Capability::StateChecksums)
            &&& hello.capabilities.contains(crate::handshake::Capability::WorldSnapshots)
        },
        hello.simulation_version == SIMULATION_VERSION && (!hello.capabilities.contains(
            crate::handshake::Capability::StateChecksums,
        ) || !hello.capabilities.contains(crate::handshake::Capability::WorldSnapshots))
            ==> handshake_verdict_spec(hello) == Err::<Seq<char>, HandshakeRejectionReason>(
            HandshakeRejectionReason::MissingRequiredCapability,
        ),
        hello.simulation_version != SIMULATION_VERSION ==> handshake_verdict_spec(hello) == Err::<
            Seq<char>,
            HandshakeRejectionReason,
        >(HandshakeRejectionReason::IncompatibleVersion),
{
}

/// A destination request that passes the authority check is refused as
/// non-finite exactly when one of its coordinates is an infinity or a NaN
/// (its exponent bits all set), and accepted otherwise; the verdict does not
/// change when the two coordinates are swapped.
pub proof fn lemma_destination_precheck_is_symmetric_and_finite(
    slot: u32,
    sequence: u32,
    x: u32,
    y: u32,
    targets: Vec<u32>,
    owners: Seq<Option<PlayerId>>,
    connected: Seq<PlayerId>,
)
    ensures
        ({
            let request = CommandRequest {
                sequence,
                command: CommandData::SetDestination { destination: [x, y], target_unit_ids: targets },
            };
            let swapped = CommandRequest {
                sequence,
                command: CommandData::SetDestination { destination: [y, x], target_unit_ids: targets },
            };
            let cmd = AuthoritativeCommand {
                execute_tick: Tick(0),
                player_slot: slot,
                sequence,
                command: request.command,
            };
            &&& request_precheck_spec(slot, request, owners, connected) == request_precheck_spec(
                slot,
                swapped,
                owners,
                connected,
            )
            &&& authoritative_verdict(cmd, owners, connected) is Ok ==> (request_precheck_spec(
                slot,
                request,
                owners,
                connected,
            ) == if x & 0x7f80_0000 == 0x7f80_0000 || y & 0x7f80_0000 == 0x7f80_0000 {
                Some(CommandRejectionReason::NonFiniteDestination)
            } else {
                None::<CommandRejectionReason>
            })
            &&& authoritative_verdict(cmd, owners, connected) is Err ==> request_precheck_spec(
                slot,
                request,
                owners,
                connected,
            ) == Some(CommandRejectionReason::UnauthorizedFleet)
        }),
{
    broadcast use vstd::array::group_array_axioms;

    let a: [u32; 2] = [x, y];
    let b: [u32; 2] = [y, x];
    assert(a[0] == x && a[1] == y);
    assert(b[0] == y && b[1] == x);
}

} // verus!
