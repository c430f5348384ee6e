//! The connection handshake.

use crate::error::ProtocolError;
use crate::identity::{display_name_result_matches, display_name_spec, DisplayName, DisplayNameError};
use crate::tick::Tick;
use crate::SIMULATION_VERSION;
use vstd::prelude::*;

verus! {

#[derive(Clone, Copy, Debug, PartialEq, Eq, Structural)]
pub enum Capability {
    StateChecksums,
    WorldSnapshots,
}

/// The client's opening message.
#[derive(Clone, Debug, PartialEq, Eq)]
pub struct ClientHello {
    pub simulation_version: u32,
    pub capabilities: Vec<Capability>,
    pub display_name: String,
}

/// The mathematical model of a [`ClientHello`].
pub struct ClientHelloView {
    pub simulation_version: u32,
    pub capabilities: Seq<Capability>,
    pub display_name: Seq<char>,
}

impl View for ClientHello {
    type V = ClientHelloView;

    open spec fn view(&self) -> ClientHelloView {
        ClientHelloView {
            simulation_version: self.simulation_version,
            capabilities: self.capabilities@,
            display_name: self.display_name@,
        }
    }
}

/// The server's answer to an accepted [`ClientHello`].
#[derive(Clone, Debug, PartialEq, Eq)]
pub struct ServerHello {
    pub simulation_version: u32,
    pub simulation_hz: u32,
    pub player_slot: u32,
    pub server_tick: Tick,
    pub fleet_size: u32,
    pub world_radius_bits: u32,
    pub capabilities: Vec<Capability>,
}

/// The mathematical model of a [`ServerHello`].
pub struct ServerHelloView {
    pub simulation_version: u32,
    pub simulation_hz: u32,
    pub player_slot: u32,
    pub server_tick: Tick,
    pub fleet_size: u32,
    pub world_radius_bits: u32,
    pub capabilities: Seq<Capability>,
}

impl View for ServerHello {
    type V = ServerHelloView;

    open spec fn view(&self) -> ServerHelloView {
        ServerHelloView {
            simulation_version: self.simulation_version,
            simulation_hz: self.simulation_hz,
            player_slot: self.player_slot,
            server_tick: self.server_tick,
            fleet_size: self.fleet_size,
            world_radius_bits: self.world_radius_bits,
            capabilities: self.capabilities@,
        }
    }
}

#[derive(Clone, Copy, Debug, PartialEq, Eq, Structural)]
pub enum HandshakeRejectionReason {
    ServerFull,
    IncompatibleVersion,
    MissingRequiredCapability,
    InvalidHandshake,
}

#[derive(Clone, Copy, Debug, PartialEq, Eq, Structural)]
pub struct HandshakeRejected {
    pub reason: HandshakeRejectionReason,
}

/// Whether an IEEE-754 single-precision bit pattern denotes a finite value
/// greater than zero: the sign bit is clear, the pattern is not +0.0, and
/// the exponent is not all ones (which would be an infinity or a NaN).
pub open spec fn positive_finite_f32_bits(bits: u32) -> bool {
    0 < bits && bits < 0x7f80_0000
}

/// Whether `caps` lists `c`.
pub fn has_capability(caps: &Vec<Capability>, c: Capability) -> (r: bool)
    ensures
        r == caps@.contains(c),
{
    let mut i: usize = 0;
    while i < caps.len()
        invariant
            i <= caps.len(),
            forall|k: int| 0 <= k < i ==> caps@[k] != c,
        decreases caps.len() - i,
    {
        if caps[i] == c {
            proof {
                assert(caps@[i as int] == c);
            }
            return true;
        }
        i = i + 1;
    }
    false
}

impl ClientHello {
    /// The canonical form of the requested display name.
    pub fn display_name(&self) -> (r: Result<DisplayName, DisplayNameError>)
        ensures
            display_name_result_matches(r, display_name_spec(self.display_name@)),
    {
        DisplayName::parse(self.display_name.as_str())
    }

    /// The client runs this simulation version and supports both required capabilities.
    pub fn is_compatible(&self) -> (r: bool)
        ensures
            r == (self.simulation_version == SIMULATION_VERSION && self.capabilities@.contains(
                Capability::StateChecksums,
            ) && self.capabilities@.contains(Capability::WorldSnapshots)),
    {
        self.simulation_version == SIMULATION_VERSION && has_capability(
            &self.capabilities,
            Capability::StateChecksums,
        ) && has_capability(&self.capabilities, Capability::WorldSnapshots)
    }
}

/// The verdict of [`ServerHello::validate`] on a hello and the client's own frequency.
pub open spec fn server_hello_verdict(h: ServerHelloView, simulation_hz: u32) -> Result<
    (),
    ProtocolError,
> {
    if h.simulation_version != SIMULATION_VERSION {
        Err(ProtocolError::SimulationVersionMismatch)
    } else if h.simulation_hz != simulation_hz {
        Err(ProtocolError::SimulationFrequencyMismatch)
    } else if h.player_slot == 0 || h.player_slot > u8::MAX {
        Err(ProtocolError::InvalidPlayerSlot)
    } else if h.fleet_size == 0 {
        Err(ProtocolError::InvalidFleetSize)
    } else if !positive_finite_f32_bits(h.world_radius_bits) {
        Err(ProtocolError::InvalidWorldRadius)
    } else if !h.capabilities.contains(Capability::StateChecksums) {
        Err(ProtocolError::MissingStateChecksums)
    } else if !h.capabilities.contains(Capability::WorldSnapshots) {
        Err(ProtocolError::MissingWorldSnapshots)
    } else {
        Ok(())
    }
}

impl ServerHello {
    /// Checks that the server runs this simulation at `simulation_hz`, that
    /// the slot, fleet size and world radius it assigned are usable, and that
    /// it enabled both required capabilities.
    pub fn validate(&self, simulation_hz: u32) -> (r: Result<(), ProtocolError>)
        ensures
            r == server_hello_verdict(self@, simulation_hz),
    {
        if self.simulation_version != SIMULATION_VERSION {
            return Err(ProtocolError::SimulationVersionMismatch);
        }
        if self.simulation_hz != simulation_hz {
            return Err(ProtocolError::SimulationFrequencyMismatch);
        }
        if self.player_slot == 0 || self.player_slot > 255 {
            return Err(ProtocolError::InvalidPlayerSlot);
        }
        if self.fleet_size == 0 {
            return Err(ProtocolError::InvalidFleetSize);
        }
        if !(0 < self.world_radius_bits && self.world_radius_bits < 0x7f80_0000) {
            return Err(ProtocolError::InvalidWorldRadius);
        }
        if !has_capability(&self.capabilities, Capability::StateChecksums) {
            return Err(ProtocolError::MissingStateChecksums);
        }
        if !has_capability(&self.capabilities, Capability::WorldSnapshots) {
            return Err(ProtocolError::MissingWorldSnapshots);
        }
        Ok(())
    }
}

} // verus!
