//! The simulation's configuration (fleet size and arena radius) and the
//! error and marker types that the simulation's interfaces share.

use crate::handshake::positive_finite_f32_bits;
use crate::ids::MAX_PLAYERS;
use vstd::prelude::*;

verus! {

pub const DEFAULT_FLEET_SIZE: u32 = 30;

/// The bit pattern of the default arena radius, 64.0 metres.
pub const DEFAULT_WORLD_RADIUS_BITS: u32 = 0x4280_0000;

#[derive(Clone, Copy, Debug, PartialEq, Eq, Structural)]
pub enum SimulationConfigError {
    ZeroFleetSize,
    FleetSizeTooLarge,
    InvalidWorldRadius,
    InvalidAvoidanceConfig,
    OpposingRadiusTooSmall,
}

/// The description of a configuration error.
pub open spec fn config_error_message(e: SimulationConfigError) -> Seq<char> {
    match e {
        SimulationConfigError::ZeroFleetSize => "fleet size must be greater than zero"@,
        SimulationConfigError::FleetSizeTooLarge => "fleet size is too large for the simulation"@,
        SimulationConfigError::InvalidWorldRadius => "world radius must be finite and greater than zero"@,
        SimulationConfigError::InvalidAvoidanceConfig => "avoidance configuration contains an invalid value"@,
        SimulationConfigError::OpposingRadiusTooSmall => "opposing comfort radius must not be smaller than friendly comfort radius"@,
    }
}

impl SimulationConfigError {
    /// The error's description.
    pub fn message(&self) -> (r: &'static str)
        ensures
            r@ == config_error_message(*self),
    {
        match self {
            SimulationConfigError::ZeroFleetSize => "fleet size must be greater than zero",
            SimulationConfigError::FleetSizeTooLarge => "fleet size is too large for the simulation",
            SimulationConfigError::InvalidWorldRadius => "world radius must be finite and greater than zero",
            SimulationConfigError::InvalidAvoidanceConfig => "avoidance configuration contains an invalid value",
            SimulationConfigError::OpposingRadiusTooSmall => "opposing comfort radius must not be smaller than friendly comfort radius",
        }
    }
}

/// Fleet size per player and the arena radius, held as its `f32` bit pattern.
#[derive(Clone, Copy, Debug, PartialEq, Eq, Structural)]
pub struct SimulationConfig {
    fleet_size: u32,
    world_radius_bits: u32,
}

/// The model of a [`SimulationConfig`]: `(fleet size, radius bits)`.
impl View for SimulationConfig {
    type V = (u32, u32);

    closed spec fn view(&self) -> (u32, u32) {
        (self.fleet_size, self.world_radius_bits)
    }
}

/// Whether a configuration is one that [`SimulationConfig::new`] and the
/// builders can produce: a positive fleet whose units all fit in a `u32`, and
/// a finite positive radius.
pub open spec fn config_wf(v: (u32, u32)) -> bool {
    &&& 0 < v.0
    &&& v.0 * MAX_PLAYERS <= u32::MAX
    &&& positive_finite_f32_bits(v.1)
}

/// What [`SimulationConfig::new`] returns for `fleet_size`.
pub closed spec fn new_spec(fleet_size: u32) -> Result<SimulationConfig, SimulationConfigError> {
    if fleet_size == 0 {
        Err(SimulationConfigError::ZeroFleetSize)
    } else if fleet_size * MAX_PLAYERS > u32::MAX {
        Err(SimulationConfigError::FleetSizeTooLarge)
    } else {
        Ok(SimulationConfig { fleet_size, world_radius_bits: DEFAULT_WORLD_RADIUS_BITS })
    }
}

impl SimulationConfig {
    /// A configuration with `fleet_size` units per player and the default radius.
    pub fn new(fleet_size: u32) -> (r: Result<SimulationConfig, SimulationConfigError>)
        ensures
            fleet_size == 0 ==> r == Err::<SimulationConfig, SimulationConfigError>(SimulationConfigError::ZeroFleetSize),
            fleet_size > 0 && fleet_size * MAX_PLAYERS > u32::MAX ==> r == Err::<SimulationConfig, SimulationConfigError>(
                SimulationConfigError::FleetSizeTooLarge,
            ),
            fleet_size > 0 && fleet_size * MAX_PLAYERS <= u32::MAX ==> (r matches Ok(c) && c@ == (
                fleet_size,
                DEFAULT_WORLD_RADIUS_BITS,
            ) && config_wf(c@)),
            r == new_spec(fleet_size),
    {
        if fleet_size == 0 {
            return Err(SimulationConfigError::ZeroFleetSize);
        }
        if fleet_size as u64 * 2 > u32::MAX as u64 {
            return Err(SimulationConfigError::FleetSizeTooLarge);
        }
        Ok(SimulationConfig { fleet_size, world_radius_bits: DEFAULT_WORLD_RADIUS_BITS })
    }

    pub fn fleet_size(&self) -> (r: u32)
        ensures
            r == self@.0,
    {
        self.fleet_size
    }

    /// The arena radius in metres, as the bits of an `f32`.
    pub fn world_radius_bits(&self) -> (r: u32)
        ensures
            r == self@.1,
    {
        self.world_radius_bits
    }

    /// The same configuration with another arena radius, which must be finite and positive.
    pub fn with_world_radius_bits(self, bits: u32) -> (r: Result<SimulationConfig, SimulationConfigError>)
        ensures
            positive_finite_f32_bits(bits) ==> (r matches Ok(c) && c@ == (self@.0, bits)),
            !positive_finite_f32_bits(bits) ==> r == Err::<SimulationConfig, SimulationConfigError>(
                SimulationConfigError::InvalidWorldRadius,
            ),
    {
        if bits == 0 || bits >= 0x7f80_0000 {
            return Err(SimulationConfigError::InvalidWorldRadius);
        }
        Ok(SimulationConfig { world_radius_bits: bits, ..self })
    }

    /// The number of units of both fleets together.
    pub fn total_units(&self) -> (r: usize)
        requires
            config_wf(self@),
        ensures
            r == self@.0 * MAX_PLAYERS,
    {
        self.fleet_size as usize * MAX_PLAYERS
    }
}

impl Default for SimulationConfig {
    fn default() -> (r: SimulationConfig)
        ensures
            r@ == (DEFAULT_FLEET_SIZE, DEFAULT_WORLD_RADIUS_BITS),
    {
        SimulationConfig { fleet_size: DEFAULT_FLEET_SIZE, world_radius_bits: DEFAULT_WORLD_RADIUS_BITS }
    }
}

impl TryFrom<u32> for SimulationConfig {
    type Error = SimulationConfigError;

    fn try_from(value: u32) -> (r: Result<SimulationConfig, SimulationConfigError>) {
        SimulationConfig::new(value)
    }
}

impl vstd::std_specs::convert::TryFromSpecImpl<u32> for SimulationConfig {
    open spec fn obeys_try_from_spec() -> bool {
        true
    }

    open spec fn try_from_spec(v: u32) -> Result<SimulationConfig, SimulationConfigError> {
        new_spec(v)
    }
}

/// Whether a hitbox's geometry was rejected.
#[derive(Clone, Copy, Debug, PartialEq, Eq, Structural)]
pub enum HitboxError {
    InvalidCircleRadius,
}

/// An accumulation group of the avoidance policy.
#[derive(Clone, Copy, Debug, PartialEq, Eq, Hash, PartialOrd, Ord, Structural)]
pub struct AvoidanceGroupId(pub u8);

#[derive(Clone, Copy, Debug, PartialEq, Eq, Structural)]
pub enum AvoidanceError {
    InvalidValue,
    EmptyRegistry,
    TooManyGroups,
    DuplicateGroup,
    UnknownGroup,
}

/// The command that resets the world to its deterministic demo state. Any
/// connected player may issue it; slot 0 never can.
#[derive(Clone, Copy, Debug, PartialEq, Eq, Structural)]
pub struct ResetSimulation;

/// Which authoritative commands a step applied.
#[derive(Clone, Copy, Debug, Default, PartialEq, Eq, Structural)]
pub struct AppliedAuthoritativeCommands {
    pub reset_applied: bool,
}

/// Why a simulation snapshot could not be restored.
#[derive(Clone, Copy, Debug, PartialEq, Eq, Structural)]
pub enum SnapshotRestoreError {
    FormatVersion,
    SimulationVersion,
    WorldRadius,
    HashLength,
    InvalidPlayer,
    InvalidTarget,
    InvalidCommand,
    HashMismatch,
}

} // verus!
