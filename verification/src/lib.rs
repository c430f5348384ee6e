//! Verified core of a two-player deterministic space simulation: the wire
//! protocol, canonical snapshots, objective rules, input handling and the
//! client/engine session state machines.

pub mod actuator;
pub mod canonical;
pub mod checksum;
pub mod client_control;
pub mod client_net;
pub mod combat;
pub mod command;
pub mod config;
pub mod error;
pub mod events;
pub mod framing;
pub mod hud;
pub mod handshake;
pub mod identity;
pub mod input;
pub mod ids;
pub mod match_presenter;
pub mod match_session;
pub mod message;
pub mod mirror;
pub mod objective;
pub mod presentation;
pub mod roster;
pub mod server;
pub mod server_step;
pub mod selection;
pub mod session;
pub mod session_lifecycle;
pub mod sim_snapshot;
pub mod structure;
pub mod text;
pub mod ui_bridge;
pub mod ui_protocol;
pub mod tick;
pub mod wire;
pub mod world_state;

use vstd::prelude::*;

verus! {

/// The version of the deterministic simulation rules; peers must agree on it.
pub const SIMULATION_VERSION: u32 = 19;

} // verus!
