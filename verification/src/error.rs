//! Errors that the wire protocol reports for malformed or inconsistent data.

use vstd::prelude::*;

verus! {

/// Why a frame, message or handshake was refused. Every variant is an
/// "invalid data" condition; [`ProtocolError::message`] gives its text.
#[derive(Clone, Copy, Debug, PartialEq, Eq, Structural)]
pub enum ProtocolError {
    InvalidFrameSize,
    MissingEnvelopePayload,
    MissingCommandPayload,
    MissingDestination,
    InvalidCommandRejectionReason,
    InvalidHandshakeRejectionReason,
    InvalidOpponentPresence,
    MissingMatchTiming,
    InvalidPlayerColor,
    SimulationVersionMismatch,
    SimulationFrequencyMismatch,
    InvalidPlayerSlot,
    InvalidFleetSize,
    InvalidWorldRadius,
    MissingStateChecksums,
    MissingWorldSnapshots,
    InvalidSessionRoster,
    InvalidSessionParticipantSlots,
    InvalidSessionDisplayName,
    NoncanonicalSessionDisplayName,
    InvalidSessionParticipantColor,
    SessionLocalPlayerMissing,
    InconsistentSessionState,
}

/// The human-readable description of an error.
pub open spec fn protocol_error_message(e: ProtocolError) -> Seq<char> {
    match e {
        ProtocolError::InvalidFrameSize => "invalid frame size"@,
        ProtocolError::MissingEnvelopePayload => "missing envelope payload"@,
        ProtocolError::MissingCommandPayload => "missing command payload"@,
        ProtocolError::MissingDestination => "missing destination"@,
        ProtocolError::InvalidCommandRejectionReason => "invalid command rejection reason"@,
        ProtocolError::InvalidHandshakeRejectionReason => "invalid handshake rejection reason"@,
        ProtocolError::InvalidOpponentPresence => "invalid opponent presence"@,
        ProtocolError::MissingMatchTiming => "missing match timing"@,
        ProtocolError::InvalidPlayerColor => "invalid player color"@,
        ProtocolError::SimulationVersionMismatch => "simulation version mismatch"@,
        ProtocolError::SimulationFrequencyMismatch => "simulation frequency mismatch"@,
        ProtocolError::InvalidPlayerSlot => "server assigned invalid player slot"@,
        ProtocolError::InvalidFleetSize => "server assigned invalid fleet size"@,
        ProtocolError::InvalidWorldRadius => "server assigned invalid world radius"@,
        ProtocolError::MissingStateChecksums => "server does not support state checksums"@,
        ProtocolError::MissingWorldSnapshots => "server does not support world snapshots"@,
        ProtocolError::InvalidSessionRoster => "invalid session roster"@,
        ProtocolError::InvalidSessionParticipantSlots => "invalid session participant slots"@,
        ProtocolError::InvalidSessionDisplayName => "invalid session display name"@,
        ProtocolError::NoncanonicalSessionDisplayName => "noncanonical session display name"@,
        ProtocolError::InvalidSessionParticipantColor => "invalid session participant color"@,
        ProtocolError::SessionLocalPlayerMissing => "session local player missing"@,
        ProtocolError::InconsistentSessionState => "inconsistent session state"@,
    }
}

impl ProtocolError {
    /// The human-readable description of the error.
    pub fn message(&self) -> (r: &'static str)
        ensures
            r@ == protocol_error_message(*self),
    {
        match self {
            ProtocolError::InvalidFrameSize => "invalid frame size",
            ProtocolError::MissingEnvelopePayload => "missing envelope payload",
            ProtocolError::MissingCommandPayload => "missing command payload",
            ProtocolError::MissingDestination => "missing destination",
            ProtocolError::InvalidCommandRejectionReason => "invalid command rejection reason",
            ProtocolError::InvalidHandshakeRejectionReason => "invalid handshake rejection reason",
            ProtocolError::InvalidOpponentPresence => "invalid opponent presence",
            ProtocolError::MissingMatchTiming => "missing match timing",
            ProtocolError::InvalidPlayerColor => "invalid player color",
            ProtocolError::SimulationVersionMismatch => "simulation version mismatch",
            ProtocolError::SimulationFrequencyMismatch => "simulation frequency mismatch",
            ProtocolError::InvalidPlayerSlot => "server assigned invalid player slot",
            ProtocolError::InvalidFleetSize => "server assigned invalid fleet size",
            ProtocolError::InvalidWorldRadius => "server assigned invalid world radius",
            ProtocolError::MissingStateChecksums => "server does not support state checksums",
            ProtocolError::MissingWorldSnapshots => "server does not support world snapshots",
            ProtocolError::InvalidSessionRoster => "invalid session roster",
            ProtocolError::InvalidSessionParticipantSlots => "invalid session participant slots",
            ProtocolError::InvalidSessionDisplayName => "invalid session display name",
            ProtocolError::NoncanonicalSessionDisplayName => "noncanonical session display name",
            ProtocolError::InvalidSessionParticipantColor => "invalid session participant color",
            ProtocolError::SessionLocalPlayerMissing => "session local player missing",
            ProtocolError::InconsistentSessionState => "inconsistent session state",
        }
    }
}

} // verus!
