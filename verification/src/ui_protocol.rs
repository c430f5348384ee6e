//! The versioned, directional message contract between the embedded UI and
//! the native engine. Turning these values into JSON and back is the
//! business of the host; this module states what a valid message is.

use crate::text::{contains_seq, is_blank, str_contains, trim};
use vstd::prelude::*;
use vstd::string::StrSliceExecFns;

verus! {

pub const UI_ENGINE_PROTOCOL_VERSION: u16 = 3;

/// The longest identifier, in bytes.
pub const MAX_ID_BYTES: usize = 128;

/// Whether `c` may appear in an identifier: an ASCII letter or digit, `-`, `_` or `:`.
pub open spec fn id_char(c: char) -> bool {
    ('a' <= c && c <= 'z') || ('A' <= c && c <= 'Z') || ('0' <= c && c <= '9') || c == '-' || c
        == '_' || c == ':'
}

/// Whether an identifier is valid: nonempty, at most [`MAX_ID_BYTES`]
/// bytes, and made of ASCII identifier characters only. As every valid
/// character takes one byte, the byte limit is a limit on characters.
pub open spec fn valid_id_view(v: Seq<char>) -> bool {
    v.len() > 0 && v.len() <= MAX_ID_BYTES && forall|i: int|
        0 <= i < v.len() ==> id_char(#[trigger] v[i])
}

#[derive(Clone, Copy, Debug, PartialEq, Eq)]
pub enum ProtocolValidationError {
    InvalidId(&'static str),
    UnsupportedVersion(u16),
}

/// Checks `value` as the identifier called `name`.
pub fn validate_id(name: &'static str, value: &str) -> (r: Result<(), ProtocolValidationError>)
    ensures
        valid_id_view(value@) ==> r is Ok,
        !valid_id_view(value@) ==> r == Err::<(), _>(ProtocolValidationError::InvalidId(name)),
{
    let n = value.unicode_len();
    if n == 0 || n > MAX_ID_BYTES {
        return Err(ProtocolValidationError::InvalidId(name));
    }
    let mut i: usize = 0;
    while i < n
        invariant
            n == value@.len(),
            n > 0,
            n <= MAX_ID_BYTES,
            i <= n,
            forall|k: int| 0 <= k < i ==> id_char(#[trigger] value@[k]),
        decreases n - i,
    {
        let c = value.get_char(i);
        let ok = ('a' <= c && c <= 'z') || ('A' <= c && c <= 'Z') || ('0' <= c && c <= '9') || c
            == '-' || c == '_' || c == ':';
        if !ok {
            return Err(ProtocolValidationError::InvalidId(name));
        }
        i = i + 1;
    }
    Ok(())
}

/// Identifies one UI bridge instance.
#[derive(Clone, Debug, PartialEq, Eq)]
pub struct BridgeId(String);

impl View for BridgeId {
    type V = Seq<char>;

    closed spec fn view(&self) -> Seq<char> {
        self.0@
    }
}

impl BridgeId {
    pub fn new(value: String) -> (r: Result<BridgeId, ProtocolValidationError>)
        ensures
            valid_id_view(value@) ==> (r matches Ok(id) && id@ == value@),
            !valid_id_view(value@) ==> r == Err::<BridgeId, _>(
                ProtocolValidationError::InvalidId("bridgeId"),
            ),
    {
        validate_id("bridgeId", value.as_str())?;
        Ok(BridgeId(value))
    }

    pub fn as_str(&self) -> (s: &str)
        ensures
            s@ == self@,
    {
        self.0.as_str()
    }
}

/// Identifies one connection request of the UI.
#[derive(Clone, Debug, PartialEq, Eq)]
pub struct RequestId(String);

impl View for RequestId {
    type V = Seq<char>;

    closed spec fn view(&self) -> Seq<char> {
        self.0@
    }
}

impl RequestId {
    pub fn new(value: String) -> (r: Result<RequestId, ProtocolValidationError>)
        ensures
            valid_id_view(value@) ==> (r matches Ok(id) && id@ == value@),
            !valid_id_view(value@) ==> r == Err::<RequestId, _>(
                ProtocolValidationError::InvalidId("requestId"),
            ),
    {
        validate_id("requestId", value.as_str())?;
        Ok(RequestId(value))
    }

    pub fn as_str(&self) -> (s: &str)
        ensures
            s@ == self@,
    {
        self.0.as_str()
    }

    /// A copy of this id.
    pub fn duplicate(&self) -> (r: RequestId)
        ensures
            r@ == self@,
    {
        RequestId(self.0.clone())
    }

    /// Character-wise equality of two request ids.
    pub fn same_as(&self, other: &RequestId) -> (r: bool)
        ensures
            r == (self@ == other@),
    {
        self.0 == other.0
    }
}

#[derive(Clone, Copy, Debug, PartialEq, Eq, Structural)]
pub enum ProtocolErrorCode {
    MalformedJson,
    UnsupportedVersion,
    WrongDirection,
    UnknownMessageType,
    MissingRequiredField,
    UnknownField,
    InvalidFieldValue,
}

#[derive(Clone, Copy, Debug, PartialEq, Eq, Structural)]
pub enum DisconnectedReason {
    Startup,
    Cancelled,
    UserDisconnected,
    SessionLost,
}

#[derive(Clone, Copy, Debug, PartialEq, Eq, Structural)]
pub enum ConnectionFailureReason {
    Timeout,
    Network,
    Rejected,
    ServerFull,
    VersionMismatch,
}

#[derive(Clone, Copy, Debug, PartialEq, Eq, Structural)]
pub enum PlayerColor {
    Cyan,
    Coral,
}

#[derive(Clone, Copy, Debug, PartialEq, Eq, Structural)]
pub enum OpponentPresence {
    Waiting,
    Present,
    Disconnected,
}

#[derive(Clone, Debug, PartialEq, Eq)]
pub struct LocalPlayerHudModel {
    pub schema_version: u8,
    pub player_slot: u32,
    pub color: PlayerColor,
    pub color_hex: String,
}

#[derive(Clone, Debug, PartialEq, Eq)]
pub struct MatchParticipantHudModel {
    pub player_slot: u32,
    pub display_name: String,
    pub color: PlayerColor,
    pub color_hex: String,
}

#[derive(Clone, Copy, Debug, PartialEq, Eq, Structural)]
pub struct MatchClockHudModel {
    pub started_at_tick: u64,
    pub current_tick: u64,
    pub ticks_per_second: u32,
    pub elapsed_whole_seconds: u64,
}

#[derive(Clone, Copy, Debug, PartialEq, Eq, Structural)]
pub enum MatchSessionResetReason {
    Startup,
    NewConnectionAttempt,
    UserDisconnected,
    SessionLost,
}

#[derive(Clone, Debug, PartialEq, Eq)]
pub enum MatchSessionState {
    Reset { sequence: u64, reason: MatchSessionResetReason },
    Waiting {
        sequence: u64,
        local_player: MatchParticipantHudModel,
        opponent_presence: OpponentPresence,
        presence_revision: u64,
    },
    Active {
        sequence: u64,
        local_player: MatchParticipantHudModel,
        opponent_player: MatchParticipantHudModel,
        opponent_presence: OpponentPresence,
        presence_revision: u64,
        clock: MatchClockHudModel,
    },
}

#[derive(Clone, Debug, PartialEq, Eq)]
pub enum ConnectionStateSnapshot {
    Idle { address: String, reason: DisconnectedReason },
    ResolvingHost { request_id: RequestId, address: String, display_name: String },
    OpeningSocket { request_id: RequestId, address: String, display_name: String },
    Handshaking { request_id: RequestId, address: String, display_name: String },
    Connected {
        request_id: RequestId,
        address: String,
        display_name: String,
        local_player: LocalPlayerHudModel,
    },
    Failed {
        request_id: RequestId,
        address: String,
        display_name: String,
        reason: ConnectionFailureReason,
    },
}

/// The request that a connection state belongs to; an idle state has none.
pub open spec fn state_request_id(s: ConnectionStateSnapshot) -> Option<RequestId> {
    match s {
        ConnectionStateSnapshot::Idle { .. } => None,
        ConnectionStateSnapshot::ResolvingHost { request_id, .. } => Some(request_id),
        ConnectionStateSnapshot::OpeningSocket { request_id, .. } => Some(request_id),
        ConnectionStateSnapshot::Handshaking { request_id, .. } => Some(request_id),
        ConnectionStateSnapshot::Connected { request_id, .. } => Some(request_id),
        ConnectionStateSnapshot::Failed { request_id, .. } => Some(request_id),
    }
}

impl ConnectionStateSnapshot {
    pub fn is_connected(&self) -> (r: bool)
        ensures
            r == (self is Connected),
    {
        match self {
            ConnectionStateSnapshot::Connected { .. } => true,
            _ => false,
        }
    }

    /// The request that the state belongs to; an idle state has none.
    pub fn request_id(&self) -> (r: Option<&RequestId>)
        ensures
            match r {
                Some(id) => state_request_id(*self) == Some(*id),
                None => state_request_id(*self) is None,
            },
    {
        match self {
            ConnectionStateSnapshot::Idle { .. } => None,
            ConnectionStateSnapshot::ResolvingHost { request_id, .. } => Some(request_id),
            ConnectionStateSnapshot::OpeningSocket { request_id, .. } => Some(request_id),
            ConnectionStateSnapshot::Handshaking { request_id, .. } => Some(request_id),
            ConnectionStateSnapshot::Connected { request_id, .. } => Some(request_id),
            ConnectionStateSnapshot::Failed { request_id, .. } => Some(request_id),
        }
    }
}

#[derive(Clone, Debug, PartialEq, Eq)]
pub enum UiToEngineMessage {
    UiReady { protocol_version: u16, bridge_id: BridgeId },
    ConnectRequested {
        protocol_version: u16,
        bridge_id: BridgeId,
        request_id: RequestId,
        address: String,
        display_name: String,
    },
    ConnectionCancelled { protocol_version: u16, bridge_id: BridgeId, request_id: RequestId },
    DisconnectRequested { protocol_version: u16, bridge_id: BridgeId, request_id: RequestId },
    HeartbeatAcknowledged { protocol_version: u16, bridge_id: BridgeId, sequence: u64 },
    BridgeFaultReported { protocol_version: u16, bridge_id: BridgeId, code: ProtocolErrorCode },
}

#[derive(Clone, Debug, PartialEq, Eq)]
pub enum EngineToUiMessage {
    ConnectionStateChanged { protocol_version: u16, bridge_id: BridgeId, state: ConnectionStateSnapshot },
    MatchSessionStateChanged { protocol_version: u16, bridge_id: BridgeId, state: MatchSessionState },
    ProtocolError { protocol_version: u16, bridge_id: BridgeId, code: ProtocolErrorCode },
    Heartbeat { protocol_version: u16, bridge_id: BridgeId, sequence: u64 },
}

/// Messages that carry the protocol version they were written against.
pub trait VersionedMessage {
    fn protocol_version(&self) -> u16;
}

pub open spec fn ui_message_version(m: UiToEngineMessage) -> u16 {
    match m {
        UiToEngineMessage::UiReady { protocol_version, .. } => protocol_version,
        UiToEngineMessage::ConnectRequested { protocol_version, .. } => protocol_version,
        UiToEngineMessage::ConnectionCancelled { protocol_version, .. } => protocol_version,
        UiToEngineMessage::DisconnectRequested { protocol_version, .. } => protocol_version,
        UiToEngineMessage::HeartbeatAcknowledged { protocol_version, .. } => protocol_version,
        UiToEngineMessage::BridgeFaultReported { protocol_version, .. } => protocol_version,
    }
}

pub open spec fn ui_message_bridge(m: UiToEngineMessage) -> BridgeId {
    match m {
        UiToEngineMessage::UiReady { bridge_id, .. } => bridge_id,
        UiToEngineMessage::ConnectRequested { bridge_id, .. } => bridge_id,
        UiToEngineMessage::ConnectionCancelled { bridge_id, .. } => bridge_id,
        UiToEngineMessage::DisconnectRequested { bridge_id, .. } => bridge_id,
        UiToEngineMessage::HeartbeatAcknowledged { bridge_id, .. } => bridge_id,
        UiToEngineMessage::BridgeFaultReported { bridge_id, .. } => bridge_id,
    }
}

impl VersionedMessage for UiToEngineMessage {
    fn protocol_version(&self) -> (v: u16)
        ensures
            v == ui_message_version(*self),
    {
        match self {
            UiToEngineMessage::UiReady { protocol_version, .. } => *protocol_version,
            UiToEngineMessage::ConnectRequested { protocol_version, .. } => *protocol_version,
            UiToEngineMessage::ConnectionCancelled { protocol_version, .. } => *protocol_version,
            UiToEngineMessage::DisconnectRequested { protocol_version, .. } => *protocol_version,
            UiToEngineMessage::HeartbeatAcknowledged { protocol_version, .. } => *protocol_version,
            UiToEngineMessage::BridgeFaultReported { protocol_version, .. } => *protocol_version,
        }
    }
}

impl VersionedMessage for EngineToUiMessage {
    fn protocol_version(&self) -> (v: u16)
        ensures
            v == match *self {
                EngineToUiMessage::ConnectionStateChanged { protocol_version, .. } => protocol_version,
                EngineToUiMessage::MatchSessionStateChanged { protocol_version, .. } => protocol_version,
                EngineToUiMessage::ProtocolError { protocol_version, .. } => protocol_version,
                EngineToUiMessage::Heartbeat { protocol_version, .. } => protocol_version,
            },
    {
        match self {
            EngineToUiMessage::ConnectionStateChanged { protocol_version, .. } => *protocol_version,
            EngineToUiMessage::MatchSessionStateChanged { protocol_version, .. } => *protocol_version,
            EngineToUiMessage::ProtocolError { protocol_version, .. } => *protocol_version,
            EngineToUiMessage::Heartbeat { protocol_version, .. } => *protocol_version,
        }
    }
}

/// The verdict of [`UiToEngineMessage::validate`]: the version must match,
/// the bridge id must be valid, and a connection request needs a valid
/// request id and a nonblank address and display name.
pub open spec fn ui_message_verdict(m: UiToEngineMessage) -> Result<(), ProtocolValidationError> {
    if ui_message_version(m) != UI_ENGINE_PROTOCOL_VERSION {
        Err(ProtocolValidationError::UnsupportedVersion(ui_message_version(m)))
    } else if !valid_id_view(ui_message_bridge(m)@) {
        Err(ProtocolValidationError::InvalidId("bridgeId"))
    } else {
        match m {
            UiToEngineMessage::ConnectRequested { request_id, address, display_name, .. } => {
                if !valid_id_view(request_id@) {
                    Err(ProtocolValidationError::InvalidId("requestId"))
                } else if is_blank(address@) {
                    Err(ProtocolValidationError::InvalidId("address"))
                } else if is_blank(display_name@) {
                    Err(ProtocolValidationError::InvalidId("displayName"))
                } else {
                    Ok(())
                }
            },
            UiToEngineMessage::ConnectionCancelled { request_id, .. } => if !valid_id_view(
                request_id@,
            ) {
                Err(ProtocolValidationError::InvalidId("requestId"))
            } else {
                Ok(())
            },
            UiToEngineMessage::DisconnectRequested { request_id, .. } => if !valid_id_view(
                request_id@,
            ) {
                Err(ProtocolValidationError::InvalidId("requestId"))
            } else {
                Ok(())
            },
            _ => Ok(()),
        }
    }
}

impl UiToEngineMessage {
    pub fn validate(&self) -> (r: Result<(), ProtocolValidationError>)
        ensures
            r == ui_message_verdict(*self),
    {
        let version = self.protocol_version();
        if version != UI_ENGINE_PROTOCOL_VERSION {
            return Err(ProtocolValidationError::UnsupportedVersion(version));
        }
        let bridge = match self {
            UiToEngineMessage::UiReady { bridge_id, .. } => bridge_id,
            UiToEngineMessage::ConnectRequested { bridge_id, .. } => bridge_id,
            UiToEngineMessage::ConnectionCancelled { bridge_id, .. } => bridge_id,
            UiToEngineMessage::DisconnectRequested { bridge_id, .. } => bridge_id,
            UiToEngineMessage::HeartbeatAcknowledged { bridge_id, .. } => bridge_id,
            UiToEngineMessage::BridgeFaultReported { bridge_id, .. } => bridge_id,
        };
        validate_id("bridgeId", bridge.as_str())?;
        match self {
            UiToEngineMessage::ConnectRequested { request_id, address, display_name, .. } => {
                validate_id("requestId", request_id.as_str())?;
                if trim(address.as_str()).unicode_len() == 0 {
                    return Err(ProtocolValidationError::InvalidId("address"));
                }
                if trim(display_name.as_str()).unicode_len() == 0 {
                    return Err(ProtocolValidationError::InvalidId("displayName"));
                }
            },
            UiToEngineMessage::ConnectionCancelled { request_id, .. } => {
                validate_id("requestId", request_id.as_str())?;
            },
            UiToEngineMessage::DisconnectRequested { request_id, .. } => {
                validate_id("requestId", request_id.as_str())?;
            },
            _ => {},
        }
        Ok(())
    }
}

/// Whether `raw` is a well-formed JSON document, as `serde_json` parses one.
pub uninterp spec fn is_json_document(raw: Seq<char>) -> bool;

/// `serde_json::from_str::<serde_json::Value>` from `serde_json`. Trusted:
/// it succeeds exactly when `raw` is a JSON document (the named property);
/// the JSON grammar is not stated.
#[verifier::external_body]
fn parses_as_json(raw: &str) -> (r: bool)
    ensures
        r == is_json_document(raw@),
{
    serde_json::from_str::<serde_json::Value>(raw).is_ok()
}

/// Whether `raw` names a message kind of the engine-to-UI direction.
pub open spec fn names_engine_kind(raw: Seq<char>) -> bool {
    contains_seq(raw, "\"kind\":\"connectionStateChanged\""@)
        || contains_seq(raw, "\"kind\":\"matchSessionStateChanged\""@)
        || contains_seq(raw, "\"kind\":\"protocolError\""@)
        || contains_seq(raw, "\"kind\":\"heartbeat\""@)
}

/// The error code for a message that failed to decode, given whether it is
/// JSON at all, its raw text and the decoder's description of the failure.
pub open spec fn classify_spec(json: bool, raw: Seq<char>, detail: Seq<char>) -> ProtocolErrorCode {
    if !json {
        ProtocolErrorCode::MalformedJson
    } else if names_engine_kind(raw) {
        ProtocolErrorCode::WrongDirection
    } else if contains_seq(detail, "unknown field"@) {
        ProtocolErrorCode::UnknownField
    } else if contains_seq(detail, "missing field"@) {
        ProtocolErrorCode::MissingRequiredField
    } else if contains_seq(detail, "unknown variant"@) {
        ProtocolErrorCode::UnknownMessageType
    } else {
        ProtocolErrorCode::InvalidFieldValue
    }
}

/// Classifies a decoding failure of `raw`, whose decoder reported `detail`.
pub fn classify_decode_error(raw: &str, detail: &str) -> (r: ProtocolErrorCode)
    ensures
        r == classify_spec(is_json_document(raw@), raw@, detail@),
{
    let json = parses_as_json(raw);
    classify_with(json, raw, detail)
}

/// Classifies a decoding failure, given whether `raw` parsed as JSON.
pub fn classify_with(json: bool, raw: &str, detail: &str) -> (r: ProtocolErrorCode)
    ensures
        r == classify_spec(json, raw@, detail@),
{
    if !json {
        return ProtocolErrorCode::MalformedJson;
    }
    if str_contains(raw, "\"kind\":\"connectionStateChanged\"") || str_contains(
        raw,
        "\"kind\":\"matchSessionStateChanged\"",
    ) || str_contains(raw, "\"kind\":\"protocolError\"") || str_contains(
        raw,
        "\"kind\":\"heartbeat\"",
    ) {
        return ProtocolErrorCode::WrongDirection;
    }
    if str_contains(detail, "unknown field") {
        ProtocolErrorCode::UnknownField
    } else if str_contains(detail, "missing field") {
        ProtocolErrorCode::MissingRequiredField
    } else if str_contains(detail, "unknown variant") {
        ProtocolErrorCode::UnknownMessageType
    } else {
        ProtocolErrorCode::InvalidFieldValue
    }
}

/// Why a message from the UI was refused.
#[derive(Debug)]
pub enum ProtocolDecodeError {
    Invalid { code: ProtocolErrorCode, detail: String },
    Validation(ProtocolValidationError),
}

impl UiToEngineMessage {
    /// Finishes decoding `raw`, given what the JSON decoder made of it (the
    /// message, or its description of the failure): a failure is classified,
    /// and a decoded message must validate.
    pub fn accept_decoded(parsed: Result<UiToEngineMessage, String>, raw: &str) -> (r: Result<
        UiToEngineMessage,
        ProtocolDecodeError,
    >)
        ensures
            parsed matches Err(detail) ==> (r matches Err(ProtocolDecodeError::Invalid { code, detail: d })
                && code == classify_spec(is_json_document(raw@), raw@, detail@) && d@ == detail@),
            parsed matches Ok(m) ==> match ui_message_verdict(m) {
                Ok(()) => r == Ok::<UiToEngineMessage, ProtocolDecodeError>(m),
                Err(e) => r matches Err(ProtocolDecodeError::Validation(v)) && v == e,
            },
    {
        match parsed {
            Err(detail) => {
                let code = classify_decode_error(raw, detail.as_str());
                Err(ProtocolDecodeError::Invalid { code, detail })
            },
            Ok(message) => match message.validate() {
                Ok(()) => Ok(message),
                Err(e) => Err(ProtocolDecodeError::Validation(e)),
            },
        }
    }
}

} // verus!

