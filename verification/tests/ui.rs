use spacegame2d::ui_protocol::{
    classify_decode_error, classify_with, BridgeId, ProtocolDecodeError, ProtocolErrorCode,
    ProtocolValidationError, RequestId, UiToEngineMessage, UI_ENGINE_PROTOCOL_VERSION,
};

fn bridge() -> BridgeId {
    BridgeId::new("bridge-1".into()).unwrap()
}

#[test]
fn rejects_unknown_fields_and_wrong_direction() {
    let raw = r#"{"kind":"uiReady","protocolVersion":1,"bridgeId":"bridge-1","extra":true}"#;
    let detail = "unknown field `extra`, expected `protocolVersion` or `bridgeId` at line 1 column 71";
    assert!(matches!(
        UiToEngineMessage::accept_decoded(Err(detail.into()), raw),
        Err(ProtocolDecodeError::Invalid {
            code: ProtocolErrorCode::UnknownField,
            ..
        })
    ));
    let raw = r#"{"kind":"heartbeat","protocolVersion":1,"bridgeId":"bridge-1","sequence":1}"#;
    let detail = "unknown variant `heartbeat`, expected one of `uiReady`, `connectRequested`";
    assert!(matches!(
        UiToEngineMessage::accept_decoded(Err(detail.into()), raw),
        Err(ProtocolDecodeError::Invalid {
            code: ProtocolErrorCode::WrongDirection,
            ..
        })
    ));
}

#[test]
fn rejects_unsupported_versions() {
    let message = UiToEngineMessage::UiReady {
        protocol_version: 4,
        bridge_id: bridge(),
    };
    assert!(matches!(
        UiToEngineMessage::accept_decoded(Ok(message), "{}"),
        Err(ProtocolDecodeError::Validation(
            ProtocolValidationError::UnsupportedVersion(4)
        ))
    ));
}

#[test]
fn connect_requires_a_display_name() {
    let raw = r#"{"kind":"connectRequested","protocolVersion":3,"bridgeId":"bridge-1","requestId":"request-1","address":"server:4000"}"#;
    assert!(matches!(
        UiToEngineMessage::accept_decoded(Err("missing field `displayName`".into()), raw),
        Err(ProtocolDecodeError::Invalid {
            code: ProtocolErrorCode::MissingRequiredField,
            ..
        })
    ));
    let message = UiToEngineMessage::ConnectRequested {
        protocol_version: 3,
        bridge_id: bridge(),
        request_id: RequestId::new("request-1".into()).unwrap(),
        address: "server:4000".into(),
        display_name: "   ".into(),
    };
    assert!(matches!(
        UiToEngineMessage::accept_decoded(Ok(message), "{}"),
        Err(ProtocolDecodeError::Validation(
            ProtocolValidationError::InvalidId("displayName")
        ))
    ));
}

#[test]
fn decode_errors_are_classified_by_their_cause() {
    assert_eq!(
        classify_decode_error("{not json", "expected value"),
        ProtocolErrorCode::MalformedJson
    );
    assert_eq!(
        classify_decode_error(r#"{"kind":"protocolError"}"#, "unknown variant"),
        ProtocolErrorCode::WrongDirection
    );
    assert_eq!(
        classify_decode_error(r#"{"kind":"mystery"}"#, "unknown variant `mystery`"),
        ProtocolErrorCode::UnknownMessageType
    );
    assert_eq!(
        classify_decode_error(r#"{"kind":"uiReady","protocolVersion":"x"}"#, "invalid type"),
        ProtocolErrorCode::InvalidFieldValue
    );
    assert_eq!(
        classify_with(true, "{}", "unknown field `x`"),
        ProtocolErrorCode::UnknownField
    );
    assert_eq!(classify_with(false, "{}", "unknown field `x`"), ProtocolErrorCode::MalformedJson);
}

#[test]
fn identifiers_are_validated() {
    assert!(BridgeId::new("bridge-1".into()).is_ok());
    assert_eq!(
        BridgeId::new("".into()).unwrap_err(),
        ProtocolValidationError::InvalidId("bridgeId")
    );
    assert_eq!(
        RequestId::new("x".repeat(129)).unwrap_err(),
        ProtocolValidationError::InvalidId("requestId")
    );
    assert!(RequestId::new("x".repeat(128)).is_ok());
    assert_eq!(bridge().as_str(), "bridge-1");
}

#[test]
fn well_formed_messages_are_accepted() {
    let message = UiToEngineMessage::ConnectRequested {
        protocol_version: UI_ENGINE_PROTOCOL_VERSION,
        bridge_id: bridge(),
        request_id: RequestId::new("request-1".into()).unwrap(),
        address: "server:4000".into(),
        display_name: "Rook".into(),
    };
    assert_eq!(message.validate(), Ok(()));
    assert!(UiToEngineMessage::accept_decoded(Ok(message), "{}").is_ok());
}
