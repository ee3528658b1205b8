use rumbledome::protocol::{
    ErrorCode, Message, MessagePayload, NotificationPayload, ProtocolError, RequestPayload,
    ResponsePayload, PROTOCOL_VERSION,
};

#[test]
fn request_envelope() {
    let m = Message::new_request("req-1".to_string(), RequestPayload::SubscribeTelemetry { rate_hz: 10 }, 1_700_000_000_123);
    assert_eq!(m.version, PROTOCOL_VERSION);
    assert_eq!(m.version, "1.0.0");
    assert_eq!(m.id, "req-1");
    assert_eq!(m.timestamp, 1_700_000_000_123);
    assert!(matches!(m.payload, MessagePayload::Request(RequestPayload::SubscribeTelemetry { rate_hz: 10 })));
}

#[test]
fn notification_ids_carry_the_time() {
    let n = NotificationPayload::StateChanged { old_state: "IDLE".to_string(), new_state: "ARMED".to_string(), timestamp: 5 };
    let m = Message::new_notification(n, 1234);
    assert_eq!(m.id, "notif-1234");
    assert_eq!(m.timestamp, 1234);
}

#[test]
fn responses() {
    let ok = Message::ok_response("a".to_string(), None, 7);
    assert!(matches!(ok.payload, MessagePayload::Response(ResponsePayload::Success { data: None })));
    let err = Message::error_response("b".to_string(), ErrorCode::InvalidState, "not armed".to_string(), 8);
    match err.payload {
        MessagePayload::Response(ResponsePayload::Error { code, message, details }) => {
            assert_eq!(code, ErrorCode::InvalidState);
            assert_eq!(message, "not armed");
            assert!(details.is_none());
        }
        _ => panic!(),
    }
}

#[test]
fn protocol_error_constructors() {
    assert!(matches!(ProtocolError::invalid_message("x".to_string()), ProtocolError::InvalidMessage(m) if m == "x"));
    assert!(matches!(ProtocolError::missing_field("id".to_string()), ProtocolError::MissingField(m) if m == "id"));
    assert!(matches!(ProtocolError::invalid_parameter("p".to_string()), ProtocolError::InvalidParameter(m) if m == "p"));
}
