use http_gateway::addressing::Destination;
use http_gateway::codec::encode_envelope;
use http_gateway::codec::parse_envelope;
use http_gateway::envelope::AuthnProperties;
use http_gateway::envelope::IncomingEnvelopeProperties;
use http_gateway::envelope::OutgoingEnvelopeProperties;
use http_gateway::envelope::OutgoingEvent;
use http_gateway::envelope::OutgoingEventProperties;
use http_gateway::envelope::OutgoingMessage;
use http_gateway::envelope::OutgoingRequest;
use http_gateway::envelope::OutgoingRequestProperties;
use http_gateway::envelope::OutgoingResponseProperties;
use http_gateway::envelope::into_event;
use http_gateway::envelope::into_request;
use http_gateway::envelope::into_response;
use http_gateway::errors::CodecError;
use http_gateway::ids::AccountId;
use http_gateway::ids::AgentId;

fn sample_authn() -> AuthnProperties {
    AuthnProperties::of_agent(&AgentId::new("web", AccountId::new("12345", "netology.ru")))
}

fn request_props() -> OutgoingRequestProperties {
    OutgoingRequestProperties::new(
        "room.create",
        "agents/gw.http-gateway.svc.example.org/api/v1/in/conference.svc.example.org",
        "cd-42",
        Some(sample_authn()),
    )
}

#[test]
fn encode_produces_flat_json_object() {
    let text = encode_envelope(
        "{\"message\":\"ping\"}",
        &OutgoingEnvelopeProperties::Request(request_props()),
    );
    let value: serde_json::Value = serde_json::from_str(&text).expect("frame must be JSON");
    let obj = value.as_object().expect("frame must be an object");
    assert_eq!(obj.get("type").and_then(|v| v.as_str()), Some("request"));
    assert_eq!(obj.get("payload").and_then(|v| v.as_str()), Some("{\"message\":\"ping\"}"));
    assert_eq!(obj.get("method").and_then(|v| v.as_str()), Some("room.create"));
    assert_eq!(obj.get("correlation_data").and_then(|v| v.as_str()), Some("cd-42"));
    assert_eq!(
        obj.get("response_topic").and_then(|v| v.as_str()),
        Some("agents/gw.http-gateway.svc.example.org/api/v1/in/conference.svc.example.org")
    );
    assert_eq!(obj.get("agent_label").and_then(|v| v.as_str()), Some("web"));
    assert_eq!(obj.get("account_label").and_then(|v| v.as_str()), Some("12345"));
    assert_eq!(obj.get("audience").and_then(|v| v.as_str()), Some("netology.ru"));
    assert_eq!(obj.len(), 8);
}

#[test]
fn request_frame_round_trips() {
    let text = encode_envelope(
        "{\"message\":\"ping\"}",
        &OutgoingEnvelopeProperties::Request(request_props()),
    );
    let envelope = parse_envelope(&text).unwrap();
    let request = into_request(envelope).unwrap();
    assert_eq!(request.payload(), "{\"message\":\"ping\"}");
    assert_eq!(request.properties().method(), "room.create");
    assert_eq!(request.properties().correlation_data, "cd-42");
    assert_eq!(request.properties().authn.agent_label, "web");
    assert_eq!(request.properties().authn.account_label, "12345");
    assert_eq!(request.properties().authn.audience, "netology.ru");
}

#[test]
fn response_frame_round_trips_with_status() {
    let props = OutgoingResponseProperties::new(201, "cd-7", Some("agents/a.b.c/api/v1/in/x.y"));
    let message = OutgoingMessage::new(
        "{\"message\":\"pong\"}".to_string(),
        props,
        Destination::Unicast(AgentId::new("web", AccountId::new("12345", "netology.ru"))),
    );
    let text = message.into_envelope().to_bytes();
    let value: serde_json::Value = serde_json::from_str(&text).unwrap();
    assert_eq!(value.get("status").and_then(|v| v.as_str()), Some("201"));

    let envelope = parse_envelope(&text).unwrap();
    let response = into_response(envelope).unwrap();
    assert_eq!(response.properties().status(), 201);
    assert_eq!(response.properties().correlation_data(), "cd-7");
    assert_eq!(response.payload(), "{\"message\":\"pong\"}");
}

#[test]
fn event_frame_round_trips() {
    let event: OutgoingEvent = OutgoingMessage::new(
        "{\"kind\":\"room.opened\"}".to_string(),
        OutgoingEventProperties::new(sample_authn()),
        Destination::Broadcast("audiences/tenantA/events".to_string()),
    );
    let text = event.into_envelope().to_bytes();
    let decoded = parse_envelope(&text).unwrap();
    assert!(matches!(decoded.properties(), IncomingEnvelopeProperties::Event(_)));
    let decoded = parse_envelope(&text).unwrap();
    let typed = into_event(decoded).unwrap();
    assert_eq!(typed.payload(), "{\"kind\":\"room.opened\"}");
    assert_eq!(typed.properties().authn.agent_label, "web");
    assert_eq!(typed.properties().authn.account_label, "12345");
    assert_eq!(typed.properties().authn.audience, "netology.ru");
}

#[test]
fn kind_mismatch_is_rejected() {
    let request: OutgoingRequest = OutgoingMessage::new(
        "{}".to_string(),
        request_props(),
        Destination::Multicast(AccountId::new("conference", "svc.example.org")),
    );
    let text = request.into_envelope().to_bytes();
    let decoded = parse_envelope(&text).unwrap();
    assert!(matches!(into_response(decoded), Err(CodecError::KindMismatch)));
    let decoded = parse_envelope(&text).unwrap();
    assert!(matches!(decoded.properties(), IncomingEnvelopeProperties::Request(_)));
}

#[test]
fn malformed_frames_are_rejected() {
    assert!(matches!(parse_envelope("not json at all"), Err(CodecError::MalformedFrame)));
    assert!(matches!(parse_envelope("[1,2,3]"), Err(CodecError::MalformedFrame)));
    assert!(matches!(parse_envelope("{\"payload\":\"x\"}"), Err(CodecError::BadKind)));
    assert!(matches!(
        parse_envelope("{\"type\":\"mystery\",\"payload\":\"x\"}"),
        Err(CodecError::BadKind)
    ));
    assert!(matches!(
        parse_envelope("{\"type\":\"event\",\"payload\":\"x\"}"),
        Err(CodecError::MissingField)
    ));
    assert!(matches!(
        parse_envelope(
            "{\"type\":\"response\",\"payload\":\"x\",\"correlation_data\":\"c\",\"status\":\"2x1\"}"
        ),
        Err(CodecError::BadStatus)
    ));
    assert!(matches!(
        parse_envelope(
            "{\"type\":\"response\",\"payload\":\"x\",\"correlation_data\":\"c\",\"status\":\"099\"}"
        ),
        Err(CodecError::BadStatus)
    ));
    assert!(matches!(
        parse_envelope("{\"type\":\"response\",\"payload\":\"x\",\"correlation_data\":\"c\"}"),
        Err(CodecError::MissingField)
    ));
}

#[test]
fn payload_text_survives_json_escaping() {
    let payload = "{\"quote\":\"he said \\\"hi\\\"\",\"path\":\"a\\\\b\"}";
    let text = encode_envelope(payload, &OutgoingEnvelopeProperties::Request(request_props()));
    let envelope = parse_envelope(&text).unwrap();
    let request = into_request(envelope).unwrap();
    assert_eq!(request.payload(), payload);
}
