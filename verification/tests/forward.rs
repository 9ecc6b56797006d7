use http_gateway::addressing::Destination;
use http_gateway::client::InboundOutcome;
use http_gateway::client::handle_inbound;
use http_gateway::correlation::InFlightRequests;
use http_gateway::envelope::AuthnProperties;
use http_gateway::envelope::IncomingEvent;
use http_gateway::envelope::IncomingEventProperties;
use http_gateway::envelope::IncomingMessage;
use http_gateway::envelope::OutgoingEvent;
use http_gateway::envelope::OutgoingEventProperties;
use http_gateway::envelope::OutgoingMessage;
use http_gateway::errors::ForwardError;
use http_gateway::forward::State;
use http_gateway::forward::TenantConfig;
use http_gateway::forward::extract_audience;
use http_gateway::ids::AccountId;
use http_gateway::strmap::StrMap;

#[test]
fn extracts_audience() {
    let topic = "test/test/test/audiences/test-audience/events";
    let res = extract_audience(topic);

    assert!(res.is_ok());
    assert_eq!("test-audience", res.unwrap());

    let topic = "test/test/test/audiences";
    let res = extract_audience(topic);
    assert!(res.is_err());

    let topic = "test/test/test/audiences/events";
    let res = extract_audience(topic);
    assert!(res.is_err());
}

#[test]
fn audience_extraction_edges() {
    assert_eq!(extract_audience("audiences/a/events").unwrap(), "a");
    assert_eq!(extract_audience("apps/acct-x/api/v1/audiences/tenantA/events").unwrap(), "tenantA");
    assert!(matches!(extract_audience(""), Err(ForwardError::BadTopic)));
    assert!(matches!(extract_audience("audiences//events"), Err(ForwardError::BadTopic)));
    assert!(matches!(extract_audience("x/audiencesy/a/events"), Err(ForwardError::BadTopic)));
    assert!(matches!(extract_audience("audiences/a/events/more"), Err(ForwardError::BadTopic)));
}

fn event_from(account_label: &str, audience: &str) -> IncomingEvent {
    IncomingMessage::new(
        "{\"key\":\"value\"}".to_string(),
        IncomingEventProperties {
            authn: AuthnProperties {
                agent_label: "instance-1".to_string(),
                account_label: account_label.to_string(),
                audience: audience.to_string(),
            },
        },
    )
}

fn tenant_state() -> State {
    let mut config: StrMap<TenantConfig> = StrMap::new();
    config.insert(
        "tenantA",
        TenantConfig {
            callback: "https://tenant-a.example.net/hook".to_string(),
            sources: vec![AccountId::new("acct-x", "svc.example.org")],
        },
    );
    let mut tokens: StrMap<String> = StrMap::new();
    tokens.insert("tenantA", "token-a".to_string());
    State::new(config, tokens)
}

#[test]
fn allowed_source_produces_exactly_one_post() {
    let state = tenant_state();
    let event = event_from("acct-x", "svc.example.org");
    let topic = "apps/acct-x.svc.example.org/api/v1/audiences/tenantA/events";
    let out = state.handle(topic, &event).unwrap();
    assert_eq!(out.uri, "https://tenant-a.example.net/hook");
    assert_eq!(out.token, "token-a");
    assert_eq!(out.payload, "{\"key\":\"value\"}");
    let headers = out.headers.prefixed();
    assert_eq!(headers.len(), 4);
    assert_eq!(headers[0].0, "gateway-User-Agent");
    assert_eq!(headers[0].1, "instance-1.acct-x.svc.example.org through http-gateway");
    assert_eq!(headers[1], ("gateway-agent-label".to_string(), "instance-1".to_string()));
    assert_eq!(headers[2], ("gateway-account-label".to_string(), "acct-x".to_string()));
    assert_eq!(headers[3], ("gateway-audience".to_string(), "svc.example.org".to_string()));
}

#[test]
fn disallowed_source_produces_no_post() {
    let state = tenant_state();
    let event = event_from("acct-other", "svc.example.org");
    let topic = "apps/acct-other.svc.example.org/api/v1/audiences/tenantA/events";
    assert!(matches!(state.handle(topic, &event), Err(ForwardError::SourceNotAllowed)));
}

#[test]
fn unknown_audience_and_bad_topic_are_dropped() {
    let state = tenant_state();
    let event = event_from("acct-x", "svc.example.org");
    assert!(matches!(
        state.handle("apps/acct-x.svc.example.org/api/v1/audiences/tenantZ/events", &event),
        Err(ForwardError::UnknownAudience)
    ));
    assert!(matches!(
        state.handle("apps/acct-x.svc.example.org/api/v1/rooms/1/events", &event),
        Err(ForwardError::BadTopic)
    ));
}

#[test]
fn inbound_event_frame_is_forwarded() {
    let state = tenant_state();
    let event: OutgoingEvent = OutgoingMessage::new(
        "{\"key\":\"value\"}".to_string(),
        OutgoingEventProperties::new(AuthnProperties {
            agent_label: "instance-1".to_string(),
            account_label: "acct-x".to_string(),
            audience: "svc.example.org".to_string(),
        }),
        Destination::Broadcast("audiences/tenantA/events".to_string()),
    );
    let frame = event.into_envelope().to_bytes();
    let mut store: InFlightRequests<u64> = InFlightRequests::new();
    let topic = "apps/acct-x.svc.example.org/api/v1/audiences/tenantA/events";
    match handle_inbound(&mut store, &state, topic, &frame) {
        InboundOutcome::ForwardEvent(_, post) => {
            assert_eq!(post.uri, "https://tenant-a.example.net/hook");
            assert_eq!(post.token, "token-a");
            assert_eq!(post.payload, "{\"key\":\"value\"}");
        },
        other => panic!("expected the event to be forwarded, got {:?}", other),
    }
    assert!(store.is_empty());
}

#[test]
fn missing_token_is_reported() {
    let mut config: StrMap<TenantConfig> = StrMap::new();
    config.insert(
        "tenantA",
        TenantConfig {
            callback: "https://tenant-a.example.net/hook".to_string(),
            sources: vec![AccountId::new("acct-x", "svc.example.org")],
        },
    );
    let state = State::new(config, StrMap::new());
    let event = event_from("acct-x", "svc.example.org");
    let topic = "apps/acct-x.svc.example.org/api/v1/audiences/tenantA/events";
    assert!(matches!(state.handle(topic, &event), Err(ForwardError::MissingToken)));
}
