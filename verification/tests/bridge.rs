use http_gateway::bridge::HttpResponseData;
use http_gateway::bridge::RequestDestination;
use http_gateway::bridge::gateway_timeout_status;
use http_gateway::bridge::new_correlation_data;
use http_gateway::bridge::request_sync;
use http_gateway::bridge::to_http_response;
use http_gateway::client::InboundOutcome;
use http_gateway::client::handle_inbound;
use http_gateway::codec::parse_envelope;
use http_gateway::correlation::InFlightRequests;
use http_gateway::envelope::into_request;
use http_gateway::errors::RequestError;
use http_gateway::forward::State;
use http_gateway::ids::AccountId;
use http_gateway::ids::AgentId;
use http_gateway::strmap::StrMap;

fn gateway() -> AgentId {
    AgentId::new("gw", AccountId::new("http-gateway", "svc.example.org"))
}

fn empty_forwarder() -> State {
    State::new(StrMap::new(), StrMap::new())
}

#[test]
fn correlation_ids_are_fresh_per_request() {
    let first = new_correlation_data();
    let second = new_correlation_data();
    assert!(!first.is_empty());
    assert_ne!(first, second);
}

#[test]
fn identity_mismatch_is_forbidden() {
    let destination = RequestDestination::Multicast { value: "acct2.aud".to_string() };
    let attacker = AccountId::new("acct-other", "aud");
    let err = request_sync(
        &gateway(),
        "a.acct1.aud",
        destination,
        "ping",
        "{}",
        "cd-1",
        &attacker,
    )
    .unwrap_err();
    assert_eq!(err, RequestError::IdentityMismatch);
    assert_eq!(err.http_status(), 403);
}

#[test]
fn malformed_identities_are_unprocessable() {
    let ok_dest = || RequestDestination::Multicast { value: "acct2.aud".to_string() };
    let auth = AccountId::new("acct1", "aud");
    let err =
        request_sync(&gateway(), "nodots", ok_dest(), "ping", "{}", "cd-1", &auth).unwrap_err();
    assert_eq!(err, RequestError::BadMe);
    assert_eq!(err.http_status(), 422);

    let bad_dest = RequestDestination::Multicast { value: "nodot".to_string() };
    let err = request_sync(&gateway(), "a.acct1.aud", bad_dest, "ping", "{}", "cd-1", &auth)
        .unwrap_err();
    assert_eq!(err, RequestError::BadDestination);

    let bad_unicast = RequestDestination::Unicast { value: "acct2.aud".to_string() };
    let err = request_sync(&gateway(), "a.acct1.aud", bad_unicast, "ping", "{}", "cd-1", &auth)
        .unwrap_err();
    assert_eq!(err, RequestError::BadDestination);
}

#[test]
fn multicast_request_reaches_backend_and_answer_comes_back() {
    // the scenario of one HTTP call: me a.acct1.aud asks acct2.aud for ping
    let own = gateway();
    let auth = AccountId::new("acct1", "aud");
    let destination = RequestDestination::Multicast { value: "acct2.aud".to_string() };
    let cd = new_correlation_data();
    let intent = request_sync(
        &own,
        "a.acct1.aud",
        destination,
        "ping",
        "{\"message\":\"ping\"}",
        &cd,
        &auth,
    )
    .unwrap();
    assert_eq!(intent.topic, "agents/gw.http-gateway.svc.example.org/api/v1/out/acct2.aud");
    assert_eq!(intent.correlation_data, cd);

    // the gateway registers the pending request, then publishes
    let mut store: InFlightRequests<u64> = InFlightRequests::new();
    store.save_request(&intent.correlation_data, 7).unwrap();

    // a backend instance of acct2.aud consumes the frame and answers 201
    let request = into_request(parse_envelope(&intent.body).unwrap()).unwrap();
    assert_eq!(request.properties().method(), "ping");
    assert_eq!(request.payload(), "{\"message\":\"ping\"}");
    let backend = AgentId::new("b1", AccountId::new("acct2", "aud"));
    let reply = request.to_response("{\"message\":\"pong\"}", 201);
    let (reply_topic, reply_body) = reply.into_envelope().prepare_publish(&backend).unwrap();
    assert_eq!(reply_topic, "agents/gw.http-gateway.svc.example.org/api/v1/in/acct2.aud");

    // the gateway's receive loop pairs the response with the caller
    match handle_inbound(&mut store, &empty_forwarder(), &reply_topic, &reply_body) {
        InboundOutcome::CompletedResponse(handle, response) => {
            assert_eq!(handle, 7);
            let http: HttpResponseData = to_http_response(&response);
            assert_eq!(http.status, 201);
            assert_eq!(http.body, "{\"message\":\"pong\"}");
            assert_eq!(http.headers[0], ("gateway-status".to_string(), "201".to_string()));
            assert_eq!(
                http.headers[1],
                ("gateway-correlation-data".to_string(), cd.clone())
            );
        },
        other => panic!("expected a completed response, got {:?}", other),
    }
    assert!(store.is_empty());
}

#[test]
fn timeout_without_backend_leaves_no_residual_entry() {
    let own = gateway();
    let auth = AccountId::new("acct1", "aud");
    let destination = RequestDestination::Multicast { value: "acct2.aud".to_string() };
    let cd = new_correlation_data();
    let intent = request_sync(
        &own,
        "a.acct1.aud",
        destination,
        "ping",
        "{\"message\":\"ping\"}",
        &cd,
        &auth,
    )
    .unwrap();

    let mut store: InFlightRequests<u64> = InFlightRequests::new();
    store.save_request(&intent.correlation_data, 7).unwrap();

    // nobody answers: the timeout fires, the caller abandons its entry and
    // is answered with the gateway-timeout status
    assert!(store.abandon_request(&intent.correlation_data));
    assert_eq!(gateway_timeout_status(), 504);
    assert!(store.is_empty());

    // a response that straggles in afterwards is dropped without effect
    let request = into_request(parse_envelope(&intent.body).unwrap()).unwrap();
    let backend = AgentId::new("b1", AccountId::new("acct2", "aud"));
    let late = request.to_response("{\"message\":\"pong\"}", 201);
    let (topic, body) = late.into_envelope().prepare_publish(&backend).unwrap();
    match handle_inbound(&mut store, &empty_forwarder(), &topic, &body) {
        InboundOutcome::LateResponse(_) => {},
        other => panic!("expected the late response to be dropped, got {:?}", other),
    }
    assert!(store.is_empty());
}

#[test]
fn unicast_request_addresses_the_instance() {
    let own = gateway();
    let auth = AccountId::new("acct1", "aud");
    let destination =
        RequestDestination::Unicast { value: "b1.acct2.aud".to_string() };
    let intent = request_sync(
        &own,
        "a.acct1.aud",
        destination,
        "ping",
        "{}",
        "cd-9",
        &auth,
    )
    .unwrap();
    assert_eq!(intent.topic, "agents/b1.acct2.aud/api/v1/in/http-gateway.svc.example.org");
    let request = into_request(parse_envelope(&intent.body).unwrap()).unwrap();
    assert_eq!(
        request.properties().response_topic,
        "agents/gw.http-gateway.svc.example.org/api/v1/in/acct2.aud"
    );
}

#[test]
fn inbound_requests_are_not_served() {
    let own = gateway();
    let auth = AccountId::new("acct1", "aud");
    let destination = RequestDestination::Multicast { value: "acct2.aud".to_string() };
    let intent =
        request_sync(&own, "a.acct1.aud", destination, "ping", "{}", "cd-5", &auth).unwrap();
    let mut store: InFlightRequests<u64> = InFlightRequests::new();
    match handle_inbound(&mut store, &empty_forwarder(), &intent.topic, &intent.body) {
        InboundOutcome::UnsupportedKind => {},
        other => panic!("expected the request kind to be unsupported, got {:?}", other),
    }
}
