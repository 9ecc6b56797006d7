use http_gateway::errors::AuthnError;
use http_gateway::headers::build_gateway_name;
use http_gateway::bridge::HttpClientConfig;
use http_gateway::parsing::RequestId;
use http_gateway::parsing::get_request_id;
use http_gateway::parsing::parse_bearer_token;
use http_gateway::parsing::rpc_reply_matches;

#[test]
fn request_id_is_read_from_the_body() {
    assert_eq!(get_request_id("{\"id\":\"test_id\"}"), Some("test_id".to_string()));
    assert_eq!(get_request_id("{\"id\":\"x\",\"extra\":\"y\"}"), Some("x".to_string()));
    assert_eq!(get_request_id("{\"other\":\"y\"}"), None);
    assert_eq!(get_request_id("not json"), None);
    let held = RequestId { id: "test_id".to_string() };
    assert_eq!(held.id, "test_id");
}

#[test]
fn bearer_tokens_are_parsed_strictly() {
    assert_eq!(parse_bearer_token("Bearer abc.def.ghi"), Ok("abc.def.ghi".to_string()));
    assert_eq!(parse_bearer_token("Basic abc"), Err(AuthnError::BadTokenType));
    assert_eq!(parse_bearer_token("Bearer"), Err(AuthnError::BadTokenType));
    assert_eq!(parse_bearer_token("Bearer a b"), Err(AuthnError::BadTokenType));
    assert_eq!(parse_bearer_token(""), Err(AuthnError::BadTokenType));
    assert_eq!(parse_bearer_token("Bearer "), Ok("".to_string()));
}

#[test]
fn replies_match_by_request_id() {
    assert!(rpc_reply_matches("test_id", "{\"id\":\"test_id\"}"));
    assert!(!rpc_reply_matches("test_id", "{\"id\":\"other\"}"));
    assert!(!rpc_reply_matches("test_id", "{\"key\":\"value\"}"));
    assert!(!rpc_reply_matches("test_id", "garbage"));
}

#[test]
fn request_timeout_defaults_to_five_seconds() {
    assert_eq!(HttpClientConfig { timeout: None }.timeout(), 5);
    assert_eq!(HttpClientConfig { timeout: Some(30) }.timeout(), 30);
}

#[test]
fn gateway_header_names_are_prefixed_and_dashed() {
    assert_eq!(build_gateway_name("status"), "gateway-status");
    assert_eq!(build_gateway_name("correlation_data"), "gateway-correlation-data");
    assert_eq!(build_gateway_name("User-Agent"), "gateway-User-Agent");
}
