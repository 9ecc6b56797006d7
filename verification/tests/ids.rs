use http_gateway::errors::ParseError;
use http_gateway::ids::AccountId;
use http_gateway::ids::AgentId;
use http_gateway::ids::SharedGroup;

#[test]
fn account_id_round_trip() {
    let a = AccountId::new("conference", "netology-group.services");
    let rendered = a.render();
    assert_eq!(rendered, "conference.netology-group.services");
    let parsed = AccountId::parse(&rendered).unwrap();
    assert_eq!(parsed, a);
    assert_eq!(parsed.label(), "conference");
    assert_eq!(parsed.audience(), "netology-group.services");
}

#[test]
fn agent_id_round_trip() {
    let g = AgentId::new("web", AccountId::new("12345", "netology.ru"));
    let rendered = g.render();
    assert_eq!(rendered, "web.12345.netology.ru");
    let parsed = AgentId::parse(&rendered).unwrap();
    assert_eq!(parsed, g);
    assert_eq!(parsed.label(), "web");
    assert_eq!(parsed.account_id().label(), "12345");
    assert_eq!(parsed.account_id().audience(), "netology.ru");
}

#[test]
fn account_id_parse_needs_a_dot() {
    assert_eq!(AccountId::parse("nodots"), Err(ParseError::BadAccountId));
    let a = AccountId::parse("label.aud.with.dots").unwrap();
    assert_eq!(a.label(), "label");
    assert_eq!(a.audience(), "aud.with.dots");
}

#[test]
fn agent_id_parse_needs_two_dots() {
    assert!(matches!(AgentId::parse(""), Err(ParseError::BadAgentId)));
    assert!(matches!(AgentId::parse("one.dot"), Err(ParseError::BadAgentId)));
    let g = AgentId::parse("web.12345.netology.ru").unwrap();
    assert_eq!(g.label(), "web");
    assert_eq!(g.account_id().label(), "12345");
    assert_eq!(g.account_id().audience(), "netology.ru");
}

#[test]
fn shared_group_round_trip() {
    let group = SharedGroup::new("loadbalancer", AccountId::new("http-gateway", "svc.example.org"));
    let rendered = group.render();
    assert_eq!(rendered, "loadbalancer.http-gateway.svc.example.org");
    let parsed = SharedGroup::parse(&rendered).unwrap();
    assert_eq!(parsed.label, "loadbalancer");
    assert_eq!(parsed.account_id, AccountId::new("http-gateway", "svc.example.org"));
    assert!(matches!(SharedGroup::parse("nodot"), Err(ParseError::BadSharedGroup)));
}
