use http_gateway::addressing::Destination;
use http_gateway::addressing::EventSubscription;
use http_gateway::addressing::RequestSubscription;
use http_gateway::addressing::ResponseSubscription;
use http_gateway::addressing::Source;
use http_gateway::addressing::wrap_shared;
use http_gateway::envelope::AuthnProperties;
use http_gateway::envelope::OutgoingEventProperties;
use http_gateway::envelope::OutgoingRequestProperties;
use http_gateway::envelope::OutgoingResponseProperties;
use http_gateway::errors::AddressingError;
use http_gateway::ids::AccountId;
use http_gateway::ids::AgentId;
use http_gateway::ids::SharedGroup;

fn gateway() -> AgentId {
    AgentId::new("gw", AccountId::new("http-gateway", "svc.example.org"))
}

fn authn() -> AuthnProperties {
    AuthnProperties::of_agent(&gateway())
}

#[test]
fn event_topic_is_broadcast_only() {
    let props = OutgoingEventProperties::new(authn());
    let dest = Destination::Broadcast("audiences/tenantA/events".to_string());
    let topic = props.destination_topic(&gateway(), &dest).unwrap();
    assert_eq!(topic, "apps/http-gateway.svc.example.org/api/v1/audiences/tenantA/events");

    let unicast = Destination::Unicast(AgentId::new("a", AccountId::new("b", "c")));
    assert_eq!(
        props.destination_topic(&gateway(), &unicast),
        Err(AddressingError::DestinationKindMismatch)
    );
}

#[test]
fn request_topic_unicast_and_multicast() {
    let props = OutgoingRequestProperties::new("ping", "rt", "cd-1", Some(authn()));
    let unicast = Destination::Unicast(AgentId::new("web", AccountId::new("12345", "netology.ru")));
    assert_eq!(
        props.destination_topic(&gateway(), &unicast).unwrap(),
        "agents/web.12345.netology.ru/api/v1/in/http-gateway.svc.example.org"
    );
    let multicast = Destination::Multicast(AccountId::new("conference", "svc.example.org"));
    assert_eq!(
        props.destination_topic(&gateway(), &multicast).unwrap(),
        "agents/gw.http-gateway.svc.example.org/api/v1/out/conference.svc.example.org"
    );
    let broadcast = Destination::Broadcast("x".to_string());
    assert_eq!(
        props.destination_topic(&gateway(), &broadcast),
        Err(AddressingError::DestinationKindMismatch)
    );
}

#[test]
fn response_topic_prefers_override() {
    let with_override =
        OutgoingResponseProperties::new(200, "cd-2", Some("agents/x.y.z/api/v1/in/a.b"));
    let broadcast = Destination::Broadcast("ignored".to_string());
    assert_eq!(
        with_override.destination_topic(&gateway(), &broadcast).unwrap(),
        "agents/x.y.z/api/v1/in/a.b"
    );

    let without = OutgoingResponseProperties::new(200, "cd-2", None);
    let unicast = Destination::Unicast(AgentId::new("web", AccountId::new("12345", "netology.ru")));
    assert_eq!(
        without.destination_topic(&gateway(), &unicast).unwrap(),
        "agents/web.12345.netology.ru/api/v1/in/http-gateway.svc.example.org"
    );
    assert_eq!(
        without.destination_topic(&gateway(), &broadcast),
        Err(AddressingError::DestinationKindMismatch)
    );
}

#[test]
fn subscription_filters() {
    let own = gateway();
    let events = EventSubscription::new(Source::Broadcast(
        AccountId::new("conference", "svc.example.org"),
        "audiences/tenantA/events".to_string(),
    ));
    assert_eq!(
        events.subscription_topic(&own).unwrap(),
        "apps/conference.svc.example.org/api/v1/audiences/tenantA/events"
    );
    assert!(EventSubscription::new(Source::Multicast).subscription_topic(&own).is_err());

    let requests = RequestSubscription::new(Source::Multicast);
    assert_eq!(
        requests.subscription_topic(&own).unwrap(),
        "agents/+/api/v1/out/http-gateway.svc.example.org"
    );

    let responses = ResponseSubscription::new(Source::Unicast(Some(AccountId::new(
        "conference",
        "svc.example.org",
    ))));
    assert_eq!(
        responses.subscription_topic(&own).unwrap(),
        "agents/gw.http-gateway.svc.example.org/api/v1/in/conference.svc.example.org"
    );
    let any = ResponseSubscription::new(Source::Unicast(None));
    assert_eq!(
        any.subscription_topic(&own).unwrap(),
        "agents/gw.http-gateway.svc.example.org/api/v1/in/+"
    );
    let bad = ResponseSubscription::new(Source::Multicast);
    assert_eq!(bad.subscription_topic(&own), Err(AddressingError::SourceKindMismatch));
}

#[test]
fn shared_group_wrap() {
    let group = SharedGroup::new("loadbalancer", AccountId::new("http-gateway", "svc.example.org"));
    assert_eq!(
        wrap_shared(&group, "apps/conference.svc.example.org/api/v1/audiences/tenantA/events"),
        "$share/loadbalancer.http-gateway.svc.example.org/apps/conference.svc.example.org/api/v1/audiences/tenantA/events"
    );
}
