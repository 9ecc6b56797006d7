use http_gateway::client::AgentBuilder;
use http_gateway::client::BridgeState;
use http_gateway::client::ConnectionMode;
use http_gateway::client::ConnectionState;
use http_gateway::client::TransportEvent;
use http_gateway::client::subscription_plan;
use http_gateway::forward::TenantConfig;
use http_gateway::ids::AccountId;
use http_gateway::ids::AgentId;

fn gateway() -> AgentId {
    AgentId::new("gw", AccountId::new("http-gateway", "svc.example.org"))
}

fn tenants() -> Vec<(String, TenantConfig)> {
    vec![
        (
            "tenantA".to_string(),
            TenantConfig {
                callback: "https://a.example.net/hook".to_string(),
                sources: vec![
                    AccountId::new("conference", "svc.example.org"),
                    AccountId::new("telemetry", "svc.example.org"),
                ],
            },
        ),
        (
            "tenantB".to_string(),
            TenantConfig {
                callback: "https://b.example.net/hook".to_string(),
                sources: vec![AccountId::new("conference", "svc.example.org")],
            },
        ),
    ]
}

#[test]
fn client_id_has_version_mode_and_agent() {
    let builder = AgentBuilder::new(gateway());
    assert_eq!(builder.mqtt_client_id(), "v1.mqtt3/agents/gw.http-gateway.svc.example.org");
    let builder = AgentBuilder::new(gateway()).version("v2").mode(ConnectionMode::Bridge);
    assert_eq!(builder.mqtt_client_id(), "v2/bridge-agents/gw.http-gateway.svc.example.org");
}

#[test]
fn plan_is_the_configured_set() {
    let plan = subscription_plan(&gateway(), &tenants());
    let expected = vec![
        "agents/gw.http-gateway.svc.example.org/api/v1/in/+".to_string(),
        "$share/loadbalancer.http-gateway.svc.example.org/apps/conference.svc.example.org/api/v1/audiences/tenantA/events".to_string(),
        "$share/loadbalancer.http-gateway.svc.example.org/apps/telemetry.svc.example.org/api/v1/audiences/tenantA/events".to_string(),
        "$share/loadbalancer.http-gateway.svc.example.org/apps/conference.svc.example.org/api/v1/audiences/tenantB/events".to_string(),
    ];
    assert_eq!(plan, expected);
    // no duplicate filters accumulate in one plan
    for (i, a) in plan.iter().enumerate() {
        for b in plan.iter().skip(i + 1) {
            assert_ne!(a, b);
        }
    }
}

#[test]
fn reconnection_resubscribes_the_same_set_every_time() {
    let mut client = BridgeState::new(gateway(), tenants());
    assert_eq!(client.state, ConnectionState::Connecting);

    let first = client.on_transport_event(TransportEvent::ConnectAck).unwrap();
    assert_eq!(client.state, ConnectionState::Connected);

    // a connected client gets no plan for ordinary notifications
    assert!(client.on_transport_event(TransportEvent::ConnectAck).is_none());

    assert!(client.on_transport_event(TransportEvent::Disconnection).is_none());
    assert_eq!(client.state, ConnectionState::Disconnected);
    assert!(client.on_transport_event(TransportEvent::ReconnectStarted).is_none());
    assert_eq!(client.state, ConnectionState::Reconnecting);
    let second = client.on_transport_event(TransportEvent::Reconnection).unwrap();
    assert_eq!(client.state, ConnectionState::Connected);

    assert!(client.on_transport_event(TransportEvent::Disconnection).is_none());
    let third = client.on_transport_event(TransportEvent::Reconnection).unwrap();

    // idempotent: every entry into Connected issues exactly the same set
    assert_eq!(first, second);
    assert_eq!(second, third);
    assert_eq!(first, subscription_plan(&gateway(), &tenants()));
}
