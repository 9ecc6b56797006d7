//! The bridge client: connection identity, the connection state machine,
//! and the subscription plan re-applied on every entry into the connected
//! state.
//!
//! Subscriptions are not assumed to survive a reconnect, so the plan is a
//! pure function of the configuration, recomputed in full on every
//! transition into `Connected`: nothing accumulates across reconnects and
//! nothing is subscribed incrementally. The transport itself (socket,
//! handshake, delivery) lives outside the library; it reports events and
//! carries out the returned plan.

use vstd::prelude::*;
use vstd::string::StringExecFns;

use crate::addressing::account_text;
use crate::addressing::broadcast_topic;
use crate::addressing::build_broadcast_topic;
use crate::addressing::build_unicast_any_topic;
use crate::addressing::shared_topic;
use crate::addressing::unicast_any_topic;
use crate::addressing::wrap_shared;
use crate::codec::encodable;
use crate::codec::event_matches_entries;
use crate::codec::frame_error;
use crate::codec::parse_envelope;
use crate::codec::response_matches_entries;
use crate::codec::wire_entries;
use crate::correlation::InFlightRequests;
use crate::envelope::IncomingEnvelopeProperties;
use crate::envelope::IncomingEvent;
use crate::envelope::IncomingMessage;
use crate::envelope::IncomingResponse;
use crate::envelope::OutgoingEnvelope;
use crate::envelope::envelope_topic_of;
use crate::errors::AddressingError;
use crate::errors::CodecError;
use crate::errors::ForwardError;
use crate::forward::State as ForwardState;
use crate::forward::TenantConfig;
use crate::forward::forward_err_spec;
use crate::forward::forward_ok_spec;
use crate::ids::AccountId;
use crate::ids::AgentId;
use crate::ids::SharedGroup;
use crate::ids::agent_id_text;
use crate::json::obj_text;
use crate::text::free_of;

verus! {

/// How the client presents itself to the broker.
#[derive(Clone, Copy, Debug, PartialEq, Eq, Structural)]
pub enum ConnectionMode {
    /// An ordinary service instance.
    Agent,
    /// A gateway bridging for external clients.
    Bridge,
}

/// The client-id segment of a connection mode.
pub open spec fn mode_text(mode: ConnectionMode) -> Seq<char> {
    match mode {
        ConnectionMode::Agent => "agents"@,
        ConnectionMode::Bridge => "bridge-agents"@,
    }
}

impl ConnectionMode {
    /// The client-id segment of this mode.
    pub fn as_str(&self) -> (r: &'static str)
        ensures
            r@ == mode_text(*self),
    {
        match self {
            ConnectionMode::Agent => "agents",
            ConnectionMode::Bridge => "bridge-agents",
        }
    }
}

/// Broker connection options.
#[derive(Clone, Debug)]
pub struct AgentOptions {
    /// The broker URI.
    pub uri: String,
}

/// The client identity under construction.
#[derive(Clone, Debug)]
pub struct AgentBuilder {
    pub agent_id: AgentId,
    pub version: String,
    pub mode: ConnectionMode,
}

/// The broker client id: `version/mode/agent`.
pub open spec fn client_id_text(version: Seq<char>, mode: ConnectionMode, agent: AgentId) -> Seq<
    char,
> {
    version + "/"@ + mode_text(mode) + "/"@ + agent.text()
}

impl AgentBuilder {
    /// Start building for `agent_id`, with the default protocol version and
    /// the plain agent mode.
    pub fn new(agent_id: AgentId) -> (r: AgentBuilder)
        ensures
            r.agent_id == agent_id,
            r.version@ == "v1.mqtt3"@,
            r.mode == ConnectionMode::Agent,
    {
        AgentBuilder {
            agent_id,
            version: String::from_str("v1.mqtt3"),
            mode: ConnectionMode::Agent,
        }
    }

    /// Pick a protocol version.
    pub fn version(self, version: &str) -> (r: AgentBuilder)
        ensures
            r.agent_id == self.agent_id,
            r.version@ == version@,
            r.mode == self.mode,
    {
        AgentBuilder { agent_id: self.agent_id, version: version.to_owned(), mode: self.mode }
    }

    /// Pick a connection mode.
    pub fn mode(self, mode: ConnectionMode) -> (r: AgentBuilder)
        ensures
            r.agent_id == self.agent_id,
            r.version == self.version,
            r.mode == mode,
    {
        AgentBuilder { agent_id: self.agent_id, version: self.version, mode }
    }

    /// The client id this builder connects under.
    pub fn mqtt_client_id(&self) -> (r: String)
        ensures
            r@ == client_id_text(self.version@, self.mode, self.agent_id),
    {
        let mut r = String::from_str(self.version.as_str());
        r.append("/");
        r.append(self.mode.as_str());
        r.append("/");
        r.append(self.agent_id.label.as_str());
        r.append(".");
        r.append(self.agent_id.account_id.label.as_str());
        r.append(".");
        r.append(self.agent_id.account_id.audience.as_str());
        proof {
            assert(r@ =~= client_id_text(self.version@, self.mode, self.agent_id));
        }
        r
    }
}

/// The shared group every gateway replica joins: `loadbalancer.<account>`.
pub open spec fn group_text(agent: AgentId) -> Seq<char> {
    agent_id_text("loadbalancer"@, agent.account_id.label@, agent.account_id.audience@)
}

/// The tenant-events suffix of an audience: `audiences/<audience>/events`.
pub open spec fn events_suffix(aud: Seq<char>) -> Seq<char> {
    "audiences/"@ + aud + "/events"@
}

/// The load-balanced filter for one tenant audience and one allow-listed
/// source account.
pub open spec fn tenant_filter(agent: AgentId, aud: Seq<char>, source: AccountId) -> Seq<char> {
    shared_topic(group_text(agent), broadcast_topic(account_text(source), events_suffix(aud)))
}

/// The filters of one tenant: one per allow-listed source, in list order.
pub open spec fn source_filters(agent: AgentId, aud: Seq<char>, sources: Seq<AccountId>) -> Seq<
    Seq<char>,
>
    decreases sources.len(),
{
    if sources.len() == 0 {
        Seq::empty()
    } else {
        source_filters(agent, aud, sources.drop_last()).push(
            tenant_filter(agent, aud, sources.last()),
        )
    }
}

/// The filters of every configured tenant, in configuration order.
pub open spec fn tenants_filters(agent: AgentId, tenants: Seq<(String, TenantConfig)>) -> Seq<
    Seq<char>,
>
    decreases tenants.len(),
{
    if tenants.len() == 0 {
        Seq::empty()
    } else {
        tenants_filters(agent, tenants.drop_last()) + source_filters(
            agent,
            tenants.last().0@,
            tenants.last().1.sources@,
        )
    }
}

/// The full subscription plan: the own response inbox first, then every
/// tenant/source broadcast filter.
pub open spec fn plan_spec(agent: AgentId, tenants: Seq<(String, TenantConfig)>) -> Seq<
    Seq<char>,
> {
    seq![unicast_any_topic(agent.text())] + tenants_filters(agent, tenants)
}

/// The texts of a list of filters.
pub open spec fn views_of(v: Seq<String>) -> Seq<Seq<char>> {
    v.map_values(|s: String| s@)
}

/// Compute the complete set of filters to subscribe: exactly the
/// configured set, whatever happened before.
pub fn subscription_plan(agent_id: &AgentId, tenants: &Vec<(String, TenantConfig)>) -> (r: Vec<
    String,
>)
    ensures
        views_of(r@) == plan_spec(*agent_id, tenants@),
{
    let group = SharedGroup::new(
        "loadbalancer",
        AccountId::new(
            agent_id.account_id.label.as_str(),
            agent_id.account_id.audience.as_str(),
        ),
    );
    let mut out: Vec<String> = Vec::new();
    out.push(build_unicast_any_topic(agent_id));
    proof {
        assert(views_of(out@) =~= seq![unicast_any_topic(agent_id.text())] + tenants_filters(
            *agent_id,
            tenants@.subrange(0, 0),
        ));
    }
    let n = tenants.len();
    let mut i: usize = 0;
    while i < n
        invariant
            i <= n,
            n == tenants@.len(),
            group.text() == group_text(*agent_id),
            views_of(out@) == seq![unicast_any_topic(agent_id.text())] + tenants_filters(
                *agent_id,
                tenants@.subrange(0, i as int),
            ),
        decreases n - i,
    {
        let audience = &tenants[i].0;
        let sources = &tenants[i].1.sources;
        let mut suffix = String::from_str("audiences/");
        suffix.append(audience.as_str());
        suffix.append("/events");
        proof {
            assert(suffix@ =~= events_suffix(audience@));
        }
        let m = sources.len();
        let mut j: usize = 0;
        while j < m
            invariant
                j <= m,
                i < n,
                n == tenants@.len(),
                m == sources@.len(),
                sources == &tenants@[i as int].1.sources,
                audience == &tenants@[i as int].0,
                suffix@ == events_suffix(audience@),
                group.text() == group_text(*agent_id),
                views_of(out@) == seq![unicast_any_topic(agent_id.text())] + tenants_filters(
                    *agent_id,
                    tenants@.subrange(0, i as int),
                ) + source_filters(*agent_id, audience@, sources@.subrange(0, j as int)),
            decreases m - j,
        {
            let broadcast = build_broadcast_topic(&sources[j], suffix.as_str());
            let filter = wrap_shared(&group, broadcast.as_str());
            let ghost out0 = out@;
            let ghost fview = filter@;
            out.push(filter);
            proof {
                assert(fview == tenant_filter(*agent_id, audience@, sources@[j as int]));
                assert(views_of(out@) =~= views_of(out0).push(fview));
                let sj = sources@.subrange(0, j + 1);
                assert(sj.drop_last() =~= sources@.subrange(0, j as int));
                assert(sj.last() == sources@[j as int]);
                assert(source_filters(*agent_id, audience@, sj) == source_filters(
                    *agent_id,
                    audience@,
                    sources@.subrange(0, j as int),
                ).push(fview));
                assert(views_of(out@) =~= seq![unicast_any_topic(agent_id.text())]
                    + tenants_filters(*agent_id, tenants@.subrange(0, i as int)) + source_filters(
                    *agent_id,
                    audience@,
                    sj,
                ));
            }
            j = j + 1;
        }
        proof {
            let ti = tenants@.subrange(0, i + 1);
            assert(ti.drop_last() =~= tenants@.subrange(0, i as int));
            assert(ti.last() == tenants@[i as int]);
            assert(sources@.subrange(0, m as int) =~= sources@);
            assert(views_of(out@) =~= seq![unicast_any_topic(agent_id.text())] + tenants_filters(
                *agent_id,
                ti,
            ));
        }
        i = i + 1;
    }
    proof {
        assert(tenants@.subrange(0, n as int) =~= tenants@);
    }
    out
}

/// The connection lifecycle: connecting once, then alternating between
/// connected and recovering after a transport-reported disconnection.
#[derive(Clone, Copy, Debug, PartialEq, Eq, Structural)]
pub enum ConnectionState {
    Connecting,
    Connected,
    Disconnected,
    Reconnecting,
}

/// What the transport reports to the client.
#[derive(Clone, Copy, Debug, PartialEq, Eq, Structural)]
pub enum TransportEvent {
    /// The first connection handshake completed.
    ConnectAck,
    /// The connection dropped.
    Disconnection,
    /// The transport began a reconnect attempt.
    ReconnectStarted,
    /// A reconnect attempt completed.
    Reconnection,
}

/// The next connection state: any completed (re)connection is Connected,
/// a drop is Disconnected, a started retry is Reconnecting; anything else
/// leaves the state alone.
pub open spec fn transition(state: ConnectionState, ev: TransportEvent) -> ConnectionState {
    match (state, ev) {
        (ConnectionState::Connecting, TransportEvent::ConnectAck) => ConnectionState::Connected,
        (ConnectionState::Connected, TransportEvent::Disconnection) => ConnectionState::Disconnected,
        (ConnectionState::Disconnected, TransportEvent::ReconnectStarted) => ConnectionState::Reconnecting,
        (ConnectionState::Disconnected, TransportEvent::Reconnection) => ConnectionState::Connected,
        (ConnectionState::Reconnecting, TransportEvent::Reconnection) => ConnectionState::Connected,
        (ConnectionState::Reconnecting, TransportEvent::Disconnection) => ConnectionState::Disconnected,
        _ => state,
    }
}

/// Whether this event moves the client into the connected state, which is
/// exactly when the full subscription plan must be re-applied.
pub open spec fn enters_connected(state: ConnectionState, ev: TransportEvent) -> bool {
    transition(state, ev) == ConnectionState::Connected && state != ConnectionState::Connected
}

/// The client's connection bookkeeping: who it is, which tenants it serves,
/// and where in the lifecycle it stands.
#[derive(Clone, Debug)]
pub struct BridgeState {
    pub agent_id: AgentId,
    pub tenants: Vec<(String, TenantConfig)>,
    pub state: ConnectionState,
}

impl BridgeState {
    /// A client that has not yet connected.
    pub fn new(agent_id: AgentId, tenants: Vec<(String, TenantConfig)>) -> (r: BridgeState)
        ensures
            r.agent_id == agent_id,
            r.tenants == tenants,
            r.state == ConnectionState::Connecting,
    {
        BridgeState { agent_id, tenants, state: ConnectionState::Connecting }
    }

    /// Drive the lifecycle by one transport event. On every entry into
    /// `Connected` — the first handshake as well as every reconnection —
    /// the full subscription plan is returned, and only then: the plan
    /// depends on the configuration alone, so repeated reconnects re-issue
    /// exactly the configured set, with nothing accumulating.
    pub fn on_transport_event(&mut self, ev: TransportEvent) -> (resubscribe: Option<Vec<String>>)
        ensures
            final(self).agent_id == old(self).agent_id,
            final(self).tenants == old(self).tenants,
            final(self).state == transition(old(self).state, ev),
            match resubscribe {
                Some(plan) => enters_connected(old(self).state, ev) && views_of(plan@)
                    == plan_spec(old(self).agent_id, old(self).tenants@),
                None => !enters_connected(old(self).state, ev),
            },
    {
        let next = match (self.state, ev) {
            (ConnectionState::Connecting, TransportEvent::ConnectAck) => ConnectionState::Connected,
            (ConnectionState::Connected, TransportEvent::Disconnection) => ConnectionState::Disconnected,
            (ConnectionState::Disconnected, TransportEvent::ReconnectStarted) => ConnectionState::Reconnecting,
            (ConnectionState::Disconnected, TransportEvent::Reconnection) => ConnectionState::Connected,
            (ConnectionState::Reconnecting, TransportEvent::Reconnection) => ConnectionState::Connected,
            (ConnectionState::Reconnecting, TransportEvent::Disconnection) => ConnectionState::Disconnected,
            (s, _) => s,
        };
        let entering = match next {
            ConnectionState::Connected => match self.state {
                ConnectionState::Connected => false,
                _ => true,
            },
            _ => false,
        };
        self.state = next;
        if entering {
            Some(subscription_plan(&self.agent_id, &self.tenants))
        } else {
            None
        }
    }
}

/// Slash-free parts render to a slash-free canonical account string.
proof fn lemma_account_text_slash_free(src: AccountId)
    requires
        free_of(src.label@, '/'),
        free_of(src.audience@, '/'),
    ensures
        free_of(account_text(src), '/'),
{
    reveal_strlit(".");
    let t = account_text(src);
    assert forall|i: int| 0 <= i < t.len() implies t[i] != '/' by {
        if i < src.label@.len() {
            assert(t[i] == src.label@[i]);
        } else if i == src.label@.len() {
            assert(t[i] == "."@[0]);
        } else {
            assert(t[i] == src.audience@[i - src.label@.len() - 1]);
        }
    }
}

/// Law: distinct subscriptions never collide. A tenant filter determines
/// its audience and its source account, so a configuration with distinct
/// tenant/source pairs subscribes distinct filters — on the first connect
/// and on every reconnect alike.
pub proof fn lemma_tenant_filter_injective(
    agent: AgentId,
    aud1: Seq<char>,
    src1: AccountId,
    aud2: Seq<char>,
    src2: AccountId,
)
    requires
        free_of(aud1, '/'),
        free_of(aud2, '/'),
        free_of(src1.label@, '/'),
        free_of(src1.audience@, '/'),
        free_of(src2.label@, '/'),
        free_of(src2.audience@, '/'),
        tenant_filter(agent, aud1, src1) == tenant_filter(agent, aud2, src2),
    ensures
        aud2 == aud1,
        account_text(src2) == account_text(src1),
{
    reveal_strlit("$share/");
    reveal_strlit("apps/");
    reveal_strlit("/");
    reveal_strlit("/api/v1/");
    reveal_strlit("api/v1/");
    reveal_strlit("audiences/");
    reveal_strlit("/events");
    reveal_strlit("events");
    lemma_account_text_slash_free(src1);
    lemma_account_text_slash_free(src2);
    let g = group_text(agent);
    let s1 = account_text(src1);
    let s2 = account_text(src2);
    let b1 = broadcast_topic(s1, events_suffix(aud1));
    let b2 = broadcast_topic(s2, events_suffix(aud2));
    let x1 = shared_topic(g, b1);
    let x2 = shared_topic(g, b2);
    assert(b1 =~= x1.subrange(g.len() + 8int, x1.len() as int));
    assert(b2 =~= x2.subrange(g.len() + 8int, x2.len() as int));
    assert(b1 == b2);
    let d1 = "api/v1/"@ + events_suffix(aud1);
    let d2 = "api/v1/"@ + events_suffix(aud2);
    assert(b1 =~= "apps/"@ + (s1 + seq!['/'] + d1)) by {
        assert("/api/v1/"@ =~= seq!['/'] + "api/v1/"@);
    }
    assert(b2 =~= "apps/"@ + (s2 + seq!['/'] + d2)) by {
        assert("/api/v1/"@ =~= seq!['/'] + "api/v1/"@);
    }
    let c1 = s1 + seq!['/'] + d1;
    let c2 = s2 + seq!['/'] + d2;
    assert(c1 =~= b1.subrange(5, b1.len() as int));
    assert(c2 =~= b2.subrange(5, b2.len() as int));
    crate::text::lemma_split_unique('/', s1, d1, s2, d2);
    assert(events_suffix(aud1) =~= d1.subrange(7, d1.len() as int));
    assert(events_suffix(aud2) =~= d2.subrange(7, d2.len() as int));
    let e1 = aud1 + seq!['/'] + "events"@;
    let e2 = aud2 + seq!['/'] + "events"@;
    assert(e1 =~= events_suffix(aud1).subrange(10, events_suffix(aud1).len() as int)) by {
        assert("/events"@ =~= seq!['/'] + "events"@);
    }
    assert(e2 =~= events_suffix(aud2).subrange(10, events_suffix(aud2).len() as int)) by {
        assert("/events"@ =~= seq!['/'] + "events"@);
    }
    crate::text::lemma_split_unique('/', aud1, "events"@, aud2, "events"@);
}

/// Law: the own response inbox never collides with a tenant filter: one
/// begins `agents/`, the other `$share/`.
pub proof fn lemma_response_filter_distinct(agent: AgentId, aud: Seq<char>, src: AccountId)
    ensures
        unicast_any_topic(agent.text()) != tenant_filter(agent, aud, src),
{
    reveal_strlit("agents/");
    reveal_strlit("$share/");
    let u = unicast_any_topic(agent.text());
    let f = tenant_filter(agent, aud, src);
    assert(u[0] == "agents/"@[0]);
    assert(f[0] == "$share/"@[0]);
    if u == f {
        assert(u[0] == f[0]);
        assert(false);
    }
}

/// Law: resubscription is idempotent. The plan issued on entering the
/// connected state is a function of the client's identity and tenant
/// configuration alone, so any two entries — however many disconnections
/// and reconnections lie between them — issue the same filters.
pub proof fn lemma_resubscription_idempotent(s1: BridgeState, s2: BridgeState)
    requires
        s1.agent_id == s2.agent_id,
        s1.tenants == s2.tenants,
    ensures
        plan_spec(s1.agent_id, s1.tenants@) == plan_spec(s2.agent_id, s2.tenants@),
{
}

/// What the receive loop decided for one inbound frame. The loop itself
/// never fails: malformed frames and unroutable events are dropped with
/// their reason, and only a matching response touches the correlation
/// store.
#[derive(Debug)]
pub enum InboundOutcome<T> {
    /// A response claimed its pending entry: resolve the handle with it.
    CompletedResponse(T, IncomingResponse),
    /// A response with no pending entry (already completed, already
    /// abandoned, or unknown): dropped silently.
    LateResponse(IncomingResponse),
    /// An authorized event: post it to the tenant webhook.
    ForwardEvent(IncomingEvent, crate::forward::OutgoingMessage),
    /// An event that was dropped, with the step that rejected it.
    DroppedEvent(IncomingEvent, ForwardError),
    /// A bus-originated request: the gateway does not serve these.
    UnsupportedKind,
    /// A frame that did not decode: dropped, the loop continues.
    DroppedMalformed(CodecError),
}

/// Route one inbound frame: decode it, then complete a pending request,
/// hand an event to the forwarder, or drop it. On the canonical text of
/// any entries the outcome is pinned exactly; the correlation store
/// changes only when a response claims its own pending entry, and then
/// only that entry is removed.
pub fn handle_inbound<T>(
    store: &mut InFlightRequests<T>,
    state: &ForwardState,
    topic: &str,
    frame: &str,
) -> (r: InboundOutcome<T>)
    requires
        old(store).wf(),
        state.wf(),
    ensures
        final(store).wf(),
        match r {
            InboundOutcome::CompletedResponse(handle, resp) => old(store)@.contains_key(
                resp.properties.correlation_data@,
            ) && handle == old(store)@[resp.properties.correlation_data@] && final(store)@ == old(
                store,
            )@.remove(resp.properties.correlation_data@),
            InboundOutcome::LateResponse(resp) => !old(store)@.contains_key(
                resp.properties.correlation_data@,
            ) && final(store)@ == old(store)@,
            _ => final(store)@ == old(store)@,
        },
        forall|e: Map<Seq<char>, Seq<char>>|
            frame@ == #[trigger] obj_text(e) ==> match r {
                InboundOutcome::DroppedMalformed(err) => frame_error(e) == Some(err),
                InboundOutcome::CompletedResponse(_, resp) => frame_error(e) is None
                    && response_matches_entries(resp, e),
                InboundOutcome::LateResponse(resp) => frame_error(e) is None
                    && response_matches_entries(resp, e),
                InboundOutcome::ForwardEvent(ev, out) => frame_error(e) is None
                    && event_matches_entries(ev, e) && forward_ok_spec(state, topic@, ev, out),
                InboundOutcome::DroppedEvent(ev, err) => frame_error(e) is None
                    && event_matches_entries(ev, e) && forward_err_spec(state, topic@, ev, err),
                InboundOutcome::UnsupportedKind => frame_error(e) is None && e["type"@]
                    == "request"@,
            },
{
    let envelope = match parse_envelope(frame) {
        Ok(env) => env,
        Err(err) => {
            return InboundOutcome::DroppedMalformed(err);
        },
    };
    match envelope.properties {
        IncomingEnvelopeProperties::Response(props) => {
            let resp: IncomingResponse = IncomingMessage::new(envelope.payload, props);
            match store.finish_request(resp.properties.correlation_data.as_str()) {
                Some(handle) => InboundOutcome::CompletedResponse(handle, resp),
                None => InboundOutcome::LateResponse(resp),
            }
        },
        IncomingEnvelopeProperties::Event(props) => {
            let ev: IncomingEvent = IncomingMessage::new(envelope.payload, props);
            match state.handle(topic, &ev) {
                Ok(out) => InboundOutcome::ForwardEvent(ev, out),
                Err(err) => InboundOutcome::DroppedEvent(ev, err),
            }
        },
        IncomingEnvelopeProperties::Request(_) => InboundOutcome::UnsupportedKind,
    }
}

/// What a publish hands the transport: the resolved topic and the wire
/// text of the frame.
#[derive(Clone, Debug)]
pub struct PublishIntent {
    pub topic: String,
    pub body: String,
    pub correlation_data: String,
}

impl OutgoingEnvelope {
    /// Resolve this frame to a publishable topic and wire text for the
    /// sending agent; fails exactly when the destination is incompatible
    /// with the frame's kind, and hands nothing to the transport.
    pub fn prepare_publish(&self, agent_id: &AgentId) -> (r: Result<
        (String, String),
        AddressingError,
    >)
        requires
            encodable(self.properties),
        ensures
            match r {
                Ok(p) => envelope_topic_of(self.properties, *agent_id, self.destination) == Some(
                    p.0@,
                ) && p.1@ == obj_text(wire_entries(self.payload@, self.properties)),
                Err(e) => e == AddressingError::DestinationKindMismatch && envelope_topic_of(
                    self.properties,
                    *agent_id,
                    self.destination,
                ) is None,
            },
    {
        let topic = match self.destination_topic(agent_id) {
            Ok(t) => t,
            Err(e) => {
                return Err(e);
            },
        };
        let body = self.to_bytes();
        Ok((topic, body))
    }
}

} // verus!
