//! The request bridge: one HTTP call becomes one bus request and exactly
//! one HTTP answer.
//!
//! The bridge validates that the authenticated caller matches the identity
//! declared in the body, resolves the multicast or unicast publish topic,
//! stamps the request with a fresh correlation id and a self-addressed
//! unicast response topic, and encodes the wire frame. The caller then
//! publishes the intent, registers the correlation id, and awaits the
//! completion handle under a bounded timeout; a response maps back onto an
//! HTTP status, body and gateway-prefixed headers, a timeout maps onto the
//! gateway-timeout status after abandoning the entry.

use vstd::prelude::*;
use vstd::string::StringExecFns;

use crate::addressing::Destination;
use crate::addressing::account_text;
use crate::addressing::build_unicast_topic;
use crate::addressing::multicast_topic;
use crate::addressing::unicast_topic;
use crate::client::PublishIntent;
use crate::codec::request_entries;
use crate::envelope::AuthnProperties;
use crate::envelope::IncomingResponse;
use crate::envelope::OutgoingMessage;
use crate::envelope::OutgoingRequest;
use crate::envelope::OutgoingRequestProperties;
use crate::errors::RequestError;
use crate::headers::Headers;
use crate::headers::gateway_name;
use crate::ids::AccountId;
use crate::ids::AgentId;
use crate::ids::account_id_text;
use crate::ids::agent_parts;
use crate::ids::dot_free;
use crate::ids::has_dot;
use crate::ids::has_two_dots;
use crate::ids::lemma_account_parts;
use crate::ids::lemma_agent_parts;
use crate::json::obj_text;
use crate::text::status_text;

verus! {

/// The HTTP status answered when no response arrives within the timeout.
pub open spec fn gateway_timeout_status_spec() -> u16 {
    504u16
}

/// The HTTP status answered when no response arrives within the timeout.
pub fn gateway_timeout_status() -> (r: u16)
    ensures
        r == gateway_timeout_status_spec(),
{
    504
}

/// The outbound HTTP client's configuration surface.
#[derive(Clone, Copy, Debug)]
pub struct HttpClientConfig {
    /// The request timeout in seconds, if configured.
    pub timeout: Option<u64>,
}

impl HttpClientConfig {
    /// The bounded wait on a correlation handle: the configured timeout, or
    /// five seconds.
    pub fn timeout(&self) -> (r: u64)
        ensures
            r == match self.timeout {
                Some(t) => t,
                None => 5u64,
            },
    {
        match self.timeout {
            Some(t) => t,
            None => 5,
        }
    }
}

/// The declared destination of an inbound HTTP request body.
#[derive(Clone, Debug)]
pub enum RequestDestination {
    /// Exactly one instance, by its canonical agent string.
    Unicast { value: String },
    /// Any instance of an account, by its canonical account string.
    Multicast { value: String },
}

/// The destination value is a canonical identity string of its kind.
pub open spec fn dest_ok(d: RequestDestination) -> bool {
    match d {
        RequestDestination::Unicast { value } => has_two_dots(value@),
        RequestDestination::Multicast { value } => has_dot(value@),
    }
}

/// The canonical account string a request's responses come back from: the
/// destination account itself, or the account of the destination instance.
pub open spec fn dest_account_text(d: RequestDestination) -> Seq<char> {
    match d {
        RequestDestination::Unicast { value } => account_id_text(
            agent_parts(value@).1,
            agent_parts(value@).2,
        ),
        RequestDestination::Multicast { value } => value@,
    }
}

/// The topic the request is published on: straight to the destination
/// instance, or multicast from the sending gateway toward the account.
pub open spec fn request_publish_topic(own: AgentId, d: RequestDestination) -> Seq<char> {
    match d {
        RequestDestination::Unicast { value } => unicast_topic(value@, account_text(
            own.account_id,
        )),
        RequestDestination::Multicast { value } => multicast_topic(own.text(), value@),
    }
}

impl RequestDestination {
    /// Parse the declared destination into a routing intent. Fails exactly
    /// when the value is not a canonical identity string of its kind.
    pub fn validate(self) -> (r: Result<Destination, RequestError>)
        ensures
            match r {
                Ok(d) => dest_ok(self) && match self {
                    RequestDestination::Unicast { value } => d matches Destination::Unicast(g)
                        && dot_free(g.label@) && dot_free(g.account_id.label@) && value@
                        == g.text(),
                    RequestDestination::Multicast { value } => d matches Destination::Multicast(a)
                        && dot_free(a.label@) && value@ == account_id_text(a.label@, a.audience@),
                },
                Err(e) => e == RequestError::BadDestination && !dest_ok(self),
            },
    {
        match self {
            RequestDestination::Unicast { value } => match AgentId::parse(value.as_str()) {
                Ok(g) => Ok(Destination::Unicast(g)),
                Err(_) => Err(RequestError::BadDestination),
            },
            RequestDestination::Multicast { value } => match AccountId::parse(value.as_str()) {
                Ok(a) => Ok(Destination::Multicast(a)),
                Err(_) => Err(RequestError::BadDestination),
            },
        }
    }
}

/// Relies on uuid::Uuid::new_v4 and its Display form: a freshly drawn
/// random identifier. Nothing is promised of the value; uniqueness per
/// outstanding request is overwhelmingly probable, and the correlation
/// store rejects the unlikely duplicate.
#[verifier::external_body]
pub fn new_correlation_data() -> (r: String) {
    uuid::Uuid::new_v4().to_string()
}

/// Turn one validated HTTP request into a publish intent. Fails exactly
/// when the declared `me` is not a canonical agent string (`BadMe`), the
/// authenticated account is not the account of `me`
/// (`IdentityMismatch`), or the destination value is not canonical
/// (`BadDestination`), in that order; nothing is handed to the transport
/// on failure. On success the intent carries the resolved publish topic
/// and the request frame: the payload verbatim, the method, the supplied
/// correlation id, a response topic addressing the gateway's own unicast
/// inbox from the destination account, and the caller's identity.
pub fn request_sync(
    own_agent: &AgentId,
    me: &str,
    destination: RequestDestination,
    method: &str,
    payload: &str,
    correlation_data: &str,
    authenticated: &AccountId,
) -> (r: Result<PublishIntent, RequestError>)
    ensures
        match r {
            Ok(intent) => {
                &&& has_two_dots(me@)
                &&& agent_parts(me@).1 == authenticated.label@
                &&& agent_parts(me@).2 == authenticated.audience@
                &&& dest_ok(destination)
                &&& intent.correlation_data@ == correlation_data@
                &&& intent.topic@ == request_publish_topic(*own_agent, destination)
                &&& intent.body@ == obj_text(
                    request_entries(
                        payload@,
                        method@,
                        correlation_data@,
                        unicast_topic(own_agent.text(), dest_account_text(destination)),
                        agent_parts(me@).0,
                        agent_parts(me@).1,
                        agent_parts(me@).2,
                    ),
                )
            },
            Err(e) => match e {
                RequestError::BadMe => !has_two_dots(me@),
                RequestError::IdentityMismatch => has_two_dots(me@) && !(agent_parts(me@).1
                    == authenticated.label@ && agent_parts(me@).2 == authenticated.audience@),
                RequestError::BadDestination => has_two_dots(me@) && agent_parts(me@).1
                    == authenticated.label@ && agent_parts(me@).2 == authenticated.audience@
                    && !dest_ok(destination),
            },
        },
{
    let me_agent = match AgentId::parse(me) {
        Ok(g) => g,
        Err(_) => {
            return Err(RequestError::BadMe);
        },
    };
    proof {
        lemma_agent_parts(me_agent);
    }
    if !(me_agent.account_id() == authenticated) {
        return Err(RequestError::IdentityMismatch);
    }
    let ghost d0 = destination;
    let dest = match destination.validate() {
        Ok(d) => d,
        Err(e) => {
            return Err(e);
        },
    };
    let response_topic = match &dest {
        Destination::Unicast(g2) => {
            proof {
                lemma_agent_parts(*g2);
            }
            build_unicast_topic(own_agent, g2.account_id())
        },
        Destination::Multicast(a) => build_unicast_topic(own_agent, a),
        Destination::Broadcast(_) => {
            proof {
                assert(false);
            }
            return Err(RequestError::BadDestination);
        },
    };
    let authn = AuthnProperties::of_agent(&me_agent);
    let props = OutgoingRequestProperties::new(
        method,
        response_topic.as_str(),
        correlation_data,
        Some(authn),
    );
    let message: OutgoingRequest = OutgoingMessage::new(payload.to_owned(), props, dest);
    let envelope = message.into_envelope();
    let published = match envelope.prepare_publish(own_agent) {
        Ok(p) => p,
        Err(_) => {
            proof {
                assert(false);
            }
            return Err(RequestError::BadDestination);
        },
    };
    let (topic, body) = published;
    Ok(PublishIntent { topic, body, correlation_data: correlation_data.to_owned() })
}

/// What the HTTP layer answers: the bus response's status and payload,
/// with the gateway-prefixed property headers.
#[derive(Clone, Debug)]
pub struct HttpResponseData {
    pub status: u16,
    pub body: String,
    pub headers: Vec<(String, String)>,
}

/// Map a bus response back onto the HTTP answer: the declared status, the
/// payload verbatim as the body, and the response properties as
/// gateway-prefixed headers.
pub fn to_http_response(resp: &IncomingResponse) -> (r: HttpResponseData)
    requires
        100 <= resp.properties.status <= 999,
    ensures
        r.status == resp.properties.status,
        r.body@ == resp.payload@,
        r.headers@.len() == 2,
        r.headers@[0].0@ == gateway_name("status"@),
        r.headers@[0].1@ == status_text(resp.properties.status as int),
        r.headers@[1].0@ == gateway_name("correlation_data"@),
        r.headers@[1].1@ == resp.properties.correlation_data@,
{
    let headers = Headers::of_response(&resp.properties).prefixed();
    proof {
        assert(headers@[0].0@ == gateway_name("status"@));
        assert(headers@[1].0@ == gateway_name("correlation_data"@));
    }
    HttpResponseData {
        status: resp.properties.status,
        body: String::from_str(resp.payload.as_str()),
        headers,
    }
}

} // verus!
