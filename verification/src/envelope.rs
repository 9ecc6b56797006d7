//! The generic wire message: an opaque string payload plus properties
//! discriminated by message kind (event, request, response).
//!
//! The payload stays an opaque JSON text at this layer; the receive loop
//! branches on the kind before anything commits to a payload shape.

use vstd::prelude::*;
use vstd::string::StringExecFns;

use crate::addressing::Destination;
use crate::addressing::account_text;
use crate::addressing::broadcast_topic;
use crate::addressing::build_broadcast_topic;
use crate::addressing::build_multicast_topic;
use crate::addressing::build_unicast_topic;
use crate::addressing::multicast_topic;
use crate::addressing::unicast_topic;
use crate::errors::AddressingError;
use crate::errors::CodecError;
use crate::ids::AccountId;
use crate::ids::AgentId;
use crate::ids::Authenticable;

verus! {

/// The originating identity carried by events and requests.
#[derive(Clone, Debug)]
pub struct AuthnProperties {
    pub agent_label: String,
    pub account_label: String,
    pub audience: String,
}

impl AuthnProperties {
    /// The identity of `agent`, flattened into its three labels.
    pub fn of_agent(agent: &AgentId) -> (r: AuthnProperties)
        ensures
            r.agent_label@ == agent.label@,
            r.account_label@ == agent.account_id.label@,
            r.audience@ == agent.account_id.audience@,
    {
        AuthnProperties {
            agent_label: String::from_str(agent.label.as_str()),
            account_label: String::from_str(agent.account_id.label.as_str()),
            audience: String::from_str(agent.account_id.audience.as_str()),
        }
    }

    /// The originating account.
    pub fn to_account_id(&self) -> (r: AccountId)
        ensures
            r.label@ == self.account_label@,
            r.audience@ == self.audience@,
    {
        AccountId::new(self.account_label.as_str(), self.audience.as_str())
    }

    /// The originating agent.
    pub fn to_agent_id(&self) -> (r: AgentId)
        ensures
            r.label@ == self.agent_label@,
            r.account_id.label@ == self.account_label@,
            r.account_id.audience@ == self.audience@,
    {
        AgentId::new(self.agent_label.as_str(), self.to_account_id())
    }
}

/// Properties of an inbound broadcast event.
#[derive(Clone, Debug)]
pub struct IncomingEventProperties {
    pub authn: AuthnProperties,
}

/// Properties of an inbound request.
#[derive(Clone, Debug)]
pub struct IncomingRequestProperties {
    pub method: String,
    pub correlation_data: String,
    pub response_topic: String,
    pub authn: AuthnProperties,
}

impl IncomingRequestProperties {
    /// Assemble inbound request properties.
    pub fn new(method: &str, correlation_data: &str, response_topic: &str, authn: AuthnProperties) -> (r:
        IncomingRequestProperties)
        ensures
            r.method@ == method@,
            r.correlation_data@ == correlation_data@,
            r.response_topic@ == response_topic@,
            r.authn == authn,
    {
        IncomingRequestProperties {
            method: method.to_owned(),
            correlation_data: correlation_data.to_owned(),
            response_topic: response_topic.to_owned(),
            authn,
        }
    }

    /// The requested method.
    pub fn method(&self) -> (r: &str)
        ensures
            r@ == self.method@,
    {
        self.method.as_str()
    }

    /// Response properties answering this request: same correlation id,
    /// routed back over the request's self-declared response topic.
    pub fn to_response(&self, status: u16) -> (r: OutgoingResponseProperties)
        ensures
            r.status == status,
            r.correlation_data@ == self.correlation_data@,
            r.response_topic matches Some(t) && t@ == self.response_topic@,
    {
        OutgoingResponseProperties::new(
            status,
            self.correlation_data.as_str(),
            Some(self.response_topic.as_str()),
        )
    }
}

/// Properties of an inbound response.
#[derive(Clone, Debug)]
pub struct IncomingResponseProperties {
    pub status: u16,
    pub correlation_data: String,
}

impl IncomingResponseProperties {
    /// The correlation id pairing this response with its request.
    pub fn correlation_data(&self) -> (r: &str)
        ensures
            r@ == self.correlation_data@,
    {
        self.correlation_data.as_str()
    }

    /// The declared status code.
    pub fn status(&self) -> (r: u16)
        ensures
            r == self.status,
    {
        self.status
    }
}

impl Authenticable for IncomingEventProperties {
    fn account_id(&self) -> AccountId {
        self.authn.to_account_id()
    }

    fn agent_id(&self) -> AgentId {
        self.authn.to_agent_id()
    }
}

impl Authenticable for IncomingRequestProperties {
    fn account_id(&self) -> AccountId {
        self.authn.to_account_id()
    }

    fn agent_id(&self) -> AgentId {
        self.authn.to_agent_id()
    }
}

/// Kind-discriminated properties of an inbound frame.
#[derive(Clone, Debug)]
pub enum IncomingEnvelopeProperties {
    Event(IncomingEventProperties),
    Request(IncomingRequestProperties),
    Response(IncomingResponseProperties),
}

/// An inbound frame: opaque payload text plus discriminated properties.
#[derive(Clone, Debug)]
pub struct IncomingEnvelope {
    pub payload: String,
    pub properties: IncomingEnvelopeProperties,
}

impl IncomingEnvelope {
    /// The discriminated properties.
    pub fn properties(&self) -> (r: &IncomingEnvelopeProperties)
        ensures
            r == &self.properties,
    {
        &self.properties
    }

    /// The opaque payload text.
    pub fn payload(&self) -> (r: &str)
        ensures
            r@ == self.payload@,
    {
        self.payload.as_str()
    }
}

/// A typed inbound message: payload plus kind-specific properties.
#[derive(Clone, Debug)]
pub struct IncomingMessage<T, P> {
    pub payload: T,
    pub properties: P,
}

impl<T, P> IncomingMessage<T, P> {
    /// Pair a payload with its properties.
    pub fn new(payload: T, properties: P) -> (r: IncomingMessage<T, P>)
        ensures
            r.payload == payload,
            r.properties == properties,
    {
        IncomingMessage { payload, properties }
    }

    /// The payload.
    pub fn payload(&self) -> (r: &T)
        ensures
            r == &self.payload,
    {
        &self.payload
    }

    /// The properties.
    pub fn properties(&self) -> (r: &P)
        ensures
            r == &self.properties,
    {
        &self.properties
    }

    /// Take the message apart.
    pub fn destructure(self) -> (r: (T, P))
        ensures
            r.0 == self.payload,
            r.1 == self.properties,
    {
        (self.payload, self.properties)
    }
}

pub type IncomingEvent = IncomingMessage<String, IncomingEventProperties>;

pub type IncomingRequest = IncomingMessage<String, IncomingRequestProperties>;

pub type IncomingResponse = IncomingMessage<String, IncomingResponseProperties>;

/// View an envelope as an event; fails exactly on the other two kinds.
pub fn into_event(envelope: IncomingEnvelope) -> (r: Result<IncomingEvent, CodecError>)
    ensures
        match r {
            Ok(m) => envelope.properties matches IncomingEnvelopeProperties::Event(p)
                && m.properties == p && m.payload == envelope.payload,
            Err(e) => e == CodecError::KindMismatch && !(envelope.properties
                matches IncomingEnvelopeProperties::Event(_)),
        },
{
    match envelope.properties {
        IncomingEnvelopeProperties::Event(p) => Ok(IncomingMessage::new(envelope.payload, p)),
        _ => Err(CodecError::KindMismatch),
    }
}

/// View an envelope as a request; fails exactly on the other two kinds.
pub fn into_request(envelope: IncomingEnvelope) -> (r: Result<IncomingRequest, CodecError>)
    ensures
        match r {
            Ok(m) => envelope.properties matches IncomingEnvelopeProperties::Request(p)
                && m.properties == p && m.payload == envelope.payload,
            Err(e) => e == CodecError::KindMismatch && !(envelope.properties
                matches IncomingEnvelopeProperties::Request(_)),
        },
{
    match envelope.properties {
        IncomingEnvelopeProperties::Request(p) => Ok(IncomingMessage::new(envelope.payload, p)),
        _ => Err(CodecError::KindMismatch),
    }
}

/// View an envelope as a response; fails exactly on the other two kinds.
pub fn into_response(envelope: IncomingEnvelope) -> (r: Result<IncomingResponse, CodecError>)
    ensures
        match r {
            Ok(m) => envelope.properties matches IncomingEnvelopeProperties::Response(p)
                && m.properties == p && m.payload == envelope.payload,
            Err(e) => e == CodecError::KindMismatch && !(envelope.properties
                matches IncomingEnvelopeProperties::Response(_)),
        },
{
    match envelope.properties {
        IncomingEnvelopeProperties::Response(p) => Ok(IncomingMessage::new(envelope.payload, p)),
        _ => Err(CodecError::KindMismatch),
    }
}

/// Properties of an outgoing broadcast event.
#[derive(Clone, Debug)]
pub struct OutgoingEventProperties {
    pub authn: AuthnProperties,
}

impl OutgoingEventProperties {
    /// Event properties carrying the originating identity.
    pub fn new(authn: AuthnProperties) -> (r: OutgoingEventProperties)
        ensures
            r.authn == authn,
    {
        OutgoingEventProperties { authn }
    }
}

/// Properties of an outgoing request.
#[derive(Clone, Debug)]
pub struct OutgoingRequestProperties {
    pub method: String,
    pub correlation_data: String,
    pub response_topic: String,
    pub authn: Option<AuthnProperties>,
}

impl OutgoingRequestProperties {
    /// Assemble outbound request properties. The correlation id must be
    /// fresh per outstanding request; the caller supplies it.
    pub fn new(method: &str, response_topic: &str, correlation_data: &str, authn: Option<
        AuthnProperties,
    >) -> (r: OutgoingRequestProperties)
        ensures
            r.method@ == method@,
            r.response_topic@ == response_topic@,
            r.correlation_data@ == correlation_data@,
            r.authn == authn,
    {
        OutgoingRequestProperties {
            method: method.to_owned(),
            correlation_data: correlation_data.to_owned(),
            response_topic: response_topic.to_owned(),
            authn,
        }
    }

    /// The correlation id of this request.
    pub fn correlation_data(&self) -> (r: &str)
        ensures
            r@ == self.correlation_data@,
    {
        self.correlation_data.as_str()
    }
}

/// Properties of an outgoing response.
#[derive(Clone, Debug)]
pub struct OutgoingResponseProperties {
    pub status: u16,
    pub correlation_data: String,
    /// Explicit routing override captured from the originating request, so
    /// the reply lands at the exact asking instance.
    pub response_topic: Option<String>,
}

impl OutgoingResponseProperties {
    /// Assemble outbound response properties.
    pub fn new(status: u16, correlation_data: &str, response_topic: Option<&str>) -> (r:
        OutgoingResponseProperties)
        ensures
            r.status == status,
            r.correlation_data@ == correlation_data@,
            match response_topic {
                Some(t) => r.response_topic matches Some(u) && u@ == t@,
                None => r.response_topic is None,
            },
    {
        OutgoingResponseProperties {
            status,
            correlation_data: correlation_data.to_owned(),
            response_topic: match response_topic {
                Some(t) => Some(t.to_owned()),
                None => None,
            },
        }
    }
}

/// Kind-discriminated properties of an outbound frame.
#[derive(Clone, Debug)]
pub enum OutgoingEnvelopeProperties {
    Event(OutgoingEventProperties),
    Request(OutgoingRequestProperties),
    Response(OutgoingResponseProperties),
}

/// A typed outbound message with its routing intent.
#[derive(Clone, Debug)]
pub struct OutgoingMessage<T, P> {
    pub payload: T,
    pub properties: P,
    pub destination: Destination,
}

impl<T, P> OutgoingMessage<T, P> {
    /// Pair a payload with properties and a destination.
    pub fn new(payload: T, properties: P, destination: Destination) -> (r: OutgoingMessage<T, P>)
        ensures
            r.payload == payload,
            r.properties == properties,
            r.destination == destination,
    {
        OutgoingMessage { payload, properties, destination }
    }
}

pub type OutgoingEvent = OutgoingMessage<String, OutgoingEventProperties>;

pub type OutgoingRequest = OutgoingMessage<String, OutgoingRequestProperties>;

pub type OutgoingResponse = OutgoingMessage<String, OutgoingResponseProperties>;

/// An outbound frame before wire encoding: payload text, discriminated
/// properties, and the routing intent (which never reaches the wire).
#[derive(Clone, Debug)]
pub struct OutgoingEnvelope {
    pub payload: String,
    pub properties: OutgoingEnvelopeProperties,
    pub destination: Destination,
}

impl OutgoingEnvelope {
    /// Assemble an outbound frame.
    pub fn new(payload: &str, properties: OutgoingEnvelopeProperties, destination: Destination) -> (r:
        OutgoingEnvelope)
        ensures
            r.payload@ == payload@,
            r.properties == properties,
            r.destination == destination,
    {
        OutgoingEnvelope { payload: payload.to_owned(), properties, destination }
    }
}

impl OutgoingEvent {
    /// Wrap this event as a generic outbound frame.
    pub fn into_envelope(self) -> (r: OutgoingEnvelope)
        ensures
            r.payload == self.payload,
            r.properties == OutgoingEnvelopeProperties::Event(self.properties),
            r.destination == self.destination,
    {
        OutgoingEnvelope {
            payload: self.payload,
            properties: OutgoingEnvelopeProperties::Event(self.properties),
            destination: self.destination,
        }
    }
}

impl OutgoingRequest {
    /// Wrap this request as a generic outbound frame.
    pub fn into_envelope(self) -> (r: OutgoingEnvelope)
        ensures
            r.payload == self.payload,
            r.properties == OutgoingEnvelopeProperties::Request(self.properties),
            r.destination == self.destination,
    {
        OutgoingEnvelope {
            payload: self.payload,
            properties: OutgoingEnvelopeProperties::Request(self.properties),
            destination: self.destination,
        }
    }
}

impl OutgoingResponse {
    /// Wrap this response as a generic outbound frame.
    pub fn into_envelope(self) -> (r: OutgoingEnvelope)
        ensures
            r.payload == self.payload,
            r.properties == OutgoingEnvelopeProperties::Response(self.properties),
            r.destination == self.destination,
    {
        OutgoingEnvelope {
            payload: self.payload,
            properties: OutgoingEnvelopeProperties::Response(self.properties),
            destination: self.destination,
        }
    }
}

impl IncomingRequest {
    /// Answer this request: unicast back to the asking instance, carrying
    /// the request's correlation id and response topic.
    pub fn to_response(&self, payload: &str, status: u16) -> (r: OutgoingResponse)
        ensures
            r.payload@ == payload@,
            r.properties.status == status,
            r.properties.correlation_data@ == self.properties.correlation_data@,
            r.properties.response_topic matches Some(t) && t@ == self.properties.response_topic@,
            r.destination matches Destination::Unicast(a) && a.label@
                == self.properties.authn.agent_label@ && a.account_id.label@
                == self.properties.authn.account_label@ && a.account_id.audience@
                == self.properties.authn.audience@,
    {
        OutgoingMessage::new(
            payload.to_owned(),
            self.properties.to_response(status),
            Destination::Unicast(self.properties.authn.to_agent_id()),
        )
    }
}

/// The topic an outgoing event resolves to, when its destination is legal:
/// events go out on broadcast topics only.
pub open spec fn event_topic_of(agent: AgentId, dest: Destination) -> Option<Seq<char>> {
    match dest {
        Destination::Broadcast(uri) => Some(broadcast_topic(account_text(agent.account_id), uri@)),
        _ => None,
    }
}

/// The topic an outgoing request resolves to, when its destination is
/// legal: unicast straight to the destination instance, or multicast from
/// the sending agent toward the destination account; never broadcast.
pub open spec fn request_topic_of(agent: AgentId, dest: Destination) -> Option<Seq<char>> {
    match dest {
        Destination::Unicast(d) => Some(unicast_topic(d.text(), account_text(agent.account_id))),
        Destination::Multicast(a) => Some(multicast_topic(agent.text(), account_text(a))),
        _ => None,
    }
}

/// The topic an outgoing response resolves to: the explicit override from
/// the originating request when present, else the unicast topic of the
/// destination instance; never multicast or broadcast.
pub open spec fn response_topic_of(
    props: OutgoingResponseProperties,
    agent: AgentId,
    dest: Destination,
) -> Option<Seq<char>> {
    match props.response_topic {
        Some(t) => Some(t@),
        None => match dest {
            Destination::Unicast(d) => Some(
                unicast_topic(d.text(), account_text(agent.account_id)),
            ),
            _ => None,
        },
    }
}

/// The topic an outbound frame resolves to, by its kind.
pub open spec fn envelope_topic_of(
    props: OutgoingEnvelopeProperties,
    agent: AgentId,
    dest: Destination,
) -> Option<Seq<char>> {
    match props {
        OutgoingEnvelopeProperties::Event(_) => event_topic_of(agent, dest),
        OutgoingEnvelopeProperties::Request(_) => request_topic_of(agent, dest),
        OutgoingEnvelopeProperties::Response(p) => response_topic_of(p, agent, dest),
    }
}

impl OutgoingEventProperties {
    /// Resolve the publish topic; fails exactly when the destination is not
    /// a broadcast, and performs no transport work.
    pub fn destination_topic(&self, agent_id: &AgentId, dest: &Destination) -> (r: Result<
        String,
        AddressingError,
    >)
        ensures
            match r {
                Ok(t) => event_topic_of(*agent_id, *dest) == Some(t@),
                Err(e) => e == AddressingError::DestinationKindMismatch && event_topic_of(
                    *agent_id,
                    *dest,
                ) is None,
            },
    {
        match dest {
            Destination::Broadcast(uri) => Ok(
                build_broadcast_topic(agent_id.account_id(), uri.as_str()),
            ),
            _ => Err(AddressingError::DestinationKindMismatch),
        }
    }
}

impl OutgoingRequestProperties {
    /// Resolve the publish topic; fails exactly when the destination is a
    /// broadcast, and performs no transport work.
    pub fn destination_topic(&self, agent_id: &AgentId, dest: &Destination) -> (r: Result<
        String,
        AddressingError,
    >)
        ensures
            match r {
                Ok(t) => request_topic_of(*agent_id, *dest) == Some(t@),
                Err(e) => e == AddressingError::DestinationKindMismatch && request_topic_of(
                    *agent_id,
                    *dest,
                ) is None,
            },
    {
        match dest {
            Destination::Unicast(d) => Ok(build_unicast_topic(d, agent_id.account_id())),
            Destination::Multicast(a) => Ok(build_multicast_topic(agent_id, a)),
            _ => Err(AddressingError::DestinationKindMismatch),
        }
    }
}

impl OutgoingResponseProperties {
    /// Resolve the publish topic: the captured override when present, else
    /// the unicast topic of the destination instance; fails exactly when
    /// there is no override and the destination is not a unicast.
    pub fn destination_topic(&self, agent_id: &AgentId, dest: &Destination) -> (r: Result<
        String,
        AddressingError,
    >)
        ensures
            match r {
                Ok(t) => response_topic_of(*self, *agent_id, *dest) == Some(t@),
                Err(e) => e == AddressingError::DestinationKindMismatch && response_topic_of(
                    *self,
                    *agent_id,
                    *dest,
                ) is None,
            },
    {
        match &self.response_topic {
            Some(t) => Ok(String::from_str(t.as_str())),
            None => match dest {
                Destination::Unicast(d) => Ok(build_unicast_topic(d, agent_id.account_id())),
                _ => Err(AddressingError::DestinationKindMismatch),
            },
        }
    }
}

impl OutgoingEnvelopeProperties {
    /// Resolve the publish topic by the frame's kind.
    pub fn destination_topic(&self, agent_id: &AgentId, dest: &Destination) -> (r: Result<
        String,
        AddressingError,
    >)
        ensures
            match r {
                Ok(t) => envelope_topic_of(*self, *agent_id, *dest) == Some(t@),
                Err(e) => e == AddressingError::DestinationKindMismatch && envelope_topic_of(
                    *self,
                    *agent_id,
                    *dest,
                ) is None,
            },
    {
        match self {
            OutgoingEnvelopeProperties::Event(p) => p.destination_topic(agent_id, dest),
            OutgoingEnvelopeProperties::Request(p) => p.destination_topic(agent_id, dest),
            OutgoingEnvelopeProperties::Response(p) => p.destination_topic(agent_id, dest),
        }
    }
}

impl OutgoingEnvelope {
    /// Resolve the publish topic of this frame for the sending agent.
    pub fn destination_topic(&self, agent_id: &AgentId) -> (r: Result<String, AddressingError>)
        ensures
            match r {
                Ok(t) => envelope_topic_of(self.properties, *agent_id, self.destination) == Some(
                    t@,
                ),
                Err(e) => e == AddressingError::DestinationKindMismatch && envelope_topic_of(
                    self.properties,
                    *agent_id,
                    self.destination,
                ) is None,
            },
    {
        self.properties.destination_topic(agent_id, &self.destination)
    }
}

} // verus!
