//! Wire codec for the generic envelope.
//!
//! A frame is a flat JSON object of string fields: the opaque `payload`
//! text, the `type` discriminator, and the kind-specific fields. Encoding
//! builds exactly the entries of [`wire_entries`]; decoding inspects the
//! discriminator first and reads the kind's fields, failing with a
//! [`CodecError`] pinned down by [`frame_error`]. Decoding an encoded
//! frame restores it ([`lemma_codec_round_trip`]).

use vstd::map::*;
use vstd::prelude::*;

use crate::envelope::AuthnProperties;
use crate::envelope::IncomingEnvelope;
use crate::envelope::IncomingEnvelopeProperties;
use crate::envelope::IncomingEvent;
use crate::envelope::IncomingEventProperties;
use crate::envelope::IncomingRequestProperties;
use crate::envelope::IncomingResponse;
use crate::envelope::IncomingResponseProperties;
use crate::envelope::OutgoingEnvelope;
use crate::envelope::OutgoingEnvelopeProperties;
use crate::errors::CodecError;
use crate::json::obj_entries;
use crate::json::obj_from_text;
use crate::json::obj_get_str;
use crate::json::obj_insert_str;
use crate::json::obj_new;
use crate::json::obj_text;
use crate::json::obj_to_text;
use crate::text::parse_status;
use crate::text::render_status;
use crate::text::status_of_text;
use crate::text::status_text;
use crate::text::str_eq;

verus! {

/// A status code that fits the three-digit wire form.
pub open spec fn valid_status(n: u16) -> bool {
    100 <= n <= 999
}

/// Outbound properties the codec can put on the wire: responses carry a
/// three-digit status, requests carry their originating identity.
pub open spec fn encodable(props: OutgoingEnvelopeProperties) -> bool {
    match props {
        OutgoingEnvelopeProperties::Event(_) => true,
        OutgoingEnvelopeProperties::Request(p) => p.authn is Some,
        OutgoingEnvelopeProperties::Response(p) => valid_status(p.status),
    }
}

/// The wire entries of an event frame.
pub open spec fn event_entries(
    payload: Seq<char>,
    agent_label: Seq<char>,
    account_label: Seq<char>,
    audience: Seq<char>,
) -> Map<Seq<char>, Seq<char>> {
    map![
        "payload"@ => payload,
        "type"@ => "event"@,
        "agent_label"@ => agent_label,
        "account_label"@ => account_label,
        "audience"@ => audience,
    ]
}

/// The wire entries of a request frame carrying its originating identity.
pub open spec fn request_entries(
    payload: Seq<char>,
    method: Seq<char>,
    correlation_data: Seq<char>,
    response_topic: Seq<char>,
    agent_label: Seq<char>,
    account_label: Seq<char>,
    audience: Seq<char>,
) -> Map<Seq<char>, Seq<char>> {
    map![
        "payload"@ => payload,
        "type"@ => "request"@,
        "method"@ => method,
        "correlation_data"@ => correlation_data,
        "response_topic"@ => response_topic,
        "agent_label"@ => agent_label,
        "account_label"@ => account_label,
        "audience"@ => audience,
    ]
}

/// The wire entries of a response frame.
pub open spec fn response_entries(payload: Seq<char>, correlation_data: Seq<char>, status: u16) -> Map<
    Seq<char>,
    Seq<char>,
> {
    map![
        "payload"@ => payload,
        "type"@ => "response"@,
        "correlation_data"@ => correlation_data,
        "status"@ => status_text(status as int),
    ]
}

/// The wire entries of an outbound frame: payload, discriminator, and the
/// kind-specific fields, the originating identity flattened.
pub open spec fn wire_entries(payload: Seq<char>, props: OutgoingEnvelopeProperties) -> Map<
    Seq<char>,
    Seq<char>,
> {
    match props {
        OutgoingEnvelopeProperties::Event(p) => event_entries(
            payload,
            p.authn.agent_label@,
            p.authn.account_label@,
            p.authn.audience@,
        ),
        OutgoingEnvelopeProperties::Request(p) => match p.authn {
            Some(a) => request_entries(
                payload,
                p.method@,
                p.correlation_data@,
                p.response_topic@,
                a.agent_label@,
                a.account_label@,
                a.audience@,
            ),
            None => map![
                "payload"@ => payload,
                "type"@ => "request"@,
                "method"@ => p.method@,
                "correlation_data"@ => p.correlation_data@,
                "response_topic"@ => p.response_topic@,
            ],
        },
        OutgoingEnvelopeProperties::Response(p) => response_entries(
            payload,
            p.correlation_data@,
            p.status,
        ),
    }
}

/// The keys every frame carrying an originating identity must hold.
pub open spec fn authn_keys_present(e: Map<Seq<char>, Seq<char>>) -> bool {
    e.contains_key("agent_label"@) && e.contains_key("account_label"@) && e.contains_key(
        "audience"@,
    )
}

/// The keys an event frame must hold.
pub open spec fn event_keys_present(e: Map<Seq<char>, Seq<char>>) -> bool {
    e.contains_key("payload"@) && authn_keys_present(e)
}

/// The keys a request frame must hold.
pub open spec fn request_keys_present(e: Map<Seq<char>, Seq<char>>) -> bool {
    e.contains_key("payload"@) && e.contains_key("method"@) && e.contains_key(
        "correlation_data"@,
    ) && e.contains_key("response_topic"@) && authn_keys_present(e)
}

/// The keys a response frame must hold.
pub open spec fn response_keys_present(e: Map<Seq<char>, Seq<char>>) -> bool {
    e.contains_key("payload"@) && e.contains_key("correlation_data"@) && e.contains_key("status"@)
}

/// The error a frame's entries decode to, if any: an unknown or missing
/// discriminator, a missing kind field, or a malformed status.
pub open spec fn frame_error(e: Map<Seq<char>, Seq<char>>) -> Option<CodecError> {
    if !e.contains_key("type"@) {
        Some(CodecError::BadKind)
    } else if e["type"@] == "event"@ {
        if event_keys_present(e) {
            None
        } else {
            Some(CodecError::MissingField)
        }
    } else if e["type"@] == "request"@ {
        if request_keys_present(e) {
            None
        } else {
            Some(CodecError::MissingField)
        }
    } else if e["type"@] == "response"@ {
        if !response_keys_present(e) {
            Some(CodecError::MissingField)
        } else if status_of_text(e["status"@]) is None {
            Some(CodecError::BadStatus)
        } else {
            None
        }
    } else {
        Some(CodecError::BadKind)
    }
}

/// The identity fields of `a` are exactly the identity entries of `e`.
pub open spec fn authn_matches(a: AuthnProperties, e: Map<Seq<char>, Seq<char>>) -> bool {
    a.agent_label@ == e["agent_label"@] && a.account_label@ == e["account_label"@] && a.audience@
        == e["audience"@]
}

/// `env` is exactly the decoding of the entries `e`.
pub open spec fn envelope_matches(env: IncomingEnvelope, e: Map<Seq<char>, Seq<char>>) -> bool {
    &&& env.payload@ == e["payload"@]
    &&& match env.properties {
        IncomingEnvelopeProperties::Event(p) => e["type"@] == "event"@ && authn_matches(
            p.authn,
            e,
        ),
        IncomingEnvelopeProperties::Request(p) => e["type"@] == "request"@ && p.method@
            == e["method"@] && p.correlation_data@ == e["correlation_data"@] && p.response_topic@
            == e["response_topic"@] && authn_matches(p.authn, e),
        IncomingEnvelopeProperties::Response(p) => e["type"@] == "response"@
            && p.correlation_data@ == e["correlation_data"@] && status_of_text(e["status"@])
            == Some(p.status),
    }
}

/// The typed event `m` is exactly the decoding of the entries `e`.
pub open spec fn event_matches_entries(m: IncomingEvent, e: Map<Seq<char>, Seq<char>>) -> bool {
    e["type"@] == "event"@ && m.payload@ == e["payload"@] && authn_matches(m.properties.authn, e)
}

/// The typed response `m` is exactly the decoding of the entries `e`.
pub open spec fn response_matches_entries(m: IncomingResponse, e: Map<Seq<char>, Seq<char>>) -> bool {
    &&& e["type"@] == "response"@
    &&& m.payload@ == e["payload"@]
    &&& m.properties.correlation_data@ == e["correlation_data"@]
    &&& status_of_text(e["status"@]) == Some(m.properties.status)
}

/// Read the originating identity fields of a frame object; `None` exactly
/// when one of the three is absent.
fn authn_of_object(m: &serde_json::Map<String, serde_json::Value>) -> (r: Option<AuthnProperties>)
    ensures
        match r {
            Some(a) => authn_keys_present(obj_entries(*m)) && authn_matches(a, obj_entries(*m)),
            None => !authn_keys_present(obj_entries(*m)),
        },
{
    let agent_label = match obj_get_str(m, "agent_label") {
        Some(s) => s,
        None => {
            return None;
        },
    };
    let account_label = match obj_get_str(m, "account_label") {
        Some(s) => s,
        None => {
            return None;
        },
    };
    let audience = match obj_get_str(m, "audience") {
        Some(s) => s,
        None => {
            return None;
        },
    };
    Some(AuthnProperties { agent_label, account_label, audience })
}

/// Decode a parsed frame object. The result is pinned by the entries of
/// the object: the discriminator picks the kind, the kind's fields fill
/// the properties, and the error cases are exactly those of
/// [`frame_error`].
pub fn envelope_of_object(m: &serde_json::Map<String, serde_json::Value>) -> (r: Result<
    IncomingEnvelope,
    CodecError,
>)
    ensures
        match r {
            Ok(env) => frame_error(obj_entries(*m)) is None && envelope_matches(
                env,
                obj_entries(*m),
            ),
            Err(err) => frame_error(obj_entries(*m)) == Some(err),
        },
{
    let kind = match obj_get_str(m, "type") {
        Some(s) => s,
        None => {
            return Err(CodecError::BadKind);
        },
    };
    let payload_opt = obj_get_str(m, "payload");
    if str_eq(kind.as_str(), "event") {
        let payload = match payload_opt {
            Some(s) => s,
            None => {
                return Err(CodecError::MissingField);
            },
        };
        let authn = match authn_of_object(m) {
            Some(a) => a,
            None => {
                return Err(CodecError::MissingField);
            },
        };
        Ok(
            IncomingEnvelope {
                payload,
                properties: IncomingEnvelopeProperties::Event(IncomingEventProperties { authn }),
            },
        )
    } else if str_eq(kind.as_str(), "request") {
        let payload = match payload_opt {
            Some(s) => s,
            None => {
                return Err(CodecError::MissingField);
            },
        };
        let method = match obj_get_str(m, "method") {
            Some(s) => s,
            None => {
                return Err(CodecError::MissingField);
            },
        };
        let correlation_data = match obj_get_str(m, "correlation_data") {
            Some(s) => s,
            None => {
                return Err(CodecError::MissingField);
            },
        };
        let response_topic = match obj_get_str(m, "response_topic") {
            Some(s) => s,
            None => {
                return Err(CodecError::MissingField);
            },
        };
        let authn = match authn_of_object(m) {
            Some(a) => a,
            None => {
                return Err(CodecError::MissingField);
            },
        };
        Ok(
            IncomingEnvelope {
                payload,
                properties: IncomingEnvelopeProperties::Request(
                    IncomingRequestProperties {
                        method,
                        correlation_data,
                        response_topic,
                        authn,
                    },
                ),
            },
        )
    } else if str_eq(kind.as_str(), "response") {
        let payload = match payload_opt {
            Some(s) => s,
            None => {
                return Err(CodecError::MissingField);
            },
        };
        let correlation_data = match obj_get_str(m, "correlation_data") {
            Some(s) => s,
            None => {
                return Err(CodecError::MissingField);
            },
        };
        let status_field = match obj_get_str(m, "status") {
            Some(s) => s,
            None => {
                return Err(CodecError::MissingField);
            },
        };
        let status = match parse_status(status_field.as_str()) {
            Some(n) => n,
            None => {
                return Err(CodecError::BadStatus);
            },
        };
        Ok(
            IncomingEnvelope {
                payload,
                properties: IncomingEnvelopeProperties::Response(
                    IncomingResponseProperties { status, correlation_data },
                ),
            },
        )
    } else {
        Err(CodecError::BadKind)
    }
}

/// Decode a wire frame: parse the JSON object, then decode its entries.
/// On the canonical text of any entries `e`, the outcome is exactly the
/// outcome of decoding `e`; a text that is no JSON object fails with
/// `MalformedFrame`.
pub fn parse_envelope(text: &str) -> (r: Result<IncomingEnvelope, CodecError>)
    ensures
        forall|e: Map<Seq<char>, Seq<char>>|
            text@ == #[trigger] obj_text(e) ==> match r {
                Ok(env) => frame_error(e) is None && envelope_matches(env, e),
                Err(err) => frame_error(e) == Some(err),
            },
{
    match obj_from_text(text) {
        Some(m) => envelope_of_object(&m),
        None => Err(CodecError::MalformedFrame),
    }
}

/// Encode an outbound frame: exactly the canonical text of its wire
/// entries.
pub fn encode_envelope(payload: &str, props: &OutgoingEnvelopeProperties) -> (r: String)
    requires
        encodable(*props),
    ensures
        r@ == obj_text(wire_entries(payload@, *props)),
{
    let mut m = obj_new();
    obj_insert_str(&mut m, "payload", payload);
    match props {
        OutgoingEnvelopeProperties::Event(p) => {
            obj_insert_str(&mut m, "type", "event");
            obj_insert_str(&mut m, "agent_label", p.authn.agent_label.as_str());
            obj_insert_str(&mut m, "account_label", p.authn.account_label.as_str());
            obj_insert_str(&mut m, "audience", p.authn.audience.as_str());
        },
        OutgoingEnvelopeProperties::Request(p) => {
            obj_insert_str(&mut m, "type", "request");
            obj_insert_str(&mut m, "method", p.method.as_str());
            obj_insert_str(&mut m, "correlation_data", p.correlation_data.as_str());
            obj_insert_str(&mut m, "response_topic", p.response_topic.as_str());
            match &p.authn {
                Some(a) => {
                    obj_insert_str(&mut m, "agent_label", a.agent_label.as_str());
                    obj_insert_str(&mut m, "account_label", a.account_label.as_str());
                    obj_insert_str(&mut m, "audience", a.audience.as_str());
                },
                None => {},
            }
        },
        OutgoingEnvelopeProperties::Response(p) => {
            obj_insert_str(&mut m, "type", "response");
            obj_insert_str(&mut m, "correlation_data", p.correlation_data.as_str());
            let status = render_status(p.status);
            obj_insert_str(&mut m, "status", status.as_str());
        },
    }
    proof {
        assert(obj_entries(m) =~= wire_entries(payload@, *props));
    }
    obj_to_text(&m)
}

impl OutgoingEnvelope {
    /// The wire text of this frame.
    pub fn to_bytes(&self) -> (r: String)
        requires
            encodable(self.properties),
        ensures
            r@ == obj_text(wire_entries(self.payload@, self.properties)),
    {
        encode_envelope(self.payload.as_str(), &self.properties)
    }
}

/// The decoded counterpart of outbound properties: same kind, same fields.
pub open spec fn properties_correspond(
    inp: IncomingEnvelopeProperties,
    outp: OutgoingEnvelopeProperties,
) -> bool {
    match (inp, outp) {
        (
            IncomingEnvelopeProperties::Event(i),
            OutgoingEnvelopeProperties::Event(o),
        ) => i.authn.agent_label@ == o.authn.agent_label@ && i.authn.account_label@
            == o.authn.account_label@ && i.authn.audience@ == o.authn.audience@,
        (
            IncomingEnvelopeProperties::Request(i),
            OutgoingEnvelopeProperties::Request(o),
        ) => o.authn matches Some(oa) && i.method@ == o.method@ && i.correlation_data@
            == o.correlation_data@ && i.response_topic@ == o.response_topic@
            && i.authn.agent_label@ == oa.agent_label@ && i.authn.account_label@
            == oa.account_label@ && i.authn.audience@ == oa.audience@,
        (
            IncomingEnvelopeProperties::Response(i),
            OutgoingEnvelopeProperties::Response(o),
        ) => i.status == o.status && i.correlation_data@ == o.correlation_data@,
        _ => false,
    }
}

/// The nine wire field names are pairwise distinct: their lengths differ,
/// except `method` and `status`, which differ in their first character.
proof fn lemma_wire_keys()
    ensures
        "payload"@.len() == 7,
        "type"@.len() == 4,
        "method"@.len() == 6,
        "correlation_data"@.len() == 16,
        "response_topic"@.len() == 14,
        "agent_label"@.len() == 11,
        "account_label"@.len() == 13,
        "audience"@.len() == 8,
        "status"@.len() == 6,
        "method"@[0] == 'm',
        "status"@[0] == 's',
{
    reveal_strlit("payload");
    reveal_strlit("type");
    reveal_strlit("method");
    reveal_strlit("correlation_data");
    reveal_strlit("response_topic");
    reveal_strlit("agent_label");
    reveal_strlit("account_label");
    reveal_strlit("audience");
    reveal_strlit("status");
}

/// Law: the codec round-trips. The wire entries of an encodable frame
/// decode without error, and any envelope matching them carries the
/// original payload and the original properties. Together with the
/// contracts of `encode_envelope`, `parse_envelope` and `obj_from_text`,
/// decoding an encoded frame restores it exactly.
pub proof fn lemma_codec_round_trip(
    payload: Seq<char>,
    props: OutgoingEnvelopeProperties,
    env: IncomingEnvelope,
)
    requires
        encodable(props),
        envelope_matches(env, wire_entries(payload, props)),
    ensures
        env.payload@ == payload,
        properties_correspond(env.properties, props),
{
    lemma_wire_keys();
    reveal_strlit("event");
    reveal_strlit("request");
    reveal_strlit("response");
    let e = wire_entries(payload, props);
    assert("event"@ != "request"@ && "event"@ != "response"@ && "request"@ != "response"@) by {
        assert("event"@.len() == 5);
        assert("request"@.len() == 7);
        assert("response"@.len() == 8);
        assert("request"@[1] == 'e');
        assert("response"@[1] == 'e');
        assert("request"@[2] == 'q');
        assert("response"@[2] == 's');
    }
    match props {
        OutgoingEnvelopeProperties::Event(_) => {
            assert(e["type"@] == "event"@);
        },
        OutgoingEnvelopeProperties::Request(_) => {
            assert(e["type"@] == "request"@);
        },
        OutgoingEnvelopeProperties::Response(p) => {
            assert(e["type"@] == "response"@);
            lemma_status_fits(p.status);
        },
    }
}

/// Law: encodable wire entries decode without error.
pub proof fn lemma_wire_entries_decodable(payload: Seq<char>, props: OutgoingEnvelopeProperties)
    requires
        encodable(props),
    ensures
        frame_error(wire_entries(payload, props)) is None,
{
    lemma_wire_keys();
    reveal_strlit("event");
    reveal_strlit("request");
    reveal_strlit("response");
    assert("event"@ != "request"@ && "event"@ != "response"@ && "request"@ != "response"@) by {
        assert("event"@.len() == 5);
        assert("request"@.len() == 7);
        assert("response"@.len() == 8);
        assert("request"@[1] == 'e');
        assert("response"@[1] == 'e');
        assert("request"@[2] == 'q');
        assert("response"@[2] == 's');
    }
    match props {
        OutgoingEnvelopeProperties::Event(_) => {},
        OutgoingEnvelopeProperties::Request(_) => {},
        OutgoingEnvelopeProperties::Response(p) => {
            lemma_status_fits(p.status);
        },
    }
}

/// A valid status reads back from its rendered digits.
proof fn lemma_status_fits(n: u16)
    requires
        valid_status(n),
    ensures
        status_of_text(status_text(n as int)) == Some(n),
{
    crate::text::lemma_status_round_trip(n as int);
}

} // verus!
