//! The event forwarder: inbound broadcast events become outbound HTTP
//! posts to tenant webhooks.
//!
//! The tenant audience is read from the event's topic, which must end in
//! `audiences/<audience>/events`; the audience selects the tenant's
//! routing entry, whose allow-list of source accounts is the sole
//! authorization boundary. An event that fails any step is dropped with a
//! [`ForwardError`]; nothing is retried and no caller is answered.

use vstd::prelude::*;
use vstd::string::StrSliceExecFns;
use vstd::string::StringExecFns;

use crate::envelope::IncomingEvent;
use crate::errors::ForwardError;
use crate::headers::Headers;
use crate::headers::event_headers_match;
use crate::ids::AccountId;
use crate::strmap::StrMap;
use crate::text::free_of;
use crate::text::rfind_char_before;
use crate::text::str_eq;

verus! {

/// No path separator occurs in `s`.
pub open spec fn slash_free(s: Seq<char>) -> bool {
    free_of(s, '/')
}

/// `t` decomposes as `<prefix>audiences/<aud>/events` where the prefix is
/// empty or ends at a component boundary and the audience is one nonempty
/// component.
pub open spec fn events_topic_form(t: Seq<char>, prefix: Seq<char>, aud: Seq<char>) -> bool {
    &&& t == prefix + "audiences/"@ + aud + "/events"@
    &&& prefix.len() == 0 || prefix.last() == '/'
    &&& aud.len() > 0
    &&& slash_free(aud)
}

/// Some audience component can be read from `t`.
pub open spec fn is_events_topic(t: Seq<char>) -> bool {
    exists|prefix: Seq<char>, aud: Seq<char>| events_topic_form(t, prefix, aud)
}

/// The positions a decomposition pins down: the `/events` suffix, the
/// slash closing `audiences/`, the audience between them free of slashes,
/// and `audiences` sitting right before it.
proof fn lemma_events_positions(t: Seq<char>, prefix: Seq<char>, aud: Seq<char>)
    requires
        events_topic_form(t, prefix, aud),
    ensures
        t.len() == prefix.len() + 17 + aud.len(),
        t.len() >= 18,
        t.subrange(t.len() - 7, t.len() as int) == "/events"@,
        t[prefix.len() + 9int] == '/',
        prefix.len() + 9 < t.len() - 7,
        forall|j: int| prefix.len() + 10 <= j < t.len() - 7 ==> t[j] != '/',
        aud == t.subrange(prefix.len() + 10int, t.len() - 7),
        t.subrange(prefix.len() as int, prefix.len() + 9int) == "audiences"@,
        prefix.len() == 0 || t[prefix.len() - 1] == '/',
{
    reveal_strlit("audiences/");
    reveal_strlit("audiences");
    reveal_strlit("/events");
    assert("audiences/"@.len() == 10);
    assert("audiences"@.len() == 9);
    assert("/events"@.len() == 7);
    let n = t.len() as int;
    let pl = prefix.len() as int;
    assert(t.subrange(n - 7, n) =~= "/events"@);
    assert(t[pl + 9] == "audiences/"@[9]);
    assert forall|j: int| pl + 10 <= j < n - 7 implies t[j] != '/' by {
        assert(t[j] == aud[j - pl - 10]);
    }
    assert(aud =~= t.subrange(pl + 10, n - 7));
    assert(t.subrange(pl, pl + 9) =~= "audiences"@);
    if pl > 0 {
        assert(t[pl - 1] == prefix[pl - 1]);
    }
}

/// Read the tenant audience from an event topic. Succeeds exactly on
/// topics of the form `<prefix>audiences/<audience>/events`, yielding that
/// unique audience; any other shape is a routing error, and no output is
/// produced.
pub fn extract_audience(topic: &str) -> (r: Result<String, ForwardError>)
    ensures
        match r {
            Ok(aud) => {
                &&& is_events_topic(topic@)
                &&& aud@.len() > 0
                &&& slash_free(aud@)
                &&& forall|prefix: Seq<char>, a: Seq<char>|
                    events_topic_form(topic@, prefix, a) ==> a == aud@
            },
            Err(e) => e == ForwardError::BadTopic && !is_events_topic(topic@),
        },
{
    let n = topic.unicode_len();
    if n < 18 {
        proof {
            if is_events_topic(topic@) {
                let (prefix, a) = choose|prefix: Seq<char>, a: Seq<char>|
                    events_topic_form(topic@, prefix, a);
                lemma_events_positions(topic@, prefix, a);
            }
        }
        return Err(ForwardError::BadTopic);
    }
    let suffix = topic.substring_char(n - 7, n);
    if !str_eq(suffix, "/events") {
        proof {
            if is_events_topic(topic@) {
                let (prefix, a) = choose|prefix: Seq<char>, a: Seq<char>|
                    events_topic_form(topic@, prefix, a);
                lemma_events_positions(topic@, prefix, a);
            }
        }
        return Err(ForwardError::BadTopic);
    }
    let q = match rfind_char_before(topic, '/', n - 7) {
        Some(i) => i,
        None => {
            proof {
                if is_events_topic(topic@) {
                    let (prefix, a) = choose|prefix: Seq<char>, a: Seq<char>|
                        events_topic_form(topic@, prefix, a);
                    lemma_events_positions(topic@, prefix, a);
                }
            }
            return Err(ForwardError::BadTopic);
        },
    };
    if q + 1 == n - 7 || q < 9 {
        proof {
            if is_events_topic(topic@) {
                let (prefix, a) = choose|prefix: Seq<char>, a: Seq<char>|
                    events_topic_form(topic@, prefix, a);
                lemma_events_positions(topic@, prefix, a);
            }
        }
        return Err(ForwardError::BadTopic);
    }
    let marker = topic.substring_char(q - 9, q);
    if !str_eq(marker, "audiences") {
        proof {
            if is_events_topic(topic@) {
                let (prefix, a) = choose|prefix: Seq<char>, a: Seq<char>|
                    events_topic_form(topic@, prefix, a);
                lemma_events_positions(topic@, prefix, a);
            }
        }
        return Err(ForwardError::BadTopic);
    }
    if q > 9 && topic.get_char(q - 10) != '/' {
        proof {
            if is_events_topic(topic@) {
                let (prefix, a) = choose|prefix: Seq<char>, a: Seq<char>|
                    events_topic_form(topic@, prefix, a);
                lemma_events_positions(topic@, prefix, a);
            }
        }
        return Err(ForwardError::BadTopic);
    }
    let aud = topic.substring_char(q + 1, n - 7).to_owned();
    proof {
        reveal_strlit("audiences/");
        reveal_strlit("audiences");
        reveal_strlit("/events");
        let t = topic@;
        let qi = q as int;
        let ni = n as int;
        let prefix = t.subrange(0, qi - 9);
        assert(events_topic_form(t, prefix, aud@)) by {
            assert("audiences/"@.len() == 10);
            assert("audiences"@.len() == 9);
            assert("/events"@.len() == 7);
            let whole = prefix + "audiences/"@ + aud@ + "/events"@;
            assert(aud@.len() == ni - 7 - (qi + 1));
            assert(whole.len() == t.len());
            assert forall|i: int| 0 <= i < t.len() implies t[i] == whole[i] by {
                if i < qi - 9 {
                } else if i < qi {
                    assert(t[i] == t.subrange(qi - 9, qi)[i - (qi - 9)]);
                    assert("audiences/"@[i - (qi - 9)] == "audiences"@[i - (qi - 9)]);
                } else if i == qi {
                    assert("audiences/"@[9] == '/');
                } else if i < ni - 7 {
                    assert(t[i] == t.subrange(qi + 1, ni - 7)[i - qi - 1]);
                } else {
                    assert(t[i] == t.subrange(ni - 7, ni)[i - (ni - 7)]);
                }
            }
            assert(t =~= whole);
        }
        assert forall|p2: Seq<char>, a2: Seq<char>| events_topic_form(t, p2, a2) implies a2
            == aud@ by {
            lemma_events_positions(t, p2, a2);
            assert(p2.len() + 9 <= q);
            assert(q <= p2.len() + 9);
            assert(a2 =~= aud@);
        }
    }
    Ok(aud)
}

/// One tenant's event routing: the webhook callback and the allow-listed
/// source accounts.
#[derive(Clone, Debug)]
pub struct TenantConfig {
    pub callback: String,
    pub sources: Vec<AccountId>,
}

impl TenantConfig {
    /// The webhook callback URL.
    pub fn callback(&self) -> (r: &str)
        ensures
            r@ == self.callback@,
    {
        self.callback.as_str()
    }

    /// The allow-listed source accounts.
    pub fn sources(&self) -> (r: &Vec<AccountId>)
        ensures
            r == &self.sources,
    {
        &self.sources
    }
}

/// Some allow-listed account has this label and audience.
pub open spec fn allows(sources: Seq<AccountId>, label: Seq<char>, audience: Seq<char>) -> bool {
    exists|i: int|
        0 <= i < sources.len() && sources[i].label@ == label && sources[i].audience@ == audience
}

/// Whether `account` is in the allow-list.
fn contains_account(sources: &Vec<AccountId>, account: &AccountId) -> (r: bool)
    ensures
        r == allows(sources@, account.label@, account.audience@),
{
    let n = sources.len();
    let mut i: usize = 0;
    while i < n
        invariant
            i <= n,
            n == sources@.len(),
            forall|j: int|
                0 <= j < i ==> !(sources@[j].label@ == account.label@ && sources@[j].audience@
                    == account.audience@),
        decreases n - i,
    {
        if &sources[i] == account {
            return true;
        }
        i = i + 1;
    }
    false
}

/// An outbound webhook post: the event payload verbatim, its headers, the
/// tenant callback and bearer token.
#[derive(Clone, Debug)]
pub struct OutgoingMessage {
    pub payload: String,
    pub headers: Headers,
    pub uri: String,
    pub token: String,
}

impl OutgoingMessage {
    /// Assemble an outbound post.
    pub fn new(payload: &str, headers: Headers, uri: &str, token: &str) -> (r: OutgoingMessage)
        ensures
            r.payload@ == payload@,
            r.headers == headers,
            r.uri@ == uri@,
            r.token@ == token@,
    {
        OutgoingMessage {
            payload: payload.to_owned(),
            headers,
            uri: uri.to_owned(),
            token: token.to_owned(),
        }
    }
}

/// A successful routing of `inev` on `topic` to the post `out`: the topic
/// names an audience with a routing entry and a token, the originating
/// account is allow-listed, and the post carries the payload verbatim to
/// the tenant's callback under its token.
pub open spec fn forward_ok_spec(
    s: &State,
    topic: Seq<char>,
    inev: IncomingEvent,
    out: OutgoingMessage,
) -> bool {
    &&& is_events_topic(topic)
    &&& forall|prefix: Seq<char>, aud: Seq<char>|
        events_topic_form(topic, prefix, aud) ==> {
            &&& s.config().contains_key(aud)
            &&& allows(
                s.config()[aud].sources@,
                inev.properties.authn.account_label@,
                inev.properties.authn.audience@,
            )
            &&& s.tokens().contains_key(aud)
            &&& out.payload@ == inev.payload@
            &&& out.uri@ == s.config()[aud].callback@
            &&& out.token@ == s.tokens()[aud]@
            &&& event_headers_match(out.headers, inev.properties)
        }
}

/// The exact step at which `inev` on `topic` is dropped with error `e`.
pub open spec fn forward_err_spec(
    s: &State,
    topic: Seq<char>,
    inev: IncomingEvent,
    e: ForwardError,
) -> bool {
    match e {
        ForwardError::BadTopic => !is_events_topic(topic),
        ForwardError::UnknownAudience => is_events_topic(topic) && forall|
            prefix: Seq<char>,
            aud: Seq<char>,
        |
            events_topic_form(topic, prefix, aud) ==> !s.config().contains_key(aud),
        ForwardError::SourceNotAllowed => is_events_topic(topic) && forall|
            prefix: Seq<char>,
            aud: Seq<char>,
        |
            events_topic_form(topic, prefix, aud) ==> s.config().contains_key(aud) && !allows(
                s.config()[aud].sources@,
                inev.properties.authn.account_label@,
                inev.properties.authn.audience@,
            ),
        ForwardError::MissingToken => is_events_topic(topic) && forall|
            prefix: Seq<char>,
            aud: Seq<char>,
        |
            events_topic_form(topic, prefix, aud) ==> s.config().contains_key(aud)
                && !s.tokens().contains_key(aud),
    }
}

/// The forwarder's read-mostly state: per-audience routing and the bearer
/// tokens minted once at startup.
#[derive(Debug)]
pub struct State {
    config: StrMap<TenantConfig>,
    tokens: StrMap<String>,
}

impl State {
    /// Well-formed: both maps hold each audience at most once.
    pub closed spec fn wf(&self) -> bool {
        self.config.wf() && self.tokens.wf()
    }

    /// The routing entry per audience.
    pub closed spec fn config(&self) -> Map<Seq<char>, TenantConfig> {
        self.config@
    }

    /// The bearer token per audience.
    pub closed spec fn tokens(&self) -> Map<Seq<char>, String> {
        self.tokens@
    }

    /// Assemble the forwarder state.
    pub fn new(config: StrMap<TenantConfig>, tokens: StrMap<String>) -> (r: State)
        requires
            config.wf(),
            tokens.wf(),
        ensures
            r.wf(),
            r.config() == config@,
            r.tokens() == tokens@,
    {
        State { config, tokens }
    }

    /// Route one inbound event. Succeeds exactly when the topic names an
    /// audience, the audience has a routing entry and a token, and the
    /// event's originating account is allow-listed; the post then carries
    /// the payload verbatim to the tenant's callback under its token. Every
    /// failure names the step that rejected the event.
    pub fn handle(&self, topic: &str, inev: &IncomingEvent) -> (r: Result<
        OutgoingMessage,
        ForwardError,
    >)
        requires
            self.wf(),
        ensures
            match r {
                Ok(out) => forward_ok_spec(self, topic@, *inev, out),
                Err(e) => forward_err_spec(self, topic@, *inev, e),
            },
    {
        let audience = match extract_audience(topic) {
            Ok(a) => a,
            Err(e) => {
                return Err(e);
            },
        };
        let config = match self.config.get(audience.as_str()) {
            Some(c) => c,
            None => {
                return Err(ForwardError::UnknownAudience);
            },
        };
        let from_account = inev.properties.authn.to_account_id();
        if !contains_account(&config.sources, &from_account) {
            return Err(ForwardError::SourceNotAllowed);
        }
        let token = match self.tokens.get(audience.as_str()) {
            Some(t) => t,
            None => {
                return Err(ForwardError::MissingToken);
            },
        };
        let headers = Headers::of_event(&inev.properties);
        Ok(
            OutgoingMessage::new(
                inev.payload.as_str(),
                headers,
                config.callback.as_str(),
                token.as_str(),
            ),
        )
    }
}

} // verus!
