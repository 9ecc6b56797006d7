//! Topic addressing: from identities and routing intent to wire topics.
//!
//! Every topic is a pure function of the sender's identity and the
//! destination or source variant. A variant incompatible with the message
//! kind is rejected with an [`AddressingError`]; the contracts state the
//! rejection as an if-and-only-if, so an illegal combination can never
//! produce a topic.

use vstd::prelude::*;
use vstd::string::StringExecFns;

use crate::errors::AddressingError;
use crate::ids::AccountId;
use crate::ids::AgentId;
use crate::ids::SharedGroup;
use crate::ids::account_id_text;

verus! {

/// Routing intent of an outgoing message.
#[derive(Clone, Debug)]
pub enum Destination {
    /// All subscribers of a tenant-scoped topic, named by its suffix.
    Broadcast(String),
    /// Any instance of the account's shared group.
    Multicast(AccountId),
    /// Exactly one running instance.
    Unicast(AgentId),
}

/// Routing intent of a subscription.
#[derive(Clone, Debug)]
pub enum Source {
    /// Tenant-scoped events of the account, named by a topic suffix.
    Broadcast(AccountId, String),
    /// Requests load-balanced over the own account's group.
    Multicast,
    /// Messages addressed to this instance from the account, or from any
    /// account when `None`.
    Unicast(Option<AccountId>),
}

/// Canonical text of an account: `label.audience`.
pub open spec fn account_text(a: AccountId) -> Seq<char> {
    account_id_text(a.label@, a.audience@)
}

/// Broadcast topic: `apps/<account>/api/v1/<suffix>`.
pub open spec fn broadcast_topic(account: Seq<char>, suffix: Seq<char>) -> Seq<char> {
    "apps/"@ + account + "/api/v1/"@ + suffix
}

/// Unicast topic: `agents/<agent>/api/v1/in/<account>`.
pub open spec fn unicast_topic(agent: Seq<char>, account: Seq<char>) -> Seq<char> {
    "agents/"@ + agent + "/api/v1/in/"@ + account
}

/// Unicast subscription filter over every sending account:
/// `agents/<agent>/api/v1/in/+`.
pub open spec fn unicast_any_topic(agent: Seq<char>) -> Seq<char> {
    "agents/"@ + agent + "/api/v1/in/+"@
}

/// Multicast topic: `agents/<sender agent>/api/v1/out/<account>`.
pub open spec fn multicast_topic(agent: Seq<char>, account: Seq<char>) -> Seq<char> {
    "agents/"@ + agent + "/api/v1/out/"@ + account
}

/// Multicast subscription filter: `agents/+/api/v1/out/<own account>`.
pub open spec fn multicast_sub_topic(account: Seq<char>) -> Seq<char> {
    "agents/+/api/v1/out/"@ + account
}

/// Shared-group wrap of a filter: `$share/<group>/<filter>`.
pub open spec fn shared_topic(group: Seq<char>, filter: Seq<char>) -> Seq<char> {
    "$share/"@ + group + "/"@ + filter
}

/// Build the broadcast topic of `account` with `suffix`.
pub(crate) fn build_broadcast_topic(account: &AccountId, suffix: &str) -> (r: String)
    ensures
        r@ == broadcast_topic(account_text(*account), suffix@),
{
    let mut t = String::from_str("apps/");
    t.append(account.label());
    t.append(".");
    t.append(account.audience());
    t.append("/api/v1/");
    t.append(suffix);
    proof {
        assert(t@ =~= broadcast_topic(account_text(*account), suffix@));
    }
    t
}

/// Build the unicast topic of `agent` for messages from `account`.
pub(crate) fn build_unicast_topic(agent: &AgentId, account: &AccountId) -> (r: String)
    ensures
        r@ == unicast_topic(agent.text(), account_text(*account)),
{
    let mut t = String::from_str("agents/");
    t.append(agent.label());
    t.append(".");
    t.append(agent.account_id().label());
    t.append(".");
    t.append(agent.account_id().audience());
    t.append("/api/v1/in/");
    t.append(account.label());
    t.append(".");
    t.append(account.audience());
    proof {
        assert(t@ =~= unicast_topic(agent.text(), account_text(*account)));
    }
    t
}

/// Build the unicast filter of `agent` over every sending account.
pub(crate) fn build_unicast_any_topic(agent: &AgentId) -> (r: String)
    ensures
        r@ == unicast_any_topic(agent.text()),
{
    let mut t = String::from_str("agents/");
    t.append(agent.label());
    t.append(".");
    t.append(agent.account_id().label());
    t.append(".");
    t.append(agent.account_id().audience());
    t.append("/api/v1/in/+");
    proof {
        assert(t@ =~= unicast_any_topic(agent.text()));
    }
    t
}

/// Build the multicast topic of `agent` toward `account`.
pub(crate) fn build_multicast_topic(agent: &AgentId, account: &AccountId) -> (r: String)
    ensures
        r@ == multicast_topic(agent.text(), account_text(*account)),
{
    let mut t = String::from_str("agents/");
    t.append(agent.label());
    t.append(".");
    t.append(agent.account_id().label());
    t.append(".");
    t.append(agent.account_id().audience());
    t.append("/api/v1/out/");
    t.append(account.label());
    t.append(".");
    t.append(account.audience());
    proof {
        assert(t@ =~= multicast_topic(agent.text(), account_text(*account)));
    }
    t
}

/// Build the multicast subscription filter of the own `account`.
pub(crate) fn build_multicast_sub_topic(account: &AccountId) -> (r: String)
    ensures
        r@ == multicast_sub_topic(account_text(*account)),
{
    let mut t = String::from_str("agents/+/api/v1/out/");
    t.append(account.label());
    t.append(".");
    t.append(account.audience());
    proof {
        assert(t@ =~= multicast_sub_topic(account_text(*account)));
    }
    t
}

/// The filter an event subscription resolves to, when its source is legal:
/// events are consumed from broadcast topics only.
pub open spec fn event_sub_topic_of(source: Source) -> Option<Seq<char>> {
    match source {
        Source::Broadcast(a, uri) => Some(broadcast_topic(account_text(a), uri@)),
        _ => None,
    }
}

/// The filter a request subscription resolves to, when its source is
/// legal: the own unicast inbox (from one account or from any), or the
/// own account's multicast group; never a broadcast.
pub open spec fn request_sub_topic_of(source: Source, agent: AgentId) -> Option<Seq<char>> {
    match source {
        Source::Unicast(Some(a)) => Some(unicast_topic(agent.text(), account_text(a))),
        Source::Unicast(None) => Some(unicast_any_topic(agent.text())),
        Source::Multicast => Some(multicast_sub_topic(account_text(agent.account_id))),
        _ => None,
    }
}

/// The filter a response subscription resolves to, when its source is
/// legal: responses arrive only on the own unicast inbox.
pub open spec fn response_sub_topic_of(source: Source, agent: AgentId) -> Option<Seq<char>> {
    match source {
        Source::Unicast(Some(a)) => Some(unicast_topic(agent.text(), account_text(a))),
        Source::Unicast(None) => Some(unicast_any_topic(agent.text())),
        _ => None,
    }
}

/// Subscription to inbound broadcast events.
pub struct EventSubscription {
    pub source: Source,
}

impl EventSubscription {
    /// Wrap an event source.
    pub fn new(source: Source) -> (r: EventSubscription)
        ensures
            r.source == source,
    {
        EventSubscription { source }
    }

    /// Resolve the subscription filter; fails exactly when the source is
    /// not a broadcast.
    pub fn subscription_topic(&self, agent_id: &AgentId) -> (r: Result<String, AddressingError>)
        ensures
            match r {
                Ok(t) => event_sub_topic_of(self.source) == Some(t@),
                Err(e) => e == AddressingError::SourceKindMismatch && event_sub_topic_of(
                    self.source,
                ) is None,
            },
    {
        match &self.source {
            Source::Broadcast(a, uri) => Ok(build_broadcast_topic(a, uri.as_str())),
            _ => Err(AddressingError::SourceKindMismatch),
        }
    }
}

/// Subscription to inbound requests.
pub struct RequestSubscription {
    pub source: Source,
}

impl RequestSubscription {
    /// Wrap a request source.
    pub fn new(source: Source) -> (r: RequestSubscription)
        ensures
            r.source == source,
    {
        RequestSubscription { source }
    }

    /// Resolve the subscription filter; fails exactly when the source is a
    /// broadcast.
    pub fn subscription_topic(&self, agent_id: &AgentId) -> (r: Result<String, AddressingError>)
        ensures
            match r {
                Ok(t) => request_sub_topic_of(self.source, *agent_id) == Some(t@),
                Err(e) => e == AddressingError::SourceKindMismatch && request_sub_topic_of(
                    self.source,
                    *agent_id,
                ) is None,
            },
    {
        match &self.source {
            Source::Unicast(Some(a)) => Ok(build_unicast_topic(agent_id, a)),
            Source::Unicast(None) => Ok(build_unicast_any_topic(agent_id)),
            Source::Multicast => Ok(build_multicast_sub_topic(agent_id.account_id())),
            _ => Err(AddressingError::SourceKindMismatch),
        }
    }
}

/// Subscription to inbound responses.
pub struct ResponseSubscription {
    pub source: Source,
}

impl ResponseSubscription {
    /// Wrap a response source.
    pub fn new(source: Source) -> (r: ResponseSubscription)
        ensures
            r.source == source,
    {
        ResponseSubscription { source }
    }

    /// Resolve the subscription filter; fails exactly when the source is
    /// not a unicast.
    pub fn subscription_topic(&self, agent_id: &AgentId) -> (r: Result<String, AddressingError>)
        ensures
            match r {
                Ok(t) => response_sub_topic_of(self.source, *agent_id) == Some(t@),
                Err(e) => e == AddressingError::SourceKindMismatch && response_sub_topic_of(
                    self.source,
                    *agent_id,
                ) is None,
            },
    {
        match &self.source {
            Source::Unicast(Some(a)) => Ok(build_unicast_topic(agent_id, a)),
            Source::Unicast(None) => Ok(build_unicast_any_topic(agent_id)),
            _ => Err(AddressingError::SourceKindMismatch),
        }
    }
}

/// Wrap `filter` for load-balanced delivery across `group`.
pub fn wrap_shared(group: &SharedGroup, filter: &str) -> (r: String)
    ensures
        r@ == shared_topic(group.text(), filter@),
{
    let mut t = String::from_str("$share/");
    t.append(group.label.as_str());
    t.append(".");
    t.append(group.account_id.label.as_str());
    t.append(".");
    t.append(group.account_id.audience.as_str());
    t.append("/");
    t.append(filter);
    proof {
        assert(t@ =~= shared_topic(group.text(), filter@));
    }
    t
}

} // verus!
