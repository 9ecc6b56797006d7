//! Identities on the bus: tenant/service accounts and agent instances.
//!
//! An [`AccountId`] renders to the canonical string `label.audience`, an
//! [`AgentId`] to `label.account_label.audience`. Parsing splits at the
//! first (respectively first two) dots, so a rendered identity parses back
//! to itself exactly when its labels are dot-free; audiences may contain
//! further dots.

use vstd::prelude::*;
use vstd::string::StrSliceExecFns;
use vstd::string::StringExecFns;

use crate::errors::ParseError;

verus! {

/// No separator dot occurs in `s`.
pub open spec fn dot_free(s: Seq<char>) -> bool {
    forall|i: int| 0 <= i < s.len() ==> s[i] != '.'
}

/// Some separator dot occurs in `s`.
pub open spec fn has_dot(s: Seq<char>) -> bool {
    exists|i: int| 0 <= i < s.len() && s[i] == '.'
}

/// Two separator dots occur in `s`.
pub open spec fn has_two_dots(s: Seq<char>) -> bool {
    exists|i: int, j: int| 0 <= i < j < s.len() && s[i] == '.' && s[j] == '.'
}

/// Canonical account string: `label.audience`.
pub open spec fn account_id_text(label: Seq<char>, audience: Seq<char>) -> Seq<char> {
    label + "."@ + audience
}

/// Canonical agent string: `label.account_label.audience`.
pub open spec fn agent_id_text(
    label: Seq<char>,
    account_label: Seq<char>,
    audience: Seq<char>,
) -> Seq<char> {
    label + "."@ + account_label + "."@ + audience
}

/// A tenant or service identity.
#[derive(Clone, Debug)]
pub struct AccountId {
    pub label: String,
    pub audience: String,
}

/// One running instance of a service.
#[derive(Clone, Debug)]
pub struct AgentId {
    pub label: String,
    pub account_id: AccountId,
}

/// A broker-level shared subscription group: `label.account_label.audience`.
#[derive(Clone, Debug)]
pub struct SharedGroup {
    pub label: String,
    pub account_id: AccountId,
}

/// Carriers of an originating identity.
pub trait Authenticable {
    fn account_id(&self) -> AccountId;

    fn agent_id(&self) -> AgentId;
}

impl PartialEq for AccountId {
    fn eq(&self, other: &AccountId) -> (r: bool) {
        self.label == other.label && self.audience == other.audience
    }
}

impl vstd::std_specs::cmp::PartialEqSpecImpl for AccountId {
    open spec fn obeys_eq_spec() -> bool {
        true
    }

    open spec fn eq_spec(&self, other: &AccountId) -> bool {
        self.label@ == other.label@ && self.audience@ == other.audience@
    }
}

impl PartialEq for AgentId {
    fn eq(&self, other: &AgentId) -> (r: bool) {
        self.label == other.label && self.account_id == other.account_id
    }
}

impl vstd::std_specs::cmp::PartialEqSpecImpl for AgentId {
    open spec fn obeys_eq_spec() -> bool {
        true
    }

    open spec fn eq_spec(&self, other: &AgentId) -> bool {
        self.label@ == other.label@ && self.account_id.label@ == other.account_id.label@
            && self.account_id.audience@ == other.account_id.audience@
    }
}

/// Index of the first dot of `s`, if any: `Some(i)` points at a dot with
/// none before it; `None` means `s` has no dot.
fn find_dot(s: &str) -> (r: Option<usize>)
    ensures
        match r {
            Some(i) => i < s@.len() && s@[i as int] == '.' && forall|j: int|
                0 <= j < i ==> s@[j] != '.',
            None => !has_dot(s@),
        },
{
    let n = s.unicode_len();
    let mut i: usize = 0;
    while i < n
        invariant
            i <= n,
            n == s@.len(),
            forall|j: int| 0 <= j < i ==> s@[j] != '.',
        decreases n - i,
    {
        if s.get_char(i) == '.' {
            return Some(i);
        }
        i = i + 1;
    }
    None
}

/// Splitting a sequence at a dot reassembles it.
proof fn lemma_split_at_dot(s: Seq<char>, i: int)
    requires
        0 <= i < s.len(),
        s[i] == '.',
    ensures
        s == s.subrange(0, i) + "."@ + s.subrange(i + 1, s.len() as int),
{
    reveal_strlit(".");
    assert(s =~= s.subrange(0, i) + "."@ + s.subrange(i + 1, s.len() as int));
}

/// Round trip of the canonical account form: a string decomposes into
/// `label.audience` with a dot-free label in at most one way, so parsing a
/// rendered account id restores its parts.
pub proof fn lemma_account_id_round_trip(
    label: Seq<char>,
    audience: Seq<char>,
    label2: Seq<char>,
    audience2: Seq<char>,
)
    requires
        dot_free(label),
        dot_free(label2),
        account_id_text(label, audience) == account_id_text(label2, audience2),
    ensures
        label2 == label,
        audience2 == audience,
{
    reveal_strlit(".");
    let t = account_id_text(label, audience);
    assert(t.len() == label.len() + 1 + audience.len());
    assert(t.len() == label2.len() + 1 + audience2.len());
    if label.len() < label2.len() {
        assert(t[label.len() as int] == '.');
        assert(t[label.len() as int] == label2[label.len() as int]);
        assert(false);
    }
    if label2.len() < label.len() {
        assert(t[label2.len() as int] == '.');
        assert(t[label2.len() as int] == label[label2.len() as int]);
        assert(false);
    }
    assert(label2 =~= label) by {
        assert(forall|k: int| 0 <= k < label.len() ==> label[k] == t[k] && label2[k] == t[k]);
    }
    assert(audience2 =~= audience) by {
        assert(forall|k: int|
            0 <= k < audience.len() ==> audience[k] == t[label.len() + 1 + k] && audience2[k] == t[
                label.len() + 1 + k
            ]);
    }
}

/// Round trip of the canonical agent form: with dot-free agent and account
/// labels the decomposition at the first two dots is unique.
pub proof fn lemma_agent_id_round_trip(
    label: Seq<char>,
    account_label: Seq<char>,
    audience: Seq<char>,
    label2: Seq<char>,
    account_label2: Seq<char>,
    audience2: Seq<char>,
)
    requires
        dot_free(label),
        dot_free(account_label),
        dot_free(label2),
        dot_free(account_label2),
        agent_id_text(label, account_label, audience) == agent_id_text(
            label2,
            account_label2,
            audience2,
        ),
    ensures
        label2 == label,
        account_label2 == account_label,
        audience2 == audience,
{
    assert(agent_id_text(label, account_label, audience) == account_id_text(
        label,
        account_id_text(account_label, audience),
    )) by {
        assert(agent_id_text(label, account_label, audience) =~= account_id_text(
            label,
            account_id_text(account_label, audience),
        ));
    }
    assert(agent_id_text(label2, account_label2, audience2) == account_id_text(
        label2,
        account_id_text(account_label2, audience2),
    )) by {
        assert(agent_id_text(label2, account_label2, audience2) =~= account_id_text(
            label2,
            account_id_text(account_label2, audience2),
        ));
    }
    lemma_account_id_round_trip(
        label,
        account_id_text(account_label, audience),
        label2,
        account_id_text(account_label2, audience2),
    );
    lemma_account_id_round_trip(account_label, audience, account_label2, audience2);
}

/// The unique `(label, audience)` decomposition of a canonical account
/// string; meaningful when one with a dot-free label exists.
pub open spec fn account_parts(s: Seq<char>) -> (Seq<char>, Seq<char>) {
    choose|p: (Seq<char>, Seq<char>)| dot_free(p.0) && s == account_id_text(p.0, p.1)
}

/// The unique `(label, account_label, audience)` decomposition of a
/// canonical agent string; meaningful when one with dot-free labels exists.
pub open spec fn agent_parts(s: Seq<char>) -> (Seq<char>, Seq<char>, Seq<char>) {
    choose|p: (Seq<char>, Seq<char>, Seq<char>)|
        dot_free(p.0) && dot_free(p.1) && s == agent_id_text(p.0, p.1, p.2)
}

/// The canonical text of an account with a dot-free label decomposes back
/// into exactly its parts.
pub proof fn lemma_account_parts(a: AccountId)
    requires
        dot_free(a.label@),
    ensures
        account_parts(account_id_text(a.label@, a.audience@)) == (a.label@, a.audience@),
{
    let s = account_id_text(a.label@, a.audience@);
    let w = (a.label@, a.audience@);
    assert(dot_free(w.0) && s == account_id_text(w.0, w.1));
    let p = account_parts(s);
    assert(dot_free(p.0) && s == account_id_text(p.0, p.1));
    lemma_account_id_round_trip(p.0, p.1, w.0, w.1);
    assert(p == w);
}

/// The canonical text of an agent with dot-free labels decomposes back
/// into exactly its parts.
pub proof fn lemma_agent_parts(g: AgentId)
    requires
        dot_free(g.label@),
        dot_free(g.account_id.label@),
    ensures
        agent_parts(g.text()) == (g.label@, g.account_id.label@, g.account_id.audience@),
{
    let s = g.text();
    let w = (g.label@, g.account_id.label@, g.account_id.audience@);
    assert(dot_free(w.0) && dot_free(w.1) && s == agent_id_text(w.0, w.1, w.2));
    let p = agent_parts(s);
    assert(dot_free(p.0) && dot_free(p.1) && s == agent_id_text(p.0, p.1, p.2));
    lemma_agent_id_round_trip(p.0, p.1, p.2, w.0, w.1, w.2);
    assert(p == w);
}

impl AccountId {
    /// Build an account id from its parts.
    pub fn new(label: &str, audience: &str) -> (r: AccountId)
        ensures
            r.label@ == label@,
            r.audience@ == audience@,
    {
        AccountId { label: label.to_owned(), audience: audience.to_owned() }
    }

    /// The tenant audience part.
    pub fn audience(&self) -> (r: &str)
        ensures
            r@ == self.audience@,
    {
        self.audience.as_str()
    }

    /// The service label part.
    pub fn label(&self) -> (r: &str)
        ensures
            r@ == self.label@,
    {
        self.label.as_str()
    }

    /// Render to the canonical `label.audience` string.
    pub fn render(&self) -> (r: String)
        ensures
            r@ == account_id_text(self.label@, self.audience@),
    {
        let mut r = String::from_str(self.label.as_str());
        r.append(".");
        r.append(self.audience.as_str());
        r
    }

    /// Parse a canonical `label.audience` string: the label is everything
    /// before the first dot. Fails exactly on strings without a dot.
    pub fn parse(s: &str) -> (r: Result<AccountId, ParseError>)
        ensures
            match r {
                Ok(a) => has_dot(s@) && dot_free(a.label@) && s@ == account_id_text(
                    a.label@,
                    a.audience@,
                ),
                Err(e) => e == ParseError::BadAccountId && !has_dot(s@),
            },
    {
        let n = s.unicode_len();
        match find_dot(s) {
            Some(i) => {
                let label = s.substring_char(0, i).to_owned();
                let audience = s.substring_char(i + 1, n).to_owned();
                proof {
                    lemma_split_at_dot(s@, i as int);
                    assert(has_dot(s@));
                }
                Ok(AccountId { label, audience })
            },
            None => Err(ParseError::BadAccountId),
        }
    }
}

impl AgentId {
    /// Build an agent id from its instance label and owning account.
    pub fn new(label: &str, account_id: AccountId) -> (r: AgentId)
        ensures
            r.label@ == label@,
            r.account_id == account_id,
    {
        AgentId { label: label.to_owned(), account_id }
    }

    /// The owning account.
    pub fn account_id(&self) -> (r: &AccountId)
        ensures
            r == &self.account_id,
    {
        &self.account_id
    }

    /// The instance label part.
    pub fn label(&self) -> (r: &str)
        ensures
            r@ == self.label@,
    {
        self.label.as_str()
    }

    /// Canonical text of this agent id.
    pub open spec fn text(&self) -> Seq<char> {
        agent_id_text(self.label@, self.account_id.label@, self.account_id.audience@)
    }

    /// Render to the canonical `label.account_label.audience` string.
    pub fn render(&self) -> (r: String)
        ensures
            r@ == self.text(),
    {
        let mut r = String::from_str(self.label.as_str());
        r.append(".");
        r.append(self.account_id.label.as_str());
        r.append(".");
        r.append(self.account_id.audience.as_str());
        proof {
            assert(r@ =~= self.text());
        }
        r
    }

    /// Parse a canonical `label.account_label.audience` string: split at the
    /// first two dots. Fails exactly on strings with fewer than two dots.
    pub fn parse(s: &str) -> (r: Result<AgentId, ParseError>)
        ensures
            match r {
                Ok(g) => has_two_dots(s@) && dot_free(g.label@) && dot_free(g.account_id.label@)
                    && s@ == g.text(),
                Err(e) => e == ParseError::BadAgentId && !has_two_dots(s@),
            },
    {
        let n = s.unicode_len();
        match find_dot(s) {
            Some(i) => {
                let rest = s.substring_char(i + 1, n);
                let m = rest.unicode_len();
                match find_dot(rest) {
                    Some(k) => {
                        let label = s.substring_char(0, i).to_owned();
                        let account_label = rest.substring_char(0, k).to_owned();
                        let audience = rest.substring_char(k + 1, m).to_owned();
                        let g = AgentId {
                            label,
                            account_id: AccountId { label: account_label, audience },
                        };
                        proof {
                            lemma_split_at_dot(s@, i as int);
                            lemma_split_at_dot(rest@, k as int);
                            assert(s@ =~= g.text());
                            assert(s@[i as int] == '.');
                            assert(s@[i + 1 + k] == '.');
                            assert(has_two_dots(s@));
                        }
                        Ok(g)
                    },
                    None => {
                        proof {
                            lemma_no_second_dot(s@, i as int, rest@);
                        }
                        Err(ParseError::BadAgentId)
                    },
                }
            },
            None => {
                proof {
                    assert(!has_two_dots(s@));
                }
                Err(ParseError::BadAgentId)
            },
        }
    }
}

/// If the first dot of `s` sits at `i` and the remainder after it holds no
/// dot, then `s` holds no two dots.
proof fn lemma_no_second_dot(s: Seq<char>, i: int, rest: Seq<char>)
    requires
        0 <= i < s.len(),
        s[i] == '.',
        forall|j: int| 0 <= j < i ==> s[j] != '.',
        rest == s.subrange(i + 1, s.len() as int),
        !has_dot(rest),
    ensures
        !has_two_dots(s),
{
    if has_two_dots(s) {
        let (p, q) = choose|p: int, q: int|
            0 <= p < q < s.len() && s[p] == '.' && s[q] == '.';
        if q <= i {
            assert(s[p] != '.');
        } else {
            assert(rest[q - i - 1] == '.');
            assert(has_dot(rest));
        }
        assert(false);
    }
}

impl SharedGroup {
    /// Build a shared group from its parts.
    pub fn new(label: &str, account_id: AccountId) -> (r: SharedGroup)
        ensures
            r.label@ == label@,
            r.account_id == account_id,
    {
        SharedGroup { label: label.to_owned(), account_id }
    }

    /// Canonical text of this group: `label.account_label.audience`.
    pub open spec fn text(&self) -> Seq<char> {
        agent_id_text(self.label@, self.account_id.label@, self.account_id.audience@)
    }

    /// Render to the canonical group string.
    pub fn render(&self) -> (r: String)
        ensures
            r@ == self.text(),
    {
        let mut r = String::from_str(self.label.as_str());
        r.append(".");
        r.append(self.account_id.label.as_str());
        r.append(".");
        r.append(self.account_id.audience.as_str());
        proof {
            assert(r@ =~= self.text());
        }
        r
    }

    /// Parse a canonical group string: the group label is everything before
    /// the first dot, the rest is an account id. Fails exactly on strings
    /// with fewer than two dots.
    pub fn parse(s: &str) -> (r: Result<SharedGroup, ParseError>)
        ensures
            match r {
                Ok(g) => has_two_dots(s@) && dot_free(g.label@) && dot_free(g.account_id.label@)
                    && s@ == g.text(),
                Err(e) => e == ParseError::BadSharedGroup && !has_two_dots(s@),
            },
    {
        match AgentId::parse(s) {
            Ok(g) => Ok(SharedGroup { label: g.label, account_id: g.account_id }),
            Err(_) => Err(ParseError::BadSharedGroup),
        }
    }
}

} // verus!
