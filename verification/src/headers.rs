//! Bus message properties exposed as HTTP headers.
//!
//! Selected properties of a bus message travel onward as HTTP headers. The
//! raw name/value pairs are kept as-is; for the HTTP side each name gets
//! the `gateway-` prefix with underscores turned into dashes, so they can
//! never collide with standard HTTP headers.

use vstd::prelude::*;
use vstd::string::StrSliceExecFns;
use vstd::string::StringExecFns;

use crate::envelope::IncomingEventProperties;
use crate::envelope::IncomingResponseProperties;
use crate::ids::agent_id_text;
use crate::text::render_status;
use crate::text::status_text;

verus! {

/// Raw header pairs taken from message properties.
#[derive(Clone, Debug)]
pub struct Headers(pub Vec<(String, String)>);

/// `s` with every underscore replaced by a dash.
pub open spec fn dashed(s: Seq<char>) -> Seq<char> {
    s.map_values(
        |c: char|
            if c == '_' {
                '-'
            } else {
                c
            },
    )
}

/// The HTTP name of a raw header name: `gateway-` plus the dashed name.
pub open spec fn gateway_name(s: Seq<char>) -> Seq<char> {
    "gateway-"@ + dashed(s)
}

/// Relies on String::push: appends exactly one character.
#[verifier::external_body]
fn push_char(s: &mut String, c: char)
    ensures
        final(s)@ == old(s)@.push(c),
{
    s.push(c);
}

/// Build the prefixed HTTP header name of a raw property name.
pub fn build_gateway_name(name: &str) -> (r: String)
    ensures
        r@ == gateway_name(name@),
{
    let mut r = String::from_str("gateway-");
    let n = name.unicode_len();
    let mut i: usize = 0;
    while i < n
        invariant
            i <= n,
            n == name@.len(),
            r@ == "gateway-"@ + dashed(name@).subrange(0, i as int),
        decreases n - i,
    {
        let c = name.get_char(i);
        if c == '_' {
            push_char(&mut r, '-');
        } else {
            push_char(&mut r, c);
        }
        proof {
            assert(r@ =~= "gateway-"@ + dashed(name@).subrange(0, i + 1));
        }
        i = i + 1;
    }
    proof {
        assert(dashed(name@).subrange(0, n as int) =~= dashed(name@));
    }
    r
}

/// `h` holds exactly the headers of an event with properties `p`: the
/// forwarding agent banner and the originating identity labels.
pub open spec fn event_headers_match(h: Headers, p: IncomingEventProperties) -> bool {
    &&& h.0@.len() == 4
    &&& h.0@[0].0@ == "User-Agent"@
    &&& h.0@[0].1@ == agent_id_text(p.authn.agent_label@, p.authn.account_label@, p.authn.audience@)
        + " through http-gateway"@
    &&& h.0@[1].0@ == "agent_label"@ && h.0@[1].1@ == p.authn.agent_label@
    &&& h.0@[2].0@ == "account_label"@ && h.0@[2].1@ == p.authn.account_label@
    &&& h.0@[3].0@ == "audience"@ && h.0@[3].1@ == p.authn.audience@
}

impl Headers {
    /// The headers of a bus response: its status digits and correlation id.
    pub fn of_response(props: &IncomingResponseProperties) -> (r: Headers)
        requires
            100 <= props.status <= 999,
        ensures
            r.0@.len() == 2,
            r.0@[0].0@ == "status"@ && r.0@[0].1@ == status_text(props.status as int),
            r.0@[1].0@ == "correlation_data"@ && r.0@[1].1@ == props.correlation_data@,
    {
        let mut pairs: Vec<(String, String)> = Vec::new();
        pairs.push((String::from_str("status"), render_status(props.status)));
        pairs.push(
            (
                String::from_str("correlation_data"),
                String::from_str(props.correlation_data.as_str()),
            ),
        );
        Headers(pairs)
    }

    /// The headers of a bus event: the forwarding agent banner and the
    /// originating identity labels.
    pub fn of_event(props: &IncomingEventProperties) -> (r: Headers)
        ensures
            event_headers_match(r, *props),
    {
        let mut banner = String::from_str(props.authn.agent_label.as_str());
        banner.append(".");
        banner.append(props.authn.account_label.as_str());
        banner.append(".");
        banner.append(props.authn.audience.as_str());
        banner.append(" through http-gateway");
        proof {
            assert(banner@ =~= agent_id_text(
                props.authn.agent_label@,
                props.authn.account_label@,
                props.authn.audience@,
            ) + " through http-gateway"@);
        }
        let mut pairs: Vec<(String, String)> = Vec::new();
        pairs.push((String::from_str("User-Agent"), banner));
        pairs.push(
            (String::from_str("agent_label"), String::from_str(props.authn.agent_label.as_str())),
        );
        pairs.push(
            (
                String::from_str("account_label"),
                String::from_str(props.authn.account_label.as_str()),
            ),
        );
        pairs.push(
            (String::from_str("audience"), String::from_str(props.authn.audience.as_str())),
        );
        Headers(pairs)
    }

    /// The pairs under their prefixed HTTP names, values unchanged.
    pub fn prefixed(&self) -> (r: Vec<(String, String)>)
        ensures
            r@.len() == self.0@.len(),
            forall|i: int|
                0 <= i < r@.len() ==> #[trigger] r@[i].0@ == gateway_name(self.0@[i].0@)
                    && r@[i].1@ == self.0@[i].1@,
    {
        let n = self.0.len();
        let mut out: Vec<(String, String)> = Vec::new();
        let mut i: usize = 0;
        while i < n
            invariant
                i <= n,
                n == self.0@.len(),
                out@.len() == i,
                forall|j: int|
                    0 <= j < i ==> #[trigger] out@[j].0@ == gateway_name(self.0@[j].0@)
                        && out@[j].1@ == self.0@[j].1@,
            decreases n - i,
        {
            let name = build_gateway_name(self.0[i].0.as_str());
            let value = String::from_str(self.0[i].1.as_str());
            out.push((name, value));
            i = i + 1;
        }
        out
    }
}

} // verus!
