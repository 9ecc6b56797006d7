//! Light parsing at the HTTP edge: request ids inside JSON bodies and
//! bearer tokens in authorization header values.

use vstd::prelude::*;
use vstd::string::StrSliceExecFns;
use vstd::string::StringExecFns;

use crate::errors::AuthnError;
use crate::json::obj_from_text;
use crate::json::obj_get_str;
use crate::json::obj_text;
use crate::text::find_char;
use crate::text::free_of;
use crate::text::str_eq;

verus! {

/// A request body's correlation field.
#[derive(Clone, Debug)]
pub struct RequestId {
    pub id: String,
}

/// Read the `id` field of a JSON body. On the canonical text of any
/// all-string object, yields exactly its `id` entry.
pub fn get_request_id(body: &str) -> (r: Option<String>)
    ensures
        forall|e: Map<Seq<char>, Seq<char>>|
            body@ == #[trigger] obj_text(e) ==> match r {
                Some(s) => e.contains_key("id"@) && s@ == e["id"@],
                None => !e.contains_key("id"@),
            },
{
    match obj_from_text(body) {
        Some(m) => obj_get_str(&m, "id"),
        None => None,
    }
}

/// Whether a bus frame's payload answers the request with `expected_id`:
/// its `id` field equals the id the caller published. On the canonical
/// text of any all-string object the decision is exact.
pub fn rpc_reply_matches(expected_id: &str, payload: &str) -> (r: bool)
    ensures
        forall|e: Map<Seq<char>, Seq<char>>|
            payload@ == #[trigger] obj_text(e) ==> r == (e.contains_key("id"@) && e["id"@]
                == expected_id@),
{
    match get_request_id(payload) {
        Some(id) => str_eq(id.as_str(), expected_id),
        None => false,
    }
}

/// Read the token of an authorization header value: accepts exactly
/// `Bearer <token>` with a single space and no space inside the token.
pub fn parse_bearer_token(header: &str) -> (r: Result<String, AuthnError>)
    ensures
        match r {
            Ok(t) => header@ == "Bearer "@ + t@ && free_of(t@, ' '),
            Err(e) => e == AuthnError::BadTokenType && forall|t: Seq<char>|
                !(header@ == "Bearer "@ + t && free_of(t, ' ')),
        },
{
    proof {
        reveal_strlit("Bearer ");
    }
    let n = header.unicode_len();
    if n < 7 {
        return Err(AuthnError::BadTokenType);
    }
    let prefix = header.substring_char(0, 7);
    if !str_eq(prefix, "Bearer ") {
        proof {
            assert forall|t: Seq<char>| !(header@ == "Bearer "@ + t && free_of(t, ' ')) by {
                if header@ == "Bearer "@ + t {
                    assert(prefix@ =~= "Bearer "@);
                }
            }
        }
        return Err(AuthnError::BadTokenType);
    }
    let token = header.substring_char(7, n);
    match find_char(token, ' ') {
        Some(_) => {
            proof {
                assert forall|t: Seq<char>| !(header@ == "Bearer "@ + t && free_of(t, ' ')) by {
                    if header@ == "Bearer "@ + t && free_of(t, ' ') {
                        assert(token@ =~= t);
                    }
                }
            }
            Err(AuthnError::BadTokenType)
        },
        None => {
            proof {
                assert(header@ =~= "Bearer "@ + token@);
            }
            Ok(token.to_owned())
        },
    }
}

} // verus!
