//! Authentication.

use vstd::prelude::*;

verus! {

/// Whether a request may proceed: `GET` requests are always permitted; any
/// other method needs an `Authorization` header of `Bearer ` followed by the
/// configured token. If no token is configured, the server is read-only:
/// only `GET` requests are permitted.
pub open spec fn spec_guard(is_get: bool, token: Option<Seq<char>>, authorization: Option<Seq<char>>) -> bool {
    ||| is_get
    ||| (token matches Some(t) && authorization matches Some(h) && h == "Bearer "@ + t)
}

/// Guards write operations behind a Bearer token.
///
/// `is_get` tells whether the request's method is `GET`; `authorization` is
/// the request's `Authorization` header, when present and readable as text.
pub fn guard(is_get: bool, token: Option<&str>, authorization: Option<&str>) -> (r: bool)
    ensures
        r == spec_guard(
            is_get,
            match token {
                Some(t) => Some(t@),
                None => None,
            },
            match authorization {
                Some(h) => Some(h@),
                None => None,
            },
        ),
{
    if is_get {
        return true;
    }
    match token {
        None => false,
        Some(expected) => match authorization {
            None => false,
            Some(header) => {
                let wanted = "Bearer ".to_owned().concat(expected);
                let given = header.to_owned();
                given == wanted
            },
        },
    }
}

/// `GET` requests always pass; with no token configured no other request
/// does; with a token, another request passes exactly when its
/// `Authorization` header is `Bearer ` followed by the token.
pub proof fn lemma_guard_rules(token: Option<Seq<char>>, authorization: Option<Seq<char>>)
    ensures
        spec_guard(true, token, authorization),
        token is None ==> !spec_guard(false, token, authorization),
        token matches Some(t) ==> (spec_guard(false, token, authorization) <==> authorization
            == Some("Bearer "@ + t)),
{
}

} // verus!
