//! Response status codes.

use vstd::prelude::*;

verus! {

/// The reason phrase that the HTTP status table gives a status code, if it
/// gives one.
pub uninterp spec fn canonical_reason(code: u16) -> Option<Seq<char>>;

/// Reason phrase of a status code, as `http::StatusCode::canonical_reason`
/// gives it; `None` for a code outside 100..=999 or without a phrase.
///
/// The contract ties the result to `canonical_reason` of the code and
/// states the one entry of the table that callers need: 404 is "Not Found".
#[verifier::external_body]
pub(crate) fn reason(code: u16) -> (r: Option<&'static str>)
    ensures
        r matches Some(s) ==> canonical_reason(code) == Some(s@),
        r is None ==> canonical_reason(code) is None,
        r is Some || code != 404,
        r matches Some(s) ==> (code == 404 ==> s@ == "Not Found"@),
{
    match ::axum::http::StatusCode::from_u16(code) {
        Ok(status) => status.canonical_reason(),
        Err(_) => None,
    }
}

/// Whether a status is a client error (400-499).
pub open spec fn spec_is_client_error(code: u16) -> bool {
    400 <= code < 500
}

/// Whether a status is a server error (500-599).
pub open spec fn spec_is_server_error(code: u16) -> bool {
    500 <= code < 600
}

} // verus!
