//! Error responses in JSON.

use vstd::prelude::*;

use crate::axum::status::{canonical_reason, reason, spec_is_client_error, spec_is_server_error};
use crate::text::{contains, spec_contains, spec_trim, trim};

verus! {

/// Whether a response is left as it is: it is not an error, or its body is
/// already JSON.
pub open spec fn spec_passes(status: u16, content_type: Seq<char>) -> bool {
    ||| !spec_is_client_error(status) && !spec_is_server_error(status)
    ||| spec_contains(content_type, "application/json"@)
}

/// Whether the error middleware leaves a response as it is; `content_type`
/// is the response's `Content-Type`, empty when absent or unreadable.
pub fn passes(status: u16, content_type: &str) -> (r: bool)
    ensures
        r == spec_passes(status, content_type@),
{
    if !(400 <= status && status < 500) && !(500 <= status && status < 600) {
        return true;
    }
    contains(content_type, "application/json")
}

/// The message that replaces a plain-text error body: the body trimmed, or
/// for an empty body the status's reason phrase, else `error`.
pub open spec fn spec_message(status: u16, text: Seq<char>) -> Seq<char> {
    if text.len() == 0 {
        match canonical_reason(status) {
            Some(p) => p,
            None => "error"@,
        }
    } else {
        spec_trim(text)
    }
}

/// The message of the JSON error that replaces a plain-text error response
/// with the given body text.
pub fn message(status: u16, text: &str) -> (r: String)
    ensures
        r@ == spec_message(status, text@),
{
    if text.is_empty() {
        match reason(status) {
            Some(p) => p.to_owned(),
            None => "error".to_owned(),
        }
    } else {
        trim(text)
    }
}

/// The stable code of an error status: a name for the common statuses,
/// else `client_error` for 4xx and `server_error` for any other.
pub open spec fn spec_code(status: u16) -> Seq<char> {
    if status == 400 {
        "bad_request"@
    } else if status == 401 {
        "unauthorized"@
    } else if status == 403 {
        "forbidden"@
    } else if status == 404 {
        "not_found"@
    } else if status == 405 {
        "method_not_allowed"@
    } else if status == 409 {
        "conflict"@
    } else if status == 413 {
        "too_large"@
    } else if status == 415 {
        "unsupported_media_type"@
    } else if status == 422 {
        "invalid_body"@
    } else if status == 500 {
        "internal"@
    } else if 400 <= status < 500 {
        "client_error"@
    } else {
        "server_error"@
    }
}

/// The stable code of an error status, for the error body.
pub fn code(status: u16) -> (r: &'static str)
    ensures
        r@ == spec_code(status),
{
    if status == 400 {
        "bad_request"
    } else if status == 401 {
        "unauthorized"
    } else if status == 403 {
        "forbidden"
    } else if status == 404 {
        "not_found"
    } else if status == 405 {
        "method_not_allowed"
    } else if status == 409 {
        "conflict"
    } else if status == 413 {
        "too_large"
    } else if status == 415 {
        "unsupported_media_type"
    } else if status == 422 {
        "invalid_body"
    } else if status == 500 {
        "internal"
    } else if 400 <= status && status < 500 {
        "client_error"
    } else {
        "server_error"
    }
}

/// Responses other than client and server errors pass unchanged, as do
/// JSON ones; a plain-text error is replaced, its message being its text
/// trimmed, or for an empty text the status's reason phrase.
pub proof fn lemma_error_rules(status: u16, content_type: Seq<char>, text: Seq<char>)
    ensures
        status < 400 ==> spec_passes(status, content_type),
        (400 <= status < 600 && !spec_contains(content_type, "application/json"@)) ==> !spec_passes(
            status,
            content_type,
        ),
        text.len() > 0 ==> spec_message(status, text) == spec_trim(text),
        (text.len() == 0 && canonical_reason(status) is Some) ==> spec_message(status, text)
            == canonical_reason(status).unwrap(),
{
}

/// The codes of the common statuses, and of the others by class.
pub proof fn lemma_code_names(status: u16)
    ensures
        spec_code(401) == "unauthorized"@,
        spec_code(404) == "not_found"@,
        spec_code(500) == "internal"@,
        (400 <= status < 500 && status != 400 && status != 401 && status != 403 && status != 404
            && status != 405 && status != 409 && status != 413 && status != 415 && status != 422)
            ==> spec_code(status) == "client_error"@,
        (500 < status) ==> spec_code(status) == "server_error"@,
{
}

} // verus!
