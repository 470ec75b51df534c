//! Structured error responses.

use vstd::prelude::*;

use crate::axum::status::reason;

verus! {

/// What went wrong: a stable code worth branching on, a message, and the
/// fields at fault when the failure is about some.
pub struct Detail {
    /// Stable error code.
    pub code: String,
    /// Human-readable message.
    pub message: String,
    /// Names of the values at fault; empty when the failure is about none.
    pub fields: Vec<String>,
}

/// Error response body: `{ "error": { "code", "message", "fields" } }`.
pub struct Body {
    /// What went wrong.
    pub error: Detail,
}

/// A rejected request: the response status and its JSON body.
pub struct Rejection {
    /// Response status code.
    pub status: u16,
    /// Response body.
    pub body: Body,
}

impl Body {
    /// The response that rejects a request with a status, a code, a message
    /// and the fields at fault.
    pub fn reject(status: u16, code: String, message: String, fields: Vec<String>) -> (r: Rejection)
        ensures
            r.status == status,
            r.body.error.code == code,
            r.body.error.message == message,
            r.body.error.fields == fields,
    {
        Rejection { status, body: Body { error: Detail { code, message, fields } } }
    }
}

/// Handler error response.
pub enum Error {
    /// 404 Not Found.
    NotFound,
    /// 500 Internal Server Error with the database error's message.
    Internal(String),
}

impl Error {
    /// The response for a handler error: `not_found` with the status's
    /// reason phrase, or `internal` with the error's message; no fields.
    pub fn into_response(self) -> (r: Rejection)
        ensures
            self is NotFound ==> r.status == 404 && r.body.error.code@ == "not_found"@
                && r.body.error.message@ == "Not Found"@,
            self matches Error::Internal(m) ==> r.status == 500 && r.body.error.code@ == "internal"@
                && r.body.error.message == m,
            r.body.error.fields@.len() == 0,
    {
        match self {
            Error::NotFound => {
                let phrase = match reason(404) {
                    Some(s) => s,
                    None => "Not Found",
                };
                let r = Body::reject(404, "not_found".to_owned(), phrase.to_owned(), Vec::new());
                proof {
                    reveal_strlit("not_found");
                }
                r
            },
            Error::Internal(message) => {
                let r = Body::reject(500, "internal".to_owned(), message, Vec::new());
                proof {
                    reveal_strlit("internal");
                }
                r
            },
        }
    }
}

/// Why a JSON request body was refused.
#[derive(Clone, Copy, Debug, PartialEq, Eq, Structural)]
pub enum JsonRejection {
    /// The body is JSON of the wrong shape.
    JsonDataError,
    /// The body is not JSON.
    JsonSyntaxError,
    /// The request does not declare a JSON body.
    MissingJsonContentType,
    /// Any other failure to read the body.
    Other,
}

/// Why a path parameter was refused.
#[derive(Clone, Copy, Debug, PartialEq, Eq, Structural)]
pub enum PathRejection {
    /// A path parameter could not be read as the expected type.
    FailedToDeserializePathParams,
    /// The route has no path parameters.
    MissingPathParams,
    /// Any other failure.
    Other,
}

/// JSON body extractor with structured rejection responses.
pub struct Json<T>(pub T);

impl<T> Json<T> {
    /// The response refusing a JSON body; `fields` names the values at
    /// fault, given for a body of the wrong shape.
    pub fn rejection(kind: JsonRejection, fields: Vec<String>) -> (r: Rejection)
        ensures
            kind == JsonRejection::JsonDataError ==> r.status == 422 && r.body.error.code@
                == "invalid_body"@ && r.body.error.message@ == "invalid request body"@
                && r.body.error.fields == fields,
            kind == JsonRejection::JsonSyntaxError ==> r.status == 400 && r.body.error.code@
                == "malformed_json"@ && r.body.error.message@ == "malformed JSON"@
                && r.body.error.fields@.len() == 0,
            kind == JsonRejection::MissingJsonContentType ==> r.status == 415 && r.body.error.code@
                == "unsupported_media_type"@ && r.body.error.message@
                == "expected Content-Type: application/json"@ && r.body.error.fields@.len() == 0,
            kind == JsonRejection::Other ==> r.status == 500 && r.body.error.code@ == "internal"@
                && r.body.error.message@ == "internal error"@ && r.body.error.fields@.len() == 0,
    {
        proof {
            reveal_strlit("invalid_body");
            reveal_strlit("malformed_json");
            reveal_strlit("unsupported_media_type");
            reveal_strlit("internal");
        }
        match kind {
            JsonRejection::JsonDataError => Body::reject(
                422,
                "invalid_body".to_owned(),
                "invalid request body".to_owned(),
                fields,
            ),
            JsonRejection::JsonSyntaxError => Body::reject(
                400,
                "malformed_json".to_owned(),
                "malformed JSON".to_owned(),
                Vec::new(),
            ),
            JsonRejection::MissingJsonContentType => Body::reject(
                415,
                "unsupported_media_type".to_owned(),
                "expected Content-Type: application/json".to_owned(),
                Vec::new(),
            ),
            JsonRejection::Other => Body::reject(
                500,
                "internal".to_owned(),
                "internal error".to_owned(),
                Vec::new(),
            ),
        }
    }
}

/// Path extractor with structured rejection responses.
pub struct Path<T>(pub T);

impl<T> Path<T> {
    /// The response refusing a path parameter; `fields` names the
    /// parameters that could not be read.
    pub fn rejection(kind: PathRejection, fields: Vec<String>) -> (r: Rejection)
        ensures
            kind == PathRejection::FailedToDeserializePathParams ==> r.status == 400
                && r.body.error.code@ == "invalid_path"@ && r.body.error.message@
                == "invalid path parameter"@ && r.body.error.fields == fields,
            kind == PathRejection::MissingPathParams ==> r.status == 500 && r.body.error.code@
                == "internal"@ && r.body.error.message@ == "missing path parameters"@
                && r.body.error.fields@.len() == 0,
            kind == PathRejection::Other ==> r.status == 500 && r.body.error.code@ == "internal"@
                && r.body.error.message@ == "internal error"@ && r.body.error.fields@.len() == 0,
    {
        proof {
            reveal_strlit("invalid_path");
            reveal_strlit("internal");
        }
        match kind {
            PathRejection::FailedToDeserializePathParams => Body::reject(
                400,
                "invalid_path".to_owned(),
                "invalid path parameter".to_owned(),
                fields,
            ),
            PathRejection::MissingPathParams => Body::reject(
                500,
                "internal".to_owned(),
                "missing path parameters".to_owned(),
                Vec::new(),
            ),
            PathRejection::Other => Body::reject(
                500,
                "internal".to_owned(),
                "internal error".to_owned(),
                Vec::new(),
            ),
        }
    }
}

} // verus!
