//! Error types: the classification every response is mapped to, and the
//! records the vendor's error payloads decode into.

use vstd::prelude::*;
use vstd::string::StringExecFns;

verus! {

/// The outcome classes of a vendor call.
#[derive(Debug, Clone, PartialEq, Eq)]
pub enum RequestError {
    /// The vendor answered 429.
    RateLimited,
    /// The vendor answered 422; the payload's first detail message.
    ValidationFailed(String),
    /// The vendor answered 401.
    Unauthorized,
    /// Credentials were not accepted during authentication.
    InvalidCredentials,
    /// Any other unexpected status: the deliberately coarse catch-all.
    InvalidRequest,
    /// The response body did not match the expected schema.
    Malformed,
    /// The call failed below the HTTP layer (network fault or timeout).
    Transport,
}

/// A response classified as a failure: the HTTP status it was mapped to and
/// a human-readable message.
#[derive(Debug, Clone)]
pub struct ResponseError {
    pub status: u16,
    pub message: String,
}

/// The vendor's general error payload.
#[derive(Debug, Clone)]
pub struct Error {
    pub timestamp: String,
    pub errors: Vec<String>,
}

/// A value rejected before any network call was made.
#[derive(Debug, Clone)]
pub struct ValueError {
    pub message: String,
}

impl RequestError {
    /// The status and message this class surfaces, mirroring how each
    /// failure is reported: 429 "Too many requests", 422 "Validation error:"
    /// plus the first detail message, 401 "Unauthorized", and 400 "Invalid
    /// credentials" for everything else.
    pub fn to_response_error(&self) -> (r: ResponseError)
        ensures
            self is RateLimited ==> r.status == 429 && r.message@ == "Too many requests"@,
            self matches RequestError::ValidationFailed(m) ==> r.status == 422 && r.message@
                == "Validation error: "@ + m@,
            self is Unauthorized ==> r.status == 401 && r.message@ == "Unauthorized"@,
            !(self is RateLimited) && !(self is ValidationFailed) && !(self is Unauthorized)
                ==> r.status == 400 && r.message@ == "Invalid credentials"@,
    {
        match self {
            RequestError::RateLimited => ResponseError {
                status: 429,
                message: String::from_str("Too many requests"),
            },
            RequestError::ValidationFailed(m) => ResponseError {
                status: 422,
                message: String::from_str("Validation error: ").concat(m.as_str()),
            },
            RequestError::Unauthorized => ResponseError {
                status: 401,
                message: String::from_str("Unauthorized"),
            },
            _ => ResponseError { status: 400, message: String::from_str("Invalid credentials") },
        }
    }
}

} // verus!
