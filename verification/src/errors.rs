//! Gateway error taxonomy and its mapping to HTTP responses.

use vstd::prelude::*;

verus! {

/// A gateway failure: either the client sent a bad request, or an upstream
/// collaborator (chain RPC, object store) failed.
#[derive(Debug, PartialEq, Eq)]
pub enum GatewayError {
    /// The client is at fault: malformed address or key, oversized upload,
    /// wrong content type, or a missing required multipart field.
    BadRequest(String),
    /// An upstream collaborator failed; never the client's fault.
    Upstream(String),
}

impl GatewayError {
    /// True exactly when the error is client-caused.
    pub open spec fn is_bad_request(&self) -> bool {
        self matches GatewayError::BadRequest(_)
    }

    /// The message carried by the error.
    pub open spec fn spec_message(&self) -> Seq<char> {
        match self {
            GatewayError::BadRequest(m) => m@,
            GatewayError::Upstream(m) => m@,
        }
    }

    /// The HTTP status code the error maps to: client faults are `400`,
    /// upstream faults are `500`.
    pub fn status(&self) -> (s: u16)
        ensures
            s == (if self.is_bad_request() { 400u16 } else { 500u16 }),
    {
        match self {
            GatewayError::BadRequest(_) => 400,
            GatewayError::Upstream(_) => 500,
        }
    }
}

/// Project a gateway error to the wire: the HTTP status code and the body
/// message. Every failure path produces exactly one such pair.
pub fn error_response(e: &GatewayError) -> (r: (u16, String))
    ensures
        r.0 == (if e.is_bad_request() { 400u16 } else { 500u16 }),
        r.1@ == e.spec_message(),
{
    match e {
        GatewayError::BadRequest(m) => (400, m.clone()),
        GatewayError::Upstream(m) => (500, m.clone()),
    }
}

} // verus!
