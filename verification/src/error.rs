//! Failure modes of the login pipeline. Every stage surfaces its outcome as
//! one of these; no stage recovers locally, so any error aborts the whole
//! attempt.

use vstd::prelude::*;

verus! {

#[derive(Debug, Clone, PartialEq, Eq)]
pub enum Error {
    /// The state returned through the redirect differs from the CSRF token
    /// generated for this attempt.
    CsrfMismatch,
    /// A redirect matched the expected prefix but lacked required
    /// parameters; carries the raw URL for diagnostics.
    InvalidRedirectUrl(Vec<u8>),
    /// The interception surface was closed before any matching navigation.
    Cancelled,
    /// The provider reported a structured OAuth error; code and description
    /// are carried verbatim.
    Auth { code: Vec<u8>, description: Vec<u8> },
    /// A response body could not be read as the expected JSON shape.
    MalformedResponse,
    /// A token did not have the three-part structure of a JWT, or its
    /// payload could not be decoded.
    InvalidJwt,
    /// A captured redirect fragment lacked a parameter the session flow
    /// needs.
    MissingRedirectParam,
    /// The transport below a network call failed; carries the transport's
    /// own description. Produced by the process around the library, never
    /// by the library itself.
    Network(String),
}

/// The human-readable description each failure class carries.
pub open spec fn message_of(e: Error) -> Seq<char> {
    match e {
        Error::CsrfMismatch => "state returned by the provider does not match the CSRF token"@,
        Error::InvalidRedirectUrl(_) => "redirect URL does not carry the expected parameters"@,
        Error::Cancelled => "login flow was cancelled"@,
        Error::Auth { .. } => "provider reported an authorization error"@,
        Error::MalformedResponse => "response body was not in the expected form"@,
        Error::InvalidJwt => "token is not a decodable JWT"@,
        Error::MissingRedirectParam => "captured redirect lacks a required parameter"@,
        Error::Network(_) => "network transport failed"@,
    }
}

impl Error {
    /// The fixed human-readable description of this failure class.
    pub fn message(&self) -> (r: &'static str)
        ensures
            r@ == message_of(*self),
            r@.len() > 0,
    {
        let m: &'static str = match self {
            Error::CsrfMismatch => "state returned by the provider does not match the CSRF token",
            Error::InvalidRedirectUrl(_) => "redirect URL does not carry the expected parameters",
            Error::Cancelled => "login flow was cancelled",
            Error::Auth { .. } => "provider reported an authorization error",
            Error::MalformedResponse => "response body was not in the expected form",
            Error::InvalidJwt => "token is not a decodable JWT",
            Error::MissingRedirectParam => "captured redirect lacks a required parameter",
            Error::Network(_) => "network transport failed",
        };
        proof {
            reveal_strlit("state returned by the provider does not match the CSRF token");
            reveal_strlit("redirect URL does not carry the expected parameters");
            reveal_strlit("login flow was cancelled");
            reveal_strlit("provider reported an authorization error");
            reveal_strlit("response body was not in the expected form");
            reveal_strlit("token is not a decodable JWT");
            reveal_strlit("captured redirect lacks a required parameter");
            reveal_strlit("network transport failed");
        }
        m
    }
}

} // verus!
