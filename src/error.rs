//! Failures of the guards, and how each is shown to a caller.

use vstd::prelude::*;

verus! {

/// Why a guard stopped a request.
#[derive(Clone, Copy, Debug, PartialEq, Eq, Structural)]
pub enum AuthError {
    /// The `Authorization` header is absent or not `Bearer <token>`.
    MalformedAuthHeader,
    /// Bad signature, expired or not yet valid, or undecodable claims.
    InvalidToken,
    /// The token was not issued for the expected audience.
    AudienceMismatch,
    /// The token's subject names no known profile.
    SubjectNotFound,
    /// The token's subject is not a valid identifier.
    MalformedSubject,
    /// The attached role does not satisfy the route's requirement.
    Forbidden,
    /// The profile store or identity provider could not be reached.
    UpstreamUnavailable,
    /// An authorization stage ran with no identity attached.
    MissingIdentity,
}

/// The HTTP status shown for an error: 403 for a role mismatch, 500 for an
/// unreachable collaborator, 401 for every authentication failure.
pub open spec fn status_of(e: AuthError) -> u16 {
    match e {
        AuthError::Forbidden => 403,
        AuthError::UpstreamUnavailable => 500,
        _ => 401,
    }
}

/// The message shown for an error; every authentication failure shows the
/// same one, so that no verification detail leaks.
pub open spec fn message_of(e: AuthError) -> Seq<char> {
    match e {
        AuthError::Forbidden => "Admin access required"@,
        AuthError::UpstreamUnavailable => "Internal server error"@,
        _ => "Missing or invalid Authorization header"@,
    }
}

/// The JSON envelope `{"status":"fail","error":<message>}` for a message.
pub open spec fn fail_body(message: Seq<char>) -> Seq<char> {
    "{\"status\":\"fail\",\"error\":\""@ + message + "\"}"@
}

impl AuthError {
    /// The HTTP status shown for the error.
    pub fn status(&self) -> (r: u16)
        ensures
            r == status_of(*self),
    {
        match self {
            AuthError::Forbidden => 403,
            AuthError::UpstreamUnavailable => 500,
            _ => 401,
        }
    }

    /// The message shown for the error.
    pub fn message(&self) -> (r: String)
        ensures
            r@ == message_of(*self),
    {
        match self {
            AuthError::Forbidden => String::from_str("Admin access required"),
            AuthError::UpstreamUnavailable => String::from_str("Internal server error"),
            _ => String::from_str("Missing or invalid Authorization header"),
        }
    }

    /// The JSON body of the rejection.
    pub fn body(&self) -> (r: String)
        ensures
            r@ == fail_body(message_of(*self)),
    {
        let message = self.message();
        let mut body = String::from_str("{\"status\":\"fail\",\"error\":\"");
        body.append(message.as_str());
        body.append("\"}");
        body
    }
}

} // verus!
