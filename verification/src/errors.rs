//! The typed failure conditions of the core, and how the boundary maps
//! them onto HTTP status codes.
use vstd::prelude::*;

verus! {

/// Every failure a core operation can report. Authentication failures
/// surface as an unauthorized response, a validation failure as a client
/// error, a mandate operation without a profile as forbidden, and a
/// persistence failure as a server error.
#[derive(Clone, Copy, Debug, PartialEq, Eq, Structural)]
pub enum ServiceError {
    /// The token's header cannot be parsed or names no key id.
    MalformedToken,
    /// The issuer's key set cannot be fetched or parsed.
    KeySetUnavailable,
    /// The token names a key id that the key set does not hold.
    UnknownSigningKey,
    /// The token's signature does not verify, or its payload cannot be
    /// decoded, under the named key.
    SignatureInvalid,
    /// The verified claims carry no subject.
    MissingSubject,
    /// The payload fails a field constraint; nothing was written.
    ValidationError,
    /// A mandate operation was attempted by a subject without a profile.
    ProfileRequired,
    /// The persistence store failed.
    StoreUnavailable,
}

impl ServiceError {
    /// The HTTP status code this failure surfaces as.
    pub open spec fn spec_http_status(&self) -> u16 {
        match self {
            ServiceError::MalformedToken => 401,
            ServiceError::KeySetUnavailable => 401,
            ServiceError::UnknownSigningKey => 401,
            ServiceError::SignatureInvalid => 401,
            ServiceError::MissingSubject => 401,
            ServiceError::ValidationError => 400,
            ServiceError::ProfileRequired => 403,
            ServiceError::StoreUnavailable => 500,
        }
    }

    /// Maps this failure onto the HTTP status code it surfaces as.
    pub fn http_status(&self) -> (r: u16)
        ensures
            r == self.spec_http_status(),
    {
        match self {
            ServiceError::MalformedToken => 401,
            ServiceError::KeySetUnavailable => 401,
            ServiceError::UnknownSigningKey => 401,
            ServiceError::SignatureInvalid => 401,
            ServiceError::MissingSubject => 401,
            ServiceError::ValidationError => 400,
            ServiceError::ProfileRequired => 403,
            ServiceError::StoreUnavailable => 500,
        }
    }

    /// The description of this failure, as the response body carries it.
    pub open spec fn spec_message(&self) -> Seq<char> {
        match self {
            ServiceError::MalformedToken => "Invalid token header"@,
            ServiceError::KeySetUnavailable => "Could not fetch JWKS"@,
            ServiceError::UnknownSigningKey => "Unknown signing key"@,
            ServiceError::SignatureInvalid => "Invalid token signature"@,
            ServiceError::MissingSubject => "Token carries no subject"@,
            ServiceError::ValidationError => "Payload failed validation"@,
            ServiceError::ProfileRequired => "No profile exists for this subject"@,
            ServiceError::StoreUnavailable => "Store unavailable"@,
        }
    }

    /// A short description of this failure for the response body.
    pub fn message(&self) -> (r: &'static str)
        ensures
            r@ == self.spec_message(),
    {
        match self {
            ServiceError::MalformedToken => "Invalid token header",
            ServiceError::KeySetUnavailable => "Could not fetch JWKS",
            ServiceError::UnknownSigningKey => "Unknown signing key",
            ServiceError::SignatureInvalid => "Invalid token signature",
            ServiceError::MissingSubject => "Token carries no subject",
            ServiceError::ValidationError => "Payload failed validation",
            ServiceError::ProfileRequired => "No profile exists for this subject",
            ServiceError::StoreUnavailable => "Store unavailable",
        }
    }
}

} // verus!
