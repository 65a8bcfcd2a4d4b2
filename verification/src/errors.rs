//! The error taxonomy of the verifier.
//!
//! Every failure on the verification path is reported as one of these
//! variants; no partial claims are ever returned together with an error.

use vstd::prelude::*;

verus! {

/// Why a token was rejected, or why no usable key set could be obtained.
#[derive(Clone, Copy, Debug, PartialEq, Eq, Structural)]
pub enum AuthError {
    /// The input is structurally invalid: wrong segment count, undecodable
    /// base64url, an undecodable header or payload, or a header without a
    /// key identifier.
    MalformedToken,
    /// The token names a key identifier that is not present in the held
    /// key set, even after one refresh attempt.
    UnknownKey,
    /// The declared algorithm is not the accepted asymmetric one, or the
    /// cryptographic signature does not match the resolved key.
    InvalidSignature,
    /// The `aud` claim does not equal the configured project identifier.
    InvalidAudience,
    /// The `iss` claim does not equal the expected issuer URL for the
    /// configured project identifier.
    InvalidIssuer,
    /// The `exp` claim is not strictly in the future.
    Expired,
    /// The upstream key-set endpoint was unreachable or returned an
    /// unusable document.
    KeySetFetchFailed,
    /// The emulator is enabled but its endpoint is not fully given, or
    /// required configuration is missing.
    ConfigurationError,
}

impl AuthError {
    /// A short stable label for the variant, for logging at the boundary.
    pub fn label(&self) -> (r: &'static str)
        ensures
            r@ == self.spec_label(),
    {
        match self {
            AuthError::MalformedToken => "malformed_token",
            AuthError::UnknownKey => "unknown_key",
            AuthError::InvalidSignature => "invalid_signature",
            AuthError::InvalidAudience => "invalid_audience",
            AuthError::InvalidIssuer => "invalid_issuer",
            AuthError::Expired => "expired",
            AuthError::KeySetFetchFailed => "key_set_fetch_failed",
            AuthError::ConfigurationError => "configuration_error",
        }
    }

    /// The label each variant carries.
    pub open spec fn spec_label(&self) -> Seq<char> {
        match self {
            AuthError::MalformedToken => "malformed_token"@,
            AuthError::UnknownKey => "unknown_key"@,
            AuthError::InvalidSignature => "invalid_signature"@,
            AuthError::InvalidAudience => "invalid_audience"@,
            AuthError::InvalidIssuer => "invalid_issuer"@,
            AuthError::Expired => "expired"@,
            AuthError::KeySetFetchFailed => "key_set_fetch_failed"@,
            AuthError::ConfigurationError => "configuration_error"@,
        }
    }
}

} // verus!
