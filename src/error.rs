//! What can go wrong in the flow.
use vstd::prelude::*;

verus! {

/// The ways an operation of this library fails.
#[derive(Debug, PartialEq, Eq)]
pub enum LogtoError {
    /// An endpoint or callback URI is not a valid URI.
    UriParseError,
    /// The callback URI does not extend the expected redirect URI.
    RedirectMismatch,
    /// The callback carries an `error` parameter; its raw value is kept.
    ProviderError(String),
    /// The callback's `state` is missing or differs from the expected one.
    StateMismatch,
    /// The callback is otherwise valid but has no `code`.
    MissingAuthorizationCode,
    /// The provider could not be reached, or answered with an HTTP failure.
    TransportError,
    /// The provider's answer does not have the expected shape.
    DecodeError,
    /// The identity token's header is malformed or lacks a key id.
    InvalidToken,
    /// No key for the token's key id, or the signature, audience or issuer does not verify.
    InvalidSignature,
    /// The token's issue time lies outside the allowed clock skew.
    ExpiredSignature,
    /// The key for the token's key id is not an RSA key.
    UnsupportedKeyAlgorithm,
}

impl LogtoError {
    pub open spec fn spec_message(&self) -> Seq<char> {
        match self {
            LogtoError::UriParseError => "invalid uri"@,
            LogtoError::RedirectMismatch => "Callback URI does not start with redirect URI"@,
            LogtoError::ProviderError(_) => "uri contains error"@,
            LogtoError::StateMismatch => "states don't match"@,
            LogtoError::MissingAuthorizationCode => "code parameter is missing"@,
            LogtoError::TransportError => "the request to the provider failed"@,
            LogtoError::DecodeError => "the provider's response has an unexpected shape"@,
            LogtoError::InvalidToken => "invalid token"@,
            LogtoError::InvalidSignature => "invalid signature"@,
            LogtoError::ExpiredSignature => "expired signature"@,
            LogtoError::UnsupportedKeyAlgorithm => "the signing key is not an RSA key"@,
        }
    }

    /// A human-readable description of the failure; it never holds a secret.
    pub fn message(&self) -> (r: &'static str)
        ensures
            r@ == self.spec_message(),
    {
        match self {
            LogtoError::UriParseError => "invalid uri",
            LogtoError::RedirectMismatch => "Callback URI does not start with redirect URI",
            LogtoError::ProviderError(_) => "uri contains error",
            LogtoError::StateMismatch => "states don't match",
            LogtoError::MissingAuthorizationCode => "code parameter is missing",
            LogtoError::TransportError => "the request to the provider failed",
            LogtoError::DecodeError => "the provider's response has an unexpected shape",
            LogtoError::InvalidToken => "invalid token",
            LogtoError::InvalidSignature => "invalid signature",
            LogtoError::ExpiredSignature => "expired signature",
            LogtoError::UnsupportedKeyAlgorithm => "the signing key is not an RSA key",
        }
    }
}

} // verus!
