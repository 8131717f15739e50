//! The end-session request that signs a user out.
use crate::error::LogtoError;
use crate::uri::{serialize_with_query, url_with_query_pairs};
use vstd::prelude::*;

verus! {

/// What a sign-out URI is built from.
pub struct SignOutUriGenerationOptions {
    pub end_session_endpoint: String,
    /// The provider's documentation names the id token here, but clients send their id.
    pub client_id: String,
    pub post_logout_redirect_uri: Option<String>,
}

/// The query parameters of a sign-out URI, in the order they are appended.
pub open spec fn signout_query(o: SignOutUriGenerationOptions) -> Seq<(Seq<char>, Seq<char>)> {
    seq![("client_id"@, o.client_id@)] + match o.post_logout_redirect_uri {
        Some(u) => seq![("post_logout_redirect_uri"@, u@)],
        None => Seq::empty(),
    }
}

/// The URI of the end-session endpoint with `client_id` and, where given, the address to
/// return to; `UriParseError` where the endpoint is not a valid URI.
pub fn generate_signout_uri(options: SignOutUriGenerationOptions) -> (r: Result<String, LogtoError>)
    ensures
        match url_with_query_pairs(options.end_session_endpoint@, signout_query(options)) {
            Some(u) => r matches Ok(s) && s@ == u,
            None => r == Err::<String, LogtoError>(LogtoError::UriParseError),
        },
{
    let mut pairs: Vec<(String, String)> = Vec::new();
    pairs.push(("client_id".to_owned(), options.client_id.clone()));
    match &options.post_logout_redirect_uri {
        Some(u) => pairs.push(("post_logout_redirect_uri".to_owned(), u.clone())),
        None => {},
    }
    assert(pairs.deep_view() =~= signout_query(options));
    match serialize_with_query(options.end_session_endpoint.as_str(), &pairs) {
        Ok(u) => Ok(u),
        Err(_) => Err(LogtoError::UriParseError),
    }
}

} // verus!
