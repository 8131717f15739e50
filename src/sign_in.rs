//! The authorization request that starts a sign-in.
use crate::error::LogtoError;
use crate::scopes::{normalized_scopes, with_default_scopes};
use crate::text::{clone_optional_strings, dedup_in_order, dedup_keep_first, join_spaced, join_with_spaces};
use crate::uri::{serialize_with_query, url_with_query_pairs};
use vstd::prelude::*;

verus! {

/// PKCE challenges are always sent as SHA-256 digests; plain challenges are never offered.
pub const CODE_CHALLENGE_METHOD: &'static str = "S256";

/// The authorization-code flow asks for a code.
pub const RESPONSE_TYPE: &'static str = "code";

/// The prompt sent when the caller names none.
pub const DEFAULT_PROMPT: &'static str = "consent";

/// What a sign-in URI is built from.
pub struct SignInUriGenerationOptions {
    pub authorization_endpoint: String,
    pub client_id: String,
    pub redirect_uri: String,
    pub code_challenge: String,
    pub state: String,
    pub scopes: Option<Vec<String>>,
    pub resources: Option<Vec<String>>,
    pub prompt: Option<String>,
    pub interaction_mode: Option<String>,
}

/// The query parameters of a sign-in URI, in the order they are appended.
pub open spec fn signin_query(o: SignInUriGenerationOptions) -> Seq<(Seq<char>, Seq<char>)> {
    seq![
        ("client_id"@, o.client_id@),
        ("redirect_uri"@, o.redirect_uri@),
        ("code_challenge"@, o.code_challenge@),
        ("code_challenge_method"@, CODE_CHALLENGE_METHOD@),
        ("state"@, o.state@),
        ("response_type"@, RESPONSE_TYPE@),
        ("scope"@, join_with_spaces(normalized_scopes(o.scopes.deep_view()))),
        ("prompt"@, match o.prompt {
            Some(p) => p@,
            None => DEFAULT_PROMPT@,
        }),
    ] + match o.resources {
        Some(rs) => seq![("resource"@, join_with_spaces(dedup_keep_first(rs.deep_view())))],
        None => Seq::empty(),
    } + match o.interaction_mode {
        Some(m) => seq![("interaction_mode"@, m@)],
        None => Seq::empty(),
    }
}

fn pair(name: &str, value: &str) -> (r: (String, String))
    ensures
        r.deep_view() == (name@, value@),
{
    (name.to_owned(), value.to_owned())
}

/// The query parameters of the sign-in URI for `options`.
pub fn signin_query_pairs(options: &SignInUriGenerationOptions) -> (r: Vec<(String, String)>)
    ensures
        r.deep_view() == signin_query(*options),
{
    let mut q: Vec<(String, String)> = Vec::new();
    q.push(pair("client_id", options.client_id.as_str()));
    q.push(pair("redirect_uri", options.redirect_uri.as_str()));
    q.push(pair("code_challenge", options.code_challenge.as_str()));
    q.push(pair("code_challenge_method", CODE_CHALLENGE_METHOD));
    q.push(pair("state", options.state.as_str()));
    q.push(pair("response_type", RESPONSE_TYPE));
    let scopes = with_default_scopes(clone_optional_strings(&options.scopes));
    let scope = join_spaced(&scopes);
    q.push(pair("scope", scope.as_str()));
    match &options.prompt {
        Some(p) => q.push(pair("prompt", p.as_str())),
        None => q.push(pair("prompt", DEFAULT_PROMPT)),
    }
    let ghost fixed = q.deep_view();
    match &options.resources {
        Some(rs) => {
            let resources = dedup_in_order(rs);
            let joined = join_spaced(&resources);
            q.push(pair("resource", joined.as_str()));
        },
        None => {},
    }
    match &options.interaction_mode {
        Some(m) => q.push(pair("interaction_mode", m.as_str())),
        None => {},
    }
    proof {
        let o = *options;
        assert(fixed =~= seq![
            ("client_id"@, o.client_id@),
            ("redirect_uri"@, o.redirect_uri@),
            ("code_challenge"@, o.code_challenge@),
            ("code_challenge_method"@, CODE_CHALLENGE_METHOD@),
            ("state"@, o.state@),
            ("response_type"@, RESPONSE_TYPE@),
            ("scope"@, join_with_spaces(normalized_scopes(o.scopes.deep_view()))),
            ("prompt"@, match o.prompt {
                Some(p) => p@,
                None => DEFAULT_PROMPT@,
            }),
        ]);
        assert(q.deep_view() =~= signin_query(o));
    }
    q
}

/// The URI that sends the browser to the authorization endpoint with the parameters of
/// `signin_query`, or `UriParseError` where the endpoint is not a valid URI.
pub fn generate_signin_uri(options: SignInUriGenerationOptions) -> (r: Result<String, LogtoError>)
    ensures
        match url_with_query_pairs(options.authorization_endpoint@, signin_query(options)) {
            Some(u) => r matches Ok(s) && s@ == u,
            None => r == Err::<String, LogtoError>(LogtoError::UriParseError),
        },
{
    let pairs = signin_query_pairs(&options);
    match serialize_with_query(options.authorization_endpoint.as_str(), &pairs) {
        Ok(u) => Ok(u),
        Err(_) => Err(LogtoError::UriParseError),
    }
}

} // verus!
