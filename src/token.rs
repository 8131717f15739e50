//! The token endpoint's requests: exchanging an authorization code or a refresh token, and
//! revoking a token. The library builds the form bodies; sending them is the transport's work.
use crate::text::{join_spaced, join_with_spaces};
use vstd::prelude::*;

verus! {

/// The grant type of an authorization-code exchange.
pub const GRANT_AUTHORIZATION_CODE: &'static str = "authorization_code";

/// The grant type of a refresh-token exchange.
pub const GRANT_REFRESH_TOKEN: &'static str = "refresh_token";

/// What an authorization code is exchanged with.
pub struct TokenByAuthorizationCodeParameters {
    pub token_endpoint: String,
    pub code: String,
    pub code_verifier: String,
    pub client_id: String,
    pub redirect_uri: String,
    pub resource: Option<String>,
}

/// What a refresh token is exchanged with.
pub struct TokenByRefreshTokenParameters {
    pub token_endpoint: String,
    pub client_id: String,
    pub refresh_token: String,
    pub resource: Option<String>,
    pub scopes: Option<Vec<String>>,
}

/// What a token is revoked with.
pub struct RevocationParams {
    pub revocation_endpoint: String,
    pub client_id: String,
    pub token: String,
}

/// The tokens an authorization-code exchange returns.
pub struct CodeTokenResponse {
    pub access_token: String,
    pub refresh_token: Option<String>,
    pub id_token: String,
    pub scope: String,
    pub expires_in: i16,
}

/// The tokens a refresh-token exchange returns.
pub struct RefreshTokenTokenResponse {
    pub access_token: String,
    pub refresh_token: String,
    pub id_token: Option<String>,
    pub scope: String,
    pub expires_in: i16,
}

/// The form of an authorization-code exchange, field by field.
pub open spec fn authorization_code_form_spec(p: TokenByAuthorizationCodeParameters) -> Seq<
    (Seq<char>, Seq<char>),
> {
    seq![
        ("client_id"@, p.client_id@),
        ("code"@, p.code@),
        ("code_verifier"@, p.code_verifier@),
        ("redirect_uri"@, p.redirect_uri@),
        ("grant_type"@, GRANT_AUTHORIZATION_CODE@),
    ] + match p.resource {
        Some(r) => seq![("resource"@, r@)],
        None => Seq::empty(),
    }
}

/// The space-joined scopes of a refresh-token exchange; empty where none are given.
pub open spec fn refresh_scope(p: TokenByRefreshTokenParameters) -> Seq<char> {
    match p.scopes {
        Some(s) => join_with_spaces(s.deep_view()),
        None => Seq::empty(),
    }
}

/// The form of a refresh-token exchange, field by field. An empty `scope` is never sent.
pub open spec fn refresh_token_form_spec(p: TokenByRefreshTokenParameters) -> Seq<
    (Seq<char>, Seq<char>),
> {
    seq![
        ("client_id"@, p.client_id@),
        ("refresh_token"@, p.refresh_token@),
        ("grant_type"@, GRANT_REFRESH_TOKEN@),
    ] + (if refresh_scope(p).len() > 0 {
        seq![("scope"@, refresh_scope(p))]
    } else {
        Seq::empty()
    }) + match p.resource {
        Some(r) => seq![("resource"@, r@)],
        None => Seq::empty(),
    }
}

/// The form of a revocation, field by field.
pub open spec fn revocation_form_spec(p: RevocationParams) -> Seq<(Seq<char>, Seq<char>)> {
    seq![("client_id"@, p.client_id@), ("token"@, p.token@)]
}

fn field(name: &str, value: &str) -> (r: (String, String))
    ensures
        r.deep_view() == (name@, value@),
{
    (name.to_owned(), value.to_owned())
}

/// The form body that exchanges an authorization code for tokens.
pub fn authorization_code_form(p: &TokenByAuthorizationCodeParameters) -> (r: Vec<(String, String)>)
    ensures
        r.deep_view() == authorization_code_form_spec(*p),
{
    let mut form: Vec<(String, String)> = Vec::new();
    form.push(field("client_id", p.client_id.as_str()));
    form.push(field("code", p.code.as_str()));
    form.push(field("code_verifier", p.code_verifier.as_str()));
    form.push(field("redirect_uri", p.redirect_uri.as_str()));
    form.push(field("grant_type", GRANT_AUTHORIZATION_CODE));
    match &p.resource {
        Some(r) => form.push(field("resource", r.as_str())),
        None => {},
    }
    assert(form.deep_view() =~= authorization_code_form_spec(*p));
    form
}

/// The form body that exchanges a refresh token for new tokens.
pub fn refresh_token_form(p: &TokenByRefreshTokenParameters) -> (r: Vec<(String, String)>)
    ensures
        r.deep_view() == refresh_token_form_spec(*p),
{
    let mut form: Vec<(String, String)> = Vec::new();
    form.push(field("client_id", p.client_id.as_str()));
    form.push(field("refresh_token", p.refresh_token.as_str()));
    form.push(field("grant_type", GRANT_REFRESH_TOKEN));
    let scope = match &p.scopes {
        Some(s) => join_spaced(s),
        None => String::new(),
    };
    if scope.as_str().unicode_len() > 0 {
        form.push(field("scope", scope.as_str()));
    }
    match &p.resource {
        Some(r) => form.push(field("resource", r.as_str())),
        None => {},
    }
    assert(form.deep_view() =~= refresh_token_form_spec(*p));
    form
}

/// The form body that revokes a token.
pub fn revocation_form(p: &RevocationParams) -> (r: Vec<(String, String)>)
    ensures
        r.deep_view() == revocation_form_spec(*p),
{
    let mut form: Vec<(String, String)> = Vec::new();
    form.push(field("client_id", p.client_id.as_str()));
    form.push(field("token", p.token.as_str()));
    assert(form.deep_view() =~= revocation_form_spec(*p));
    form
}

} // verus!
