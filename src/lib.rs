//! The client side of an OpenID Connect authorization-code flow with PKCE: the sign-in and
//! sign-out URIs, the check of the provider's callback, the token endpoint's form bodies, and
//! the check of identity tokens against the provider's published keys.
pub mod callback;
pub mod client;
pub mod error;
pub mod id_token;
pub mod pkce;
pub mod scopes;
pub mod sign_in;
pub mod sign_out;
pub mod text;
pub mod token;
pub mod uri;
