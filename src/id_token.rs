//! Identity tokens: their claims, the key set they are checked against, and the check.
use crate::error::LogtoError;
use crate::text::compare_str;
use core::cmp::Ordering;
use vstd::prelude::*;

verus! {

#[verifier::external_type_specification]
#[verifier::external_body]
pub struct ExJwtError(jsonwebtoken::errors::Error);

#[verifier::external_type_specification]
#[verifier::external_body]
pub struct ExDecodingKey(jsonwebtoken::DecodingKey);

#[verifier::external_type_specification]
#[verifier::external_body]
pub struct ExJsonValue(serde_json::Value);

/// The tolerated difference between a token's issue time and the clock, in milliseconds.
pub const CLOCK_SKEW_MILLIS: u128 = 60_000;

/// The claims of an identity token. Times are in milliseconds since the Unix epoch.
pub struct IdTokenClaims {
    pub sub: String,
    pub aud: String,
    pub exp: u128,
    pub iat: u128,
    pub iss: String,
    pub at_hash: Option<String>,
    pub username: Option<String>,
    pub name: Option<String>,
    pub avatar: Option<String>,
}

/// What a key of a key set holds for checking signatures.
pub enum KeyParameters {
    /// An RSA public key: modulus and exponent, in unpadded URL-safe base64.
    Rsa { n: String, e: String },
    /// A key of another family (elliptic curve, octet sequence, ...).
    Other,
}

/// A key of a JSON Web Key Set.
pub struct JsonWebKey {
    pub key_id: Option<String>,
    pub parameters: KeyParameters,
}

/// The keys that the provider publishes for checking its tokens.
pub struct JsonWebKeySet {
    pub keys: Vec<JsonWebKey>,
}

/// What an identity token is checked with.
pub struct TokenInfoParameters {
    pub id_token: String,
    pub client_id: String,
    pub issuer: String,
    pub jwks: JsonWebKeySet,
}

/// What a claim of a decoded token holds.
pub enum ClaimValue {
    /// The token has no such claim.
    Absent,
    /// The claim is `null`.
    Null,
    /// A string.
    Text(String),
    /// A number: its value where it is an integer from 0 to `u64::MAX`.
    Number(Option<u64>),
    /// A boolean, an array or an object.
    Other,
}

/// The claims of a decoded token, as far as the check reads them.
pub struct DecodedClaims {
    pub sub: ClaimValue,
    pub aud: ClaimValue,
    pub iss: ClaimValue,
    pub exp: ClaimValue,
    pub iat: ClaimValue,
    pub at_hash: ClaimValue,
    pub username: ClaimValue,
    pub name: ClaimValue,
    pub avatar: ClaimValue,
}

pub open spec fn is_text_claim(c: ClaimValue) -> bool {
    c is Text
}

pub open spec fn is_unsigned_claim(c: ClaimValue) -> bool {
    c matches ClaimValue::Number(Some(_))
}

/// An optional string claim: absent, `null`, or a string.
pub open spec fn is_optional_text_claim(c: ClaimValue) -> bool {
    c is Absent || c is Null || c is Text
}

/// The claims have the shape of `IdTokenClaims`: `sub`, `aud` and `iss` strings, `exp` and
/// `iat` unsigned integers, and `at_hash`, `username`, `name` and `avatar` strings where given.
pub open spec fn claims_well_formed(d: DecodedClaims) -> bool {
    &&& is_text_claim(d.sub)
    &&& is_text_claim(d.aud)
    &&& is_text_claim(d.iss)
    &&& is_unsigned_claim(d.exp)
    &&& is_unsigned_claim(d.iat)
    &&& is_optional_text_claim(d.at_hash)
    &&& is_optional_text_claim(d.username)
    &&& is_optional_text_claim(d.name)
    &&& is_optional_text_claim(d.avatar)
}

/// The issue time of well-formed claims.
pub open spec fn claims_iat(d: DecodedClaims) -> int {
    match d.iat {
        ClaimValue::Number(Some(t)) => t as int,
        _ => 0,
    }
}

/// The result of the check once the signature has been looked at: `decoded` is `None` where the
/// signature, audience, issuer or expiry did not verify, and `now_millis` is the clock's reading
/// (`None` where it lies before the Unix epoch).
pub open spec fn id_token_verdict_spec(
    decoded: Option<DecodedClaims>,
    now_millis: Option<u128>,
) -> Result<(), LogtoError> {
    match decoded {
        None => Err(LogtoError::InvalidSignature),
        Some(d) => if !claims_well_formed(d) {
            Err(LogtoError::InvalidSignature)
        } else {
            match now_millis {
                None => Err(LogtoError::ExpiredSignature),
                Some(now) => if issued_at_fresh(claims_iat(d), now as int) {
                    Ok(())
                } else {
                    Err(LogtoError::ExpiredSignature)
                },
            }
        },
    }
}

/// The key id that the header of `token` names: `None` where the header does not decode,
/// `Some(None)` where it names no key id.
pub uninterp spec fn token_header_kid(token: Seq<char>) -> Option<Option<Seq<char>>>;

/// The key of `key_id` in `keys`: the first one that carries it.
pub open spec fn find_key(keys: Seq<JsonWebKey>, key_id: Seq<char>) -> Option<JsonWebKey>
    decreases keys.len(),
{
    if keys.len() == 0 {
        None
    } else if keys[0].key_id matches Some(k) && k@ == key_id {
        Some(keys[0])
    } else {
        find_key(keys.drop_first(), key_id)
    }
}

/// A token issued at `iat` is fresh at `now` when the two lie at most the clock skew apart,
/// either way.
pub open spec fn issued_at_fresh(iat: int, now: int) -> bool {
    now - CLOCK_SKEW_MILLIS <= iat <= now + CLOCK_SKEW_MILLIS
}

/// Relies on jsonwebtoken's `decode_header`: the key id of the token's header, decoded without
/// any check of the signature; it depends on the token alone.
#[verifier::external_body]
fn decode_header_kid(token: &str) -> (r: Result<Option<String>, jsonwebtoken::errors::Error>)
    ensures
        match r {
            Ok(kid) => token_header_kid(token@) == Some(kid.deep_view()),
            Err(_) => token_header_kid(token@) is None,
        },
{
    jsonwebtoken::decode_header(token).map(|header| header.kid)
}

/// Relies on jsonwebtoken's `DecodingKey::from_rsa_components`: an RSA public key from its
/// base64 modulus and exponent.
#[verifier::external_body]
fn rsa_decoding_key(n: &str, e: &str) -> (r: Result<
    jsonwebtoken::DecodingKey,
    jsonwebtoken::errors::Error,
>) {
    jsonwebtoken::DecodingKey::from_rsa_components(n, e)
}

/// Relies on jsonwebtoken's `decode` with a `Validation` for RS256 whose audience is pinned to
/// `audience` and whose issuer is pinned to `issuer` (and which checks `exp` against the
/// clock): the token's claims, where the signature and those claims check out.
#[verifier::external_body]
fn decode_rs256_claims(
    token: &str,
    key: &jsonwebtoken::DecodingKey,
    audience: &str,
    issuer: &str,
) -> (r: Result<serde_json::Value, jsonwebtoken::errors::Error>) {
    let mut validation = jsonwebtoken::Validation::new(jsonwebtoken::Algorithm::RS256);
    validation.set_audience(&[audience]);
    validation.set_issuer(&[issuer]);
    jsonwebtoken::decode::<serde_json::Value>(token, key, &validation).map(|data| data.claims)
}

/// Relies on serde_json's `Value::get`, its variants, and `Number::as_u64`: what the claim
/// `name` of `claims` holds, as plain values.
#[verifier::external_body]
fn claim_value(claims: &serde_json::Value, name: &str) -> (r: ClaimValue) {
    match claims.get(name) {
        None => ClaimValue::Absent,
        Some(serde_json::Value::Null) => ClaimValue::Null,
        Some(serde_json::Value::String(s)) => ClaimValue::Text(s.clone()),
        Some(serde_json::Value::Number(n)) => ClaimValue::Number(n.as_u64()),
        Some(_) => ClaimValue::Other,
    }
}

/// Relies on `SystemTime::elapsed` of `UNIX_EPOCH`: the milliseconds since the Unix epoch,
/// where the clock is not set before it.
#[verifier::external_body]
fn unix_time_millis() -> (r: Option<u128>) {
    std::time::UNIX_EPOCH.elapsed().ok().map(|since| since.as_millis())
}

impl JsonWebKeySet {
    /// The key that carries `kid`, the first one where several do.
    pub fn find(&self, kid: &str) -> (r: Option<&JsonWebKey>)
        ensures
            match r {
                Some(k) => find_key(self.keys@, kid@) == Some(*k),
                None => find_key(self.keys@, kid@) is None,
            },
    {
        let mut i: usize = 0;
        assert(self.keys@.skip(0) == self.keys@);
        while i < self.keys.len()
            invariant
                i <= self.keys@.len(),
                find_key(self.keys@, kid@) == find_key(self.keys@.skip(i as int), kid@),
            decreases self.keys@.len() - i,
        {
            let key = &self.keys[i];
            let ghost rest = self.keys@.skip(i as int);
            assert(rest[0] == *key);
            assert(rest.drop_first() == self.keys@.skip(i + 1));
            match &key.key_id {
                Some(k) => match compare_str(k.as_str(), kid) {
                    Ordering::Equal => {
                        return Some(key);
                    },
                    _ => {},
                },
                None => {},
            }
            i = i + 1;
        }
        None
    }
}

/// Whether a token issued at `iat` (milliseconds since the Unix epoch) is fresh at `now_millis`:
/// `ExpiredSignature` where the two lie more than the clock skew apart.
pub fn check_issued_at(iat: u128, now_millis: u128) -> (r: Result<(), LogtoError>)
    ensures
        r == if issued_at_fresh(iat as int, now_millis as int) {
            Ok::<(), LogtoError>(())
        } else {
            Err(LogtoError::ExpiredSignature)
        },
{
    let too_new = iat > now_millis && iat - now_millis > CLOCK_SKEW_MILLIS;
    let too_old = now_millis > iat && now_millis - iat > CLOCK_SKEW_MILLIS;
    if too_new || too_old {
        Err(LogtoError::ExpiredSignature)
    } else {
        Ok(())
    }
}

fn is_text(c: &ClaimValue) -> (r: bool)
    ensures
        r == is_text_claim(*c),
{
    match c {
        ClaimValue::Text(_) => true,
        _ => false,
    }
}

fn is_optional_text(c: &ClaimValue) -> (r: bool)
    ensures
        r == is_optional_text_claim(*c),
{
    match c {
        ClaimValue::Absent | ClaimValue::Null | ClaimValue::Text(_) => true,
        _ => false,
    }
}

fn unsigned(c: &ClaimValue) -> (r: Option<u64>)
    ensures
        r is Some == is_unsigned_claim(*c),
        r matches Some(t) ==> *c == ClaimValue::Number(Some(t)),
{
    match c {
        ClaimValue::Number(Some(t)) => Some(*t),
        _ => None,
    }
}

/// The result of the check once the signature has been looked at; see `id_token_verdict_spec`.
pub fn id_token_verdict(decoded: Option<DecodedClaims>, now_millis: Option<u128>) -> (r: Result<
    (),
    LogtoError,
>)
    ensures
        r == id_token_verdict_spec(decoded, now_millis),
{
    let d = match decoded {
        Some(d) => d,
        None => {
            return Err(LogtoError::InvalidSignature);
        },
    };
    let shaped = is_text(&d.sub) && is_text(&d.aud) && is_text(&d.iss) && unsigned(&d.exp).is_some()
        && is_optional_text(&d.at_hash) && is_optional_text(&d.username) && is_optional_text(
        &d.name,
    ) && is_optional_text(&d.avatar);
    let iat = match unsigned(&d.iat) {
        Some(iat) if shaped => iat,
        _ => {
            return Err(LogtoError::InvalidSignature);
        },
    };
    match now_millis {
        Some(now) => check_issued_at(iat as u128, now),
        None => Err(LogtoError::ExpiredSignature),
    }
}

fn read_claims(claims: &serde_json::Value) -> (r: DecodedClaims) {
    DecodedClaims {
        sub: claim_value(claims, "sub"),
        aud: claim_value(claims, "aud"),
        iss: claim_value(claims, "iss"),
        exp: claim_value(claims, "exp"),
        iat: claim_value(claims, "iat"),
        at_hash: claim_value(claims, "at_hash"),
        username: claim_value(claims, "username"),
        name: claim_value(claims, "name"),
        avatar: claim_value(claims, "avatar"),
    }
}

/// Checks an identity token against the key set: the header must name a key id
/// (`InvalidToken`), the set must hold that key (`InvalidSignature`), the key must be an RSA key
/// (`UnsupportedKeyAlgorithm`), the RS256 signature, audience (the client id) and issuer must
/// verify and the claims must have the shape of `IdTokenClaims` (`InvalidSignature`), and the
/// issue time must lie within the clock skew of now (`ExpiredSignature`). Past the key lookup,
/// `id_token_verdict` decides from the outcome of the signature check and the clock.
pub fn verify_id_token(params: TokenInfoParameters) -> (r: Result<(), LogtoError>)
    ensures
        match token_header_kid(params.id_token@) {
            Some(Some(kid)) => match find_key(params.jwks.keys@, kid) {
                Some(key) => match key.parameters {
                    KeyParameters::Rsa { .. } => r matches Ok(()) || r == Err::<(), LogtoError>(
                        LogtoError::InvalidSignature,
                    ) || r == Err::<(), LogtoError>(LogtoError::ExpiredSignature),
                    KeyParameters::Other => r == Err::<(), LogtoError>(
                        LogtoError::UnsupportedKeyAlgorithm,
                    ),
                },
                None => r == Err::<(), LogtoError>(LogtoError::InvalidSignature),
            },
            _ => r == Err::<(), LogtoError>(LogtoError::InvalidToken),
        },
{
    let kid = match decode_header_kid(params.id_token.as_str()) {
        Ok(Some(kid)) => kid,
        _ => {
            return Err(LogtoError::InvalidToken);
        },
    };
    let key = match params.jwks.find(kid.as_str()) {
        Some(key) => key,
        None => {
            return Err(LogtoError::InvalidSignature);
        },
    };
    let decoding_key = match &key.parameters {
        KeyParameters::Rsa { n, e } => match rsa_decoding_key(n.as_str(), e.as_str()) {
            Ok(k) => k,
            Err(_) => {
                return Err(LogtoError::InvalidSignature);
            },
        },
        KeyParameters::Other => {
            return Err(LogtoError::UnsupportedKeyAlgorithm);
        },
    };
    let decoded = match decode_rs256_claims(
        params.id_token.as_str(),
        &decoding_key,
        params.client_id.as_str(),
        params.issuer.as_str(),
    ) {
        Ok(claims) => Some(read_claims(&claims)),
        Err(_) => None,
    };
    id_token_verdict(decoded, unix_time_millis())
}

} // verus!
