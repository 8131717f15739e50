use std::time::{Duration, SystemTime, UNIX_EPOCH};

use josekit::jwk::alg::rsa::RsaKeyPair;
use josekit::jwk::{Jwk, JwkSet};
use josekit::jws::alg::rsassa::RsassaJwsAlgorithm::Rs256;
use josekit::jws::JwsHeader;
use josekit::jwt::JwtPayload;
use jsonwebtoken::jwk::AlgorithmParameters;
use logto_rs::error::LogtoError;
use logto_rs::id_token::{
    check_issued_at, id_token_verdict, verify_id_token, ClaimValue, DecodedClaims, JsonWebKey, JsonWebKeySet, KeyParameters,
    TokenInfoParameters,
};

struct Signed {
    token: String,
    jwks: JsonWebKeySet,
}

fn now_millis() -> u128 {
    SystemTime::now()
        .duration_since(UNIX_EPOCH)
        .expect("Time went backwards")
        .as_millis()
}

fn key_set_of(public: &Jwk) -> JsonWebKeySet {
    let mut initial_map: josekit::Map<String, josekit::Value> = josekit::Map::new();
    initial_map.insert(
        "keys".to_string(),
        josekit::Value::from(Vec::<String>::new()),
    );
    let mut set = JwkSet::from_map(initial_map).unwrap();
    set.push_key(public.clone());

    let parsed: jsonwebtoken::jwk::JwkSet = serde_json::from_str(&set.to_string()).unwrap();
    JsonWebKeySet {
        keys: parsed
            .keys
            .iter()
            .map(|jwk| JsonWebKey {
                key_id: jwk.common.key_id.clone(),
                parameters: match &jwk.algorithm {
                    AlgorithmParameters::RSA(rsa) => KeyParameters::Rsa {
                        n: rsa.n.clone(),
                        e: rsa.e.clone(),
                    },
                    _ => KeyParameters::Other,
                },
            })
            .collect(),
    }
}

fn signed_token(iat: u128) -> Signed {
    let key_pair: RsaKeyPair = Rs256
        .generate_key_pair(2048)
        .expect("couldn't generate key pair");

    let mut jwk_keypair: Jwk = key_pair.to_jwk_key_pair();
    jwk_keypair.set_key_id("123");
    jwk_keypair.set_algorithm("RS256");

    let mut jwk_public: Jwk = jwk_keypair.to_public_key().unwrap();
    jwk_public.set_key_id("123");
    jwk_public.set_algorithm("RS256");

    let token_signer = Rs256.signer_from_jwk(&jwk_keypair).unwrap();

    let mut header = JwsHeader::new();
    header.set_key_id(jwk_public.key_id().unwrap_or_default());
    header.set_algorithm(key_pair.algorithm().unwrap_or_default());

    let exp = now_millis() + Duration::from_millis(2000).as_millis();
    let mut claims: josekit::Map<String, josekit::Value> = josekit::Map::new();
    claims.insert("sub".to_string(), josekit::Value::from("bar"));
    claims.insert("iss".to_string(), josekit::Value::from("foo"));
    claims.insert("aud".to_string(), josekit::Value::from("qux"));
    claims.insert("exp".to_string(), josekit::Value::from(exp as u64));
    claims.insert("iat".to_string(), josekit::Value::from(iat as u64));
    let payload = JwtPayload::from_map(claims).unwrap();

    let token = josekit::jwt::encode_with_signer(&payload, &header, &token_signer).unwrap();
    Signed {
        token,
        jwks: key_set_of(&jwk_public),
    }
}

fn params(token: &str, jwks: JsonWebKeySet) -> TokenInfoParameters {
    TokenInfoParameters {
        id_token: token.to_string(),
        client_id: "qux".to_string(),
        issuer: "foo".to_string(),
        jwks,
    }
}

#[test]
fn verify_id_token_works() {
    let signed = signed_token(now_millis() + Duration::from_millis(100).as_millis());
    assert!(verify_id_token(params(&signed.token, signed.jwks)).is_ok())
}

#[test]
fn verify_id_token_key_not_in_set() {
    let signed = signed_token(now_millis());
    let mut jwks = signed.jwks;
    jwks.keys[0].key_id = Some("456".to_string());
    assert_eq!(
        verify_id_token(params(&signed.token, jwks)),
        Err(LogtoError::InvalidSignature)
    );
}

#[test]
fn verify_id_token_issued_too_long_ago() {
    let signed = signed_token(now_millis() - 120_000);
    assert_eq!(
        verify_id_token(params(&signed.token, signed.jwks)),
        Err(LogtoError::ExpiredSignature)
    );
}

#[test]
fn verify_id_token_wrong_audience() {
    let signed = signed_token(now_millis());
    let mut p = params(&signed.token, signed.jwks);
    p.client_id = "other".to_string();
    assert_eq!(verify_id_token(p), Err(LogtoError::InvalidSignature));
}

#[test]
fn verify_id_token_wrong_issuer() {
    let signed = signed_token(now_millis());
    let mut p = params(&signed.token, signed.jwks);
    p.issuer = "elsewhere".to_string();
    assert_eq!(verify_id_token(p), Err(LogtoError::InvalidSignature));
}

#[test]
fn verify_id_token_key_of_other_family() {
    let signed = signed_token(now_millis());
    let jwks = JsonWebKeySet {
        keys: vec![JsonWebKey {
            key_id: Some("123".to_string()),
            parameters: KeyParameters::Other,
        }],
    };
    assert_eq!(
        verify_id_token(params(&signed.token, jwks)),
        Err(LogtoError::UnsupportedKeyAlgorithm)
    );
}

#[test]
fn verify_id_token_malformed() {
    let jwks = JsonWebKeySet { keys: Vec::new() };
    assert_eq!(
        verify_id_token(params("invalidToken", jwks)),
        Err(LogtoError::InvalidToken)
    );
}

#[test]
fn key_set_find_takes_first_match() {
    let jwks = JsonWebKeySet {
        keys: vec![
            JsonWebKey {
                key_id: None,
                parameters: KeyParameters::Other,
            },
            JsonWebKey {
                key_id: Some("a".to_string()),
                parameters: KeyParameters::Rsa {
                    n: "first".to_string(),
                    e: "AQAB".to_string(),
                },
            },
            JsonWebKey {
                key_id: Some("a".to_string()),
                parameters: KeyParameters::Other,
            },
        ],
    };
    match jwks.find("a").map(|k| &k.parameters) {
        Some(KeyParameters::Rsa { n, .. }) => assert_eq!(n, "first"),
        _ => panic!("expected the first key with id a"),
    }
    assert!(jwks.find("b").is_none());
}

#[test]
fn issued_at_window() {
    let now: u128 = 1_700_000_000_000;
    assert_eq!(check_issued_at(now, now), Ok(()));
    assert_eq!(check_issued_at(now + 60_000, now), Ok(()));
    assert_eq!(check_issued_at(now - 60_000, now), Ok(()));
    assert_eq!(check_issued_at(now + 60_001, now), Err(LogtoError::ExpiredSignature));
    assert_eq!(check_issued_at(now - 60_001, now), Err(LogtoError::ExpiredSignature));
    assert_eq!(check_issued_at(0, 10), Ok(()));
    assert_eq!(check_issued_at(u128::MAX, 0), Err(LogtoError::ExpiredSignature));
}

fn well_formed_claims(iat: u64) -> DecodedClaims {
    DecodedClaims {
        sub: ClaimValue::Text("bar".to_string()),
        aud: ClaimValue::Text("qux".to_string()),
        iss: ClaimValue::Text("foo".to_string()),
        exp: ClaimValue::Number(Some(iat + 2000)),
        iat: ClaimValue::Number(Some(iat)),
        at_hash: ClaimValue::Absent,
        username: ClaimValue::Null,
        name: ClaimValue::Text("n".to_string()),
        avatar: ClaimValue::Absent,
    }
}

#[test]
fn verdict_on_failed_signature_check() {
    assert_eq!(
        id_token_verdict(None, Some(1_000_000)),
        Err(LogtoError::InvalidSignature)
    );
}

#[test]
fn verdict_on_claims() {
    let now: u128 = 1_700_000_000_000;
    let iat = now as u64;
    assert_eq!(id_token_verdict(Some(well_formed_claims(iat)), Some(now)), Ok(()));
    assert_eq!(
        id_token_verdict(Some(well_formed_claims(iat - 60_001)), Some(now)),
        Err(LogtoError::ExpiredSignature)
    );
    assert_eq!(
        id_token_verdict(Some(well_formed_claims(iat)), None),
        Err(LogtoError::ExpiredSignature)
    );
    let mut missing_sub = well_formed_claims(iat);
    missing_sub.sub = ClaimValue::Absent;
    assert_eq!(
        id_token_verdict(Some(missing_sub), Some(now)),
        Err(LogtoError::InvalidSignature)
    );
    let mut float_iat = well_formed_claims(iat);
    float_iat.iat = ClaimValue::Number(None);
    assert_eq!(
        id_token_verdict(Some(float_iat), Some(now)),
        Err(LogtoError::InvalidSignature)
    );
    let mut odd_avatar = well_formed_claims(iat);
    odd_avatar.avatar = ClaimValue::Other;
    assert_eq!(
        id_token_verdict(Some(odd_avatar), Some(now)),
        Err(LogtoError::InvalidSignature)
    );
}
