//! Proof Key for Code Exchange: the code verifier, its challenge, and the anti-forgery state.
use vstd::prelude::*;
use vstd::utf8::*;

verus! {

/// Number of random characters behind a verifier or a state, before encoding.
pub const RANDOM_SOURCE_LEN: usize = 64;

/// The SHA-256 digest of `bytes`.
pub uninterp spec fn sha256_of(bytes: Seq<u8>) -> Seq<u8>;

/// `bytes` in the URL-safe base64 alphabet, without padding.
pub uninterp spec fn base64_url_no_pad(bytes: Seq<u8>) -> Seq<char>;

/// Characters of `A-Z`, `a-z` and `0-9`.
pub open spec fn is_alphanumeric_ascii(c: char) -> bool {
    ('A' <= c && c <= 'Z') || ('a' <= c && c <= 'z') || ('0' <= c && c <= '9')
}

/// Characters of the URL-safe base64 alphabet: `A-Z`, `a-z`, `0-9`, `-` and `_`.
pub open spec fn is_base64_url_char(c: char) -> bool {
    is_alphanumeric_ascii(c) || c == '-' || c == '_'
}

/// Every character of `s` is of the URL-safe base64 alphabet (so there is no `=` padding).
pub open spec fn is_base64_url_text(s: Seq<char>) -> bool {
    forall|i: int| 0 <= i < s.len() ==> is_base64_url_char(#[trigger] s[i])
}

/// `s` is a random string as this library makes them: the URL-safe unpadded base64 text of
/// some `RANDOM_SOURCE_LEN` alphanumeric characters.
pub open spec fn is_encoded_random_string(s: Seq<char>) -> bool {
    exists|raw: Seq<char>|
        #![trigger base64_url_no_pad(encode_utf8(raw))]
        raw.len() == RANDOM_SOURCE_LEN && (forall|i: int|
            0 <= i < raw.len() ==> is_alphanumeric_ascii(#[trigger] raw[i])) && s
            == base64_url_no_pad(encode_utf8(raw))
}

/// Length of the unpadded base64 text of `n` bytes: four characters for three bytes, and
/// two or three for a last one or two.
pub open spec fn base64_no_pad_len(n: nat) -> nat {
    (4 * n + 2) / 3
}

/// The challenge that a verifier's holder proves knowledge of: the URL-safe unpadded base64
/// text of the SHA-256 digest of the verifier's UTF-8 bytes.
pub open spec fn code_challenge_of(verifier: Seq<char>) -> Seq<char> {
    base64_url_no_pad(sha256_of(encode_utf8(verifier)))
}

/// Relies on sha2's `Sha256::digest`: the 32-byte SHA-256 digest of `bytes`.
#[verifier::external_body]
fn sha256(bytes: &[u8]) -> (r: Vec<u8>)
    ensures
        r@ == sha256_of(bytes@),
        r@.len() == 32,
{
    <sha2::Sha256 as sha2::Digest>::digest(bytes).to_vec()
}

/// Relies on base64's `URL_SAFE_NO_PAD` engine and `Engine::encode`: the URL-safe base64 text
/// of `bytes` in the alphabet `A-Z a-z 0-9 - _`, unpadded, of the length that `encoded_len`
/// gives.
#[verifier::external_body]
fn encode_url_safe_no_pad(bytes: &[u8]) -> (r: String)
    requires
        bytes@.len() <= usize::MAX / 2,
    ensures
        r@ == base64_url_no_pad(bytes@),
        r@.len() == base64_no_pad_len(bytes@.len()),
        is_base64_url_text(r@),
{
    base64::Engine::encode(&base64::engine::general_purpose::URL_SAFE_NO_PAD, bytes)
}

/// Relies on rand's `Alphanumeric` distribution, sampled through `DistString::sample_string`
/// with the thread-local generator of `rand::thread_rng`: `len` random characters of
/// `A-Z`, `a-z` and `0-9`.
#[verifier::external_body]
fn random_alphanumeric(len: usize) -> (r: String)
    ensures
        r@.len() == len,
        forall|i: int| 0 <= i < r@.len() ==> is_alphanumeric_ascii(#[trigger] r@[i]),
{
    rand::distributions::DistString::sample_string(
        &rand::distributions::Alphanumeric,
        &mut rand::thread_rng(),
        len,
    )
}

/// A fresh random string: 64 random alphanumeric characters, encoded as URL-safe base64
/// without padding (86 characters).
fn generate_random_string() -> (r: String)
    ensures
        is_encoded_random_string(r@),
        is_base64_url_text(r@),
        r@.len() == base64_no_pad_len(RANDOM_SOURCE_LEN as nat),
        r@.len() == 86,
{
    let raw = random_alphanumeric(RANDOM_SOURCE_LEN);
    proof {
        assert(is_ascii_chars(raw@));
        is_ascii_chars_encode_utf8(raw@);
    }
    let bytes = raw.as_str().as_bytes();
    assert(bytes@.len() == 64);
    let r = encode_url_safe_no_pad(bytes);
    assert(r@ == base64_url_no_pad(encode_utf8(raw@)));
    r
}

/// A fresh code verifier, within the 43 to 128 characters that RFC 7636 allows.
pub fn generate_code_verifier() -> (r: String)
    ensures
        is_encoded_random_string(r@),
        is_base64_url_text(r@),
        43 <= r@.len() < 128,
        r@.len() == base64_no_pad_len(RANDOM_SOURCE_LEN as nat),
{
    generate_random_string()
}

/// A fresh anti-forgery state, made as a code verifier is.
pub fn generate_state() -> (r: String)
    ensures
        is_encoded_random_string(r@),
        is_base64_url_text(r@),
        43 <= r@.len() < 128,
        r@.len() == base64_no_pad_len(RANDOM_SOURCE_LEN as nat),
{
    generate_random_string()
}

/// The S256 challenge of `code_verifier`.
pub fn generate_code_challenge(code_verifier: String) -> (r: String)
    ensures
        r@ == code_challenge_of(code_verifier@),
        r@.len() == 43,
        is_base64_url_text(r@),
{
    let digest = sha256(code_verifier.as_str().as_bytes());
    encode_url_safe_no_pad(digest.as_slice())
}

/// The challenge depends on the verifier alone: equal verifiers give equal challenges.
pub proof fn code_challenge_deterministic(a: Seq<char>, b: Seq<char>)
    requires
        a == b,
    ensures
        code_challenge_of(a) == code_challenge_of(b),
{
}

} // verus!
