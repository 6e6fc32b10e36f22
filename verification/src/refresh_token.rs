//! Refresh tokens: 32 random bytes handed to the client in hex, while the
//! server keeps only the hex of their SHA-256 digest.
use vstd::prelude::*;
use sha2::{Digest, Sha256};
use crate::errors::AppError;

verus! {

#[verifier::external_type_specification]
#[verifier::external_body]
pub struct ExFromHexError(hex::FromHexError);

/// A freshly issued refresh token: what the client keeps and what the
/// session store keeps.
#[derive(Debug, Clone, PartialEq, Eq)]
pub struct RefreshToken {
    /// Hex of the token's bytes, sent to the client.
    pub refresh_token_client: String,
    /// Hex of the SHA-256 digest of the token's bytes, stored server-side.
    pub refresh_token_db: String,
}

/// The lower-case hex digit of `n` (`n < 16`).
pub open spec fn hex_digit(n: u8) -> char {
    if n < 10 {
        (48 + n) as char
    } else {
        (87 + n) as char
    }
}

/// Two lower-case hex digits per byte, most significant first.
pub open spec fn spec_hex_encode(data: Seq<u8>) -> Seq<char>
    decreases data.len(),
{
    if data.len() == 0 {
        Seq::empty()
    } else {
        seq![hex_digit(data[0] / 16), hex_digit(data[0] % 16)] + spec_hex_encode(data.drop_first())
    }
}

/// The value of a hex digit of either case.
pub open spec fn hex_value(c: char) -> Option<u8> {
    if '0' <= c && c <= '9' {
        Some((c as int - 48) as u8)
    } else if 'a' <= c && c <= 'f' {
        Some((c as int - 87) as u8)
    } else if 'A' <= c && c <= 'F' {
        Some((c as int - 55) as u8)
    } else {
        None
    }
}

/// The bytes that a hex text stands for: `None` when the text has an odd
/// length or a character that is not a hex digit.
pub open spec fn spec_hex_decode(s: Seq<char>) -> Option<Seq<u8>>
    decreases s.len(),
{
    if s.len() == 0 {
        Some(Seq::empty())
    } else if s.len() == 1 {
        None
    } else {
        match (hex_value(s[0]), hex_value(s[1]), spec_hex_decode(s.subrange(2, s.len() as int))) {
            (Some(hi), Some(lo), Some(rest)) => Some(seq![(hi * 16 + lo) as u8] + rest),
            _ => None,
        }
    }
}

/// The SHA-256 digest of `data`.
pub uninterp spec fn sha256_digest(data: Seq<u8>) -> Seq<u8>;

/// The server-side form of the refresh token whose client form is `text`.
pub open spec fn spec_stored_form(text: Seq<char>) -> Option<Seq<char>> {
    match spec_hex_decode(text) {
        Some(bytes) => Some(spec_hex_encode(sha256_digest(bytes))),
        None => None,
    }
}

/// `rand::random::<[u8; 32]>()`: 32 bytes from the thread-local generator.
/// Nothing is stated of their value.
#[verifier::external_body]
fn random_token_bytes() -> (bytes: [u8; 32]) {
    rand::random::<[u8; 32]>()
}

/// `Sha256::digest`: the 32-byte SHA-256 digest of `data`.
#[verifier::external_body]
fn sha256(data: &[u8]) -> (digest: Vec<u8>)
    ensures
        digest@ == sha256_digest(data@),
        digest@.len() == 32,
{
    Sha256::digest(data).to_vec()
}

/// `hex::encode`: two lower-case hex digits per byte.
#[verifier::external_body]
fn hex_encode(data: &[u8]) -> (text: String)
    ensures
        text@ == spec_hex_encode(data@),
{
    hex::encode(data)
}

/// `hex::decode` of the text's bytes: digits of either case, pairwise; an
/// error for an odd length or a byte that is not a hex digit (every
/// non-ASCII character is such a byte).
#[verifier::external_body]
fn hex_decode(text: &str) -> (bytes: Result<Vec<u8>, hex::FromHexError>)
    ensures
        bytes is Ok <==> spec_hex_decode(text@) is Some,
        bytes matches Ok(v) ==> v@ == spec_hex_decode(text@)->0,
{
    hex::decode(text)
}

/// The refresh token made of `bytes`: their hex for the client, the hex of
/// their SHA-256 digest for the session store.
pub fn refresh_token_from_bytes(bytes: &[u8; 32]) -> (token: RefreshToken)
    ensures
        token.refresh_token_client@ == spec_hex_encode(bytes@),
        token.refresh_token_db@ == spec_hex_encode(sha256_digest(bytes@)),
{
    let digest = sha256(bytes.as_slice());
    let refresh_token_client = hex_encode(bytes.as_slice());
    let refresh_token_db = hex_encode(digest.as_slice());
    RefreshToken { refresh_token_client, refresh_token_db }
}

/// Issues a new refresh token from 32 random bytes.
pub fn get_refresh_token() -> (token: RefreshToken)
    ensures
        exists|bytes: Seq<u8>|
            bytes.len() == 32 && token.refresh_token_client@ == spec_hex_encode(bytes)
                && token.refresh_token_db@ == spec_hex_encode(sha256_digest(bytes)),
{
    let bytes = random_token_bytes();
    refresh_token_from_bytes(&bytes)
}

/// Turns the token a client presents into the form the session store keeps;
/// text that is not hex is refused as `Unauthorized`.
pub fn decode_refresh_token(refresh_token: &str) -> (stored: Result<String, AppError>)
    ensures
        stored is Ok <==> spec_stored_form(refresh_token@) is Some,
        stored matches Ok(s) ==> s@ == spec_stored_form(refresh_token@)->0,
        stored matches Err(e) ==> e == AppError::Unauthorized,
{
    let bytes = match hex_decode(refresh_token) {
        Ok(b) => b,
        Err(_) => return Err(AppError::Unauthorized),
    };
    let digest = sha256(bytes.as_slice());
    Ok(hex_encode(digest.as_slice()))
}

proof fn lemma_hex_digit_value(n: u8)
    requires
        n < 16,
    ensures
        hex_value(hex_digit(n)) == Some(n),
{
}

proof fn lemma_hex_roundtrip(data: Seq<u8>)
    ensures
        spec_hex_decode(spec_hex_encode(data)) == Some(data),
        spec_hex_encode(data).len() == 2 * data.len(),
    decreases data.len(),
{
    if data.len() > 0 {
        let b = data[0];
        lemma_hex_digit_value(b / 16);
        lemma_hex_digit_value(b % 16);
        lemma_hex_roundtrip(data.drop_first());
        let e = spec_hex_encode(data);
        assert(e.subrange(2, e.len() as int) =~= spec_hex_encode(data.drop_first()));
        assert(((b / 16) * 16 + b % 16) as u8 == b);
        assert(seq![b] + data.drop_first() =~= data);
    }
}

/// Hex decoding undoes hex encoding.
pub proof fn law_hex_decode_undoes_encode(data: Seq<u8>)
    ensures
        spec_hex_decode(spec_hex_encode(data)) == Some(data),
{
    lemma_hex_roundtrip(data);
}

/// The token a client was handed always maps back to the form the session
/// store received at issue time.
pub proof fn law_issued_token_maps_to_stored(bytes: Seq<u8>)
    ensures
        spec_stored_form(spec_hex_encode(bytes)) == Some(spec_hex_encode(sha256_digest(bytes))),
{
    lemma_hex_roundtrip(bytes);
}

} // verus!
