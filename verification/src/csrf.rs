//! CSRF token generation.

use vstd::prelude::*;
use base64::Engine;
use crate::errors::VaultResult;
use crate::rng::random_bytes;

verus! {

/// The size of the CSRF token in bytes, before encoding.
pub const CSRF_TOKEN_SIZE: usize = 32;

/// How long an issued CSRF token stays valid in the ephemeral store, in
/// seconds (1 h).
pub const CSRF_TOKEN_TTL_SECS: u64 = 3600;

/// The URL-safe, unpadded base64 text of a byte string.
pub uninterp spec fn b64url_nopad(bytes: Seq<u8>) -> Seq<char>;

/// Whether a character belongs to the URL-safe base64 alphabet:
/// `A-Z a-z 0-9 - _`.
pub open spec fn spec_b64url_char(c: char) -> bool {
    ('A' <= c <= 'Z') || ('a' <= c <= 'z') || ('0' <= c <= '9') || c == '-' || c == '_'
}

/// Relies on base64's `URL_SAFE_NO_PAD` engine: encodes the bytes as URL-safe
/// base64 without padding.  The text depends on the bytes alone, is four
/// characters for every three bytes (rounded up), is drawn from the URL-safe
/// alphabet, and — base64 being lossless — determines the bytes uniquely.
#[verifier::external_body]
fn encode_b64url_nopad(bytes: &Vec<u8>) -> (r: String)
    ensures
        r@ == b64url_nopad(bytes@),
        r@.len() == (bytes@.len() * 4 + 2) / 3,
        forall|i: int| 0 <= i < r@.len() ==> spec_b64url_char(#[trigger] r@[i]),
        forall|other: Seq<u8>| b64url_nopad(other) == r@ ==> other == bytes@,
{
    base64::engine::general_purpose::URL_SAFE_NO_PAD.encode(bytes)
}

/// Generates a new random CSRF token: 32 random bytes as 43 characters of
/// URL-safe base64.  The token determines its 32 bytes uniquely.
pub fn generate_csrf_token() -> (r: VaultResult<String>)
    ensures
        r matches Ok(t) && t@.len() == 43 && (forall|i: int|
            0 <= i < t@.len() ==> spec_b64url_char(#[trigger] t@[i])) && exists|b: Seq<u8>|
            b.len() == CSRF_TOKEN_SIZE && b64url_nopad(b) == t@ && (forall|other: Seq<u8>|
                b64url_nopad(other) == t@ ==> other == b),
{
    let token = random_bytes(CSRF_TOKEN_SIZE);
    Ok(encode_b64url_nopad(&token))
}

} // verus!
