//! Token hashing: SHA-256 and base64, each behind a trusted boundary, and
//! the verified composition that turns a token into its persisted hash.

use vstd::prelude::*;

verus! {

use base64::Engine;
use sha2::Digest;

/// The SHA-256 digest of a byte sequence: a function of its input alone,
/// left without a definition because nothing here could check one.
pub uninterp spec fn sha256_of(data: Seq<u8>) -> Seq<u8>;

/// The standard padded base64 rendering of a byte sequence, a function of
/// its input alone.
pub uninterp spec fn base64_of(data: Seq<u8>) -> Seq<char>;

/// Relies on sha2's Sha256 (the Digest trait): the 32-byte SHA-256 digest
/// of the input, depending on the input alone.
#[verifier::external_body]
pub fn sha256(data: &[u8]) -> (r: Vec<u8>)
    ensures
        r@ == sha256_of(data@),
        r@.len() == 32,
{
    sha2::Sha256::digest(data).to_vec()
}

/// Relies on base64's STANDARD engine: the padded base64 text of the input,
/// depending on the input alone; four characters for every three input
/// bytes, rounded up.
#[verifier::external_body]
pub fn base64_encode(data: &[u8]) -> (r: String)
    ensures
        r@ == base64_of(data@),
        r@.len() == 4 * ((data@.len() + 2) / 3),
{
    base64::engine::general_purpose::STANDARD.encode(data)
}

/// What `hash_token` stores: the base64 of the SHA-256 of the token's
/// UTF-8 bytes.
pub open spec fn token_hash_of(token: Seq<char>) -> Seq<char> {
    base64_of(sha256_of(vstd::utf8::encode_utf8(token)))
}

/// Hashes a token for storage: only this hash is ever persisted, never the
/// token itself.
pub fn hash_token(token: &str) -> (r: String)
    ensures
        r@ == token_hash_of(token@),
        r@.len() == 44,
{
    let digest = sha256(token.as_bytes());
    base64_encode(digest.as_slice())
}

} // verus!
