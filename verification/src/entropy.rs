//! Fresh randomness and identifiers, behind trusted boundaries: nothing can
//! be promised of a random value beyond its shape.

use vstd::prelude::*;

use rand::Rng;

verus! {

/// Relies on rand's thread_rng and gen_range: a uniform number below one
/// million, the raw value of a six-digit PIN.
#[verifier::external_body]
pub fn random_pin_number() -> (r: u32)
    ensures
        r < 1000000,
{
    rand::thread_rng().gen_range(0..1000000u32)
}

/// Relies on rand's thread_rng and gen: 32 cryptographically random bytes
/// for a fresh token.
#[verifier::external_body]
pub fn random_token_bytes() -> (r: Vec<u8>)
    ensures
        r@.len() == 32,
{
    let bytes: [u8; 32] = rand::thread_rng().gen();
    bytes.to_vec()
}

/// Relies on uuid's Uuid::new_v4 and its Display form: a fresh random UUID
/// as 36 characters of lowercase hyphenated hex.
#[verifier::external_body]
pub fn new_uuid_string() -> (r: String)
    ensures
        r@.len() == 36,
{
    uuid::Uuid::new_v4().to_string()
}

} // verus!
