//! Wrappers around the outside crates the node relies on: hashing,
//! encoding, randomness and the clock. Each wrapper's contract states only
//! what the crate's own documentation promises.

use vstd::prelude::*;
use sha2::Digest;

verus! {

/// The SHA-256 digest of a byte sequence. The digest is a pure function
/// of the input, so it is given a name rather than an algorithm.
pub uninterp spec fn sha256_of(bytes: Seq<u8>) -> Seq<u8>;

/// The standard base64 encoding (with padding) of a byte sequence; a pure
/// function of the input.
pub uninterp spec fn base64_of(bytes: Seq<u8>) -> Seq<char>;

/// Relies on sha2's `Sha256::digest`: the digest depends on the input
/// bytes alone and is always 32 bytes long.
#[verifier::external_body]
pub fn sha256_bytes(input: &[u8]) -> (r: Vec<u8>)
    ensures
        r@ == sha256_of(input@),
        r@.len() == 32,
{
    sha2::Sha256::digest(input).to_vec()
}

/// Relies on base64's `encode` (standard alphabet, padded): the encoding
/// depends on the input bytes alone and encodes every 3-byte group as 4
/// characters.
#[verifier::external_body]
pub fn base64_string(input: &[u8]) -> (r: String)
    ensures
        r@ == base64_of(input@),
        r@.len() == 4 * ((input@.len() + 2) / 3),
{
    base64::encode(input)
}

/// Relies on rand's `gen_range`: a fresh draw uniform in `0..1000`.
/// Nothing is promised beyond the range; two calls may differ.
#[verifier::external_body]
pub fn random_millis() -> (r: u64)
    ensures
        r < 1000,
{
    rand::Rng::gen_range(&mut rand::thread_rng(), 0u64..1000u64)
}

/// Relies on std::time's `SystemTime` clock: whole seconds since the Unix
/// epoch, zero for a clock before the epoch (the pre-epoch error arm is
/// taken instead of unwinding). The value depends on the clock, so
/// nothing is promised of it.
#[verifier::external_body]
pub fn now_unix_seconds() -> (r: u64)
{
    match std::time::SystemTime::now().duration_since(std::time::UNIX_EPOCH) {
        Ok(elapsed) => elapsed.as_secs(),
        Err(_) => 0,
    }
}

} // verus!
