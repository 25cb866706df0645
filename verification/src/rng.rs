//! Randomness source for keys, nonces and salts.

use vstd::prelude::*;
use rand::RngCore;

verus! {

/// Relies on rand's `OsRng::fill_bytes`: fills a fresh buffer of the requested
/// length from the operating system's random source.  Nothing can be promised
/// about the bytes themselves.
#[verifier::external_body]
pub fn random_bytes(len: usize) -> (r: Vec<u8>)
    ensures
        r@.len() == len,
{
    let mut buf = vec![0u8; len];
    rand::rngs::OsRng.fill_bytes(&mut buf);
    buf
}

} // verus!
