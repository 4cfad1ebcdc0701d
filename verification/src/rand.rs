//! Randomness, from the system's secure random source.

use vstd::prelude::*;
use ring::rand::SecureRandom;
use crate::error::Error;

verus! {

/// Relies on ring::rand::SystemRandom::fill: on success the buffer is
/// filled with random bytes; its length never changes.  Nothing can be
/// promised of the values drawn.
#[verifier::external_body]
fn fill_random(dest: &mut Vec<u8>) -> (ok: bool)
    ensures
        final(dest)@.len() == old(dest)@.len(),
{
    ring::rand::SystemRandom::new().fill(dest.as_mut_slice()).is_ok()
}

/// Draw `len` random bytes, or report that the source failed.
pub fn random_vec(len: usize) -> (r: Result<Vec<u8>, Error>)
    ensures
        r matches Ok(v) ==> v@.len() == len,
        r is Err ==> r == Err::<Vec<u8>, Error>(Error::FailedToGetRandomBytes),
{
    let mut buf: Vec<u8> = Vec::new();
    let mut i: usize = 0;
    while i < len
        invariant
            i <= len,
            buf@.len() == i,
        decreases len - i,
    {
        buf.push(0u8);
        i = i + 1;
    }
    if fill_random(&mut buf) {
        Ok(buf)
    } else {
        Err(Error::FailedToGetRandomBytes)
    }
}

} // verus!
