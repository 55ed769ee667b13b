//! The nonce source: fresh unpredictable bytes from the process-wide
//! cryptographically secure random source. A failure to obtain randomness
//! is fatal for the whole operation and is not recovered locally.

use vstd::prelude::*;

verus! {

/// Relies on `rand::thread_rng` and `rand::Rng::fill` on a byte slice:
/// fills the buffer from the thread-local CSPRNG. Nothing is promised of
/// the values — they depend on the random source — only the length is
/// fixed. `fill` aborts the process if the operating system's random
/// source fails, which is the fatal condition the design calls for.
#[verifier::external_body]
pub(crate) fn generate_random_bytes(size: usize) -> (r: Vec<u8>)
    ensures
        r@.len() == size,
{
    let mut buf = vec![0u8; size];
    rand::Rng::fill(&mut rand::thread_rng(), buf.as_mut_slice());
    buf
}

} // verus!
