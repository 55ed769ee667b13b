//! The IV deriver: stretches a nonce into a pseudorandom keystream of a
//! requested length with a memory-hard derivation function. The nonce
//! serves as both the secret input and the salt of the derivation — an
//! unusual arrangement, kept deliberately: the keystream must be a pure
//! function of the transmitted nonce alone so that decryption can rebuild
//! it, while the derivation's time and memory cost still slows brute-force
//! keystream recovery. Changing the salt would change the wire format.

use vstd::prelude::*;
use crate::errors::CryptoError;

verus! {

/// The byte sequence the memory-hard derivation yields for a given nonce
/// and requested length. Deterministic: the same nonce and length always
/// give the same keystream, in every process and on every machine.
pub uninterp spec fn derived_iv(nonce: Seq<u8>, length: int) -> Seq<u8>;

/// Whether the derivation accepts a nonce of length `nonce_len` as its
/// salt and an output of `length` bytes: the salt must hold at least 8
/// bytes and the output at least 4, and both at most 2^32 - 1.
pub open spec fn derive_supported(nonce_len: int, length: int) -> bool {
    &&& 8 <= nonce_len <= 0xFFFF_FFFF
    &&& 4 <= length <= 0xFFFF_FFFF
}

/// Relies on `argon2::Argon2::hash_password_into` with `Argon2::default()`:
/// fills the output buffer with a value that is deterministic in the
/// password, the salt and the output length (here the nonce is both the
/// password and the salt), and returns `Ok` exactly when the salt length
/// lies in `8..=2^32-1` and the output length in `4..=2^32-1` (the
/// password-length bound coincides with the salt bound, both being the
/// nonce).
#[verifier::external_body]
fn argon2_stretch(nonce: &[u8], length: usize) -> (r: Option<Vec<u8>>)
    ensures
        r matches Some(iv) ==> iv@.len() == length && iv@ == derived_iv(nonce@, length as int),
        (r matches Some(_)) <==> derive_supported(nonce@.len() as int, length as int),
{
    let argon2 = argon2::Argon2::default();
    let mut iv = vec![0u8; length];
    match argon2.hash_password_into(nonce, nonce, &mut iv) {
        Ok(()) => Some(iv),
        Err(_) => None,
    }
}

/// Derives `length` keystream bytes from `nonce`. Fails exactly when the
/// derivation refuses the argument sizes; there is no partial result.
pub fn derive_iv_with_argon2(nonce: &[u8], length: usize) -> (r: Result<Vec<u8>, CryptoError>)
    ensures
        r matches Ok(iv) ==> iv@.len() == length && iv@ == derived_iv(nonce@, length as int),
        (r matches Ok(_)) <==> derive_supported(nonce@.len() as int, length as int),
        r matches Err(e) ==> e == CryptoError::DerivationFailed,
{
    match argon2_stretch(nonce, length) {
        Some(iv) => Ok(iv),
        None => Err(CryptoError::DerivationFailed),
    }
}

/// Law: derivation is deterministic — two independent derivations from the
/// same nonce and requested length yield the same keystream.
pub proof fn lemma_derivation_deterministic(
    nonce: Seq<u8>,
    length: int,
    iv1: Seq<u8>,
    iv2: Seq<u8>,
)
    requires
        iv1 == derived_iv(nonce, length),
        iv2 == derived_iv(nonce, length),
    ensures
        iv1 == iv2,
{
}

} // verus!
