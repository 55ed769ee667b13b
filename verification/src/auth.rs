//! The authenticator: a keyed HMAC-SHA256 tag over the assembled frame
//! body (nonce ‖ ciphertext), computed identically on the encrypt and
//! decrypt paths. The authentication key is the same raw key used by the
//! combiner — a deliberate simplification that binds confidentiality and
//! integrity material together.

use vstd::prelude::*;

verus! {

/// The 32-byte HMAC-SHA256 tag for a given key and message: a function of
/// the key and the message alone.
pub uninterp spec fn hmac_sha256(key: Seq<u8>, message: Seq<u8>) -> Seq<u8>;

/// Relies on `hmac::Hmac<sha2::Sha256>` through `hmac::Mac` (the
/// `new_from_slice`, `update` and `finalize` methods): accepts a key of
/// any length (`new_from_slice` for an HMAC never fails) and yields the
/// 32-byte HMAC-SHA256 tag of the message.
#[verifier::external_body]
fn hmac_sha256_tag(key: &[u8], data: &[u8]) -> (r: Vec<u8>)
    ensures
        r@ == hmac_sha256(key@, data@),
        r@.len() == 32,
{
    let mut mac = <hmac::Hmac<sha2::Sha256> as hmac::Mac>::new_from_slice(key)
        .expect("HMAC accepts a key of any length");
    hmac::Mac::update(&mut mac, data);
    hmac::Mac::finalize(mac).into_bytes().to_vec()
}

/// Computes the 32-byte keyed tag of `data` under `key`.
pub fn generate_hmac(key: &[u8], data: &[u8]) -> (r: Vec<u8>)
    ensures
        r@ == hmac_sha256(key@, data@),
        r@.len() == 32,
{
    hmac_sha256_tag(key, data)
}

/// Recomputes the tag of `data` under `key` and compares it with
/// `received_mac`: passes exactly when the candidate has the full tag
/// length and equals the freshly computed tag. Any mismatch is rejected
/// uniformly; the caller aborts the run on failure.
pub fn verify_hmac(key: &[u8], data: &[u8], received_mac: &[u8]) -> (r: bool)
    ensures
        r <==> (received_mac@.len() == 32 && received_mac@ == hmac_sha256(key@, data@)),
{
    let expected = generate_hmac(key, data);
    if received_mac.len() != expected.len() {
        return false;
    }
    let mut i: usize = 0;
    while i < expected.len()
        invariant
            i <= expected@.len(),
            expected@ == hmac_sha256(key@, data@),
            expected@.len() == 32,
            expected@.len() == received_mac@.len(),
            forall|j: int| 0 <= j < i ==> expected@[j] == received_mac@[j],
        decreases expected@.len() - i,
    {
        if expected[i] != received_mac[i] {
            return false;
        }
        i = i + 1;
    }
    proof {
        assert(expected@ =~= received_mac@);
    }
    true
}

} // verus!
