//! The orchestrator: the encrypt and decrypt pipelines and the wire frame
//! layout `nonce ‖ ciphertext ‖ tag`, with the nonce at bytes 0..64, the
//! ciphertext at 64..len-32 and the tag in the last 32 bytes. The frame is
//! the sole persisted artifact; the smallest valid frame (an empty
//! plaintext) holds 96 bytes.

use vstd::prelude::*;
use crate::auth::{generate_hmac, hmac_sha256, verify_hmac};
use crate::combiner::{lemma_xor3_self_inverse, xor3, xor_encrypt_decrypt_with_iv};
use crate::errors::CryptoError;
use crate::ivderive::{derive_iv_with_argon2, derive_supported, derived_iv};
use crate::nonce::generate_random_bytes;

verus! {

/// Bytes of nonce at the head of every frame.
pub const NONCE_SIZE: usize = 64;

/// Bytes of authentication tag at the tail of every frame.
pub const MAC_SIZE: usize = 32;

/// The nonce region of a frame: its first 64 bytes.
pub open spec fn frame_nonce(frame: Seq<u8>) -> Seq<u8> {
    frame.take(64)
}

/// The ciphertext region of a frame: everything between nonce and tag.
pub open spec fn frame_ciphertext(frame: Seq<u8>) -> Seq<u8> {
    frame.subrange(64, frame.len() - 32)
}

/// The tag region of a frame: its last 32 bytes.
pub open spec fn frame_tag(frame: Seq<u8>) -> Seq<u8> {
    frame.subrange(frame.len() - 32, frame.len() as int)
}

/// The authenticated message of a frame: everything but the tag, that is
/// `nonce ‖ ciphertext`.
pub open spec fn auth_message(frame: Seq<u8>) -> Seq<u8> {
    frame.take(frame.len() - 32)
}

/// The ciphertext that encrypting `plaintext` under `key` with a given
/// nonce produces: the plaintext combined with the key prefix and the
/// keystream derived from the nonce.
pub open spec fn ciphertext_of(plaintext: Seq<u8>, key: Seq<u8>, nonce: Seq<u8>) -> Seq<u8> {
    xor3(plaintext, key, derived_iv(nonce, plaintext.len() as int))
}

/// The whole frame that encrypting `plaintext` under `key` with a given
/// nonce produces: `nonce ‖ ciphertext ‖ tag`, the tag taken over
/// `nonce ‖ ciphertext` under the same key.
pub open spec fn frame_of(plaintext: Seq<u8>, key: Seq<u8>, nonce: Seq<u8>) -> Seq<u8> {
    let body = nonce + ciphertext_of(plaintext, key, nonce);
    body + hmac_sha256(key, body)
}

/// Whether a frame's tag is the keyed tag of its own nonce and ciphertext
/// under `key`.
pub open spec fn frame_authentic(frame: Seq<u8>, key: Seq<u8>) -> bool {
    frame_tag(frame) == hmac_sha256(key, auth_message(frame))
}

/// The plaintext that decrypting a frame under `key` recovers: the
/// ciphertext region combined with the key prefix and the keystream
/// derived from the frame's own nonce.
pub open spec fn recovered_plaintext(frame: Seq<u8>, key: Seq<u8>) -> Seq<u8> {
    xor3(frame_ciphertext(frame), key, derived_iv(frame_nonce(frame), frame.len() - 96))
}

/// Appends all of `src` to `dst`, in order.
fn append_bytes(dst: &mut Vec<u8>, src: &[u8])
    ensures
        final(dst)@ == old(dst)@ + src@,
{
    let mut i: usize = 0;
    while i < src.len()
        invariant
            i <= src@.len(),
            dst@ == old(dst)@ + src@.take(i as int),
        decreases src@.len() - i,
    {
        dst.push(src[i]);
        proof {
            assert(old(dst)@ + src@.take(i + 1) =~= (old(dst)@ + src@.take(i as int)).push(
                src@[i as int],
            ));
        }
        i = i + 1;
    }
    proof {
        assert(old(dst)@ + src@.take(src@.len() as int) =~= old(dst)@ + src@);
    }
}

/// Encrypts `plaintext` under `key` with a caller-supplied 64-byte nonce:
/// derives the keystream from the nonce, combines, tags `nonce ‖
/// ciphertext`, and assembles the frame. Fails exactly on a key shorter
/// than the plaintext, or on a plaintext length the derivation refuses.
pub fn encrypt_with_nonce(plaintext: &[u8], key: &[u8], nonce: &[u8]) -> (r: Result<
    Vec<u8>,
    CryptoError,
>)
    requires
        nonce@.len() == 64,
    ensures
        (r matches Err(e) && e == CryptoError::KeyTooShort) <==> key@.len() < plaintext@.len(),
        r matches Err(e) ==> e == CryptoError::KeyTooShort || e == CryptoError::DerivationFailed,
        (key@.len() >= plaintext@.len() && derive_supported(64, plaintext@.len() as int))
            <==> r matches Ok(_),
        r matches Ok(f) ==> f@ == frame_of(plaintext@, key@, nonce@) && f@.len() == plaintext@.len()
            + 96,
{
    if key.len() < plaintext.len() {
        return Err(CryptoError::KeyTooShort);
    }
    let iv = match derive_iv_with_argon2(nonce, plaintext.len()) {
        Ok(iv) => iv,
        Err(e) => {
            return Err(e);
        },
    };
    let ciphertext = xor_encrypt_decrypt_with_iv(plaintext, key, iv.as_slice());
    let mut frame: Vec<u8> = Vec::new();
    append_bytes(&mut frame, nonce);
    append_bytes(&mut frame, ciphertext.as_slice());
    proof {
        assert(Seq::<u8>::empty() + nonce@ =~= nonce@);
        assert(frame@ =~= nonce@ + ciphertext_of(plaintext@, key@, nonce@));
    }
    let tag = generate_hmac(key, frame.as_slice());
    append_bytes(&mut frame, tag.as_slice());
    proof {
        assert(frame@ == frame_of(plaintext@, key@, nonce@));
    }
    Ok(frame)
}

/// Encrypts `plaintext` under `key` with a fresh random 64-byte nonce.
/// The output frame is 96 bytes longer than the plaintext. Fails exactly
/// on a key shorter than the plaintext, or on a plaintext length the
/// derivation refuses; which frame comes out depends on the drawn nonce.
pub fn encrypt(plaintext: &[u8], key: &[u8]) -> (r: Result<Vec<u8>, CryptoError>)
    ensures
        (r matches Err(e) && e == CryptoError::KeyTooShort) <==> key@.len() < plaintext@.len(),
        r matches Err(e) ==> e == CryptoError::KeyTooShort || e == CryptoError::DerivationFailed,
        (key@.len() >= plaintext@.len() && derive_supported(64, plaintext@.len() as int))
            <==> r matches Ok(_),
        r matches Ok(f) ==> f@.len() == plaintext@.len() + 96,
        r matches Ok(f) ==> exists|nonce: Seq<u8>|
            nonce.len() == 64 && f@ == frame_of(plaintext@, key@, nonce),
{
    let nonce = generate_random_bytes(NONCE_SIZE);
    let r = encrypt_with_nonce(plaintext, key, nonce.as_slice());
    proof {
        match &r {
            Ok(f) => {
                assert(nonce@.len() == 64 && f@ == frame_of(plaintext@, key@, nonce@));
            },
            Err(_) => {},
        }
    }
    r
}

/// Decrypts a frame under `key`: checks the frame and key lengths, splits
/// the frame at its fixed offsets, rebuilds the keystream from the
/// embedded nonce, verifies the tag over `nonce ‖ ciphertext`, and only
/// then recovers the plaintext. No plaintext is released on any failure.
pub fn decrypt(frame: &[u8], key: &[u8]) -> (r: Result<Vec<u8>, CryptoError>)
    ensures
        (r matches Err(e) && e == CryptoError::FrameTooShort) <==> frame@.len() < 96,
        frame@.len() >= 96 ==> ((r matches Err(e) && e == CryptoError::KeyTooShort) <==> key@.len()
            < frame@.len() - 96),
        r matches Err(e) && e == CryptoError::IntegrityFailure ==> frame@.len() >= 96
            && !frame_authentic(frame@, key@),
        (frame@.len() >= 96 && key@.len() >= frame@.len() - 96) ==> ((r matches Err(e) && e
            == CryptoError::DerivationFailed) <==> !derive_supported(64, frame@.len() - 96)),
        (frame@.len() >= 96 && key@.len() >= frame@.len() - 96 && derive_supported(
            64,
            frame@.len() - 96,
        )) ==> ((r matches Ok(_)) <==> frame_authentic(frame@, key@)),
        r matches Ok(p) ==> frame@.len() >= 96 && key@.len() >= frame@.len() - 96
            && frame_authentic(frame@, key@) && p@ == recovered_plaintext(frame@, key@),
{
    if frame.len() < NONCE_SIZE + MAC_SIZE {
        return Err(CryptoError::FrameTooShort);
    }
    let ciphertext_len = frame.len() - NONCE_SIZE - MAC_SIZE;
    if key.len() < ciphertext_len {
        return Err(CryptoError::KeyTooShort);
    }
    let (body, received_tag) = frame.split_at(frame.len() - MAC_SIZE);
    let (nonce, ciphertext) = body.split_at(NONCE_SIZE);
    proof {
        assert(body@ == auth_message(frame@));
        assert(received_tag@ =~= frame_tag(frame@));
        assert(nonce@ =~= frame_nonce(frame@));
        assert(ciphertext@ =~= frame_ciphertext(frame@));
    }
    let iv = match derive_iv_with_argon2(nonce, ciphertext.len()) {
        Ok(iv) => iv,
        Err(e) => {
            return Err(e);
        },
    };
    if !verify_hmac(key, body, received_tag) {
        return Err(CryptoError::IntegrityFailure);
    }
    let plaintext = xor_encrypt_decrypt_with_iv(ciphertext, key, iv.as_slice());
    Ok(plaintext)
}

/// Law: round trip. Whatever 64-byte nonce an encryption drew, the frame
/// it assembled is authentic under the same key, and recovering from it
/// gives back the original plaintext. The frame-length premise records
/// that the tag holds 32 bytes, as every tag the authenticator produces
/// does.
pub proof fn lemma_round_trip(plaintext: Seq<u8>, key: Seq<u8>, nonce: Seq<u8>, frame: Seq<u8>)
    requires
        key.len() >= plaintext.len(),
        nonce.len() == 64,
        frame == frame_of(plaintext, key, nonce),
        frame.len() == plaintext.len() + 96,
    ensures
        frame_authentic(frame, key),
        recovered_plaintext(frame, key) == plaintext,
{
    let ct = ciphertext_of(plaintext, key, nonce);
    let body = nonce + ct;
    let tag = hmac_sha256(key, body);
    assert(ct.len() == plaintext.len());
    assert(tag.len() == 32);
    assert(auth_message(frame) =~= body);
    assert(frame_tag(frame) =~= tag);
    assert(frame_nonce(frame) =~= nonce);
    assert(frame_ciphertext(frame) =~= ct);
    lemma_xor3_self_inverse(plaintext, key, derived_iv(nonce, plaintext.len() as int));
}

/// Law: tag-region tampering is always caught. A frame that agrees with an
/// authentic frame on its nonce and ciphertext but differs in its tag
/// bytes is inauthentic, so decrypt can never accept it. (A change inside
/// the ciphertext region is caught whenever it changes the recomputed tag,
/// which no fact about the tag function can establish here.)
pub proof fn lemma_tag_tamper_detected(frame: Seq<u8>, tampered: Seq<u8>, key: Seq<u8>)
    requires
        frame.len() >= 96,
        tampered.len() == frame.len(),
        frame_authentic(frame, key),
        auth_message(tampered) == auth_message(frame),
        frame_tag(tampered) != frame_tag(frame),
    ensures
        !frame_authentic(tampered, key),
{
}

} // verus!
