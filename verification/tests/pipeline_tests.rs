use otp_frame::errors::CryptoError;
use otp_frame::pipeline::{decrypt, encrypt, encrypt_with_nonce};

fn sample_key() -> Vec<u8> {
    vec![0xAA; 32]
}

fn hello() -> Vec<u8> {
    b"hello".to_vec()
}

#[test]
fn round_trip_hello_frame_size() {
    let key = sample_key();
    let frame = encrypt(&hello(), &key).unwrap();
    assert_eq!(frame.len(), 64 + 5 + 32);
    let recovered = decrypt(&frame, &key).unwrap();
    assert_eq!(recovered, hello());
}

#[test]
fn round_trip_longer_plaintext() {
    let plaintext: Vec<u8> = (0..200u16).map(|i| (i % 251) as u8).collect();
    let key: Vec<u8> = (0..256u16).map(|i| (i * 7 % 256) as u8).collect();
    let frame = encrypt(&plaintext, &key).unwrap();
    assert_eq!(frame.len(), 200 + 96);
    let recovered = decrypt(&frame, &key).unwrap();
    assert_eq!(recovered, plaintext);
}

#[test]
fn two_encryptions_differ() {
    let key = sample_key();
    let f1 = encrypt(&hello(), &key).unwrap();
    let f2 = encrypt(&hello(), &key).unwrap();
    assert_ne!(f1, f2);
    assert_ne!(&f1[..64], &f2[..64]);
}

#[test]
fn fixed_nonce_encryption_is_deterministic() {
    let key = sample_key();
    let nonce = [9u8; 64];
    let f1 = encrypt_with_nonce(&hello(), &key, &nonce).unwrap();
    let f2 = encrypt_with_nonce(&hello(), &key, &nonce).unwrap();
    assert_eq!(f1, f2);
    assert_eq!(&f1[..64], &nonce[..]);
    assert_eq!(decrypt(&f1, &key).unwrap(), hello());
}

#[test]
fn truncated_frames_rejected() {
    let key = sample_key();
    for len in [0usize, 1, 63, 64, 95] {
        let frame = vec![0x5C; len];
        assert_eq!(decrypt(&frame, &key), Err(CryptoError::FrameTooShort));
    }
}

#[test]
fn minimum_length_frame_fails_derivation() {
    // A 96-byte frame has an empty ciphertext, a length the memory-hard
    // derivation refuses, so the pipeline stops before tag verification.
    let frame = vec![0u8; 96];
    assert_eq!(decrypt(&frame, &[]), Err(CryptoError::DerivationFailed));
}

#[test]
fn encrypt_key_too_short() {
    assert_eq!(encrypt(&hello(), &[0xAA; 4]), Err(CryptoError::KeyTooShort));
    assert_eq!(encrypt(&hello(), &[]), Err(CryptoError::KeyTooShort));
}

#[test]
fn decrypt_key_too_short() {
    let key = sample_key();
    let frame = encrypt(&hello(), &key).unwrap();
    // Five ciphertext bytes need at least five key bytes.
    assert_eq!(decrypt(&frame, &[0xAA; 4]), Err(CryptoError::KeyTooShort));
    // The length checks run before any cryptography, so a key of exactly
    // the ciphertext length passes them and reaches tag verification.
    let r = decrypt(&frame, &[0xAA; 5]);
    assert_ne!(r, Err(CryptoError::KeyTooShort));
}

#[test]
fn encrypt_short_plaintext_fails_derivation() {
    let key = sample_key();
    assert_eq!(encrypt(&[], &key), Err(CryptoError::DerivationFailed));
    assert_eq!(encrypt(b"abc", &key), Err(CryptoError::DerivationFailed));
}

#[test]
fn encrypt_four_byte_plaintext_round_trips() {
    // Four bytes is the smallest plaintext the derivation accepts.
    let key = sample_key();
    let frame = encrypt(b"abcd", &key).unwrap();
    assert_eq!(frame.len(), 100);
    assert_eq!(decrypt(&frame, &key).unwrap(), b"abcd".to_vec());
}

fn assert_bit_flips_rejected(frame: &[u8], key: &[u8], flips: &[(usize, u8)]) {
    for &(pos, bit) in flips {
        let mut tampered = frame.to_vec();
        tampered[pos] ^= 1 << bit;
        assert_eq!(
            decrypt(&tampered, key),
            Err(CryptoError::IntegrityFailure),
            "flip at byte {} bit {} was not caught",
            pos,
            bit
        );
    }
}

fn hello_frame_and_key() -> (Vec<u8>, Vec<u8>) {
    let key = sample_key();
    let frame = encrypt(&hello(), &key).unwrap();
    (frame, key)
}

#[test]
fn tamper_ciphertext_bytes_64_66() {
    let (frame, key) = hello_frame_and_key();
    let flips: Vec<(usize, u8)> = (0..8u8).map(|b| (64usize, b)).collect();
    assert_bit_flips_rejected(&frame, &key, &flips);
    let flips: Vec<(usize, u8)> = [(65usize, 0u8), (66, 7)].to_vec();
    assert_bit_flips_rejected(&frame, &key, &flips);
}

#[test]
fn tamper_ciphertext_bytes_67_68() {
    let (frame, key) = hello_frame_and_key();
    let flips: Vec<(usize, u8)> = (0..8u8)
        .map(|b| (if b % 2 == 0 { 67usize } else { 68 }, b))
        .collect();
    assert_bit_flips_rejected(&frame, &key, &flips);
}

#[test]
fn tamper_tag_first_bytes() {
    let (frame, key) = hello_frame_and_key();
    let flips: Vec<(usize, u8)> = (0..8usize).map(|i| (69 + i, (i % 8) as u8)).collect();
    assert_bit_flips_rejected(&frame, &key, &flips);
}

#[test]
fn tamper_tag_middle_bytes() {
    let (frame, key) = hello_frame_and_key();
    let flips: Vec<(usize, u8)> = (8..16usize).map(|i| (69 + i, (i % 8) as u8)).collect();
    assert_bit_flips_rejected(&frame, &key, &flips);
}

#[test]
fn tamper_tag_later_bytes() {
    let (frame, key) = hello_frame_and_key();
    let flips: Vec<(usize, u8)> = (16..24usize).map(|i| (69 + i, (i % 8) as u8)).collect();
    assert_bit_flips_rejected(&frame, &key, &flips);
}

#[test]
fn tamper_tag_last_bytes() {
    let (frame, key) = hello_frame_and_key();
    let flips: Vec<(usize, u8)> = (24..32usize).map(|i| (69 + i, (i % 8) as u8)).collect();
    assert_bit_flips_rejected(&frame, &key, &flips);
}

#[test]
fn nonce_region_tamper_also_rejected() {
    // The nonce is authenticated too: changing it changes the message the
    // tag was computed over.
    let (frame, key) = hello_frame_and_key();
    let flips: Vec<(usize, u8)> = [(0usize, 0u8), (31, 3), (63, 7)].to_vec();
    assert_bit_flips_rejected(&frame, &key, &flips);
}

fn decrypt_with_changed_key_byte(frame: &[u8], key: &[u8], positions: std::ops::Range<usize>) {
    for i in positions {
        let mut wrong_key = key.to_vec();
        wrong_key[i] = wrong_key[i].wrapping_add(1);
        assert_eq!(
            decrypt(frame, &wrong_key),
            Err(CryptoError::IntegrityFailure),
            "changed key byte {} was not caught",
            i
        );
    }
}

#[test]
fn changed_key_rejected_bytes_0_8() {
    let (frame, key) = hello_frame_and_key();
    decrypt_with_changed_key_byte(&frame, &key, 0..8);
}

#[test]
fn changed_key_rejected_bytes_8_16() {
    let (frame, key) = hello_frame_and_key();
    decrypt_with_changed_key_byte(&frame, &key, 8..16);
}

#[test]
fn changed_key_rejected_bytes_16_24() {
    let (frame, key) = hello_frame_and_key();
    decrypt_with_changed_key_byte(&frame, &key, 16..24);
}

#[test]
fn changed_key_rejected_bytes_24_32() {
    let (frame, key) = hello_frame_and_key();
    decrypt_with_changed_key_byte(&frame, &key, 24..32);
}
