//! A file-level authenticated encryption library built from primitive
//! components: a random 64-byte nonce, a memory-hard keystream derivation
//! from that nonce, a one-time-pad-style XOR combiner over the raw key
//! material, and an HMAC-SHA256 tag over the nonce and ciphertext.
//!
//! The wire artifact is a frame `nonce ‖ ciphertext ‖ tag` of length
//! `64 + plaintext length + 32`. Key bytes are consumed from the start of
//! the key with no wraparound, so a key must be at least as long as the
//! data it protects, and reusing key bytes across plaintexts breaks
//! confidentiality: callers must treat the key as single-use material.

pub mod auth;
pub mod combiner;
pub mod errors;
pub mod ivderive;
mod nonce;
pub mod pipeline;
