//! The ways a run can fail. Every failure is terminal for the whole run:
//! the pipelines have no retry or partial-progress state.

use vstd::prelude::*;

verus! {

/// A typed failure of the encrypt or decrypt pipeline.
#[derive(Clone, Copy, Debug, PartialEq, Eq, Structural)]
pub enum CryptoError {
    /// The key holds fewer bytes than the data it must cover.
    KeyTooShort,
    /// A frame handed to decrypt is shorter than a nonce plus a tag.
    FrameTooShort,
    /// The memory-hard derivation refused its arguments.
    DerivationFailed,
    /// The authentication tag does not match the frame: tampering or
    /// corruption. No plaintext is released when this occurs.
    IntegrityFailure,
}

impl CryptoError {
    /// A short description of the failure, for reporting to an operator.
    pub fn message(&self) -> &'static str {
        match self {
            CryptoError::KeyTooShort => "The key is too short.",
            CryptoError::FrameTooShort => "Invalid input: missing nonce or MAC.",
            CryptoError::DerivationFailed => "Failed to derive IV.",
            CryptoError::IntegrityFailure => {
                "MAC verification failed. Data may have been tampered with."
            },
        }
    }
}

} // verus!
