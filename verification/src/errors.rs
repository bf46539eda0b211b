//! The facade's single error taxonomy.
//!
//! Every validation failure is detected and reported before any
//! cryptographic primitive executes. Authentication failures are a single
//! opaque variant: a caller cannot tell a tag mismatch from a corrupted
//! ciphertext or a wrong key.

use vstd::prelude::*;

verus! {

/// Every error the facade can return.
#[derive(Clone, Copy, Debug, PartialEq, Eq, Structural)]
pub enum CryptoError {
    /// A key's byte length does not match what its algorithm requires.
    InvalidKeyLength,
    /// A nonce or IV has the wrong length for its algorithm, or is an
    /// all-zero value that the caller did not explicitly opt into.
    InvalidNonceLength,
    /// The padding mode does not fit the algorithm, or padding proved
    /// invalid during decryption.
    InvalidPadding,
    /// AEAD or MAC verification failed; no plaintext is returned.
    AuthenticationFailed,
    /// Work-factor parameters of a password KDF fall below the policy
    /// minimum.
    InsufficientEntropy,
    /// The OS entropy source failed; never silently replaced by a weaker
    /// source.
    RandomSourceUnavailable,
}

} // verus!
