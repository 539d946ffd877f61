//! The closed set of supported AEAD algorithms, their parameters, and the
//! errors of the envelope service.

use vstd::prelude::*;

verus! {

/// Length in bytes of a key for every supported algorithm.
pub const KEY_LEN: usize = 32;

/// Length in bytes of a nonce for every supported algorithm.
pub const NONCE_LEN: usize = 12;

/// Length in bytes of an authentication tag for every supported algorithm.
pub const TAG_LEN: usize = 16;

/// Largest plaintext, in bytes, that AES-256-GCM seals under one nonce.
pub const AES_GCM_MAX_PLAINTEXT: u64 = 68719476704;

/// Largest plaintext, in bytes, that ChaCha20-Poly1305 seals under one nonce.
pub const CHACHA_MAX_PLAINTEXT: u64 = 274877906880;

/// The supported AEAD algorithms.
#[derive(Debug, Clone, Copy, PartialEq, Eq, Structural)]
pub enum CryptoAlgorithm {
    Aes256Gcm,
    ChaCha20Poly1305,
}

/// The failures of the envelope service.
#[derive(Debug, Clone, Copy, PartialEq, Eq, Structural)]
pub enum CryptoError {
    /// The key does not have the length the algorithm requires.
    InvalidKeyLength,
    /// The wire bytes are shorter than a nonce followed by a tag.
    TruncatedEnvelope,
    /// The tag did not verify: wrong key, altered ciphertext, tag or nonce.
    AuthenticationFailed,
    /// The AEAD primitive or its random source refused the operation.
    CipherError,
}

impl CryptoAlgorithm {
    pub open spec fn spec_key_len(self) -> nat {
        KEY_LEN as nat
    }

    pub open spec fn spec_nonce_len(self) -> nat {
        NONCE_LEN as nat
    }

    pub open spec fn spec_tag_len(self) -> nat {
        TAG_LEN as nat
    }

    /// Largest plaintext the algorithm seals under a single nonce.
    pub open spec fn spec_max_plaintext_len(self) -> nat {
        match self {
            CryptoAlgorithm::Aes256Gcm => AES_GCM_MAX_PLAINTEXT as nat,
            CryptoAlgorithm::ChaCha20Poly1305 => CHACHA_MAX_PLAINTEXT as nat,
        }
    }

    /// Smallest well-formed envelope: a nonce followed by a tag.
    pub open spec fn spec_min_envelope_len(self) -> nat {
        self.spec_nonce_len() + self.spec_tag_len()
    }

    /// Required key length in bytes.
    pub fn key_len(&self) -> (r: usize)
        ensures
            r as nat == self.spec_key_len(),
    {
        match self {
            CryptoAlgorithm::Aes256Gcm => KEY_LEN,
            CryptoAlgorithm::ChaCha20Poly1305 => KEY_LEN,
        }
    }

    /// Nonce length in bytes.
    pub fn nonce_len(&self) -> (r: usize)
        ensures
            r as nat == self.spec_nonce_len(),
    {
        match self {
            CryptoAlgorithm::Aes256Gcm => NONCE_LEN,
            CryptoAlgorithm::ChaCha20Poly1305 => NONCE_LEN,
        }
    }

    /// Tag length in bytes.
    pub fn tag_len(&self) -> (r: usize)
        ensures
            r as nat == self.spec_tag_len(),
    {
        match self {
            CryptoAlgorithm::Aes256Gcm => TAG_LEN,
            CryptoAlgorithm::ChaCha20Poly1305 => TAG_LEN,
        }
    }

    /// Largest plaintext length, in bytes, that one seal accepts.
    pub fn max_plaintext_len(&self) -> (r: u64)
        ensures
            r as nat == self.spec_max_plaintext_len(),
    {
        match self {
            CryptoAlgorithm::Aes256Gcm => AES_GCM_MAX_PLAINTEXT,
            CryptoAlgorithm::ChaCha20Poly1305 => CHACHA_MAX_PLAINTEXT,
        }
    }
}

} // verus!
