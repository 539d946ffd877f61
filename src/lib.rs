//! Authenticated-encryption envelopes: a payload is sealed under a symmetric
//! key with a fresh random nonce and framed as `nonce || tag || ciphertext`.
//! Also holds the string utilities and the inference engine handles that
//! sit beside the envelope service.

pub mod aead;
pub mod algorithm;
pub mod bytes;
pub mod envelope;
pub mod inference;
pub mod service;
pub mod text;

pub use algorithm::{CryptoAlgorithm, CryptoError};
pub use envelope::EncryptedMessage;
pub use inference::{Precision, TensorRTConfig, TensorRTEngine, TensorRTInference};
pub use service::{CryptoConfig, CryptoService};
pub use text::{join_strings, levenshtein_distance, UtilsConfig, UtilsService};
