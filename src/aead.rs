//! The AEAD primitive, taken from ring. Sealing is deterministic in the key,
//! the nonce and the plaintext; its output, ciphertext followed by tag, is
//! named `aead_sealed` rather than written out.

use vstd::prelude::*;
use crate::algorithm::CryptoAlgorithm;
use ring::aead::{Aad, LessSafeKey, Nonce, Tag, UnboundKey, AES_256_GCM, CHACHA20_POLY1305};
use ring::rand::{SecureRandom, SystemRandom};

verus! {

/// ring's opaque error.
#[verifier::external_type_specification]
#[verifier::external_body]
pub struct ExUnspecified(ring::error::Unspecified);

/// What ring's sealing under `alg` with this key and nonce and empty
/// associated data produces from `plaintext`: the ciphertext followed by
/// the tag.
pub uninterp spec fn aead_sealed(
    alg: CryptoAlgorithm,
    key: Seq<u8>,
    nonce: Seq<u8>,
    plaintext: Seq<u8>,
) -> Seq<u8>;

/// Relies on ring's `LessSafeKey::seal_in_place_separate_tag` with empty
/// associated data: it overwrites the plaintext with a ciphertext of the
/// same length and returns the 16-byte tag. The key is built by
/// `UnboundKey::new`, which fails unless the key has the algorithm's length
/// (32 bytes); the nonce by `Nonce::try_assume_unique_for_key`, which fails
/// unless it has 12 bytes. Sealing fails on plaintexts above the algorithm's
/// limit and on nothing else.
#[verifier::external_body]
pub(crate) fn seal_in_place(
    alg: CryptoAlgorithm,
    key: &[u8],
    nonce: &[u8],
    in_out: &mut Vec<u8>,
) -> (r: Result<Vec<u8>, ring::error::Unspecified>)
    ensures
        r matches Ok(tag) ==> {
            &&& tag@.len() == alg.spec_tag_len()
            &&& final(in_out)@.len() == old(in_out)@.len()
            &&& final(in_out)@ + tag@ == aead_sealed(alg, key@, nonce@, old(in_out)@)
        },
        (key@.len() == alg.spec_key_len() && nonce@.len() == alg.spec_nonce_len()
            && old(in_out)@.len() <= alg.spec_max_plaintext_len()) <==> r is Ok,
{
    let algorithm = match alg {
        CryptoAlgorithm::Aes256Gcm => &AES_256_GCM,
        CryptoAlgorithm::ChaCha20Poly1305 => &CHACHA20_POLY1305,
    };
    let key = LessSafeKey::new(UnboundKey::new(algorithm, key)?);
    let nonce = Nonce::try_assume_unique_for_key(nonce)?;
    let tag = key.seal_in_place_separate_tag(nonce, Aad::empty(), in_out.as_mut_slice())?;
    Ok(tag.as_ref().to_vec())
}

/// `r` is a success that carries exactly `p`.
pub open spec fn opened_to(r: Result<Vec<u8>, ring::error::Unspecified>, p: Seq<u8>) -> bool {
    r matches Ok(q) && q@ == p
}

/// Relies on ring's `LessSafeKey::open_in_place_separate_tag` with empty
/// associated data: it recomputes the tag over the ciphertext and succeeds,
/// returning the plaintext, exactly when that tag equals the one given.
/// Sealing that plaintext under the same key and nonce therefore reproduces
/// the ciphertext and tag, and any pair that sealing produced opens to its
/// plaintext. Key, nonce and tag are built as for sealing, and `Tag::try_from`
/// fails unless the tag has 16 bytes. Like sealing, opening refuses
/// ciphertexts above the algorithm's limit; the plaintext is as long as the
/// ciphertext.
#[verifier::external_body]
pub(crate) fn open_detached(
    alg: CryptoAlgorithm,
    key: &[u8],
    nonce: &[u8],
    ciphertext: &[u8],
    tag: &[u8],
) -> (r: Result<Vec<u8>, ring::error::Unspecified>)
    ensures
        r matches Ok(p) ==> {
            &&& p@.len() == ciphertext@.len()
            &&& p@.len() <= alg.spec_max_plaintext_len()
            &&& aead_sealed(alg, key@, nonce@, p@) == ciphertext@ + tag@
        },
        (key@.len() == alg.spec_key_len() && nonce@.len() == alg.spec_nonce_len()
            && tag@.len() == alg.spec_tag_len()
            && ciphertext@.len() <= alg.spec_max_plaintext_len()) ==> forall|p: Seq<u8>|
            #[trigger] aead_sealed(alg, key@, nonce@, p) == ciphertext@ + tag@
                ==> opened_to(r, p),
{
    let algorithm = match alg {
        CryptoAlgorithm::Aes256Gcm => &AES_256_GCM,
        CryptoAlgorithm::ChaCha20Poly1305 => &CHACHA20_POLY1305,
    };
    let key = LessSafeKey::new(UnboundKey::new(algorithm, key)?);
    let nonce = Nonce::try_assume_unique_for_key(nonce)?;
    let tag = Tag::try_from(tag)?;
    let mut in_out = ciphertext.to_vec();
    let plaintext = key.open_in_place_separate_tag(nonce, Aad::empty(), tag, &mut in_out, 0..)?;
    Ok(plaintext.to_vec())
}

/// Relies on ring's `SystemRandom::fill`: on success the buffer of `len`
/// bytes has been filled from the operating system's secure random source.
/// Nothing is promised of the bytes themselves.
#[verifier::external_body]
pub(crate) fn random_bytes(len: usize) -> (r: Result<Vec<u8>, ring::error::Unspecified>)
    ensures
        r matches Ok(v) ==> v@.len() == len,
{
    let mut buf = vec![0u8; len];
    SystemRandom::new().fill(&mut buf)?;
    Ok(buf)
}

} // verus!
