//! The envelope and its wire form: `nonce || tag || ciphertext`, with no
//! length prefix, since the lengths are fixed by the algorithm.

use vstd::prelude::*;
use crate::algorithm::{CryptoAlgorithm, CryptoError, NONCE_LEN, TAG_LEN};
use crate::bytes::{append_bytes, copy_range};

verus! {

/// The result of sealing one payload.
#[derive(Debug, Clone)]
pub struct EncryptedMessage {
    /// Ciphertext, as long as the plaintext.
    pub data: Vec<u8>,
    /// The nonce the payload was sealed under.
    pub iv: Vec<u8>,
    /// The detached authentication tag.
    pub tag: Vec<u8>,
    /// Seconds since the Unix epoch at sealing time; advisory only, never
    /// part of the wire form nor of any authentication decision.
    pub timestamp: u64,
}

impl EncryptedMessage {
    /// Nonce and tag have the lengths that `alg` fixes.
    pub open spec fn wf(&self, alg: CryptoAlgorithm) -> bool {
        &&& self.iv@.len() == alg.spec_nonce_len()
        &&& self.tag@.len() == alg.spec_tag_len()
    }

    /// The wire bytes of this envelope.
    pub open spec fn wire(&self) -> Seq<u8> {
        wire_of(self.iv@, self.tag@, self.data@)
    }
}

/// The wire layout: nonce, then tag, then ciphertext.
pub open spec fn wire_of(nonce: Seq<u8>, tag: Seq<u8>, ciphertext: Seq<u8>) -> Seq<u8> {
    nonce + tag + ciphertext
}

/// Serializes an envelope as `iv || tag || data`.
pub fn encode(msg: &EncryptedMessage) -> (r: Vec<u8>)
    ensures
        r@ == msg.wire(),
{
    let mut r: Vec<u8> = Vec::new();
    append_bytes(&mut r, msg.iv.as_slice());
    append_bytes(&mut r, msg.tag.as_slice());
    append_bytes(&mut r, msg.data.as_slice());
    r
}

/// Parses wire bytes into an envelope for `alg`: the first nonce-length
/// bytes are the nonce, the next tag-length bytes the tag, the rest the
/// ciphertext. The timestamp is not on the wire and comes back as zero.
pub fn decode(bytes: &[u8], alg: CryptoAlgorithm) -> (r: Result<EncryptedMessage, CryptoError>)
    ensures
        bytes@.len() < alg.spec_min_envelope_len() <==> r is Err,
        r is Err ==> r == Err::<EncryptedMessage, CryptoError>(CryptoError::TruncatedEnvelope),
        r matches Ok(m) ==> {
            &&& m.wf(alg)
            &&& m.iv@ == bytes@.subrange(0, alg.spec_nonce_len() as int)
            &&& m.tag@ == bytes@.subrange(
                alg.spec_nonce_len() as int,
                alg.spec_min_envelope_len() as int,
            )
            &&& m.data@ == bytes@.subrange(alg.spec_min_envelope_len() as int, bytes@.len() as int)
            &&& m.wire() == bytes@
            &&& m.timestamp == 0
        },
{
    let nonce_len = alg.nonce_len();
    let header_len = nonce_len + alg.tag_len();
    if bytes.len() < header_len {
        return Err(CryptoError::TruncatedEnvelope);
    }
    let iv = copy_range(bytes, 0, nonce_len);
    let tag = copy_range(bytes, nonce_len, header_len);
    let data = copy_range(bytes, header_len, bytes.len());
    let msg = EncryptedMessage { data, iv, tag, timestamp: 0 };
    assert(msg.wire() =~= bytes@);
    Ok(msg)
}

/// Decoding the encoding of a well-formed envelope gives back its nonce,
/// tag and ciphertext.
pub proof fn lemma_decode_encode(msg: EncryptedMessage, alg: CryptoAlgorithm)
    requires
        msg.wf(alg),
    ensures
        msg.wire().len() >= alg.spec_min_envelope_len(),
        msg.wire().subrange(0, alg.spec_nonce_len() as int) == msg.iv@,
        msg.wire().subrange(alg.spec_nonce_len() as int, alg.spec_min_envelope_len() as int)
            == msg.tag@,
        msg.wire().subrange(alg.spec_min_envelope_len() as int, msg.wire().len() as int)
            == msg.data@,
{
    let w = msg.wire();
    assert(w.subrange(0, NONCE_LEN as int) =~= msg.iv@);
    assert(w.subrange(NONCE_LEN as int, (NONCE_LEN + TAG_LEN) as int) =~= msg.tag@);
    assert(w.subrange((NONCE_LEN + TAG_LEN) as int, w.len() as int) =~= msg.data@);
}

} // verus!
