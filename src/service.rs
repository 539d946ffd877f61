//! The envelope service: one key and one algorithm, fixed at construction,
//! used to seal payloads into wire envelopes and to open them again.

use vstd::prelude::*;
use crate::aead::{aead_sealed, open_detached, random_bytes, seal_in_place};
use crate::algorithm::{CryptoAlgorithm, CryptoError};
use crate::bytes::copy_range;
use crate::envelope::{decode, encode, lemma_decode_encode, EncryptedMessage};

verus! {

/// Construction-time settings of a service.
#[derive(Debug, Clone)]
pub struct CryptoConfig {
    /// Raw key bytes.
    pub key: Vec<u8>,
    /// The algorithm every operation of the service uses.
    pub algorithm: CryptoAlgorithm,
}

/// `wire` is an envelope of `plaintext` under `key`: a nonce, a tag and a
/// ciphertext as long as the plaintext, where ciphertext and tag are exactly
/// what sealing `plaintext` under `key` and that nonce produces.
pub open spec fn opens_to(
    alg: CryptoAlgorithm,
    key: Seq<u8>,
    wire: Seq<u8>,
    plaintext: Seq<u8>,
) -> bool {
    let n = alg.spec_nonce_len() as int;
    let h = alg.spec_min_envelope_len() as int;
    &&& plaintext.len() <= alg.spec_max_plaintext_len()
    &&& wire.len() == h + plaintext.len()
    &&& aead_sealed(alg, key, wire.subrange(0, n), plaintext) == wire.subrange(h, wire.len() as int)
        + wire.subrange(n, h)
}

/// Seals and opens envelopes under one key and one algorithm. Immutable
/// after construction, so it may be shared freely.
pub struct CryptoService {
    config: CryptoConfig,
}

impl CryptoService {
    /// The key the service holds.
    pub closed spec fn spec_key(&self) -> Seq<u8> {
        self.config.key@
    }

    /// The algorithm the service uses.
    pub closed spec fn spec_algorithm(&self) -> CryptoAlgorithm {
        self.config.algorithm
    }

    #[verifier::type_invariant]
    spec fn key_fits(&self) -> bool {
        self.config.key@.len() == self.config.algorithm.spec_key_len()
    }

    /// Builds a service; fails with `InvalidKeyLength` exactly when the key
    /// does not have the algorithm's length.
    pub fn new(config: CryptoConfig) -> (r: Result<CryptoService, CryptoError>)
        ensures
            config.key@.len() != config.algorithm.spec_key_len() <==> r is Err,
            r is Err ==> r == Err::<CryptoService, CryptoError>(CryptoError::InvalidKeyLength),
            r matches Ok(s) ==> s.spec_key() == config.key@ && s.spec_algorithm()
                == config.algorithm,
    {
        if config.key.len() != config.algorithm.key_len() {
            return Err(CryptoError::InvalidKeyLength);
        }
        Ok(CryptoService { config })
    }

    /// The algorithm the service uses.
    pub fn algorithm(&self) -> (r: CryptoAlgorithm)
        ensures
            r == self.spec_algorithm(),
    {
        self.config.algorithm
    }

    /// Seals `data` under the service's key and the given nonce, with empty
    /// associated data. Fails with `CipherError` exactly when the nonce does
    /// not have the algorithm's length or the payload exceeds what one seal
    /// accepts.
    pub fn seal_with_nonce(&self, data: &[u8], nonce: &[u8], timestamp: u64) -> (r: Result<
        EncryptedMessage,
        CryptoError,
    >)
        ensures
            (nonce@.len() == self.spec_algorithm().spec_nonce_len() && data@.len()
                <= self.spec_algorithm().spec_max_plaintext_len()) <==> r is Ok,
            r is Err ==> r == Err::<EncryptedMessage, CryptoError>(CryptoError::CipherError),
            r matches Ok(m) ==> {
                &&& m.wf(self.spec_algorithm())
                &&& m.iv@ == nonce@
                &&& m.data@.len() == data@.len()
                &&& m.data@ + m.tag@ == aead_sealed(
                    self.spec_algorithm(),
                    self.spec_key(),
                    nonce@,
                    data@,
                )
                &&& m.timestamp == timestamp
            },
    {
        proof {
            use_type_invariant(self);
        }
        let mut in_out = copy_range(data, 0, data.len());
        assert(in_out@ == data@);
        match seal_in_place(self.config.algorithm, self.config.key.as_slice(), nonce, &mut in_out) {
            Ok(tag) => {
                let iv = copy_range(nonce, 0, nonce.len());
                assert(iv@ == nonce@);
                Ok(EncryptedMessage { data: in_out, iv, tag, timestamp })
            },
            Err(_) => Err(CryptoError::CipherError),
        }
    }

    /// Seals `data` under a fresh nonce drawn from the secure random source.
    /// Fails with `CipherError` when the random source fails or the payload
    /// exceeds what one seal accepts.
    pub fn encrypt_message(&self, data: &[u8], timestamp: u64) -> (r: Result<
        EncryptedMessage,
        CryptoError,
    >)
        ensures
            data@.len() > self.spec_algorithm().spec_max_plaintext_len() ==> r is Err,
            r is Err ==> r == Err::<EncryptedMessage, CryptoError>(CryptoError::CipherError),
            r matches Ok(m) ==> {
                &&& m.wf(self.spec_algorithm())
                &&& m.data@.len() == data@.len()
                &&& data@.len() <= self.spec_algorithm().spec_max_plaintext_len()
                &&& m.data@ + m.tag@ == aead_sealed(
                    self.spec_algorithm(),
                    self.spec_key(),
                    m.iv@,
                    data@,
                )
                &&& m.timestamp == timestamp
            },
    {
        match random_bytes(self.config.algorithm.nonce_len()) {
            Ok(nonce) => self.seal_with_nonce(data, nonce.as_slice(), timestamp),
            Err(_) => Err(CryptoError::CipherError),
        }
    }

    /// Seals `data` under a fresh random nonce and returns the wire bytes
    /// `nonce || tag || ciphertext`. Fails with `CipherError` when the random
    /// source fails or the payload exceeds what one seal accepts.
    pub fn encrypt(&self, data: &[u8]) -> (r: Result<Vec<u8>, CryptoError>)
        ensures
            data@.len() > self.spec_algorithm().spec_max_plaintext_len() ==> r is Err,
            r is Err ==> r == Err::<Vec<u8>, CryptoError>(CryptoError::CipherError),
            r matches Ok(w) ==> opens_to(self.spec_algorithm(), self.spec_key(), w@, data@),
    {
        let msg = match self.encrypt_message(data, 0) {
            Ok(m) => m,
            Err(e) => return Err(e),
        };
        let wire = encode(&msg);
        proof {
            lemma_round_trip(*self, data@, msg);
        }
        Ok(wire)
    }

    /// Opens an envelope: verifies its tag and returns the plaintext. Fails
    /// with `CipherError` when the nonce does not have the algorithm's length,
    /// and otherwise with `AuthenticationFailed` whenever the tag does not
    /// verify, whatever the cause; a ciphertext longer than one seal accepts
    /// never verifies.
    pub fn decrypt_message(&self, msg: &EncryptedMessage) -> (r: Result<Vec<u8>, CryptoError>)
        ensures
            msg.iv@.len() != self.spec_algorithm().spec_nonce_len() ==> r == Err::<
                Vec<u8>,
                CryptoError,
            >(CryptoError::CipherError),
            msg.iv@.len() == self.spec_algorithm().spec_nonce_len() && r is Err ==> r == Err::<
                Vec<u8>,
                CryptoError,
            >(CryptoError::AuthenticationFailed),
            r matches Ok(p) ==> {
                &&& msg.wf(self.spec_algorithm())
                &&& p@.len() == msg.data@.len()
                &&& p@.len() <= self.spec_algorithm().spec_max_plaintext_len()
                &&& aead_sealed(self.spec_algorithm(), self.spec_key(), msg.iv@, p@) == msg.data@
                    + msg.tag@
            },
            msg.wf(self.spec_algorithm()) && msg.data@.len()
                <= self.spec_algorithm().spec_max_plaintext_len() ==> forall|p: Seq<u8>|
                #[trigger] aead_sealed(self.spec_algorithm(), self.spec_key(), msg.iv@, p)
                    == msg.data@ + msg.tag@ ==> opened_as(r, p),
    {
        proof {
            use_type_invariant(self);
        }
        let alg = self.config.algorithm;
        if msg.iv.len() != alg.nonce_len() {
            return Err(CryptoError::CipherError);
        }
        if msg.tag.len() != alg.tag_len() {
            return Err(CryptoError::AuthenticationFailed);
        }
        match open_detached(
            alg,
            self.config.key.as_slice(),
            msg.iv.as_slice(),
            msg.data.as_slice(),
            msg.tag.as_slice(),
        ) {
            Ok(p) => Ok(p),
            Err(_) => Err(CryptoError::AuthenticationFailed),
        }
    }

    /// Parses wire bytes and opens the envelope. Fails with
    /// `TruncatedEnvelope` exactly when the bytes are shorter than a nonce
    /// and a tag, and otherwise with `AuthenticationFailed` whenever the
    /// envelope is not one that sealing under this key produced.
    pub fn decrypt(&self, wire: &[u8]) -> (r: Result<Vec<u8>, CryptoError>)
        ensures
            wire@.len() < self.spec_algorithm().spec_min_envelope_len() <==> r == Err::<
                Vec<u8>,
                CryptoError,
            >(CryptoError::TruncatedEnvelope),
            wire@.len() >= self.spec_algorithm().spec_min_envelope_len() && r is Err ==> r
                == Err::<Vec<u8>, CryptoError>(CryptoError::AuthenticationFailed),
            r matches Ok(p) ==> opens_to(self.spec_algorithm(), self.spec_key(), wire@, p@),
            forall|p: Seq<u8>|
                #[trigger] opens_to(self.spec_algorithm(), self.spec_key(), wire@, p) ==> opened_as(
                    r,
                    p,
                ),
    {
        let msg = match decode(wire, self.config.algorithm) {
            Ok(m) => m,
            Err(e) => return Err(e),
        };
        let r = self.decrypt_message(&msg);
        proof {
            lemma_decode_encode(msg, self.spec_algorithm());
            assert forall|p: Seq<u8>|
                #[trigger] opens_to(self.spec_algorithm(), self.spec_key(), wire@, p) implies opened_as(
                r,
                p,
            ) by {
                assert(aead_sealed(self.spec_algorithm(), self.spec_key(), msg.iv@, p) == msg.data@
                    + msg.tag@);
            }
        }
        r
    }
}

/// `r` is a success that carries exactly `p`.
pub open spec fn opened_as(r: Result<Vec<u8>, CryptoError>, p: Seq<u8>) -> bool {
    r matches Ok(q) && q@ == p
}

} // verus!

verus! {

/// Round trip: the wire form of an envelope that sealing a plaintext under
/// the service's key produced, the empty plaintext included, is one that
/// `decrypt` on the same service opens to exactly that plaintext.
pub proof fn lemma_round_trip(svc: CryptoService, plaintext: Seq<u8>, msg: EncryptedMessage)
    requires
        msg.wf(svc.spec_algorithm()),
        msg.data@.len() == plaintext.len(),
        plaintext.len() <= svc.spec_algorithm().spec_max_plaintext_len(),
        msg.data@ + msg.tag@ == aead_sealed(svc.spec_algorithm(), svc.spec_key(), msg.iv@, plaintext),
    ensures
        opens_to(svc.spec_algorithm(), svc.spec_key(), msg.wire(), plaintext),
{
    lemma_decode_encode(msg, svc.spec_algorithm());
}

/// Framing does not depend on the nonce: two envelopes sealed from one
/// plaintext under one service have wire forms of the same length, the
/// header plus the plaintext, both open to that plaintext, and they differ
/// whenever their nonces do.
pub proof fn lemma_framing_is_fixed(
    svc: CryptoService,
    plaintext: Seq<u8>,
    first: EncryptedMessage,
    second: EncryptedMessage,
)
    requires
        first.wf(svc.spec_algorithm()),
        second.wf(svc.spec_algorithm()),
        first.data@.len() == plaintext.len(),
        second.data@.len() == plaintext.len(),
        plaintext.len() <= svc.spec_algorithm().spec_max_plaintext_len(),
        first.data@ + first.tag@ == aead_sealed(
            svc.spec_algorithm(),
            svc.spec_key(),
            first.iv@,
            plaintext,
        ),
        second.data@ + second.tag@ == aead_sealed(
            svc.spec_algorithm(),
            svc.spec_key(),
            second.iv@,
            plaintext,
        ),
    ensures
        first.wire().len() == second.wire().len(),
        first.wire().len() == svc.spec_algorithm().spec_min_envelope_len() + plaintext.len(),
        opens_to(svc.spec_algorithm(), svc.spec_key(), first.wire(), plaintext),
        opens_to(svc.spec_algorithm(), svc.spec_key(), second.wire(), plaintext),
        first.iv@ != second.iv@ ==> first.wire() != second.wire(),
{
    lemma_round_trip(svc, plaintext, first);
    lemma_round_trip(svc, plaintext, second);
    lemma_decode_encode(first, svc.spec_algorithm());
    lemma_decode_encode(second, svc.spec_algorithm());
}

/// Bytes of the same length as an envelope, such as the envelope with some
/// bits flipped, are at least a nonce and a tag long, so `decrypt` never
/// refuses them as truncated.
pub proof fn lemma_altered_envelope_is_framed(
    svc: CryptoService,
    plaintext: Seq<u8>,
    wire: Seq<u8>,
    altered: Seq<u8>,
)
    requires
        opens_to(svc.spec_algorithm(), svc.spec_key(), wire, plaintext),
        altered.len() == wire.len(),
    ensures
        altered.len() >= svc.spec_algorithm().spec_min_envelope_len(),
{
}

} // verus!
