use sealed_envelope::algorithm::{CryptoAlgorithm, CryptoError};
use sealed_envelope::envelope::{decode, encode, EncryptedMessage};
use sealed_envelope::service::{CryptoConfig, CryptoService};

fn service(key: Vec<u8>, algorithm: CryptoAlgorithm) -> CryptoService {
    CryptoService::new(CryptoConfig { key, algorithm }).expect("valid key")
}

fn hex(s: &str) -> Vec<u8> {
    (0..s.len())
        .step_by(2)
        .map(|i| u8::from_str_radix(&s[i..i + 2], 16).unwrap())
        .collect()
}

#[test]
fn hello_scenario_aes_zero_key() {
    let svc = service(vec![0u8; 32], CryptoAlgorithm::Aes256Gcm);
    let wire = svc.encrypt(b"hello").unwrap();
    assert_eq!(wire.len(), 33);
    assert_eq!(svc.decrypt(&wire).unwrap(), b"hello".to_vec());
}

#[test]
fn round_trip_empty_plaintext() {
    for alg in [CryptoAlgorithm::Aes256Gcm, CryptoAlgorithm::ChaCha20Poly1305] {
        let svc = service(vec![7u8; 32], alg);
        let wire = svc.encrypt(&[]).unwrap();
        assert_eq!(wire.len(), 28);
        assert_eq!(svc.decrypt(&wire).unwrap(), Vec::<u8>::new());
    }
}

#[test]
fn round_trip_various_lengths_both_algorithms() {
    for alg in [CryptoAlgorithm::Aes256Gcm, CryptoAlgorithm::ChaCha20Poly1305] {
        let svc = service((0u8..32).collect(), alg);
        for n in [1usize, 15, 16, 17, 64, 1000] {
            let pt: Vec<u8> = (0..n).map(|i| (i * 31 % 251) as u8).collect();
            let wire = svc.encrypt(&pt).unwrap();
            assert_eq!(wire.len(), 28 + n);
            assert_ne!(&wire[28..], &pt[..]);
            assert_eq!(svc.decrypt(&wire).unwrap(), pt);
        }
    }
}

#[test]
fn flipping_any_bit_fails_authentication() {
    for alg in [CryptoAlgorithm::Aes256Gcm, CryptoAlgorithm::ChaCha20Poly1305] {
        let svc = service(vec![0u8; 32], alg);
        let wire = svc.encrypt(b"hello").unwrap();
        for byte in 0..wire.len() {
            for bit in 0..8 {
                let mut altered = wire.clone();
                altered[byte] ^= 1 << bit;
                assert_eq!(svc.decrypt(&altered), Err(CryptoError::AuthenticationFailed));
            }
        }
    }
}

#[test]
fn wrong_key_fails_authentication() {
    for alg in [CryptoAlgorithm::Aes256Gcm, CryptoAlgorithm::ChaCha20Poly1305] {
        let first = service(vec![1u8; 32], alg);
        let second = service(vec![2u8; 32], alg);
        let wire = first.encrypt(b"secret payload").unwrap();
        assert_eq!(second.decrypt(&wire), Err(CryptoError::AuthenticationFailed));
        assert_eq!(first.decrypt(&wire).unwrap(), b"secret payload".to_vec());
    }
}

#[test]
fn other_algorithm_fails_authentication() {
    let aes = service(vec![3u8; 32], CryptoAlgorithm::Aes256Gcm);
    let chacha = service(vec![3u8; 32], CryptoAlgorithm::ChaCha20Poly1305);
    let wire = aes.encrypt(b"payload").unwrap();
    assert_eq!(chacha.decrypt(&wire), Err(CryptoError::AuthenticationFailed));
}

#[test]
fn two_encryptions_differ_and_both_open() {
    let svc = service(vec![9u8; 32], CryptoAlgorithm::Aes256Gcm);
    let a = svc.encrypt(b"same plaintext").unwrap();
    let b = svc.encrypt(b"same plaintext").unwrap();
    assert_eq!(a.len(), b.len());
    assert_ne!(a, b);
    assert_ne!(&a[..12], &b[..12]);
    assert_eq!(svc.decrypt(&a).unwrap(), b"same plaintext".to_vec());
    assert_eq!(svc.decrypt(&b).unwrap(), b"same plaintext".to_vec());
}

#[test]
fn inputs_shorter_than_header_are_truncated() {
    let svc = service(vec![0u8; 32], CryptoAlgorithm::Aes256Gcm);
    for n in 0..28 {
        assert_eq!(svc.decrypt(&vec![0u8; n]), Err(CryptoError::TruncatedEnvelope));
    }
    assert_eq!(svc.decrypt(&vec![0u8; 28]), Err(CryptoError::AuthenticationFailed));
}

#[test]
fn key_of_wrong_length_is_rejected() {
    for alg in [CryptoAlgorithm::Aes256Gcm, CryptoAlgorithm::ChaCha20Poly1305] {
        for n in [0usize, 16, 31, 33] {
            let r = CryptoService::new(CryptoConfig { key: vec![0u8; n], algorithm: alg });
            assert!(matches!(r, Err(CryptoError::InvalidKeyLength)));
        }
        assert!(CryptoService::new(CryptoConfig { key: vec![0u8; 32], algorithm: alg }).is_ok());
    }
}

#[test]
fn algorithm_parameters() {
    for alg in [CryptoAlgorithm::Aes256Gcm, CryptoAlgorithm::ChaCha20Poly1305] {
        assert_eq!(alg.key_len(), 32);
        assert_eq!(alg.nonce_len(), 12);
        assert_eq!(alg.tag_len(), 16);
    }
    assert_eq!(CryptoAlgorithm::Aes256Gcm.max_plaintext_len(), 68719476704);
    assert_eq!(CryptoAlgorithm::ChaCha20Poly1305.max_plaintext_len(), 274877906880);
    let svc = service(vec![0u8; 32], CryptoAlgorithm::ChaCha20Poly1305);
    assert_eq!(svc.algorithm(), CryptoAlgorithm::ChaCha20Poly1305);
}

#[test]
fn aes_gcm_known_answer_empty_plaintext() {
    let svc = service(vec![0u8; 32], CryptoAlgorithm::Aes256Gcm);
    let m = svc.seal_with_nonce(&[], &[0u8; 12], 5).unwrap();
    assert!(m.data.is_empty());
    assert_eq!(m.iv, vec![0u8; 12]);
    assert_eq!(m.tag, hex("530f8afbc74536b9a963b4f1c4cb738b"));
    assert_eq!(m.timestamp, 5);
}

#[test]
fn aes_gcm_known_answer_one_block() {
    let svc = service(vec![0u8; 32], CryptoAlgorithm::Aes256Gcm);
    let m = svc.seal_with_nonce(&[0u8; 16], &[0u8; 12], 0).unwrap();
    assert_eq!(m.data, hex("cea7403d4d606b6e074ec5d3baf39d18"));
    assert_eq!(m.tag, hex("d0d1c8a799996bf0265b98b5d48ab919"));
    assert_eq!(svc.decrypt_message(&m).unwrap(), vec![0u8; 16]);
    let wire = encode(&m);
    assert_eq!(svc.decrypt(&wire).unwrap(), vec![0u8; 16]);
}

#[test]
fn seal_with_nonce_of_wrong_length_is_a_cipher_error() {
    let svc = service(vec![0u8; 32], CryptoAlgorithm::Aes256Gcm);
    for n in [0usize, 11, 13, 16] {
        assert!(matches!(svc.seal_with_nonce(b"x", &vec![0u8; n], 0), Err(CryptoError::CipherError)));
    }
}

#[test]
fn decrypt_message_checks_nonce_and_tag() {
    let svc = service(vec![4u8; 32], CryptoAlgorithm::ChaCha20Poly1305);
    let m = svc.encrypt_message(b"abc", 1234).unwrap();
    assert_eq!(m.timestamp, 1234);
    assert_eq!(m.iv.len(), 12);
    assert_eq!(m.tag.len(), 16);
    assert_eq!(m.data.len(), 3);
    assert_eq!(svc.decrypt_message(&m).unwrap(), b"abc".to_vec());

    let mut short_iv = m.clone();
    short_iv.iv.pop();
    assert_eq!(svc.decrypt_message(&short_iv), Err(CryptoError::CipherError));

    let mut short_tag = m.clone();
    short_tag.tag.pop();
    assert_eq!(svc.decrypt_message(&short_tag), Err(CryptoError::AuthenticationFailed));

    let mut altered = m.clone();
    altered.data[0] ^= 0x80;
    assert_eq!(svc.decrypt_message(&altered), Err(CryptoError::AuthenticationFailed));
}

#[test]
fn codec_layout_and_round_trip() {
    let m = EncryptedMessage {
        data: vec![30, 31, 32],
        iv: (0u8..12).collect(),
        tag: (12u8..28).collect(),
        timestamp: 99,
    };
    let wire = encode(&m);
    let expected: Vec<u8> = (0u8..28).chain([30, 31, 32]).collect();
    assert_eq!(wire, expected);
    let back = decode(&wire, CryptoAlgorithm::Aes256Gcm).unwrap();
    assert_eq!(back.iv, m.iv);
    assert_eq!(back.tag, m.tag);
    assert_eq!(back.data, m.data);
    assert_eq!(back.timestamp, 0);
}

#[test]
fn codec_header_only_and_truncated() {
    let header: Vec<u8> = (0u8..28).collect();
    let m = decode(&header, CryptoAlgorithm::ChaCha20Poly1305).unwrap();
    assert!(m.data.is_empty());
    assert!(matches!(decode(&header[..27], CryptoAlgorithm::Aes256Gcm), Err(CryptoError::TruncatedEnvelope)));
    assert!(matches!(decode(&[], CryptoAlgorithm::Aes256Gcm), Err(CryptoError::TruncatedEnvelope)));
}
