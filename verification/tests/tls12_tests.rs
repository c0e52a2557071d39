use rustls_cng_crypto::aead::{open_ciphertext_len, Algorithm, Error, TAG_LEN};
use rustls_cng_crypto::tls12::{
    tls_ecdhe_ecdsa_with_aes_128_gcm_sha256, tls_ecdhe_ecdsa_with_aes_256_gcm_sha384,
    tls_ecdhe_ecdsa_with_chacha20_poly1305_sha256, tls_ecdhe_rsa_with_aes_128_gcm_sha256,
    tls_ecdhe_rsa_with_aes_256_gcm_sha384, tls_ecdhe_rsa_with_chacha20_poly1305_sha256,
    ecdsa_schemes, ConnectionSecrets, KeyExchangeAlgorithm, RecordDecrypter, RecordEncrypter, SignatureFamily,
    UnsupportedOperationError, AES_GCM_CONFIDENTIALITY_LIMIT, MAX_FRAGMENT_LEN,
};
use rustls_cng_crypto::digest::HashAlgorithm;

const APPLICATION_DATA: u8 = 0x17;
const TLS12: u16 = 0x0303;

/// Seals `plaintext` as a record; the AEAD transformation itself is done by
/// CNG outside the library, so the buffer keeps the plaintext and the tag is
/// a stand-in of the right length.
fn seal(encrypter: &RecordEncrypter, plaintext: &[u8], seq: u64) -> Vec<u8> {
    let plan = match encrypter {
        RecordEncrypter::AesGcm(e) => e.seal_plan(APPLICATION_DATA, TLS12, plaintext, seq),
        RecordEncrypter::ChaCha20Poly1305(e) => e.seal_plan(APPLICATION_DATA, TLS12, plaintext, seq),
    };
    plan.finish(&[0u8; TAG_LEN])
}

/// Opens a record; the decryption itself is done by CNG outside the library
/// and reports the plaintext length, which is what is handed over here.
fn open(decrypter: &RecordDecrypter, payload: &mut Vec<u8>, seq: u64) -> Result<(), Error> {
    match decrypter {
        RecordDecrypter::AesGcm(d) => {
            let plan = d.open_plan(APPLICATION_DATA, TLS12, payload, seq)?;
            let plaintext_len = payload.len() - plan.data_start - TAG_LEN;
            d.finish_open(payload, Ok(plaintext_len))
        }
        RecordDecrypter::ChaCha20Poly1305(d) => {
            let plan = d.open_plan(APPLICATION_DATA, TLS12, payload, seq)?;
            let plaintext_len = payload.len() - plan.data_start - TAG_LEN;
            d.finish_open(payload, Ok(plaintext_len))
        }
    }
}

#[test]
fn tls12_aes256_gcm_suites_use_32_byte_keys() {
    for suite in [
        tls_ecdhe_rsa_with_aes_256_gcm_sha384(),
        tls_ecdhe_ecdsa_with_aes_256_gcm_sha384(),
    ] {
        assert_eq!(
            suite.aead_alg.key_block_shape().enc_key_len,
            32,
            "{:?} should derive 32-byte AES-256-GCM keys",
            suite
        );
    }
}

#[test]
fn tls12_aead_decrypt_rejects_oversized_plaintext() {
    for suite in [
        tls_ecdhe_rsa_with_aes_256_gcm_sha384(),
        tls_ecdhe_rsa_with_chacha20_poly1305_sha256(),
    ] {
        let shape = suite.aead_alg.key_block_shape();
        let key_bytes = [0x42; 32];
        let iv = vec![0x5a; shape.fixed_iv_len];
        let explicit = vec![0xa5; shape.explicit_nonce_len];
        let plaintext = vec![0x3c; MAX_FRAGMENT_LEN + 1];
        let seq = 0;

        let encrypter = suite.aead_alg.encrypter(&key_bytes, &iv, &explicit);
        let mut ciphertext = seal(&encrypter, &plaintext, seq);

        let decrypter = suite.aead_alg.decrypter(&key_bytes, &iv);
        let err = open(&decrypter, &mut ciphertext, seq).unwrap_err();
        assert_eq!(
            err,
            Error::PeerSentOversizedRecord,
            "{:?} should reject plaintext longer than the TLS record limit",
            suite
        );
    }
}

#[test]
fn records_of_the_limit_size_open() {
    for alg in [Algorithm::aes_128_gcm(), Algorithm::chacha20_poly1305()] {
        let shape = alg.key_block_shape();
        let key = vec![7u8; shape.enc_key_len];
        let iv = vec![1u8; shape.fixed_iv_len];
        let explicit = vec![2u8; shape.explicit_nonce_len];
        let plaintext: Vec<u8> = (0..MAX_FRAGMENT_LEN).map(|i| i as u8).collect();
        let mut record = seal(&alg.encrypter(&key, &iv, &explicit), &plaintext, 9);
        open(&alg.decrypter(&key, &iv), &mut record, 9).unwrap();
        assert_eq!(record, plaintext);
    }
}

#[test]
fn suite_parameters() {
    let s = tls_ecdhe_ecdsa_with_chacha20_poly1305_sha256();
    assert_eq!(s.hash, HashAlgorithm::Sha256);
    assert_eq!(s.sign, SignatureFamily::Ecdsa);
    assert!(!s.aead_alg.is_aes());
    assert_eq!(s.confidentiality_limit, u64::MAX);
    let s = tls_ecdhe_rsa_with_aes_128_gcm_sha256();
    assert_eq!(s.sign, SignatureFamily::Rsa);
    assert_eq!(s.aead_alg.key_size(), 16);
    assert_eq!(s.confidentiality_limit, AES_GCM_CONFIDENTIALITY_LIMIT);
    assert_eq!(AES_GCM_CONFIDENTIALITY_LIMIT, 1 << 23);
    let s = tls_ecdhe_ecdsa_with_aes_128_gcm_sha256();
    assert_eq!(s.sign, SignatureFamily::Ecdsa);
    assert_eq!(s.hash, HashAlgorithm::Sha256);
    assert_eq!(tls_ecdhe_rsa_with_aes_256_gcm_sha384().hash, HashAlgorithm::Sha384);
}

#[test]
fn suite_identifiers() {
    let suites = [
        (tls_ecdhe_ecdsa_with_chacha20_poly1305_sha256(), 0xcca9),
        (tls_ecdhe_rsa_with_chacha20_poly1305_sha256(), 0xcca8),
        (tls_ecdhe_rsa_with_aes_128_gcm_sha256(), 0xc02f),
        (tls_ecdhe_rsa_with_aes_256_gcm_sha384(), 0xc030),
        (tls_ecdhe_ecdsa_with_aes_128_gcm_sha256(), 0xc02b),
        (tls_ecdhe_ecdsa_with_aes_256_gcm_sha384(), 0xc02c),
    ];
    for (suite, id) in suites {
        assert_eq!(suite.suite, id);
        assert_eq!(suite.kx, KeyExchangeAlgorithm::Ecdhe);
    }
    assert_eq!(ecdsa_schemes(), vec![0x0603, 0x0503, 0x0403]);
}

#[test]
fn key_block_shapes() {
    let s = Algorithm::aes_128_gcm().key_block_shape();
    assert_eq!((s.enc_key_len, s.fixed_iv_len, s.explicit_nonce_len), (16, 4, 8));
    let s = Algorithm::aes_256_gcm().key_block_shape();
    assert_eq!((s.enc_key_len, s.fixed_iv_len, s.explicit_nonce_len), (32, 4, 8));
    let s = Algorithm::chacha20_poly1305().key_block_shape();
    assert_eq!((s.enc_key_len, s.fixed_iv_len, s.explicit_nonce_len), (32, 12, 0));
}

#[test]
fn key_length_check() {
    assert_eq!(Algorithm::aes_128_gcm().with_key(&[0; 16]), Ok(()));
    assert_eq!(Algorithm::aes_128_gcm().with_key(&[0; 32]), Err(Error::InvalidKeySize(32)));
    assert_eq!(Algorithm::chacha20_poly1305().with_key(&[0; 31]), Err(Error::InvalidKeySize(31)));
    assert!(Algorithm::aes_256_gcm().fips(true));
    assert!(!Algorithm::aes_256_gcm().fips(false));
    assert!(!Algorithm::chacha20_poly1305().fips(true));
    assert_eq!(open_ciphertext_len(15), Err(Error::DecryptError));
    assert_eq!(open_ciphertext_len(16), Ok(0));
    assert_eq!(open_ciphertext_len(40), Ok(24));
}

#[test]
fn extracted_secrets() {
    match Algorithm::aes_128_gcm().extract_keys(vec![1; 16], &[1, 2, 3, 4], &[5, 6, 7, 8, 9, 10, 11, 12]) {
        Ok(ConnectionSecrets::Aes128Gcm { key, iv }) => {
            assert_eq!(key, vec![1; 16]);
            assert_eq!(iv, vec![1, 2, 3, 4, 5, 6, 7, 8, 9, 10, 11, 12]);
        }
        other => panic!("unexpected {other:?}"),
    }
    match Algorithm::aes_256_gcm().extract_keys(vec![2; 32], &[0; 4], &[9; 8]) {
        Ok(ConnectionSecrets::Aes256Gcm { iv, .. }) => assert_eq!(iv, [0, 0, 0, 0, 9, 9, 9, 9, 9, 9, 9, 9]),
        other => panic!("unexpected {other:?}"),
    }
    match Algorithm::chacha20_poly1305().extract_keys(vec![3; 32], &[4; 12], &[]) {
        Ok(ConnectionSecrets::Chacha20Poly1305 { key, iv }) => {
            assert_eq!(key, vec![3; 32]);
            assert_eq!(iv, vec![4; 12]);
        }
        other => panic!("unexpected {other:?}"),
    }
    assert_eq!(
        Algorithm::chacha20_poly1305().extract_keys(vec![3; 32], &[4; 11], &[]).unwrap_err(),
        UnsupportedOperationError
    );
}

#[test]
fn gcm_seal_plan_values() {
    let enc = Algorithm::aes_128_gcm().encrypter(&[0; 16], &[0x10, 0x11, 0x12, 0x13], &[0xa0, 0xa1, 0xa2, 0xa3, 0xa4, 0xa5, 0xa6, 0xa7]);
    let RecordEncrypter::AesGcm(enc) = enc else { panic!("expected AES-GCM") };
    assert_eq!(enc.encrypted_payload_len(5), 29);
    let plan = enc.seal_plan(0x17, 0x0303, &[1, 2, 3, 4, 5], 0x0102);
    assert_eq!(plan.nonce, vec![0x10, 0x11, 0x12, 0x13, 0xa0, 0xa1, 0xa2, 0xa3, 0xa4, 0xa5, 0xa6 ^ 0x01, 0xa7 ^ 0x02]);
    assert_eq!(plan.aad, vec![0, 0, 0, 0, 0, 0, 1, 2, 0x17, 3, 3, 0, 5]);
    assert_eq!(plan.record, vec![0xa0, 0xa1, 0xa2, 0xa3, 0xa4, 0xa5, 0xa6 ^ 0x01, 0xa7 ^ 0x02, 1, 2, 3, 4, 5]);
    assert_eq!(plan.data_start, 8);
    let record = plan.finish(&[0xee; 16]);
    assert_eq!(record.len(), enc.encrypted_payload_len(5));
}

#[test]
fn gcm_open_uses_the_seal_nonce_and_aad() {
    let alg = Algorithm::aes_256_gcm();
    let key = [3u8; 32];
    let iv = [9u8, 8, 7, 6];
    let explicit = [1u8, 2, 3, 4, 5, 6, 7, 8];
    let RecordEncrypter::AesGcm(enc) = alg.encrypter(&key, &iv, &explicit) else { panic!() };
    let RecordDecrypter::AesGcm(dec) = alg.decrypter(&key, &iv) else { panic!() };
    for seq in [0u64, 1, 77, u64::MAX] {
        let plan = enc.seal_plan(0x16, 0x0303, &[5; 40], seq);
        let (nonce, aad) = (plan.nonce.clone(), plan.aad.clone());
        let record = plan.finish(&[0; 16]);
        let open = dec.open_plan(0x16, 0x0303, &record, seq).unwrap();
        assert_eq!(open.nonce, nonce);
        assert_eq!(open.aad, aad);
        assert_eq!(open.data_start, 8);
    }
}

#[test]
fn chacha_plans() {
    let RecordEncrypter::ChaCha20Poly1305(c) = Algorithm::chacha20_poly1305().encrypter(&[0; 32], &[0x5a; 12], &[]) else { panic!() };
    assert_eq!(c.encrypted_payload_len(10), 26);
    let plan = c.seal_plan(0x17, 0x0303, &[1, 2, 3], 1);
    let mut expected_nonce = vec![0x5a; 12];
    expected_nonce[11] = 0x5b;
    assert_eq!(plan.nonce, expected_nonce);
    assert_eq!(plan.aad, vec![0, 0, 0, 0, 0, 0, 0, 1, 0x17, 3, 3, 0, 3]);
    assert_eq!(plan.record, vec![1, 2, 3]);
    assert_eq!(plan.data_start, 0);
    let record = plan.finish(&[0; 16]);
    let open = c.open_plan(0x17, 0x0303, &record, 1).unwrap();
    assert_eq!(open.nonce, expected_nonce);
    assert_eq!(open.aad, vec![0, 0, 0, 0, 0, 0, 0, 1, 0x17, 3, 3, 0, 3]);
    assert!(matches!(c.open_plan(0x17, 0x0303, &[0; 15], 1), Err(Error::DecryptError)));
}

#[test]
fn nonces_differ_per_record() {
    let RecordEncrypter::ChaCha20Poly1305(c) = Algorithm::chacha20_poly1305().encrypter(&[0; 32], &[0x33; 12], &[]) else { panic!() };
    let a = c.seal_plan(0x17, 0x0303, &[], 1).nonce;
    let b = c.seal_plan(0x17, 0x0303, &[], 2).nonce;
    let d = c.seal_plan(0x17, 0x0303, &[], 1 << 40).nonce;
    assert_ne!(a, b);
    assert_ne!(a, d);
    assert_ne!(b, d);
}

#[test]
fn gcm_open_errors() {
    let RecordDecrypter::AesGcm(dec) = Algorithm::aes_128_gcm().decrypter(&[0; 16], &[0; 4]) else { panic!() };
    assert!(matches!(dec.open_plan(0x17, 0x0303, &[0; 23], 0), Err(Error::DecryptError)));
    let plan = dec.open_plan(0x17, 0x0303, &[7; 24], 0).unwrap();
    assert_eq!(plan.aad, vec![0, 0, 0, 0, 0, 0, 0, 0, 0x17, 3, 3, 0, 0]);
    let mut payload = vec![1, 2, 3, 4, 5, 6, 7, 8, 10, 11, 12];
    assert_eq!(dec.finish_open(&mut payload, Err(Error::DecryptError)), Err(Error::DecryptError));
    assert_eq!(payload.len(), 11);
    assert_eq!(dec.finish_open(&mut payload, Ok(2)), Ok(()));
    assert_eq!(payload, vec![10, 11]);
}

#[test]
fn chacha_finish_truncates() {
    let RecordDecrypter::ChaCha20Poly1305(dec) = Algorithm::chacha20_poly1305().decrypter(&[0; 32], &[0; 12]) else { panic!() };
    let mut payload = vec![1, 2, 3, 4];
    assert_eq!(dec.finish_open(&mut payload, Ok(2)), Ok(()));
    assert_eq!(payload, vec![1, 2]);
    assert_eq!(dec.finish_open(&mut payload, Err(Error::DecryptError)), Err(Error::DecryptError));
    assert_eq!(dec.finish_open(&mut payload, Ok(MAX_FRAGMENT_LEN + 1)), Err(Error::PeerSentOversizedRecord));
    assert_eq!(payload, vec![1, 2]);
}
