use rustls_cng_crypto::verify::{
    ecdsa_p256_sha256, ecdsa_p521_sha512, ecdsa_public_point, ecdsa_signature_to_raw,
    raw_ecdsa_signature, rsa_key_accepted, rsa_modulus_bit_len, rsa_pkcs1_sha256,
    rsa_pkcs1_sha256_absent_params, rsa_pss_sha256, rsa_pss_sha384,
    rsa_public_key_allowed_by_webpki, supported_algorithms, EcdsaCurve, InvalidSignature,
    RsaPublicKeyParts, VerificationKey,
};
use rustls::pki_types::alg_id;

const RSA_PKCS1_SHA256_ABSENT_PARAMS_DER: &[u8] = &[
    0x30, 0x0b, 0x06, 0x09, 0x2a, 0x86, 0x48, 0x86, 0xf7, 0x0d, 0x01, 0x01, 0x0b,
];
const RSA_PKCS1_SHA384_ABSENT_PARAMS_DER: &[u8] = &[
    0x30, 0x0b, 0x06, 0x09, 0x2a, 0x86, 0x48, 0x86, 0xf7, 0x0d, 0x01, 0x01, 0x0c,
];
const RSA_PKCS1_SHA512_ABSENT_PARAMS_DER: &[u8] = &[
    0x30, 0x0b, 0x06, 0x09, 0x2a, 0x86, 0x48, 0x86, 0xf7, 0x0d, 0x01, 0x01, 0x0d,
];

#[test]
fn supported_algorithms_include_rsa_pkcs1_absent_parameter_variants() {
    let all = supported_algorithms();
    for signature_alg_id in [
        RSA_PKCS1_SHA256_ABSENT_PARAMS_DER,
        RSA_PKCS1_SHA384_ABSENT_PARAMS_DER,
        RSA_PKCS1_SHA512_ABSENT_PARAMS_DER,
    ] {
        assert!(all.iter().any(|alg| alg.signature_alg_id == signature_alg_id));
    }
}

#[test]
fn algorithm_identifiers_are_the_webpki_ones() {
    let all = supported_algorithms();
    assert_eq!(all.len(), 16);
    assert_eq!(all[0].display_name, "ECDSA_P256_SHA256");
    assert_eq!(all[0].public_key_alg_id, alg_id::ECDSA_P256.as_ref());
    assert_eq!(all[0].signature_alg_id, alg_id::ECDSA_SHA256.as_ref());
    assert_eq!(all[2].public_key_alg_id, alg_id::ECDSA_P384.as_ref());
    assert_eq!(all[6].public_key_alg_id, alg_id::ECDSA_P521.as_ref());
    assert_eq!(all[6].signature_alg_id, alg_id::ECDSA_SHA512.as_ref());
    assert_eq!(all[7].display_name, "RSA_PSS_SHA512");
    assert_eq!(all[7].signature_alg_id, alg_id::RSA_PSS_SHA512.as_ref());
    assert_eq!(all[9].signature_alg_id, alg_id::RSA_PSS_SHA256.as_ref());
    assert_eq!(all[10].public_key_alg_id, alg_id::RSA_ENCRYPTION.as_ref());
    assert_eq!(all[10].signature_alg_id, alg_id::RSA_PKCS1_SHA512.as_ref());
    assert_eq!(all[11].signature_alg_id, RSA_PKCS1_SHA512_ABSENT_PARAMS_DER);
    assert_eq!(all[14].signature_alg_id, alg_id::RSA_PKCS1_SHA256.as_ref());
    assert_eq!(all[15].display_name, "RSA_PKCS1_SHA256_ABSENT_PARAMS");
    assert_eq!(rsa_pss_sha384().signature_alg_id, alg_id::RSA_PSS_SHA384.as_ref());
    assert_eq!(ecdsa_p256_sha256().signature_alg_id, &[0x06, 0x08, 0x2a, 0x86, 0x48, 0xce, 0x3d, 0x04, 0x03, 0x02]);
}

fn rsa_public_key_with_modulus(modulus: &[u8]) -> RsaPublicKeyParts {
    RsaPublicKeyParts::from_der(&rsa_public_key_der(modulus)).unwrap()
}

fn rsa_public_key_der(modulus: &[u8]) -> Vec<u8> {
    let mut der = Vec::new();
    append_der_integer(&mut der, modulus);
    append_der_integer(&mut der, &[0x01, 0x00, 0x01]);

    let mut sequence = Vec::new();
    sequence.push(0x30);
    append_der_len(&mut sequence, der.len());
    sequence.extend_from_slice(&der);
    sequence
}

fn modulus_with_bit_len(bit_len: usize) -> Vec<u8> {
    let len = bit_len.div_ceil(8);
    let mut modulus = vec![0xff; len];
    modulus[0] = 1 << ((bit_len - 1) % 8);
    modulus
}

fn append_der_integer(der: &mut Vec<u8>, value: &[u8]) {
    der.push(0x02);
    let needs_leading_zero = value.first().is_some_and(|byte| byte & 0x80 != 0);
    append_der_len(der, value.len() + usize::from(needs_leading_zero));
    if needs_leading_zero {
        der.push(0);
    }
    der.extend_from_slice(value);
}

fn append_der_len(der: &mut Vec<u8>, len: usize) {
    if len < 128 {
        der.push(len as u8);
        return;
    }

    let len_bytes = len.to_be_bytes();
    let first = len_bytes
        .iter()
        .position(|byte| *byte != 0)
        .unwrap_or(len_bytes.len() - 1);
    der.push(0x80 | (len_bytes.len() - first) as u8);
    der.extend_from_slice(&len_bytes[first..]);
}

#[test]
fn rsa_public_key_policy_matches_webpki_2048_to_8192_bit_bounds() {
    let key_2047 = rsa_public_key_with_modulus(&modulus_with_bit_len(2047));
    let key_2048 = rsa_public_key_with_modulus(&modulus_with_bit_len(2048));
    let key_8192 = rsa_public_key_with_modulus(&modulus_with_bit_len(8192));
    let key_8193 = rsa_public_key_with_modulus(&modulus_with_bit_len(8193));

    assert!(!rsa_public_key_allowed_by_webpki(&key_2047));
    assert!(rsa_public_key_allowed_by_webpki(&key_2048));
    assert!(rsa_public_key_allowed_by_webpki(&key_8192));
    assert!(!rsa_public_key_allowed_by_webpki(&key_8193));
}

#[test]
fn test_open_ssl_algorithm_debug() {
    assert_eq!(
        ecdsa_p256_sha256().debug_string(),
        "rustls_cng_crypto Signature Verification Algorithm: ECDSA_P256_SHA256"
    );
    assert_eq!(
        rsa_pss_sha256().debug_string(),
        "rustls_cng_crypto Signature Verification Algorithm: RSA_PSS_SHA256"
    );
}

#[test]
fn algorithm_implements_debug() {
    assert_eq!(
        ecdsa_p256_sha256().debug_string(),
        "rustls_cng_crypto Signature Verification Algorithm: ECDSA_P256_SHA256"
    );
    assert_eq!(
        rsa_pss_sha256().debug_string(),
        "rustls_cng_crypto Signature Verification Algorithm: RSA_PSS_SHA256"
    );
}

#[test]
fn absent_params_variant_has_its_own_name() {
    assert_eq!(
        rsa_pkcs1_sha256_absent_params().debug_string(),
        "rustls_cng_crypto Signature Verification Algorithm: RSA_PKCS1_SHA256_ABSENT_PARAMS"
    );
    assert_eq!(rsa_pkcs1_sha256_absent_params().hash, rsa_pkcs1_sha256().hash);
    assert_eq!(rsa_pkcs1_sha256_absent_params().params, rsa_pkcs1_sha256().params);
}

#[test]
fn modulus_bit_len_counts_first_byte_bits() {
    assert_eq!(rsa_modulus_bit_len(&[]), 0);
    assert_eq!(rsa_modulus_bit_len(&[0x00]), 0);
    assert_eq!(rsa_modulus_bit_len(&[0x01]), 1);
    assert_eq!(rsa_modulus_bit_len(&[0x80, 0x00]), 16);
    assert_eq!(rsa_modulus_bit_len(&[0x00, 0x01]), 8);
    assert_eq!(rsa_modulus_bit_len(&[0x7f, 0xff, 0xff]), 23);
    assert_eq!(rsa_modulus_bit_len(&modulus_with_bit_len(2048)), 2048);
}

#[test]
fn decoding_strips_sign_byte() {
    let key = RsaPublicKeyParts::from_der(&rsa_public_key_der(&[0x80, 0x01])).unwrap();
    assert_eq!(key.modulus, vec![0x80, 0x01]);
    assert_eq!(key.public_exponent, vec![0x01, 0x00, 0x01]);
    assert!(RsaPublicKeyParts::from_der(&[0x30, 0x00]).is_none());
    assert!(RsaPublicKeyParts::from_der(&[]).is_none());
}

#[test]
fn rsa_key_admission() {
    assert_eq!(rsa_key_accepted(None), Err(InvalidSignature));
    let small = rsa_public_key_with_modulus(&modulus_with_bit_len(1024));
    assert_eq!(rsa_key_accepted(Some(small)), Err(InvalidSignature));
    let good = rsa_public_key_with_modulus(&modulus_with_bit_len(3072));
    let accepted = rsa_key_accepted(Some(good)).unwrap();
    assert_eq!(accepted.modulus, modulus_with_bit_len(3072));
}

#[test]
fn rsa_verification_keys() {
    let der = rsa_public_key_der(&modulus_with_bit_len(2048));
    match rsa_pkcs1_sha256().verification_key(&der) {
        Ok(VerificationKey::Rsa { modulus, public_exponent, pss_salt_len }) => {
            assert_eq!(modulus, modulus_with_bit_len(2048));
            assert_eq!(public_exponent, vec![1, 0, 1]);
            assert_eq!(pss_salt_len, None);
        }
        other => panic!("unexpected {other:?}"),
    }
    match rsa_pss_sha384().verification_key(&der) {
        Ok(VerificationKey::Rsa { pss_salt_len, .. }) => assert_eq!(pss_salt_len, Some(48)),
        other => panic!("unexpected {other:?}"),
    }
    let short = rsa_public_key_der(&modulus_with_bit_len(2047));
    assert!(rsa_pkcs1_sha256().verification_key(&short).is_err());
    assert!(rsa_pkcs1_sha256().verification_key(&[0x04, 1, 2]).is_err());
}

#[test]
fn ecdsa_verification_keys() {
    assert_eq!(ecdsa_public_point(&[]).unwrap_err(), InvalidSignature);
    assert_eq!(ecdsa_public_point(&[0x02, 1, 2]).unwrap_err(), InvalidSignature);
    let (x, y) = ecdsa_public_point(&[0x04, 1, 2, 3, 4, 5]).unwrap();
    assert_eq!(x, vec![1, 2]);
    assert_eq!(y, vec![3, 4, 5]);
    match ecdsa_p521_sha512().verification_key(&[0x04, 9, 8]) {
        Ok(VerificationKey::Ecdsa { curve, x, y }) => {
            assert_eq!(curve, EcdsaCurve::P521);
            assert_eq!(x, vec![9]);
            assert_eq!(y, vec![8]);
        }
        other => panic!("unexpected {other:?}"),
    }
    assert!(ecdsa_p256_sha256().verification_key(&[0x03, 9, 8]).is_err());
}

#[test]
fn ecdsa_signature_padding() {
    // P-521: 521 bits make 66-byte coordinates.
    let sig = raw_ecdsa_signature(&[1, 2], &[3], 521);
    assert_eq!(sig.len(), 132);
    assert_eq!(&sig[64..66], &[1, 2]);
    assert!(sig[..64].iter().all(|b| *b == 0));
    assert_eq!(sig[131], 3);
    assert!(sig[66..131].iter().all(|b| *b == 0));
    // Integers longer than the coordinate size are kept whole.
    assert_eq!(raw_ecdsa_signature(&[1, 2, 3], &[4], 16), vec![1, 2, 3, 0, 4]);
    assert_eq!(raw_ecdsa_signature(&[], &[], 0), Vec::<u8>::new());
}

#[test]
fn ecdsa_der_signature_to_fixed_width() {
    // SEQUENCE { INTEGER 0x0102, INTEGER 0x80 } for a 24-bit key.
    let der = [0x30, 0x08, 0x02, 0x02, 0x01, 0x02, 0x02, 0x02, 0x00, 0x80];
    assert_eq!(ecdsa_signature_to_raw(&der, 24).unwrap(), vec![0, 1, 2, 0, 0, 0x80]);
    assert_eq!(ecdsa_signature_to_raw(&[0x30, 0x01], 24), Err(InvalidSignature));
}
