use rustls_cng_crypto::keyblob::{ecc_public_blob, rsa_public_blob};
use rustls_cng_crypto::alg::to_null_terminated_le_bytes;
use rustls_cng_crypto::fips::{fips_approved_indices, fips_mode_enabled};
use rustls_cng_crypto::digest::HashAlgorithm;

#[test]
fn wide_string_bytes() {
    let wide: Vec<u16> = "curve25519".encode_utf16().collect();
    let bytes = to_null_terminated_le_bytes(&wide);
    assert_eq!(bytes.len(), 22);
    assert_eq!(&bytes[..4], &[b'c', 0, b'u', 0]);
    assert_eq!(&bytes[20..], &[0, 0]);
    assert_eq!(to_null_terminated_le_bytes(&[0x1234, 0xabcd]), vec![0x34, 0x12, 0xcd, 0xab, 0, 0]);
    assert_eq!(to_null_terminated_le_bytes(&[]), vec![0, 0]);
}

#[test]
fn fips_selection() {
    assert!(fips_mode_enabled(1));
    assert!(fips_mode_enabled(0xff));
    assert!(!fips_mode_enabled(0));
    assert_eq!(fips_approved_indices(&[true, false, true, true, false]), vec![0, 2, 3]);
    assert_eq!(fips_approved_indices(&[false, false]), Vec::<usize>::new());
    assert_eq!(fips_approved_indices(&[]), Vec::<usize>::new());
}

#[test]
fn hash_lengths() {
    assert_eq!(HashAlgorithm::Sha256.output_len(), 32);
    assert_eq!(HashAlgorithm::Sha384.output_len(), 48);
    assert_eq!(HashAlgorithm::Sha512.output_len(), 64);
}

#[test]
fn key_blob_layouts() {
    let blob = rsa_public_blob(0x31415352, &[0x80, 0x00], &[0x01, 0x00, 0x01]);
    assert_eq!(
        blob,
        vec![
            0x52, 0x53, 0x41, 0x31, 16, 0, 0, 0, 3, 0, 0, 0, 2, 0, 0, 0, 0, 0, 0, 0, 0, 0, 0, 0,
            0x01, 0x00, 0x01, 0x80, 0x00
        ]
    );
    let blob = ecc_public_blob(0x31534345, &[1, 2], &[3, 4]);
    assert_eq!(blob, vec![0x45, 0x43, 0x53, 0x31, 2, 0, 0, 0, 1, 2, 3, 4]);
}
