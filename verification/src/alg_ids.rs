//! DER contents of the algorithm identifiers that public keys and
//! signatures are matched by.
use vstd::prelude::*;
use rustls::pki_types::{alg_id, AlgorithmIdentifier};

verus! {

/// DER contents of the algorithm identifier `id-ecPublicKey` with named curve secp256r1.
pub open spec fn der_ecdsa_p256() -> Seq<u8> {
    seq![
        0x06u8, 0x07, 0x2a, 0x86, 0x48, 0xce, 0x3d, 0x02, 0x01, 0x06, 0x08, 0x2a, 0x86, 0x48,
        0xce, 0x3d, 0x03, 0x01, 0x07,
    ]
}

/// `rustls::pki_types::alg_id::ECDSA_P256`: its bytes are those of
/// [`der_ecdsa_p256`].
#[verifier::external_body]
pub(crate) fn alg_id_ecdsa_p256() -> (id: &'static [u8])
    ensures
        id@ == der_ecdsa_p256(),
{
    let id: &'static AlgorithmIdentifier = &alg_id::ECDSA_P256;
    id.as_ref()
}

/// DER contents of the algorithm identifier `id-ecPublicKey` with named curve secp384r1.
pub open spec fn der_ecdsa_p384() -> Seq<u8> {
    seq![
        0x06u8, 0x07, 0x2a, 0x86, 0x48, 0xce, 0x3d, 0x02, 0x01, 0x06, 0x05, 0x2b, 0x81, 0x04,
        0x00, 0x22,
    ]
}

/// `rustls::pki_types::alg_id::ECDSA_P384`: its bytes are those of
/// [`der_ecdsa_p384`].
#[verifier::external_body]
pub(crate) fn alg_id_ecdsa_p384() -> (id: &'static [u8])
    ensures
        id@ == der_ecdsa_p384(),
{
    let id: &'static AlgorithmIdentifier = &alg_id::ECDSA_P384;
    id.as_ref()
}

/// DER contents of the algorithm identifier `id-ecPublicKey` with named curve secp521r1.
pub open spec fn der_ecdsa_p521() -> Seq<u8> {
    seq![
        0x06u8, 0x07, 0x2a, 0x86, 0x48, 0xce, 0x3d, 0x02, 0x01, 0x06, 0x05, 0x2b, 0x81, 0x04,
        0x00, 0x23,
    ]
}

/// `rustls::pki_types::alg_id::ECDSA_P521`: its bytes are those of
/// [`der_ecdsa_p521`].
#[verifier::external_body]
pub(crate) fn alg_id_ecdsa_p521() -> (id: &'static [u8])
    ensures
        id@ == der_ecdsa_p521(),
{
    let id: &'static AlgorithmIdentifier = &alg_id::ECDSA_P521;
    id.as_ref()
}

/// DER contents of the algorithm identifier `ecdsa-with-SHA256`.
pub open spec fn der_ecdsa_sha256() -> Seq<u8> {
    seq![
        0x06u8, 0x08, 0x2a, 0x86, 0x48, 0xce, 0x3d, 0x04, 0x03, 0x02,
    ]
}

/// `rustls::pki_types::alg_id::ECDSA_SHA256`: its bytes are those of
/// [`der_ecdsa_sha256`].
#[verifier::external_body]
pub(crate) fn alg_id_ecdsa_sha256() -> (id: &'static [u8])
    ensures
        id@ == der_ecdsa_sha256(),
{
    let id: &'static AlgorithmIdentifier = &alg_id::ECDSA_SHA256;
    id.as_ref()
}

/// DER contents of the algorithm identifier `ecdsa-with-SHA384`.
pub open spec fn der_ecdsa_sha384() -> Seq<u8> {
    seq![
        0x06u8, 0x08, 0x2a, 0x86, 0x48, 0xce, 0x3d, 0x04, 0x03, 0x03,
    ]
}

/// `rustls::pki_types::alg_id::ECDSA_SHA384`: its bytes are those of
/// [`der_ecdsa_sha384`].
#[verifier::external_body]
pub(crate) fn alg_id_ecdsa_sha384() -> (id: &'static [u8])
    ensures
        id@ == der_ecdsa_sha384(),
{
    let id: &'static AlgorithmIdentifier = &alg_id::ECDSA_SHA384;
    id.as_ref()
}

/// DER contents of the algorithm identifier `ecdsa-with-SHA512`.
pub open spec fn der_ecdsa_sha512() -> Seq<u8> {
    seq![
        0x06u8, 0x08, 0x2a, 0x86, 0x48, 0xce, 0x3d, 0x04, 0x03, 0x04,
    ]
}

/// `rustls::pki_types::alg_id::ECDSA_SHA512`: its bytes are those of
/// [`der_ecdsa_sha512`].
#[verifier::external_body]
pub(crate) fn alg_id_ecdsa_sha512() -> (id: &'static [u8])
    ensures
        id@ == der_ecdsa_sha512(),
{
    let id: &'static AlgorithmIdentifier = &alg_id::ECDSA_SHA512;
    id.as_ref()
}

/// DER contents of the algorithm identifier `rsaEncryption` with NULL parameters.
pub open spec fn der_rsa_encryption() -> Seq<u8> {
    seq![
        0x06u8, 0x09, 0x2a, 0x86, 0x48, 0x86, 0xf7, 0x0d, 0x01, 0x01, 0x01, 0x05, 0x00,
    ]
}

/// `rustls::pki_types::alg_id::RSA_ENCRYPTION`: its bytes are those of
/// [`der_rsa_encryption`].
#[verifier::external_body]
pub(crate) fn alg_id_rsa_encryption() -> (id: &'static [u8])
    ensures
        id@ == der_rsa_encryption(),
{
    let id: &'static AlgorithmIdentifier = &alg_id::RSA_ENCRYPTION;
    id.as_ref()
}

/// DER contents of the algorithm identifier `sha256WithRSAEncryption` with NULL parameters.
pub open spec fn der_rsa_pkcs1_sha256() -> Seq<u8> {
    seq![
        0x06u8, 0x09, 0x2a, 0x86, 0x48, 0x86, 0xf7, 0x0d, 0x01, 0x01, 0x0b, 0x05, 0x00,
    ]
}

/// `rustls::pki_types::alg_id::RSA_PKCS1_SHA256`: its bytes are those of
/// [`der_rsa_pkcs1_sha256`].
#[verifier::external_body]
pub(crate) fn alg_id_rsa_pkcs1_sha256() -> (id: &'static [u8])
    ensures
        id@ == der_rsa_pkcs1_sha256(),
{
    let id: &'static AlgorithmIdentifier = &alg_id::RSA_PKCS1_SHA256;
    id.as_ref()
}

/// DER contents of the algorithm identifier `sha384WithRSAEncryption` with NULL parameters.
pub open spec fn der_rsa_pkcs1_sha384() -> Seq<u8> {
    seq![
        0x06u8, 0x09, 0x2a, 0x86, 0x48, 0x86, 0xf7, 0x0d, 0x01, 0x01, 0x0c, 0x05, 0x00,
    ]
}

/// `rustls::pki_types::alg_id::RSA_PKCS1_SHA384`: its bytes are those of
/// [`der_rsa_pkcs1_sha384`].
#[verifier::external_body]
pub(crate) fn alg_id_rsa_pkcs1_sha384() -> (id: &'static [u8])
    ensures
        id@ == der_rsa_pkcs1_sha384(),
{
    let id: &'static AlgorithmIdentifier = &alg_id::RSA_PKCS1_SHA384;
    id.as_ref()
}

/// DER contents of the algorithm identifier `sha512WithRSAEncryption` with NULL parameters.
pub open spec fn der_rsa_pkcs1_sha512() -> Seq<u8> {
    seq![
        0x06u8, 0x09, 0x2a, 0x86, 0x48, 0x86, 0xf7, 0x0d, 0x01, 0x01, 0x0d, 0x05, 0x00,
    ]
}

/// `rustls::pki_types::alg_id::RSA_PKCS1_SHA512`: its bytes are those of
/// [`der_rsa_pkcs1_sha512`].
#[verifier::external_body]
pub(crate) fn alg_id_rsa_pkcs1_sha512() -> (id: &'static [u8])
    ensures
        id@ == der_rsa_pkcs1_sha512(),
{
    let id: &'static AlgorithmIdentifier = &alg_id::RSA_PKCS1_SHA512;
    id.as_ref()
}

/// DER contents of the algorithm identifier `rsassaPss` with SHA-256, MGF1 with SHA-256 and a 32-byte salt.
pub open spec fn der_rsa_pss_sha256() -> Seq<u8> {
    seq![
        0x06u8, 0x09, 0x2a, 0x86, 0x48, 0x86, 0xf7, 0x0d, 0x01, 0x01, 0x0a, 0x30, 0x34, 0xa0,
        0x0f, 0x30, 0x0d, 0x06, 0x09, 0x60, 0x86, 0x48, 0x01, 0x65, 0x03, 0x04, 0x02, 0x01,
        0x05, 0x00, 0xa1, 0x1c, 0x30, 0x1a, 0x06, 0x09, 0x2a, 0x86, 0x48, 0x86, 0xf7, 0x0d,
        0x01, 0x01, 0x08, 0x30, 0x0d, 0x06, 0x09, 0x60, 0x86, 0x48, 0x01, 0x65, 0x03, 0x04,
        0x02, 0x01, 0x05, 0x00, 0xa2, 0x03, 0x02, 0x01, 0x20,
    ]
}

/// `rustls::pki_types::alg_id::RSA_PSS_SHA256`: its bytes are those of
/// [`der_rsa_pss_sha256`].
#[verifier::external_body]
pub(crate) fn alg_id_rsa_pss_sha256() -> (id: &'static [u8])
    ensures
        id@ == der_rsa_pss_sha256(),
{
    let id: &'static AlgorithmIdentifier = &alg_id::RSA_PSS_SHA256;
    id.as_ref()
}

/// DER contents of the algorithm identifier `rsassaPss` with SHA-384, MGF1 with SHA-384 and a 48-byte salt.
pub open spec fn der_rsa_pss_sha384() -> Seq<u8> {
    seq![
        0x06u8, 0x09, 0x2a, 0x86, 0x48, 0x86, 0xf7, 0x0d, 0x01, 0x01, 0x0a, 0x30, 0x34, 0xa0,
        0x0f, 0x30, 0x0d, 0x06, 0x09, 0x60, 0x86, 0x48, 0x01, 0x65, 0x03, 0x04, 0x02, 0x02,
        0x05, 0x00, 0xa1, 0x1c, 0x30, 0x1a, 0x06, 0x09, 0x2a, 0x86, 0x48, 0x86, 0xf7, 0x0d,
        0x01, 0x01, 0x08, 0x30, 0x0d, 0x06, 0x09, 0x60, 0x86, 0x48, 0x01, 0x65, 0x03, 0x04,
        0x02, 0x02, 0x05, 0x00, 0xa2, 0x03, 0x02, 0x01, 0x30,
    ]
}

/// `rustls::pki_types::alg_id::RSA_PSS_SHA384`: its bytes are those of
/// [`der_rsa_pss_sha384`].
#[verifier::external_body]
pub(crate) fn alg_id_rsa_pss_sha384() -> (id: &'static [u8])
    ensures
        id@ == der_rsa_pss_sha384(),
{
    let id: &'static AlgorithmIdentifier = &alg_id::RSA_PSS_SHA384;
    id.as_ref()
}

/// DER contents of the algorithm identifier `rsassaPss` with SHA-512, MGF1 with SHA-512 and a 64-byte salt.
pub open spec fn der_rsa_pss_sha512() -> Seq<u8> {
    seq![
        0x06u8, 0x09, 0x2a, 0x86, 0x48, 0x86, 0xf7, 0x0d, 0x01, 0x01, 0x0a, 0x30, 0x34, 0xa0,
        0x0f, 0x30, 0x0d, 0x06, 0x09, 0x60, 0x86, 0x48, 0x01, 0x65, 0x03, 0x04, 0x02, 0x03,
        0x05, 0x00, 0xa1, 0x1c, 0x30, 0x1a, 0x06, 0x09, 0x2a, 0x86, 0x48, 0x86, 0xf7, 0x0d,
        0x01, 0x01, 0x08, 0x30, 0x0d, 0x06, 0x09, 0x60, 0x86, 0x48, 0x01, 0x65, 0x03, 0x04,
        0x02, 0x03, 0x05, 0x00, 0xa2, 0x03, 0x02, 0x01, 0x40,
    ]
}

/// `rustls::pki_types::alg_id::RSA_PSS_SHA512`: its bytes are those of
/// [`der_rsa_pss_sha512`].
#[verifier::external_body]
pub(crate) fn alg_id_rsa_pss_sha512() -> (id: &'static [u8])
    ensures
        id@ == der_rsa_pss_sha512(),
{
    let id: &'static AlgorithmIdentifier = &alg_id::RSA_PSS_SHA512;
    id.as_ref()
}

} // verus!
