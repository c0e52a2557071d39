//! Record protection, key handling and signature-verification logic of a
//! rustls crypto provider backed by Windows CNG.
//!
//! The calls into CNG itself are made by the embedding code; this crate holds
//! the decisions around them: key and nonce layouts, TLS 1.2 record framing,
//! the RSA key-size policy, ECDSA signature re-encoding and FIPS selection.
pub mod aead;
pub mod alg;
pub mod alg_ids;
pub mod bytes;
pub mod digest;
pub mod fips;
pub mod keyblob;
pub mod tls12;
pub mod verify;
