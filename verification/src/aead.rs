//! AEAD algorithm descriptions shared by the TLS record layer.
use vstd::prelude::*;

verus! {

/// The tag length is 16 bytes for all supported ciphers.
pub const TAG_LEN: usize = 16;

/// Length of the per-record nonce of every supported cipher.
pub const NONCE_LEN: usize = 12;

/// Errors of the record layer, as plain values.
#[derive(Debug, Clone, Copy, PartialEq, Eq, Structural)]
pub enum Error {
    /// The key handed over does not have the algorithm's key size; holds the
    /// length that was handed over.
    InvalidKeySize(usize),
    /// Decryption failed: the input is too short or does not authenticate.
    DecryptError,
    /// Encryption failed.
    EncryptError,
    /// The peer sent a record whose plaintext exceeds the TLS limit.
    PeerSentOversizedRecord,
}

/// One of the AEAD algorithms of the provider: AES-128-GCM, AES-256-GCM or
/// ChaCha20-Poly1305.
#[derive(Debug, Clone, Copy)]
pub struct Algorithm {
    key_size: usize,
    is_aes: bool,
}

impl Algorithm {
    /// Key size in bytes.
    pub closed spec fn key_len(self) -> usize {
        self.key_size
    }

    /// Whether the algorithm is AES-GCM (otherwise ChaCha20-Poly1305).
    pub closed spec fn aes(self) -> bool {
        self.is_aes
    }

    /// AES-128-GCM.
    pub fn aes_128_gcm() -> (alg: Algorithm)
        ensures
            alg.key_len() == 16,
            alg.aes(),
    {
        Algorithm { key_size: 16, is_aes: true }
    }

    /// AES-256-GCM.
    pub fn aes_256_gcm() -> (alg: Algorithm)
        ensures
            alg.key_len() == 32,
            alg.aes(),
    {
        Algorithm { key_size: 32, is_aes: true }
    }

    /// ChaCha20-Poly1305.
    pub fn chacha20_poly1305() -> (alg: Algorithm)
        ensures
            alg.key_len() == 32,
            !alg.aes(),
    {
        Algorithm { key_size: 32, is_aes: false }
    }

    /// Key size in bytes.
    pub fn key_size(&self) -> (n: usize)
        ensures
            n == self.key_len(),
    {
        self.key_size
    }

    /// Whether the algorithm is AES-GCM.
    pub fn is_aes(&self) -> (b: bool)
        ensures
            b == self.aes(),
    {
        self.is_aes
    }

    /// The check that precedes importing `key` as a key of this algorithm:
    /// a key of any other length than the key size is refused.
    pub fn with_key(&self, key: &[u8]) -> (res: Result<(), Error>)
        ensures
            res == (if key.len() == self.key_len() {
                Ok::<(), Error>(())
            } else {
                Err(Error::InvalidKeySize(key.len()))
            }),
    {
        if key.len() != self.key_size {
            return Err(Error::InvalidKeySize(key.len()));
        }
        Ok(())
    }

    /// Whether the algorithm is FIPS-approved, given whether the system runs
    /// in FIPS mode: only AES-GCM is.
    pub fn fips(&self, fips_mode: bool) -> (b: bool)
        ensures
            b == (self.aes() && fips_mode),
    {
        self.is_aes && fips_mode
    }
}

/// The part of opening that precedes decryption: a buffer of `data_len`
/// bytes holds the ciphertext followed by the tag. Returns the ciphertext
/// length, or `DecryptError` when the buffer cannot hold a tag.
pub fn open_ciphertext_len(data_len: usize) -> (res: Result<usize, Error>)
    ensures
        data_len < TAG_LEN ==> res == Err::<usize, Error>(Error::DecryptError),
        data_len >= TAG_LEN ==> res == Ok::<usize, Error>((data_len - TAG_LEN) as usize),
{
    if data_len < TAG_LEN {
        return Err(Error::DecryptError);
    }
    Ok(data_len - TAG_LEN)
}

} // verus!
