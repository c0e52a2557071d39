//! TLS 1.2 record protection with AES-GCM and ChaCha20-Poly1305.
//!
//! A record is protected in three steps: a plan (nonce, additional data and
//! record buffer) computed here, the AEAD operation itself, done on the plan's
//! buffer by the caller, and a finishing step computed here again.
use vstd::prelude::*;
use rustls::crypto::cipher::{Iv, Nonce};
use rustls::{CipherSuite, ContentType, ProtocolVersion, SignatureScheme};
use crate::aead::{Algorithm, Error, TAG_LEN, NONCE_LEN};
use crate::digest::HashAlgorithm;
use crate::bytes::{u64_be_bytes, u16_be_bytes, append_bytes};
use crate::verify::be_value;
use vstd::slice::slice_subrange;

verus! {

/// Length of the explicit (per-record, transmitted) part of the GCM nonce.
pub const GCM_EXPLICIT_NONCE_LENGTH: usize = 8;

/// Length of the implicit (per-connection) part of the GCM nonce.
pub const GCM_IMPLICIT_NONCE_LENGTH: usize = 4;

/// Largest plaintext a TLS record may carry.
pub const MAX_FRAGMENT_LEN: usize = 16384;

/// The TLS 1.2 additional data of a record: sequence number, content type,
/// protocol version and plaintext length (the low 16 bits), all big-endian.
pub open spec fn tls12_aad(seq: u64, typ: u8, version: u16, len: usize) -> Seq<u8> {
    u64_be_bytes(seq) + seq![typ] + u16_be_bytes(version) + u16_be_bytes(len as u16)
}

/// The nonce of record number `seq`: the 12-byte `iv` XOR-ed with `seq`
/// written as a 96-bit big-endian integer.
pub open spec fn tls12_nonce(iv: Seq<u8>, seq: u64) -> Seq<u8> {
    Seq::new(
        12,
        |i: int|
            if i < 4 {
                iv[i]
            } else {
                iv[i] ^ u64_be_bytes(seq)[i - 4]
            },
    )
}

/// `rustls::crypto::cipher::make_tls12_aad`, which writes the additional data
/// described by [`tls12_aad`] into a 13-byte array.
#[verifier::external_body]
fn make_tls12_aad(seq: u64, typ: u8, version: u16, len: usize) -> (aad: Vec<u8>)
    ensures
        aad@ == tls12_aad(seq, typ, version, len),
{
    rustls::crypto::cipher::make_tls12_aad(
        seq,
        ContentType::from(typ),
        ProtocolVersion::from(version),
        len,
    ).to_vec()
}

/// `rustls::crypto::cipher::Nonce::new` on the `Iv` holding `iv`: the XOR of
/// `iv` with the big-endian sequence number, as [`tls12_nonce`] states.
#[verifier::external_body]
fn make_nonce(iv: &[u8], seq: u64) -> (nonce: Vec<u8>)
    requires
        iv.len() == NONCE_LEN,
    ensures
        nonce@ == tls12_nonce(iv@, seq),
{
    Nonce::new(&Iv::copy(iv), seq).0.to_vec()
}


/// Lengths of the key material a TLS 1.2 key block provides for one
/// direction of a connection.
#[derive(Debug, Clone, Copy, PartialEq, Eq, Structural)]
pub struct KeyBlockShape {
    /// Length of the encryption key.
    pub enc_key_len: usize,
    /// Length of the fixed (implicit) IV.
    pub fixed_iv_len: usize,
    /// Length of the explicit nonce carried in the key block.
    pub explicit_nonce_len: usize,
}

/// Traffic secrets handed out for use outside the provider (kernel TLS and
/// the like): the key and the full 12-byte IV of each supported cipher.
#[derive(Debug)]
pub enum ConnectionSecrets {
    /// AES-128-GCM key and IV.
    Aes128Gcm { key: Vec<u8>, iv: Vec<u8> },
    /// AES-256-GCM key and IV.
    Aes256Gcm { key: Vec<u8>, iv: Vec<u8> },
    /// ChaCha20-Poly1305 key and IV.
    Chacha20Poly1305 { key: Vec<u8>, iv: Vec<u8> },
}

/// The requested secrets cannot be extracted for this algorithm.
#[derive(Debug, Clone, Copy, PartialEq, Eq, Structural)]
pub struct UnsupportedOperationError;

/// The secrets [`Algorithm::extract_keys`] hands out: by algorithm, the key and
/// the IV assembled from the key block (`None` where the call is refused).
pub open spec fn extracted_secrets(
    aes: bool,
    key_len: usize,
    key: Seq<u8>,
    iv: Seq<u8>,
    explicit: Seq<u8>,
) -> Option<(int, Seq<u8>, Seq<u8>)> {
    if aes && key_len == 16 {
        Some((0, key, iv + explicit))
    } else if aes && key_len == 32 {
        Some((1, key, iv + explicit))
    } else if !aes && key_len == 32 && iv.len() == 12 {
        Some((2, key, iv))
    } else {
        None
    }
}

/// The key block shape of `alg`: the key size, then a 4-byte fixed IV and an
/// 8-byte explicit nonce for AES-GCM, a 12-byte fixed IV and no explicit nonce
/// for ChaCha20-Poly1305.
pub open spec fn key_block_shape_of(alg: Algorithm) -> KeyBlockShape {
    if alg.aes() {
        KeyBlockShape {
            enc_key_len: alg.key_len(),
            fixed_iv_len: GCM_IMPLICIT_NONCE_LENGTH,
            explicit_nonce_len: GCM_EXPLICIT_NONCE_LENGTH,
        }
    } else {
        KeyBlockShape {
            enc_key_len: alg.key_len(),
            fixed_iv_len: NONCE_LEN,
            explicit_nonce_len: 0,
        }
    }
}

impl ConnectionSecrets {
    /// The variant (0: AES-128-GCM, 1: AES-256-GCM, 2: ChaCha20-Poly1305),
    /// key and IV.
    pub open spec fn parts(self) -> (int, Seq<u8>, Seq<u8>) {
        match self {
            ConnectionSecrets::Aes128Gcm { key, iv } => (0, key@, iv@),
            ConnectionSecrets::Aes256Gcm { key, iv } => (1, key@, iv@),
            ConnectionSecrets::Chacha20Poly1305 { key, iv } => (2, key@, iv@),
        }
    }
}

/// Copies `src` into a new vector.
fn to_vec(src: &[u8]) -> (v: Vec<u8>)
    ensures
        v@ == src@,
{
    let mut v: Vec<u8> = Vec::new();
    append_bytes(&mut v, src);
    v
}

/// The concatenation of `a` and `b`.
fn concat(a: &[u8], b: &[u8]) -> (v: Vec<u8>)
    ensures
        v@ == a@ + b@,
{
    let mut v = to_vec(a);
    append_bytes(&mut v, b);
    v
}

impl Algorithm {
    /// The key block shape of the algorithm in TLS 1.2: AES-GCM takes a 4-byte
    /// fixed IV and an 8-byte explicit nonce, ChaCha20-Poly1305 a 12-byte fixed
    /// IV and no explicit nonce.
    pub fn key_block_shape(&self) -> (shape: KeyBlockShape)
        ensures
            shape == key_block_shape_of(*self),
    {
        if self.is_aes() {
            KeyBlockShape {
                enc_key_len: self.key_size(),
                fixed_iv_len: GCM_IMPLICIT_NONCE_LENGTH,
                explicit_nonce_len: GCM_EXPLICIT_NONCE_LENGTH,
            }
        } else {
            KeyBlockShape {
                enc_key_len: self.key_size(),
                fixed_iv_len: NONCE_LEN,
                explicit_nonce_len: 0,
            }
        }
    }

    /// Hands out the traffic secrets of one direction: AES-GCM keys with the
    /// 12-byte IV made of fixed IV and explicit nonce, ChaCha20-Poly1305 keys
    /// with the fixed IV, which must then be 12 bytes long.
    pub fn extract_keys(&self, key: Vec<u8>, iv: &[u8], explicit: &[u8]) -> (res: Result<
        ConnectionSecrets,
        UnsupportedOperationError,
    >)
        requires
            self.aes() && (self.key_len() == 16 || self.key_len() == 32) ==> iv.len()
                == GCM_IMPLICIT_NONCE_LENGTH && explicit.len() == GCM_EXPLICIT_NONCE_LENGTH,
        ensures
            match extracted_secrets(self.aes(), self.key_len(), key@, iv@, explicit@) {
                Some(parts) => res matches Ok(s) && s.parts() == parts,
                None => res == Err::<ConnectionSecrets, UnsupportedOperationError>(
                    UnsupportedOperationError,
                ),
            },
    {
        let aes = self.is_aes();
        let key_size = self.key_size();
        if aes && key_size == 16 {
            Ok(ConnectionSecrets::Aes128Gcm { key, iv: concat(iv, explicit) })
        } else if aes && key_size == 32 {
            Ok(ConnectionSecrets::Aes256Gcm { key, iv: concat(iv, explicit) })
        } else if !aes && key_size == 32 {
            if iv.len() != NONCE_LEN {
                return Err(UnsupportedOperationError);
            }
            Ok(ConnectionSecrets::Chacha20Poly1305 { key, iv: to_vec(iv) })
        } else {
            Err(UnsupportedOperationError)
        }
    }
}


/// What sealing a record needs: the nonce, the additional data and the record
/// buffer, whose bytes from `data_start` on are to be encrypted in place.
pub struct SealPlan {
    /// Nonce of the AEAD operation.
    pub nonce: Vec<u8>,
    /// Additional data of the AEAD operation.
    pub aad: Vec<u8>,
    /// The record payload under construction.
    pub record: Vec<u8>,
    /// Where the bytes to encrypt start in `record`.
    pub data_start: usize,
}

impl SealPlan {
    /// The protected record: the (now encrypted) buffer followed by the tag.
    pub fn finish(self, tag: &[u8]) -> (out: Vec<u8>)
        ensures
            out@ == self.record@ + tag@,
    {
        let mut out = self.record;
        append_bytes(&mut out, tag);
        out
    }
}

/// What opening a record needs: the nonce, the additional data, and where the
/// ciphertext (followed by the tag) starts in the record payload.
pub struct OpenPlan {
    /// Nonce of the AEAD operation.
    pub nonce: Vec<u8>,
    /// Additional data of the AEAD operation.
    pub aad: Vec<u8>,
    /// Where ciphertext and tag start in the payload.
    pub data_start: usize,
}

/// The payload of an AES-GCM record sealed with nonce `nonce`, before the tag:
/// the explicit part of the nonce, then the data to encrypt.
pub open spec fn gcm_record_prefix(nonce: Seq<u8>, data: Seq<u8>) -> Seq<u8> {
    nonce.subrange(4, 12) + data
}

/// TLS 1.2 AES-GCM record encrypter.
pub struct AesGcmEncrypter {
    key: Vec<u8>,
    full_iv: Vec<u8>,
}

impl AesGcmEncrypter {
    #[verifier::type_invariant]
    spec fn well_formed(self) -> bool {
        self.full_iv.len() == NONCE_LEN
    }

    /// The key bytes.
    pub closed spec fn key_bytes(self) -> Seq<u8> {
        self.key@
    }

    /// The 12-byte IV that record nonces are derived from.
    pub closed spec fn iv(self) -> Seq<u8> {
        self.full_iv@
    }

    /// The key bytes.
    pub fn key(&self) -> (k: &[u8])
        ensures
            k@ == self.key_bytes(),
    {
        self.key.as_slice()
    }

    /// Length of the protected payload of a record carrying `payload_len`
    /// plaintext bytes: explicit nonce, ciphertext and tag.
    pub fn encrypted_payload_len(&self, payload_len: usize) -> (n: usize)
        requires
            payload_len <= usize::MAX - GCM_EXPLICIT_NONCE_LENGTH - TAG_LEN,
        ensures
            n == GCM_EXPLICIT_NONCE_LENGTH + payload_len + TAG_LEN,
    {
        GCM_EXPLICIT_NONCE_LENGTH + payload_len + TAG_LEN
    }

    /// Plans the sealing of record number `seq`: the nonce is the IV XOR-ed
    /// with `seq`, its last 8 bytes go in front of the data as the explicit
    /// nonce, and the data that follows is to be encrypted.
    pub fn seal_plan(&self, typ: u8, version: u16, payload: &[u8], seq: u64) -> (plan: SealPlan)
        ensures
            plan.nonce@ == tls12_nonce(self.iv(), seq),
            plan.aad@ == tls12_aad(seq, typ, version, payload.len()),
            plan.record@ == gcm_record_prefix(plan.nonce@, payload@),
            plan.data_start == GCM_EXPLICIT_NONCE_LENGTH,
    {
        proof {
            use_type_invariant(self);
        }
        let nonce = make_nonce(self.full_iv.as_slice(), seq);
        let mut record: Vec<u8> = Vec::new();
        append_bytes(&mut record, slice_range(nonce.as_slice(), GCM_IMPLICIT_NONCE_LENGTH, NONCE_LEN));
        append_bytes(&mut record, payload);
        let aad = make_tls12_aad(seq, typ, version, payload.len());
        SealPlan { nonce, aad, record, data_start: GCM_EXPLICIT_NONCE_LENGTH }
    }
}

/// TLS 1.2 AES-GCM record decrypter.
pub struct AesGcmDecrypter {
    key: Vec<u8>,
    implicit_iv: Vec<u8>,
}

impl AesGcmDecrypter {
    #[verifier::type_invariant]
    spec fn well_formed(self) -> bool {
        self.implicit_iv.len() == GCM_IMPLICIT_NONCE_LENGTH
    }

    /// The key bytes.
    pub closed spec fn key_bytes(self) -> Seq<u8> {
        self.key@
    }

    /// The 4-byte implicit part of record nonces.
    pub closed spec fn iv(self) -> Seq<u8> {
        self.implicit_iv@
    }

    /// The key bytes.
    pub fn key(&self) -> (k: &[u8])
        ensures
            k@ == self.key_bytes(),
    {
        self.key.as_slice()
    }

    /// Plans the opening of record number `seq` with protected payload
    /// `payload`: a payload too short for explicit nonce and tag is refused;
    /// otherwise the nonce is the implicit IV followed by the explicit nonce
    /// the payload starts with, and the additional data names the plaintext
    /// length that remains without explicit nonce and tag.
    pub fn open_plan(&self, typ: u8, version: u16, payload: &[u8], seq: u64) -> (res: Result<
        OpenPlan,
        Error,
    >)
        ensures
            payload.len() < TAG_LEN + GCM_EXPLICIT_NONCE_LENGTH ==> res matches Err(
                Error::DecryptError,
            ),
            payload.len() >= TAG_LEN + GCM_EXPLICIT_NONCE_LENGTH ==> (res matches Ok(plan) && {
                &&& plan.nonce@ == self.iv() + payload@.subrange(0, 8)
                &&& plan.aad@ == tls12_aad(
                    seq,
                    typ,
                    version,
                    (payload.len() - TAG_LEN - GCM_EXPLICIT_NONCE_LENGTH) as usize,
                )
                &&& plan.data_start == GCM_EXPLICIT_NONCE_LENGTH
            }),
    {
        proof {
            use_type_invariant(self);
        }
        let payload_len = payload.len();
        if payload_len < TAG_LEN + GCM_EXPLICIT_NONCE_LENGTH {
            return Err(Error::DecryptError);
        }
        let nonce = concat(
            self.implicit_iv.as_slice(),
            slice_range(payload, 0, GCM_EXPLICIT_NONCE_LENGTH),
        );
        let aad = make_tls12_aad(
            seq,
            typ,
            version,
            payload_len - TAG_LEN - GCM_EXPLICIT_NONCE_LENGTH,
        );
        Ok(OpenPlan { nonce, aad, data_start: GCM_EXPLICIT_NONCE_LENGTH })
    }

    /// Finishes opening a record whose bytes from the explicit nonce on were
    /// decrypted in place, with `opened` the outcome of the decryption (the
    /// plaintext length). A failed decryption is passed on, a plaintext longer
    /// than the TLS limit is refused, and otherwise the payload is cut down to
    /// the plaintext that followed the explicit nonce.
    pub fn finish_open(&self, payload: &mut Vec<u8>, opened: Result<usize, Error>) -> (res: Result<
        (),
        Error,
    >)
        requires
            opened matches Ok(n) ==> (n <= MAX_FRAGMENT_LEN ==> GCM_EXPLICIT_NONCE_LENGTH + n
                <= old(payload).len()),
        ensures
            match opened {
                Err(e) => res == Err::<(), Error>(e) && final(payload)@ == old(payload)@,
                Ok(n) => if n > MAX_FRAGMENT_LEN {
                    res == Err::<(), Error>(Error::PeerSentOversizedRecord) && final(payload)@
                        == old(payload)@
                } else {
                    res == Ok::<(), Error>(()) && final(payload)@ == old(payload)@.subrange(
                        GCM_EXPLICIT_NONCE_LENGTH as int,
                        GCM_EXPLICIT_NONCE_LENGTH + n,
                    )
                },
            },
    {
        let plaintext_len = match opened {
            Err(e) => return Err(e),
            Ok(n) => n,
        };
        if plaintext_len > MAX_FRAGMENT_LEN {
            return Err(Error::PeerSentOversizedRecord);
        }
        let ghost before = payload@;
        let mut i: usize = 0;
        while i < plaintext_len
            invariant
                i <= plaintext_len,
                plaintext_len <= MAX_FRAGMENT_LEN,
                GCM_EXPLICIT_NONCE_LENGTH + plaintext_len <= before.len(),
                payload@.len() == before.len(),
                forall|j: int| 0 <= j < i ==> payload@[j] == before[GCM_EXPLICIT_NONCE_LENGTH + j],
                forall|j: int| i <= j < before.len() ==> payload@[j] == before[j],
            decreases plaintext_len - i,
        {
            let b = payload[GCM_EXPLICIT_NONCE_LENGTH + i];
            payload.set(i, b);
            i = i + 1;
        }
        payload.truncate(plaintext_len);
        assert(payload@ == before.subrange(
            GCM_EXPLICIT_NONCE_LENGTH as int,
            GCM_EXPLICIT_NONCE_LENGTH + plaintext_len,
        ));
        Ok(())
    }
}

/// TLS 1.2 ChaCha20-Poly1305 record encrypter and decrypter.
pub struct ChaCha20Poly1305Crypter {
    key: Vec<u8>,
    iv: Vec<u8>,
}

impl ChaCha20Poly1305Crypter {
    #[verifier::type_invariant]
    spec fn well_formed(self) -> bool {
        self.iv.len() == NONCE_LEN
    }

    /// The key bytes.
    pub closed spec fn key_bytes(self) -> Seq<u8> {
        self.key@
    }

    /// The 12-byte IV that record nonces are derived from.
    pub closed spec fn iv(self) -> Seq<u8> {
        self.iv@
    }

    /// The key bytes.
    pub fn key(&self) -> (k: &[u8])
        ensures
            k@ == self.key_bytes(),
    {
        self.key.as_slice()
    }

    /// Length of the protected payload of a record carrying `payload_len`
    /// plaintext bytes: ciphertext and tag.
    pub fn encrypted_payload_len(&self, payload_len: usize) -> (n: usize)
        requires
            payload_len <= usize::MAX - TAG_LEN,
        ensures
            n == payload_len + TAG_LEN,
    {
        payload_len + TAG_LEN
    }

    /// Plans the sealing of record number `seq`: the nonce is the IV XOR-ed
    /// with `seq` and the whole payload is to be encrypted.
    pub fn seal_plan(&self, typ: u8, version: u16, payload: &[u8], seq: u64) -> (plan: SealPlan)
        ensures
            plan.nonce@ == tls12_nonce(self.iv(), seq),
            plan.aad@ == tls12_aad(seq, typ, version, payload.len()),
            plan.record@ == payload@,
            plan.data_start == 0,
    {
        proof {
            use_type_invariant(self);
        }
        let nonce = make_nonce(self.iv.as_slice(), seq);
        let aad = make_tls12_aad(seq, typ, version, payload.len());
        SealPlan { nonce, aad, record: to_vec(payload), data_start: 0 }
    }

    /// Plans the opening of record number `seq`: a payload too short for a
    /// tag is refused; otherwise the nonce is the IV XOR-ed with `seq` and
    /// the additional data names the length without the tag.
    pub fn open_plan(&self, typ: u8, version: u16, payload: &[u8], seq: u64) -> (res: Result<
        OpenPlan,
        Error,
    >)
        ensures
            payload.len() < TAG_LEN ==> res matches Err(Error::DecryptError),
            payload.len() >= TAG_LEN ==> (res matches Ok(plan) && {
                &&& plan.nonce@ == tls12_nonce(self.iv(), seq)
                &&& plan.aad@ == tls12_aad(seq, typ, version, (payload.len() - TAG_LEN) as usize)
                &&& plan.data_start == 0
            }),
    {
        proof {
            use_type_invariant(self);
        }
        let payload_len = payload.len();
        if payload_len < TAG_LEN {
            return Err(Error::DecryptError);
        }
        let message_len = payload_len - TAG_LEN;
        let nonce = make_nonce(self.iv.as_slice(), seq);
        let aad = make_tls12_aad(seq, typ, version, message_len);
        Ok(OpenPlan { nonce, aad, data_start: 0 })
    }

    /// Finishes opening a record decrypted in place, with `opened` the outcome
    /// of the decryption (the plaintext length): a failure is passed on, a
    /// plaintext longer than the TLS limit is refused, and otherwise the
    /// payload is cut down to the plaintext.
    pub fn finish_open(&self, payload: &mut Vec<u8>, opened: Result<usize, Error>) -> (res: Result<
        (),
        Error,
    >)
        ensures
            match opened {
                Err(e) => res == Err::<(), Error>(e) && final(payload)@ == old(payload)@,
                Ok(n) => if n > MAX_FRAGMENT_LEN {
                    res == Err::<(), Error>(Error::PeerSentOversizedRecord) && final(payload)@
                        == old(payload)@
                } else {
                    &&& res == Ok::<(), Error>(())
                    &&& n <= old(payload).len() ==> final(payload)@ == old(payload)@.subrange(0, n as int)
                    &&& n > old(payload).len() ==> final(payload)@ == old(payload)@
                },
            },
    {
        let plaintext_len = match opened {
            Err(e) => return Err(e),
            Ok(n) => n,
        };
        if plaintext_len > MAX_FRAGMENT_LEN {
            return Err(Error::PeerSentOversizedRecord);
        }
        payload.truncate(plaintext_len);
        Ok(())
    }
}

/// A TLS 1.2 record encrypter of either cipher.
pub enum RecordEncrypter {
    /// AES-GCM.
    AesGcm(AesGcmEncrypter),
    /// ChaCha20-Poly1305.
    ChaCha20Poly1305(ChaCha20Poly1305Crypter),
}

/// A TLS 1.2 record decrypter of either cipher.
pub enum RecordDecrypter {
    /// AES-GCM.
    AesGcm(AesGcmDecrypter),
    /// ChaCha20-Poly1305.
    ChaCha20Poly1305(ChaCha20Poly1305Crypter),
}

/// The bytes of `s` from `start` up to `end`.
fn slice_range(s: &[u8], start: usize, end: usize) -> (r: &[u8])
    requires
        start <= end <= s.len(),
    ensures
        r@ == s@.subrange(start as int, end as int),
{
    slice_subrange(s, start, end)
}

impl Algorithm {
    /// The record encrypter for `key` and the key block's fixed IV `iv` and
    /// explicit nonce `extra`: AES-GCM derives nonces from the 12 bytes
    /// `iv` followed by `extra`, ChaCha20-Poly1305 from the 12-byte `iv`.
    pub fn encrypter(&self, key: &[u8], iv: &[u8], extra: &[u8]) -> (enc: RecordEncrypter)
        requires
            key.len() == self.key_len(),
            self.aes() ==> iv.len() == GCM_IMPLICIT_NONCE_LENGTH && extra.len()
                == GCM_EXPLICIT_NONCE_LENGTH,
            !self.aes() ==> iv.len() == NONCE_LEN,
        ensures
            self.aes() ==> (enc matches RecordEncrypter::AesGcm(e) && e.key_bytes() == key@
                && e.iv() == iv@ + extra@),
            !self.aes() ==> (enc matches RecordEncrypter::ChaCha20Poly1305(e) && e.key_bytes()
                == key@ && e.iv() == iv@),
    {
        if self.is_aes() {
            RecordEncrypter::AesGcm(AesGcmEncrypter { key: to_vec(key), full_iv: concat(iv, extra) })
        } else {
            RecordEncrypter::ChaCha20Poly1305(
                ChaCha20Poly1305Crypter { key: to_vec(key), iv: to_vec(iv) },
            )
        }
    }

    /// The record decrypter for `key` and the key block's fixed IV `iv`.
    pub fn decrypter(&self, key: &[u8], iv: &[u8]) -> (dec: RecordDecrypter)
        requires
            key.len() == self.key_len(),
            self.aes() ==> iv.len() == GCM_IMPLICIT_NONCE_LENGTH,
            !self.aes() ==> iv.len() == NONCE_LEN,
        ensures
            self.aes() ==> (dec matches RecordDecrypter::AesGcm(d) && d.key_bytes() == key@
                && d.iv() == iv@),
            !self.aes() ==> (dec matches RecordDecrypter::ChaCha20Poly1305(d) && d.key_bytes()
                == key@ && d.iv() == iv@),
    {
        if self.is_aes() {
            RecordDecrypter::AesGcm(AesGcmDecrypter { key: to_vec(key), implicit_iv: to_vec(iv) })
        } else {
            RecordDecrypter::ChaCha20Poly1305(
                ChaCha20Poly1305Crypter { key: to_vec(key), iv: to_vec(iv) },
            )
        }
    }
}


/// The three algorithms of the provider: AES-GCM with a 16- or 32-byte key,
/// ChaCha20-Poly1305 with a 32-byte key.
pub open spec fn provider_algorithm(alg: Algorithm) -> bool {
    if alg.aes() {
        alg.key_len() == 16 || alg.key_len() == 32
    } else {
        alg.key_len() == 32
    }
}

/// Key material cut to the key block shape of an algorithm is what its
/// record encrypter and decrypter take.
pub proof fn lemma_key_block_fits_record_protection(
    alg: Algorithm,
    key: Seq<u8>,
    iv: Seq<u8>,
    extra: Seq<u8>,
)
    requires
        key.len() == key_block_shape_of(alg).enc_key_len,
        iv.len() == key_block_shape_of(alg).fixed_iv_len,
        extra.len() == key_block_shape_of(alg).explicit_nonce_len,
    ensures
        key.len() == alg.key_len(),
        alg.aes() ==> iv.len() == GCM_IMPLICIT_NONCE_LENGTH && extra.len()
            == GCM_EXPLICIT_NONCE_LENGTH,
        !alg.aes() ==> iv.len() == NONCE_LEN,
{
}

/// The secrets extracted from a key block carry the IV that the record
/// encrypter built from the same key block derives its nonces from: for
/// AES-GCM the fixed IV followed by the explicit nonce, for ChaCha20-Poly1305
/// the fixed IV, always 12 bytes, under the secret kind of the algorithm
/// (0: AES-128-GCM, 1: AES-256-GCM, 2: ChaCha20-Poly1305). Extraction
/// succeeds for every algorithm of the provider.
pub proof fn lemma_extracted_iv_is_encrypter_iv(
    alg: Algorithm,
    key: Seq<u8>,
    iv: Seq<u8>,
    extra: Seq<u8>,
)
    requires
        provider_algorithm(alg),
        iv.len() == key_block_shape_of(alg).fixed_iv_len,
        extra.len() == key_block_shape_of(alg).explicit_nonce_len,
    ensures
        extracted_secrets(alg.aes(), alg.key_len(), key, iv, extra) matches Some(parts) && {
            &&& alg.aes() && alg.key_len() == 16 ==> parts.0 == 0
            &&& alg.aes() && alg.key_len() == 32 ==> parts.0 == 1
            &&& !alg.aes() ==> parts.0 == 2
            &&& parts.2.len() == NONCE_LEN
            &&& parts.1 == key
            &&& alg.aes() ==> parts.2 == iv + extra
            &&& !alg.aes() ==> parts.2 == iv
        },
{
}

/// An AES-GCM record sealed by the encrypter built from fixed IV `iv` and
/// explicit nonce `extra` is opened by the decrypter built from `iv` with the
/// very nonce and additional data it was sealed with, whatever ciphertext
/// (`sealed`, as long as the data) and tag it carries; its length is the
/// encrypted payload length; and once the ciphertext is decrypted in place
/// back to the data, the plaintext the decrypter keeps is exactly the data.
pub proof fn lemma_gcm_open_agrees_with_seal(
    iv: Seq<u8>,
    extra: Seq<u8>,
    seq: u64,
    typ: u8,
    version: u16,
    data: Seq<u8>,
    sealed: Seq<u8>,
    tag: Seq<u8>,
)
    requires
        iv.len() == GCM_IMPLICIT_NONCE_LENGTH,
        extra.len() == GCM_EXPLICIT_NONCE_LENGTH,
        sealed.len() == data.len(),
        tag.len() == TAG_LEN,
        data.len() <= usize::MAX - GCM_EXPLICIT_NONCE_LENGTH - TAG_LEN,
    ensures
        ({
            let nonce = tls12_nonce(iv + extra, seq);
            let payload = gcm_record_prefix(nonce, sealed) + tag;
            &&& payload.len() == GCM_EXPLICIT_NONCE_LENGTH + data.len() + TAG_LEN
            &&& iv + payload.subrange(0, 8) == nonce
            &&& tls12_aad(
                seq,
                typ,
                version,
                (payload.len() - TAG_LEN - GCM_EXPLICIT_NONCE_LENGTH) as usize,
            ) == tls12_aad(seq, typ, version, data.len() as usize)
            &&& (gcm_record_prefix(nonce, data) + tag).subrange(
                GCM_EXPLICIT_NONCE_LENGTH as int,
                GCM_EXPLICIT_NONCE_LENGTH + data.len(),
            ) == data
        }),
{
    let nonce = tls12_nonce(iv + extra, seq);
    let payload = gcm_record_prefix(nonce, sealed) + tag;
    assert(iv + payload.subrange(0, 8) =~= nonce);
    assert((gcm_record_prefix(nonce, data) + tag).subrange(
        GCM_EXPLICIT_NONCE_LENGTH as int,
        GCM_EXPLICIT_NONCE_LENGTH + data.len(),
    ) =~= data);
}

/// A ChaCha20-Poly1305 record sealed by the crypter with IV `iv` is opened by
/// the crypter with the same IV with the nonce and additional data it was
/// sealed with, whatever ciphertext and tag it carries; its length is the
/// encrypted payload length; and once the ciphertext is decrypted in place
/// back to the data, the plaintext the crypter keeps is exactly the data.
pub proof fn lemma_chacha_open_agrees_with_seal(
    iv: Seq<u8>,
    seq: u64,
    typ: u8,
    version: u16,
    data: Seq<u8>,
    sealed: Seq<u8>,
    tag: Seq<u8>,
)
    requires
        iv.len() == NONCE_LEN,
        sealed.len() == data.len(),
        tag.len() == TAG_LEN,
        data.len() <= usize::MAX - TAG_LEN,
    ensures
        ({
            let payload = sealed + tag;
            &&& payload.len() == data.len() + TAG_LEN
            &&& tls12_aad(seq, typ, version, (payload.len() - TAG_LEN) as usize) == tls12_aad(
                seq,
                typ,
                version,
                data.len() as usize,
            )
            &&& (data + tag).subrange(0, data.len() as int) == data
        }),
{
    assert((data + tag).subrange(0, data.len() as int) =~= data);
}

/// XOR with the same byte is injective.
proof fn lemma_xor_cancel(a: u8, x: u8, y: u8)
    requires
        a ^ x == a ^ y,
    ensures
        x == y,
{
    assert(a ^ x == a ^ y ==> x == y) by (bit_vector);
}

/// The big-endian encoding of a `u64` is injective.
proof fn lemma_u64_be_bytes_injective(x: u64, y: u64)
    requires
        u64_be_bytes(x) == u64_be_bytes(y),
    ensures
        x == y,
{
    let bx = u64_be_bytes(x);
    let by = u64_be_bytes(y);
    assert(bx[0] == by[0] && bx[1] == by[1] && bx[2] == by[2] && bx[3] == by[3]);
    assert(bx[4] == by[4] && bx[5] == by[5] && bx[6] == by[6] && bx[7] == by[7]);
    assert(((x >> 56u64) as u8 == (y >> 56u64) as u8 && (x >> 48u64) as u8 == (y >> 48u64) as u8
        && (x >> 40u64) as u8 == (y >> 40u64) as u8 && (x >> 32u64) as u8 == (y >> 32u64) as u8
        && (x >> 24u64) as u8 == (y >> 24u64) as u8 && (x >> 16u64) as u8 == (y >> 16u64) as u8
        && (x >> 8u64) as u8 == (y >> 8u64) as u8 && x as u8 == y as u8) ==> x == y)
        by (bit_vector);
}

/// Records with different sequence numbers get different nonces under the
/// same IV: no nonce is used twice on a connection.
pub proof fn lemma_nonce_unique_per_record(iv: Seq<u8>, seq1: u64, seq2: u64)
    requires
        iv.len() == NONCE_LEN,
        seq1 != seq2,
    ensures
        tls12_nonce(iv, seq1) != tls12_nonce(iv, seq2),
{
    let n1 = tls12_nonce(iv, seq1);
    let n2 = tls12_nonce(iv, seq2);
    if n1 == n2 {
        assert forall|j: int| 0 <= j < 8 implies u64_be_bytes(seq1)[j] == u64_be_bytes(seq2)[j] by {
            assert(n1[4 + j] == n2[4 + j]);
            lemma_xor_cancel(iv[4 + j], u64_be_bytes(seq1)[j], u64_be_bytes(seq2)[j]);
        }
        assert(u64_be_bytes(seq1) =~= u64_be_bytes(seq2));
        lemma_u64_be_bytes_injective(seq1, seq2);
    }
}


/// Records that may be protected with one AES-GCM key (2^23).
pub const AES_GCM_CONFIDENTIALITY_LIMIT: u64 = 8388608;

/// The signature algorithms a TLS 1.2 suite authenticates the key exchange
/// with.
#[derive(Debug, Clone, Copy, PartialEq, Eq, Structural)]
pub enum SignatureFamily {
    /// ECDSA with P-521/SHA-512, P-384/SHA-384 or P-256/SHA-256: the schemes
    /// of [`ecdsa_schemes`].
    Ecdsa,
    /// RSA PSS or PKCS#1 v1.5.
    Rsa,
}

/// The key exchange of a TLS 1.2 cipher suite.
#[derive(Debug, Clone, Copy, PartialEq, Eq, Structural)]
pub enum KeyExchangeAlgorithm {
    /// Finite-field Diffie-Hellman.
    Dhe,
    /// Elliptic-curve Diffie-Hellman.
    Ecdhe,
}

/// Parameters of a TLS 1.2 cipher suite of the provider: its IANA number,
/// key exchange, hash (also the PRF's hash), how the key exchange is signed,
/// the record AEAD, and how many records one key may protect.
#[derive(Debug, Clone, Copy)]
pub struct Tls12SuiteParams {
    /// IANA number of the suite.
    pub suite: u16,
    /// Key exchange.
    pub kx: KeyExchangeAlgorithm,
    /// Hash of the suite and of its PRF.
    pub hash: HashAlgorithm,
    /// Signature algorithms of the key exchange.
    pub sign: SignatureFamily,
    /// Record protection.
    pub aead_alg: Algorithm,
    /// Records one key may protect.
    pub confidentiality_limit: u64,
}

/// The TLS 1.2 cipher suite `TLS_ECDHE_ECDSA_WITH_CHACHA20_POLY1305_SHA256`.
pub fn tls_ecdhe_ecdsa_with_chacha20_poly1305_sha256() -> (p: Tls12SuiteParams)
    ensures
        p.suite == 0xcca9,
        p.kx == KeyExchangeAlgorithm::Ecdhe,
        p.hash == HashAlgorithm::Sha256,
        p.sign == SignatureFamily::Ecdsa,
        !p.aead_alg.aes(),
        p.aead_alg.key_len() == 32,
        p.confidentiality_limit == u64::MAX,
{
    Tls12SuiteParams {
        suite: suite_id_ecdhe_ecdsa_with_chacha20_poly1305_sha256(),
        kx: KeyExchangeAlgorithm::Ecdhe,
        hash: HashAlgorithm::Sha256,
        sign: SignatureFamily::Ecdsa,
        aead_alg: Algorithm::chacha20_poly1305(),
        confidentiality_limit: u64::MAX,
    }
}

/// The TLS 1.2 cipher suite `TLS_ECDHE_RSA_WITH_CHACHA20_POLY1305_SHA256`.
pub fn tls_ecdhe_rsa_with_chacha20_poly1305_sha256() -> (p: Tls12SuiteParams)
    ensures
        p.suite == 0xcca8,
        p.kx == KeyExchangeAlgorithm::Ecdhe,
        p.hash == HashAlgorithm::Sha256,
        p.sign == SignatureFamily::Rsa,
        !p.aead_alg.aes(),
        p.aead_alg.key_len() == 32,
        p.confidentiality_limit == u64::MAX,
{
    Tls12SuiteParams {
        suite: suite_id_ecdhe_rsa_with_chacha20_poly1305_sha256(),
        kx: KeyExchangeAlgorithm::Ecdhe,
        hash: HashAlgorithm::Sha256,
        sign: SignatureFamily::Rsa,
        aead_alg: Algorithm::chacha20_poly1305(),
        confidentiality_limit: u64::MAX,
    }
}

/// The TLS 1.2 cipher suite `TLS_ECDHE_RSA_WITH_AES_128_GCM_SHA256`.
pub fn tls_ecdhe_rsa_with_aes_128_gcm_sha256() -> (p: Tls12SuiteParams)
    ensures
        p.suite == 0xc02f,
        p.kx == KeyExchangeAlgorithm::Ecdhe,
        p.hash == HashAlgorithm::Sha256,
        p.sign == SignatureFamily::Rsa,
        p.aead_alg.aes(),
        p.aead_alg.key_len() == 16,
        p.confidentiality_limit == AES_GCM_CONFIDENTIALITY_LIMIT,
{
    Tls12SuiteParams {
        suite: suite_id_ecdhe_rsa_with_aes_128_gcm_sha256(),
        kx: KeyExchangeAlgorithm::Ecdhe,
        hash: HashAlgorithm::Sha256,
        sign: SignatureFamily::Rsa,
        aead_alg: Algorithm::aes_128_gcm(),
        confidentiality_limit: AES_GCM_CONFIDENTIALITY_LIMIT,
    }
}

/// The TLS 1.2 cipher suite `TLS_ECDHE_RSA_WITH_AES_256_GCM_SHA384`.
pub fn tls_ecdhe_rsa_with_aes_256_gcm_sha384() -> (p: Tls12SuiteParams)
    ensures
        p.suite == 0xc030,
        p.kx == KeyExchangeAlgorithm::Ecdhe,
        p.hash == HashAlgorithm::Sha384,
        p.sign == SignatureFamily::Rsa,
        p.aead_alg.aes(),
        p.aead_alg.key_len() == 32,
        p.confidentiality_limit == AES_GCM_CONFIDENTIALITY_LIMIT,
{
    Tls12SuiteParams {
        suite: suite_id_ecdhe_rsa_with_aes_256_gcm_sha384(),
        kx: KeyExchangeAlgorithm::Ecdhe,
        hash: HashAlgorithm::Sha384,
        sign: SignatureFamily::Rsa,
        aead_alg: Algorithm::aes_256_gcm(),
        confidentiality_limit: AES_GCM_CONFIDENTIALITY_LIMIT,
    }
}

/// The TLS 1.2 cipher suite `TLS_ECDHE_ECDSA_WITH_AES_128_GCM_SHA256`.
pub fn tls_ecdhe_ecdsa_with_aes_128_gcm_sha256() -> (p: Tls12SuiteParams)
    ensures
        p.suite == 0xc02b,
        p.kx == KeyExchangeAlgorithm::Ecdhe,
        p.hash == HashAlgorithm::Sha256,
        p.sign == SignatureFamily::Ecdsa,
        p.aead_alg.aes(),
        p.aead_alg.key_len() == 16,
        p.confidentiality_limit == AES_GCM_CONFIDENTIALITY_LIMIT,
{
    Tls12SuiteParams {
        suite: suite_id_ecdhe_ecdsa_with_aes_128_gcm_sha256(),
        kx: KeyExchangeAlgorithm::Ecdhe,
        hash: HashAlgorithm::Sha256,
        sign: SignatureFamily::Ecdsa,
        aead_alg: Algorithm::aes_128_gcm(),
        confidentiality_limit: AES_GCM_CONFIDENTIALITY_LIMIT,
    }
}

/// The TLS 1.2 cipher suite `TLS_ECDHE_ECDSA_WITH_AES_256_GCM_SHA384`.
pub fn tls_ecdhe_ecdsa_with_aes_256_gcm_sha384() -> (p: Tls12SuiteParams)
    ensures
        p.suite == 0xc02c,
        p.kx == KeyExchangeAlgorithm::Ecdhe,
        p.hash == HashAlgorithm::Sha384,
        p.sign == SignatureFamily::Ecdsa,
        p.aead_alg.aes(),
        p.aead_alg.key_len() == 32,
        p.confidentiality_limit == AES_GCM_CONFIDENTIALITY_LIMIT,
{
    Tls12SuiteParams {
        suite: suite_id_ecdhe_ecdsa_with_aes_256_gcm_sha384(),
        kx: KeyExchangeAlgorithm::Ecdhe,
        hash: HashAlgorithm::Sha384,
        sign: SignatureFamily::Ecdsa,
        aead_alg: Algorithm::aes_256_gcm(),
        confidentiality_limit: AES_GCM_CONFIDENTIALITY_LIMIT,
    }
}


/// `rustls::CipherSuite::TLS_ECDHE_ECDSA_WITH_CHACHA20_POLY1305_SHA256` as its IANA number, 0xcca9.
#[verifier::external_body]
fn suite_id_ecdhe_ecdsa_with_chacha20_poly1305_sha256() -> (id: u16)
    ensures
        id == 0xcca9,
{
    u16::from(CipherSuite::TLS_ECDHE_ECDSA_WITH_CHACHA20_POLY1305_SHA256)
}

/// `rustls::CipherSuite::TLS_ECDHE_RSA_WITH_CHACHA20_POLY1305_SHA256` as its IANA number, 0xcca8.
#[verifier::external_body]
fn suite_id_ecdhe_rsa_with_chacha20_poly1305_sha256() -> (id: u16)
    ensures
        id == 0xcca8,
{
    u16::from(CipherSuite::TLS_ECDHE_RSA_WITH_CHACHA20_POLY1305_SHA256)
}

/// `rustls::CipherSuite::TLS_ECDHE_RSA_WITH_AES_128_GCM_SHA256` as its IANA number, 0xc02f.
#[verifier::external_body]
fn suite_id_ecdhe_rsa_with_aes_128_gcm_sha256() -> (id: u16)
    ensures
        id == 0xc02f,
{
    u16::from(CipherSuite::TLS_ECDHE_RSA_WITH_AES_128_GCM_SHA256)
}

/// `rustls::CipherSuite::TLS_ECDHE_RSA_WITH_AES_256_GCM_SHA384` as its IANA number, 0xc030.
#[verifier::external_body]
fn suite_id_ecdhe_rsa_with_aes_256_gcm_sha384() -> (id: u16)
    ensures
        id == 0xc030,
{
    u16::from(CipherSuite::TLS_ECDHE_RSA_WITH_AES_256_GCM_SHA384)
}

/// `rustls::CipherSuite::TLS_ECDHE_ECDSA_WITH_AES_128_GCM_SHA256` as its IANA number, 0xc02b.
#[verifier::external_body]
fn suite_id_ecdhe_ecdsa_with_aes_128_gcm_sha256() -> (id: u16)
    ensures
        id == 0xc02b,
{
    u16::from(CipherSuite::TLS_ECDHE_ECDSA_WITH_AES_128_GCM_SHA256)
}

/// `rustls::CipherSuite::TLS_ECDHE_ECDSA_WITH_AES_256_GCM_SHA384` as its IANA number, 0xc02c.
#[verifier::external_body]
fn suite_id_ecdhe_ecdsa_with_aes_256_gcm_sha384() -> (id: u16)
    ensures
        id == 0xc02c,
{
    u16::from(CipherSuite::TLS_ECDHE_ECDSA_WITH_AES_256_GCM_SHA384)
}

/// `rustls::SignatureScheme::ECDSA_NISTP521_SHA512` as its IANA number, 0x0603.
#[verifier::external_body]
fn scheme_id_ecdsa_nistp521_sha512() -> (id: u16)
    ensures
        id == 0x0603,
{
    u16::from(SignatureScheme::ECDSA_NISTP521_SHA512)
}

/// `rustls::SignatureScheme::ECDSA_NISTP384_SHA384` as its IANA number, 0x0503.
#[verifier::external_body]
fn scheme_id_ecdsa_nistp384_sha384() -> (id: u16)
    ensures
        id == 0x0503,
{
    u16::from(SignatureScheme::ECDSA_NISTP384_SHA384)
}

/// `rustls::SignatureScheme::ECDSA_NISTP256_SHA256` as its IANA number, 0x0403.
#[verifier::external_body]
fn scheme_id_ecdsa_nistp256_sha256() -> (id: u16)
    ensures
        id == 0x0403,
{
    u16::from(SignatureScheme::ECDSA_NISTP256_SHA256)
}

/// The signature schemes, in order of preference, that ECDSA suites accept for
/// signing the key exchange: P-521 with SHA-512, P-384 with SHA-384, P-256
/// with SHA-256 (IANA numbers).
pub fn ecdsa_schemes() -> (schemes: Vec<u16>)
    ensures
        schemes@ == seq![0x0603u16, 0x0503u16, 0x0403u16],
{
    let mut schemes: Vec<u16> = Vec::new();
    schemes.push(scheme_id_ecdsa_nistp521_sha512());
    schemes.push(scheme_id_ecdsa_nistp384_sha384());
    schemes.push(scheme_id_ecdsa_nistp256_sha256());
    schemes
}


/// The big-endian encoding of a `u64` reads back as the number.
pub proof fn lemma_u64_be_bytes_value(x: u64)
    ensures
        be_value(u64_be_bytes(x)) == x,
{
    let b = u64_be_bytes(x);
    assert(b.subrange(0, 1).drop_last() =~= b.subrange(0, 0));
    assert forall|k: int| 1 <= k <= 8 implies #[trigger] b.subrange(0, k).drop_last() == b.subrange(
        0,
        k - 1,
    ) && b.subrange(0, k).last() == b[k - 1] by {
        assert(b.subrange(0, k).drop_last() =~= b.subrange(0, k - 1));
    }
    assert(b.subrange(0, 8) =~= b);
    assert(be_value(b.subrange(0, 0)) == 0);
    assert((x >> 56u64) == (x >> 56u64) as u8) by (bit_vector);
    assert((x >> 48u64) == (x >> 56u64) * 256 + ((x >> 48u64) as u8)) by (bit_vector);
    assert((x >> 40u64) == (x >> 48u64) * 256 + ((x >> 40u64) as u8)) by (bit_vector);
    assert((x >> 32u64) == (x >> 40u64) * 256 + ((x >> 32u64) as u8)) by (bit_vector);
    assert((x >> 24u64) == (x >> 32u64) * 256 + ((x >> 24u64) as u8)) by (bit_vector);
    assert((x >> 16u64) == (x >> 24u64) * 256 + ((x >> 16u64) as u8)) by (bit_vector);
    assert((x >> 8u64) == (x >> 16u64) * 256 + ((x >> 8u64) as u8)) by (bit_vector);
    assert(x == (x >> 8u64) * 256 + (x as u8)) by (bit_vector);
    assert(be_value(b.subrange(0, 1)) == (x >> 56u64));
    assert(be_value(b.subrange(0, 2)) == (x >> 48u64));
    assert(be_value(b.subrange(0, 3)) == (x >> 40u64));
    assert(be_value(b.subrange(0, 4)) == (x >> 32u64));
    assert(be_value(b.subrange(0, 5)) == (x >> 24u64));
    assert(be_value(b.subrange(0, 6)) == (x >> 16u64));
    assert(be_value(b.subrange(0, 7)) == (x >> 8u64));
    assert(be_value(b.subrange(0, 8)) == x);
}

/// A record nonce keeps the first four IV bytes, and XOR-ing its last eight
/// bytes with the IV's gives the record's sequence number, big-endian.
pub proof fn lemma_nonce_reads_back_seq(iv: Seq<u8>, seq: u64)
    requires
        iv.len() == NONCE_LEN,
    ensures
        tls12_nonce(iv, seq).len() == NONCE_LEN,
        tls12_nonce(iv, seq).subrange(0, 4) == iv.subrange(0, 4),
        be_value(Seq::new(8, |j: int| tls12_nonce(iv, seq)[4 + j] ^ iv[4 + j])) == seq,
{
    let n = tls12_nonce(iv, seq);
    let d = Seq::new(8, |j: int| n[4 + j] ^ iv[4 + j]);
    assert(n.subrange(0, 4) =~= iv.subrange(0, 4));
    assert forall|j: int| 0 <= j < 8 implies #[trigger] d[j] == u64_be_bytes(seq)[j] by {
        let a = iv[4 + j];
        let b = u64_be_bytes(seq)[j];
        assert((a ^ b) ^ a == b) by (bit_vector);
    }
    assert(d =~= u64_be_bytes(seq));
    lemma_u64_be_bytes_value(seq);
}

/// The additional data of a record is 13 bytes: the sequence number, the
/// content type, the protocol version and the plaintext length modulo 2^16,
/// read back big-endian from their places.
pub proof fn lemma_aad_fields(seq: u64, typ: u8, version: u16, len: usize)
    ensures
        ({
            let aad = tls12_aad(seq, typ, version, len);
            &&& aad.len() == 13
            &&& be_value(aad.subrange(0, 8)) == seq
            &&& aad[8] == typ
            &&& be_value(aad.subrange(9, 11)) == version
            &&& be_value(aad.subrange(11, 13)) == len % 65536
        }),
{
    let aad = tls12_aad(seq, typ, version, len);
    assert(aad.subrange(0, 8) =~= u64_be_bytes(seq));
    lemma_u64_be_bytes_value(seq);
    lemma_u16_be_bytes_value(version);
    assert(aad.subrange(9, 11) =~= u16_be_bytes(version));
    assert(aad.subrange(11, 13) =~= u16_be_bytes(len as u16));
    lemma_u16_be_bytes_value(len as u16);
    assert((len as u16) == len % 65536) by (bit_vector);
}

/// The big-endian encoding of a `u16` reads back as the number.
proof fn lemma_u16_be_bytes_value(x: u16)
    ensures
        be_value(u16_be_bytes(x)) == x,
{
    let b = u16_be_bytes(x);
    let h = #[verifier::truncate] ((x >> 8u16) as u8);
    let l = #[verifier::truncate] (x as u8);
    assert(b.drop_last() =~= seq![h]);
    assert(b.last() == l);
    assert(seq![h].drop_last() =~= Seq::<u8>::empty());
    assert(seq![h].last() == h);
    assert(be_value(Seq::<u8>::empty()) == 0);
    assert(be_value(seq![h]) == h);
    assert(be_value(b) == be_value(seq![h]) * 256 + l);
    assert((x >> 8u16) == (x >> 8u16) as u8) by (bit_vector);
    assert(x == (x >> 8u16) * 256 + (x as u8)) by (bit_vector);
}

} // verus!
