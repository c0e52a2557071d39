//! Signature verification: the RSA key-size policy, key decoding and the
//! conversion of DER-encoded ECDSA signatures to the fixed-width form.
use vstd::prelude::*;
use vstd::std_specs::bits::{u8_leading_zeros, axiom_u8_leading_zeros};
use vstd::arithmetic::power2::{pow2, lemma_pow2_unfold, lemma2_to64};
use vstd::string::StringExecFns;
use vstd::slice::slice_subrange;
use crate::bytes::{append_bytes, zeros};
use crate::digest::{HashAlgorithm, hash_output_len};
use crate::alg_ids::{
    der_ecdsa_p256, der_ecdsa_p384, der_ecdsa_p521, der_ecdsa_sha256, der_ecdsa_sha384,
    der_ecdsa_sha512, der_rsa_encryption, der_rsa_pkcs1_sha256, der_rsa_pkcs1_sha384,
    der_rsa_pkcs1_sha512, der_rsa_pss_sha256, der_rsa_pss_sha384, der_rsa_pss_sha512,
    alg_id_ecdsa_p256, alg_id_ecdsa_p384, alg_id_ecdsa_p521, alg_id_ecdsa_sha256,
    alg_id_ecdsa_sha384, alg_id_ecdsa_sha512, alg_id_rsa_encryption, alg_id_rsa_pkcs1_sha256,
    alg_id_rsa_pkcs1_sha384, alg_id_rsa_pkcs1_sha512, alg_id_rsa_pss_sha256,
    alg_id_rsa_pss_sha384, alg_id_rsa_pss_sha512,
};

verus! {

/// The number of significant bits of the byte `b`.
pub open spec fn byte_bit_len(b: u8) -> nat {
    if b >= 128 {
        8
    } else if b >= 64 {
        7
    } else if b >= 32 {
        6
    } else if b >= 16 {
        5
    } else if b >= 8 {
        4
    } else if b >= 4 {
        3
    } else if b >= 2 {
        2
    } else if b >= 1 {
        1
    } else {
        0
    }
}

/// The bit length the RSA policy reads off big-endian modulus bytes: eight
/// bits for every byte after the first, plus the significant bits of the
/// first byte.
pub open spec fn modulus_bit_len(m: Seq<u8>) -> nat {
    if m.len() == 0 {
        0
    } else {
        ((m.len() - 1) * 8 + byte_bit_len(m[0])) as nat
    }
}

/// The value of big-endian bytes.
pub open spec fn be_value(s: Seq<u8>) -> nat
    decreases s.len(),
{
    if s.len() == 0 {
        0
    } else {
        be_value(s.drop_last()) * 256 + s.last() as nat
    }
}

/// The smallest number of bits that can hold `n`.
pub open spec fn bit_len(n: nat) -> nat
    decreases n,
{
    if n == 0 {
        0
    } else {
        1 + bit_len(n / 2)
    }
}

/// `8 - b.leading_zeros()` is the number of significant bits of `b`.
proof fn lemma_leading_zeros_bit_len(b: u8)
    ensures
        8 - u8_leading_zeros(b) == byte_bit_len(b),
{
    axiom_u8_leading_zeros(b);
    let lz = u8_leading_zeros(b);
    if lz == 0 {
        assert((b >> 7u8) & 1u8 != 0u8 ==> b >= 128) by (bit_vector);
    } else if lz == 1 {
        assert(((b >> 6u8) & 1u8 != 0u8 && b >> 7u8 == 0u8) ==> 64 <= b < 128) by (bit_vector);
    } else if lz == 2 {
        assert(((b >> 5u8) & 1u8 != 0u8 && b >> 6u8 == 0u8) ==> 32 <= b < 64) by (bit_vector);
    } else if lz == 3 {
        assert(((b >> 4u8) & 1u8 != 0u8 && b >> 5u8 == 0u8) ==> 16 <= b < 32) by (bit_vector);
    } else if lz == 4 {
        assert(((b >> 3u8) & 1u8 != 0u8 && b >> 4u8 == 0u8) ==> 8 <= b < 16) by (bit_vector);
    } else if lz == 5 {
        assert(((b >> 2u8) & 1u8 != 0u8 && b >> 3u8 == 0u8) ==> 4 <= b < 8) by (bit_vector);
    } else if lz == 6 {
        assert(((b >> 1u8) & 1u8 != 0u8 && b >> 2u8 == 0u8) ==> 2 <= b < 4) by (bit_vector);
    } else if lz == 7 {
        assert(((b >> 0u8) & 1u8 != 0u8 && b >> 1u8 == 0u8) ==> b == 1) by (bit_vector);
    }
}

/// Bit length of a big-endian RSA modulus, as the key-size policy counts
/// it: the significant bits of the first byte plus eight per further byte
/// (zero for no bytes).
pub fn rsa_modulus_bit_len(modulus: &[u8]) -> (bits: usize)
    requires
        modulus.len() <= usize::MAX / 8,
    ensures
        bits == modulus_bit_len(modulus@),
{
    if modulus.len() == 0 {
        return 0;
    }
    let first = modulus[0];
    proof {
        lemma_leading_zeros_bit_len(first);
    }
    (modulus.len() - 1) * 8 + (8 - first.leading_zeros() as usize)
}

/// Smallest RSA modulus accepted, in bits.
pub const RSA_MIN_MODULUS_BITS: usize = 2048;

/// Largest RSA modulus accepted, in bits.
pub const RSA_MAX_MODULUS_BITS: usize = 8192;

/// Whether an RSA modulus has a size the policy accepts.
pub open spec fn rsa_modulus_allowed(modulus: Seq<u8>) -> bool {
    RSA_MIN_MODULUS_BITS <= modulus_bit_len(modulus) <= RSA_MAX_MODULUS_BITS
}


/// Appending `k` low bits to a positive number adds `k` to its bit length.
proof fn lemma_bit_len_shift(n: nat, k: nat, r: nat)
    requires
        n > 0,
        r < pow2(k),
    ensures
        bit_len(n * pow2(k) + r) == bit_len(n) + k,
    decreases k,
{
    if k == 0 {
        lemma2_to64();
        assert(n * pow2(k) == n) by (nonlinear_arith)
            requires
                pow2(k) == 1,
        ;
    } else {
        let h = pow2((k - 1) as nat);
        lemma_pow2_unfold(k);
        let y = n * pow2(k) + r;
        assert(n * pow2(k) == 2 * (n * h)) by (nonlinear_arith)
            requires
                pow2(k) == 2 * h,
        ;
        assert(y / 2 == n * h + r / 2);
        assert(r / 2 < h);
        assert(n * h > 0) by (nonlinear_arith)
            requires
                n > 0,
                h > 0,
                pow2(k) == 2 * h,
                r < pow2(k),
        ;
        lemma_bit_len_shift(n, (k - 1) as nat, r / 2);
    }
}

/// The significant bits of a byte are the bit length of its value.
proof fn lemma_byte_bit_len(b: u8)
    ensures
        byte_bit_len(b) == bit_len(b as nat),
{
    reveal_with_fuel(bit_len, 9);
}

/// A big-endian integer encoding is minimal: it has at least one byte, and
/// no leading zero byte unless it is the single byte zero.
pub open spec fn minimal_uint(s: Seq<u8>) -> bool {
    s.len() >= 1 && (s[0] != 0 || s.len() == 1)
}

/// On a minimal big-endian encoding (the form in which DER integers are
/// decoded), the bit length the RSA policy counts is the bit length of the
/// modulus as a number.
pub proof fn lemma_modulus_bit_len_is_bit_length(m: Seq<u8>)
    requires
        minimal_uint(m),
    ensures
        modulus_bit_len(m) == bit_len(be_value(m)),
    decreases m.len(),
{
    if m.len() == 1 {
        assert(be_value(m.drop_last()) == 0);
        assert(be_value(m) == m[0]);
        lemma_byte_bit_len(m[0]);
    } else {
        let p = m.drop_last();
        assert(p[0] == m[0]);
        lemma_modulus_bit_len_is_bit_length(p);
        lemma_byte_bit_len(p[0]);
        assert(be_value(p) > 0) by {
            lemma_be_value_positive(p);
        }
        lemma2_to64();
        lemma_bit_len_shift(be_value(p), 8, m.last() as nat);
        assert(be_value(m) == be_value(p) * pow2(8) + m.last());
        assert(modulus_bit_len(m) == modulus_bit_len(p) + 8);
    }
}

/// Big-endian bytes with a nonzero first byte have a positive value.
proof fn lemma_be_value_positive(s: Seq<u8>)
    requires
        s.len() >= 1,
        s[0] != 0,
    ensures
        be_value(s) > 0,
    decreases s.len(),
{
    if s.len() > 1 {
        let p = s.drop_last();
        assert(p[0] == s[0]);
        lemma_be_value_positive(p);
    }
}


/// The signature does not verify, or the key or signature cannot be used.
#[derive(Debug, Clone, Copy, PartialEq, Eq, Structural)]
pub struct InvalidSignature;

/// The two unsigned integers of a DER `SEQUENCE { INTEGER, INTEGER }`, as
/// minimal big-endian bytes: the modulus and public exponent of a PKCS#1 RSA
/// public key, or the `r` and `s` of an ECDSA signature, which has the same
/// shape.
#[derive(Debug, PartialEq, Eq)]
pub struct RsaPublicKeyParts {
    /// First integer: the RSA modulus `n`.
    pub modulus: Vec<u8>,
    /// Second integer: the RSA public exponent `e`.
    pub public_exponent: Vec<u8>,
}

/// What `pkcs1::RsaPublicKey::try_from` decodes from `der`: `None` where it
/// fails, else the bytes of the two integers.
pub uninterp spec fn pkcs1_rsa_public_key(der: Seq<u8>) -> Option<(Seq<u8>, Seq<u8>)>;

/// `pkcs1::RsaPublicKey::try_from(&[u8])`, with `UintRef::as_bytes` on both
/// integers. Claims that the result is the named decoding of `der`, and that
/// decoded integers are minimal (the crate strips the sign byte and leading
/// zeros and keeps at least one byte).
#[verifier::external_body]
fn pkcs1_decode(der: &[u8]) -> (res: Option<RsaPublicKeyParts>)
    ensures
        match res {
            None => pkcs1_rsa_public_key(der@) is None,
            Some(k) => pkcs1_rsa_public_key(der@) == Some((k.modulus@, k.public_exponent@))
                && minimal_uint(k.modulus@) && minimal_uint(k.public_exponent@),
        },
{
    match pkcs1::RsaPublicKey::try_from(der) {
        Ok(key) => Some(
            RsaPublicKeyParts {
                modulus: key.modulus.as_bytes().to_vec(),
                public_exponent: key.public_exponent.as_bytes().to_vec(),
            },
        ),
        Err(_) => None,
    }
}

impl RsaPublicKeyParts {
    /// Decodes a DER `RSAPublicKey` (PKCS#1): `None` where decoding fails.
    pub fn from_der(der: &[u8]) -> (res: Option<RsaPublicKeyParts>)
        ensures
            match res {
                None => pkcs1_rsa_public_key(der@) is None,
                Some(k) => pkcs1_rsa_public_key(der@) == Some((k.modulus@, k.public_exponent@))
                    && minimal_uint(k.modulus@) && minimal_uint(k.public_exponent@),
            },
    {
        pkcs1_decode(der)
    }
}

/// Whether the RSA key's modulus has a size the WebPKI policy accepts:
/// 2048 to 8192 bits.
pub fn rsa_public_key_allowed_by_webpki(key: &RsaPublicKeyParts) -> (allowed: bool)
    ensures
        allowed == rsa_modulus_allowed(key.modulus@),
{
    if key.modulus.len() > usize::MAX / 8 {
        // Such a modulus has far more than the largest accepted bit length.
        return false;
    }
    let bits = rsa_modulus_bit_len(key.modulus.as_slice());
    RSA_MIN_MODULUS_BITS <= bits && bits <= RSA_MAX_MODULUS_BITS
}

/// Admission of a decoded RSA public key (`None`: it did not decode): only a
/// key that decoded and whose modulus size the policy allows is accepted.
pub fn rsa_key_accepted(parsed: Option<RsaPublicKeyParts>) -> (res: Result<
    RsaPublicKeyParts,
    InvalidSignature,
>)
    ensures
        match parsed {
            None => res == Err::<RsaPublicKeyParts, InvalidSignature>(InvalidSignature),
            Some(k) => if rsa_modulus_allowed(k.modulus@) {
                res == Ok::<RsaPublicKeyParts, InvalidSignature>(k)
            } else {
                res == Err::<RsaPublicKeyParts, InvalidSignature>(InvalidSignature)
            },
        },
{
    match parsed {
        None => Err(InvalidSignature),
        Some(key) => {
            if !rsa_public_key_allowed_by_webpki(&key) {
                return Err(InvalidSignature);
            }
            Ok(key)
        },
    }
}

/// The coordinates of an uncompressed elliptic-curve point `0x04 || x || y`,
/// split at half the length after the prefix byte; `None` without the
/// prefix.
pub open spec fn uncompressed_point(pk: Seq<u8>) -> Option<(Seq<u8>, Seq<u8>)> {
    if pk.len() >= 1 && pk[0] == 4 {
        let n = (pk.len() - 1) / 2;
        Some((pk.subrange(1, 1 + n), pk.subrange(1 + n, pk.len() as int)))
    } else {
        None
    }
}

/// The coordinates of an ECDSA public key given as an uncompressed point;
/// any other encoding is refused.
pub fn ecdsa_public_point(public_key: &[u8]) -> (res: Result<(Vec<u8>, Vec<u8>), InvalidSignature>)
    ensures
        match uncompressed_point(public_key@) {
            None => res == Err::<(Vec<u8>, Vec<u8>), InvalidSignature>(InvalidSignature),
            Some((x, y)) => res matches Ok((rx, ry)) && rx@ == x && ry@ == y,
        },
{
    if public_key.len() == 0 || public_key[0] != 0x04 {
        return Err(InvalidSignature);
    }
    let n = public_key.len() - 1;
    let half = n / 2;
    let mut x: Vec<u8> = Vec::new();
    append_bytes(&mut x, slice_subrange(public_key, 1, 1 + half));
    let mut y: Vec<u8> = Vec::new();
    append_bytes(&mut y, slice_subrange(public_key, 1 + half, public_key.len()));
    Ok((x, y))
}

/// `s` with zero bytes in front up to `size` bytes (unchanged if it is that
/// long already).
pub open spec fn left_pad(s: Seq<u8>, size: nat) -> Seq<u8> {
    if s.len() < size {
        Seq::new((size - s.len()) as nat, |i: int| 0u8) + s
    } else {
        s
    }
}

/// Bytes per coordinate of a curve with a `key_bits`-bit order.
pub open spec fn coordinate_size(key_bits: u32) -> nat {
    ((key_bits + 7) / 8) as nat
}

/// The fixed-width form of an ECDSA signature `(r, s)`: both integers
/// left-padded to the coordinate size of the key, `r` first.
pub open spec fn fixed_width_signature(r: Seq<u8>, s: Seq<u8>, key_bits: u32) -> Seq<u8> {
    left_pad(r, coordinate_size(key_bits)) + left_pad(s, coordinate_size(key_bits))
}

/// Pads `v` with zeros in front up to `size` bytes and appends it to `out`.
fn append_left_padded(out: &mut Vec<u8>, v: &[u8], size: usize)
    ensures
        final(out)@ == old(out)@ + left_pad(v@, size as nat),
{
    if v.len() < size {
        let z = zeros(size - v.len());
        append_bytes(out, z.as_slice());
    }
    append_bytes(out, v);
    assert(final(out)@ =~= old(out)@ + left_pad(v@, size as nat));
}

/// The fixed-width form of the ECDSA signature with integers `r` and `s`,
/// for a key of `key_bits` bits.
pub fn raw_ecdsa_signature(r: &[u8], s: &[u8], key_bits: u32) -> (sig: Vec<u8>)
    ensures
        sig@ == fixed_width_signature(r@, s@, key_bits),
{
    let bits = key_bits as usize;
    let size = bits / 8 + if bits % 8 != 0 {
        1
    } else {
        0
    };
    assert(size == coordinate_size(key_bits));
    let mut signature: Vec<u8> = Vec::new();
    append_left_padded(&mut signature, r, size);
    append_left_padded(&mut signature, s, size);
    signature
}

/// Converts a DER-encoded ECDSA signature (`SEQUENCE { r INTEGER, s
/// INTEGER }`, the shape of an RSA public key) to the fixed-width form for a
/// key of `key_bits` bits; a signature that does not decode is refused.
pub fn ecdsa_signature_to_raw(signature: &[u8], key_bits: u32) -> (res: Result<
    Vec<u8>,
    InvalidSignature,
>)
    ensures
        match pkcs1_rsa_public_key(signature@) {
            None => res == Err::<Vec<u8>, InvalidSignature>(InvalidSignature),
            Some((r, s)) => res matches Ok(sig) && sig@ == fixed_width_signature(r, s, key_bits),
        },
{
    match RsaPublicKeyParts::from_der(signature) {
        None => Err(InvalidSignature),
        Some(parts) => Ok(
            raw_ecdsa_signature(parts.modulus.as_slice(), parts.public_exponent.as_slice(), key_bits),
        ),
    }
}

/// Zero bytes in front do not change a big-endian value.
proof fn lemma_be_value_zero_prefix(k: nat, s: Seq<u8>)
    ensures
        be_value(Seq::new(k, |i: int| 0u8) + s) == be_value(s),
    decreases s.len(), k,
{
    let z = Seq::new(k, |i: int| 0u8);
    if s.len() == 0 {
        assert(z + s =~= z);
        if k > 0 {
            assert(z.drop_last() =~= Seq::new((k - 1) as nat, |i: int| 0u8));
            lemma_be_value_zero_prefix((k - 1) as nat, s);
            assert(Seq::new((k - 1) as nat, |i: int| 0u8) + s =~= z.drop_last());
        }
    } else {
        assert((z + s).drop_last() =~= z + s.drop_last());
        lemma_be_value_zero_prefix(k, s.drop_last());
    }
}

/// The fixed-width form keeps both integers: when neither is longer than the
/// coordinate size, the signature is twice that size, and its halves read as
/// big-endian numbers are `r` and `s`.
pub proof fn lemma_fixed_width_signature_keeps_values(r: Seq<u8>, s: Seq<u8>, key_bits: u32)
    requires
        r.len() <= coordinate_size(key_bits),
        s.len() <= coordinate_size(key_bits),
    ensures
        ({
            let size = coordinate_size(key_bits);
            let sig = fixed_width_signature(r, s, key_bits);
            &&& sig.len() == 2 * size
            &&& be_value(sig.subrange(0, size as int)) == be_value(r)
            &&& be_value(sig.subrange(size as int, (2 * size) as int)) == be_value(s)
        }),
{
    let size = coordinate_size(key_bits);
    let sig = fixed_width_signature(r, s, key_bits);
    let pr = left_pad(r, size);
    let ps = left_pad(s, size);
    assert(sig.subrange(0, size as int) =~= pr);
    assert(sig.subrange(size as int, (2 * size) as int) =~= ps);
    if r.len() < size {
        lemma_be_value_zero_prefix((size - r.len()) as nat, r);
    }
    if s.len() < size {
        lemma_be_value_zero_prefix((size - s.len()) as nat, s);
    }
}


/// RSA signature padding.
#[derive(Debug, Clone, Copy, PartialEq, Eq, Structural)]
pub enum RsaPadding {
    /// PKCS#1 v1.5.
    Pkcs1,
    /// PSS, with a salt as long as the hash.
    Pss,
}

/// The curve of an ECDSA verification algorithm.
#[derive(Debug, Clone, Copy, PartialEq, Eq, Structural)]
pub enum EcdsaCurve {
    /// NIST P-256.
    P256,
    /// NIST P-384.
    P384,
    /// NIST P-521.
    P521,
}

/// Algorithm-specific parameters of a verification algorithm.
#[derive(Debug, Clone, Copy, PartialEq, Eq, Structural)]
pub enum Params {
    /// RSA with the given padding.
    Rsa(RsaPadding),
    /// ECDSA on the given curve.
    Ecdsa(EcdsaCurve),
}

/// A signature verification algorithm of the provider.
#[derive(Debug, Clone, Copy)]
pub struct VerificationAlgorithm {
    /// Name shown in debug output.
    pub display_name: &'static str,
    /// DER contents of the algorithm identifier a public key must carry.
    pub public_key_alg_id: &'static [u8],
    /// DER contents of the algorithm identifier a signature must carry.
    pub signature_alg_id: &'static [u8],
    /// Hash applied to the message.
    pub hash: HashAlgorithm,
    /// Key type and padding or curve.
    pub params: Params,
}

/// A public key prepared for verification: the RSA modulus and exponent with
/// the PSS salt length (`None` for PKCS#1 v1.5), or the ECDSA curve and point
/// coordinates.
#[derive(Debug)]
pub enum VerificationKey {
    /// RSA key.
    Rsa { modulus: Vec<u8>, public_exponent: Vec<u8>, pss_salt_len: Option<u32> },
    /// ECDSA key.
    Ecdsa { curve: EcdsaCurve, x: Vec<u8>, y: Vec<u8> },
}

/// The PSS salt length of an RSA verification with `padding` and `hash`: the
/// hash length for PSS, none for PKCS#1 v1.5.
pub open spec fn pss_salt_len(padding: RsaPadding, hash: HashAlgorithm) -> Option<u32> {
    match padding {
        RsaPadding::Pkcs1 => None,
        RsaPadding::Pss => Some(hash_output_len(hash) as u32),
    }
}

/// The prefix of the debug output of a verification algorithm.
pub open spec fn debug_prefix() -> Seq<char> {
    "rustls_cng_crypto Signature Verification Algorithm: "@
}

impl VerificationAlgorithm {
    /// Debug output: the fixed prefix followed by the display name.
    pub fn debug_string(&self) -> (out: String)
        ensures
            out@ == debug_prefix() + self.display_name@,
    {
        let mut out = String::from_str("rustls_cng_crypto Signature Verification Algorithm: ");
        out.append(self.display_name);
        out
    }

    /// Prepares `public_key` for verification with this algorithm. An RSA key
    /// must decode as a PKCS#1 public key and pass the modulus-size policy;
    /// an ECDSA key must be an uncompressed point.
    pub fn verification_key(&self, public_key: &[u8]) -> (res: Result<
        VerificationKey,
        InvalidSignature,
    >)
        ensures
            match self.params {
                Params::Rsa(padding) => match pkcs1_rsa_public_key(public_key@) {
                    Some((n, e)) => if rsa_modulus_allowed(n) {
                        res matches Ok(VerificationKey::Rsa { modulus, public_exponent, pss_salt_len: salt })
                            && modulus@ == n && public_exponent@ == e && salt == pss_salt_len(padding, self.hash)
                    } else {
                        res is Err
                    },
                    None => res is Err,
                },
                Params::Ecdsa(curve) => match uncompressed_point(public_key@) {
                    Some((x, y)) => res matches Ok(VerificationKey::Ecdsa { curve: c, x: kx, y: ky })
                        && c == curve && kx@ == x && ky@ == y,
                    None => res is Err,
                },
            },
    {
        match self.params {
            Params::Rsa(padding) => {
                let key = rsa_key_accepted(RsaPublicKeyParts::from_der(public_key))?;
                let salt = match padding {
                    RsaPadding::Pkcs1 => None,
                    RsaPadding::Pss => Some(self.hash.output_len() as u32),
                };
                Ok(VerificationKey::Rsa {
                    modulus: key.modulus,
                    public_exponent: key.public_exponent,
                    pss_salt_len: salt,
                })
            },
            Params::Ecdsa(curve) => {
                let (x, y) = ecdsa_public_point(public_key)?;
                Ok(VerificationKey::Ecdsa { curve, x, y })
            },
        }
    }
}


/// What `alg` is: its display name, hash, parameters, and the DER contents of
/// its public-key and signature algorithm identifiers.
pub open spec fn describes(
    alg: VerificationAlgorithm,
    name: Seq<char>,
    hash: HashAlgorithm,
    params: Params,
    public_key_alg_id: Seq<u8>,
    signature_alg_id: Seq<u8>,
) -> bool {
    &&& alg.display_name@ == name
    &&& alg.hash == hash
    &&& alg.params == params
    &&& alg.public_key_alg_id@ == public_key_alg_id
    &&& alg.signature_alg_id@ == signature_alg_id
}

/// DER of a `sha256WithRSAEncryption` algorithm identifier whose parameters
/// are absent (rather than NULL), SEQUENCE header included.
pub open spec fn der_rsa_pkcs1_sha256_absent_params() -> Seq<u8> {
    seq![0x30u8, 0x0b, 0x06, 0x09, 0x2a, 0x86, 0x48, 0x86, 0xf7, 0x0d, 0x01, 0x01, 0x0b]
}

/// DER of a `sha384WithRSAEncryption` algorithm identifier whose parameters
/// are absent (rather than NULL), SEQUENCE header included.
pub open spec fn der_rsa_pkcs1_sha384_absent_params() -> Seq<u8> {
    seq![0x30u8, 0x0b, 0x06, 0x09, 0x2a, 0x86, 0x48, 0x86, 0xf7, 0x0d, 0x01, 0x01, 0x0c]
}

/// DER of a `sha512WithRSAEncryption` algorithm identifier whose parameters
/// are absent (rather than NULL), SEQUENCE header included.
pub open spec fn der_rsa_pkcs1_sha512_absent_params() -> Seq<u8> {
    seq![0x30u8, 0x0b, 0x06, 0x09, 0x2a, 0x86, 0x48, 0x86, 0xf7, 0x0d, 0x01, 0x01, 0x0d]
}

/// ECDSA signatures using the P-256 curve and SHA-256.
pub fn ecdsa_p256_sha256() -> (alg: VerificationAlgorithm)
    ensures
        describes(
            alg,
            "ECDSA_P256_SHA256"@,
            HashAlgorithm::Sha256,
            Params::Ecdsa(EcdsaCurve::P256),
            der_ecdsa_p256(),
            der_ecdsa_sha256(),
        ),
{
    VerificationAlgorithm {
        display_name: "ECDSA_P256_SHA256",
        public_key_alg_id: alg_id_ecdsa_p256(),
        signature_alg_id: alg_id_ecdsa_sha256(),
        hash: HashAlgorithm::Sha256,
        params: Params::Ecdsa(EcdsaCurve::P256),
    }
}

/// ECDSA signatures using the P-256 curve and SHA-384. Deprecated.
pub fn ecdsa_p256_sha384() -> (alg: VerificationAlgorithm)
    ensures
        describes(
            alg,
            "ECDSA_P256_SHA384"@,
            HashAlgorithm::Sha384,
            Params::Ecdsa(EcdsaCurve::P256),
            der_ecdsa_p256(),
            der_ecdsa_sha384(),
        ),
{
    VerificationAlgorithm {
        display_name: "ECDSA_P256_SHA384",
        public_key_alg_id: alg_id_ecdsa_p256(),
        signature_alg_id: alg_id_ecdsa_sha384(),
        hash: HashAlgorithm::Sha384,
        params: Params::Ecdsa(EcdsaCurve::P256),
    }
}

/// ECDSA signatures using the P-384 curve and SHA-256. Deprecated.
pub fn ecdsa_p384_sha256() -> (alg: VerificationAlgorithm)
    ensures
        describes(
            alg,
            "ECDSA_P384_SHA256"@,
            HashAlgorithm::Sha256,
            Params::Ecdsa(EcdsaCurve::P384),
            der_ecdsa_p384(),
            der_ecdsa_sha256(),
        ),
{
    VerificationAlgorithm {
        display_name: "ECDSA_P384_SHA256",
        public_key_alg_id: alg_id_ecdsa_p384(),
        signature_alg_id: alg_id_ecdsa_sha256(),
        hash: HashAlgorithm::Sha256,
        params: Params::Ecdsa(EcdsaCurve::P384),
    }
}

/// ECDSA signatures using the P-384 curve and SHA-384.
pub fn ecdsa_p384_sha384() -> (alg: VerificationAlgorithm)
    ensures
        describes(
            alg,
            "ECDSA_P384_SHA384"@,
            HashAlgorithm::Sha384,
            Params::Ecdsa(EcdsaCurve::P384),
            der_ecdsa_p384(),
            der_ecdsa_sha384(),
        ),
{
    VerificationAlgorithm {
        display_name: "ECDSA_P384_SHA384",
        public_key_alg_id: alg_id_ecdsa_p384(),
        signature_alg_id: alg_id_ecdsa_sha384(),
        hash: HashAlgorithm::Sha384,
        params: Params::Ecdsa(EcdsaCurve::P384),
    }
}

/// ECDSA signatures using the P-521 curve and SHA-256.
pub fn ecdsa_p521_sha256() -> (alg: VerificationAlgorithm)
    ensures
        describes(
            alg,
            "ECDSA_P521_SHA256"@,
            HashAlgorithm::Sha256,
            Params::Ecdsa(EcdsaCurve::P521),
            der_ecdsa_p521(),
            der_ecdsa_sha256(),
        ),
{
    VerificationAlgorithm {
        display_name: "ECDSA_P521_SHA256",
        public_key_alg_id: alg_id_ecdsa_p521(),
        signature_alg_id: alg_id_ecdsa_sha256(),
        hash: HashAlgorithm::Sha256,
        params: Params::Ecdsa(EcdsaCurve::P521),
    }
}

/// ECDSA signatures using the P-521 curve and SHA-384.
pub fn ecdsa_p521_sha384() -> (alg: VerificationAlgorithm)
    ensures
        describes(
            alg,
            "ECDSA_P521_SHA384"@,
            HashAlgorithm::Sha384,
            Params::Ecdsa(EcdsaCurve::P521),
            der_ecdsa_p521(),
            der_ecdsa_sha384(),
        ),
{
    VerificationAlgorithm {
        display_name: "ECDSA_P521_SHA384",
        public_key_alg_id: alg_id_ecdsa_p521(),
        signature_alg_id: alg_id_ecdsa_sha384(),
        hash: HashAlgorithm::Sha384,
        params: Params::Ecdsa(EcdsaCurve::P521),
    }
}

/// ECDSA signatures using the P-521 curve and SHA-512.
pub fn ecdsa_p521_sha512() -> (alg: VerificationAlgorithm)
    ensures
        describes(
            alg,
            "ECDSA_P521_SHA512"@,
            HashAlgorithm::Sha512,
            Params::Ecdsa(EcdsaCurve::P521),
            der_ecdsa_p521(),
            der_ecdsa_sha512(),
        ),
{
    VerificationAlgorithm {
        display_name: "ECDSA_P521_SHA512",
        public_key_alg_id: alg_id_ecdsa_p521(),
        signature_alg_id: alg_id_ecdsa_sha512(),
        hash: HashAlgorithm::Sha512,
        params: Params::Ecdsa(EcdsaCurve::P521),
    }
}

/// RSA PSS signatures using SHA-256.
pub fn rsa_pss_sha256() -> (alg: VerificationAlgorithm)
    ensures
        describes(
            alg,
            "RSA_PSS_SHA256"@,
            HashAlgorithm::Sha256,
            Params::Rsa(RsaPadding::Pss),
            der_rsa_encryption(),
            der_rsa_pss_sha256(),
        ),
{
    VerificationAlgorithm {
        display_name: "RSA_PSS_SHA256",
        public_key_alg_id: alg_id_rsa_encryption(),
        signature_alg_id: alg_id_rsa_pss_sha256(),
        hash: HashAlgorithm::Sha256,
        params: Params::Rsa(RsaPadding::Pss),
    }
}

/// RSA PSS signatures using SHA-384.
pub fn rsa_pss_sha384() -> (alg: VerificationAlgorithm)
    ensures
        describes(
            alg,
            "RSA_PSS_SHA384"@,
            HashAlgorithm::Sha384,
            Params::Rsa(RsaPadding::Pss),
            der_rsa_encryption(),
            der_rsa_pss_sha384(),
        ),
{
    VerificationAlgorithm {
        display_name: "RSA_PSS_SHA384",
        public_key_alg_id: alg_id_rsa_encryption(),
        signature_alg_id: alg_id_rsa_pss_sha384(),
        hash: HashAlgorithm::Sha384,
        params: Params::Rsa(RsaPadding::Pss),
    }
}

/// RSA PSS signatures using SHA-512.
pub fn rsa_pss_sha512() -> (alg: VerificationAlgorithm)
    ensures
        describes(
            alg,
            "RSA_PSS_SHA512"@,
            HashAlgorithm::Sha512,
            Params::Rsa(RsaPadding::Pss),
            der_rsa_encryption(),
            der_rsa_pss_sha512(),
        ),
{
    VerificationAlgorithm {
        display_name: "RSA_PSS_SHA512",
        public_key_alg_id: alg_id_rsa_encryption(),
        signature_alg_id: alg_id_rsa_pss_sha512(),
        hash: HashAlgorithm::Sha512,
        params: Params::Rsa(RsaPadding::Pss),
    }
}

/// RSA PKCS#1 1.5 signatures using SHA-256.
pub fn rsa_pkcs1_sha256() -> (alg: VerificationAlgorithm)
    ensures
        describes(
            alg,
            "RSA_PKCS1_SHA256"@,
            HashAlgorithm::Sha256,
            Params::Rsa(RsaPadding::Pkcs1),
            der_rsa_encryption(),
            der_rsa_pkcs1_sha256(),
        ),
{
    VerificationAlgorithm {
        display_name: "RSA_PKCS1_SHA256",
        public_key_alg_id: alg_id_rsa_encryption(),
        signature_alg_id: alg_id_rsa_pkcs1_sha256(),
        hash: HashAlgorithm::Sha256,
        params: Params::Rsa(RsaPadding::Pkcs1),
    }
}

/// RSA PKCS#1 1.5 signatures using SHA-256 with absent AlgorithmIdentifier parameters.
pub fn rsa_pkcs1_sha256_absent_params() -> (alg: VerificationAlgorithm)
    ensures
        describes(
            alg,
            "RSA_PKCS1_SHA256_ABSENT_PARAMS"@,
            HashAlgorithm::Sha256,
            Params::Rsa(RsaPadding::Pkcs1),
            der_rsa_encryption(),
            der_rsa_pkcs1_sha256_absent_params(),
        ),
{
    VerificationAlgorithm {
        display_name: "RSA_PKCS1_SHA256_ABSENT_PARAMS",
        public_key_alg_id: alg_id_rsa_encryption(),
        signature_alg_id: &[0x30u8, 0x0b, 0x06, 0x09, 0x2a, 0x86, 0x48, 0x86, 0xf7, 0x0d, 0x01, 0x01, 0x0b],
        hash: HashAlgorithm::Sha256,
        params: Params::Rsa(RsaPadding::Pkcs1),
    }
}

/// RSA PKCS#1 1.5 signatures using SHA-384.
pub fn rsa_pkcs1_sha384() -> (alg: VerificationAlgorithm)
    ensures
        describes(
            alg,
            "RSA_PKCS1_SHA384"@,
            HashAlgorithm::Sha384,
            Params::Rsa(RsaPadding::Pkcs1),
            der_rsa_encryption(),
            der_rsa_pkcs1_sha384(),
        ),
{
    VerificationAlgorithm {
        display_name: "RSA_PKCS1_SHA384",
        public_key_alg_id: alg_id_rsa_encryption(),
        signature_alg_id: alg_id_rsa_pkcs1_sha384(),
        hash: HashAlgorithm::Sha384,
        params: Params::Rsa(RsaPadding::Pkcs1),
    }
}

/// RSA PKCS#1 1.5 signatures using SHA-384 with absent AlgorithmIdentifier parameters.
pub fn rsa_pkcs1_sha384_absent_params() -> (alg: VerificationAlgorithm)
    ensures
        describes(
            alg,
            "RSA_PKCS1_SHA384_ABSENT_PARAMS"@,
            HashAlgorithm::Sha384,
            Params::Rsa(RsaPadding::Pkcs1),
            der_rsa_encryption(),
            der_rsa_pkcs1_sha384_absent_params(),
        ),
{
    VerificationAlgorithm {
        display_name: "RSA_PKCS1_SHA384_ABSENT_PARAMS",
        public_key_alg_id: alg_id_rsa_encryption(),
        signature_alg_id: &[0x30u8, 0x0b, 0x06, 0x09, 0x2a, 0x86, 0x48, 0x86, 0xf7, 0x0d, 0x01, 0x01, 0x0c],
        hash: HashAlgorithm::Sha384,
        params: Params::Rsa(RsaPadding::Pkcs1),
    }
}

/// RSA PKCS#1 1.5 signatures using SHA-512.
pub fn rsa_pkcs1_sha512() -> (alg: VerificationAlgorithm)
    ensures
        describes(
            alg,
            "RSA_PKCS1_SHA512"@,
            HashAlgorithm::Sha512,
            Params::Rsa(RsaPadding::Pkcs1),
            der_rsa_encryption(),
            der_rsa_pkcs1_sha512(),
        ),
{
    VerificationAlgorithm {
        display_name: "RSA_PKCS1_SHA512",
        public_key_alg_id: alg_id_rsa_encryption(),
        signature_alg_id: alg_id_rsa_pkcs1_sha512(),
        hash: HashAlgorithm::Sha512,
        params: Params::Rsa(RsaPadding::Pkcs1),
    }
}

/// RSA PKCS#1 1.5 signatures using SHA-512 with absent AlgorithmIdentifier parameters.
pub fn rsa_pkcs1_sha512_absent_params() -> (alg: VerificationAlgorithm)
    ensures
        describes(
            alg,
            "RSA_PKCS1_SHA512_ABSENT_PARAMS"@,
            HashAlgorithm::Sha512,
            Params::Rsa(RsaPadding::Pkcs1),
            der_rsa_encryption(),
            der_rsa_pkcs1_sha512_absent_params(),
        ),
{
    VerificationAlgorithm {
        display_name: "RSA_PKCS1_SHA512_ABSENT_PARAMS",
        public_key_alg_id: alg_id_rsa_encryption(),
        signature_alg_id: &[0x30u8, 0x0b, 0x06, 0x09, 0x2a, 0x86, 0x48, 0x86, 0xf7, 0x0d, 0x01, 0x01, 0x0d],
        hash: HashAlgorithm::Sha512,
        params: Params::Rsa(RsaPadding::Pkcs1),
    }
}

/// All signature verification algorithms of the provider, in the order they
/// are offered: ECDSA, then RSA PSS, then RSA PKCS#1 v1.5 (each PKCS#1 v1.5
/// algorithm followed by its variant with absent parameters).
pub fn supported_algorithms() -> (all: Vec<VerificationAlgorithm>)
    ensures
        all.len() == 16,
        describes(
            all@[0],
            "ECDSA_P256_SHA256"@,
            HashAlgorithm::Sha256,
            Params::Ecdsa(EcdsaCurve::P256),
            der_ecdsa_p256(),
            der_ecdsa_sha256(),
        ),
        describes(
            all@[1],
            "ECDSA_P256_SHA384"@,
            HashAlgorithm::Sha384,
            Params::Ecdsa(EcdsaCurve::P256),
            der_ecdsa_p256(),
            der_ecdsa_sha384(),
        ),
        describes(
            all@[2],
            "ECDSA_P384_SHA256"@,
            HashAlgorithm::Sha256,
            Params::Ecdsa(EcdsaCurve::P384),
            der_ecdsa_p384(),
            der_ecdsa_sha256(),
        ),
        describes(
            all@[3],
            "ECDSA_P384_SHA384"@,
            HashAlgorithm::Sha384,
            Params::Ecdsa(EcdsaCurve::P384),
            der_ecdsa_p384(),
            der_ecdsa_sha384(),
        ),
        describes(
            all@[4],
            "ECDSA_P521_SHA256"@,
            HashAlgorithm::Sha256,
            Params::Ecdsa(EcdsaCurve::P521),
            der_ecdsa_p521(),
            der_ecdsa_sha256(),
        ),
        describes(
            all@[5],
            "ECDSA_P521_SHA384"@,
            HashAlgorithm::Sha384,
            Params::Ecdsa(EcdsaCurve::P521),
            der_ecdsa_p521(),
            der_ecdsa_sha384(),
        ),
        describes(
            all@[6],
            "ECDSA_P521_SHA512"@,
            HashAlgorithm::Sha512,
            Params::Ecdsa(EcdsaCurve::P521),
            der_ecdsa_p521(),
            der_ecdsa_sha512(),
        ),
        describes(
            all@[7],
            "RSA_PSS_SHA512"@,
            HashAlgorithm::Sha512,
            Params::Rsa(RsaPadding::Pss),
            der_rsa_encryption(),
            der_rsa_pss_sha512(),
        ),
        describes(
            all@[8],
            "RSA_PSS_SHA384"@,
            HashAlgorithm::Sha384,
            Params::Rsa(RsaPadding::Pss),
            der_rsa_encryption(),
            der_rsa_pss_sha384(),
        ),
        describes(
            all@[9],
            "RSA_PSS_SHA256"@,
            HashAlgorithm::Sha256,
            Params::Rsa(RsaPadding::Pss),
            der_rsa_encryption(),
            der_rsa_pss_sha256(),
        ),
        describes(
            all@[10],
            "RSA_PKCS1_SHA512"@,
            HashAlgorithm::Sha512,
            Params::Rsa(RsaPadding::Pkcs1),
            der_rsa_encryption(),
            der_rsa_pkcs1_sha512(),
        ),
        describes(
            all@[11],
            "RSA_PKCS1_SHA512_ABSENT_PARAMS"@,
            HashAlgorithm::Sha512,
            Params::Rsa(RsaPadding::Pkcs1),
            der_rsa_encryption(),
            der_rsa_pkcs1_sha512_absent_params(),
        ),
        describes(
            all@[12],
            "RSA_PKCS1_SHA384"@,
            HashAlgorithm::Sha384,
            Params::Rsa(RsaPadding::Pkcs1),
            der_rsa_encryption(),
            der_rsa_pkcs1_sha384(),
        ),
        describes(
            all@[13],
            "RSA_PKCS1_SHA384_ABSENT_PARAMS"@,
            HashAlgorithm::Sha384,
            Params::Rsa(RsaPadding::Pkcs1),
            der_rsa_encryption(),
            der_rsa_pkcs1_sha384_absent_params(),
        ),
        describes(
            all@[14],
            "RSA_PKCS1_SHA256"@,
            HashAlgorithm::Sha256,
            Params::Rsa(RsaPadding::Pkcs1),
            der_rsa_encryption(),
            der_rsa_pkcs1_sha256(),
        ),
        describes(
            all@[15],
            "RSA_PKCS1_SHA256_ABSENT_PARAMS"@,
            HashAlgorithm::Sha256,
            Params::Rsa(RsaPadding::Pkcs1),
            der_rsa_encryption(),
            der_rsa_pkcs1_sha256_absent_params(),
        ),
{
    let mut all: Vec<VerificationAlgorithm> = Vec::new();
    all.push(ecdsa_p256_sha256());
    all.push(ecdsa_p256_sha384());
    all.push(ecdsa_p384_sha256());
    all.push(ecdsa_p384_sha384());
    all.push(ecdsa_p521_sha256());
    all.push(ecdsa_p521_sha384());
    all.push(ecdsa_p521_sha512());
    all.push(rsa_pss_sha512());
    all.push(rsa_pss_sha384());
    all.push(rsa_pss_sha256());
    all.push(rsa_pkcs1_sha512());
    all.push(rsa_pkcs1_sha512_absent_params());
    all.push(rsa_pkcs1_sha384());
    all.push(rsa_pkcs1_sha384_absent_params());
    all.push(rsa_pkcs1_sha256());
    all.push(rsa_pkcs1_sha256_absent_params());
    all
}


/// PSS verification uses a salt as long as the output of the algorithm's own
/// hash: 32 bytes for SHA-256, 48 for SHA-384, 64 for SHA-512.
pub proof fn lemma_pss_salt_is_digest_length(hash: HashAlgorithm)
    ensures
        hash == HashAlgorithm::Sha256 ==> pss_salt_len(RsaPadding::Pss, hash) == Some(32u32),
        hash == HashAlgorithm::Sha384 ==> pss_salt_len(RsaPadding::Pss, hash) == Some(48u32),
        hash == HashAlgorithm::Sha512 ==> pss_salt_len(RsaPadding::Pss, hash) == Some(64u32),
{
}

/// A salt length is handed to the verifier exactly for PSS padding: PKCS#1
/// v1.5 never carries one, whatever the hash.
pub proof fn lemma_salt_only_for_pss(padding: RsaPadding, hash: HashAlgorithm)
    ensures
        pss_salt_len(padding, hash) is Some <==> padding == RsaPadding::Pss,
        padding == RsaPadding::Pkcs1 ==> pss_salt_len(padding, hash) == None::<u32>,
{
}

/// The key-size policy is the whole interval: a minimally encoded modulus is
/// accepted exactly when its value has between 2048 and 8192 bits.
pub proof fn lemma_policy_is_bit_length_interval(m: Seq<u8>)
    requires
        minimal_uint(m),
    ensures
        rsa_modulus_allowed(m) <==> (2048 <= bit_len(be_value(m)) && bit_len(be_value(m)) <= 8192),
{
    lemma_modulus_bit_len_is_bit_length(m);
}

/// The coordinate size is the number of bytes that hold `key_bits` bits:
/// enough for them, and one byte fewer would not be.
pub proof fn lemma_coordinate_size_is_key_byte_length(key_bits: u32)
    ensures
        coordinate_size(key_bits) * 8 >= key_bits,
        (coordinate_size(key_bits) - 1) * 8 < key_bits,
{
}

/// For coordinates that fill the coordinate size, the fixed-width signature
/// is `r` followed by `s`, two coordinate sizes long.
pub proof fn lemma_full_width_signature_is_concatenation(r: Seq<u8>, s: Seq<u8>, key_bits: u32)
    requires
        r.len() * 8 >= key_bits,
        (r.len() - 1) * 8 < key_bits,
        s.len() == r.len(),
    ensures
        fixed_width_signature(r, s, key_bits) == r + s,
        fixed_width_signature(r, s, key_bits).len() == 2 * r.len(),
{
    lemma_coordinate_size_is_key_byte_length(key_bits);
    assert(coordinate_size(key_bits) == r.len());
}

/// Decoding an uncompressed point inverts its encoding: `0x04 || x || y`
/// with coordinates of equal length decodes to `(x, y)`.
pub proof fn lemma_uncompressed_point_decodes_encoding(x: Seq<u8>, y: Seq<u8>)
    requires
        x.len() == y.len(),
    ensures
        uncompressed_point(seq![4u8] + x + y) == Some((x, y)),
{
    let pk = seq![4u8] + x + y;
    assert(pk[0] == 4u8);
    assert((pk.len() - 1) / 2 == x.len());
    assert(pk.subrange(1, 1 + x.len() as int) =~= x);
    assert(pk.subrange(1 + x.len() as int, pk.len() as int) =~= y);
}

} // verus!
