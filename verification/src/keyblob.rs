//! Layouts of the CNG public-key blobs that keys are imported from.
use vstd::prelude::*;
use crate::bytes::append_bytes;
use crate::verify::{
    be_value, bit_len, lemma_modulus_bit_len_is_bit_length, minimal_uint, modulus_bit_len,
    rsa_modulus_bit_len,
};

verus! {

/// Little-endian encoding of a `u32`.
pub open spec fn u32_le_bytes(x: u32) -> Seq<u8> {
    seq![x as u8, (x >> 8u32) as u8, (x >> 16u32) as u8, (x >> 24u32) as u8]
}

/// Appends the little-endian bytes of `x`.
fn push_u32_le(out: &mut Vec<u8>, x: u32)
    ensures
        final(out)@ == old(out)@ + u32_le_bytes(x),
{
    out.push(#[verifier::truncate] (x as u8));
    out.push(#[verifier::truncate] ((x >> 8u32) as u8));
    out.push(#[verifier::truncate] ((x >> 16u32) as u8));
    out.push(#[verifier::truncate] ((x >> 24u32) as u8));
    assert(final(out)@ =~= old(out)@ + u32_le_bytes(x));
}

/// An RSA public-key blob: the header (magic, modulus bit length, exponent
/// length, modulus length and two zero prime lengths, each a little-endian
/// `u32`), then the exponent and the modulus, both big-endian.
pub open spec fn rsa_public_blob_bytes(magic: u32, modulus: Seq<u8>, exponent: Seq<u8>) -> Seq<u8> {
    u32_le_bytes(magic) + u32_le_bytes(modulus_bit_len(modulus) as u32) + u32_le_bytes(
        exponent.len() as u32,
    ) + u32_le_bytes(modulus.len() as u32) + u32_le_bytes(0) + u32_le_bytes(0) + exponent
        + modulus
}

/// The RSA public-key blob with the given magic for `modulus` and `exponent`.
pub fn rsa_public_blob(magic: u32, modulus: &[u8], exponent: &[u8]) -> (blob: Vec<u8>)
    requires
        modulus.len() <= u32::MAX / 8,
        exponent.len() <= u32::MAX,
    ensures
        blob@ == rsa_public_blob_bytes(magic, modulus@, exponent@),
{
    let bits = rsa_modulus_bit_len(modulus);
    let mut blob: Vec<u8> = Vec::new();
    push_u32_le(&mut blob, magic);
    push_u32_le(&mut blob, bits as u32);
    push_u32_le(&mut blob, exponent.len() as u32);
    push_u32_le(&mut blob, modulus.len() as u32);
    push_u32_le(&mut blob, 0);
    push_u32_le(&mut blob, 0);
    append_bytes(&mut blob, exponent);
    append_bytes(&mut blob, modulus);
    blob
}

/// An elliptic-curve public-key blob: the magic and the coordinate length,
/// each a little-endian `u32`, then the coordinates `x` and `y`.
pub open spec fn ecc_public_blob_bytes(magic: u32, x: Seq<u8>, y: Seq<u8>) -> Seq<u8> {
    u32_le_bytes(magic) + u32_le_bytes(x.len() as u32) + x + y
}

/// The elliptic-curve public-key blob with the given magic for the point
/// `(x, y)`.
pub fn ecc_public_blob(magic: u32, x: &[u8], y: &[u8]) -> (blob: Vec<u8>)
    requires
        x.len() <= u32::MAX,
    ensures
        blob@ == ecc_public_blob_bytes(magic, x@, y@),
{
    let mut blob: Vec<u8> = Vec::new();
    push_u32_le(&mut blob, magic);
    push_u32_le(&mut blob, x.len() as u32);
    append_bytes(&mut blob, x);
    append_bytes(&mut blob, y);
    blob
}


/// The value of four little-endian bytes.
pub open spec fn le32_value(s: Seq<u8>) -> int {
    s[0] + 256 * s[1] + 65536 * s[2] + 16777216 * s[3]
}

/// The little-endian encoding of a `u32` reads back as the number.
proof fn lemma_u32_le_bytes_value(x: u32)
    ensures
        u32_le_bytes(x).len() == 4,
        le32_value(u32_le_bytes(x)) == x,
{
    let b0 = x as u8;
    let b1 = (x >> 8u32) as u8;
    let b2 = (x >> 16u32) as u8;
    let b3 = (x >> 24u32) as u8;
    assert(x == (x as u8) as u32 + ((x >> 8u32) as u8) as u32 * 256 + ((x >> 16u32) as u8) as u32
        * 65536 + ((x >> 24u32) as u8) as u32 * 16777216) by (bit_vector);
    assert(u32_le_bytes(x)[0] == b0 && u32_le_bytes(x)[1] == b1 && u32_le_bytes(x)[2] == b2
        && u32_le_bytes(x)[3] == b3);
}

/// The RSA blob reads back: its six little-endian header fields are the
/// magic, the modulus's bit length, the exponent length, the modulus length
/// and two zeros; the exponent and the modulus follow, in that order.
pub proof fn lemma_rsa_blob_fields(magic: u32, modulus: Seq<u8>, exponent: Seq<u8>)
    requires
        minimal_uint(modulus),
        modulus.len() <= u32::MAX / 8,
        exponent.len() <= u32::MAX,
    ensures
        ({
            let blob = rsa_public_blob_bytes(magic, modulus, exponent);
            let e = exponent.len() as int;
            &&& blob.len() == 24 + exponent.len() + modulus.len()
            &&& le32_value(blob.subrange(0, 4)) == magic
            &&& le32_value(blob.subrange(4, 8)) == bit_len(be_value(modulus))
            &&& le32_value(blob.subrange(8, 12)) == exponent.len()
            &&& le32_value(blob.subrange(12, 16)) == modulus.len()
            &&& le32_value(blob.subrange(16, 20)) == 0
            &&& le32_value(blob.subrange(20, 24)) == 0
            &&& blob.subrange(24, 24 + e) == exponent
            &&& blob.subrange(24 + e, blob.len() as int) == modulus
        }),
{
    let bits = modulus_bit_len(modulus);
    lemma_modulus_bit_len_is_bit_length(modulus);
    assert(bits <= 8 * modulus.len());
    let h0 = u32_le_bytes(magic);
    let h1 = u32_le_bytes(bits as u32);
    let h2 = u32_le_bytes(exponent.len() as u32);
    let h3 = u32_le_bytes(modulus.len() as u32);
    let h4 = u32_le_bytes(0);
    let blob = rsa_public_blob_bytes(magic, modulus, exponent);
    let e = exponent.len() as int;
    lemma_u32_le_bytes_value(magic);
    lemma_u32_le_bytes_value(bits as u32);
    lemma_u32_le_bytes_value(exponent.len() as u32);
    lemma_u32_le_bytes_value(modulus.len() as u32);
    lemma_u32_le_bytes_value(0);
    assert(blob.subrange(0, 4) =~= h0);
    assert(blob.subrange(4, 8) =~= h1);
    assert(blob.subrange(8, 12) =~= h2);
    assert(blob.subrange(12, 16) =~= h3);
    assert(blob.subrange(16, 20) =~= h4);
    assert(blob.subrange(20, 24) =~= h4);
    assert(blob.subrange(24, 24 + e) =~= exponent);
    assert(blob.subrange(24 + e, blob.len() as int) =~= modulus);
}

/// The elliptic-curve blob reads back: magic and coordinate length, then the
/// coordinates `x` and `y`.
pub proof fn lemma_ecc_blob_fields(magic: u32, x: Seq<u8>, y: Seq<u8>)
    requires
        x.len() <= u32::MAX,
    ensures
        ({
            let blob = ecc_public_blob_bytes(magic, x, y);
            &&& blob.len() == 8 + x.len() + y.len()
            &&& le32_value(blob.subrange(0, 4)) == magic
            &&& le32_value(blob.subrange(4, 8)) == x.len()
            &&& blob.subrange(8, 8 + x.len() as int) == x
            &&& blob.subrange(8 + x.len() as int, blob.len() as int) == y
        }),
{
    let blob = ecc_public_blob_bytes(magic, x, y);
    lemma_u32_le_bytes_value(magic);
    lemma_u32_le_bytes_value(x.len() as u32);
    assert(blob.subrange(0, 4) =~= u32_le_bytes(magic));
    assert(blob.subrange(4, 8) =~= u32_le_bytes(x.len() as u32));
    assert(blob.subrange(8, 8 + x.len() as int) =~= x);
    assert(blob.subrange(8 + x.len() as int, blob.len() as int) =~= y);
}

} // verus!
