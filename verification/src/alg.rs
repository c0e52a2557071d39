//! Encoding of CNG property values.
use vstd::prelude::*;

verus! {

/// The UTF-16LE bytes of the code units `wide`: each unit as its low byte
/// followed by its high byte.
pub open spec fn utf16_le_bytes(wide: Seq<u16>) -> Seq<u8> {
    Seq::new(
        2 * wide.len(),
        |i: int|
            if i % 2 == 0 {
                wide[i / 2] as u8
            } else {
                (wide[i / 2] >> 8u16) as u8
            },
    )
}

/// The byte form of a wide string property value: its UTF-16 code units
/// followed by a terminating zero unit, each in little-endian order.
pub fn to_null_terminated_le_bytes(wide: &[u16]) -> (out: Vec<u8>)
    ensures
        out@ == utf16_le_bytes(wide@.push(0u16)),
{
    let ghost units = wide@.push(0u16);
    let mut out: Vec<u8> = Vec::new();
    let mut i: usize = 0;
    while i < wide.len()
        invariant
            i <= wide.len(),
            units == wide@.push(0u16),
            out@ == utf16_le_bytes(units.subrange(0, i as int)),
        decreases wide.len() - i,
    {
        let unit: u16 = wide[i];
        out.push(#[verifier::truncate] (unit as u8));
        out.push(#[verifier::truncate] ((unit >> 8u16) as u8));
        i = i + 1;
        assert(out@ =~= utf16_le_bytes(units.subrange(0, i as int)));
    }
    let ghost body = out@;
    out.push(0u8);
    out.push(0u8);
    assert(0u16 as u8 == 0u8 && (0u16 >> 8u16) as u8 == 0u8) by (bit_vector);
    assert(units[wide.len() as int] == 0u16);
    assert forall|k: int| 0 <= k < 2 * units.len() implies out@[k] == #[trigger] utf16_le_bytes(
        units,
    )[k] by {
        if k < 2 * wide.len() {
            assert(body[k] == utf16_le_bytes(units.subrange(0, wide.len() as int))[k]);
        }
    }
    assert(out@ =~= utf16_le_bytes(units));
    out
}

/// Reading the bytes back pairwise, low byte first, gives the code units
/// and the terminating zero unit again.
pub proof fn lemma_le_bytes_decode(wide: Seq<u16>)
    ensures
        ({
            let units = wide.push(0u16);
            let bytes = utf16_le_bytes(units);
            &&& bytes.len() == 2 * units.len()
            &&& forall|i: int|
                0 <= i < units.len() ==> bytes[2 * i] as u16 + 256 * (bytes[2 * i + 1] as u16)
                    == #[trigger] units[i]
        }),
{
    let units = wide.push(0u16);
    let bytes = utf16_le_bytes(units);
    assert forall|i: int| 0 <= i < units.len() implies bytes[2 * i] as u16 + 256 * (bytes[2 * i
        + 1] as u16) == #[trigger] units[i] by {
        let w = units[i];
        assert((2 * i) % 2 == 0 && (2 * i) / 2 == i);
        assert((2 * i + 1) % 2 == 1 && (2 * i + 1) / 2 == i);
        assert((w as u8) as u16 + 256 * (((w >> 8u16) as u8) as u16) == w) by (bit_vector);
    }
}

} // verus!
