//! Bit-level facts about bytes, stated once and used by the decoders.

use vstd::prelude::*;

verus! {

/// Masks of the low bits of a byte are remainders, and the top bit is
/// the byte being at least 128.
pub proof fn lemma_byte_masks(v: u8)
    ensures
        v & 0x01 == v % 2,
        v & 0x07 == v % 8,
        v & 0x0F == v % 16,
        v & 0x7F == v % 128,
        (v & 0x80 == 0) == (v < 128),
{
    assert(v & 0x01 == v % 2) by (bit_vector);
    assert(v & 0x07 == v % 8) by (bit_vector);
    assert(v & 0x0F == v % 16) by (bit_vector);
    assert(v & 0x7F == v % 128) by (bit_vector);
    assert((v & 0x80 == 0) == (v < 128)) by (bit_vector);
}

/// The value of four little-endian bytes.
pub open spec fn le_u32(b0: u8, b1: u8, b2: u8, b3: u8) -> nat {
    (b0 as nat) + 256 * (b1 as nat) + 65536 * (b2 as nat) + 16777216 * (b3 as nat)
}

/// The four little-endian bytes of a 32-bit value.
pub open spec fn le_bytes_u32(x: u32) -> Seq<u8> {
    seq![
        (x % 256) as u8,
        ((x / 256) % 256) as u8,
        ((x / 65536) % 256) as u8,
        (x / 16777216) as u8,
    ]
}

/// Split a 32-bit value into its four little-endian bytes.
pub fn u32_to_le(x: u32) -> (b: [u8; 4])
    ensures
        b@ == le_bytes_u32(x),
        le_u32(b[0], b[1], b[2], b[3]) == x,
{
    let b0 = (x % 256) as u8;
    let b1 = ((x / 256) % 256) as u8;
    let b2 = ((x / 65536) % 256) as u8;
    let b3 = (x / 16777216) as u8;
    let b = [b0, b1, b2, b3];
    assert(b@ =~= le_bytes_u32(x));
    b
}

/// Join four little-endian bytes into a 32-bit value.
pub fn u32_from_le(b0: u8, b1: u8, b2: u8, b3: u8) -> (x: u32)
    ensures
        x == le_u32(b0, b1, b2, b3),
{
    (b0 as u32) + 256 * (b1 as u32) + 65536 * (b2 as u32) + 16777216 * (b3 as u32)
}

/// Little-endian bytes and their value determine each other.
pub proof fn lemma_le_u32_roundtrip(x: u32)
    ensures
        ({
            let b = le_bytes_u32(x);
            le_u32(b[0], b[1], b[2], b[3]) == x
        }),
{
}

} // verus!
