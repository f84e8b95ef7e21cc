//! Value conversions between host percentages and Bragi wire values.
//!
//! Bragi represents levels (sidetone, microphone, battery) as `u16` values
//! on a 0..=1000 scale, where 1000 = 100%. The host-facing API uses `u8`
//! percentages (0..=100).

use vstd::prelude::*;

verus! {

/// Convert a host percentage (0..=100) to a Bragi level value (0..=1000).
///
/// The wire encoding is simply `percent * 10`.
pub fn to_bragi_level(percent: u8) -> (v: u16)
    ensures
        v == percent * 10,
{
    percent as u16 * 10
}

/// Convert a Bragi level value (0..=1000) back to a host percentage (0..=100).
///
/// Integer division truncates; 1005 becomes 100, 9 becomes 0. The quotient
/// is kept modulo 256, as a byte (values above 2559 wrap).
pub fn from_bragi_level(value: u16) -> (p: u8)
    ensures
        p == (value / 10) % 256,
{
    let q = value / 10;
    assert(q as u8 == q % 256) by (bit_vector);
    q as u8
}

/// Convert a sidetone percentage to the Bragi wire value (the standard scale).
pub fn to_bragi_sidetone_level(percent: u8) -> (v: u16)
    ensures
        v == percent * 10,
{
    to_bragi_level(percent)
}

/// Convert a Bragi sidetone wire value back to a percentage (the standard scale).
pub fn from_bragi_sidetone_level(value: u16) -> (p: u8)
    ensures
        p == (value / 10) % 256,
{
    from_bragi_level(value)
}

/// Convert a microphone percentage to the Bragi wire value (the standard scale).
pub fn to_bragi_microphone_level(percent: u8) -> (v: u16)
    ensures
        v == percent * 10,
{
    to_bragi_level(percent)
}

/// Convert a Bragi microphone wire value back to a percentage (the standard scale).
pub fn from_bragi_microphone_level(value: u16) -> (p: u8)
    ensures
        p == (value / 10) % 256,
{
    from_bragi_level(value)
}

/// A percentage survives the trip to the Bragi scale and back, for every
/// byte value (not only 0..=100), and the wire value's percentage is the
/// wire value divided by ten, rounded down.
pub proof fn lemma_bragi_level_roundtrip(percent: u8, value: u16)
    ensures
        ((percent * 10) / 10) % 256 == percent,
        value <= 2559 ==> (value / 10) % 256 == value / 10,
{
}

} // verus!
