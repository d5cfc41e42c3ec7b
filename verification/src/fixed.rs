//! Fixed-point register quantities.
//!
//! The device reports physical quantities as unsigned integers scaled by
//! 1/100: a 16-bit register holds hundredths of a unit, and a 32-bit
//! quantity is assembled from two consecutive 16-bit registers where the
//! first register holds the low-order word and the second the high-order
//! word. Each register itself travels big-endian on the wire.

use vstd::prelude::*;

verus! {

/// A 16-bit quantity in hundredths of its physical unit.
#[derive(Debug, Clone, Copy, PartialEq, Eq, Structural)]
pub struct FixedPoint {
    /// Hundredths of the physical unit; the raw register value.
    pub centi: u16,
}

/// A 32-bit split-register quantity in hundredths of its physical unit.
#[derive(Debug, Clone, Copy, PartialEq, Eq, Structural)]
pub struct FixedPoint32 {
    /// Hundredths of the physical unit.
    pub centi: u32,
}

impl FixedPoint {
    /// The integer part of the quantity.
    pub fn whole(&self) -> (r: u16)
        ensures
            r == self.centi / 100,
    {
        self.centi / 100
    }

    /// The fractional part, in hundredths.
    pub fn hundredths(&self) -> (r: u16)
        ensures
            r == self.centi % 100,
    {
        self.centi % 100
    }
}

impl FixedPoint32 {
    /// The integer part of the quantity.
    pub fn whole(&self) -> (r: u32)
        ensures
            r == self.centi / 100,
    {
        self.centi / 100
    }

    /// The fractional part, in hundredths.
    pub fn hundredths(&self) -> (r: u32)
        ensures
            r == self.centi % 100,
    {
        self.centi % 100
    }
}

/// The 16-bit value spelled big-endian by the byte pair `(hi, lo)`.
pub open spec fn spec_word_be(hi: u8, lo: u8) -> u16 {
    (hi * 256 + lo) as u16
}

/// The 32-bit value spelled big-endian by four bytes.
pub open spec fn spec_quad_be(b0: u8, b1: u8, b2: u8, b3: u8) -> u32 {
    (spec_word_be(b0, b1) * 0x10000 + spec_word_be(b2, b3)) as u32
}

/// The quantity encoded by one big-endian 16-bit register.
pub open spec fn spec_decode_fixed_point(raw: u16) -> FixedPoint {
    FixedPoint { centi: raw }
}

/// The raw register value that encodes a 16-bit fixed-point quantity.
pub open spec fn spec_encode_fixed_point(v: FixedPoint) -> u16 {
    v.centi
}

/// The quantity encoded by two consecutive registers `[b0 b1] [b2 b3]`:
/// the first register is the low-order word, the second the high-order
/// word, each big-endian.
pub open spec fn spec_decode_fixed_point32(b0: u8, b1: u8, b2: u8, b3: u8) -> FixedPoint32 {
    FixedPoint32 { centi: (spec_word_be(b2, b3) * 0x10000 + spec_word_be(b0, b1)) as u32 }
}

/// Reads a big-endian 16-bit value from two bytes.
pub fn word_from_be_pair(hi: u8, lo: u8) -> (r: u16)
    ensures
        r == spec_word_be(hi, lo),
{
    (hi as u16) * 256 + (lo as u16)
}

/// Writes a 16-bit value as two big-endian bytes.
pub fn word_to_be_pair(v: u16) -> (r: (u8, u8))
    ensures
        r.0 == v / 256,
        r.1 == v % 256,
        spec_word_be(r.0, r.1) == v,
{
    ((v / 256) as u8, (v % 256) as u8)
}

/// Reads a big-endian 32-bit value from four bytes, most significant first.
pub fn quad_from_be(b0: u8, b1: u8, b2: u8, b3: u8) -> (r: u32)
    ensures
        r == spec_quad_be(b0, b1, b2, b3),
{
    (word_from_be_pair(b0, b1) as u32) * 0x10000 + (word_from_be_pair(b2, b3) as u32)
}

/// Interprets one raw register value as a fixed-point quantity.
pub fn decode_fixed_point(raw: u16) -> (r: FixedPoint)
    ensures
        r == spec_decode_fixed_point(raw),
{
    FixedPoint { centi: raw }
}

/// Produces the raw register value for a fixed-point quantity.
pub fn encode_fixed_point(v: FixedPoint) -> (r: u16)
    ensures
        r == spec_encode_fixed_point(v),
{
    v.centi
}

/// Reads a 16-bit fixed-point quantity from its big-endian byte pair.
pub fn fixed_from_be_bytes(hi: u8, lo: u8) -> (r: FixedPoint)
    ensures
        r == spec_decode_fixed_point(spec_word_be(hi, lo)),
{
    FixedPoint { centi: word_from_be_pair(hi, lo) }
}

/// Writes a 16-bit fixed-point quantity as its big-endian byte pair.
pub fn fixed_to_be_bytes(v: FixedPoint) -> (r: (u8, u8))
    ensures
        spec_word_be(r.0, r.1) == spec_encode_fixed_point(v),
{
    word_to_be_pair(v.centi)
}

/// Reads a 32-bit split-register fixed-point quantity from four bytes:
/// low-order register first, each register big-endian.
pub fn fixed32_from_registers(b0: u8, b1: u8, b2: u8, b3: u8) -> (r: FixedPoint32)
    ensures
        r == spec_decode_fixed_point32(b0, b1, b2, b3),
{
    FixedPoint32 { centi: (word_from_be_pair(b2, b3) as u32) * 0x10000 + (word_from_be_pair(b0, b1) as u32) }
}

/// Law: every raw register value survives the decode/encode round trip,
/// so the fixed-point representation loses nothing of the wire value.
pub proof fn lemma_fixed_point_round_trip(raw: u16)
    ensures
        spec_encode_fixed_point(spec_decode_fixed_point(raw)) == raw,
{
}

/// Law: a 16-bit fixed-point quantity written to its big-endian byte
/// pair and read back is unchanged.
pub proof fn lemma_fixed_point_byte_round_trip(v: FixedPoint)
    ensures
        spec_decode_fixed_point(spec_word_be((v.centi / 256) as u8, (v.centi % 256) as u8)) == v,
{
}

/// Law: the 32-bit split-register decode of bytes `[b0 b1 b2 b3]` yields
/// the high word `b2 b3` shifted left sixteen bits, plus the low word
/// `b0 b1`, in hundredths of the unit.
pub proof fn lemma_fixed32_word_order(b0: u8, b1: u8, b2: u8, b3: u8)
    ensures
        spec_decode_fixed_point32(b0, b1, b2, b3).centi
            == (b2 * 256 + b3) * 0x10000 + (b0 * 256 + b1),
{
}

} // verus!
