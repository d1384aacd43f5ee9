//! Bit fields of the transport stream grammar, stated as arithmetic.
//!
//! The contracts of the parsers speak of quotients and remainders; the
//! functions here compute the same values with masks and shifts.

use vstd::prelude::*;

verus! {

/// The two-byte big-endian number `hi lo`.
pub open spec fn join16(hi: u8, lo: u8) -> int {
    hi * 256 + lo
}

/// The 13-bit number made of the low five bits of `hi` and of `lo`.
pub open spec fn join13(hi: u8, lo: u8) -> int {
    (hi % 32) * 256 + lo
}

/// The 12-bit number made of the low four bits of `hi` and of `lo`.
pub open spec fn join12(hi: u8, lo: u8) -> int {
    (hi % 16) * 256 + lo
}

/// The 10-bit number made of the low two bits of `hi` and of `lo`.
pub open spec fn join10(hi: u8, lo: u8) -> int {
    (hi % 4) * 256 + lo
}

/// The top two bits of `b` are `11`.
pub open spec fn leads_11(b: u8) -> bool {
    b / 64 == 3
}

/// The top three bits of `b` are `111`.
pub open spec fn leads_111(b: u8) -> bool {
    b / 32 == 7
}

/// The top four bits of `b` are `1011`.
pub open spec fn leads_1011(b: u8) -> bool {
    b / 16 == 11
}

/// The top six bits of `b` are `111100`.
pub open spec fn leads_111100(b: u8) -> bool {
    b / 4 == 60
}

pub fn read16(hi: u8, lo: u8) -> (v: u16)
    ensures
        v == join16(hi, lo),
{
    let v: u16 = (hi as u16) << 8 | (lo as u16);
    assert(v == hi * 256 + lo) by (bit_vector)
        requires
            v == (hi as u16) << 8 | (lo as u16),
    ;
    v
}

pub fn read13(hi: u8, lo: u8) -> (v: u16)
    ensures
        v == join13(hi, lo),
        v < 0x2000,
{
    let v: u16 = ((hi & 0x1f) as u16) << 8 | (lo as u16);
    assert(v == (hi % 32) * 256 + lo) by (bit_vector)
        requires
            v == ((hi & 0x1f) as u16) << 8 | (lo as u16),
    ;
    v
}

pub fn read12(hi: u8, lo: u8) -> (v: u16)
    ensures
        v == join12(hi, lo),
        v < 0x1000,
{
    let v: u16 = ((hi as u16) & 0x000f) << 8 | (lo as u16);
    assert(v == (hi % 16) * 256 + lo) by (bit_vector)
        requires
            v == ((hi as u16) & 0x000f) << 8 | (lo as u16),
    ;
    v
}

pub fn read10(hi: u8, lo: u8) -> (v: u16)
    ensures
        v == join10(hi, lo),
        v < 0x400,
{
    let v: u16 = ((hi & 0b0000_0011) as u16) << 8 | (lo as u16);
    assert(v == (hi % 4) * 256 + lo) by (bit_vector)
        requires
            v == ((hi & 0b0000_0011) as u16) << 8 | (lo as u16),
    ;
    v
}

pub fn has_11(b: u8) -> (yes: bool)
    ensures
        yes == leads_11(b),
{
    assert((b & 0b1100_0000 == 0b1100_0000) == (b / 64 == 3)) by (bit_vector);
    b & 0b1100_0000 == 0b1100_0000
}

pub fn has_111(b: u8) -> (yes: bool)
    ensures
        yes == leads_111(b),
{
    assert((b & 0b1110_0000 == 0b1110_0000) == (b / 32 == 7)) by (bit_vector);
    b & 0b1110_0000 == 0b1110_0000
}

pub fn has_1011(b: u8) -> (yes: bool)
    ensures
        yes == leads_1011(b),
{
    assert((b & 0b1111_0000 == 0b1011_0000) == (b / 16 == 11)) by (bit_vector);
    b & 0b1111_0000 == 0b1011_0000
}

pub fn has_111100(b: u8) -> (yes: bool)
    ensures
        yes == leads_111100(b),
{
    assert((b & 0b1111_1100 == 0b1111_0000) == (b / 4 == 60)) by (bit_vector);
    b & 0b1111_1100 == 0b1111_0000
}

} // verus!
