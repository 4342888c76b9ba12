use vstd::prelude::*;

verus! {

// Floating-point values cross this library as their IEEE 754 binary32 bit
// patterns: bit 31 is the sign, bits 23..31 the biased exponent and bits 0..23
// the fraction.

/// Bit pattern of `1.0`.
pub const F32_ONE_BITS: u32 = 0x3f80_0000;

/// Whether the binary32 value with bit pattern `x` compares below zero: the sign
/// is set and the magnitude is neither zero nor a NaN.
pub open spec fn is_negative_f32(x: u32) -> bool {
    0x8000_0001 <= x <= 0xff80_0000
}

/// Bit pattern of the binary32 value `-(b as f32)` (`b` is exact in binary32).
pub open spec fn neg_byte_f32(b: u8) -> u32 {
    let mag: int = if b >= 128 {
        134 * 0x80_0000 + (b - 128) * 0x1_0000
    } else if b >= 64 {
        133 * 0x80_0000 + (b - 64) * 0x2_0000
    } else if b >= 32 {
        132 * 0x80_0000 + (b - 32) * 0x4_0000
    } else if b >= 16 {
        131 * 0x80_0000 + (b - 16) * 0x8_0000
    } else if b >= 8 {
        130 * 0x80_0000 + (b - 8) * 0x10_0000
    } else if b >= 4 {
        129 * 0x80_0000 + (b - 4) * 0x20_0000
    } else if b >= 2 {
        128 * 0x80_0000 + (b - 2) * 0x40_0000
    } else if b == 1 {
        127int * 0x80_0000
    } else {
        0int
    };
    (0x8000_0000 + mag) as u32
}

/// The byte `(-v) as u8` for the negative binary32 value `v` with bit pattern
/// `x`: the magnitude truncated toward zero, saturated at 255.
pub open spec fn byte_of_negative_f32(x: u32) -> u8 {
    let mag = x - 0x8000_0000;
    let e = mag / 0x80_0000;
    let m = 0x80_0000 + mag % 0x80_0000;
    if e < 127 {
        0u8
    } else if e == 127 {
        1u8
    } else if e == 128 {
        (m / 0x40_0000) as u8
    } else if e == 129 {
        (m / 0x20_0000) as u8
    } else if e == 130 {
        (m / 0x10_0000) as u8
    } else if e == 131 {
        (m / 0x8_0000) as u8
    } else if e == 132 {
        (m / 0x4_0000) as u8
    } else if e == 133 {
        (m / 0x2_0000) as u8
    } else if e == 134 {
        (m / 0x1_0000) as u8
    } else {
        255u8
    }
}

/// Computes `neg_byte_f32(b)`.
pub fn negative_byte_bits(b: u8) -> (r: u32)
    ensures
        r == neg_byte_f32(b),
        b != 0 ==> is_negative_f32(r),
{
    let e: u32;
    let k: u32;
    let base: u32;
    if b >= 128 {
        e = 134;
        k = 0x1_0000;
        base = 128;
    } else if b >= 64 {
        e = 133;
        k = 0x2_0000;
        base = 64;
    } else if b >= 32 {
        e = 132;
        k = 0x4_0000;
        base = 32;
    } else if b >= 16 {
        e = 131;
        k = 0x8_0000;
        base = 16;
    } else if b >= 8 {
        e = 130;
        k = 0x10_0000;
        base = 8;
    } else if b >= 4 {
        e = 129;
        k = 0x20_0000;
        base = 4;
    } else if b >= 2 {
        e = 128;
        k = 0x40_0000;
        base = 2;
    } else if b == 1 {
        e = 127;
        k = 0;
        base = 1;
    } else {
        return 0x8000_0000;
    }
    0x8000_0000 + e * 0x80_0000 + (b as u32 - base) * k
}

/// Computes `is_negative_f32(x)`, the test `v < 0.0` on the value.
pub fn is_negative_bits(x: u32) -> (r: bool)
    ensures
        r == is_negative_f32(x),
{
    0x8000_0001 <= x && x <= 0xff80_0000
}

/// Computes `byte_of_negative_f32(x)`.
pub fn negative_bits_byte(x: u32) -> (r: u8)
    requires
        is_negative_f32(x),
    ensures
        r == byte_of_negative_f32(x),
{
    let mag = x - 0x8000_0000;
    let e = mag / 0x80_0000;
    let m = 0x80_0000 + mag % 0x80_0000;
    if e < 127 {
        0
    } else if e == 127 {
        1
    } else if e == 128 {
        (m / 0x40_0000) as u8
    } else if e == 129 {
        (m / 0x20_0000) as u8
    } else if e == 130 {
        (m / 0x10_0000) as u8
    } else if e == 131 {
        (m / 0x8_0000) as u8
    } else if e == 132 {
        (m / 0x4_0000) as u8
    } else if e == 133 {
        (m / 0x2_0000) as u8
    } else if e == 134 {
        (m / 0x1_0000) as u8
    } else {
        255
    }
}

/// Negating a nonzero byte into a binary32 value and reading it back gives the
/// byte again.
pub proof fn lemma_negative_byte_round_trip(b: u8)
    requires
        b != 0,
    ensures
        is_negative_f32(neg_byte_f32(b)),
        byte_of_negative_f32(neg_byte_f32(b)) == b,
{
}

} // verus!
