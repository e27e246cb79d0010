//! Helpers for scalars stored as raw IEEE 754 single-precision bit patterns.

use vstd::prelude::*;

verus! {

/// Bit pattern of the 32-bit float 0.0.
pub const F32_BITS_0: u32 = 0x0000_0000;

/// Bit pattern of the 32-bit float 1.0.
pub const F32_BITS_1: u32 = 0x3F80_0000;

/// Bit pattern of the 32-bit float 2.0.
pub const F32_BITS_2: u32 = 0x4000_0000;

/// Bit pattern of the 32-bit float 3.0.
pub const F32_BITS_3: u32 = 0x4040_0000;

/// Bit pattern of the 32-bit float 10.0.
pub const F32_BITS_10: u32 = 0x4120_0000;

/// Bit pattern of the 32-bit float 32.0.
pub const F32_BITS_32: u32 = 0x4200_0000;

/// Bit pattern of the 32-bit float nearest 0.1.
pub const F32_BITS_0_1: u32 = 0x3DCC_CCCD;

/// Bit pattern of the 32-bit float nearest 0.2.
pub const F32_BITS_0_2: u32 = 0x3E4C_CCCD;

/// Bit pattern of the 32-bit float 0.25.
pub const F32_BITS_0_25: u32 = 0x3E80_0000;

/// Bit pattern of the 32-bit float 0.5.
pub const F32_BITS_0_5: u32 = 0x3F00_0000;

/// Bit pattern of the 32-bit float nearest 1.333.
pub const F32_BITS_1_333: u32 = 0x3FAA_9FBE;

/// Bit pattern of the 32-bit float nearest 1.7.
pub const F32_BITS_1_7: u32 = 0x3FD9_999A;

/// Monotone key for ordering 32-bit float bit patterns.
///
/// For two non-NaN single-precision values `a` and `b`, `a < b` holds exactly
/// when `spec_order_key(a.to_bits()) < spec_order_key(b.to_bits())`, except
/// that the negative-zero pattern is keyed just below the positive-zero
/// pattern (the two zeros compare equal as floats). Patterns with the sign
/// bit clear keep their order; patterns with the sign bit set (negative
/// values, larger magnitude meaning smaller value) are reversed.
pub open spec fn spec_order_key(bits: u32) -> int {
    if bits < 0x8000_0000 {
        bits + 0x8000_0000
    } else {
        0xFFFF_FFFFu32 - bits
    }
}

/// Computes the ordering key of a raw float bit pattern.
pub fn order_key(bits: u32) -> (k: u32)
    ensures
        k == spec_order_key(bits),
{
    if bits < 0x8000_0000 {
        bits + 0x8000_0000
    } else {
        proof {
            assert(!bits == 0xFFFF_FFFFu32 - bits) by (bit_vector);
        }
        !bits
    }
}

/// The 32-bit pattern a buffer slot holds when a boolean is written into it
/// as the integer 0 or 1 (bit-reinterpreted, not converted to 0.0 / 1.0).
pub open spec fn bool_bits(b: bool) -> u32 {
    if b {
        1u32
    } else {
        0u32
    }
}

/// Encodes a boolean as the 32-bit slot pattern 0 or 1.
pub fn encode_bool(b: bool) -> (r: u32)
    ensures
        r == bool_bits(b),
{
    if b {
        1
    } else {
        0
    }
}

/// A boolean written into an integer-typed slot as plain 0 or 1.
pub open spec fn bool_i32(b: bool) -> i32 {
    if b {
        1i32
    } else {
        0i32
    }
}

/// Encodes a boolean as the integer slot value 0 or 1.
pub fn encode_bool_i32(b: bool) -> (r: i32)
    ensures
        r == bool_i32(b),
{
    if b {
        1
    } else {
        0
    }
}

} // verus!
