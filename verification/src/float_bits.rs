//! Vectors of IEEE-754 single-precision bit patterns, and the one arithmetic
//! operation the motion rule needs: single-precision addition.

use vstd::prelude::*;

use rustc_apfloat::Float;

verus! {

/// A two-component vector of IEEE-754 single-precision bit patterns.
#[derive(Clone, Copy, Debug, PartialEq, Eq, Structural)]
pub struct Vec2Bits {
    pub x: u32,
    pub y: u32,
}

/// A three-component vector of IEEE-754 single-precision bit patterns.
#[derive(Clone, Copy, Debug, PartialEq, Eq, Structural)]
pub struct Vec3Bits {
    pub x: u32,
    pub y: u32,
    pub z: u32,
}

impl Vec2Bits {
    pub fn new(x: u32, y: u32) -> (v: Vec2Bits)
        ensures
            v == (Vec2Bits { x, y }),
    {
        Vec2Bits { x, y }
    }
}

impl Vec3Bits {
    pub fn new(x: u32, y: u32, z: u32) -> (v: Vec3Bits)
        ensures
            v == (Vec3Bits { x, y, z }),
    {
        Vec3Bits { x, y, z }
    }
}

/// The bit pattern of positive zero.
pub const BITS_ZERO: u32 = 0;

/// The bit pattern of negative zero.
pub const BITS_NEGATIVE_ZERO: u32 = 0x8000_0000;

/// The bit pattern of one.
pub const BITS_ONE: u32 = 0x3f80_0000;

/// The bit pattern of twenty.
pub const BITS_TWENTY: u32 = 0x41a0_0000;

/// The bit pattern of thirty-two.
pub const BITS_THIRTY_TWO: u32 = 0x4200_0000;

/// The bit pattern of sixty-four.
pub const BITS_SIXTY_FOUR: u32 = 0x4280_0000;

/// The bit pattern of one hundred.
pub const BITS_ONE_HUNDRED: u32 = 0x42c8_0000;

/// Whether a bit pattern encodes a NaN: exponent bits all set and a fraction
/// that is not zero, which is exactly the patterns strictly between either
/// infinity (`0x7f80_0000`, `0xff80_0000`) and the next sign change.
pub open spec fn is_nan_bits(a: u32) -> bool {
    (0x7f80_0000 < a && a < 0x8000_0000) || 0xff80_0000 < a
}

/// The bit pattern of the IEEE-754 single-precision sum of the values encoded
/// by two bit patterns, rounding ties to nearest even. The sum is fixed by
/// the two operands alone; nothing is assumed of it here beyond the clauses
/// stated on `add_single_bits`.
pub uninterp spec fn add_bits(a: u32, b: u32) -> u32;

/// Relies on `rustc_apfloat::ieee::Single`, a software implementation of
/// IEEE-754 single-precision arithmetic: its `add_r` (reached through `+`,
/// which rounds ties to nearest even) computes the sum from the operand bit
/// patterns alone, and returns the left operand unchanged when the right one
/// is positive zero, unless the left one is a NaN (which may be quieted) or a
/// negative zero (whose sum with positive zero is positive zero).
#[verifier::external_body]
pub(crate) fn add_single_bits(a: u32, b: u32) -> (r: u32)
    ensures
        r == add_bits(a, b),
        b == BITS_ZERO && a != BITS_NEGATIVE_ZERO && !is_nan_bits(a) ==> r == a,
{
    let x = rustc_apfloat::ieee::Single::from_bits(a as u128);
    let y = rustc_apfloat::ieee::Single::from_bits(b as u128);
    (x + y).value.to_bits() as u32
}

} // verus!
