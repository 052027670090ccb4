//! Single-precision numbers carried by their bit pattern.

use vstd::prelude::*;

verus! {

/// An IEEE-754 single-precision number, held by its 32-bit pattern.
///
/// The bridge never computes with the numbers it carries; it only passes them
/// on and, for an elapsed time, asks whether it is greater than zero. Equality
/// is equality of bit patterns.
#[derive(Clone, Copy, Debug, PartialEq, Eq, Structural)]
pub struct Real32 {
    pub bits: u32,
}

/// The bit pattern of positive infinity: the largest pattern that compares
/// greater than zero.
pub const POSITIVE_INFINITY_BITS: u32 = 0x7F80_0000;

/// The bit pattern of `0.0`.
pub const ZERO_BITS: u32 = 0;

/// The bit pattern of `1.0`.
pub const ONE_BITS: u32 = 0x3F80_0000;

impl Real32 {
    /// Whether the number compares strictly greater than zero: its sign bit is
    /// clear, it is not a zero, and it is not a NaN.
    pub open spec fn positive(self) -> bool {
        0 < self.bits <= POSITIVE_INFINITY_BITS
    }

    /// `0.0`.
    pub open spec fn zero() -> Real32 {
        Real32 { bits: ZERO_BITS }
    }

    /// `1.0`.
    pub open spec fn one() -> Real32 {
        Real32 { bits: ONE_BITS }
    }

    /// The number with the given bit pattern.
    pub fn from_bits(bits: u32) -> (r: Real32)
        ensures
            r.bits == bits,
    {
        Real32 { bits }
    }

    /// The bit pattern of the number.
    pub fn to_bits(&self) -> (bits: u32)
        ensures
            bits == self.bits,
    {
        self.bits
    }

    /// Zero, with a clear sign bit.
    pub fn new_zero() -> (r: Real32)
        ensures
            r == Real32::zero(),
            !r.positive(),
    {
        Real32 { bits: ZERO_BITS }
    }

    /// One.
    pub fn new_one() -> (r: Real32)
        ensures
            r == Real32::one(),
            r.positive(),
    {
        Real32 { bits: ONE_BITS }
    }

    /// Decides whether the number is strictly greater than zero.
    pub fn is_positive(&self) -> (r: bool)
        ensures
            r == self.positive(),
    {
        0 < self.bits && self.bits <= POSITIVE_INFINITY_BITS
    }
}

} // verus!
