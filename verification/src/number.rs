//! Real numbers of the data model, carried as IEEE 754 bit patterns.
//!
//! The model never computes with these values; it stores them, hands them
//! back unchanged and, in one place, asks whether a value is greater than
//! zero. All of that is exact on the bit pattern.

use vstd::prelude::*;

verus! {

/// Bit pattern of positive infinity in the single-precision format.
pub const F32_INFINITY_BITS: u32 = 0x7F80_0000u32;

/// Bit pattern of positive infinity in the double-precision format.
pub const F64_INFINITY_BITS: u64 = 0x7FF0_0000_0000_0000u64;

/// A single-precision IEEE 754 value, identified by its 32 bits.
#[derive(Clone, Copy, Debug, PartialEq, Eq, Hash, Structural)]
pub struct Float32 {
    pub bits: u32,
}

/// A double-precision IEEE 754 value, identified by its 64 bits.
#[derive(Clone, Copy, Debug, PartialEq, Eq, Hash, Structural)]
pub struct Float64 {
    pub bits: u64,
}

impl Float32 {
    /// The value with the given bit pattern.
    pub fn from_bits(bits: u32) -> (r: Self)
        ensures
            r.bits == bits,
    {
        Float32 { bits }
    }

    /// The bit pattern of this value.
    pub fn to_bits(self) -> (r: u32)
        ensures
            r == self.bits,
    {
        self.bits
    }

    /// Positive zero.
    pub fn zero() -> (r: Self)
        ensures
            r.bits == 0,
    {
        Float32 { bits: 0 }
    }

    /// Whether the value compares greater than zero: the sign bit is clear,
    /// the value is not a zero and not a NaN. Positive infinity counts.
    pub open spec fn positive(self) -> bool {
        0 < self.bits <= F32_INFINITY_BITS
    }

    /// Decides [`Float32::positive`].
    pub fn is_positive(self) -> (r: bool)
        ensures
            r == self.positive(),
    {
        0 < self.bits && self.bits <= F32_INFINITY_BITS
    }
}

impl Float64 {
    /// The value with the given bit pattern.
    pub fn from_bits(bits: u64) -> (r: Self)
        ensures
            r.bits == bits,
    {
        Float64 { bits }
    }

    /// The bit pattern of this value.
    pub fn to_bits(self) -> (r: u64)
        ensures
            r == self.bits,
    {
        self.bits
    }

    /// Positive zero.
    pub fn zero() -> (r: Self)
        ensures
            r.bits == 0,
    {
        Float64 { bits: 0 }
    }

    /// Whether the value compares greater than zero: the sign bit is clear,
    /// the value is not a zero and not a NaN. Positive infinity counts.
    pub open spec fn positive(self) -> bool {
        0 < self.bits <= F64_INFINITY_BITS
    }

    /// Decides [`Float64::positive`].
    pub fn is_positive(self) -> (r: bool)
        ensures
            r == self.positive(),
    {
        0 < self.bits && self.bits <= F64_INFINITY_BITS
    }
}

} // verus!
