//! Real numbers as they travel on the bus: IEEE 754 binary64 bit patterns.

use vstd::prelude::*;

verus! {

/// The binary64 bit pattern of the number one.
pub const ONE_BITS: u64 = 0x3FF0_0000_0000_0000;

/// A binary64 number, held as its bit pattern.
///
/// The library stores, compares and publishes such numbers and never computes
/// with them: two values are the same when their bit patterns are.
#[derive(Clone, Copy, PartialEq, Eq, Debug, Structural)]
pub struct Double {
    pub bits: u64,
}

impl Double {
    /// The number with the given bit pattern.
    pub fn from_bits(bits: u64) -> (d: Double)
        ensures
            d.bits == bits,
    {
        Double { bits }
    }

    /// The bit pattern of the number.
    pub fn to_bits(self) -> (bits: u64)
        ensures
            bits == self.bits,
    {
        self.bits
    }

    /// The number one.
    pub fn one() -> (d: Double)
        ensures
            d.bits == ONE_BITS,
    {
        Double { bits: ONE_BITS }
    }
}

} // verus!
