//! Double-precision values carried by their bit patterns.

use vstd::prelude::*;

verus! {

/// An IEEE-754 double as the engine reports it, held as its 64 bits.
///
/// Two values are equal when their bits are equal, so a value read back is
/// compared exactly, not numerically.
#[derive(Debug, Clone, Copy, PartialEq, Eq, Structural)]
pub struct Double {
    bits: u64,
}

impl View for Double {
    type V = u64;

    closed spec fn view(&self) -> u64 {
        self.bits
    }
}

impl Double {
    /// The value with the given bit pattern.
    pub fn from_bits(bits: u64) -> (value: Double)
        ensures
            value@ == bits,
    {
        Double { bits }
    }

    /// The bit pattern of the value.
    pub fn to_bits(self) -> (bits: u64)
        ensures
            bits == self@,
    {
        self.bits
    }
}

/// A value is determined by its bits: equal bits, equal values.
pub proof fn lemma_double_determined_by_bits(a: Double, b: Double)
    ensures
        a@ == b@ <==> a == b,
{
}

} // verus!
