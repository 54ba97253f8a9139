use vstd::prelude::*;

verus! {

/// The bit pattern of a sign bit alone: negative zero.
pub const NEGATIVE_ZERO_BITS: u64 = 0x8000_0000_0000_0000;

/// A 64-bit IEEE 754 floating-point value, held as its bit pattern.
///
/// The engine stores and compares such values but never does arithmetic on
/// them: the arithmetic is the evaluator's (see `Formula`).
#[derive(Clone, Copy, Debug, PartialEq, Eq, Structural)]
pub struct Number {
    pub bits: u64,
}

impl Number {
    /// Positive or negative zero: the two patterns that compare equal to `0.0`.
    pub open spec fn spec_is_zero(&self) -> bool {
        self.bits == 0 || self.bits == NEGATIVE_ZERO_BITS
    }

    pub fn from_bits(bits: u64) -> (r: Number)
        ensures
            r.bits == bits,
    {
        Number { bits }
    }

    #[verifier::when_used_as_spec(spec_is_zero)]
    pub fn is_zero(&self) -> (r: bool)
        ensures
            r == self.spec_is_zero(),
    {
        self.bits == 0 || self.bits == NEGATIVE_ZERO_BITS
    }
}

} // verus!
