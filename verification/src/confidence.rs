//! Confidence scores.
//!
//! A score is a double between zero and one, held by its bit pattern: for
//! doubles that are not negative, one is larger than another exactly when
//! its bit pattern is the larger number, so clamping and ordering need
//! integers only.

use vstd::prelude::*;

verus! {

/// The bit pattern of the double one.
pub const ONE_BITS: u64 = 0x3FF0_0000_0000_0000;

/// The bit pattern of the double one half, the score of a candidate that
/// states none.
pub const HALF_BITS: u64 = 0x3FE0_0000_0000_0000;

/// The sign bit of a double's bit pattern.
pub const SIGN_BIT: u64 = 0x8000_0000_0000_0000;

/// The bit pattern of `bits` clamped to the doubles from zero to one: zero
/// for anything with the sign bit set, one for anything above one.
pub open spec fn clamped_bits(bits: u64) -> u64 {
    if bits >= SIGN_BIT {
        0
    } else if bits > ONE_BITS {
        ONE_BITS
    } else {
        bits
    }
}

/// A confidence score: a double between zero and one, both included.
#[derive(Clone, Copy, Debug)]
pub struct Confidence {
    bits: u64,
}

impl Confidence {
    #[verifier::type_invariant]
    spec fn in_unit_interval(self) -> bool {
        self.bits <= ONE_BITS
    }

    /// The bit pattern of the score.
    pub closed spec fn bits(self) -> u64 {
        self.bits
    }

    /// The score nearest to the double with bit pattern `bits`.
    pub fn from_double_bits(bits: u64) -> (score: Confidence)
        ensures
            score.bits() == clamped_bits(bits),
    {
        if bits >= SIGN_BIT {
            Confidence { bits: 0 }
        } else if bits > ONE_BITS {
            Confidence { bits: ONE_BITS }
        } else {
            Confidence { bits }
        }
    }

    /// The score a candidate gets when it states none: one half.
    pub fn unstated() -> (score: Confidence)
        ensures
            score.bits() == HALF_BITS,
    {
        Confidence { bits: HALF_BITS }
    }

    /// The bit pattern of the score, a double between zero and one.
    pub fn to_double_bits(&self) -> (bits: u64)
        ensures
            bits == self.bits(),
            bits <= ONE_BITS,
    {
        proof {
            use_type_invariant(self);
        }
        self.bits
    }

    /// Whether this score is at least `other`.
    pub fn at_least(&self, other: &Confidence) -> (holds: bool)
        ensures
            holds == (self.bits() >= other.bits()),
    {
        self.bits >= other.bits
    }
}

/// Every score lies between zero and one.
pub proof fn lemma_clamped_in_unit_interval(bits: u64)
    ensures
        clamped_bits(bits) <= ONE_BITS,
        bits <= ONE_BITS ==> clamped_bits(bits) == bits,
{
}

} // verus!
