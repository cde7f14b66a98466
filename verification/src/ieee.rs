//! IEEE-754 values carried through the library by their bit patterns.
//!
//! Luminances, chromaticities and shader parameters are binary floating-point
//! numbers in the compositor. The library never computes with them: it stores,
//! passes on and compares them, which it does on their encodings.

use vstd::prelude::*;

verus! {

/// An IEEE-754 binary32 value, held by its bit pattern.
#[derive(Debug, Clone, Copy, PartialEq, Eq, Structural)]
pub struct Binary32 {
    pub bits: u32,
}

impl Binary32 {
    /// The encodings that compare equal to zero: +0.0 and -0.0.
    pub open spec fn spec_is_zero(self) -> bool {
        self.bits == 0 || self.bits == 0x8000_0000
    }

    /// Whether the value compares equal to zero.
    pub fn is_zero(&self) -> (r: bool)
        ensures
            r == self.spec_is_zero(),
            r <==> self.bits & 0x7fff_ffff == 0,
    {
        proof {
            law_binary32_zero(*self);
        }
        self.bits == 0 || self.bits == 0x8000_0000
    }
}

/// A binary32 value compares equal to zero exactly when its exponent and
/// fraction fields are all zero, whatever its sign bit.
pub proof fn law_binary32_zero(v: Binary32)
    ensures
        v.spec_is_zero() <==> v.bits & 0x7fff_ffff == 0,
{
    let b = v.bits;
    assert((b == 0 || b == 0x8000_0000) <==> b & 0x7fff_ffff == 0) by (bit_vector);
}

/// An IEEE-754 binary64 value, held by its bit pattern.
#[derive(Debug, Clone, Copy, PartialEq, Eq, Structural)]
pub struct Binary64 {
    pub bits: u64,
}

} // verus!
