//! Sample values as bit patterns.
//!
//! A sample is the 32 bits of an IEEE-754 single-precision number. Nothing in
//! this crate does arithmetic on samples; they are placed, copied and, for the
//! conjugate, negated, and negation is a flip of the sign bit.

use vstd::prelude::*;

verus! {

/// The sign bit of a single-precision bit pattern.
pub const SIGN_BIT: u32 = 0x8000_0000;

/// The bit pattern of positive zero.
pub const ZERO_BITS: u32 = 0;

/// The pattern of the negated number: the sign bit flipped, the rest kept.
pub open spec fn negated(bits: u32) -> u32 {
    bits ^ SIGN_BIT
}

/// Negates a sample.
pub fn negate(bits: u32) -> (r: u32)
    ensures
        r == negated(bits),
{
    bits ^ SIGN_BIT
}

/// Negating twice gives the sample back.
pub proof fn lemma_negated_twice(bits: u32)
    ensures
        negated(negated(bits)) == bits,
{
    assert((bits ^ 0x8000_0000u32) ^ 0x8000_0000u32 == bits) by (bit_vector);
}

/// A complex number, each part a single-precision bit pattern.
#[derive(Clone, Copy, Debug, PartialEq, Eq, Structural)]
pub struct ComplexBits {
    pub re: u32,
    pub im: u32,
}

impl ComplexBits {
    /// The number `0 + 0i`, both parts positive zero.
    pub open spec fn spec_zero() -> ComplexBits {
        ComplexBits { re: ZERO_BITS, im: ZERO_BITS }
    }

    /// The complex conjugate: the same real part, the imaginary part negated.
    pub open spec fn spec_conj(self) -> ComplexBits {
        ComplexBits { re: self.re, im: negated(self.im) }
    }

    pub fn new(re: u32, im: u32) -> (z: ComplexBits)
        ensures
            z == (ComplexBits { re, im }),
    {
        ComplexBits { re, im }
    }

    #[verifier::when_used_as_spec(spec_zero)]
    pub fn zero() -> (z: ComplexBits)
        ensures
            z == ComplexBits::spec_zero(),
    {
        ComplexBits { re: ZERO_BITS, im: ZERO_BITS }
    }

    #[verifier::when_used_as_spec(spec_conj)]
    pub fn conj(self) -> (z: ComplexBits)
        ensures
            z == self.spec_conj(),
    {
        ComplexBits { re: self.re, im: negate(self.im) }
    }

    /// Conjugation is its own inverse.
    pub proof fn lemma_conj_twice(self)
        ensures
            self.conj().conj() == self,
    {
        lemma_negated_twice(self.im);
    }
}

/// One sample frame of the two-channel output.
#[derive(Clone, Copy, Debug, PartialEq, Eq, Structural)]
pub struct Frame {
    pub front_left: u32,
    pub front_right: u32,
}

impl Frame {
    /// The frame of a silent instant: positive zero on both channels.
    pub open spec fn spec_silent() -> Frame {
        Frame { front_left: ZERO_BITS, front_right: ZERO_BITS }
    }

    #[verifier::when_used_as_spec(spec_silent)]
    pub fn silent() -> (f: Frame)
        ensures
            f == Frame::spec_silent(),
    {
        Frame { front_left: ZERO_BITS, front_right: ZERO_BITS }
    }

    /// The frame that two time-domain values give: the real part of each,
    /// the imaginary parts dropped.
    pub open spec fn spec_of_real_parts(left: ComplexBits, right: ComplexBits) -> Frame {
        Frame { front_left: left.re, front_right: right.re }
    }

    #[verifier::when_used_as_spec(spec_of_real_parts)]
    pub fn of_real_parts(left: ComplexBits, right: ComplexBits) -> (f: Frame)
        ensures
            f == Frame::spec_of_real_parts(left, right),
    {
        Frame { front_left: left.re, front_right: right.re }
    }
}

} // verus!
