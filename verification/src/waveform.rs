//! The time-domain form of a window.
//!
//! The inverse transform turns the two windows of a tone into two series of
//! complex values of the same length. What reaches the output is the real
//! part of each value; for a window whose mirror bin is the conjugate of its
//! tone the imaginary parts carry nothing.

use vstd::prelude::*;
use crate::sample::{ComplexBits, Frame};

verus! {

/// One period of a rendered tone, a series of values for each channel.
#[derive(Debug)]
pub struct Waveform {
    pub left: Vec<ComplexBits>,
    pub right: Vec<ComplexBits>,
}

impl Waveform {
    /// Whether both channels hold exactly `size` values.
    pub open spec fn has_len(&self, size: nat) -> bool {
        &&& self.left@.len() == size
        &&& self.right@.len() == size
    }

    /// The frames of one period: at each instant the real parts of the two
    /// channels' values.
    pub open spec fn frames(&self) -> Seq<Frame> {
        Seq::new(
            self.left@.len(),
            |i: int| Frame::of_real_parts(self.left@[i], self.right@[i]),
        )
    }

    pub fn new(left: Vec<ComplexBits>, right: Vec<ComplexBits>) -> (wave: Waveform)
        ensures
            wave.left@ == left@,
            wave.right@ == right@,
    {
        Waveform { left, right }
    }

    /// Whether both channels hold exactly `size` values.
    pub fn is_of_len(&self, size: usize) -> (b: bool)
        ensures
            b == self.has_len(size as nat),
    {
        self.left.len() == size && self.right.len() == size
    }

    /// The frame at instant `i` of the period.
    pub fn frame(&self, i: usize) -> (f: Frame)
        requires
            i < self.left@.len(),
            i < self.right@.len(),
        ensures
            f == self.frames()[i as int],
    {
        Frame::of_real_parts(self.left[i], self.right[i])
    }
}

/// The periods of a series of waveforms, in the same order.
pub open spec fn periods(waves: Seq<Waveform>) -> Seq<Seq<Frame>> {
    Seq::new(waves.len(), |d: int| waves[d].frames())
}

} // verus!
