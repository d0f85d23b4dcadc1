//! The frequency-domain window of a tone.
//!
//! A window of length `W` holds the tone in bin 1, the lowest frequency above
//! zero, and the tone's conjugate in bin `W - 1`, its mirror. Every other bin
//! is zero. The two bins being exact conjugates is what makes the inverse
//! transform of the window a real signal: one period of a sinusoid whose
//! amplitude and phase are those of the tone.

use vstd::prelude::*;
use crate::direction::DirectionalTone;
use crate::sample::ComplexBits;

verus! {

/// The shortest window: bin 1 and its mirror must be two different bins,
/// neither of them bin 0.
pub const MIN_WINDOW_SIZE: usize = 3;

/// The bins of the window of `tone`, for a window of `size` bins.
pub open spec fn window_bins(tone: ComplexBits, size: nat) -> Seq<ComplexBits> {
    Seq::new(
        size,
        |k: int|
            if k == 1 {
                tone
            } else if k == size - 1 {
                tone.conj()
            } else {
                ComplexBits::zero()
            },
    )
}

/// Whether `bins` has the shape of a window: bin 1 and the mirror bin are
/// each the conjugate of the other, and all bins but these two are zero.
pub open spec fn is_hermitian_window(bins: Seq<ComplexBits>) -> bool {
    &&& bins.len() >= MIN_WINDOW_SIZE
    &&& bins[bins.len() - 1] == bins[1].conj()
    &&& bins[1] == bins[bins.len() - 1].conj()
    &&& forall|k: int|
        0 <= k < bins.len() && k != 1 && k != bins.len() - 1 ==> bins[k] == ComplexBits::zero()
}

/// For every length from three up and every tone, the window has that length,
/// carries the tone in bin 1 and its exact conjugate in the last bin, and is
/// zero everywhere else.
pub proof fn lemma_window_is_hermitian(tone: ComplexBits, size: nat)
    requires
        size >= MIN_WINDOW_SIZE,
    ensures
        window_bins(tone, size).len() == size,
        window_bins(tone, size)[1] == tone,
        window_bins(tone, size)[size - 1] == window_bins(tone, size)[1].conj(),
        forall|k: int|
            0 <= k < size && k != 1 && k != size - 1 ==> window_bins(tone, size)[k]
                == ComplexBits::zero(),
        is_hermitian_window(window_bins(tone, size)),
{
    tone.lemma_conj_twice();
}

/// Builds the bins of the window of `tone`.
pub fn build_window(tone: ComplexBits, size: usize) -> (bins: Vec<ComplexBits>)
    requires
        size >= MIN_WINDOW_SIZE,
    ensures
        bins@ == window_bins(tone, size as nat),
{
    let mut bins: Vec<ComplexBits> = Vec::new();
    let mut k: usize = 0;
    while k < size
        invariant
            k <= size,
            bins@ == Seq::new(k as nat, |j: int| ComplexBits::zero()),
        decreases size - k,
    {
        bins.push(ComplexBits::zero());
        k += 1;
    }
    bins.set(1, tone);
    bins.set(size - 1, tone.conj());
    bins
}

/// The windows of one direction's tone, one for each channel.
#[derive(Debug)]
pub struct SpectralWindow {
    pub left: Vec<ComplexBits>,
    pub right: Vec<ComplexBits>,
}

impl SpectralWindow {
    /// Whether these are the windows of `tones` at length `size`.
    pub open spec fn is_window_of(&self, tones: DirectionalTone, size: nat) -> bool {
        &&& self.left@ == window_bins(tones.left, size)
        &&& self.right@ == window_bins(tones.right, size)
    }
}

} // verus!
