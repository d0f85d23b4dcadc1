//! The fixed measures of a test file.
//!
//! Everything in a file is counted in windows: a tone is its period of
//! `window_size` frames played `iterations_per_tone` times, and a silence
//! lasts as long as `iterations_per_silence` windows.

use vstd::prelude::*;
use crate::direction::DIRECTION_COUNT;
use crate::window::MIN_WINDOW_SIZE;

verus! {

/// The sample rate of a test file, in frames per second. A tone lasts one
/// window per period, so its frequency is this rate divided by the window
/// length.
pub const SAMPLE_RATE: u32 = 44100;

/// The window length that the standard test files use.
pub const WINDOW_SIZE: usize = 50;

/// How often the standard test files repeat the period of a tone.
pub const ITERATIONS_PER_TONE: usize = 200;

/// How many windows a silence of the standard test files lasts.
pub const ITERATIONS_PER_SILENCE: usize = 20;

/// The number of silences in a file: one before the first tone and one
/// behind each tone.
pub const SILENCE_COUNT: usize = 9;

/// The measures of one file.
#[derive(Clone, Copy, Debug, PartialEq, Eq, Structural)]
pub struct Timing {
    pub window_size: usize,
    pub iterations_per_tone: usize,
    pub iterations_per_silence: usize,
}

impl Timing {
    /// The number of frames in one silence.
    pub open spec fn silence_len(&self) -> nat {
        (self.iterations_per_silence * self.window_size) as nat
    }

    /// The number of frames in one tone.
    pub open spec fn tone_len(&self) -> nat {
        (self.iterations_per_tone * self.window_size) as nat
    }

    /// The number of frames in a whole file: nine silences and eight tones.
    pub open spec fn spec_total_frames(&self) -> nat {
        (self.iterations_per_silence * self.window_size * 9 + self.iterations_per_tone
            * self.window_size * 8) as nat
    }

    /// Whether a file can be made to these measures: the window is long
    /// enough to hold a tone and its mirror, and the index of every frame
    /// fits the machine's word.
    pub open spec fn spec_is_valid(&self) -> bool {
        &&& self.window_size >= MIN_WINDOW_SIZE
        &&& self.spec_total_frames() <= usize::MAX
    }

    /// The measures of the standard test files.
    pub fn standard() -> (timing: Timing)
        ensures
            timing == (Timing {
                window_size: WINDOW_SIZE,
                iterations_per_tone: ITERATIONS_PER_TONE,
                iterations_per_silence: ITERATIONS_PER_SILENCE,
            }),
            timing.spec_is_valid(),
            timing.silence_len() == 1000,
            timing.tone_len() == 10000,
            timing.spec_total_frames() == 89000,
    {
        assert(ITERATIONS_PER_SILENCE * WINDOW_SIZE == 1000 && ITERATIONS_PER_TONE * WINDOW_SIZE
            == 10000) by (nonlinear_arith);
        Timing {
            window_size: WINDOW_SIZE,
            iterations_per_tone: ITERATIONS_PER_TONE,
            iterations_per_silence: ITERATIONS_PER_SILENCE,
        }
    }

    /// The number of frames in a whole file, unless it is more than the
    /// machine's word can count.
    pub fn total_frames(&self) -> (total: Option<usize>)
        ensures
            total == (if self.spec_total_frames() <= usize::MAX {
                Some(self.spec_total_frames() as usize)
            } else {
                None
            }),
    {
        let silence = match self.iterations_per_silence.checked_mul(self.window_size) {
            Some(frames) => frames,
            None => {
                return None;
            },
        };
        let silences = match silence.checked_mul(SILENCE_COUNT) {
            Some(frames) => frames,
            None => {
                return None;
            },
        };
        let tone = match self.iterations_per_tone.checked_mul(self.window_size) {
            Some(frames) => frames,
            None => {
                return None;
            },
        };
        let tones = match tone.checked_mul(DIRECTION_COUNT) {
            Some(frames) => frames,
            None => {
                return None;
            },
        };
        silences.checked_add(tones)
    }

    /// Whether a file can be made to these measures.
    #[verifier::when_used_as_spec(spec_is_valid)]
    pub fn is_valid(&self) -> (valid: bool)
        ensures
            valid == self.spec_is_valid(),
    {
        self.window_size >= MIN_WINDOW_SIZE && self.total_frames().is_some()
    }

    /// The length of a file is that of its parts: nine silences and eight
    /// tones, each a whole number of windows.
    pub proof fn lemma_total_is_sum_of_segments(&self)
        ensures
            self.spec_total_frames() == SILENCE_COUNT * self.silence_len() + DIRECTION_COUNT
                * self.tone_len(),
            self.spec_total_frames() == DIRECTION_COUNT * (self.silence_len() + self.tone_len())
                + self.silence_len(),
    {
    }
}

} // verus!
