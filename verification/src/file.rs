//! The frames of a test file, and what holds of them.
//!
//! The file is a function of the measures and of the frames of the eight
//! rendered periods, and of nothing else. Its length and the place of every
//! segment follow from the measures alone, so a reader finds the tone of a
//! direction by position.

use vstd::prelude::*;
use crate::direction::{Direction, DIRECTION_COUNT};
use crate::sample::Frame;
use crate::sequence::{
    lemma_no_repeats_is_all_silence,
    lemma_sequence_len,
    lemma_silence_frames_are_silent,
    lemma_tone_frames_follow_period,
    periods_have_len,
    silence_start,
    test_sequence,
    tone_start,
};
use crate::sink::silence;
use crate::timing::{Timing, SILENCE_COUNT};
use crate::waveform::{periods, Waveform};

verus! {

/// Whether `waves` is what a file is written from: one waveform for each
/// direction, each `size` long on both channels.
pub open spec fn all_fit(waves: Seq<Waveform>, size: nat) -> bool {
    &&& waves.len() == DIRECTION_COUNT
    &&& forall|d: int| 0 <= d < waves.len() ==> (#[trigger] waves[d]).has_len(size)
}

/// The frames of the file made to `timing` from the rendered tones `waves`,
/// which stand in file order.
pub open spec fn file_frames(timing: Timing, waves: Seq<Waveform>) -> Seq<Frame> {
    test_sequence(periods(waves), timing.iterations_per_tone as nat, timing.silence_len())
}

/// The index of the first frame of the tone of `direction`.
pub open spec fn tone_offset(timing: Timing, direction: Direction) -> int {
    tone_start(direction.spec_index(), timing.tone_len(), timing.silence_len())
}

/// The index of the first frame of silence number `k`; silence 0 opens the
/// file, and silence `k + 1` follows the tone at position `k`.
pub open spec fn silence_offset(timing: Timing, k: int) -> int {
    silence_start(k, timing.tone_len(), timing.silence_len())
}

proof fn lemma_periods_fit(timing: Timing, waves: Seq<Waveform>)
    requires
        all_fit(waves, timing.window_size as nat),
    ensures
        periods_have_len(periods(waves), DIRECTION_COUNT as nat, timing.window_size as nat),
{
    assert forall|d: int| 0 <= d < DIRECTION_COUNT implies (#[trigger] periods(waves)[d]).len()
        == timing.window_size by {
        assert(waves[d].has_len(timing.window_size as nat));
    }
}

/// A file holds `iterations_per_silence * window_size * 9 +
/// iterations_per_tone * window_size * 8` frames, whatever the tones are.
pub proof fn lemma_file_len(timing: Timing, waves: Seq<Waveform>)
    requires
        all_fit(waves, timing.window_size as nat),
    ensures
        file_frames(timing, waves).len() == timing.iterations_per_silence * timing.window_size * 9
            + timing.iterations_per_tone * timing.window_size * 8,
        file_frames(timing, waves).len() == timing.spec_total_frames(),
{
    lemma_periods_fit(timing, waves);
    lemma_sequence_len(
        periods(waves),
        DIRECTION_COUNT as nat,
        timing.iterations_per_tone as nat,
        timing.silence_len(),
        timing.window_size as nat,
    );
    timing.lemma_total_is_sum_of_segments();
}

/// Every frame of each of the nine silences is exactly zero on both
/// channels.
pub proof fn lemma_file_silences(timing: Timing, waves: Seq<Waveform>, k: int, j: int)
    requires
        all_fit(waves, timing.window_size as nat),
        0 <= k < SILENCE_COUNT,
        0 <= j < timing.silence_len(),
    ensures
        0 <= silence_offset(timing, k) + j < file_frames(timing, waves).len(),
        file_frames(timing, waves)[silence_offset(timing, k) + j] == Frame::silent(),
{
    lemma_periods_fit(timing, waves);
    lemma_silence_frames_are_silent(
        periods(waves),
        DIRECTION_COUNT as nat,
        timing.iterations_per_tone as nat,
        timing.silence_len(),
        timing.window_size as nat,
        k,
        j,
    );
}

/// The tone of a direction stands at the direction's place and is the
/// direction's own waveform: frame `j` of the tone holds the real parts of
/// the waveform's values at `j` modulo the window length.
pub proof fn lemma_file_tones(timing: Timing, waves: Seq<Waveform>, direction: Direction, j: int)
    requires
        all_fit(waves, timing.window_size as nat),
        0 <= j < timing.tone_len(),
    ensures
        timing.window_size > 0,
        0 <= tone_offset(timing, direction) + j < file_frames(timing, waves).len(),
        file_frames(timing, waves)[tone_offset(timing, direction) + j] == waves[direction.spec_index()].frames()[j
            % (timing.window_size as int)],
{
    lemma_periods_fit(timing, waves);
    lemma_tone_frames_follow_period(
        periods(waves),
        DIRECTION_COUNT as nat,
        timing.iterations_per_tone as nat,
        timing.silence_len(),
        timing.window_size as nat,
        direction.spec_index(),
        j,
    );
}

/// With `iterations_per_tone` at zero a file is its nine silences and
/// nothing else: no frame of any tone is in it.
pub proof fn lemma_file_without_tones(timing: Timing, waves: Seq<Waveform>)
    requires
        timing.iterations_per_tone == 0,
    ensures
        file_frames(timing, waves) == silence((SILENCE_COUNT * timing.silence_len()) as nat),
{
    lemma_no_repeats_is_all_silence(periods(waves), DIRECTION_COUNT as nat, timing.silence_len());
}

/// Generating twice gives the same file: equal measures and waveforms with
/// equal frames give equal files, frame for frame.
pub proof fn lemma_file_is_repeatable(
    timing: Timing,
    first: Seq<Waveform>,
    second: Seq<Waveform>,
)
    requires
        first.len() == second.len(),
        forall|d: int| 0 <= d < first.len() ==> first[d].frames() == second[d].frames(),
    ensures
        file_frames(timing, first) == file_frames(timing, second),
{
    assert(periods(first) =~= periods(second));
}

} // verus!
