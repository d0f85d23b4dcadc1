//! Assembling a test file.
//!
//! A generator holds the measures of a file and the index of the next frame
//! to write. It builds the windows of a plan, and, once the caller has
//! rendered them, writes the whole series of silences and tones to a sink.

use vstd::prelude::*;
use crate::direction::{Direction, DirectionalTone, TestPlan, DIRECTION_COUNT};
use crate::file::{all_fit, file_frames};
use crate::sample::Frame;
use crate::sequence::{
    lemma_repeated_len,
    lemma_sequence_len,
    periods_have_len,
    repeated,
    sequence_through,
};
use crate::sink::{
    after_run,
    lemma_run_at_end_appends,
    lemma_write_extends_run,
    silence,
    FrameSink,
};
use crate::timing::Timing;
use crate::waveform::{periods, Waveform};
use crate::window::{build_window, SpectralWindow};

verus! {

/// Why a set of rendered tones cannot be written.
#[derive(Clone, Copy, Debug, PartialEq, Eq, Structural)]
pub enum PlanError {
    /// There is not exactly one waveform for each direction.
    WaveformCount,
    /// The waveform of this direction does not hold one window's worth of
    /// values on both channels; no direction before it has that fault.
    WaveformLength(Direction),
}

/// Whether the waveform at position `d` is the first that is not `size` long
/// on both channels.
pub open spec fn is_first_misfit(waves: Seq<Waveform>, size: nat, d: int) -> bool {
    &&& 0 <= d < waves.len()
    &&& !waves[d].has_len(size)
    &&& forall|e: int| 0 <= e < d ==> (#[trigger] waves[e]).has_len(size)
}

/// Whether `error` is the fault of `waves`.
pub open spec fn is_fault_of(error: PlanError, waves: Seq<Waveform>, size: nat) -> bool {
    match error {
        PlanError::WaveformCount => waves.len() != DIRECTION_COUNT,
        PlanError::WaveformLength(direction) => {
            &&& waves.len() == DIRECTION_COUNT
            &&& is_first_misfit(waves, size, direction.spec_index())
        },
    }
}

/// The state of one run of file generation.
#[derive(Debug)]
pub struct ToneGenerator {
    timing: Timing,
    sample_ctr: usize,
}

impl ToneGenerator {
    /// The measures this generator works to.
    pub closed spec fn spec_timing(&self) -> Timing {
        self.timing
    }

    /// The index of the next frame to write.
    pub closed spec fn spec_sample_ctr(&self) -> usize {
        self.sample_ctr
    }

    /// Whether the generator's measures are valid. Every generator that
    /// `new` hands out is well formed and stays so.
    pub open spec fn wf(&self) -> bool {
        self.spec_timing().is_valid()
    }

    /// A generator for files of the given measures, at frame 0; none if no
    /// file can be made to them.
    pub fn new(timing: Timing) -> (made: Option<ToneGenerator>)
        ensures
            made is Some <==> timing.is_valid(),
            made is Some ==> made->0.wf() && made->0.timing() == timing && made->0.sample_ctr()
                == 0,
    {
        if timing.is_valid() {
            Some(ToneGenerator { timing, sample_ctr: 0 })
        } else {
            None
        }
    }

    #[verifier::when_used_as_spec(spec_timing)]
    pub fn timing(&self) -> (timing: Timing)
        ensures
            timing == self.spec_timing(),
    {
        self.timing
    }

    #[verifier::when_used_as_spec(spec_sample_ctr)]
    pub fn sample_ctr(&self) -> (index: usize)
        ensures
            index == self.spec_sample_ctr(),
    {
        self.sample_ctr
    }

    /// Builds the windows of one direction's tone, one for each channel.
    pub fn create_window(&self, tones: DirectionalTone) -> (window: SpectralWindow)
        requires
            self.wf(),
        ensures
            window.is_window_of(tones, self.timing().window_size as nat),
    {
        let right = build_window(tones.right, self.timing.window_size);
        let left = build_window(tones.left, self.timing.window_size);
        SpectralWindow { left, right }
    }

    /// Builds the windows of all tones of a plan, in file order.
    pub fn create_windows(&self, plan: &TestPlan) -> (windows: Vec<SpectralWindow>)
        requires
            self.wf(),
        ensures
            windows@.len() == DIRECTION_COUNT,
            forall|d: int|
                0 <= d < DIRECTION_COUNT ==> (#[trigger] windows@[d]).is_window_of(
                    plan.tones()[d],
                    self.timing().window_size as nat,
                ),
    {
        let mut windows: Vec<SpectralWindow> = Vec::new();
        let mut position: usize = 0;
        while position < DIRECTION_COUNT
            invariant
                self.wf(),
                position <= DIRECTION_COUNT,
                windows@.len() == position,
                forall|d: int|
                    0 <= d < position ==> (#[trigger] windows@[d]).is_window_of(
                        plan.tones()[d],
                        self.timing().window_size as nat,
                    ),
            decreases DIRECTION_COUNT - position,
        {
            match Direction::from_index(position) {
                Some(direction) => {
                    windows.push(self.create_window(plan.tone(direction)));
                },
                None => {},
            }
            position += 1;
        }
        windows
    }

    /// Writes one silence at the current index and moves the index behind
    /// it.
    pub fn write_silence(&mut self, sink: &mut FrameSink)
        requires
            old(self).sample_ctr() + old(self).timing().silence_len() <= usize::MAX,
        ensures
            final(self).timing() == old(self).timing(),
            final(self).sample_ctr() == old(self).sample_ctr() + old(self).timing().silence_len(),
            final(sink)@ == after_run(
                old(sink)@,
                old(self).sample_ctr() as int,
                silence(old(self).timing().silence_len()),
            ),
    {
        let ghost before = sink@;
        let ghost start = self.sample_ctr as int;
        let ghost timing = self.timing;
        let size: usize = self.timing.window_size;
        let iterations: usize = self.timing.iterations_per_silence;
        let mut iteration: usize = 0;
        proof {
            assert(0 * size == 0) by (nonlinear_arith);
            assert(silence(0) =~= Seq::<Frame>::empty());
            assert(after_run(before, start, silence(0)) =~= before);
        }
        while iteration < iterations
            invariant
                self.timing == timing,
                size == timing.window_size,
                iterations == timing.iterations_per_silence,
                iteration <= iterations,
                0 <= start,
                start + iterations * size <= usize::MAX,
                self.sample_ctr == start + iteration * size,
                sink@ == after_run(before, start, silence((iteration * size) as nat)),
            decreases iterations - iteration,
        {
            let mut window_ctr: usize = 0;
            while window_ctr < size
                invariant
                    self.timing == timing,
                    iteration < iterations,
                    window_ctr <= size,
                    0 <= start,
                    start + iterations * size <= usize::MAX,
                    self.sample_ctr == start + iteration * size + window_ctr,
                    sink@ == after_run(
                        before,
                        start,
                        silence((iteration * size + window_ctr) as nat),
                    ),
                decreases size - window_ctr,
            {
                proof {
                    let written = (iteration * size + window_ctr) as nat;
                    assert((iteration + 1) * size <= iterations * size) by (nonlinear_arith)
                        requires
                            iteration < iterations,
                    ;
                    assert((iteration + 1) * size == iteration * size + size)
                        by (nonlinear_arith);
                    lemma_write_extends_run(before, start, silence(written), Frame::silent());
                    assert(silence(written).push(Frame::silent()) =~= silence(written + 1));
                }
                sink.write_samples(self.sample_ctr, Frame::silent());
                self.sample_ctr += 1;
                window_ctr += 1;
            }
            proof {
                assert((iteration + 1) * size == iteration * size + size) by (nonlinear_arith);
            }
            iteration += 1;
        }
    }

    /// Writes one tone at the current index, the period of `wave` as often
    /// as the measures say, and moves the index behind it.
    pub fn write_tones(&mut self, sink: &mut FrameSink, wave: &Waveform)
        requires
            wave.has_len(old(self).timing().window_size as nat),
            old(self).sample_ctr() + old(self).timing().tone_len() <= usize::MAX,
        ensures
            final(self).timing() == old(self).timing(),
            final(self).sample_ctr() == old(self).sample_ctr() + old(self).timing().tone_len(),
            final(sink)@ == after_run(
                old(sink)@,
                old(self).sample_ctr() as int,
                repeated(wave.frames(), old(self).timing().iterations_per_tone as nat),
            ),
    {
        let ghost before = sink@;
        let ghost start = self.sample_ctr as int;
        let ghost timing = self.timing;
        let ghost period = wave.frames();
        let size: usize = self.timing.window_size;
        let iterations: usize = self.timing.iterations_per_tone;
        let mut iteration: usize = 0;
        proof {
            assert(0 * size == 0) by (nonlinear_arith);
            assert(after_run(before, start, repeated(period, 0)) =~= before);
        }
        while iteration < iterations
            invariant
                self.timing == timing,
                size == timing.window_size,
                iterations == timing.iterations_per_tone,
                period == wave.frames(),
                wave.has_len(size as nat),
                iteration <= iterations,
                0 <= start,
                start + iterations * size <= usize::MAX,
                self.sample_ctr == start + iteration * size,
                sink@ == after_run(before, start, repeated(period, iteration as nat)),
            decreases iterations - iteration,
        {
            let mut window_ctr: usize = 0;
            proof {
                assert(repeated(period, iteration as nat) + period.take(0) =~= repeated(
                    period,
                    iteration as nat,
                ));
            }
            while window_ctr < size
                invariant
                    self.timing == timing,
                    period == wave.frames(),
                    wave.has_len(size as nat),
                    iteration < iterations,
                    window_ctr <= size,
                    0 <= start,
                    start + iterations * size <= usize::MAX,
                    self.sample_ctr == start + iteration * size + window_ctr,
                    sink@ == after_run(
                        before,
                        start,
                        repeated(period, iteration as nat) + period.take(window_ctr as int),
                    ),
                decreases size - window_ctr,
            {
                let frame = wave.frame(window_ctr);
                proof {
                    let written = repeated(period, iteration as nat) + period.take(
                        window_ctr as int,
                    );
                    lemma_repeated_len(period, iteration as nat);
                    assert((iteration + 1) * size <= iterations * size) by (nonlinear_arith)
                        requires
                            iteration < iterations,
                    ;
                    assert((iteration + 1) * size == iteration * size + size)
                        by (nonlinear_arith);
                    lemma_write_extends_run(before, start, written, frame);
                    assert(written.push(frame) =~= repeated(period, iteration as nat)
                        + period.take(window_ctr + 1));
                }
                sink.write_samples(self.sample_ctr, frame);
                self.sample_ctr += 1;
                window_ctr += 1;
            }
            proof {
                assert((iteration + 1) * size == iteration * size + size) by (nonlinear_arith);
                assert(period.take(size as int) =~= period);
            }
            iteration += 1;
        }
    }

    /// Writes a whole file from frame 0 into a new sink: the opening
    /// silence, then for each direction in order its tone and a silence.
    ///
    /// `rendered` holds the waveform of each direction's tone, in file
    /// order. The result does not depend on where an earlier run left the
    /// generator. Nothing is written, and the generator is left as it was,
    /// unless there are eight waveforms of one window each.
    pub fn write_all_tones(&mut self, rendered: &Vec<Waveform>) -> (written: Result<
        FrameSink,
        PlanError,
    >)
        requires
            old(self).wf(),
        ensures
            final(self).timing() == old(self).timing(),
            written is Ok <==> all_fit(rendered@, old(self).timing().window_size as nat),
            written matches Ok(sink) ==> {
                &&& sink@ == file_frames(old(self).timing(), rendered@)
                &&& sink@.len() == old(self).timing().spec_total_frames()
                &&& final(self).sample_ctr() == old(self).timing().spec_total_frames()
            },
            written matches Err(error) ==> {
                &&& is_fault_of(error, rendered@, old(self).timing().window_size as nat)
                &&& final(self).sample_ctr() == old(self).sample_ctr()
            },
    {
        if rendered.len() != DIRECTION_COUNT {
            return Err(PlanError::WaveformCount);
        }
        let size: usize = self.timing.window_size;
        let ghost timing = self.timing;
        let ghost tones = periods(rendered@);
        let ghost gap = timing.silence_len();
        let ghost repeats = timing.iterations_per_tone as nat;
        let mut seen: usize = 0;
        while seen < DIRECTION_COUNT
            invariant
                *self == *old(self),
                size == self.timing.window_size,
                rendered@.len() == DIRECTION_COUNT,
                seen <= DIRECTION_COUNT,
                forall|d: int| 0 <= d < seen ==> (#[trigger] rendered@[d]).has_len(size as nat),
            decreases DIRECTION_COUNT - seen,
        {
            let fits = rendered[seen].is_of_len(size);
            assert(fits == rendered@[seen as int].has_len(size as nat));
            if !fits {
                match Direction::from_index(seen) {
                    Some(direction) => {
                        return Err(PlanError::WaveformLength(direction));
                    },
                    None => {},
                }
            }
            seen += 1;
        }
        proof {
            assert(periods_have_len(tones, DIRECTION_COUNT as nat, size as nat));
            timing.lemma_total_is_sum_of_segments();
        }

        self.sample_ctr = 0;
        let mut sink = FrameSink::new();
        self.write_silence(&mut sink);
        proof {
            lemma_run_at_end_appends(Seq::<Frame>::empty(), silence(gap));
            assert(Seq::<Frame>::empty() + silence(gap) =~= silence(gap));
            lemma_sequence_len(tones, 0, repeats, gap, size as nat);
        }
        let mut position: usize = 0;
        while position < DIRECTION_COUNT
            invariant
                self.timing == timing,
                timing.is_valid(),
                size == timing.window_size,
                gap == timing.silence_len(),
                repeats == timing.iterations_per_tone as nat,
                tones == periods(rendered@),
                rendered@.len() == DIRECTION_COUNT,
                periods_have_len(tones, DIRECTION_COUNT as nat, size as nat),
                forall|d: int|
                    0 <= d < DIRECTION_COUNT ==> (#[trigger] rendered@[d]).has_len(size as nat),
                position <= DIRECTION_COUNT,
                timing.spec_total_frames() == DIRECTION_COUNT * (gap + timing.tone_len()) + gap,
                self.sample_ctr == position * (gap + timing.tone_len()) + gap,
                sink@.len() == self.sample_ctr,
                sink@ == sequence_through(tones, position as nat, repeats, gap),
            decreases DIRECTION_COUNT - position,
        {
            let ghost head = sink@;
            proof {
                assert((position + 1) * (gap + timing.tone_len()) <= DIRECTION_COUNT * (gap
                    + timing.tone_len())) by (nonlinear_arith)
                    requires
                        position < DIRECTION_COUNT,
                ;
                assert((position + 1) * (gap + timing.tone_len()) == position * (gap
                    + timing.tone_len()) + gap + timing.tone_len()) by (nonlinear_arith);
            }
            self.write_tones(&mut sink, &rendered[position]);
            let ghost tone = repeated(tones[position as int], repeats);
            proof {
                lemma_run_at_end_appends(head, tone);
                lemma_repeated_len(tones[position as int], repeats);
            }
            self.write_silence(&mut sink);
            proof {
                lemma_run_at_end_appends(head + tone, silence(gap));
            }
            position += 1;
        }
        Ok(sink)
    }
}

} // verus!
