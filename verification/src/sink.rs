//! A frame-indexed sink held in memory.
//!
//! Frames are written at explicit indices. A write inside the sink replaces
//! the frame that stood there; a write past the end first fills the gap with
//! silent frames, so the sink always holds one frame for every index below
//! its length.

use vstd::prelude::*;
use crate::sample::Frame;

verus! {

/// `count` silent frames.
pub open spec fn silence(count: nat) -> Seq<Frame> {
    Seq::new(count, |i: int| Frame::silent())
}

/// What a sink holds after `frame` was written at `index`.
pub open spec fn after_write(before: Seq<Frame>, index: int, frame: Frame) -> Seq<Frame> {
    if index < before.len() {
        before.update(index, frame)
    } else {
        (before + silence((index - before.len()) as nat)).push(frame)
    }
}

/// What a sink holds after the frames of `run` were written one by one at
/// `start`, `start + 1` and so on. An empty run writes nothing.
pub open spec fn after_run(before: Seq<Frame>, start: int, run: Seq<Frame>) -> Seq<Frame> {
    let end = start + run.len();
    let len = if run.len() == 0 || end <= before.len() {
        before.len() as int
    } else {
        end
    };
    Seq::new(
        len as nat,
        |i: int|
            if start <= i < end {
                run[i - start]
            } else if i < before.len() {
                before[i]
            } else {
                Frame::silent()
            },
    )
}

/// Writing one more frame behind a run is writing the run with that frame
/// added to it.
pub proof fn lemma_write_extends_run(
    before: Seq<Frame>,
    start: int,
    run: Seq<Frame>,
    frame: Frame,
)
    requires
        0 <= start,
    ensures
        after_write(after_run(before, start, run), start + run.len(), frame) == after_run(
            before,
            start,
            run.push(frame),
        ),
{
    assert(after_write(after_run(before, start, run), start + run.len(), frame) =~= after_run(
        before,
        start,
        run.push(frame),
    ));
}

/// A run written at the end of the sink is appended to it.
pub proof fn lemma_run_at_end_appends(before: Seq<Frame>, run: Seq<Frame>)
    ensures
        after_run(before, before.len() as int, run) == before + run,
{
    assert(after_run(before, before.len() as int, run) =~= before + run);
}

/// The sink.
#[derive(Debug)]
pub struct FrameSink {
    frames: Vec<Frame>,
}

impl View for FrameSink {
    type V = Seq<Frame>;

    closed spec fn view(&self) -> Seq<Frame> {
        self.frames@
    }
}

impl FrameSink {
    /// An empty sink.
    pub fn new() -> (sink: FrameSink)
        ensures
            sink@ == Seq::<Frame>::empty(),
    {
        FrameSink { frames: Vec::new() }
    }

    /// The number of frames in the sink: one more than the highest index
    /// written so far.
    pub fn len(&self) -> (n: usize)
        ensures
            n == self@.len(),
    {
        self.frames.len()
    }

    /// Writes `frame` at `index`.
    pub fn write_samples(&mut self, index: usize, frame: Frame)
        requires
            index < usize::MAX,
        ensures
            final(self)@ == after_write(old(self)@, index as int, frame),
    {
        if index < self.frames.len() {
            self.frames.set(index, frame);
        } else {
            let ghost before = self.frames@;
            while self.frames.len() < index
                invariant
                    before.len() <= self.frames.len() <= index,
                    self.frames@ == before + silence((self.frames.len() - before.len()) as nat),
                decreases index - self.frames.len(),
            {
                self.frames.push(Frame::silent());
            }
            self.frames.push(frame);
        }
    }

    /// The frame at `index`, if one was written or filled in there.
    pub fn frame(&self, index: usize) -> (f: Option<Frame>)
        ensures
            f == (if index < self@.len() {
                Some(self@[index as int])
            } else {
                None
            }),
    {
        if index < self.frames.len() {
            Some(self.frames[index])
        } else {
            None
        }
    }

    /// The frames in index order.
    pub fn frames(&self) -> (frames: &Vec<Frame>)
        ensures
            frames@ == self@,
    {
        &self.frames
    }

    /// Gives up the sink for its frames, in index order.
    pub fn into_frames(self) -> (frames: Vec<Frame>)
        ensures
            frames@ == self@,
    {
        self.frames
    }
}

} // verus!
