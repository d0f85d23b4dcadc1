//! The order of segments in a test file.
//!
//! A file opens with a silence. Then, for each direction in turn, comes the
//! direction's tone, one period repeated a fixed number of times, and after
//! it another silence. All silences have one length, and so have all tones.

use vstd::prelude::*;
use vstd::arithmetic::div_mod::lemma_fundamental_div_mod_converse;
use crate::direction::DIRECTION_COUNT;
use crate::sample::Frame;
use crate::sink::silence;

verus! {

/// `period` played `times` times without a gap.
pub open spec fn repeated(period: Seq<Frame>, times: nat) -> Seq<Frame>
    decreases times,
{
    if times == 0 {
        Seq::empty()
    } else {
        repeated(period, (times - 1) as nat) + period
    }
}

/// The frames of a file up to and including the silence behind the tone of
/// the `count`-th direction: the opening silence of `gap` frames, then for
/// each of the first `count` tones its period `repeats` times and a silence.
pub open spec fn sequence_through(
    tones: Seq<Seq<Frame>>,
    count: nat,
    repeats: nat,
    gap: nat,
) -> Seq<Frame>
    decreases count,
{
    if count == 0 {
        silence(gap)
    } else {
        sequence_through(tones, (count - 1) as nat, repeats, gap) + repeated(
            tones[count - 1],
            repeats,
        ) + silence(gap)
    }
}

/// The frames of a whole test file.
pub open spec fn test_sequence(tones: Seq<Seq<Frame>>, repeats: nat, gap: nat) -> Seq<Frame> {
    sequence_through(tones, DIRECTION_COUNT as nat, repeats, gap)
}

/// The index of the first frame of silence number `k`, counted from 0 for
/// the opening silence, where a tone takes `tone_len` frames.
pub open spec fn silence_start(k: int, tone_len: nat, gap: nat) -> int {
    k * (gap + tone_len)
}

/// The index of the first frame of the tone at position `d`.
pub open spec fn tone_start(d: int, tone_len: nat, gap: nat) -> int {
    d * (gap + tone_len) + gap
}

/// Whether each of the first `count` periods has `size` frames.
pub open spec fn periods_have_len(tones: Seq<Seq<Frame>>, count: nat, size: nat) -> bool {
    &&& count <= tones.len()
    &&& forall|d: int| 0 <= d < count ==> (#[trigger] tones[d]).len() == size
}

/// A period played `times` times has `times` times its length.
pub proof fn lemma_repeated_len(period: Seq<Frame>, times: nat)
    ensures
        repeated(period, times).len() == times * period.len(),
    decreases times,
{
    let n = period.len();
    if times > 0 {
        let fewer = (times - 1) as nat;
        lemma_repeated_len(period, fewer);
        assert(times * n == fewer * n + n) by (nonlinear_arith)
            requires
                times == fewer + 1,
        ;
    } else {
        assert(times * n == 0) by (nonlinear_arith)
            requires
                times == 0,
        ;
    }
}

/// Frame `i` of a repeated period is the frame of the period at `i` modulo
/// the period's length.
pub proof fn lemma_repeated_index(period: Seq<Frame>, times: nat, i: int)
    requires
        0 <= i < times * period.len(),
    ensures
        period.len() > 0,
        i < repeated(period, times).len(),
        repeated(period, times)[i] == period[i % (period.len() as int)],
    decreases times,
{
    let n = period.len() as int;
    assert(times > 0 && n > 0) by (nonlinear_arith)
        requires
            0 <= i < times * n,
            n >= 0,
    ;
    lemma_repeated_len(period, times);
    lemma_repeated_len(period, (times - 1) as nat);
    let before = (times - 1) * n;
    assert(times * n == before + n) by (nonlinear_arith)
        requires
            before == (times - 1) * n,
    ;
    if i < before {
        lemma_repeated_index(period, (times - 1) as nat, i);
    } else {
        lemma_fundamental_div_mod_converse(i, n, times - 1, i - before);
    }
}

/// The length of a file through `count` tones: `count` tones and
/// `count + 1` silences.
pub proof fn lemma_sequence_len(
    tones: Seq<Seq<Frame>>,
    count: nat,
    repeats: nat,
    gap: nat,
    size: nat,
)
    requires
        periods_have_len(tones, count, size),
    ensures
        sequence_through(tones, count, repeats, gap).len() == count * (gap + repeats * size) + gap,
    decreases count,
{
    let block = gap + repeats * size;
    if count > 0 {
        let fewer = (count - 1) as nat;
        lemma_sequence_len(tones, fewer, repeats, gap, size);
        lemma_repeated_len(tones[count - 1], repeats);
        assert(count * block == fewer * block + block) by (nonlinear_arith)
            requires
                count == fewer + 1,
        ;
    } else {
        assert(count * block == 0) by (nonlinear_arith)
            requires
                count == 0,
        ;
    }
}

/// Adding tones to a file changes none of the frames before them.
pub proof fn lemma_sequence_extends(
    tones: Seq<Seq<Frame>>,
    shorter: nat,
    longer: nat,
    repeats: nat,
    gap: nat,
    i: int,
)
    requires
        shorter <= longer,
        0 <= i < sequence_through(tones, shorter, repeats, gap).len(),
    ensures
        i < sequence_through(tones, longer, repeats, gap).len(),
        sequence_through(tones, longer, repeats, gap)[i] == sequence_through(
            tones,
            shorter,
            repeats,
            gap,
        )[i],
    decreases longer,
{
    if shorter < longer {
        lemma_sequence_extends(tones, shorter, (longer - 1) as nat, repeats, gap, i);
    }
}

/// Every frame of every silence is silent: in a file of `count` tones, the
/// frame at offset `j` of silence number `k` is positive zero on both
/// channels, whatever the tones hold.
pub proof fn lemma_silence_frames_are_silent(
    tones: Seq<Seq<Frame>>,
    count: nat,
    repeats: nat,
    gap: nat,
    size: nat,
    k: int,
    j: int,
)
    requires
        periods_have_len(tones, count, size),
        0 <= k <= count,
        0 <= j < gap,
    ensures
        0 <= silence_start(k, repeats * size, gap) + j < sequence_through(
            tones,
            count,
            repeats,
            gap,
        ).len(),
        sequence_through(tones, count, repeats, gap)[silence_start(k, repeats * size, gap)
            + j] == Frame::silent(),
{
    let at = silence_start(k, repeats * size, gap) + j;
    lemma_sequence_len(tones, k as nat, repeats, gap, size);
    assert(0 <= k * (gap + repeats * size)) by (nonlinear_arith)
        requires
            0 <= k,
            0 <= gap + repeats * size,
    ;
    if k > 0 {
        lemma_sequence_len(tones, (k - 1) as nat, repeats, gap, size);
        lemma_repeated_len(tones[k - 1], repeats);
    }
    assert(sequence_through(tones, k as nat, repeats, gap)[at] == Frame::silent());
    lemma_sequence_extends(tones, k as nat, count, repeats, gap, at);
}

/// Every frame of a tone is a frame of its period: in a file of `count`
/// tones, the frame at offset `j` of the tone at position `d` is the frame of
/// that tone's period at `j` modulo the period's length.
pub proof fn lemma_tone_frames_follow_period(
    tones: Seq<Seq<Frame>>,
    count: nat,
    repeats: nat,
    gap: nat,
    size: nat,
    d: int,
    j: int,
)
    requires
        periods_have_len(tones, count, size),
        0 <= d < count,
        0 <= j < repeats * size,
    ensures
        size > 0,
        0 <= tone_start(d, repeats * size, gap) + j < sequence_through(
            tones,
            count,
            repeats,
            gap,
        ).len(),
        sequence_through(tones, count, repeats, gap)[tone_start(d, repeats * size, gap) + j]
            == tones[d][j % (size as int)],
{
    let at = tone_start(d, repeats * size, gap) + j;
    lemma_sequence_len(tones, d as nat, repeats, gap, size);
    lemma_sequence_len(tones, (d + 1) as nat, repeats, gap, size);
    lemma_repeated_index(tones[d], repeats, j);
    assert(0 <= d * (gap + repeats * size)) by (nonlinear_arith)
        requires
            0 <= d,
            0 <= gap + repeats * size,
    ;
    assert((d + 1) * (gap + repeats * size) == d * (gap + repeats * size) + gap + repeats * size)
        by (nonlinear_arith);
    let head = sequence_through(tones, d as nat, repeats, gap);
    let tone = repeated(tones[d], repeats);
    assert(sequence_through(tones, (d + 1) as nat, repeats, gap) == head + tone + silence(gap));
    assert((head + tone + silence(gap))[at] == tone[j]);
    lemma_sequence_extends(tones, (d + 1) as nat, count, repeats, gap, at);
}

/// With no repetition of the tones a file is silence from end to end: the
/// `count + 1` silences and nothing between them.
pub proof fn lemma_no_repeats_is_all_silence(tones: Seq<Seq<Frame>>, count: nat, gap: nat)
    ensures
        sequence_through(tones, count, 0, gap) == silence((count + 1) * gap),
    decreases count,
{
    if count > 0 {
        lemma_no_repeats_is_all_silence(tones, (count - 1) as nat, gap);
        assert((count + 1) * gap == count * gap + gap) by (nonlinear_arith);
        assert(count * gap == (count - 1 + 1) * gap);
        assert(repeated(tones[count - 1], 0) =~= Seq::<Frame>::empty());
        assert(sequence_through(tones, count, 0, gap) =~= silence((count + 1) * gap));
    } else {
        assert((0 + 1) * gap == gap) by (nonlinear_arith);
    }
}

} // verus!
