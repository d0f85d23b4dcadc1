use test_tones::direction::Direction;
use test_tones::generator::{PlanError, ToneGenerator};
use test_tones::sample::{ComplexBits, Frame};
use test_tones::sink::FrameSink;
use test_tones::timing::Timing;
use test_tones::waveform::Waveform;

fn frame(left: u32, right: u32) -> Frame {
    Frame { front_left: left, front_right: right }
}

/// A waveform whose frame at instant `i` is `(base + i, base + 100 + i)`;
/// the imaginary parts are set to a value that must never reach a frame.
fn wave(base: u32, size: usize) -> Waveform {
    let left = (0..size).map(|i| ComplexBits::new(base + i as u32, 0xdead)).collect();
    let right = (0..size).map(|i| ComplexBits::new(base + 100 + i as u32, 0xbeef)).collect();
    Waveform::new(left, right)
}

fn waves(size: usize) -> Vec<Waveform> {
    (0..8).map(|d| wave(1000 * (d + 1), size)).collect()
}

fn generator(window_size: usize, tone: usize, silence: usize) -> ToneGenerator {
    ToneGenerator::new(Timing {
        window_size,
        iterations_per_tone: tone,
        iterations_per_silence: silence,
    })
    .unwrap()
}

#[test]
fn waveform_frames_are_real_parts() {
    let w = wave(10, 3);
    assert!(w.is_of_len(3));
    assert!(!w.is_of_len(4));
    assert_eq!(w.frame(0), frame(10, 110));
    assert_eq!(w.frame(2), frame(12, 112));
}

#[test]
fn waveform_with_unequal_channels_fits_no_length() {
    let w = Waveform::new(vec![ComplexBits::zero(); 3], vec![ComplexBits::zero(); 4]);
    assert!(!w.is_of_len(3));
    assert!(!w.is_of_len(4));
}

#[test]
fn write_silence_writes_zero_frames_and_advances() {
    let mut g = generator(3, 5, 2);
    let mut sink = FrameSink::new();
    g.write_silence(&mut sink);
    assert_eq!(g.sample_ctr(), 6);
    assert_eq!(sink.into_frames(), vec![Frame::silent(); 6]);
}

#[test]
fn write_silence_with_no_iterations_writes_nothing() {
    let mut g = generator(3, 5, 0);
    let mut sink = FrameSink::new();
    g.write_silence(&mut sink);
    assert_eq!(g.sample_ctr(), 0);
    assert_eq!(sink.len(), 0);
}

#[test]
fn write_tones_repeats_the_whole_period() {
    let mut g = generator(3, 2, 1);
    let mut sink = FrameSink::new();
    g.write_tones(&mut sink, &wave(10, 3));
    assert_eq!(g.sample_ctr(), 6);
    assert_eq!(
        sink.into_frames(),
        vec![
            frame(10, 110),
            frame(11, 111),
            frame(12, 112),
            frame(10, 110),
            frame(11, 111),
            frame(12, 112),
        ]
    );
}

#[test]
fn segments_follow_one_another_at_the_running_index() {
    let mut g = generator(3, 1, 1);
    let mut sink = FrameSink::new();
    g.write_silence(&mut sink);
    g.write_tones(&mut sink, &wave(10, 3));
    g.write_silence(&mut sink);
    assert_eq!(g.sample_ctr(), 9);
    let frames = sink.into_frames();
    assert_eq!(&frames[0..3], &[Frame::silent(); 3]);
    assert_eq!(&frames[3..6], &[frame(10, 110), frame(11, 111), frame(12, 112)]);
    assert_eq!(&frames[6..9], &[Frame::silent(); 3]);
}

#[test]
fn write_tones_into_a_filled_sink_overwrites_in_place() {
    let mut g = generator(3, 1, 1);
    let mut sink = FrameSink::new();
    for index in 0..5 {
        sink.write_samples(index, frame(7, 7));
    }
    g.write_tones(&mut sink, &wave(10, 3));
    assert_eq!(
        sink.into_frames(),
        vec![frame(10, 110), frame(11, 111), frame(12, 112), frame(7, 7), frame(7, 7)]
    );
}

#[test]
fn whole_file_has_the_stated_length() {
    let mut g = generator(4, 3, 2);
    let sink = g.write_all_tones(&waves(4)).unwrap();
    assert_eq!(sink.len(), 2 * 4 * 9 + 3 * 4 * 8);
    assert_eq!(g.sample_ctr(), 168);
    assert_eq!(g.timing().total_frames(), Some(168));
}

#[test]
fn whole_file_places_every_segment() {
    let (size, tone, silence) = (4usize, 3usize, 2usize);
    let mut g = generator(size, tone, silence);
    let rendered = waves(size);
    let frames = g.write_all_tones(&rendered).unwrap().into_frames();
    let gap = silence * size;
    let block = gap + tone * size;
    for k in 0..9 {
        for j in 0..gap {
            assert_eq!(frames[k * block + j], Frame::silent());
        }
    }
    for d in 0..8 {
        let direction = Direction::from_index(d).unwrap();
        for j in 0..tone * size {
            let at = direction.index() * block + gap + j;
            assert_eq!(frames[at], rendered[d].frame(j % size));
            let base = 1000 * (d as u32 + 1) + (j % size) as u32;
            assert_eq!(frames[at], frame(base, base + 100));
        }
    }
}

#[test]
fn standard_file_puts_center_first_and_left_front_last() {
    let mut g = ToneGenerator::new(Timing::standard()).unwrap();
    let frames = g.write_all_tones(&waves(50)).unwrap().into_frames();
    assert_eq!(frames.len(), 89000);
    assert_eq!(frames[999], Frame::silent());
    assert_eq!(frames[1000], frame(1000, 1100));
    assert_eq!(frames[1049], frame(1049, 1149));
    assert_eq!(frames[1050], frame(1000, 1100));
    assert_eq!(frames[10999], frame(1049, 1149));
    assert_eq!(frames[11000], Frame::silent());
    assert_eq!(frames[12000], frame(2000, 2100));
    assert_eq!(frames[78000], frame(8000, 8100));
    assert_eq!(frames[87999], frame(8049, 8149));
    assert_eq!(frames[88000], Frame::silent());
    assert_eq!(frames[88999], Frame::silent());
}

#[test]
fn without_tone_iterations_the_file_is_nine_silences() {
    let mut g = generator(5, 0, 3);
    let frames = g.write_all_tones(&waves(5)).unwrap().into_frames();
    assert_eq!(frames, vec![Frame::silent(); 9 * 3 * 5]);
}

#[test]
fn without_any_iterations_the_file_is_empty() {
    let mut g = generator(5, 0, 0);
    let sink = g.write_all_tones(&waves(5)).unwrap();
    assert_eq!(sink.len(), 0);
    assert_eq!(g.sample_ctr(), 0);
}

#[test]
fn without_silence_the_tones_touch() {
    let mut g = generator(3, 1, 0);
    let frames = g.write_all_tones(&waves(3)).unwrap().into_frames();
    assert_eq!(frames.len(), 24);
    assert_eq!(frames[2], frame(1002, 1102));
    assert_eq!(frames[3], frame(2000, 2100));
    assert_eq!(frames[23], frame(8002, 8102));
}

#[test]
fn generating_twice_gives_the_same_file() {
    let mut g = generator(4, 3, 2);
    let rendered = waves(4);
    let first = g.write_all_tones(&rendered).unwrap().into_frames();
    assert_eq!(g.sample_ctr(), 168);
    let second = g.write_all_tones(&rendered).unwrap().into_frames();
    assert_eq!(g.sample_ctr(), 168);
    assert_eq!(first, second);
    let mut fresh = generator(4, 3, 2);
    assert_eq!(fresh.write_all_tones(&waves(4)).unwrap().into_frames(), first);
}

#[test]
fn wrong_number_of_waveforms_is_refused() {
    let mut g = generator(4, 3, 2);
    let mut seven = waves(4);
    seven.pop();
    assert_eq!(g.write_all_tones(&seven).err(), Some(PlanError::WaveformCount));
    let mut nine = waves(4);
    nine.push(wave(0, 4));
    assert_eq!(g.write_all_tones(&nine).err(), Some(PlanError::WaveformCount));
    assert_eq!(g.write_all_tones(&Vec::new()).err(), Some(PlanError::WaveformCount));
    assert_eq!(g.sample_ctr(), 0);
}

#[test]
fn first_waveform_of_wrong_length_is_named() {
    let mut g = generator(4, 3, 2);
    g.write_all_tones(&waves(4)).unwrap();
    assert_eq!(g.sample_ctr(), 168);
    let mut rendered = waves(4);
    rendered[3] = wave(0, 5);
    rendered[6] = wave(0, 3);
    assert_eq!(
        g.write_all_tones(&rendered).err(),
        Some(PlanError::WaveformLength(Direction::RightRear))
    );
    assert_eq!(g.sample_ctr(), 168);
    rendered[0] = Waveform::new(vec![ComplexBits::zero(); 4], Vec::new());
    assert_eq!(
        g.write_all_tones(&rendered).err(),
        Some(PlanError::WaveformLength(Direction::Center))
    );
    let mut last = waves(4);
    last[7] = wave(0, 0);
    assert_eq!(
        g.write_all_tones(&last).err(),
        Some(PlanError::WaveformLength(Direction::LeftFront))
    );
}
