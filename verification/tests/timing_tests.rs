use test_tones::generator::ToneGenerator;
use test_tones::timing::{
    Timing, ITERATIONS_PER_SILENCE, ITERATIONS_PER_TONE, SAMPLE_RATE, SILENCE_COUNT, WINDOW_SIZE,
};

#[test]
fn standard_measures() {
    let timing = Timing::standard();
    assert_eq!(timing.window_size, 50);
    assert_eq!(timing.iterations_per_tone, 200);
    assert_eq!(timing.iterations_per_silence, 20);
    assert_eq!((WINDOW_SIZE, ITERATIONS_PER_TONE, ITERATIONS_PER_SILENCE), (50, 200, 20));
    assert_eq!(SAMPLE_RATE, 44100);
    assert_eq!(SILENCE_COUNT, 9);
    assert!(timing.is_valid());
}

#[test]
fn standard_file_has_89000_frames() {
    assert_eq!(Timing::standard().total_frames(), Some(20 * 50 * 9 + 200 * 50 * 8));
    assert_eq!(Timing::standard().total_frames(), Some(89000));
}

#[test]
fn total_counts_nine_silences_and_eight_tones() {
    let timing = Timing { window_size: 7, iterations_per_tone: 3, iterations_per_silence: 2 };
    assert_eq!(timing.total_frames(), Some(2 * 7 * 9 + 3 * 7 * 8));
    let silent = Timing { window_size: 7, iterations_per_tone: 0, iterations_per_silence: 2 };
    assert_eq!(silent.total_frames(), Some(126));
    let empty = Timing { window_size: 7, iterations_per_tone: 0, iterations_per_silence: 0 };
    assert_eq!(empty.total_frames(), Some(0));
}

#[test]
fn total_is_none_when_it_does_not_fit() {
    let huge = Timing { window_size: usize::MAX, iterations_per_tone: 2, iterations_per_silence: 0 };
    assert_eq!(huge.total_frames(), None);
    let nine = Timing {
        window_size: usize::MAX / 8,
        iterations_per_tone: 0,
        iterations_per_silence: 1,
    };
    assert_eq!(nine.total_frames(), None);
    let sum = Timing {
        window_size: usize::MAX / 16,
        iterations_per_tone: 1,
        iterations_per_silence: 1,
    };
    assert_eq!(sum.total_frames(), None);
    assert!(!huge.is_valid());
    assert!(!nine.is_valid());
    assert!(!sum.is_valid());
}

#[test]
fn largest_file_that_fits() {
    let timing = Timing {
        window_size: usize::MAX / 8,
        iterations_per_tone: 1,
        iterations_per_silence: 0,
    };
    assert_eq!(timing.total_frames(), Some(usize::MAX / 8 * 8));
    assert!(timing.is_valid());
}

#[test]
fn window_shorter_than_three_is_invalid() {
    for window_size in [0usize, 1, 2] {
        let timing = Timing { window_size, iterations_per_tone: 1, iterations_per_silence: 1 };
        assert!(!timing.is_valid());
        assert!(ToneGenerator::new(timing).is_none());
    }
    let three = Timing { window_size: 3, iterations_per_tone: 1, iterations_per_silence: 1 };
    assert!(three.is_valid());
    assert!(ToneGenerator::new(three).is_some());
}

#[test]
fn new_generator_starts_at_frame_zero() {
    let generator = ToneGenerator::new(Timing::standard()).unwrap();
    assert_eq!(generator.sample_ctr(), 0);
    assert_eq!(generator.timing(), Timing::standard());
}
