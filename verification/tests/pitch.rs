use rust_audio_engine::cents::frequency_to_cents;
use rust_audio_engine::level::calculate_rms;
use rust_audio_engine::note::{frequency_to_midi, midi_to_note_name, reaches};
use rust_audio_engine::pitch::{
    absolute_threshold, detect_pitch_yin, difference_at, frequency_from_lag, lag,
    normalized_difference, PitchResult, YinParams,
};

/// One amplitude in millionths of full scale.
fn to_fixed(x: f32) -> i32 {
    (x as f64 * 1_000_000.0).round() as i32
}

fn generate_sine_wave(frequency: f32, sample_rate: u32, num_samples: usize) -> Vec<i32> {
    (0..num_samples)
        .map(|i| {
            let t = i as f32 / sample_rate as f32;
            to_fixed((2.0 * std::f32::consts::PI * frequency * t).sin())
        })
        .collect()
}

fn hertz(result: &PitchResult) -> f64 {
    result.frequency as f64 / 1000.0
}

#[test]
fn test_pitch_detection_a440() {
    let samples = generate_sine_wave(440.0, 44100, 4096);
    let params = YinParams::default();

    let result = detect_pitch_yin(&samples, &params).unwrap();

    assert!((hertz(&result) - 440.0).abs() < 2.0, "Frequency should be ~440 Hz");
    assert_eq!(result.midi_note, 69, "MIDI note should be 69 (A4)");
    assert!(result.confidence > 900_000, "Confidence should be high");
    assert!(result.cents_offset.abs() < 10, "Should be in tune");
}

#[test]
fn test_pitch_detection_c4() {
    let samples = generate_sine_wave(261.63, 44100, 4096);
    let params = YinParams::default();

    let result = detect_pitch_yin(&samples, &params).unwrap();

    assert!((hertz(&result) - 261.63).abs() < 2.0);
    assert_eq!(result.midi_note, 60, "MIDI note should be 60 (C4)");
}

#[test]
fn test_silence_returns_none() {
    let samples = vec![0; 4096];
    let params = YinParams::default();

    let result = detect_pitch_yin(&samples, &params);

    assert!(result.is_none(), "Silence should return None");
}

#[test]
fn test_low_frequency_a0() {
    let samples = generate_sine_wave(27.5, 44100, 8192);
    let params = YinParams::default();

    let result = detect_pitch_yin(&samples, &params).unwrap();

    assert!((hertz(&result) - 27.5).abs() < 2.0);
    assert_eq!(result.midi_note, 21, "MIDI note should be 21 (A0)");
}

#[test]
fn test_high_frequency_c8() {
    let samples = generate_sine_wave(4186.0, 44100, 4096);
    let params = YinParams::default();

    let result = detect_pitch_yin(&samples, &params).unwrap();

    assert!((hertz(&result) - 4186.0).abs() < 10.0);
    assert_eq!(result.midi_note, 108, "MIDI note should be 108 (C8)");
}

#[test]
fn test_rms_calculation() {
    let amplitude = 0.5;
    let samples: Vec<i32> = (0..1000)
        .map(|i| {
            let t = i as f32 / 44100.0;
            to_fixed((2.0 * std::f32::consts::PI * 440.0 * t).sin() * amplitude)
        })
        .collect();

    let rms = calculate_rms(&samples) as f32 / 1_000_000.0;
    let expected = amplitude / 2.0f32.sqrt();

    assert!((rms - expected).abs() < 0.01);
}

#[test]
fn test_frequency_to_midi_conversion() {
    assert_eq!(frequency_to_midi(440_000), 69);
    assert_eq!(frequency_to_midi(261_630), 60);
    assert_eq!(frequency_to_midi(880_000), 81);
    assert_eq!(frequency_to_midi(27_500), 21);
}

#[test]
fn test_midi_to_note_name() {
    assert_eq!(midi_to_note_name(60), "C4");
    assert_eq!(midi_to_note_name(69), "A4");
    assert_eq!(midi_to_note_name(61), "C#4");
    assert_eq!(midi_to_note_name(21), "A0");
    assert_eq!(midi_to_note_name(108), "C8");
}

#[test]
fn test_buffer_too_small() {
    let samples = vec![500_000; 100];
    let params = YinParams::default();

    let result = detect_pitch_yin(&samples, &params);

    assert!(result.is_none(), "Should return None for buffer too small");
}

#[test]
fn note_names_at_the_ends_of_the_range() {
    assert_eq!(midi_to_note_name(0), "C-1");
    assert_eq!(midi_to_note_name(11), "B-1");
    assert_eq!(midi_to_note_name(12), "C0");
    assert_eq!(midi_to_note_name(127), "G9");
    assert_eq!(midi_to_note_name(132), "C10");
    assert_eq!(midi_to_note_name(255), "D#20");
}

#[test]
fn default_yin_params() {
    let params = YinParams::default();
    assert_eq!(params.threshold, 100_000);
    assert_eq!(params.min_frequency, 27_500);
    assert_eq!(params.max_frequency, 4_186_000);
    assert_eq!(params.sample_rate, 44_100);
}

#[test]
fn lag_is_rounded_to_the_nearest_sample() {
    // 44100 / 4186 = 10.535, 44100 / 27.5 = 1603.6
    assert_eq!(lag(44_100, 4_186_000), 11);
    assert_eq!(lag(44_100, 27_500), 1604);
    assert_eq!(lag(44_100, 440_000), 100);
    // a half rounds upward: 3 / 2 = 1.5
    assert_eq!(lag(3, 2_000), 2);
    assert_eq!(lag(0, 1), 0);
}

#[test]
fn note_edges_lie_a_quarter_tone_below_the_note() {
    // the edge of A4 is 440 / 2^(1/24) = 427.4741 Hz
    assert!(!reaches(427_474, 69));
    assert!(reaches(427_475, 69));
    // the edge of A#4 is 440 * 2^(1/24) = 452.8930 Hz
    assert_eq!(frequency_to_midi(452_892), 69);
    assert_eq!(frequency_to_midi(452_893), 70);
    // the edge of C8 is 4066.842 Hz, that of A#0 is 28.30581 Hz
    assert_eq!(frequency_to_midi(4_066_841), 107);
    assert_eq!(frequency_to_midi(4_066_842), 108);
    assert_eq!(frequency_to_midi(28_305), 21);
    assert_eq!(frequency_to_midi(28_306), 22);
}

#[test]
fn notes_are_kept_within_the_piano() {
    assert_eq!(frequency_to_midi(0), 21);
    assert_eq!(frequency_to_midi(1), 21);
    assert_eq!(frequency_to_midi(20_000_000), 108);
    assert_eq!(frequency_to_midi(u64::MAX), 108);
}

#[test]
fn difference_function_sums_squared_differences() {
    let samples = vec![1, 3, 6, 10, 15, 21];
    // lag 1 over 3 samples: (1-3)^2 + (3-6)^2 + (6-10)^2
    assert_eq!(difference_at(&samples, 1, 3), 4 + 9 + 16);
    // lag 2 over 3 samples: (1-6)^2 + (3-10)^2 + (6-15)^2
    assert_eq!(difference_at(&samples, 2, 3), 25 + 49 + 81);
    assert_eq!(difference_at(&samples, 0, 3), 0);
    assert_eq!(difference_at(&[i32::MIN, i32::MAX], 1, 1), (u32::MAX as u128) * (u32::MAX as u128));
}

#[test]
fn normalized_difference_divides_by_the_running_mean() {
    let samples = vec![1, 3, 6, 10, 15, 21];
    let cmnd = normalized_difference(&samples, 3);
    // d(1) = 29, d(2) = 155: 29 / (29 / 1) and 155 / ((29 + 155) / 2)
    assert_eq!(cmnd, vec![1_000_000, 1_000_000, 155 * 2 * 1_000_000 / 184]);
    // a constant signal has no differences: every score stays at 1
    assert_eq!(normalized_difference(&[7; 8], 4), vec![1_000_000; 4]);
    assert_eq!(normalized_difference(&[], 0), Vec::<u64>::new());
}

#[test]
fn threshold_search_descends_to_the_local_minimum() {
    let cmnd = vec![1_000_000, 900_000, 90_000, 50_000, 20_000, 30_000, 10_000, 500_000];
    // the first score below 0.1 is at lag 2; the descent ends at lag 4
    assert_eq!(absolute_threshold(&cmnd, 1, 8, 100_000), Some(4));
    // a search that starts beyond it finds the next dip
    assert_eq!(absolute_threshold(&cmnd, 5, 8, 100_000), Some(6));
    // the descent stops at the end of the range
    assert_eq!(absolute_threshold(&cmnd, 1, 4, 100_000), Some(3));
    // no score below the threshold, and an empty range
    assert_eq!(absolute_threshold(&cmnd, 1, 8, 10_000), None);
    assert_eq!(absolute_threshold(&cmnd, 4, 4, 100_000), None);
    assert_eq!(absolute_threshold(&cmnd, 6, 3, 100_000), None);
}

#[test]
fn lag_is_refined_to_the_vertex_of_the_parabola() {
    // curvature 30 + 20 - 2 * 10 = 30: lag 2 + (30 - 20) / (2 * 30) = 13 / 6
    let cmnd = vec![1_000_000, 30, 10, 20];
    assert_eq!(frequency_from_lag(&cmnd, 2, 44_100), 44_100_000 * 60 / 130);
    // a symmetric dip leaves the lag as it is
    assert_eq!(frequency_from_lag(&[9, 5, 1, 5], 2, 48_000), 24_000_000);
    // away from a dip the vertex lies farther off: curvature 1 + 7 - 2 * 5 = -2,
    // lag 2 + (1 - 7) / (2 * -2) = 3.5
    assert_eq!(frequency_from_lag(&[9, 1, 5, 7], 2, 48_000), 48_000_000 * 2 / 7);
    // rising scores that bend upward: curvature 2, lag 2 + (3 - 9) / 4 = 0.5
    assert_eq!(frequency_from_lag(&[0, 3, 5, 9], 2, 48_000), 96_000_000);
}

#[test]
fn lag_is_left_where_there_is_no_vertex_to_take() {
    // three scores on one line have no vertex
    assert_eq!(frequency_from_lag(&[9, 5, 5, 5], 2, 48_000), 24_000_000);
    assert_eq!(frequency_from_lag(&[9, 2, 4, 6], 2, 48_000), 24_000_000);
    // the last lag has no successor
    assert_eq!(frequency_from_lag(&[9, 5, 1], 2, 48_000), 24_000_000);
    // a vertex at a lag of 0 or below: curvature 10, lag 1 + (0 - 30) / 20 = -0.5
    assert_eq!(frequency_from_lag(&[0, 10, 30], 1, 48_000), 48_000_000);
    assert_eq!(frequency_from_lag(&[0, 10, 40], 1, 48_000), 48_000_000);
    // a vertex whose frequency is below a millihertz: curvature -1,
    // lag 1 + (2000000 - 3) / 2 = 999999.5 at 1 Hz
    assert_eq!(frequency_from_lag(&[2_000_000, 1_000_001, 3], 1, 1), 1_000);
    // the same scores at 1000 Hz have it: 1000000 / 999999.5 mHz
    assert_eq!(frequency_from_lag(&[2_000_000, 1_000_001, 3], 1, 1_000), 1);
}

#[test]
fn pitch_just_above_the_highest_frequency_is_heard() {
    // the period is 10.4 samples, below the first lag of the search, 11: the
    // vertex at lag 11 lies where the period is
    for frequency in [4220.0f32, 4240.0, 4260.0] {
        let samples = generate_sine_wave(frequency, 44100, 4096);
        let result = detect_pitch_yin(&samples, &YinParams::default()).unwrap();
        assert!((hertz(&result) - frequency as f64).abs() < 10.0, "{} Hz", hertz(&result));
        assert_eq!(result.midi_note, 108);
    }
}

#[test]
fn pitch_needs_a_lag_range_that_fits() {
    let samples = generate_sine_wave(440.0, 44100, 4096);
    // 20 Hz has a lag of 2205 samples, beyond half of 4096
    let mut params = YinParams::default();
    params.min_frequency = 20_000;
    assert!(detect_pitch_yin(&samples, &params).is_none());
    // a frequency bound of 0 has no lag
    let mut params = YinParams::default();
    params.min_frequency = 0;
    assert!(detect_pitch_yin(&samples, &params).is_none());
    let mut params = YinParams::default();
    params.max_frequency = 0;
    assert!(detect_pitch_yin(&samples, &params).is_none());
    // an empty range of lags
    let mut params = YinParams::default();
    params.max_frequency = 27_500;
    assert!(detect_pitch_yin(&samples, &params).is_none());
}

#[test]
fn pitch_reports_the_level_of_the_whole_buffer() {
    let samples = generate_sine_wave(440.0, 44100, 4096);
    let result = detect_pitch_yin(&samples, &YinParams::default()).unwrap();
    assert_eq!(result.rms_level, calculate_rms(&samples));
    assert!((result.rms_level as f64 / 1e6 - 0.7071).abs() < 0.01);
    assert!(result.confidence <= 1_000_000);
}

#[test]
fn quiet_buffer_is_silence() {
    // a tone of amplitude 0.01 has an RMS level of 0.007, below the threshold of 0.01
    let samples: Vec<i32> = generate_sine_wave(440.0, 44100, 4096).iter().map(|s| s / 100).collect();
    assert!(detect_pitch_yin(&samples, &YinParams::default()).is_none());
    // at amplitude 0.02 it is heard
    let samples: Vec<i32> = generate_sine_wave(440.0, 44100, 4096).iter().map(|s| s / 50).collect();
    assert_eq!(detect_pitch_yin(&samples, &YinParams::default()).unwrap().midi_note, 69);
}

#[test]
fn cents_above_a4_are_rounded_down() {
    assert_eq!(frequency_to_cents(440_000), 0);
    assert_eq!(frequency_to_cents(439_999), -1);
    assert_eq!(frequency_to_cents(880_000), 1200);
    assert_eq!(frequency_to_cents(879_999), 1199);
    assert_eq!(frequency_to_cents(220_000), -1200);
    assert_eq!(frequency_to_cents(27_500), -4800);
    // one cent is a factor of 1.00057779: 440.2542 Hz, and 440 / 1.00057779 = 439.7459 Hz
    assert_eq!(frequency_to_cents(440_254), 0);
    assert_eq!(frequency_to_cents(440_255), 1);
    assert_eq!(frequency_to_cents(439_745), -2);
    assert_eq!(frequency_to_cents(439_746), -1);
    // C4 at 261.6256 Hz lies 900 cents below A4
    assert_eq!(frequency_to_cents(261_625), -901);
    assert_eq!(frequency_to_cents(261_626), -900);
    // a fifth above A4 at 659.2551 Hz: three halves are 701.955 cents
    assert_eq!(frequency_to_cents(660_000), 701);
}

#[test]
fn cents_at_the_ends_of_the_range() {
    // 1200 log2(0.001 / 440) = -22496.6 and 1200 log2(2^64 / 440000) = 54303.5
    assert_eq!(frequency_to_cents(1), -22497);
    assert_eq!(frequency_to_cents(2), -21297);
    assert_eq!(frequency_to_cents(u64::MAX), 54303);
    assert_eq!(frequency_to_cents(0), -24001);
}

#[test]
fn cents_offset_is_measured_from_the_note() {
    let samples = generate_sine_wave(261.63, 44100, 4096);
    let result = detect_pitch_yin(&samples, &YinParams::default()).unwrap();
    assert_eq!(
        result.cents_offset,
        frequency_to_cents(result.frequency) - 100 * (result.midi_note as i32 - 69)
    );
    assert!(-50 <= result.cents_offset && result.cents_offset < 50);
}

#[test]
fn every_note_of_the_piano_is_heard() {
    for note in 21..=108u8 {
        let frequency = 440.0 * 2f64.powf((note as f64 - 69.0) / 12.0);
        let samples = generate_sine_wave(frequency as f32, 44100, 4096);
        let result = detect_pitch_yin(&samples, &YinParams::default()).unwrap();
        assert_eq!(result.midi_note, note, "note {} at {} Hz", note, frequency);
        assert!(result.cents_offset.abs() <= 30, "note {}: {} cents", note, result.cents_offset);
        assert_eq!(midi_to_note_name(result.midi_note), midi_to_note_name(note));
    }
}
