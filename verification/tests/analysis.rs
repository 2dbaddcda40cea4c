use rust_audio_engine::analysis::analyze_recording;
use rust_audio_engine::dynamics::{analyze_dynamics, onsets_are_in_order};
use rust_audio_engine::level::calculate_rms;
use rust_audio_engine::onset::{detect_onsets, frames_are_rectangular, OnsetEvent, OnsetParams};
use rust_audio_engine::pitch::{detect_pitch_yin, YinParams};

fn sine_wave(frequency: f64, sample_rate: u32, num_samples: usize) -> Vec<i32> {
    (0..num_samples)
        .map(|i| {
            let t = i as f64 / sample_rate as f64;
            ((2.0 * std::f64::consts::PI * frequency * t).sin() * 1_000_000.0).round() as i32
        })
        .collect()
}

/// Spectra of one bin whose flux peaks at the indices 5 and 20.
fn two_peaks() -> Vec<Vec<u32>> {
    let mut magnitude = 0;
    (0..31)
        .map(|frame| {
            if frame == 6 || frame == 21 {
                magnitude += 400_000;
            }
            vec![magnitude]
        })
        .collect()
}

#[test]
fn recording_is_analysed_with_the_default_parameters() {
    let samples = sine_wave(440.0, 44100, 8192);
    let frames = two_peaks();
    let analysis = analyze_recording(&samples, &frames, 44100);

    assert_eq!(analysis.pitch, detect_pitch_yin(&samples, &YinParams::default()));
    assert_eq!(analysis.pitch.unwrap().midi_note, 69);

    assert_eq!(analysis.onsets, detect_onsets(&samples, &frames, &OnsetParams::default()));
    // frames 5 and 20 begin at 1280 / 44100 s and 5120 / 44100 s
    assert_eq!(
        analysis.onsets,
        vec![
            OnsetEvent {
                timestamp: 29_024,
                sample_index: 1280,
                strength: 400_000,
                confidence: 1_000_000
            },
            OnsetEvent {
                timestamp: 116_099,
                sample_index: 5120,
                strength: 400_000,
                confidence: 1_000_000
            },
        ]
    );

    assert_eq!(analysis.dynamics, analyze_dynamics(&samples, &analysis.onsets, 44100));
    assert_eq!(analysis.dynamics.len(), 2);
    assert_eq!(analysis.dynamics[0].timestamp, 29_024);
    assert_eq!(analysis.dynamics[0].rms_level, calculate_rms(&samples[1280..5120]));
    assert_eq!(analysis.dynamics[1].rms_level, calculate_rms(&samples[5120..]));
    // a sine at full scale has a level of -3.01 dB: (57 / 60) * 127 = 120.65
    assert_eq!(analysis.dynamics[0].db_level, -30);
    assert_eq!(analysis.dynamics[0].midi_velocity, 121);
    assert_eq!(analysis.dynamics[0].peak_level, 1_000_000);
}

#[test]
fn recording_at_another_sample_rate() {
    // at 22050 Hz the same samples sound an octave lower, and the frames are twice as long
    let samples = sine_wave(440.0, 44100, 8192);
    let analysis = analyze_recording(&samples, &two_peaks(), 22050);
    assert_eq!(analysis.pitch.unwrap().midi_note, 57);
    let times: Vec<u64> = analysis.onsets.iter().map(|o| o.timestamp).collect();
    assert_eq!(times, vec![58_049, 232_199]);
}

#[test]
fn silent_recording_holds_nothing() {
    let samples = vec![0; 8192];
    let analysis = analyze_recording(&samples, &two_peaks(), 44100);
    assert_eq!(analysis.pitch, None);
    assert!(analysis.onsets.is_empty());
    assert!(analysis.dynamics.is_empty());
}

#[test]
fn detected_onsets_are_in_order() {
    let samples = sine_wave(440.0, 44100, 8192);
    let onsets = detect_onsets(&samples, &two_peaks(), &OnsetParams::default());
    assert_eq!(onsets.len(), 2);
    assert!(onsets_are_in_order(&onsets, samples.len()));
}

#[test]
fn onsets_out_of_order_or_out_of_range_are_told() {
    let onset = |sample_index: usize| OnsetEvent {
        timestamp: 0,
        sample_index,
        strength: 0,
        confidence: 0,
    };
    assert!(onsets_are_in_order(&[], 0));
    assert!(onsets_are_in_order(&[onset(0), onset(0), onset(7)], 7));
    assert!(!onsets_are_in_order(&[onset(0), onset(8)], 7));
    assert!(!onsets_are_in_order(&[onset(5), onset(4)], 7));
    assert!(!onsets_are_in_order(&[onset(1)], 0));
}

#[test]
fn spectra_of_unequal_length_are_told() {
    assert!(frames_are_rectangular(&[]));
    assert!(frames_are_rectangular(&[vec![1, 2], vec![3, 4]]));
    assert!(!frames_are_rectangular(&[vec![1, 2], vec![3]]));
    assert!(!frames_are_rectangular(&[vec![], vec![3]]));
}
