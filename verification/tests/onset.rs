use realfft::RealFftPlanner;
use rust_audio_engine::onset::{
    calculate_onset_confidence, detect_onsets, energy_envelope, frame_count, spectral_flux,
    OnsetEvent, OnsetParams,
};
use rustfft::num_complex::Complex;

/// One amplitude in millionths of full scale.
fn to_fixed(x: f32) -> i32 {
    (x as f64 * 1_000_000.0).round() as i32
}

fn hann_window(size: usize) -> Vec<f32> {
    (0..size)
        .map(|n| {
            let angle = 2.0 * std::f32::consts::PI * n as f32 / (size - 1) as f32;
            0.5 * (1.0 - angle.cos())
        })
        .collect()
}

/// The magnitude spectra of the Hann-windowed frames, in millionths.
fn magnitude_spectra(samples: &[i32], fft_size: usize, hop_size: usize) -> Vec<Vec<u32>> {
    let mut planner = RealFftPlanner::<f32>::new();
    let r2c = planner.plan_fft_forward(fft_size);
    let window = hann_window(fft_size);
    let mut frames = Vec::new();
    for frame_idx in 0..frame_count(samples.len(), fft_size, hop_size) {
        let start = frame_idx * hop_size;
        let mut windowed: Vec<f32> = samples[start..start + fft_size]
            .iter()
            .zip(window.iter())
            .map(|(&s, &w)| s as f32 / 1_000_000.0 * w)
            .collect();
        let mut spectrum: Vec<Complex<f32>> = r2c.make_output_vec();
        r2c.process(&mut windowed, &mut spectrum).unwrap();
        frames.push(
            spectrum
                .iter()
                .map(|c| (c.norm() as f64 * 1_000_000.0).round() as u32)
                .collect(),
        );
    }
    frames
}

fn generate_click_train(click_times: &[f64], sample_rate: u32, duration: f64) -> Vec<i32> {
    let num_samples = (sample_rate as f64 * duration) as usize;
    let mut samples = vec![0; num_samples];

    for &time in click_times {
        let sample_idx = (time * sample_rate as f64) as usize;
        if sample_idx < num_samples {
            for offset in 0..100 {
                if sample_idx + offset < num_samples {
                    let decay = (-(offset as f32) / 20.0).exp();
                    samples[sample_idx + offset] = to_fixed(0.8 * decay);
                }
            }
        }
    }

    samples
}

#[test]
fn test_no_onsets_in_silence() {
    let samples = vec![0; 44100];
    let params = OnsetParams::default();
    let frames = magnitude_spectra(&samples, params.fft_size, params.hop_size);

    let onsets = detect_onsets(&samples, &frames, &params);

    assert!(onsets.is_empty(), "Should not detect onsets in silence");
}

#[test]
fn test_minimum_inter_onset_interval() {
    let samples = generate_click_train(&[0.5, 0.52], 44100, 1.0);
    let mut params = OnsetParams::default();
    params.min_inter_onset = 50_000;
    let frames = magnitude_spectra(&samples, params.fft_size, params.hop_size);

    let onsets = detect_onsets(&samples, &frames, &params);

    assert!(onsets.len() <= 1, "Should not detect onsets closer than min interval");
}

#[test]
fn silence_has_no_onsets_whatever_the_spectra() {
    let samples = vec![0; 64];
    let frames: Vec<Vec<u32>> = [0u32, 5, 90, 5, 80, 0, 70, 0].iter().map(|&m| vec![m]).collect();
    let params = OnsetParams {
        hop_size: 4,
        fft_size: 4,
        threshold: 0,
        min_inter_onset: 0,
        energy_threshold: 0,
        sample_rate: 4,
    };
    assert!(detect_onsets(&samples, &frames, &params).is_empty());
}

#[test]
fn default_onset_params() {
    let params = OnsetParams::default();
    assert_eq!(params.hop_size, 256);
    assert_eq!(params.fft_size, 512);
    assert_eq!(params.threshold, 300_000);
    assert_eq!(params.min_inter_onset, 50_000);
    assert_eq!(params.energy_threshold, 10_000);
    assert_eq!(params.sample_rate, 44_100);
}

#[test]
fn frames_are_counted_whole() {
    assert_eq!(frame_count(44100, 512, 256), 171);
    assert_eq!(frame_count(512, 512, 256), 1);
    assert_eq!(frame_count(511, 512, 256), 0);
    assert_eq!(frame_count(767, 512, 256), 1);
    assert_eq!(frame_count(768, 512, 256), 2);
    assert_eq!(frame_count(768, 512, 0), 0);
    assert_eq!(frame_count(usize::MAX, 0, 1), usize::MAX);
}

#[test]
fn flux_sums_the_rises_of_all_bins() {
    let frames = vec![vec![1, 5, 3], vec![4, 2, 3], vec![4, 10, 0]];
    assert_eq!(spectral_flux(&frames), vec![3, 8]);
    assert_eq!(spectral_flux(&frames[..1]), Vec::<u64>::new());
    assert_eq!(spectral_flux(&[]), Vec::<u64>::new());
    let frames = vec![vec![0, 0], vec![u32::MAX, u32::MAX]];
    assert_eq!(spectral_flux(&frames), vec![2 * u32::MAX as u64]);
}

#[test]
fn energy_is_the_level_of_each_whole_hop() {
    // sqrt((9 + 16) / 2) = 3.5, sqrt((25 + 25) / 2) = 5; the last sample fills no hop
    assert_eq!(energy_envelope(&[3, 4, 0, 0, 5, -5, 7], 2), vec![3, 0, 5]);
    assert_eq!(energy_envelope(&[3, 4], 3), Vec::<u32>::new());
    assert_eq!(energy_envelope(&[-6, 6, -6], 1), vec![6, 6, 6]);
}

#[test]
fn confidence_is_relative_to_the_largest_flux_nearby() {
    let mut flux = vec![0u64; 30];
    flux[4] = 40;
    flux[15] = 10;
    flux[26] = 80;
    // around index 15 the window is 5..=25: the largest value in it is 10
    assert_eq!(calculate_onset_confidence(10, &flux, 15), 1_000_000);
    assert_eq!(calculate_onset_confidence(5, &flux, 15), 500_000);
    assert_eq!(calculate_onset_confidence(1, &flux, 15), 100_000);
    // around index 14 the window is 4..=24 and holds the 40
    assert_eq!(calculate_onset_confidence(10, &flux, 14), 250_000);
    // around index 16 the window is 6..=26 and holds the 80
    assert_eq!(calculate_onset_confidence(10, &flux, 16), 125_000);
    // a value above the largest counts as 1, and a flat window as 0
    assert_eq!(calculate_onset_confidence(100, &flux, 15), 1_000_000);
    assert_eq!(calculate_onset_confidence(10, &[0, 0, 0], 1), 0);
    assert_eq!(calculate_onset_confidence(10, &flux, 1000), 0);
}

#[test]
fn confidence_window_reaches_ten_frames_each_way() {
    // the tenth frame after the index belongs to the window, the eleventh does not
    let flux = [1, 0, 0, 0, 0, 0, 0, 0, 0, 0, 2];
    assert_eq!(calculate_onset_confidence(1, &flux, 0), 500_000);
    let flux = [1, 0, 0, 0, 0, 0, 0, 0, 0, 0, 0, 2];
    assert_eq!(calculate_onset_confidence(1, &flux, 0), 1_000_000);
    // and so the tenth before it, but not the eleventh
    let flux = [2, 0, 0, 0, 0, 0, 0, 0, 0, 0, 1];
    assert_eq!(calculate_onset_confidence(1, &flux, 10), 500_000);
    let flux = [2, 0, 0, 0, 0, 0, 0, 0, 0, 0, 0, 1];
    assert_eq!(calculate_onset_confidence(1, &flux, 11), 1_000_000);
}

#[test]
fn confidence_is_rounded_up() {
    assert_eq!(calculate_onset_confidence(1, &[3], 0), 333_334);
    assert_eq!(calculate_onset_confidence(2, &[3], 0), 666_667);
    // a value above 0 never has a confidence of 0
    assert_eq!(calculate_onset_confidence(1, &[0, 1, 0, 2_000_000, 0], 1), 1);
    assert_eq!(calculate_onset_confidence(1, &[u64::MAX], 0), 1);
    assert_eq!(calculate_onset_confidence(0, &[3], 0), 0);
    assert_eq!(calculate_onset_confidence(u64::MAX - 1, &[u64::MAX], 0), 1_000_000);
}

#[test]
fn onsets_in_one_microsecond_are_told_apart_by_the_first() {
    // hops of one sample at 4 MHz: four frames in each microsecond
    let magnitudes = [0, 0, 9, 9, 18, 18, 27, 27, 36, 36];
    let samples = vec![500_000; magnitudes.len()];
    let frames: Vec<Vec<u32>> = magnitudes.iter().map(|&m| vec![m]).collect();
    let params = OnsetParams {
        hop_size: 1,
        fft_size: 1,
        threshold: 1,
        min_inter_onset: 0,
        energy_threshold: 0,
        sample_rate: 4_000_000,
    };
    // candidates at the frames 1, 3, 5, 7: 0.25, 0.75, 1.25 and 1.75 microseconds
    let onsets = detect_onsets(&samples, &frames, &params);
    let at: Vec<(u64, usize)> = onsets.iter().map(|o| (o.timestamp, o.sample_index)).collect();
    assert_eq!(at, vec![(0, 1), (1, 5)]);
    for pair in onsets.windows(2) {
        assert!(pair[0].timestamp < pair[1].timestamp);
    }
    for onset in &onsets {
        assert!(onset.confidence > 0 && onset.confidence <= 1_000_000);
        assert!(onset.strength > params.threshold);
    }
}

/// One frame each second, each of one bin, over a signal of constant level.
fn one_second_hops(magnitudes: &[u32]) -> (Vec<i32>, Vec<Vec<u32>>, OnsetParams) {
    let samples = vec![500_000; 4 * magnitudes.len()];
    let frames = magnitudes.iter().map(|&m| vec![m]).collect();
    let params = OnsetParams {
        hop_size: 4,
        fft_size: 4,
        threshold: 1,
        min_inter_onset: 3_000_000,
        energy_threshold: 10_000,
        sample_rate: 4,
    };
    (samples, frames, params)
}

#[test]
fn candidates_too_soon_after_an_onset_are_dropped() {
    // flux: 1 0 9 0 2 0 18 0 1 0
    let (samples, frames, params) = one_second_hops(&[0, 1, 1, 10, 10, 12, 12, 30, 30, 31, 31]);
    let onsets = detect_onsets(&samples, &frames, &params);
    assert_eq!(
        onsets,
        vec![
            OnsetEvent { timestamp: 2_000_000, sample_index: 8, strength: 9, confidence: 500_000 },
            OnsetEvent {
                timestamp: 6_000_000,
                sample_index: 24,
                strength: 18,
                confidence: 1_000_000
            },
        ]
    );
    // an interval of exactly the minimum is enough
    let mut close = params;
    close.min_inter_onset = 2_000_000;
    let onsets = detect_onsets(&samples, &frames, &close);
    let at: Vec<usize> = onsets.iter().map(|o| o.sample_index).collect();
    assert_eq!(at, vec![8, 16, 24]);
    // the threshold is strict: a flux of 2 does not exceed 2
    close.threshold = 2;
    let onsets = detect_onsets(&samples, &frames, &close);
    let at: Vec<usize> = onsets.iter().map(|o| o.sample_index).collect();
    assert_eq!(at, vec![8, 24]);
}

#[test]
fn two_candidates_20_ms_apart_leave_one_onset() {
    // hops of 10 ms: candidates at 20 ms and 40 ms, 50 ms required between onsets
    let magnitudes = [0, 0, 0, 50, 50, 90, 90, 90];
    let samples = vec![500_000; 10 * magnitudes.len()];
    let frames: Vec<Vec<u32>> = magnitudes.iter().map(|&m| vec![m]).collect();
    let params = OnsetParams {
        hop_size: 10,
        fft_size: 10,
        threshold: 1,
        min_inter_onset: 50_000,
        energy_threshold: 10_000,
        sample_rate: 1000,
    };
    let onsets = detect_onsets(&samples, &frames, &params);
    assert_eq!(onsets.len(), 1);
    assert_eq!(onsets[0].timestamp, 20_000);
    assert_eq!(onsets[0].sample_index, 20);
}

#[test]
fn flat_peaks_are_missed() {
    // flux: 0 7 7 0 0: neither 7 is above both neighbours
    let (samples, frames, params) = one_second_hops(&[0, 0, 7, 14, 14, 14]);
    assert!(detect_onsets(&samples, &frames, &params).is_empty());
    // the first and the last flux value are never onsets
    let (samples, frames, params) = one_second_hops(&[0, 9, 9, 9, 18]);
    assert!(detect_onsets(&samples, &frames, &params).is_empty());
}

#[test]
fn quiet_hops_hold_no_onset() {
    let (mut samples, frames, params) = one_second_hops(&[0, 1, 1, 10, 10, 12, 12, 30, 30, 31, 31]);
    // hop 2 at a level of exactly the threshold, which it must exceed
    for s in &mut samples[8..12] {
        *s = 10_000;
    }
    let onsets = detect_onsets(&samples, &frames, &params);
    let at: Vec<usize> = onsets.iter().map(|o| o.sample_index).collect();
    // the candidate at sample 16 takes its place, and that at 24 is then too soon
    assert_eq!(at, vec![16]);
    // one unit louder and the hop holds its onset again
    for s in &mut samples[8..12] {
        *s = 10_001;
    }
    let onsets = detect_onsets(&samples, &frames, &params);
    let at: Vec<usize> = onsets.iter().map(|o| o.sample_index).collect();
    assert_eq!(at, vec![8, 24]);
}

#[test]
fn onsets_need_a_whole_frame_and_sound_parameters() {
    let (samples, frames, params) = one_second_hops(&[0, 1, 1, 10, 10, 12, 12, 30, 30, 31, 31]);
    let mut long_frame = params;
    long_frame.fft_size = samples.len() + 1;
    assert!(detect_onsets(&samples, &frames, &long_frame).is_empty());
    let mut no_hop = params;
    no_hop.hop_size = 0;
    assert!(detect_onsets(&samples, &frames, &no_hop).is_empty());
    let mut no_rate = params;
    no_rate.sample_rate = 0;
    assert!(detect_onsets(&samples, &frames, &no_rate).is_empty());
    assert!(detect_onsets(&samples, &[], &params).is_empty());
    // more spectra than hops: a flux index beyond the energy envelope is no onset
    assert!(detect_onsets(&samples[..8], &frames, &params).is_empty());
}

#[test]
fn timestamps_are_rounded_down_to_a_microsecond() {
    // hops of 3 samples at 7 Hz: frame 2 begins at 6 / 7 s = 857142.86 us
    let magnitudes = [0, 0, 0, 9, 9];
    let samples = vec![500_000; 15];
    let frames: Vec<Vec<u32>> = magnitudes.iter().map(|&m| vec![m]).collect();
    let params = OnsetParams {
        hop_size: 3,
        fft_size: 3,
        threshold: 1,
        min_inter_onset: 0,
        energy_threshold: 0,
        sample_rate: 7,
    };
    let onsets = detect_onsets(&samples, &frames, &params);
    assert_eq!(onsets.len(), 1);
    assert_eq!(onsets[0].timestamp, 857_142);
    assert_eq!(onsets[0].sample_index, 6);
    assert_eq!(onsets[0].strength, 9);
}
