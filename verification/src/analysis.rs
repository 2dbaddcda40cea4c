//! The analysis of one recording: its pitch, its onsets and the loudness of
//! each note, with the parameters at their defaults.

use vstd::prelude::*;
use crate::dynamics::{
    analyze_dynamics,
    is_dynamics_of,
    lemma_detected_onsets_are_in_order,
    DynamicsEvent,
};
use crate::onset::{
    are_onsets_at,
    detect_onsets,
    flux_of,
    onsets_of,
    rectangular,
    well_spaced,
    OnsetEvent,
    OnsetParams,
};
use crate::pitch::{detect_pitch_yin, is_pitch_at, pitch_lag, PitchResult, YinParams};

verus! {

/// What the analysis finds in one recording.
#[derive(Debug, PartialEq, Eq)]
pub struct PerformanceAnalysis {
    /// The pitch of the recording, where it has one.
    pub pitch: Option<PitchResult>,
    /// The onsets of its notes, in order of time.
    pub onsets: Vec<OnsetEvent>,
    /// The loudness of each note, one event for each onset.
    pub dynamics: Vec<DynamicsEvent>,
}

/// The default pitch parameters at `sample_rate`.
pub open spec fn pitch_params_at(sample_rate: u32) -> YinParams {
    YinParams {
        threshold: 100_000,
        min_frequency: 27_500,
        max_frequency: 4_186_000,
        sample_rate,
    }
}

/// The default onset parameters at `sample_rate`.
pub open spec fn onset_params_at(sample_rate: u32) -> OnsetParams {
    OnsetParams {
        hop_size: 256,
        fft_size: 512,
        threshold: 300_000,
        min_inter_onset: 50_000,
        energy_threshold: 10_000,
        sample_rate,
    }
}

/// Analyses one recording with the default parameters at its sample rate:
/// the pitch of the buffer, the onsets in it, and the loudness from each
/// onset to the next. `frames` holds the magnitude spectra of the frames of
/// 512 samples that begin every 256 samples.
pub fn analyze_recording(samples: &[i32], frames: &[Vec<u32>], sample_rate: u32) -> (analysis:
    PerformanceAnalysis)
    requires
        rectangular(frames@),
    ensures
        match analysis.pitch {
            None => pitch_lag(samples@, pitch_params_at(sample_rate)).is_none(),
            Some(result) => pitch_lag(samples@, pitch_params_at(sample_rate)).is_some()
                && is_pitch_at(
                samples@,
                pitch_params_at(sample_rate),
                pitch_lag(samples@, pitch_params_at(sample_rate)).unwrap(),
                result,
            ),
        },
        are_onsets_at(
            analysis.onsets@,
            flux_of(frames@),
            onset_params_at(sample_rate),
            onsets_of(samples@, frames@, onset_params_at(sample_rate)),
            flux_of(frames@).len() as int,
        ),
        well_spaced(analysis.onsets@, 50_000),
        analysis.dynamics.len() == analysis.onsets.len(),
        forall|i: int|
            0 <= i < analysis.dynamics.len() ==> is_dynamics_of(
                #[trigger] analysis.dynamics[i],
                samples@,
                analysis.onsets@,
                i,
            ),
{
    let mut yin = YinParams::default();
    yin.sample_rate = sample_rate;
    let mut tuned = OnsetParams::default();
    tuned.sample_rate = sample_rate;
    let pitch = detect_pitch_yin(samples, &yin);
    let onsets = detect_onsets(samples, frames, &tuned);
    proof {
        lemma_detected_onsets_are_in_order(onsets@, tuned.min_inter_onset, samples.len() as int);
    }
    let dynamics = analyze_dynamics(samples, onsets.as_slice(), sample_rate);
    PerformanceAnalysis { pitch, onsets, dynamics }
}

} // verus!
