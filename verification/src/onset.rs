//! Note onsets: peaks of the spectral flux between successive magnitude
//! spectra, gated by the energy of the signal and kept a minimum time apart.
//!
//! The caller transforms the windowed frames of the buffer and hands their
//! magnitude spectra in. Frame `i` begins at sample `i * hop_size`; the flux
//! at index `i` is the rise from frame `i` to frame `i + 1`.

use vstd::prelude::*;
use vstd::slice::slice_subrange;
use crate::fixed::{MICROS_PER_SECOND, RATIO_ONE};
use crate::level::{calculate_rms, is_constant, lemma_rms_of_silence, rms_of};
use crate::pitch::as_nats;

verus! {

/// The start of a note.
#[derive(Debug, Clone, Copy, PartialEq, Eq)]
pub struct OnsetEvent {
    /// Time from the start of the buffer, in microseconds.
    pub timestamp: u64,
    /// The sample at which the frame of the onset begins.
    pub sample_index: usize,
    /// The spectral flux at the onset.
    pub strength: u64,
    /// The flux relative to the largest within ten frames, in millionths and
    /// rounded up: above 0, and at most 1.
    pub confidence: u32,
}

/// What the onset detector is tuned to.
#[derive(Debug, Clone, Copy, PartialEq, Eq)]
pub struct OnsetParams {
    /// Samples from the start of one frame to the start of the next.
    pub hop_size: usize,
    /// Samples in a frame.
    pub fft_size: usize,
    /// The flux that an onset must exceed, in magnitude units.
    pub threshold: u64,
    /// The least time between two onsets, in microseconds.
    pub min_inter_onset: u64,
    /// The RMS level that a frame must exceed, in amplitude units.
    pub energy_threshold: u32,
    /// Samples per second.
    pub sample_rate: u32,
}

impl Default for OnsetParams {
    /// Frames of 512 samples every 256, a flux threshold of 0.3, onsets at
    /// least 50 ms apart, an energy gate of 0.01 of full scale, at 44100
    /// samples per second.
    fn default() -> (params: Self)
        ensures
            params == (OnsetParams {
                hop_size: 256,
                fft_size: 512,
                threshold: 300_000,
                min_inter_onset: 50_000,
                energy_threshold: 10_000,
                sample_rate: 44_100,
            }),
    {
        OnsetParams {
            hop_size: 256,
            fft_size: 512,
            threshold: 300_000,
            min_inter_onset: 50_000,
            energy_threshold: 10_000,
            sample_rate: 44_100,
        }
    }
}

/// The number of whole frames of `fft_size` samples, `hop_size` apart, in a
/// buffer of `len` samples.
pub open spec fn frame_count_of(len: nat, fft_size: nat, hop_size: nat) -> nat
    recommends
        hop_size > 0,
{
    if len < fft_size {
        0
    } else {
        ((len - fft_size) / hop_size as int + 1) as nat
    }
}

/// The number of whole frames in a buffer of `len` samples: 0 where the hop
/// is 0, and the largest `usize` where the count exceeds it.
pub fn frame_count(len: usize, fft_size: usize, hop_size: usize) -> (n: usize)
    ensures
        hop_size == 0 ==> n == 0,
        hop_size > 0 ==> n as nat == if frame_count_of(
            len as nat,
            fft_size as nat,
            hop_size as nat,
        ) > usize::MAX {
            usize::MAX as nat
        } else {
            frame_count_of(len as nat, fft_size as nat, hop_size as nat)
        },
{
    if hop_size == 0 || len < fft_size {
        0
    } else {
        let whole: usize = (len - fft_size) / hop_size;
        if whole == usize::MAX {
            usize::MAX
        } else {
            whole + 1
        }
    }
}

/// Every spectrum has as many bins as the first.
pub open spec fn rectangular(frames: Seq<Vec<u32>>) -> bool {
    forall|i: int| 0 <= i < frames.len() ==> (#[trigger] frames[i])@.len() == frames[0]@.len()
}

/// Whether every spectrum has as many bins as the first.
pub fn frames_are_rectangular(frames: &[Vec<u32>]) -> (r: bool)
    ensures
        r == rectangular(frames@),
{
    let mut i: usize = 0;
    while i < frames.len()
        invariant
            i <= frames.len(),
            forall|j: int| 0 <= j < i ==> (#[trigger] frames@[j])@.len() == frames@[0]@.len(),
        decreases frames.len() - i,
    {
        if frames[i].len() != frames[0].len() {
            return false;
        }
        i = i + 1;
    }
    true
}

/// How far bin `k` rose from `prev` to `cur`; 0 where it fell.
pub open spec fn bin_rise(cur: Seq<u32>, prev: Seq<u32>, k: int) -> nat {
    if cur[k] > prev[k] {
        (cur[k] - prev[k]) as nat
    } else {
        0
    }
}

/// The sum of the rises of the first `n` bins from `prev` to `cur`.
pub open spec fn rise(cur: Seq<u32>, prev: Seq<u32>, n: int) -> nat
    decreases n,
{
    if n <= 0 {
        0
    } else {
        rise(cur, prev, n - 1) + bin_rise(cur, prev, n - 1)
    }
}

/// A sum held in 64 bits: itself, or the largest value where it is beyond.
pub open spec fn saturated(v: nat) -> nat {
    if v > u64::MAX {
        u64::MAX as nat
    } else {
        v
    }
}

/// The spectral flux at index `i`: the summed rise of all bins from frame
/// `i` to frame `i + 1`.
pub open spec fn flux_at(frames: Seq<Vec<u32>>, i: int) -> nat {
    saturated(rise(frames[i + 1]@, frames[i]@, frames[i + 1]@.len() as int))
}

/// The flux sequence of the frames: one value fewer than there are frames.
pub open spec fn flux_of(frames: Seq<Vec<u32>>) -> Seq<nat> {
    Seq::new(
        if frames.len() < 2 {
            0
        } else {
            (frames.len() - 1) as nat
        },
        |i: int| flux_at(frames, i),
    )
}

proof fn lemma_rise_bound(cur: Seq<u32>, prev: Seq<u32>, n: int)
    requires
        0 <= n <= cur.len(),
        n <= prev.len(),
    ensures
        rise(cur, prev, n) <= n * 0x1_0000_0000,
    decreases n,
{
    if n > 0 {
        lemma_rise_bound(cur, prev, n - 1);
    }
}

/// The summed rise of all bins from `prev` to `cur`.
fn frame_rise(cur: &Vec<u32>, prev: &Vec<u32>) -> (r: u64)
    requires
        cur.len() <= prev.len(),
    ensures
        r as nat == saturated(rise(cur@, prev@, cur@.len() as int)),
{
    let mut sum: u128 = 0;
    let mut k: usize = 0;
    while k < cur.len()
        invariant
            k <= cur.len() <= prev.len(),
            sum as nat == rise(cur@, prev@, k as int),
        decreases cur.len() - k,
    {
        proof {
            lemma_rise_bound(cur@, prev@, k as int);
            assert(k * 0x1_0000_0000 <= 0x1_0000_0000_0000_0000 * 0x1_0000_0000) by (nonlinear_arith)
                requires
                    k <= 0x1_0000_0000_0000_0000,
            ;
        }
        if cur[k] > prev[k] {
            sum = sum + (cur[k] - prev[k]) as u128;
        }
        k = k + 1;
    }
    if sum > u64::MAX as u128 {
        u64::MAX
    } else {
        sum as u64
    }
}

/// The spectral flux between each frame and the next.
pub fn spectral_flux(frames: &[Vec<u32>]) -> (flux: Vec<u64>)
    requires
        rectangular(frames@),
    ensures
        as_nats(flux@) == flux_of(frames@),
{
    let mut flux: Vec<u64> = Vec::new();
    if frames.len() < 2 {
        proof {
            assert(as_nats(flux@) =~= flux_of(frames@));
        }
        return flux;
    }
    let mut i: usize = 1;
    while i < frames.len()
        invariant
            1 <= i <= frames.len(),
            rectangular(frames@),
            flux.len() == i - 1,
            forall|j: int| 0 <= j < i - 1 ==> flux[j] as nat == flux_at(frames@, j),
        decreases frames.len() - i,
    {
        assert(frames@[i as int]@.len() == frames@[0]@.len());
        assert(frames@[i as int - 1]@.len() == frames@[0]@.len());
        let r: u64 = frame_rise(&frames[i], &frames[i - 1]);
        flux.push(r);
        i = i + 1;
    }
    proof {
        assert(as_nats(flux@) =~= flux_of(frames@));
    }
    flux
}

/// The samples of hop `f`.
pub open spec fn hop_of(x: Seq<i32>, hop_size: int, f: int) -> Seq<i32> {
    x.subrange(f * hop_size, f * hop_size + hop_size)
}

/// The energy envelope: the RMS level of each whole hop of the buffer.
pub open spec fn energy_of(x: Seq<i32>, hop_size: nat) -> Seq<nat>
    recommends
        hop_size > 0,
{
    Seq::new(x.len() / hop_size, |f: int| rms_of(hop_of(x, hop_size as int, f)))
}

/// A sequence of levels as numbers.
pub open spec fn levels(e: Seq<u32>) -> Seq<nat> {
    Seq::new(e.len(), |i: int| e[i] as nat)
}

/// The RMS level of each whole hop of `hop_size` samples.
pub fn energy_envelope(samples: &[i32], hop_size: usize) -> (energy: Vec<u32>)
    requires
        hop_size > 0,
    ensures
        levels(energy@) == energy_of(samples@, hop_size as nat),
{
    let count: usize = samples.len() / hop_size;
    let mut energy: Vec<u32> = Vec::new();
    let mut f: usize = 0;
    while f < count
        invariant
            f <= count,
            hop_size > 0,
            count == samples.len() / hop_size,
            energy.len() == f,
            forall|j: int|
                0 <= j < f ==> energy[j] as nat == rms_of(hop_of(samples@, hop_size as int, j)),
        decreases count - f,
    {
        proof {
            assert((f + 1) * hop_size <= samples.len()) by (nonlinear_arith)
                requires
                    f + 1 <= count,
                    count as int == (samples.len() as int) / (hop_size as int),
                    hop_size > 0,
            ;
            assert((f + 1) * hop_size == f * hop_size + hop_size) by (nonlinear_arith);
            assert(f * hop_size >= 0) by (nonlinear_arith)
                requires
                    f >= 0,
                    hop_size > 0,
            ;
        }
        let start: usize = f * hop_size;
        let end: usize = start + hop_size;
        let level: u32 = calculate_rms(slice_subrange(samples, start, end));
        energy.push(level);
        f = f + 1;
    }
    proof {
        assert(levels(energy@) =~= energy_of(samples@, hop_size as nat));
    }
    energy
}

/// Frames on each side of an onset that its confidence is measured against.
pub const CONFIDENCE_REACH: usize = 10;

/// The largest of the values at `start..end`; 0 for an empty range.
pub open spec fn largest(flux: Seq<nat>, start: int, end: int) -> nat
    decreases end - start,
{
    if start >= end {
        0
    } else {
        let rest = largest(flux, start, end - 1);
        if flux[end - 1] > rest {
            flux[end - 1]
        } else {
            rest
        }
    }
}

/// Where the window around `index` starts.
pub open spec fn reach_start(index: int) -> int {
    if index < CONFIDENCE_REACH {
        0
    } else {
        index - CONFIDENCE_REACH
    }
}

/// Where the window around `index` ends, within `len` values: behind the
/// tenth value after `index`.
pub open spec fn reach_end(index: int, len: int) -> int {
    if index + CONFIDENCE_REACH < len {
        index + CONFIDENCE_REACH + 1
    } else {
        len
    }
}

/// `value` relative to `local_max`, in millionths, rounded up and at most 1;
/// 0 where `local_max` is 0. Rounded up, the ratio of a value above 0 is
/// above 0.
pub open spec fn ratio_of(value: nat, local_max: nat) -> nat {
    if local_max == 0 {
        0
    } else if value >= local_max {
        RATIO_ONE as nat
    } else {
        ((value * RATIO_ONE + local_max - 1) / local_max as int) as nat
    }
}

/// The confidence of an onset of strength `value` at `index`: `value`
/// relative to the largest flux from 10 frames before `index` to 10 after.
pub open spec fn onset_confidence_of(value: nat, flux: Seq<nat>, index: int) -> nat {
    ratio_of(value, largest(flux, reach_start(index), reach_end(index, flux.len() as int)))
}

/// The largest value of a range is at least each value in it.
proof fn lemma_largest_bounds(flux: Seq<nat>, start: int, end: int, k: int)
    requires
        start <= k < end,
    ensures
        largest(flux, start, end) >= flux[k],
    decreases end - start,
{
    if k < end - 1 {
        lemma_largest_bounds(flux, start, end - 1, k);
    }
}

/// The confidence of a value above 0 at an index whose flux is above 0 lies
/// above 0, and none lies above 1.
pub proof fn lemma_confidence_is_positive(value: nat, flux: Seq<nat>, index: int)
    requires
        value > 0,
        0 <= index < flux.len(),
        flux[index] > 0,
    ensures
        0 < onset_confidence_of(value, flux, index) <= RATIO_ONE,
{
    let start = reach_start(index);
    let end = reach_end(index, flux.len() as int);
    lemma_largest_bounds(flux, start, end, index);
    let m = largest(flux, start, end);
    if value < m {
        let r = (value * RATIO_ONE + m - 1) / (m as int);
        assert(0 < r <= 1_000_000) by (nonlinear_arith)
            requires
                0 < value < m,
                r == (value * 1_000_000 + m - 1) / (m as int),
        ;
    }
}

/// The confidence of an onset of strength `value` at `index` of the flux.
pub fn calculate_onset_confidence(value: u64, flux: &[u64], index: usize) -> (confidence: u32)
    ensures
        confidence as nat == onset_confidence_of(value as nat, as_nats(flux@), index as int),
        confidence <= RATIO_ONE,
        value > 0 && index < flux.len() && flux[index as int] > 0 ==> confidence > 0,
{
    let start: usize = if index < CONFIDENCE_REACH {
        0
    } else {
        index - CONFIDENCE_REACH
    };
    let end: usize = if index < flux.len() && flux.len() - index > CONFIDENCE_REACH {
        index + CONFIDENCE_REACH + 1
    } else {
        flux.len()
    };
    let ghost c = as_nats(flux@);
    proof {
        if value > 0 && index < flux.len() && flux[index as int] > 0 {
            assert(c[index as int] == flux[index as int] as nat);
            lemma_confidence_is_positive(value as nat, c, index as int);
        }
    }
    let mut local_max: u64 = 0;
    let mut i: usize = if start < end {
        start
    } else {
        end
    };
    while i < end
        invariant
            i <= end <= flux.len(),
            start < end ==> start <= i,
            start >= end ==> i == end,
            c == as_nats(flux@),
            local_max as nat == largest(c, start as int, i as int),
        decreases end - i,
    {
        assert(c[i as int] == flux[i as int] as nat);
        if flux[i] > local_max {
            local_max = flux[i];
        }
        i = i + 1;
    }
    if local_max == 0 {
        0
    } else if value >= local_max {
        RATIO_ONE
    } else {
        let scaled: u128 = value as u128 * RATIO_ONE as u128 + (local_max as u128 - 1);
        proof {
            assert((value * 1_000_000 + local_max - 1) / (local_max as int) <= 1_000_000)
                by (nonlinear_arith)
                requires
                    0 <= value < local_max,
            ;
        }
        (scaled / local_max as u128) as u32
    }
}

/// The time of sample `sample_index`, in microseconds and rounded down.
pub open spec fn timestamp_of(sample_index: nat, sample_rate: u32) -> nat
    recommends
        sample_rate > 0,
{
    saturated((sample_index * MICROS_PER_SECOND / sample_rate as int) as nat)
}

/// The time at which frame `i` begins.
pub open spec fn frame_time(params: OnsetParams, i: int) -> nat {
    timestamp_of((i * params.hop_size) as nat, params.sample_rate)
}

/// Flux index `i` is an onset candidate: an interior index whose flux is
/// above both neighbours and above the threshold, in a hop whose energy is
/// above its threshold.
pub open spec fn is_candidate(flux: Seq<nat>, energy: Seq<nat>, params: OnsetParams, i: int)
    -> bool {
    &&& 1 <= i < flux.len() - 1
    &&& flux[i] > flux[i - 1]
    &&& flux[i] > flux[i + 1]
    &&& flux[i] > params.threshold
    &&& i < energy.len()
    &&& energy[i] > params.energy_threshold
}

/// Frame `i` comes long enough after frame `last`: at least the minimum
/// interval later, and in a later microsecond.
pub open spec fn comes_after(params: OnsetParams, last: int, i: int) -> bool {
    &&& frame_time(params, i) - frame_time(params, last) >= params.min_inter_onset
    &&& frame_time(params, i) > frame_time(params, last)
}

/// The flux indices of the onsets among the indices below `n`: each
/// candidate that comes long enough after the onset before it. A candidate
/// that comes sooner is dropped.
pub open spec fn onset_frames(flux: Seq<nat>, energy: Seq<nat>, params: OnsetParams, n: int)
    -> Seq<int>
    decreases n,
{
    if n <= 0 {
        Seq::empty()
    } else {
        let before = onset_frames(flux, energy, params, n - 1);
        if is_candidate(flux, energy, params, n - 1) && (before.len() == 0 || comes_after(
            params,
            before.last(),
            n - 1,
        )) {
            before.push(n - 1)
        } else {
            before
        }
    }
}

/// `event` is the onset at flux index `i`.
pub open spec fn is_onset_at(event: OnsetEvent, flux: Seq<nat>, params: OnsetParams, i: int)
    -> bool {
    &&& event.timestamp as nat == frame_time(params, i)
    &&& event.sample_index as int == i * params.hop_size
    &&& event.strength as nat == flux[i]
    &&& event.confidence as nat == onset_confidence_of(flux[i], flux, i)
}

/// The flux indices of the onsets of a buffer: none where the buffer is
/// shorter than a frame, or the hop or the sample rate is 0.
pub open spec fn onsets_of(x: Seq<i32>, frames: Seq<Vec<u32>>, params: OnsetParams) -> Seq<int> {
    if x.len() < params.fft_size || params.hop_size == 0 || params.sample_rate == 0 {
        Seq::empty()
    } else {
        onset_frames(
            flux_of(frames),
            energy_of(x, params.hop_size as nat),
            params,
            flux_of(frames).len() as int,
        )
    }
}

/// The events are strictly in order of time, each at least `gap`
/// microseconds and at least one sample after the one before it.
pub open spec fn well_spaced(events: Seq<OnsetEvent>, gap: u64) -> bool {
    forall|j: int|
        0 <= j < events.len() - 1 ==> {
            &&& (#[trigger] events[j]).timestamp < events[j + 1].timestamp
            &&& events[j].timestamp + gap <= events[j + 1].timestamp
            &&& events[j].sample_index < events[j + 1].sample_index
        }
}

/// Every event is stronger than the threshold, and its confidence lies above
/// 0 and at most at 1.
pub open spec fn are_distinct(events: Seq<OnsetEvent>, params: OnsetParams) -> bool {
    forall|j: int|
        0 <= j < events.len() ==> {
            &&& (#[trigger] events[j]).strength > params.threshold
            &&& 0 < events[j].confidence <= RATIO_ONE
        }
}

/// Every onset is a candidate: a strict peak of the flux above the threshold,
/// in a hop whose energy is above its threshold.
pub proof fn lemma_onsets_are_candidates(
    flux: Seq<nat>,
    energy: Seq<nat>,
    params: OnsetParams,
    n: int,
    j: int,
)
    requires
        0 <= j < onset_frames(flux, energy, params, n).len(),
    ensures
        is_candidate(flux, energy, params, onset_frames(flux, energy, params, n)[j]),
    decreases n,
{
    if n > 0 {
        let before = onset_frames(flux, energy, params, n - 1);
        if j < before.len() {
            lemma_onsets_are_candidates(flux, energy, params, n - 1, j);
        }
    }
}

/// The events are the onsets at the flux indices `picked`, each below
/// `bound`.
pub open spec fn are_onsets_at(
    events: Seq<OnsetEvent>,
    flux: Seq<nat>,
    params: OnsetParams,
    picked: Seq<int>,
    bound: int,
) -> bool {
    &&& events.len() == picked.len()
    &&& forall|j: int|
        0 <= j < events.len() ==> {
            &&& is_onset_at(#[trigger] events[j], flux, params, picked[j])
            &&& 0 <= picked[j] < bound
        }
}

/// Every event lies within a buffer of `len` samples.
pub open spec fn within_buffer(events: Seq<OnsetEvent>, len: int) -> bool {
    forall|j: int| 0 <= j < events.len() ==> (#[trigger] events[j]).sample_index < len
}

/// The time of sample `sample_index`, in microseconds.
fn timestamp(sample_index: usize, sample_rate: u32) -> (t: u64)
    requires
        sample_rate > 0,
    ensures
        t as nat == timestamp_of(sample_index as nat, sample_rate),
{
    let micros: u128 = sample_index as u128 * MICROS_PER_SECOND as u128 / sample_rate as u128;
    if micros > u64::MAX as u128 {
        u64::MAX
    } else {
        micros as u64
    }
}

proof fn lemma_onset_added(
    events: Seq<OnsetEvent>,
    flux: Seq<nat>,
    params: OnsetParams,
    picked: Seq<int>,
    event: OnsetEvent,
    i: int,
)
    requires
        are_onsets_at(events, flux, params, picked, i),
        well_spaced(events, params.min_inter_onset),
        is_onset_at(event, flux, params, i),
        0 <= i,
        params.hop_size > 0,
        events.len() > 0 ==> events.last().timestamp + params.min_inter_onset <= event.timestamp,
        events.len() > 0 ==> events.last().timestamp < event.timestamp,
    ensures
        are_onsets_at(events.push(event), flux, params, picked.push(i), i + 1),
        well_spaced(events.push(event), params.min_inter_onset),
{
    let after = events.push(event);
    let frames = picked.push(i);
    assert forall|j: int| 0 <= j < after.len() implies {
        &&& is_onset_at(#[trigger] after[j], flux, params, frames[j])
        &&& 0 <= frames[j] < i + 1
    } by {
        if j < events.len() {
            assert(after[j] == events[j]);
            assert(frames[j] == picked[j]);
        }
    }
    assert forall|j: int| 0 <= j < after.len() - 1 implies {
        &&& (#[trigger] after[j]).timestamp < after[j + 1].timestamp
        &&& after[j].timestamp + params.min_inter_onset <= after[j + 1].timestamp
        &&& after[j].sample_index < after[j + 1].sample_index
    } by {
        assert(after[j] == events[j]);
        if j < events.len() - 1 {
            assert(after[j + 1] == events[j + 1]);
        } else {
            let k = picked[j];
            assert(is_onset_at(events[j], flux, params, k));
            assert(k * params.hop_size < i * params.hop_size) by (nonlinear_arith)
                requires
                    0 <= k < i,
                    params.hop_size > 0,
            ;
        }
    }
}

proof fn lemma_onsets_kept(
    events: Seq<OnsetEvent>,
    flux: Seq<nat>,
    params: OnsetParams,
    picked: Seq<int>,
    i: int,
)
    requires
        are_onsets_at(events, flux, params, picked, i),
    ensures
        are_onsets_at(events, flux, params, picked, i + 1),
{
    assert forall|j: int| 0 <= j < events.len() implies {
        &&& is_onset_at(#[trigger] events[j], flux, params, picked[j])
        &&& 0 <= picked[j] < i + 1
    } by {
        assert(is_onset_at(events[j], flux, params, picked[j]));
        assert(0 <= picked[j] < i);
    }
}

/// Locates the note onsets of a buffer from the magnitude spectra of its
/// frames.
///
/// An onset is a strict peak of the flux above the threshold, in a hop whose
/// energy is above its threshold, that comes at least the minimum interval,
/// and in a later microsecond, after the onset before it. The result is empty
/// where the buffer is shorter than one frame, and where the hop size or the
/// sample rate is 0.
pub fn detect_onsets(samples: &[i32], frames: &[Vec<u32>], params: &OnsetParams) -> (onsets: Vec<
    OnsetEvent,
>)
    requires
        rectangular(frames@),
    ensures
        are_onsets_at(
            onsets@,
            flux_of(frames@),
            *params,
            onsets_of(samples@, frames@, *params),
            flux_of(frames@).len() as int,
        ),
        well_spaced(onsets@, params.min_inter_onset),
        within_buffer(onsets@, samples.len() as int),
        are_distinct(onsets@, *params),
{
    let mut onsets: Vec<OnsetEvent> = Vec::new();
    if samples.len() < params.fft_size || params.hop_size == 0 || params.sample_rate == 0 {
        return onsets;
    }
    let flux: Vec<u64> = spectral_flux(frames);
    let energy: Vec<u32> = energy_envelope(samples, params.hop_size);
    let ghost c = flux_of(frames@);
    let ghost e = energy_of(samples@, params.hop_size as nat);
    assert(flux@.len() == as_nats(flux@).len());
    assert(energy@.len() == levels(energy@).len());
    let mut i: usize = 0;
    while i < flux.len()
        invariant
            i <= flux.len(),
            params.hop_size > 0,
            params.sample_rate > 0,
            c == as_nats(flux@),
            e == levels(energy@),
            energy.len() == samples.len() / params.hop_size,
            are_onsets_at(onsets@, c, *params, onset_frames(c, e, *params, i as int), i as int),
            well_spaced(onsets@, params.min_inter_onset),
            within_buffer(onsets@, samples.len() as int),
            are_distinct(onsets@, *params),
        decreases flux.len() - i,
    {
        let ghost before = onset_frames(c, e, *params, i as int);
        let ghost after = onset_frames(c, e, *params, i as int + 1);
        proof {
            if i >= 1 && i + 1 < flux.len() {
                assert(c[i as int] == flux[i as int] as nat);
                assert(c[i as int - 1] == flux[i as int - 1] as nat);
                assert(c[i as int + 1] == flux[i as int + 1] as nat);
            }
            if i < energy.len() {
                assert(e[i as int] == energy[i as int] as nat);
            }
        }
        let mut emit: bool = false;
        if i >= 1 && i + 1 < flux.len() && flux[i] > flux[i - 1] && flux[i] > flux[i + 1] && flux[i]
            > params.threshold && i < energy.len() && energy[i] > params.energy_threshold {
            assert(is_candidate(c, e, *params, i as int));
            proof {
                assert((i + 1) * params.hop_size <= samples.len()) by (nonlinear_arith)
                    requires
                        i + 1 <= energy.len(),
                        energy.len() as int == (samples.len() as int) / (params.hop_size as int),
                        params.hop_size > 0,
                ;
                assert((i + 1) * params.hop_size == i * params.hop_size + params.hop_size)
                    by (nonlinear_arith);
                assert(i * params.hop_size >= 0) by (nonlinear_arith)
                    requires
                        i >= 0,
                        params.hop_size > 0,
                ;
            }
            let sample_index: usize = i * params.hop_size;
            let time: u64 = timestamp(sample_index, params.sample_rate);
            if onsets.len() == 0 {
                emit = true;
            } else {
                let last: u64 = onsets[onsets.len() - 1].timestamp;
                assert(is_onset_at(onsets@[onsets.len() - 1], c, *params, before.last()));
                emit = time > last && time - last >= params.min_inter_onset;
            }
            if emit {
                let event = OnsetEvent {
                    timestamp: time,
                    sample_index,
                    strength: flux[i],
                    confidence: calculate_onset_confidence(flux[i], flux.as_slice(), i),
                };
                proof {
                    assert(after == before.push(i as int));
                    assert(is_onset_at(event, c, *params, i as int));
                    lemma_onset_added(onsets@, c, *params, before, event, i as int);
                }
                let ghost kept = onsets@;
                onsets.push(event);
                assert forall|j: int| 0 <= j < onsets@.len() implies (#[trigger] onsets@[j]).sample_index
                    < samples.len() by {
                    if j < kept.len() {
                        assert(onsets@[j] == kept[j]);
                    }
                }
                assert forall|j: int| 0 <= j < onsets@.len() implies {
                    &&& (#[trigger] onsets@[j]).strength > params.threshold
                    &&& 0 < onsets@[j].confidence <= RATIO_ONE
                } by {
                    if j < kept.len() {
                        assert(onsets@[j] == kept[j]);
                    }
                }
            } else {
                assert(after == before);
            }
        } else {
            assert(!is_candidate(c, e, *params, i as int));
            assert(after == before);
        }
        proof {
            if !emit {
                lemma_onsets_kept(onsets@, c, *params, before, i as int);
            }
        }
        i = i + 1;
    }
    onsets
}

/// No hop of a silent buffer has energy.
proof fn lemma_silent_hops(x: Seq<i32>, hop_size: nat, f: int)
    requires
        is_constant(x, 0),
        hop_size > 0,
        0 <= f < x.len() / hop_size,
    ensures
        energy_of(x, hop_size)[f] == 0,
{
    assert((f + 1) * hop_size <= x.len()) by (nonlinear_arith)
        requires
            f + 1 <= x.len() / hop_size,
            hop_size > 0,
    ;
    assert((f + 1) * hop_size == f * hop_size + hop_size) by (nonlinear_arith);
    assert(f * hop_size >= 0) by (nonlinear_arith)
        requires
            f >= 0,
            hop_size > 0,
    ;
    let hop = hop_of(x, hop_size as int, f);
    assert(is_constant(hop, 0));
    lemma_rms_of_silence(hop);
}

proof fn lemma_no_onset_frames_in_silence(
    x: Seq<i32>,
    flux: Seq<nat>,
    params: OnsetParams,
    n: int,
)
    requires
        is_constant(x, 0),
        params.hop_size > 0,
    ensures
        onset_frames(flux, energy_of(x, params.hop_size as nat), params, n).len() == 0,
    decreases n,
{
    if n > 0 {
        lemma_no_onset_frames_in_silence(x, flux, params, n - 1);
        let energy = energy_of(x, params.hop_size as nat);
        if 0 <= n - 1 < energy.len() {
            lemma_silent_hops(x, params.hop_size as nat, n - 1);
        }
    }
}

/// A silent buffer has no onsets, whatever the spectra and the parameters.
pub proof fn lemma_silence_has_no_onsets(x: Seq<i32>, frames: Seq<Vec<u32>>, params: OnsetParams)
    requires
        is_constant(x, 0),
    ensures
        onsets_of(x, frames, params).len() == 0,
{
    if params.hop_size > 0 {
        lemma_no_onset_frames_in_silence(
            x,
            flux_of(frames),
            params,
            flux_of(frames).len() as int,
        );
    }
}

} // verus!
