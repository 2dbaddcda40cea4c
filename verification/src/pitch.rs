//! Fundamental-frequency estimation by the YIN method: a difference function
//! over lags, its cumulative mean normalization, an absolute threshold search
//! and a parabolic refinement of the chosen lag.

use vstd::prelude::*;
use crate::fixed::{div_round, RATIO_ONE};
use crate::level::{calculate_rms, lemma_rms_of_silence, is_constant, rms_of};
use crate::cents::{cents_of, frequency_to_cents, lemma_offset_within_half_a_semitone};
use crate::note::{frequency_to_midi, midi_of};

verus! {

/// Fewer samples than this carry no pitch.
pub const MIN_BUFFER: usize = 2048;

/// At most this many leading samples are analysed.
pub const MAX_WINDOW: usize = 8192;

/// A buffer whose RMS level is below this is silence.
pub const SILENCE_GATE: u32 = 10_000;

/// The number of leading samples that are analysed.
pub open spec fn window_of(len: nat) -> nat {
    if len < MAX_WINDOW {
        len
    } else {
        MAX_WINDOW as nat
    }
}

/// The lag, in samples, of one period of `frequency` millihertz at
/// `sample_rate` hertz, rounded to the nearest sample.
pub open spec fn lag_of(sample_rate: u32, frequency: u32) -> nat
    recommends
        frequency > 0,
{
    div_round(sample_rate as nat * 1000, frequency as nat)
}

/// The lag of one period of `frequency` millihertz, in samples.
pub fn lag(sample_rate: u32, frequency: u32) -> (l: u64)
    requires
        frequency > 0,
    ensures
        l as nat == lag_of(sample_rate, frequency),
        l * (2 * frequency) <= 2 * (sample_rate * 1000) + frequency < (l + 1) * (2 * frequency),
{
    let num: u64 = 2 * (sample_rate as u64 * 1000) + frequency as u64;
    let l: u64 = num / (2 * frequency as u64);
    assert(l * (2 * frequency) <= num < (l + 1) * (2 * frequency)) by (nonlinear_arith)
        requires
            l == num / ((2 * frequency) as u64),
            frequency > 0,
    ;
    l
}

/// The squared difference between sample `j` and the sample `tau` later.
pub open spec fn diff_term(x: Seq<i32>, tau: int, j: int) -> nat {
    ((x[j] - x[j + tau]) * (x[j] - x[j + tau])) as nat
}

/// The difference function at lag `tau` over the first `n` samples:
/// the sum of `diff_term(x, tau, j)` for `j` below `n`.
pub open spec fn difference(x: Seq<i32>, tau: int, n: int) -> nat
    decreases n,
{
    if n <= 0 {
        0
    } else {
        difference(x, tau, n - 1) + diff_term(x, tau, n - 1)
    }
}

/// The sum of the difference function over the lags 1 to `tau`.
pub open spec fn cumulative(x: Seq<i32>, tau: int, n: int) -> nat
    decreases tau,
{
    if tau <= 0 {
        0
    } else {
        cumulative(x, tau - 1, n) + difference(x, tau, n)
    }
}

/// The cumulative mean normalized difference at lag `tau`, in millionths:
/// the difference at `tau` over the mean of the differences at lags 1 to
/// `tau`, rounded down. It is 1 at lag 0 and where that mean is 0.
pub open spec fn cmnd_at(x: Seq<i32>, tau: int, n: int) -> nat {
    if tau <= 0 || cumulative(x, tau, n) == 0 {
        RATIO_ONE as nat
    } else {
        (difference(x, tau, n) * tau * RATIO_ONE) as nat / cumulative(x, tau, n)
    }
}

/// The normalized differences at the lags below `n`.
pub open spec fn scores_of(x: Seq<i32>, n: nat) -> Seq<nat> {
    Seq::new(n, |tau: int| cmnd_at(x, tau, n as int))
}

/// A sequence of scores as numbers.
pub open spec fn as_nats(c: Seq<u64>) -> Seq<nat> {
    Seq::new(c.len(), |i: int| c[i] as nat)
}

proof fn lemma_difference_bound(x: Seq<i32>, tau: int, n: int)
    requires
        0 <= tau,
        0 <= n,
        n + tau <= x.len(),
    ensures
        difference(x, tau, n) <= n * 0x1_0000_0000_0000_0000,
    decreases n,
{
    if n > 0 {
        lemma_difference_bound(x, tau, n - 1);
        let d: int = x[n - 1] - x[n - 1 + tau];
        assert(0 <= d * d <= 0x1_0000_0000_0000_0000) by (nonlinear_arith)
            requires
                -0x1_0000_0000 <= d <= 0x1_0000_0000,
        ;
    }
}

/// The difference function at lag `tau` over the first `half` samples.
pub fn difference_at(samples: &[i32], tau: usize, half: usize) -> (d: u128)
    requires
        half <= MAX_WINDOW / 2,
        tau + half <= samples.len(),
    ensures
        d as nat == difference(samples@, tau as int, half as int),
        d <= half * 0x1_0000_0000_0000_0000,
{
    let mut sum: u128 = 0;
    let mut j: usize = 0;
    while j < half
        invariant
            j <= half <= MAX_WINDOW / 2,
            tau + half <= samples.len(),
            sum as nat == difference(samples@, tau as int, j as int),
        decreases half - j,
    {
        let delta: i128 = samples[j] as i128 - samples[j + tau] as i128;
        proof {
            lemma_difference_bound(samples@, tau as int, j as int);
            lemma_difference_bound(samples@, tau as int, j as int + 1);
            assert(0 <= delta * delta <= 0x1_0000_0000_0000_0000) by (nonlinear_arith)
                requires
                    -0x1_0000_0000 <= delta <= 0x1_0000_0000,
            ;
        }
        let sq: i128 = delta * delta;
        sum = sum + sq as u128;
        j = j + 1;
    }
    proof {
        lemma_difference_bound(samples@, tau as int, half as int);
    }
    sum
}

proof fn lemma_cumulative_bound(x: Seq<i32>, tau: int, n: int)
    requires
        0 <= tau,
        0 <= n,
        n + tau <= x.len(),
    ensures
        cumulative(x, tau, n) <= tau * (n * 0x1_0000_0000_0000_0000),
        tau > 0 ==> difference(x, tau, n) <= cumulative(x, tau, n),
    decreases tau,
{
    if tau > 0 {
        lemma_cumulative_bound(x, tau - 1, n);
        lemma_difference_bound(x, tau, n);
        let b: int = n * 0x1_0000_0000_0000_0000;
        assert(tau * b == (tau - 1) * b + b) by (nonlinear_arith);
    }
}

/// The cumulative mean normalized difference at every lag below `half`, in
/// millionths.
pub fn normalized_difference(samples: &[i32], half: usize) -> (cmnd: Vec<u64>)
    requires
        half <= MAX_WINDOW / 2,
        2 * half <= samples.len(),
    ensures
        as_nats(cmnd@) == scores_of(samples@, half as nat),
{
    let mut cmnd: Vec<u64> = Vec::new();
    if half == 0 {
        proof {
            assert(as_nats(cmnd@) =~= scores_of(samples@, half as nat));
        }
        return cmnd;
    }
    cmnd.push(RATIO_ONE as u64);
    let mut running: u128 = 0;
    let mut tau: usize = 1;
    while tau < half
        invariant
            1 <= tau <= half <= MAX_WINDOW / 2,
            2 * half <= samples.len(),
            cmnd.len() == tau,
            running as nat == cumulative(samples@, tau as int - 1, half as int),
            forall|t: int| 0 <= t < tau ==> cmnd[t] as nat == cmnd_at(samples@, t, half as int),
        decreases half - tau,
    {
        let d: u128 = difference_at(samples, tau, half);
        proof {
            lemma_cumulative_bound(samples@, tau as int, half as int);
            let b: int = half as int * 0x1_0000_0000_0000_0000;
            assert(b <= 4096 * 0x1_0000_0000_0000_0000);
            assert(tau as int * b <= 4096 * (4096 * 0x1_0000_0000_0000_0000)) by (nonlinear_arith)
                requires
                    0 <= tau <= 4096,
                    0 <= b <= 4096 * 0x1_0000_0000_0000_0000,
            ;
        }
        running = running + d;
        let value: u64 = if running > 0 {
            proof {
                assert(d * tau <= 4096 * (4096 * 0x1_0000_0000_0000_0000)) by (nonlinear_arith)
                    requires
                        0 <= tau <= 4096,
                        0 <= d <= 4096 * 0x1_0000_0000_0000_0000,
                ;
                assert(d * tau * 1_000_000 <= 4096 * (4096 * 0x1_0000_0000_0000_0000) * 1_000_000)
                    by (nonlinear_arith)
                    requires
                        d * tau <= 4096 * (4096 * 0x1_0000_0000_0000_0000),
                ;
                assert((d * tau * 1_000_000) / (running as int) <= tau * 1_000_000)
                    by (nonlinear_arith)
                    requires
                        0 <= d <= running,
                        running > 0,
                        tau >= 0,
                ;
            }
            (d * (tau as u128) * (RATIO_ONE as u128) / running) as u64
        } else {
            RATIO_ONE as u64
        };
        cmnd.push(value);
        tau = tau + 1;
    }
    proof {
        assert(as_nats(cmnd@) =~= scores_of(samples@, half as nat));
    }
    cmnd
}

/// Where a descent that starts at lag `t` ends: the first lag from `t` on
/// whose successor is not lower, or is `hi`.
pub open spec fn descend(c: Seq<nat>, t: int, hi: int) -> int
    decreases hi - t,
{
    if t + 1 < hi && c[t + 1] < c[t] {
        descend(c, t + 1, hi)
    } else {
        t
    }
}

/// The lag that the absolute threshold search picks among `lo..hi`: from the
/// first lag whose score is below `threshold`, the end of the descent to the
/// local minimum. None where no score in the range is below the threshold.
pub open spec fn chosen_lag(c: Seq<nat>, lo: int, hi: int, threshold: nat) -> Option<int>
    decreases hi - lo,
{
    if lo >= hi {
        None
    } else if c[lo] < threshold {
        Some(descend(c, lo, hi))
    } else {
        chosen_lag(c, lo + 1, hi, threshold)
    }
}

/// Every score at the lags `lo..hi` is at least `threshold`.
pub open spec fn none_below(c: Seq<nat>, lo: int, hi: int, threshold: nat) -> bool {
    forall|k: int| lo <= k < hi ==> #[trigger] c[k] >= threshold
}

/// The scores fall strictly from lag `from` to lag `to`.
pub open spec fn falls_strictly(c: Seq<nat>, from: int, to: int) -> bool {
    forall|k: int| from <= k < to ==> c[k + 1] < #[trigger] c[k]
}

/// A descent from `t` ends at a lag in `t..hi` down to which the scores fall
/// strictly, and whose successor, if in range, is not lower.
pub proof fn lemma_descend_ends_at_minimum(c: Seq<nat>, t: int, hi: int)
    requires
        t < hi,
    ensures
        t <= descend(c, t, hi) < hi,
        falls_strictly(c, t, descend(c, t, hi)),
        c[descend(c, t, hi)] <= c[t],
        descend(c, t, hi) + 1 < hi ==> c[descend(c, t, hi) + 1] >= c[descend(c, t, hi)],
    decreases hi - t,
{
    if t + 1 < hi && c[t + 1] < c[t] {
        lemma_descend_ends_at_minimum(c, t + 1, hi);
    }
}

/// The search finds no lag exactly where every score in the range is at
/// least the threshold.
pub proof fn lemma_no_lag_chosen(c: Seq<nat>, lo: int, hi: int, threshold: nat)
    ensures
        chosen_lag(c, lo, hi, threshold).is_none() <==> none_below(c, lo, hi, threshold),
    decreases hi - lo,
{
    if lo < hi {
        lemma_no_lag_chosen(c, lo + 1, hi, threshold);
        if c[lo] >= threshold {
            if none_below(c, lo + 1, hi, threshold) {
                assert forall|k: int| lo <= k < hi implies #[trigger] c[k] >= threshold by {
                    if k > lo {
                        assert(c[k] >= threshold);
                    }
                }
            }
        }
    }
}

/// `t` is the lag that a search over `lo..hi` picks: the scores fall strictly
/// to it from the first lag `first` whose score is below the threshold, and
/// its successor, if in range, is not lower.
pub open spec fn is_chosen(c: Seq<nat>, lo: int, hi: int, threshold: nat, first: int, t: int)
    -> bool {
    &&& lo <= first <= t < hi
    &&& none_below(c, lo, first, threshold)
    &&& c[first] < threshold
    &&& falls_strictly(c, first, t)
    &&& (t + 1 < hi ==> c[t + 1] >= c[t])
}

/// The first lag in `lo..hi` whose score is below the threshold, or `hi`.
pub open spec fn first_below(c: Seq<nat>, lo: int, hi: int, threshold: nat) -> int
    decreases hi - lo,
{
    if lo >= hi || c[lo] < threshold {
        lo
    } else {
        first_below(c, lo + 1, hi, threshold)
    }
}

/// The lag that the search picks is below the threshold, and is reached from
/// the first lag below the threshold by a strict descent.
pub proof fn lemma_chosen_lag_is_minimum(c: Seq<nat>, lo: int, hi: int, threshold: nat)
    requires
        chosen_lag(c, lo, hi, threshold).is_some(),
    ensures
        is_chosen(
            c,
            lo,
            hi,
            threshold,
            first_below(c, lo, hi, threshold),
            chosen_lag(c, lo, hi, threshold).unwrap(),
        ),
        c[chosen_lag(c, lo, hi, threshold).unwrap()] < threshold,
    decreases hi - lo,
{
    if c[lo] < threshold {
        lemma_descend_ends_at_minimum(c, lo, hi);
    } else {
        lemma_chosen_lag_is_minimum(c, lo + 1, hi, threshold);
        let first = first_below(c, lo + 1, hi, threshold);
        assert forall|k: int| lo <= k < first implies #[trigger] c[k] >= threshold by {
            if k > lo {
                assert(c[k] >= threshold);
            }
        }
    }
}

/// Absolute threshold search over the lags `min_lag..max_lag`: from the first
/// lag whose score is below `threshold`, descend to the local minimum.
pub fn absolute_threshold(cmnd: &[u64], min_lag: usize, max_lag: usize, threshold: u64) -> (r:
    Option<usize>)
    requires
        max_lag <= cmnd.len(),
    ensures
        match r {
            None => chosen_lag(as_nats(cmnd@), min_lag as int, max_lag as int, threshold as nat)
                .is_none(),
            Some(t) => chosen_lag(as_nats(cmnd@), min_lag as int, max_lag as int, threshold as nat)
                == Some(t as int),
        },
{
    let ghost c = as_nats(cmnd@);
    let mut tau: usize = min_lag;
    while tau < max_lag
        invariant
            min_lag <= tau,
            max_lag <= cmnd.len(),
            c == as_nats(cmnd@),
            chosen_lag(c, min_lag as int, max_lag as int, threshold as nat) == chosen_lag(
                c,
                tau as int,
                max_lag as int,
                threshold as nat,
            ),
        decreases max_lag - tau,
    {
        if cmnd[tau] < threshold {
            let ghost start = tau as int;
            while tau + 1 < max_lag && cmnd[tau + 1] < cmnd[tau]
                invariant
                    tau < max_lag <= cmnd.len(),
                    c == as_nats(cmnd@),
                    descend(c, start, max_lag as int) == descend(c, tau as int, max_lag as int),
                decreases max_lag - tau,
            {
                tau = tau + 1;
            }
            return Some(tau);
        }
        tau = tau + 1;
    }
    None
}

/// The score at lag `t` is a dip: no neighbour is lower, and one is higher.
pub open spec fn is_dip(c: Seq<nat>, t: int) -> bool {
    &&& 0 < t < c.len() - 1
    &&& c[t] <= c[t - 1]
    &&& c[t] <= c[t + 1]
    &&& c[t - 1] + c[t + 1] > 2 * c[t]
}

/// How the scores bend at lag `t`: twice the leading coefficient of the
/// parabola through the scores at `t - 1`, `t` and `t + 1`.
pub open spec fn curvature(c: Seq<nat>, t: int) -> int {
    c[t - 1] + c[t + 1] - 2 * c[t]
}

/// The numerator of the vertex of that parabola, the denominator taken as
/// positive. The vertex is `t + (c[t - 1] - c[t + 1]) / (2 curvature)`.
pub open spec fn vertex_num(c: Seq<nat>, t: int) -> int {
    let n = 2 * t * curvature(c, t) + c[t - 1] - c[t + 1];
    if curvature(c, t) < 0 {
        -n
    } else {
        n
    }
}

/// The denominator of the vertex, taken as positive.
pub open spec fn vertex_den(c: Seq<nat>, t: int) -> int {
    if curvature(c, t) < 0 {
        -2 * curvature(c, t)
    } else {
        2 * curvature(c, t)
    }
}

/// The lag `t` is refined to the vertex: `t` has a neighbour on each side,
/// the three scores do not lie on one line, the vertex is a positive lag,
/// and its frequency is held in whole millihertz, from 1 to the largest of
/// 64 bits.
pub open spec fn has_vertex(c: Seq<nat>, t: int, sample_rate: u32) -> bool {
    &&& 0 < t < c.len() - 1
    &&& curvature(c, t) != 0
    &&& vertex_num(c, t) > 0
    &&& 1 <= (sample_rate as int * 1000 * vertex_den(c, t)) / vertex_num(c, t) <= u64::MAX
}

/// The numerator of the refined lag: the vertex where the lag is refined to
/// it, else `t` itself.
pub open spec fn refined_lag_num(c: Seq<nat>, t: int, sample_rate: u32) -> int {
    if has_vertex(c, t, sample_rate) {
        vertex_num(c, t)
    } else {
        t
    }
}

/// The denominator of the refined lag.
pub open spec fn refined_lag_den(c: Seq<nat>, t: int, sample_rate: u32) -> int {
    if has_vertex(c, t, sample_rate) {
        vertex_den(c, t)
    } else {
        1
    }
}

/// The frequency, in millihertz and rounded down, whose period is the refined
/// lag at `t`.
pub open spec fn frequency_at(c: Seq<nat>, t: int, sample_rate: u32) -> int
    recommends
        t >= 1,
{
    (sample_rate as int * 1000 * refined_lag_den(c, t, sample_rate)) / refined_lag_num(
        c,
        t,
        sample_rate,
    )
}

/// The confidence at lag `t`, in millionths: 1 less the score, which counts
/// as 1 where it is above 1.
pub open spec fn confidence_at(c: Seq<nat>, t: int) -> int {
    if c[t] >= RATIO_ONE {
        0
    } else {
        RATIO_ONE - c[t]
    }
}

/// At a dip the vertex lies within half a sample of the lag.
pub proof fn lemma_vertex_near_dip(c: Seq<nat>, t: int)
    requires
        is_dip(c, t),
    ensures
        curvature(c, t) > 0,
        vertex_den(c, t) > 0,
        (2 * t - 1) * vertex_den(c, t) <= 2 * vertex_num(c, t),
        2 * vertex_num(c, t) <= (2 * t + 1) * vertex_den(c, t),
{
    let a: int = c[t - 1] - c[t];
    let b: int = c[t + 1] - c[t];
    let den: int = 2 * (a + b);
    let num: int = 2 * t * (a + b) + a - b;
    assert(curvature(c, t) == a + b);
    assert(vertex_den(c, t) == den);
    assert(vertex_num(c, t) == num);
    assert((2 * t - 1) * den <= 2 * num && 2 * num <= (2 * t + 1) * den) by (nonlinear_arith)
        requires
            a >= 0,
            b >= 0,
            den == 2 * (a + b),
            num == 2 * t * (a + b) + a - b,
    ;
}

/// The frequency at a lag in the range of the search is at least a
/// millihertz; at a dip it is at least the lowest frequency looked for.
pub proof fn lemma_frequency_in_range(c: Seq<nat>, t: int, sample_rate: u32, frequency: u32)
    requires
        1 <= t < lag_of(sample_rate, frequency),
        frequency > 0,
    ensures
        frequency_at(c, t, sample_rate) >= 1,
        is_dip(c, t) ==> frequency_at(c, t, sample_rate) >= frequency,
{
    let rate: int = sample_rate as int * 1000;
    let m: int = frequency as int;
    let end: int = lag_of(sample_rate, frequency) as int;
    assert(end * (2 * m) <= 2 * rate + m) by (nonlinear_arith)
        requires
            end == (2 * rate + m) / (2 * m),
            m > 0,
            rate >= 0,
    ;
    assert(m * (2 * t + 1) <= 2 * rate) by (nonlinear_arith)
        requires
            t + 1 <= end,
            end * (2 * m) <= 2 * rate + m,
            m > 0,
    ;
    if has_vertex(c, t, sample_rate) {
        if is_dip(c, t) {
            lemma_vertex_near_dip(c, t);
            let num = vertex_num(c, t);
            let den = vertex_den(c, t);
            assert(m * num <= rate * den) by (nonlinear_arith)
                requires
                    m * (2 * t + 1) <= 2 * rate,
                    2 * num <= (2 * t + 1) * den,
                    den > 0,
                    m > 0,
            ;
            assert((rate * den) / num >= m) by (nonlinear_arith)
                requires
                    m * num <= rate * den,
                    num > 0,
            ;
        }
    } else {
        assert(rate / t >= m) by (nonlinear_arith)
            requires
                m * (2 * t + 1) <= 2 * rate,
                t >= 1,
                m > 0,
        ;
    }
}

/// The frequency whose period is the refined lag at `t`, in millihertz.
pub fn frequency_from_lag(cmnd: &[u64], t: usize, sample_rate: u32) -> (f: u64)
    requires
        1 <= t < cmnd.len(),
        cmnd.len() <= MAX_WINDOW / 2,
    ensures
        f as int == frequency_at(as_nats(cmnd@), t as int, sample_rate),
{
    let ghost c = as_nats(cmnd@);
    let rate: i128 = sample_rate as i128 * 1000;
    if t + 1 < cmnd.len() {
        let before: i128 = cmnd[t - 1] as i128;
        let here: i128 = cmnd[t] as i128;
        let after: i128 = cmnd[t + 1] as i128;
        let bend: i128 = before + after - 2 * here;
        assert(bend == curvature(c, t as int));
        if bend != 0 {
            assert(-8192 * 0x2_0000_0000_0000_0000 <= 2 * t * bend <= 8192
                * 0x2_0000_0000_0000_0000) by (nonlinear_arith)
                requires
                    0 <= t <= 4096,
                    -0x2_0000_0000_0000_0000 <= bend <= 0x2_0000_0000_0000_0000,
            ;
            let n: i128 = 2 * (t as i128) * bend + before - after;
            let num: i128 = if bend < 0 {
                0 - n
            } else {
                n
            };
            let den: i128 = if bend < 0 {
                0 - 2 * bend
            } else {
                2 * bend
            };
            assert(num == vertex_num(c, t as int));
            assert(den == vertex_den(c, t as int));
            if num > 0 {
                assert(0 <= rate * den <= 0x1_0000_0000 * 1000 * 0x4_0000_0000_0000_0000)
                    by (nonlinear_arith)
                    requires
                        0 <= rate <= 0xFFFF_FFFF * 1000,
                        0 <= den <= 0x4_0000_0000_0000_0000,
                ;
                let quotient: i128 = rate * den / num;
                if quotient >= 1 && quotient <= u64::MAX as i128 {
                    assert(has_vertex(c, t as int, sample_rate));
                    return quotient as u64;
                }
            }
        }
    }
    assert(!has_vertex(c, t as int, sample_rate));
    assert(0 <= rate / (t as i128) <= rate) by (nonlinear_arith)
        requires
            t >= 1,
            rate >= 0,
    ;
    (rate / (t as i128)) as u64
}

/// What the detector is tuned to.
#[derive(Debug, Clone, Copy, PartialEq, Eq)]
pub struct YinParams {
    /// The score below which a lag is a candidate, in millionths.
    pub threshold: u32,
    /// The lowest frequency looked for, in millihertz.
    pub min_frequency: u32,
    /// The highest frequency looked for, in millihertz.
    pub max_frequency: u32,
    /// Samples per second.
    pub sample_rate: u32,
}

impl Default for YinParams {
    /// A threshold of 0.1 and the range of the piano, A0 at 27.5 Hz to C8 at
    /// 4186 Hz, at 44100 samples per second.
    fn default() -> (params: Self)
        ensures
            params == (YinParams {
                threshold: 100_000,
                min_frequency: 27_500,
                max_frequency: 4_186_000,
                sample_rate: 44_100,
            }),
    {
        YinParams {
            threshold: 100_000,
            min_frequency: 27_500,
            max_frequency: 4_186_000,
            sample_rate: 44_100,
        }
    }
}

/// A detected pitch.
#[derive(Debug, Clone, Copy, PartialEq, Eq)]
pub struct PitchResult {
    /// The fundamental frequency, in millihertz.
    pub frequency: u64,
    /// How clear the pitch is, in millionths: 1 less the score at the lag.
    pub confidence: u32,
    /// The nearest MIDI note, from 21 (A0) to 108 (C8).
    pub midi_note: u8,
    /// How far the frequency lies above the note, in cents and rounded down.
    pub cents_offset: i32,
    /// The RMS level of the whole buffer, in amplitude units.
    pub rms_level: u32,
}

/// Half the analysis window of a buffer of `len` samples: the number of lags
/// that are scored.
pub open spec fn half_window(len: nat) -> nat {
    window_of(len) / 2
}

/// The lag at which the search starts: that of the highest frequency, and at
/// least 1.
pub open spec fn first_lag(params: YinParams) -> int {
    if lag_of(params.sample_rate, params.max_frequency) < 1 {
        1
    } else {
        lag_of(params.sample_rate, params.max_frequency) as int
    }
}

/// The lag before which the search ends: that of the lowest frequency.
pub open spec fn end_lag(params: YinParams) -> int {
    lag_of(params.sample_rate, params.min_frequency) as int
}

/// The buffer can be analysed with these parameters: it is long enough and
/// not silent, both frequencies are positive, and the longest lag is below
/// half the window.
pub open spec fn analysable(x: Seq<i32>, params: YinParams) -> bool {
    &&& x.len() >= MIN_BUFFER
    &&& rms_of(x) >= SILENCE_GATE
    &&& params.min_frequency > 0
    &&& params.max_frequency > 0
    &&& end_lag(params) < half_window(x.len())
}

/// The lag of the pitch of the buffer, where it has one.
pub open spec fn pitch_lag(x: Seq<i32>, params: YinParams) -> Option<int> {
    if analysable(x, params) {
        chosen_lag(
            scores_of(x, half_window(x.len())),
            first_lag(params),
            end_lag(params),
            params.threshold as nat,
        )
    } else {
        None
    }
}

/// `result` is what the detector reports for a pitch of the buffer at lag
/// `t`.
pub open spec fn is_pitch_at(x: Seq<i32>, params: YinParams, t: int, result: PitchResult)
    -> bool {
    let c = scores_of(x, half_window(x.len()));
    &&& result.frequency as int == frequency_at(c, t, params.sample_rate)
    &&& result.confidence as int == confidence_at(c, t)
    &&& result.midi_note as int == midi_of(result.frequency as nat)
    &&& result.cents_offset as int == cents_of(result.frequency as nat) - 100 * (result.midi_note
        - 69)
    &&& result.rms_level as nat == rms_of(x)
}

/// Estimates the fundamental frequency of the buffer.
///
/// There is no pitch where the buffer has fewer than 2048 samples, where its
/// RMS level is below 0.01 of full scale, where a frequency bound is 0 or the
/// lag of the lowest frequency does not fit in half the window, and where no
/// lag in range scores below the threshold. Otherwise the result is that of
/// the lag that the threshold search picks, refined to the vertex of the
/// parabola through its score and those of its neighbours.
pub fn detect_pitch_yin(samples: &[i32], params: &YinParams) -> (r: Option<PitchResult>)
    ensures
        match r {
            None => pitch_lag(samples@, *params).is_none(),
            Some(result) => pitch_lag(samples@, *params).is_some() && is_pitch_at(
                samples@,
                *params,
                pitch_lag(samples@, *params).unwrap(),
                result,
            ),
        },
        r matches Some(result) ==> {
            &&& result.frequency > 0
            &&& result.confidence <= RATIO_ONE
            &&& 21 <= result.midi_note <= 108
            &&& (result.midi_note > 21 ==> result.cents_offset >= -50)
            &&& (result.midi_note < 108 ==> result.cents_offset < 50)
            &&& result.rms_level >= SILENCE_GATE
        },
{
    if samples.len() < MIN_BUFFER {
        return None;
    }
    let rms: u32 = calculate_rms(samples);
    if rms < SILENCE_GATE {
        return None;
    }
    if params.min_frequency == 0 || params.max_frequency == 0 {
        return None;
    }
    let window: usize = if samples.len() < MAX_WINDOW {
        samples.len()
    } else {
        MAX_WINDOW
    };
    let half: usize = window / 2;
    let max_lag: u64 = lag(params.sample_rate, params.min_frequency);
    if max_lag >= half as u64 {
        return None;
    }
    let min_lag: u64 = lag(params.sample_rate, params.max_frequency);
    let ghost c = scores_of(samples@, half as nat);
    if min_lag >= max_lag {
        proof {
            assert(first_lag(*params) >= end_lag(*params));
            assert(chosen_lag(c, first_lag(*params), end_lag(*params), params.threshold as nat)
                .is_none());
        }
        return None;
    }
    let start: usize = if min_lag < 1 {
        1
    } else {
        min_lag as usize
    };
    let cmnd: Vec<u64> = normalized_difference(samples, half);
    assert(cmnd@.len() == as_nats(cmnd@).len());
    match absolute_threshold(cmnd.as_slice(), start, max_lag as usize, params.threshold as u64) {
        None => None,
        Some(t) => {
            proof {
                lemma_chosen_lag_is_minimum(
                    c,
                    start as int,
                    max_lag as int,
                    params.threshold as nat,
                );
            }
            let frequency: u64 = frequency_from_lag(cmnd.as_slice(), t, params.sample_rate);
            proof {
                lemma_frequency_in_range(c, t as int, params.sample_rate, params.min_frequency);
            }
            let score: u64 = cmnd[t];
            let confidence: u32 = if score >= RATIO_ONE as u64 {
                0
            } else {
                RATIO_ONE - score as u32
            };
            let midi_note: u8 = frequency_to_midi(frequency);
            let cents: i32 = frequency_to_cents(frequency);
            proof {
                lemma_offset_within_half_a_semitone(
                    frequency as nat,
                    midi_note as int,
                    cents as int,
                );
            }
            Some(
                PitchResult {
                    frequency,
                    confidence,
                    midi_note,
                    cents_offset: cents - 100 * (midi_note as i32 - 69),
                    rms_level: rms,
                },
            )
        },
    }
}

/// A buffer with fewer samples than the minimum has no pitch.
pub proof fn lemma_short_buffer_has_no_pitch(x: Seq<i32>, params: YinParams)
    requires
        x.len() < MIN_BUFFER,
    ensures
        pitch_lag(x, params).is_none(),
{
}

/// A buffer of silence has no pitch.
pub proof fn lemma_silence_has_no_pitch(x: Seq<i32>, params: YinParams)
    requires
        is_constant(x, 0),
    ensures
        pitch_lag(x, params).is_none(),
{
    lemma_rms_of_silence(x);
}

} // verus!
