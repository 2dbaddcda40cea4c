//! Loudness of a run of samples: root mean square and peak.

use vstd::prelude::*;
use crate::fixed::{floor_sqrt, isqrt, lemma_floor_sqrt_exists, lemma_floor_sqrt_of_square};

verus! {

/// The square of one sample.
pub open spec fn square(s: i32) -> nat {
    (s as int * s as int) as nat
}

/// The magnitude of one sample.
pub open spec fn magnitude(s: i32) -> nat {
    if s < 0 {
        (-(s as int)) as nat
    } else {
        s as nat
    }
}

/// The sum of the squares of the samples.
pub open spec fn sum_squares(s: Seq<i32>) -> nat
    decreases s.len(),
{
    if s.len() == 0 {
        0
    } else {
        sum_squares(s.drop_last()) + square(s.last())
    }
}

/// The root mean square of the samples, rounded down; 0 for no samples.
pub open spec fn rms_of(s: Seq<i32>) -> nat {
    if s.len() == 0 {
        0
    } else {
        floor_sqrt(sum_squares(s) / s.len())
    }
}

/// `p` is the largest magnitude among the samples; 0 for no samples.
pub open spec fn is_peak(s: Seq<i32>, p: nat) -> bool {
    &&& forall|i: int| 0 <= i < s.len() ==> magnitude(#[trigger] s[i]) <= p
    &&& (s.len() == 0 ==> p == 0)
    &&& (s.len() > 0 ==> exists|i: int| 0 <= i < s.len() && magnitude(#[trigger] s[i]) == p)
}

/// The largest magnitude among the samples; 0 for no samples.
pub open spec fn peak_of(s: Seq<i32>) -> nat {
    choose|p: nat| is_peak(s, p)
}

/// At most one number is the peak of the samples.
pub proof fn lemma_peak_unique(s: Seq<i32>, p: nat)
    requires
        is_peak(s, p),
    ensures
        peak_of(s) == p,
{
    let q = peak_of(s);
    assert(is_peak(s, q));
    if s.len() > 0 {
        let i = choose|i: int| 0 <= i < s.len() && magnitude(#[trigger] s[i]) == p;
        let j = choose|j: int| 0 <= j < s.len() && magnitude(#[trigger] s[j]) == q;
        assert(magnitude(s[i]) <= q);
        assert(magnitude(s[j]) <= p);
    }
}

/// No square exceeds 2^62, so the sum of `n` squares is at most `n * 2^62`.
pub proof fn lemma_sum_squares_bound(s: Seq<i32>)
    ensures
        sum_squares(s) <= s.len() * 0x4000_0000_0000_0000,
    decreases s.len(),
{
    if s.len() > 0 {
        lemma_sum_squares_bound(s.drop_last());
        let v = s.last() as int;
        assert(0 <= v * v <= 0x4000_0000_0000_0000) by (nonlinear_arith)
            requires
                -0x8000_0000 <= v <= 0x7FFF_FFFF,
        ;
        assert(s.drop_last().len() == s.len() - 1);
    }
}

/// The sum of the squares of the samples.
pub fn sum_of_squares(samples: &[i32]) -> (total: u128)
    ensures
        total as nat == sum_squares(samples@),
{
    let mut total: u128 = 0;
    let mut i: usize = 0;
    while i < samples.len()
        invariant
            i <= samples.len(),
            total as nat == sum_squares(samples@.take(i as int)),
        decreases samples.len() - i,
    {
        let v: i64 = samples[i] as i64;
        proof {
            let next = samples@.take(i as int + 1);
            assert(next.drop_last() =~= samples@.take(i as int));
            assert(next.last() == samples[i as int]);
            lemma_sum_squares_bound(next);
            assert(v * v <= 0x4000_0000_0000_0000) by (nonlinear_arith)
                requires
                    -0x8000_0000 <= v <= 0x7FFF_FFFF,
            ;
            assert(v * v >= 0) by (nonlinear_arith);
        }
        let sq: i64 = v * v;
        total = total + sq as u128;
        i = i + 1;
    }
    proof {
        assert(samples@.take(i as int) =~= samples@);
    }
    total
}

/// Root mean square level of the samples, rounded down to a whole amplitude
/// unit; 0 for an empty run.
pub fn calculate_rms(samples: &[i32]) -> (rms: u32)
    ensures
        rms as nat == rms_of(samples@),
{
    if samples.len() == 0 {
        return 0;
    }
    let total: u128 = sum_of_squares(samples);
    let n: u128 = samples.len() as u128;
    proof {
        lemma_sum_squares_bound(samples@);
        assert(total / n <= 0x4000_0000_0000_0000) by (nonlinear_arith)
            requires
                total <= n * 0x4000_0000_0000_0000,
                n > 0,
        ;
    }
    let mean: u64 = (total / n) as u64;
    isqrt(mean)
}

/// Largest magnitude among the samples; 0 for an empty run.
pub fn find_peak(samples: &[i32]) -> (peak: u32)
    ensures
        peak as nat == peak_of(samples@),
        is_peak(samples@, peak as nat),
{
    let mut peak: u32 = 0;
    let mut i: usize = 0;
    while i < samples.len()
        invariant
            i <= samples.len(),
            is_peak(samples@.take(i as int), peak as nat),
        decreases samples.len() - i,
    {
        let s: i32 = samples[i];
        let m: u32 = if s < 0 {
            (-(s as i64)) as u32
        } else {
            s as u32
        };
        proof {
            let before = samples@.take(i as int);
            let after = samples@.take(i as int + 1);
            assert(m as nat == magnitude(s));
            assert(after[i as int] == s);
            assert forall|k: int| 0 <= k < i implies after[k] == before[k] by {}
            if m > peak {
                assert(is_peak(after, m as nat));
            } else {
                if i > 0 {
                    let w = choose|w: int|
                        0 <= w < before.len() && magnitude(#[trigger] before[w]) == peak as nat;
                    assert(after[w] == before[w]);
                }
                assert(is_peak(after, peak as nat));
            }
        }
        if m > peak {
            peak = m;
        }
        i = i + 1;
    }
    proof {
        assert(samples@.take(i as int) =~= samples@);
        lemma_peak_unique(samples@, peak as nat);
    }
    peak
}

/// The squares sum to at most the length times the square of a bound on the
/// magnitudes.
proof fn lemma_sum_squares_below(s: Seq<i32>, p: nat)
    requires
        forall|i: int| 0 <= i < s.len() ==> magnitude(#[trigger] s[i]) <= p,
    ensures
        sum_squares(s) <= s.len() * (p * p),
    decreases s.len(),
{
    if s.len() > 0 {
        let rest = s.drop_last();
        assert forall|i: int| 0 <= i < rest.len() implies magnitude(#[trigger] rest[i]) <= p by {
            assert(rest[i] == s[i]);
        }
        lemma_sum_squares_below(rest, p);
        let m = magnitude(s.last());
        assert(m <= p);
        assert(square(s.last()) == m * m) by (nonlinear_arith)
            requires
                m == magnitude(s.last()),
                square(s.last()) == (s.last() as int * s.last() as int) as nat,
                m == s.last() || m == -s.last(),
        ;
        assert(m * m <= p * p) by (nonlinear_arith)
            requires
                m <= p,
        ;
        assert(s.len() * (p * p) == (s.len() - 1) * (p * p) + p * p) by (nonlinear_arith);
    }
}

/// The RMS level never exceeds the peak.
pub proof fn lemma_rms_at_most_peak(s: Seq<i32>, p: nat)
    requires
        is_peak(s, p),
    ensures
        rms_of(s) <= p,
{
    if s.len() > 0 {
        lemma_sum_squares_below(s, p);
        let mean = sum_squares(s) / s.len();
        assert(mean <= p * p) by (nonlinear_arith)
            requires
                mean == sum_squares(s) / s.len(),
                sum_squares(s) <= s.len() * (p * p),
                s.len() > 0,
        ;
        let r = rms_of(s);
        lemma_floor_sqrt_exists(mean);
        assert(r <= p) by (nonlinear_arith)
            requires
                r * r <= mean,
                mean <= p * p,
        ;
    }
}

/// A run in which every sample is `a`.
pub open spec fn is_constant(s: Seq<i32>, a: i32) -> bool {
    forall|i: int| 0 <= i < s.len() ==> s[i] == a
}

/// The squares of a constant run sum to the length times one square.
pub proof fn lemma_sum_squares_constant(s: Seq<i32>, a: i32)
    requires
        is_constant(s, a),
    ensures
        sum_squares(s) == s.len() * square(a),
    decreases s.len(),
{
    if s.len() > 0 {
        lemma_sum_squares_constant(s.drop_last(), a);
        assert(s.len() * square(a) == (s.len() - 1) * square(a) + square(a))
            by (nonlinear_arith);
    }
}

/// The RMS level of a constant signal is its magnitude.
pub proof fn lemma_rms_of_constant(s: Seq<i32>, a: i32)
    requires
        s.len() > 0,
        is_constant(s, a),
    ensures
        rms_of(s) == magnitude(a),
{
    lemma_sum_squares_constant(s, a);
    let m = magnitude(a);
    assert(square(a) == m * m) by (nonlinear_arith)
        requires
            m == magnitude(a),
            square(a) == (a as int * a as int) as nat,
            m == a || m == -a,
    ;
    assert((s.len() * square(a)) / s.len() == square(a)) by (nonlinear_arith)
        requires
            s.len() > 0,
    ;
    lemma_floor_sqrt_of_square(m);
}

/// The RMS level of silence is exactly 0.
pub proof fn lemma_rms_of_silence(s: Seq<i32>)
    requires
        is_constant(s, 0),
    ensures
        rms_of(s) == 0,
{
    if s.len() > 0 {
        lemma_rms_of_constant(s, 0);
    }
}

} // verus!
