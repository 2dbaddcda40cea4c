//! Units of the fixed-point quantities, and integer arithmetic shared by the
//! analysis modules.

use vstd::prelude::*;

verus! {

/// One full-scale amplitude. Samples, RMS and peak levels and spectral
/// magnitudes count millionths of full scale.
pub const FULL_SCALE: u32 = 1_000_000;

/// The ratio 1 in parts per million: thresholds on normalized scores and
/// confidences count millionths.
pub const RATIO_ONE: u32 = 1_000_000;

/// Microseconds in a second: timestamps count microseconds.
pub const MICROS_PER_SECOND: u64 = 1_000_000;

/// Millihertz in a hertz: frequencies count millihertz.
pub const MILLIHERTZ: u64 = 1_000;

/// `r` is the integer part of the square root of `x`.
pub open spec fn is_floor_sqrt(x: nat, r: nat) -> bool {
    r * r <= x && x < (r + 1) * (r + 1)
}

/// The integer part of the square root of `x`.
pub open spec fn floor_sqrt(x: nat) -> nat {
    choose|r: nat| is_floor_sqrt(x, r)
}

/// At most one number is the integer square root of `x`.
pub proof fn lemma_floor_sqrt_unique(x: nat, r: nat)
    requires
        is_floor_sqrt(x, r),
    ensures
        floor_sqrt(x) == r,
{
    let c = floor_sqrt(x);
    assert(is_floor_sqrt(x, c));
    assert(c == r) by (nonlinear_arith)
        requires
            r * r <= x,
            x < (r + 1) * (r + 1),
            c * c <= x,
            x < (c + 1) * (c + 1),
    ;
}

/// Every number has an integer square root.
pub proof fn lemma_floor_sqrt_exists(x: nat)
    ensures
        is_floor_sqrt(x, floor_sqrt(x)),
    decreases x,
{
    if x == 0 {
        assert(is_floor_sqrt(0, 0)) by (nonlinear_arith);
    } else {
        lemma_floor_sqrt_exists((x - 1) as nat);
        let r = floor_sqrt((x - 1) as nat);
        if x < (r + 1) * (r + 1) {
            assert(is_floor_sqrt(x, r));
        } else {
            assert(is_floor_sqrt(x, r + 1)) by (nonlinear_arith)
                requires
                    r * r <= x - 1,
                    x - 1 < (r + 1) * (r + 1),
                    x >= (r + 1) * (r + 1),
            ;
        }
    }
}

/// The square root of a perfect square is its root.
pub proof fn lemma_floor_sqrt_of_square(r: nat)
    ensures
        floor_sqrt(r * r) == r,
{
    assert(is_floor_sqrt(r * r, r)) by (nonlinear_arith);
    lemma_floor_sqrt_unique(r * r, r);
}

/// Integer square root, by bisection.
pub fn isqrt(x: u64) -> (r: u32)
    ensures
        r as nat == floor_sqrt(x as nat),
{
    let mut lo: u64 = 0;
    let mut hi: u64 = 0x1_0000_0000;
    while hi - lo > 1
        invariant
            lo < hi <= 0x1_0000_0000,
            lo * lo <= x,
            hi == 0x1_0000_0000 || x < hi * hi,
        decreases hi - lo,
    {
        let mid: u64 = lo + (hi - lo) / 2;
        assert(mid * mid <= 0xFFFF_FFFF * 0xFFFF_FFFF) by (nonlinear_arith)
            requires
                mid <= 0xFFFF_FFFF,
        ;
        if mid * mid <= x {
            lo = mid;
        } else {
            hi = mid;
        }
    }
    proof {
        assert(x < (lo + 1) * (lo + 1)) by {
            if hi == 0x1_0000_0000 {
                assert(0x1_0000_0000u64 * 0x1_0000_0000u64 > u64::MAX) by (nonlinear_arith);
            }
        }
        lemma_floor_sqrt_unique(x as nat, lo as nat);
    }
    lo as u32
}

/// `num / den` rounded to the nearest integer, halves upward.
pub open spec fn div_round(num: nat, den: nat) -> nat
    recommends
        den > 0,
{
    (2 * num + den) / (2 * den)
}

} // verus!
