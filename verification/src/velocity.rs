//! The MIDI velocity of a level: the range from -60 dB to 0 dB relative to
//! full scale mapped linearly onto 0 to 127 and rounded to the nearest whole
//! number.
//!
//! An amplitude `a`, in millionths of full scale, has a velocity of at least
//! `k` exactly where `127 (20 log10(a / 10^6) + 60) / 60 >= k - 1/2`, that is
//! where `a^254 >= 10^(6k + 759)`, a comparison of whole numbers; this is
//! what the contracts state. The edges between velocities are irrational, so
//! the code brackets each between two whole numbers that it derives from a
//! bracket of the 127th root of a thousand, and the proofs show that no
//! amplitude falls inside a bracket.

use vstd::prelude::*;
use vstd::arithmetic::power::{
    pow,
    lemma_pow1,
    lemma_pow_adds,
    lemma_pow_distributes,
    lemma_pow_multiplies,
    lemma_pow_positive,
    lemma_pow_increases,
};
use crate::power::{
    lemma_pow_base_increases,
    lemma_pow_base_strictly_increases,
    lemma_root_of_root_above,
    lemma_root_of_root_below,
    lemma_small_powers,
};
use crate::velocity_edges::{
    bracket_is_tight,
    edge_above,
    edge_below,
    half_step_above,
    half_step_below,
    lemma_brackets_are_tight,
    root_scale,
    step_above,
    step_below,
};

verus! {

/// `x` is at least ten to the power `e / 254`.
pub open spec fn above(x: int, e: nat) -> bool {
    pow(x, 254) >= pow(10, e)
}

/// `amplitude`, in millionths of full scale, has a velocity of at least `k`:
/// `amplitude^254 >= 10^(6k + 759)`. Every amplitude has one of at least 0.
pub open spec fn reaches_velocity(amplitude: nat, k: int) -> bool {
    k <= 0 || above(amplitude as int, (6 * k + 759) as nat)
}

/// `v` is the velocity of `amplitude`: the level of `amplitude` in decibels,
/// mapped from -60 dB to 0 dB onto 0 to 127, lies within a half of `v`, or
/// beyond the end of the range that `v` is.
pub open spec fn is_velocity(amplitude: nat, v: int) -> bool {
    &&& 0 <= v <= 127
    &&& reaches_velocity(amplitude, v)
    &&& (v < 127 ==> !reaches_velocity(amplitude, v + 1))
}

/// The velocity of `amplitude`.
pub open spec fn velocity_of_amplitude(amplitude: nat) -> int {
    choose|v: int| is_velocity(amplitude, v)
}

/// Multiplying by `10^q` raises the exponent by `254 q`.
proof fn lemma_above_scaled(x: int, q: nat, e: nat)
    ensures
        above(x * pow(10, q), e + 254 * q) <==> above(x, e),
        pow(x * pow(10, q), 254) <= pow(10, e + 254 * q) <==> pow(x, 254) <= pow(10, e),
{
    let m = pow(10, q);
    lemma_pow_distributes(x, m, 254);
    lemma_pow_multiplies(10, q, 254);
    lemma_pow_adds(10, e, q * 254);
    lemma_pow_positive(10, q * 254);
    let k = pow(10, q * 254);
    let a = pow(x, 254);
    let b = pow(10, e);
    assert(q * 254 == 254 * q);
    assert(((a * k >= b * k) <==> (a >= b)) && ((a * k <= b * k) <==> (a <= b)))
        by (nonlinear_arith)
        requires
            k > 0,
    ;
}

/// The product of two lower bounds is a lower bound of the product.
proof fn lemma_above_product(x: int, e1: nat, y: int, e2: nat)
    requires
        above(x, e1),
        above(y, e2),
    ensures
        above(x * y, e1 + e2),
{
    lemma_pow_distributes(x, y, 254);
    lemma_pow_adds(10, e1, e2);
    lemma_pow_positive(10, e1);
    lemma_pow_positive(10, e2);
    let a = pow(x, 254);
    let b = pow(y, 254);
    let c = pow(10, e1);
    let d = pow(10, e2);
    assert(a * b >= c * d) by (nonlinear_arith)
        requires
            a >= c,
            b >= d,
            c > 0,
            d > 0,
    ;
}

/// The product of two upper bounds is an upper bound of the product.
proof fn lemma_below_product(x: int, e1: nat, y: int, e2: nat)
    requires
        0 <= x,
        0 <= y,
        pow(x, 254) <= pow(10, e1),
        pow(y, 254) <= pow(10, e2),
    ensures
        pow(x * y, 254) <= pow(10, e1 + e2),
{
    lemma_pow_distributes(x, y, 254);
    lemma_pow_adds(10, e1, e2);
    lemma_pow_base_increases(0, x, 254);
    lemma_pow_base_increases(0, y, 254);
    let a = pow(x, 254);
    let b = pow(y, 254);
    let c = pow(10, e1);
    let d = pow(10, e2);
    assert(a * b <= c * d) by (nonlinear_arith)
        requires
            0 <= a <= c,
            0 <= b <= d,
    ;
}

/// The powers of ten that the scales are.
proof fn lemma_scales()
    ensures
        pow(10, 3) == 1000,
        pow(10, 6) == 1_000_000,
        pow(10, 12) == root_scale(),
{
    lemma_small_powers(10);
    assert(pow(10, 3) == 1000);
    lemma_pow_adds(10, 3, 3);
    assert(pow(10, 6) == 1_000_000);
    lemma_pow_adds(10, 6, 6);
}

/// The 127th power by squaring.
pub open spec fn power127(x: int) -> int {
    let x2 = x * x;
    let x4 = x2 * x2;
    let x8 = x4 * x4;
    let x16 = x8 * x8;
    let x32 = x16 * x16;
    let x64 = x32 * x32;
    x64 * x32 * x16 * x8 * x4 * x2 * x
}

proof fn lemma_power127(x: int)
    ensures
        pow(x, 127) == power127(x),
{
    lemma_pow1(x);
    lemma_pow_adds(x, 1, 1);
    lemma_pow_adds(x, 2, 2);
    lemma_pow_adds(x, 4, 4);
    lemma_pow_adds(x, 8, 8);
    lemma_pow_adds(x, 16, 16);
    lemma_pow_adds(x, 32, 32);
    lemma_pow_adds(x, 64, 32);
    lemma_pow_adds(x, 96, 16);
    lemma_pow_adds(x, 112, 8);
    lemma_pow_adds(x, 120, 4);
    lemma_pow_adds(x, 124, 2);
    lemma_pow_adds(x, 126, 1);
}

/// The upper bound of the 127th root of a thousand is one.
proof fn lemma_step_above()
    ensures
        pow(step_above(), 127) >= 1000 * pow(root_scale(), 127),
{
    let y = step_above();
    let g = root_scale();
    lemma_power127(y);
    lemma_power127(g);
    let y2 = y * y;
    let y4 = y2 * y2;
    let y8 = y4 * y4;
    let y16 = y8 * y8;
    let y32 = y16 * y16;
    let y64 = y32 * y32;
    let y127 = y64 * y32 * y16 * y8 * y4 * y2 * y;
    let g2 = g * g;
    let g4 = g2 * g2;
    let g8 = g4 * g4;
    let g16 = g8 * g8;
    let g32 = g16 * g16;
    let g64 = g32 * g32;
    let g127 = g64 * g32 * g16 * g8 * g4 * g2 * g;
    assert(y127 >= 1000 * g127) by (nonlinear_arith)
        requires
            y == 1055898194434,
            g == 1_000_000_000_000,
            y2 == y * y,
            y4 == y2 * y2,
            y8 == y4 * y4,
            y16 == y8 * y8,
            y32 == y16 * y16,
            y64 == y32 * y32,
            y127 == y64 * y32 * y16 * y8 * y4 * y2 * y,
            g2 == g * g,
            g4 == g2 * g2,
            g8 == g4 * g4,
            g16 == g8 * g8,
            g32 == g16 * g16,
            g64 == g32 * g32,
            g127 == g64 * g32 * g16 * g8 * g4 * g2 * g,
    ;
}

/// The lower bound of the 127th root of a thousand is one.
proof fn lemma_step_below()
    ensures
        pow(step_below(), 127) <= 1000 * pow(root_scale(), 127),
{
    let y = step_below();
    let g = root_scale();
    lemma_power127(y);
    lemma_power127(g);
    let y2 = y * y;
    let y4 = y2 * y2;
    let y8 = y4 * y4;
    let y16 = y8 * y8;
    let y32 = y16 * y16;
    let y64 = y32 * y32;
    let y127 = y64 * y32 * y16 * y8 * y4 * y2 * y;
    let g2 = g * g;
    let g4 = g2 * g2;
    let g8 = g4 * g4;
    let g16 = g8 * g8;
    let g32 = g16 * g16;
    let g64 = g32 * g32;
    let g127 = g64 * g32 * g16 * g8 * g4 * g2 * g;
    assert(y127 <= 1000 * g127) by (nonlinear_arith)
        requires
            y == 1055898194433,
            g == 1_000_000_000_000,
            y2 == y * y,
            y4 == y2 * y2,
            y8 == y4 * y4,
            y16 == y8 * y8,
            y32 == y16 * y16,
            y64 == y32 * y32,
            y127 == y64 * y32 * y16 * y8 * y4 * y2 * y,
            g2 == g * g,
            g4 == g2 * g2,
            g8 == g4 * g4,
            g16 == g8 * g8,
            g32 == g16 * g16,
            g64 == g32 * g32,
            g127 == g64 * g32 * g16 * g8 * g4 * g2 * g,
    ;
}

/// The bounds bracket the 127th root of a thousand, which is the 254th root
/// of a million, and its square root, the 254th root of a thousand.
proof fn lemma_step_bracket()
    ensures
        above(step_above(), 3054),
        pow(step_below(), 254) <= pow(10, 3054),
        above(half_step_above(), 3051),
        pow(half_step_below(), 254) <= pow(10, 3051),
{
    let g = root_scale();
    let su = step_above();
    let sl = step_below();
    let hu = half_step_above();
    let hl = half_step_below();
    lemma_step_above();
    lemma_step_below();
    lemma_scales();
    lemma_small_powers(g);
    lemma_small_powers(hu);
    lemma_small_powers(hl);
    // (10^12)^254 is 10^3048
    lemma_pow_multiplies(10, 12, 254);
    lemma_pow_adds(10, 3, 3048);
    lemma_pow_adds(10, 6, 3048);
    // the square roots
    assert(hu * hu >= su * g && hl * hl <= sl * g) by (nonlinear_arith)
        requires
            hu == 1027569070396,
            hl == 1027569070395,
            su == 1055898194434,
            sl == 1055898194433,
            g == 1_000_000_000_000,
    ;
    lemma_root_of_root_above(g, su, hu, 1000, 127, 2);
    lemma_root_of_root_below(g, sl, hl, 1000, 127, 2);
    // the squares of the 127th powers
    let top = 1000 * pow(g, 127);
    lemma_pow_positive(g, 127);
    lemma_pow_multiplies(su, 127, 2);
    lemma_pow_multiplies(sl, 127, 2);
    lemma_pow_multiplies(g, 127, 2);
    lemma_pow_distributes(1000, pow(g, 127), 2);
    lemma_small_powers(1000);
    lemma_pow_base_increases(top, pow(su, 127), 2);
    lemma_pow_base_increases(0, sl, 127);
    lemma_pow_base_increases(pow(sl, 127), top, 2);
}

/// The two bounds bracket edge `k` at every step.
proof fn lemma_edge_bracket(k: nat)
    requires
        k >= 1,
    ensures
        0 <= edge_below(k),
        0 <= edge_above(k),
        above(edge_above(k), 6 * k + 3807),
        pow(edge_below(k), 254) <= pow(10, 6 * k + 3807),
    decreases k,
{
    let g = root_scale();
    lemma_scales();
    lemma_step_bracket();
    if k == 1 {
        lemma_above_scaled(half_step_above(), 3, 3051);
        lemma_above_scaled(half_step_below(), 3, 3051);
    } else {
        let i = (k - 1) as nat;
        lemma_edge_bracket(i);
        let u = edge_above(i);
        let su = step_above();
        let next = edge_above(k);
        lemma_above_product(u, 6 * i + 3807, su, 3054);
        assert(0 <= u * su) by (nonlinear_arith)
            requires
                0 <= u,
                0 <= su,
        ;
        assert(next * g >= u * su && next >= 0) by (nonlinear_arith)
            requires
                next == (u * su) / g + 1,
                0 <= u * su,
                g > 0,
        ;
        lemma_pow_base_increases(u * su, next * g, 254);
        lemma_above_scaled(next, 12, 6 * k + 3807);
        let l = edge_below(i);
        let sl = step_below();
        let low = edge_below(k);
        lemma_below_product(l, 6 * i + 3807, sl, 3054);
        assert(0 <= low && low * g <= l * sl) by (nonlinear_arith)
            requires
                low == (l * sl) / g,
                0 <= l,
                0 <= sl,
                g > 0,
        ;
        lemma_pow_base_increases(low * g, l * sl, 254);
        lemma_above_scaled(low, 12, 6 * k + 3807);
    }
}

/// A whole number at or above the upper bound of edge `k` has reached it.
proof fn lemma_edge_reached(n: int, k: nat)
    requires
        k >= 1,
        n * 1_000_000_000_000 >= edge_above(k),
    ensures
        above(n, 6 * k + 759),
{
    lemma_edge_bracket(k);
    lemma_scales();
    lemma_pow_base_increases(edge_above(k), n * pow(10, 12), 254);
    lemma_above_scaled(n, 12, 6 * k + 759);
}

/// A whole number below the lower bound of edge `k` has not reached it.
proof fn lemma_edge_not_reached(n: int, k: nat)
    requires
        k >= 1,
        0 <= n,
        n * 1_000_000_000_000 < edge_below(k),
    ensures
        !above(n, 6 * k + 759),
{
    lemma_edge_bracket(k);
    lemma_scales();
    lemma_pow_base_strictly_increases(n * pow(10, 12), edge_below(k), 254);
    lemma_above_scaled(n, 12, 6 * k + 759);
}

/// The MIDI velocity of an amplitude in millionths of full scale: its level
/// in decibels, `20 log10(amplitude / 10^6)`, mapped from -60 dB to 0 dB onto
/// 0 to 127 and rounded to the nearest whole number. Levels beyond the range
/// count as its ends, and silence has the velocity 0.
pub fn amplitude_to_velocity(amplitude: u32) -> (velocity: u8)
    ensures
        is_velocity(amplitude as nat, velocity as int),
        velocity as int == velocity_of_amplitude(amplitude as nat),
{
    let mut upper: u128 = 1_027_569_070_396_000;
    let mut next: u8 = 1;
    proof {
        assert(edge_above(1) == 1000 * half_step_above());
    }
    while next <= 127
        invariant_except_break
            1 <= next <= 128,
            next <= 127 ==> upper as int == edge_above(next as nat),
            reaches_velocity(amplitude as nat, next - 1),
        ensures
            1 <= next <= 128,
            reaches_velocity(amplitude as nat, next - 1),
            next <= 127 ==> !reaches_velocity(amplitude as nat, next as int),
        decreases 128 - next,
    {
        proof {
            lemma_brackets_are_tight(next as nat);
            reveal(bracket_is_tight);
        }
        let edge: u128 = (upper + 999_999_999_999) / 1_000_000_000_000;
        if (amplitude as u128) < edge {
            proof {
                let low = edge_below(next as nat);
                assert(amplitude * 1_000_000_000_000 < low) by (nonlinear_arith)
                    requires
                        amplitude + 1 <= (low + 999_999_999_999) / 1_000_000_000_000,
                ;
                lemma_edge_not_reached(amplitude as int, next as nat);
            }
            break;
        }
        proof {
            assert(amplitude * 1_000_000_000_000 >= upper) by (nonlinear_arith)
                requires
                    amplitude >= (upper + 999_999_999_999) / 1_000_000_000_000,
            ;
            lemma_edge_reached(amplitude as int, next as nat);
        }
        next = next + 1;
        if next <= 127 {
            upper = upper * 1_055_898_194_434 / 1_000_000_000_000 + 1;
        }
    }
    proof {
        lemma_velocity_unique(amplitude as nat, next - 1);
    }
    next - 1
}

/// An amplitude that reaches a velocity reaches every lower one.
proof fn lemma_reaches_lower_velocity(amplitude: nat, lo: int, hi: int)
    requires
        lo <= hi,
        reaches_velocity(amplitude, hi),
    ensures
        reaches_velocity(amplitude, lo),
{
    if lo >= 1 {
        lemma_pow_increases(10, (6 * lo + 759) as nat, (6 * hi + 759) as nat);
    }
}

/// At most one velocity is that of an amplitude.
pub proof fn lemma_velocity_unique(amplitude: nat, v: int)
    requires
        is_velocity(amplitude, v),
    ensures
        velocity_of_amplitude(amplitude) == v,
{
    let w = velocity_of_amplitude(amplitude);
    assert(is_velocity(amplitude, w));
    if w < v {
        lemma_reaches_lower_velocity(amplitude, w + 1, v);
    } else if v < w {
        lemma_reaches_lower_velocity(amplitude, v + 1, w);
    }
}

/// A louder amplitude never has a lower velocity.
pub proof fn lemma_louder_has_no_lower_velocity(a: nat, va: int, b: nat, vb: int)
    requires
        a <= b,
        is_velocity(a, va),
        is_velocity(b, vb),
    ensures
        va <= vb,
{
    if va > vb {
        lemma_pow_base_increases(a as int, b as int, 254);
        assert(reaches_velocity(b, va));
        lemma_reaches_lower_velocity(b, vb + 1, va);
    }
}

/// Silence has the velocity 0, and full scale the velocity 127.
pub proof fn lemma_velocity_of_silence_and_full_scale()
    ensures
        is_velocity(0, 0),
        is_velocity(1_000_000, 127),
{
    lemma_pow_positive(10, 765);
    assert(pow(0, 254) == 0) by {
        reveal(pow);
    }
    // (10^6)^254 = 10^1524 >= 10^1521
    lemma_scales();
    lemma_pow_multiplies(10, 6, 254);
    lemma_pow_increases(10, 1521, 1524);
}

} // verus!
