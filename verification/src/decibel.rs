//! Levels in decibels relative to full scale, and the MIDI velocity of a
//! level that is given in decibels.
//!
//! A level is held in tenths of a decibel. An amplitude `a` is at least
//! `d - 1/2` tenths exactly where `(a / 10^6)^400 >= 10^(2d - 1)`, a
//! comparison of whole numbers; this is what the contracts state. The
//! edges between tenths are irrational, so the code brackets each between
//! two whole numbers that it derives from a bracket of the 400th root of
//! ten, and the proofs show that no amplitude falls inside a bracket.

use vstd::prelude::*;
use vstd::arithmetic::power::{
    pow,
    lemma_pow1,
    lemma_pow_adds,
    lemma_pow_distributes,
    lemma_pow_multiplies,
    lemma_pow_positive,
    lemma_pow_increases,
};
use crate::decibel_edges::{
    bracket_is_tight,
    edge_above,
    edge_below,
    lemma_brackets_are_tight,
    root_above,
    root_below,
    root_scale,
    step_above,
    step_below,
};
use crate::power::{
    lemma_pow_base_increases,
    lemma_pow_base_strictly_increases,
    lemma_root_of_root_above,
    lemma_root_of_root_below,
    lemma_small_powers,
};

verus! {

/// The level of silence, in tenths of a decibel.
pub const DB_FLOOR: i32 = -600;

/// `x` is at least ten to the power `e / 400`.
pub open spec fn above(x: int, e: nat) -> bool {
    pow(x, 400) >= pow(10, e)
}

/// `amplitude`, in millionths of full scale, is at least `d - 1/2` tenths of
/// a decibel: `(amplitude / 10^6)^400 >= 10^(2d - 1)`.
pub open spec fn reaches_tenth(amplitude: nat, d: int) -> bool {
    2399 + 2 * d < 0 || above(amplitude as int, (2399 + 2 * d) as nat)
}

/// `d` is the level of `amplitude` in tenths of a decibel, to the nearest
/// tenth: `20 log10(amplitude / 10^6)` lies within half a tenth of `d / 10`.
/// An amplitude of 0 is silence, at the floor.
pub open spec fn is_decibels(amplitude: nat, d: int) -> bool {
    if amplitude == 0 {
        d == DB_FLOOR
    } else {
        reaches_tenth(amplitude, d) && !reaches_tenth(amplitude, d + 1)
    }
}

/// The level of `amplitude` in tenths of a decibel.
pub open spec fn decibels_of(amplitude: nat) -> int {
    choose|d: int| is_decibels(amplitude, d)
}

/// Multiplying by `10^q` raises the exponent by `400 q`.
proof fn lemma_above_scaled(x: int, q: nat, e: nat)
    ensures
        above(x * pow(10, q), e + 400 * q) <==> above(x, e),
{
    let m = pow(10, q);
    lemma_pow_distributes(x, m, 400);
    lemma_pow_multiplies(10, q, 400);
    lemma_pow_adds(10, e, q * 400);
    lemma_pow_positive(10, q * 400);
    let k = pow(10, q * 400);
    let a = pow(x, 400);
    let b = pow(10, e);
    assert(q * 400 == 400 * q);
    assert((a * k >= b * k) <==> (a >= b)) by (nonlinear_arith)
        requires
            k > 0,
    ;
}

/// The product of two lower bounds is a lower bound of the product.
proof fn lemma_above_product(x: int, e1: nat, y: int, e2: nat)
    requires
        above(x, e1),
        above(y, e2),
    ensures
        above(x * y, e1 + e2),
{
    lemma_pow_distributes(x, y, 400);
    lemma_pow_adds(10, e1, e2);
    lemma_pow_positive(10, e1);
    lemma_pow_positive(10, e2);
    let a = pow(x, 400);
    let b = pow(y, 400);
    let c = pow(10, e1);
    let d = pow(10, e2);
    assert(a * b >= c * d) by (nonlinear_arith)
        requires
            a >= c,
            b >= d,
            c > 0,
            d > 0,
    ;
}

/// The product of two upper bounds is an upper bound of the product.
proof fn lemma_below_product(x: int, e1: nat, y: int, e2: nat)
    requires
        0 <= x,
        0 <= y,
        pow(x, 400) <= pow(10, e1),
        pow(y, 400) <= pow(10, e2),
    ensures
        pow(x * y, 400) <= pow(10, e1 + e2),
{
    lemma_pow_distributes(x, y, 400);
    lemma_pow_adds(10, e1, e2);
    lemma_pow_base_increases(0, x, 400);
    lemma_pow_base_increases(0, y, 400);
    let a = pow(x, 400);
    let b = pow(y, 400);
    let c = pow(10, e1);
    let d = pow(10, e2);
    assert(a * b <= c * d) by (nonlinear_arith)
        requires
            0 <= a <= c,
            0 <= b <= d,
    ;
}

/// The two bounds bracket the 400th root of ten.
proof fn lemma_root_bracket()
    ensures
        above(root_above(), 7201),
        pow(root_below(), 400) <= pow(10, 7201),
{
    let g = root_scale();
    lemma_small_powers(g);
    lemma_pow1(10 * g);
    // upper bounds of the roots of order 2, 4, 8, 16, 80 and 400
    let a1: int = 3162277660168379332;
    let a2: int = 1778279410038922802;
    let a3: int = 1333521432163324026;
    let a4: int = 1154781984689458180;
    let a5: int = 1029200527194428170;
    let a6: int = root_above();
    lemma_small_powers(a1);
    lemma_small_powers(a2);
    lemma_small_powers(a3);
    lemma_small_powers(a4);
    lemma_small_powers(a5);
    lemma_small_powers(a6);
    assert(a1 * a1 >= (10 * g) * g) by (nonlinear_arith)
        requires
            a1 == 3162277660168379332,
            g == 1_000_000_000_000_000_000,
    ;
    assert(a2 * a2 >= a1 * g) by (nonlinear_arith)
        requires
            a2 == 1778279410038922802,
            a1 == 3162277660168379332,
            g == 1_000_000_000_000_000_000,
    ;
    assert(a3 * a3 >= a2 * g) by (nonlinear_arith)
        requires
            a3 == 1333521432163324026,
            a2 == 1778279410038922802,
            g == 1_000_000_000_000_000_000,
    ;
    assert(a4 * a4 >= a3 * g) by (nonlinear_arith)
        requires
            a4 == 1154781984689458180,
            a3 == 1333521432163324026,
            g == 1_000_000_000_000_000_000,
    ;
    assert(a5 * a5 * (a5 * a5) * a5 >= a4 * (g * g * (g * g))) by (nonlinear_arith)
        requires
            a5 == 1029200527194428170,
            a4 == 1154781984689458180,
            g == 1_000_000_000_000_000_000,
    ;
    assert(a6 * a6 * (a6 * a6) * a6 >= a5 * (g * g * (g * g))) by (nonlinear_arith)
        requires
            a6 == 1005773063001738243,
            a5 == 1029200527194428170,
            g == 1_000_000_000_000_000_000,
    ;
    lemma_root_of_root_above(g, 10 * g, a1, 10, 1, 2);
    lemma_root_of_root_above(g, a1, a2, 10, 2, 2);
    lemma_root_of_root_above(g, a2, a3, 10, 4, 2);
    lemma_root_of_root_above(g, a3, a4, 10, 8, 2);
    lemma_root_of_root_above(g, a4, a5, 10, 16, 5);
    lemma_root_of_root_above(g, a5, a6, 10, 80, 5);
    // lower bounds of the same roots
    let b1: int = 3162277660168379331;
    let b2: int = 1778279410038922800;
    let b3: int = 1333521432163324025;
    let b4: int = 1154781984689458179;
    let b5: int = 1029200527194428169;
    let b6: int = root_below();
    lemma_small_powers(b1);
    lemma_small_powers(b2);
    lemma_small_powers(b3);
    lemma_small_powers(b4);
    lemma_small_powers(b5);
    lemma_small_powers(b6);
    assert(b1 * b1 <= (10 * g) * g) by (nonlinear_arith)
        requires
            b1 == 3162277660168379331,
            g == 1_000_000_000_000_000_000,
    ;
    assert(b2 * b2 <= b1 * g) by (nonlinear_arith)
        requires
            b2 == 1778279410038922800,
            b1 == 3162277660168379331,
            g == 1_000_000_000_000_000_000,
    ;
    assert(b3 * b3 <= b2 * g) by (nonlinear_arith)
        requires
            b3 == 1333521432163324025,
            b2 == 1778279410038922800,
            g == 1_000_000_000_000_000_000,
    ;
    assert(b4 * b4 <= b3 * g) by (nonlinear_arith)
        requires
            b4 == 1154781984689458179,
            b3 == 1333521432163324025,
            g == 1_000_000_000_000_000_000,
    ;
    assert(b5 * b5 * (b5 * b5) * b5 <= b4 * (g * g * (g * g))) by (nonlinear_arith)
        requires
            b5 == 1029200527194428169,
            b4 == 1154781984689458179,
            g == 1_000_000_000_000_000_000,
    ;
    assert(b6 * b6 * (b6 * b6) * b6 <= b5 * (g * g * (g * g))) by (nonlinear_arith)
        requires
            b6 == 1005773063001738242,
            b5 == 1029200527194428169,
            g == 1_000_000_000_000_000_000,
    ;
    lemma_root_of_root_below(g, 10 * g, b1, 10, 1, 2);
    lemma_root_of_root_below(g, b1, b2, 10, 2, 2);
    lemma_root_of_root_below(g, b2, b3, 10, 4, 2);
    lemma_root_of_root_below(g, b3, b4, 10, 8, 2);
    lemma_root_of_root_below(g, b4, b5, 10, 16, 5);
    lemma_root_of_root_below(g, b5, b6, 10, 80, 5);
    // 10 * (10^18)^400 is 10^7201
    lemma_scale_is_power();
    lemma_pow_multiplies(10, 18, 400);
    lemma_pow_adds(10, 1, 7200);
    lemma_pow1(10);
}

/// The root scale is `10^18`.
proof fn lemma_scale_is_power()
    ensures
        pow(10, 18) == root_scale(),
        pow(10, 10) == 10_000_000_000,
{
    lemma_small_powers(10);
    assert(pow(10, 4) == 10_000);
    assert(pow(10, 5) == 100_000);
    lemma_pow_adds(10, 5, 5);
    assert(pow(10, 10) == 10_000_000_000);
    lemma_pow_adds(10, 4, 4);
    assert(pow(10, 8) == 100_000_000);
    lemma_pow_adds(10, 10, 8);
}

/// Multiplying by `10^q` raises the exponent of an upper bound by `400 q`.
proof fn lemma_below_scaled(x: int, q: nat, e: nat)
    ensures
        pow(x * pow(10, q), 400) <= pow(10, e + 400 * q) <==> pow(x, 400) <= pow(10, e),
{
    let m = pow(10, q);
    lemma_pow_distributes(x, m, 400);
    lemma_pow_multiplies(10, q, 400);
    lemma_pow_adds(10, e, q * 400);
    lemma_pow_positive(10, q * 400);
    let k = pow(10, q * 400);
    let a = pow(x, 400);
    let b = pow(10, e);
    assert(q * 400 == 400 * q);
    assert((a * k <= b * k) <==> (a <= b)) by (nonlinear_arith)
        requires
            k > 0,
    ;
}

/// The two bounds bracket the 200th root of ten.
proof fn lemma_step_bracket()
    ensures
        above(step_above(), 7202),
        pow(step_below(), 400) <= pow(10, 7202),
{
    lemma_root_bracket();
    lemma_scale_is_power();
    let g = root_scale();
    let h = root_above();
    let l = root_below();
    let u = step_above();
    let v = step_below();
    lemma_above_product(h, 7201, h, 7201);
    assert(u * g >= h * h && h * h >= 0) by (nonlinear_arith)
        requires
            u == 1011579454259898525,
            h == 1005773063001738243,
            g == 1_000_000_000_000_000_000,
    ;
    lemma_pow_base_increases(h * h, u * g, 400);
    lemma_above_scaled(u, 18, 7202);
    lemma_below_product(l, 7201, l, 7201);
    assert(0 <= v * g <= l * l) by (nonlinear_arith)
        requires
            v == 1011579454259898522,
            l == 1005773063001738242,
            g == 1_000_000_000_000_000_000,
    ;
    lemma_pow_base_increases(v * g, l * l, 400);
    lemma_below_scaled(v, 18, 7202);
}

/// The two bounds bracket edge `j` at every step.
proof fn lemma_edge_bracket(j: nat)
    requires
        j >= 1,
    ensures
        0 <= edge_below(j),
        0 <= edge_above(j),
        above(edge_above(j), 7599 + 2 * j),
        pow(edge_below(j), 400) <= pow(10, 7599 + 2 * j),
    decreases j,
{
    let g = root_scale();
    lemma_scale_is_power();
    if j == 1 {
        lemma_root_bracket();
        lemma_pow1(10);
        lemma_above_scaled(root_above(), 1, 7201);
        lemma_below_scaled(root_below(), 1, 7201);
    } else {
        let i = (j - 1) as nat;
        lemma_edge_bracket(i);
        lemma_step_bracket();
        let u = edge_above(i);
        let su = step_above();
        let next = edge_above(j);
        lemma_above_product(u, 7599 + 2 * i, su, 7202);
        assert(0 <= u * su) by (nonlinear_arith)
            requires
                0 <= u,
                0 <= su,
        ;
        assert(next * g >= u * su) by (nonlinear_arith)
            requires
                next == (u * su) / g + 1,
                g > 0,
        ;
        lemma_pow_base_increases(u * su, next * g, 400);
        lemma_above_scaled(next, 18, 7599 + 2 * j);
        assert(next >= 0) by (nonlinear_arith)
            requires
                next == (u * su) / g + 1,
                0 <= u * su,
                g > 0,
        ;
        let l = edge_below(i);
        let sl = step_below();
        let low = edge_below(j);
        lemma_below_product(l, 7599 + 2 * i, sl, 7202);
        assert(0 <= low && low * g <= l * sl) by (nonlinear_arith)
            requires
                low == (l * sl) / g,
                0 <= l,
                0 <= sl,
                g > 0,
        ;
        lemma_pow_base_increases(low * g, l * sl, 400);
        lemma_below_scaled(low, 18, 7599 + 2 * j);
    }
}

/// A whole number at or above the upper bound of edge `j` has reached it.
proof fn lemma_edge_reached(n: int, j: nat)
    requires
        j >= 1,
        n * 10_000_000_000 >= edge_above(j),
    ensures
        above(n, 3599 + 2 * j),
{
    lemma_edge_bracket(j);
    lemma_scale_is_power();
    lemma_pow_base_increases(edge_above(j), n * pow(10, 10), 400);
    lemma_above_scaled(n, 10, 3599 + 2 * j);
}

/// A whole number below the lower bound of edge `j` has not reached it.
proof fn lemma_edge_not_reached(n: int, j: nat)
    requires
        j >= 1,
        0 <= n,
        n * 10_000_000_000 < edge_below(j),
    ensures
        !above(n, 3599 + 2 * j),
{
    lemma_edge_bracket(j);
    lemma_scale_is_power();
    lemma_pow_base_strictly_increases(n * pow(10, 10), edge_below(j), 400);
    lemma_above_scaled(n, 10, 3599 + 2 * j);
}

/// How many of the 200 edges of its decade a number has reached.
fn edges_reached(n: u64) -> (count: u32)
    requires
        1_000_000_000 <= n < 10_000_000_000,
    ensures
        count <= 200,
        count >= 1 ==> above(n as int, (3599 + 2 * count) as nat),
        count < 200 ==> !above(n as int, (3601 + 2 * count) as nat),
{
    let mut upper: u128 = 10_057_730_630_017_382_430;
    let mut next: u32 = 1;
    proof {
        assert(edge_above(1) == 10 * root_above());
    }
    while next <= 200
        invariant_except_break
            1 <= next <= 201,
            next <= 200 ==> upper as int == edge_above(next as nat),
            next >= 2 ==> above(n as int, (3597 + 2 * next) as nat),
        invariant
            1_000_000_000 <= n < 10_000_000_000,
        ensures
            1 <= next <= 201,
            next >= 2 ==> above(n as int, (3597 + 2 * next) as nat),
            next <= 200 ==> !above(n as int, (3599 + 2 * next) as nat),
        decreases 201 - next,
    {
        proof {
            lemma_brackets_are_tight(next as nat);
            reveal(bracket_is_tight);
        }
        let edge: u128 = (upper + 9_999_999_999) / 10_000_000_000;
        if (n as u128) < edge {
            proof {
                let low = edge_below(next as nat);
                assert(n * 10_000_000_000 < low) by (nonlinear_arith)
                    requires
                        n + 1 <= (low + 9_999_999_999) / 10_000_000_000,
                ;
                lemma_edge_not_reached(n as int, next as nat);
            }
            break;
        }
        proof {
            assert(n * 10_000_000_000 >= upper) by (nonlinear_arith)
                requires
                    n >= (upper + 9_999_999_999) / 10_000_000_000,
            ;
            lemma_edge_reached(n as int, next as nat);
        }
        next = next + 1;
        if next <= 200 {
            upper = upper * 1_011_579_454_259_898_525 / 1_000_000_000_000_000_000 + 1;
        }
    }
    next - 1
}

/// The powers of ten up to the ninth.
proof fn lemma_decades(k: nat)
    requires
        k <= 9,
    ensures
        pow(10, k) == if k == 0 {
            1int
        } else if k == 1 {
            10
        } else if k == 2 {
            100
        } else if k == 3 {
            1_000
        } else if k == 4 {
            10_000
        } else if k == 5 {
            100_000
        } else if k == 6 {
            1_000_000
        } else if k == 7 {
            10_000_000
        } else if k == 8 {
            100_000_000
        } else {
            1_000_000_000
        },
    decreases k,
{
    reveal(pow);
    if k > 0 {
        lemma_decades((k - 1) as nat);
    }
}

/// The level of an amplitude in tenths of a decibel relative to full scale,
/// to the nearest tenth. An amplitude of 0, which is any below a millionth of
/// full scale, is at the floor of -60 dB.
pub fn amplitude_to_db(amplitude: u32) -> (db: i32)
    ensures
        is_decibels(amplitude as nat, db as int),
        amplitude > 0 ==> -1200 <= db <= 800,
{
    if amplitude == 0 {
        return DB_FLOOR;
    }
    // bring the amplitude into the decade that begins at 10^9
    let mut n: u64 = amplitude as u64;
    let mut decade: u32 = 9;
    proof {
        lemma_decades(0);
    }
    while n < 1_000_000_000
        invariant
            0 < n < 10_000_000_000,
            decade <= 9,
            n as int == amplitude * pow(10, (9 - decade) as nat),
            n < 1_000_000_000 ==> decade >= 1,
            n >= pow(10, (9 - decade) as nat),
        decreases 10_000_000_000 - n,
    {
        proof {
            lemma_decades((9 - decade) as nat);
            lemma_decades((10 - decade) as nat);
            assert(amplitude * (pow(10, (9 - decade) as nat) * 10) == (amplitude * pow(
                10,
                (9 - decade) as nat,
            )) * 10) by (nonlinear_arith);
            assert(decade >= 1) by {
                if decade == 0 {
                    assert(n >= 1_000_000_000);
                }
            }
        }
        n = n * 10;
        decade = decade - 1;
    }
    let count: u32 = edges_reached(n);
    let db: i32 = 200 * (decade as i32 - 6) + count as i32;
    proof {
        let a = amplitude as int;
        let k = decade as nat;
        let q = (9 - decade) as nat;
        lemma_decades(q);
        lemma_decades(k);
        lemma_decades(0);
        // 10^k <= a < 10^(k + 1)
        assert(n == a * pow(10, q));
        assert(2399 + 2 * db == 400 * k + 2 * count - 1);
        if count >= 1 {
            lemma_above_scaled(a, q, (400 * k + 2 * count - 1) as nat);
            assert((400 * k + 2 * count - 1) + 400 * q == 3599 + 2 * count);
        } else if k >= 1 {
            // a >= 10^k, so a^400 >= 10^(400 k) >= 10^(400 k - 1)
            assert(a >= pow(10, k)) by (nonlinear_arith)
                requires
                    a * pow(10, q) >= 1_000_000_000,
                    pow(10, q) * pow(10, k) == 1_000_000_000,
                    pow(10, q) > 0,
                    pow(10, k) > 0,
            ;
            lemma_pow_base_increases(pow(10, k), a, 400);
            lemma_pow_multiplies(10, k, 400);
            lemma_pow_increases(10, (400 * k - 1) as nat, k * 400);
        }
        if count < 200 {
            lemma_above_scaled(a, q, (400 * k + 2 * count + 1) as nat);
            assert((400 * k + 2 * count + 1) + 400 * q == 3601 + 2 * count);
        } else {
            // a < 10^(k + 1), so a^400 < 10^(400 k + 400) <= 10^(400 k + 401)
            lemma_pow_adds(10, k, 1);
            lemma_pow1(10);
            assert(a < pow(10, k) * 10) by (nonlinear_arith)
                requires
                    a * pow(10, q) < 10_000_000_000,
                    pow(10, q) * pow(10, k) == 1_000_000_000,
                    pow(10, q) > 0,
                    pow(10, k) > 0,
            ;
            lemma_pow_base_strictly_increases(a, pow(10, k + 1), 400);
            lemma_pow_multiplies(10, k + 1, 400);
            lemma_pow_increases(10, (k + 1) * 400, (400 * k + 401) as nat);
        }
    }
    db
}

/// A level that reaches a tenth reaches every lower one.
proof fn lemma_reaches_lower_tenth(amplitude: nat, lo: int, hi: int)
    requires
        lo <= hi,
        reaches_tenth(amplitude, hi),
    ensures
        reaches_tenth(amplitude, lo),
{
    if 2399 + 2 * lo >= 0 {
        lemma_pow_increases(10, (2399 + 2 * lo) as nat, (2399 + 2 * hi) as nat);
    }
}

/// At most one level is that of an amplitude.
pub proof fn lemma_decibels_unique(amplitude: nat, d: int)
    requires
        is_decibels(amplitude, d),
    ensures
        decibels_of(amplitude) == d,
{
    let c = decibels_of(amplitude);
    assert(is_decibels(amplitude, c));
    if amplitude > 0 {
        if c < d {
            lemma_reaches_lower_tenth(amplitude, c + 1, d);
        } else if d < c {
            lemma_reaches_lower_tenth(amplitude, d + 1, c);
        }
    }
}

/// A louder amplitude reaches every tenth that a softer one reaches.
proof fn lemma_louder_reaches(a: nat, b: nat, d: int)
    requires
        a <= b,
        reaches_tenth(a, d),
    ensures
        reaches_tenth(b, d),
{
    lemma_pow_base_increases(a as int, b as int, 400);
}

/// Of two amplitudes above silence the louder has the higher level, or the
/// same.
pub proof fn lemma_louder_is_higher(a: nat, level_a: int, b: nat, level_b: int)
    requires
        0 < a <= b,
        is_decibels(a, level_a),
        is_decibels(b, level_b),
    ensures
        level_a <= level_b,
{
    if level_a > level_b {
        lemma_louder_reaches(a, b, level_a);
        lemma_reaches_lower_tenth(b, level_b + 1, level_a);
    }
}

/// An amplitude of at most full scale has a level of at most 0 dB.
pub proof fn lemma_normalized_is_at_most_zero(a: nat, level: int)
    requires
        a <= 1_000_000,
        is_decibels(a, level),
    ensures
        level <= 0,
{
    if a > 0 && level >= 1 {
        lemma_reaches_lower_tenth(a, 1, level);
        lemma_louder_reaches(a, 1_000_000, 1);
        lemma_full_scale_is_zero_decibels();
    }
}

/// The MIDI velocity of a level in tenths of a decibel: the range from
/// -60 dB to 0 dB mapped linearly onto 0 to 127 and rounded to the nearest
/// whole number, halves upward. Levels beyond the range count as its ends.
pub open spec fn velocity_of(db: int) -> int {
    if db <= -600 {
        0
    } else if db >= 0 {
        127
    } else {
        (254 * (db + 600) + 600) / 1200
    }
}

/// The MIDI velocity of a level in tenths of a decibel.
pub fn db_to_velocity(db: i32) -> (velocity: u8)
    ensures
        velocity as int == velocity_of(db as int),
        velocity <= 127,
{
    if db <= -600 {
        0
    } else if db >= 0 {
        127
    } else {
        ((254 * (db + 600) + 600) / 1200) as u8
    }
}

/// A louder level never has a lower velocity.
pub proof fn lemma_velocity_increases(lo: int, hi: int)
    requires
        lo <= hi,
    ensures
        0 <= velocity_of(lo) <= velocity_of(hi) <= 127,
{
}

/// Levels from 0 dB up have the velocity 127, levels down from -60 dB the
/// velocity 0.
pub proof fn lemma_velocity_at_the_ends(db: int)
    ensures
        db >= 0 ==> velocity_of(db) == 127,
        db <= -600 ==> velocity_of(db) == 0,
{
}

/// Full scale is at 0 dB.
pub proof fn lemma_full_scale_is_zero_decibels()
    ensures
        is_decibels(1_000_000, 0),
        decibels_of(1_000_000) == 0,
{
    lemma_decades(6);
    lemma_pow_multiplies(10, 6, 400);
    lemma_pow_increases(10, 2399, 2400);
    lemma_pow_adds(10, 2400, 1);
    lemma_pow1(10);
    lemma_pow_positive(10, 2400);
    lemma_decibels_unique(1_000_000, 0);
}

/// A louder amplitude never has a lower velocity, silence included.
pub proof fn lemma_louder_is_never_softer(a: nat, level_a: int, b: nat, level_b: int)
    requires
        a <= b,
        is_decibels(a, level_a),
        is_decibels(b, level_b),
    ensures
        velocity_of(level_a) <= velocity_of(level_b),
{
    if a > 0 {
        lemma_louder_is_higher(a, level_a, b, level_b);
        lemma_velocity_increases(level_a, level_b);
    } else {
        lemma_velocity_increases(level_b, level_b);
    }
}

/// Silence is at the floor of -60 dB, and has the velocity 0.
pub proof fn lemma_silence_is_at_the_floor()
    ensures
        is_decibels(0, DB_FLOOR as int),
        decibels_of(0) == DB_FLOOR,
        velocity_of(decibels_of(0)) == 0,
{
    lemma_decibels_unique(0, DB_FLOOR as int);
}

} // verus!
