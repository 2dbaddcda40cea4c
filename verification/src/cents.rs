//! Intervals in cents: how far a frequency lies from A4 at 440 Hz, where a
//! semitone is 100 cents and an octave 1200.
//!
//! A frequency `f` lies at least `c` cents above A4 exactly where
//! `(f / 440)^1200 >= 2^c`, a comparison of whole numbers; this is what the
//! contracts state. The edges between cents are irrational, so the code
//! brackets each between two whole numbers that it derives from a bracket of
//! the 1200th root of two, and the proofs show that no frequency falls inside
//! a bracket.

use vstd::prelude::*;
use vstd::arithmetic::power::{
    pow,
    lemma_pow0,
    lemma_pow1,
    lemma_pow_adds,
    lemma_pow_distributes,
    lemma_pow_multiplies,
    lemma_pow_positive,
    lemma_pow_increases,
};
use crate::note::{is_midi_note, reaches_note};
use crate::cent_edges::{
    bracket_is_tight,
    edge_above,
    edge_below,
    lemma_brackets_are_tight,
    octave_anchor,
    root_above,
    root_below,
    root_scale,
};
use crate::power::{
    lemma_quotient,
    lemma_pow_base_increases,
    lemma_pow_base_strictly_increases,
    lemma_root_of_root_above,
    lemma_root_of_root_below,
    lemma_small_powers,
};

verus! {

/// What stands for the cents of a frequency of 0, which lies below every
/// edge.
pub const CENTS_FLOOR: i32 = -24_001;

/// `x / s` is at least two to the power `e / 1200`.
pub open spec fn ratio_reaches(x: int, s: int, e: nat) -> bool {
    pow(x, 1200) >= pow(s, 1200) * pow(2, e)
}

/// `x / s` is at most two to the power `e / 1200`.
pub open spec fn ratio_within(x: int, s: int, e: nat) -> bool {
    pow(x, 1200) <= pow(s, 1200) * pow(2, e)
}

/// `frequency` millihertz lies at least `c` cents above A4:
/// `(frequency / 440000)^1200 >= 2^c`, stated with both sides multiplied by
/// `2^24000`.
pub open spec fn reaches_cent(frequency: nat, c: int) -> bool {
    c + 24_000 < 0 || ratio_reaches(frequency as int * 1_048_576, 440_000, (c + 24_000) as nat)
}

/// `c` is the interval from A4 to `frequency` in cents, rounded down:
/// `1200 log2(frequency / 440000)` lies in `c` to `c + 1`.
pub open spec fn is_cents(frequency: nat, c: int) -> bool {
    reaches_cent(frequency, c) && !reaches_cent(frequency, c + 1)
}

/// The interval from A4 to `frequency` in cents, rounded down.
pub open spec fn cents_of(frequency: nat) -> int {
    choose|c: int| is_cents(frequency, c)
}

/// Multiplying both sides of a ratio leaves it as it is.
proof fn lemma_ratio_scaled(x: int, s: int, e: nat, m: int)
    requires
        m > 0,
    ensures
        ratio_reaches(x * m, s * m, e) <==> ratio_reaches(x, s, e),
        ratio_within(x * m, s * m, e) <==> ratio_within(x, s, e),
{
    lemma_pow_distributes(x, m, 1200);
    lemma_pow_distributes(s, m, 1200);
    lemma_pow_positive(m, 1200);
    let k = pow(m, 1200);
    let a = pow(x, 1200);
    let b = pow(s, 1200);
    let c = pow(2, e);
    assert(((a * k >= (b * k) * c) <==> (a >= b * c)) && ((a * k <= (b * k) * c) <==> (a <= b
        * c))) by (nonlinear_arith)
        requires
            k > 0,
    ;
}

/// Multiplying by `2^q` raises the exponent by `1200 q`.
proof fn lemma_ratio_shifted(x: int, s: int, e: nat, q: nat)
    ensures
        ratio_reaches(x * pow(2, q), s, e + 1200 * q) <==> ratio_reaches(x, s, e),
{
    lemma_pow_distributes(x, pow(2, q), 1200);
    lemma_pow_multiplies(2, q, 1200);
    lemma_pow_adds(2, e, q * 1200);
    lemma_pow_positive(2, q * 1200);
    assert(q * 1200 == 1200 * q);
    let k = pow(2, q * 1200);
    let a = pow(x, 1200);
    let b = pow(s, 1200);
    let c = pow(2, e);
    assert((a * k >= b * (c * k)) <==> (a >= b * c)) by (nonlinear_arith)
        requires
            k > 0,
    ;
}

/// An anchor `2^q` times as high lowers the exponent by `1200 q`.
proof fn lemma_ratio_anchor(x: int, s: int, e: nat, q: nat)
    ensures
        ratio_reaches(x, s * pow(2, q), e) <==> ratio_reaches(x, s, e + 1200 * q),
{
    lemma_pow_distributes(s, pow(2, q), 1200);
    lemma_pow_multiplies(2, q, 1200);
    lemma_pow_adds(2, e, q * 1200);
    assert(q * 1200 == 1200 * q);
    let k = pow(2, q * 1200);
    let b = pow(s, 1200);
    let c = pow(2, e);
    assert((b * k) * c == b * (c * k)) by (nonlinear_arith);
}

/// The product of two lower bounds is a lower bound of the product.
proof fn lemma_ratio_product(x: int, s: int, e1: nat, y: int, t: int, e2: nat)
    requires
        s > 0,
        t > 0,
        ratio_reaches(x, s, e1),
        ratio_reaches(y, t, e2),
    ensures
        ratio_reaches(x * y, s * t, e1 + e2),
{
    lemma_pow_distributes(x, y, 1200);
    lemma_pow_distributes(s, t, 1200);
    lemma_pow_adds(2, e1, e2);
    lemma_pow_positive(2, e1);
    lemma_pow_positive(2, e2);
    lemma_pow_positive(s, 1200);
    lemma_pow_positive(t, 1200);
    let a = pow(x, 1200);
    let b = pow(y, 1200);
    let c = pow(s, 1200) * pow(2, e1);
    let d = pow(t, 1200) * pow(2, e2);
    assert(c > 0 && d > 0) by (nonlinear_arith)
        requires
            c == pow(s, 1200) * pow(2, e1),
            d == pow(t, 1200) * pow(2, e2),
            pow(s, 1200) > 0,
            pow(t, 1200) > 0,
            pow(2, e1) > 0,
            pow(2, e2) > 0,
    ;
    assert(a * b >= c * d) by (nonlinear_arith)
        requires
            a >= c,
            b >= d,
            c > 0,
            d > 0,
    ;
    assert(c * d == (pow(s, 1200) * pow(t, 1200)) * (pow(2, e1) * pow(2, e2)))
        by (nonlinear_arith)
        requires
            c == pow(s, 1200) * pow(2, e1),
            d == pow(t, 1200) * pow(2, e2),
    ;
}

/// The product of two upper bounds is an upper bound of the product.
proof fn lemma_ratio_product_within(x: int, s: int, e1: nat, y: int, t: int, e2: nat)
    requires
        0 <= x,
        0 <= y,
        ratio_within(x, s, e1),
        ratio_within(y, t, e2),
    ensures
        ratio_within(x * y, s * t, e1 + e2),
{
    lemma_pow_distributes(x, y, 1200);
    lemma_pow_distributes(s, t, 1200);
    lemma_pow_adds(2, e1, e2);
    lemma_pow_base_increases(0, x, 1200);
    lemma_pow_base_increases(0, y, 1200);
    let a = pow(x, 1200);
    let b = pow(y, 1200);
    let c = pow(s, 1200) * pow(2, e1);
    let d = pow(t, 1200) * pow(2, e2);
    assert(a * b <= c * d) by (nonlinear_arith)
        requires
            0 <= a <= c,
            0 <= b <= d,
    ;
    assert(c * d == (pow(s, 1200) * pow(t, 1200)) * (pow(2, e1) * pow(2, e2)))
        by (nonlinear_arith)
        requires
            c == pow(s, 1200) * pow(2, e1),
            d == pow(t, 1200) * pow(2, e2),
    ;
}

/// The two bounds bracket the 1200th root of two.
proof fn lemma_root_bracket()
    ensures
        ratio_reaches(root_above(), root_scale(), 1),
        ratio_within(root_below(), root_scale(), 1),
{
    let g = root_scale();
    lemma_small_powers(g);
    lemma_pow1(2 * g);
    lemma_pow1(2);
    // upper bounds of the roots of order 2, 4, 8, 16, 48, 240 and 1200
    let a1: int = 1792728671193156477399422023279;
    let a2: int = 1507499113128880389969770996486;
    let a3: int = 1382382781866639398002081157356;
    let a4: int = 1323774287096714591494552121733;
    let a5: int = 1286089002792301881187243775063;
    let a6: int = 1271317010681865396436335631987;
    let a7: int = root_above();
    lemma_small_powers(a1);
    lemma_small_powers(a2);
    lemma_small_powers(a3);
    lemma_small_powers(a4);
    lemma_small_powers(a5);
    lemma_small_powers(a6);
    lemma_small_powers(a7);
    assert(a1 * a1 >= (2 * g) * g) by (nonlinear_arith)
        requires
            a1 == 1792728671193156477399422023279,
            g == 1267650600228229401496703205376,
    ;
    assert(a2 * a2 >= a1 * g) by (nonlinear_arith)
        requires
            a2 == 1507499113128880389969770996486,
            a1 == 1792728671193156477399422023279,
            g == 1267650600228229401496703205376,
    ;
    assert(a3 * a3 >= a2 * g) by (nonlinear_arith)
        requires
            a3 == 1382382781866639398002081157356,
            a2 == 1507499113128880389969770996486,
            g == 1267650600228229401496703205376,
    ;
    assert(a4 * a4 >= a3 * g) by (nonlinear_arith)
        requires
            a4 == 1323774287096714591494552121733,
            a3 == 1382382781866639398002081157356,
            g == 1267650600228229401496703205376,
    ;
    assert(a5 * a5 * a5 >= a4 * (g * g)) by (nonlinear_arith)
        requires
            a5 == 1286089002792301881187243775063,
            a4 == 1323774287096714591494552121733,
            g == 1267650600228229401496703205376,
    ;
    assert(a6 * a6 * (a6 * a6) * a6 >= a5 * (g * g * (g * g))) by (nonlinear_arith)
        requires
            a6 == 1271317010681865396436335631987,
            a5 == 1286089002792301881187243775063,
            g == 1267650600228229401496703205376,
    ;
    assert(a7 * a7 * (a7 * a7) * a7 >= a6 * (g * g * (g * g))) by (nonlinear_arith)
        requires
            a7 == 1268383035443019241370469983167,
            a6 == 1271317010681865396436335631987,
            g == 1267650600228229401496703205376,
    ;
    lemma_root_of_root_above(g, 2 * g, a1, 2, 1, 2);
    lemma_root_of_root_above(g, a1, a2, 2, 2, 2);
    lemma_root_of_root_above(g, a2, a3, 2, 4, 2);
    lemma_root_of_root_above(g, a3, a4, 2, 8, 2);
    lemma_root_of_root_above(g, a4, a5, 2, 16, 3);
    lemma_root_of_root_above(g, a5, a6, 2, 48, 5);
    lemma_root_of_root_above(g, a6, a7, 2, 240, 5);
    // lower bounds of the same roots
    let b1: int = 1792728671193156477399422023278;
    let b2: int = 1507499113128880389969770996485;
    let b3: int = 1382382781866639398002081157354;
    let b4: int = 1323774287096714591494552121731;
    let b5: int = 1286089002792301881187243775061;
    let b6: int = 1271317010681865396436335631985;
    let b7: int = root_below();
    lemma_small_powers(b1);
    lemma_small_powers(b2);
    lemma_small_powers(b3);
    lemma_small_powers(b4);
    lemma_small_powers(b5);
    lemma_small_powers(b6);
    lemma_small_powers(b7);
    assert(b1 * b1 <= (2 * g) * g) by (nonlinear_arith)
        requires
            b1 == 1792728671193156477399422023278,
            g == 1267650600228229401496703205376,
    ;
    assert(b2 * b2 <= b1 * g) by (nonlinear_arith)
        requires
            b2 == 1507499113128880389969770996485,
            b1 == 1792728671193156477399422023278,
            g == 1267650600228229401496703205376,
    ;
    assert(b3 * b3 <= b2 * g) by (nonlinear_arith)
        requires
            b3 == 1382382781866639398002081157354,
            b2 == 1507499113128880389969770996485,
            g == 1267650600228229401496703205376,
    ;
    assert(b4 * b4 <= b3 * g) by (nonlinear_arith)
        requires
            b4 == 1323774287096714591494552121731,
            b3 == 1382382781866639398002081157354,
            g == 1267650600228229401496703205376,
    ;
    assert(b5 * b5 * b5 <= b4 * (g * g)) by (nonlinear_arith)
        requires
            b5 == 1286089002792301881187243775061,
            b4 == 1323774287096714591494552121731,
            g == 1267650600228229401496703205376,
    ;
    assert(b6 * b6 * (b6 * b6) * b6 <= b5 * (g * g * (g * g))) by (nonlinear_arith)
        requires
            b6 == 1271317010681865396436335631985,
            b5 == 1286089002792301881187243775061,
            g == 1267650600228229401496703205376,
    ;
    assert(b7 * b7 * (b7 * b7) * b7 <= b6 * (g * g * (g * g))) by (nonlinear_arith)
        requires
            b7 == 1268383035443019241370469983166,
            b6 == 1271317010681865396436335631985,
            g == 1267650600228229401496703205376,
    ;
    lemma_root_of_root_below(g, 2 * g, b1, 2, 1, 2);
    lemma_root_of_root_below(g, b1, b2, 2, 2, 2);
    lemma_root_of_root_below(g, b2, b3, 2, 4, 2);
    lemma_root_of_root_below(g, b3, b4, 2, 8, 2);
    lemma_root_of_root_below(g, b4, b5, 2, 16, 3);
    lemma_root_of_root_below(g, b5, b6, 2, 48, 5);
    lemma_root_of_root_below(g, b6, b7, 2, 240, 5);
    assert(pow(g, 1200) * 2 == 2 * pow(g, 1200));
}

/// The two bounds bracket edge `c` at every step.
proof fn lemma_edge_bracket(c: nat)
    ensures
        0 <= edge_below(c),
        0 <= edge_above(c),
        ratio_reaches(edge_above(c), octave_anchor(), c),
        ratio_within(edge_below(c), octave_anchor(), c),
    decreases c,
{
    let g = root_scale();
    let anchor = octave_anchor();
    if c == 0 {
        lemma_pow0(2);
    } else {
        let i = (c - 1) as nat;
        lemma_edge_bracket(i);
        lemma_root_bracket();
        let u = edge_above(i);
        let h = root_above();
        let next = edge_above(c);
        lemma_ratio_product(u, anchor, i, h, g, 1);
        assert(0 <= u * h) by (nonlinear_arith)
            requires
                0 <= u,
                0 <= h,
        ;
        assert(next * g >= u * h && next >= 0) by (nonlinear_arith)
            requires
                next == (u * h) / g + 1,
                0 <= u * h,
                g > 0,
        ;
        lemma_pow_base_increases(u * h, next * g, 1200);
        lemma_ratio_scaled(next, anchor, c, g);
        let l = edge_below(i);
        let k = root_below();
        let low = edge_below(c);
        lemma_ratio_product_within(l, anchor, i, k, g, 1);
        assert(0 <= low && low * g <= l * k) by (nonlinear_arith)
            requires
                low == (l * k) / g,
                0 <= l,
                0 <= k,
                g > 0,
        ;
        lemma_pow_base_increases(low * g, l * k, 1200);
        lemma_ratio_scaled(low, anchor, c, g);
    }
}

/// The lowest edge of the octave, in millihertz: A4 raised by 45 octaves.
pub open spec fn octave_base() -> int {
    15481123719086080000
}

/// A whole number at or above the upper bound of edge `c` has reached it.
proof fn lemma_edge_reached(n: int, c: nat)
    requires
        n * 4294967296 >= edge_above(c),
    ensures
        ratio_reaches(n, octave_base(), c),
{
    lemma_edge_bracket(c);
    lemma_pow_base_increases(edge_above(c), n * 4294967296, 1200);
    lemma_ratio_scaled(n, octave_base(), c, 4294967296);
}

/// A whole number below the lower bound of edge `c` has not reached it.
proof fn lemma_edge_not_reached(n: int, c: nat)
    requires
        0 <= n,
        n * 4294967296 < edge_below(c),
    ensures
        !ratio_reaches(n, octave_base(), c),
{
    lemma_edge_bracket(c);
    lemma_pow_base_strictly_increases(n * 4294967296, edge_below(c), 1200);
    lemma_ratio_scaled(n, octave_base(), c, 4294967296);
}

/// `u` times the upper bound of the 1200th root of two, at the root scale
/// and rounded down.
fn raise(u: u128) -> (r: u128)
    requires
        u < 158456325028528675187087900672,
    ensures
        r as int == u * root_above() / root_scale(),
        r < 2 * 158456325028528675187087900672,
{
    // the root is 2^100 + high * 2^50 + low, and u is u1 * 2^50 + u0
    let high: u128 = 650533151604;
    let low: u128 = 857678205608895;
    let half: u128 = 1125899906842624;
    let u1: u128 = u / half;
    let u0: u128 = u % half;
    assert(u1 * low <= 140737488355328 * 1125899906842624 && u0 * high <= 1125899906842624
        * 650533151604 && u0 * low <= 1125899906842624 * 1125899906842624 && u1 * high
        <= 140737488355328 * 650533151604) by (nonlinear_arith)
        requires
            0 <= u1 <= 140737488355328,
            0 <= u0 <= 1125899906842624,
            low == 857678205608895,
            high == 650533151604,
    ;
    let middle: u128 = u1 * low + u0 * high;
    let bottom: u128 = u0 * low;
    let sum: u128 = middle + bottom / half;
    let carried: u128 = sum / half;
    let r: u128 = u + u1 * high + carried;
    proof {
        let a = (bottom / half) as int;
        let b = (bottom % half) as int;
        let d = (sum % half) as int;
        let c = carried as int;
        let rest = d * half + b;
        assert(u * root_above() == r * root_scale() + rest && 0 <= rest < root_scale())
            by (nonlinear_arith)
            requires
                root_above() == 1267650600228229401496703205376 + 650533151604 * 1125899906842624
                    + 857678205608895,
                root_scale() == 1125899906842624 * 1125899906842624,
                half == 1125899906842624,
                high == 650533151604,
                low == 857678205608895,
                u == u1 * half + u0,
                middle == u1 * low + u0 * high,
                bottom == u0 * low,
                bottom == a * half + b,
                0 <= b < half,
                middle + a == c * half + d,
                0 <= d < half,
                r == u + u1 * high + c,
                rest == d * half + b,
        ;
        lemma_quotient(u * root_above(), root_scale(), r as int);
    }
    r
}

/// The cents of a frequency within the tabulated octave above its lowest
/// edge.
fn cents_in_octave(n: u128) -> (cents: u32)
    requires
        15481123719086080000 <= n < 30962247438172160000,
    ensures
        cents <= 1199,
        ratio_reaches(n as int, octave_base(), cents as nat),
        cents < 1199 ==> !ratio_reaches(n as int, octave_base(), (cents + 1) as nat),
{
    let mut upper: u128 = 66490920078804604608839680000;
    let mut next: u32 = 1;
    proof {
        lemma_pow_base_increases(octave_base(), n as int, 1200);
        lemma_pow0(2);
    }
    while next <= 1199
        invariant_except_break
            1 <= next <= 1200,
            upper as int == edge_above((next - 1) as nat),
            upper < 158456325028528675187087900672,
            ratio_reaches(n as int, octave_base(), (next - 1) as nat),
        invariant
            15481123719086080000 <= n < 30962247438172160000,
        ensures
            1 <= next <= 1200,
            ratio_reaches(n as int, octave_base(), (next - 1) as nat),
            next <= 1199 ==> !ratio_reaches(n as int, octave_base(), next as nat),
        decreases 1200 - next,
    {
        proof {
            lemma_brackets_are_tight(next as nat);
            reveal(bracket_is_tight);
        }
        let raised: u128 = raise(upper) + 1;
        let edge: u128 = (raised + 4294967295) / 4294967296;
        if n < edge {
            proof {
                let low = edge_below(next as nat);
                assert(n * 4294967296 < low) by (nonlinear_arith)
                    requires
                        n + 1 <= (low + 4294967295) / 4294967296,
                ;
                lemma_edge_not_reached(n as int, next as nat);
            }
            break;
        }
        proof {
            assert(n * 4294967296 >= raised) by (nonlinear_arith)
                requires
                    n >= (raised + 4294967295) / 4294967296,
            ;
            lemma_edge_reached(n as int, next as nat);
        }
        upper = raised;
        next = next + 1;
    }
    next - 1
}

/// The powers of two that the octaves use.
proof fn lemma_octave_powers()
    ensures
        pow(2, 1) == 2,
        pow(2, 20) == 1_048_576,
        pow(2, 45) == 35184372088832,
        pow(2, 65) == 36893488147419103232,
{
    lemma_small_powers(2);
    assert(pow(2, 5) == 32);
    lemma_pow_adds(2, 5, 5);
    assert(pow(2, 10) == 1024);
    lemma_pow_adds(2, 10, 10);
    assert(pow(2, 20) == 1_048_576);
    lemma_pow_adds(2, 20, 20);
    assert(pow(2, 40) == 1099511627776);
    lemma_pow_adds(2, 40, 5);
    assert(pow(2, 45) == 35184372088832);
    lemma_pow_adds(2, 45, 20);
    assert(pow(2, 65) == 36893488147419103232);
}

/// A frequency raised by `s` octaves reaches edge `e` of the tabulated
/// octave exactly where the frequency lies `e + 1200 (45 - s)` cents above
/// A4.
proof fn lemma_octaves_above(frequency: nat, s: nat, e: nat)
    requires
        s <= 64,
    ensures
        ratio_reaches(frequency * pow(2, s), octave_base(), e) <==> reaches_cent(
            frequency,
            e + 1200 * (45 - s),
        ),
{
    let f = frequency as int;
    let x = f * pow(2, s);
    lemma_octave_powers();
    lemma_ratio_anchor(x, 440_000, e, 45);
    assert(440_000 * pow(2, 45) == octave_base());
    let wide = (e + 54_000) as nat;
    let narrow = (e + 78_000 - 1200 * s) as nat;
    if s >= 20 {
        let q = (s - 20) as nat;
        lemma_pow_adds(2, 20, q);
        assert(x == (f * 1_048_576) * pow(2, q)) by (nonlinear_arith)
            requires
                x == f * pow(2, s),
                pow(2, s) == 1_048_576 * pow(2, q),
        ;
        lemma_ratio_shifted(f * 1_048_576, 440_000, narrow, q);
        assert(narrow + 1200 * q == wide);
    } else {
        let q = (20 - s) as nat;
        lemma_pow_adds(2, s, q);
        assert(f * 1_048_576 == x * pow(2, q)) by (nonlinear_arith)
            requires
                x == f * pow(2, s),
                pow(2, s) * pow(2, q) == 1_048_576,
        ;
        lemma_ratio_shifted(x, 440_000, wide, q);
        assert(wide + 1200 * q == narrow);
    }
}

/// The interval from A4 at 440 Hz to `frequency` millihertz in cents, rounded
/// down. A frequency of 0 has the floor value.
pub fn frequency_to_cents(frequency: u64) -> (cents: i32)
    ensures
        is_cents(frequency as nat, cents as int),
        cents as int == cents_of(frequency as nat),
        -24_001 <= cents <= 55_199,
{
    if frequency == 0 {
        proof {
            lemma_pow_positive(440_000, 1200);
            lemma_pow0(2);
            assert(pow(0, 1200) == 0) by {
                reveal(pow);
            }
            lemma_cents_unique(0, CENTS_FLOOR as int);
        }
        return CENTS_FLOOR;
    }
    // bring the frequency into the tabulated octave
    let mut n: u128 = frequency as u128;
    let mut octaves: u32 = 0;
    proof {
        lemma_pow0(2);
    }
    while n < 15481123719086080000
        invariant
            0 < n < 30962247438172160000,
            n as int == frequency * pow(2, octaves as nat),
            pow(2, octaves as nat) <= n,
            octaves <= 64,
        decreases 30962247438172160000 - n,
    {
        proof {
            lemma_octave_powers();
            lemma_pow_adds(2, octaves as nat, 1);
            assert(frequency * (pow(2, octaves as nat) * 2) == (frequency * pow(2, octaves as nat))
                * 2) by (nonlinear_arith);
            if octaves == 64 {
                lemma_pow_increases(2, 65, 65);
            }
        }
        n = n * 2;
        octaves = octaves + 1;
        proof {
            if octaves > 64 {
                lemma_octave_powers();
                assert(pow(2, 65) <= n);
            }
        }
    }
    let within: u32 = cents_in_octave(n);
    let cents: i32 = 1200 * (45 - octaves as i32) + within as i32;
    proof {
        let f = frequency as nat;
        let s = octaves as nat;
        lemma_octaves_above(f, s, within as nat);
        if within < 1199 {
            lemma_octaves_above(f, s, (within + 1) as nat);
        } else {
            // below the octave above: n < 2 * base
            lemma_octaves_above(f, s, 1200);
            lemma_octave_powers();
            lemma_ratio_anchor(n as int, octave_base(), 0, 1);
            lemma_pow0(2);
            lemma_pow_base_strictly_increases(n as int, octave_base() * 2, 1200);
        }
        lemma_cents_unique(f, cents as int);
    }
    cents
}

/// A frequency that reaches a number of cents reaches every lower one.
proof fn lemma_reaches_lower_cent(frequency: nat, lo: int, hi: int)
    requires
        lo <= hi,
        reaches_cent(frequency, hi),
    ensures
        reaches_cent(frequency, lo),
{
    if lo + 24_000 >= 0 {
        let a = (lo + 24_000) as nat;
        let b = (hi + 24_000) as nat;
        lemma_pow_increases(2, a, b);
        lemma_pow_positive(440_000, 1200);
        let k = pow(440_000, 1200);
        assert(k * pow(2, a) <= k * pow(2, b)) by (nonlinear_arith)
            requires
                k > 0,
                pow(2, a) <= pow(2, b),
        ;
    }
}

/// At most one number of cents is that of a frequency.
pub proof fn lemma_cents_unique(frequency: nat, c: int)
    requires
        is_cents(frequency, c),
    ensures
        cents_of(frequency) == c,
{
    let d = cents_of(frequency);
    assert(is_cents(frequency, d));
    if d < c {
        lemma_reaches_lower_cent(frequency, d + 1, c);
    } else if c < d {
        lemma_reaches_lower_cent(frequency, c + 1, d);
    }
}

/// The lower edge of note `n` lies 50 cents below the note: a frequency
/// reaches the note exactly where it lies at least `100 (n - 69) - 50` cents
/// above A4.
pub proof fn lemma_note_edge_in_cents(frequency: nat, n: int)
    requires
        22 <= n <= 108,
    ensures
        reaches_note(frequency, n) <==> reaches_cent(frequency, 100 * (n - 69) - 50),
{
    let f = frequency as int;
    let p = (216 - 2 * n) as nat;
    let a = pow(f, 24);
    let b = pow(2, p);
    let x = a * b;
    let y = pow(440_000, 24) * pow(2, 77);
    lemma_pow_base_increases(0, f, 24);
    lemma_pow_positive(2, p);
    lemma_pow_positive(2, 77);
    lemma_pow_positive(440_000, 24);
    assert(x >= 0 && y > 0) by (nonlinear_arith)
        requires
            x == a * b,
            a >= 0,
            b > 0,
            y == pow(440_000, 24) * pow(2, 77),
            pow(440_000, 24) > 0,
            pow(2, 77) > 0,
    ;
    // the 50th powers compare as the numbers do
    if x >= y {
        lemma_pow_base_increases(y, x, 50);
    } else {
        lemma_pow_base_strictly_increases(x, y, 50);
    }
    lemma_pow_distributes(a, b, 50);
    lemma_pow_multiplies(f, 24, 50);
    lemma_pow_multiplies(2, p, 50);
    lemma_pow_distributes(pow(440_000, 24), pow(2, 77), 50);
    lemma_pow_multiplies(440_000, 24, 50);
    lemma_pow_multiplies(2, 77, 50);
    // both sides times 2^k, with k = 24000 - 50 p
    let k = (13_200 + 100 * n) as nat;
    lemma_pow_positive(2, k);
    lemma_pow_adds(2, p * 50, k);
    lemma_pow_adds(2, 3850, k);
    assert(p * 50 + k == 24_000);
    assert(3850 + k == 100 * (n - 69) - 50 + 24_000);
    let left = pow(f, 1200);
    let right = pow(440_000, 1200);
    let u = pow(2, p * 50);
    let v = pow(2, 3850);
    let w = pow(2, k);
    assert((left * u >= right * v) <==> (left * (u * w) >= right * (v * w))) by (nonlinear_arith)
        requires
            w > 0,
    ;
    // (f 2^20)^1200 = f^1200 2^24000
    lemma_octave_powers();
    lemma_pow_distributes(f, 1_048_576, 1200);
    lemma_pow_multiplies(2, 20, 1200);
}

/// The nearest note lies within half a semitone of the frequency: from 50
/// cents below it to 50 cents above, but for the lowest note, which stands
/// for every frequency below it, and the highest, which stands for every one
/// above.
pub proof fn lemma_offset_within_half_a_semitone(frequency: nat, n: int, c: int)
    requires
        is_midi_note(frequency, n),
        is_cents(frequency, c),
    ensures
        n > 21 ==> c - 100 * (n - 69) >= -50,
        n < 108 ==> c - 100 * (n - 69) < 50,
{
    if n > 21 {
        lemma_note_edge_in_cents(frequency, n);
        if c + 1 <= 100 * (n - 69) - 50 {
            lemma_reaches_lower_cent(frequency, c + 1, 100 * (n - 69) - 50);
        }
    }
    if n < 108 {
        lemma_note_edge_in_cents(frequency, n + 1);
        if c >= 100 * (n - 69) + 50 {
            lemma_reaches_lower_cent(frequency, 100 * (n - 69) + 50, c);
        }
    }
}

} // verus!
