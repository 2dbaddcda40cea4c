//! Powers of whole numbers: how they grow with the base, and roots of roots.
//!
//! A root of a whole number is irrational as a rule. It is bounded here by a
//! whole number at a scale `g`: `x` is an upper bound of the `e`-th root of
//! `a` where `(x / g)^e >= a`, that is `x^e >= a g^e`.

use vstd::prelude::*;
use vstd::arithmetic::power::{
    pow,
    lemma_pow1,
    lemma_pow_adds,
    lemma_pow_distributes,
    lemma_pow_multiplies,
    lemma_pow_positive,
};

verus! {

/// A larger base has a larger power.
pub proof fn lemma_pow_base_increases(a: int, b: int, e: nat)
    requires
        0 <= a <= b,
    ensures
        0 <= pow(a, e) <= pow(b, e),
    decreases e,
{
    reveal(pow);
    if e > 0 {
        lemma_pow_base_increases(a, b, (e - 1) as nat);
        let x = pow(a, (e - 1) as nat);
        let y = pow(b, (e - 1) as nat);
        assert(0 <= a * x <= b * y) by (nonlinear_arith)
            requires
                0 <= a <= b,
                0 <= x <= y,
        ;
    }
}

/// A strictly larger base has a strictly larger power.
pub proof fn lemma_pow_base_strictly_increases(a: int, b: int, e: nat)
    requires
        0 <= a < b,
        e > 0,
    ensures
        0 <= pow(a, e) < pow(b, e),
    decreases e,
{
    reveal(pow);
    if e == 1 {
        lemma_pow1(a);
        lemma_pow1(b);
    } else {
        lemma_pow_base_strictly_increases(a, b, (e - 1) as nat);
        let x = pow(a, (e - 1) as nat);
        let y = pow(b, (e - 1) as nat);
        assert(0 <= a * x < b * y) by (nonlinear_arith)
            requires
                0 <= a < b,
                0 <= x < y,
        ;
    }
}

/// From an upper bound `x` of the `e`-th root of `a` and an upper bound `y`
/// of the `k`-th root of `x`, both at the scale `g`: `y` bounds the
/// `e k`-th root of `a`.
pub proof fn lemma_root_of_root_above(g: int, x: int, y: int, a: int, e: nat, k: nat)
    requires
        0 < g,
        0 <= x,
        0 <= y,
        0 <= a,
        k >= 1,
        pow(x, e) >= a * pow(g, e),
        pow(y, k) >= x * pow(g, (k - 1) as nat),
    ensures
        pow(y, e * k) >= a * pow(g, e * k),
{
    let gk = pow(g, (k - 1) as nat);
    lemma_pow_positive(g, (k - 1) as nat);
    lemma_pow_positive(g, e);
    assert(0 <= x * gk) by (nonlinear_arith)
        requires
            0 <= x,
            0 < gk,
    ;
    lemma_pow_multiplies(y, k, e);
    lemma_pow_base_increases(x * gk, pow(y, k), e);
    lemma_pow_distributes(x, gk, e);
    lemma_pow_multiplies(g, (k - 1) as nat, e);
    lemma_pow_adds(g, e, ((k - 1) as nat) * e);
    assert(k * e == e * k && e + ((k - 1) as nat) * e == e * k) by (nonlinear_arith)
        requires
            k >= 1,
    ;
    let p = pow(x, e);
    let q = pow(g, e);
    let r = pow(g, ((k - 1) as nat) * e);
    lemma_pow_positive(g, ((k - 1) as nat) * e);
    assert(p * r >= a * (q * r)) by (nonlinear_arith)
        requires
            p >= a * q,
            r > 0,
    ;
}

/// From a lower bound `x` of the `e`-th root of `a` and a lower bound `y` of
/// the `k`-th root of `x`, both at the scale `g`: `y` bounds the `e k`-th
/// root of `a`.
pub proof fn lemma_root_of_root_below(g: int, x: int, y: int, a: int, e: nat, k: nat)
    requires
        0 < g,
        0 <= x,
        0 <= y,
        0 <= a,
        k >= 1,
        pow(x, e) <= a * pow(g, e),
        pow(y, k) <= x * pow(g, (k - 1) as nat),
    ensures
        pow(y, e * k) <= a * pow(g, e * k),
{
    let gk = pow(g, (k - 1) as nat);
    lemma_pow_positive(g, (k - 1) as nat);
    lemma_pow_positive(g, e);
    lemma_pow_multiplies(y, k, e);
    lemma_pow_base_increases(0, y, k);
    lemma_pow_base_increases(pow(y, k), x * gk, e);
    lemma_pow_distributes(x, gk, e);
    lemma_pow_multiplies(g, (k - 1) as nat, e);
    lemma_pow_adds(g, e, ((k - 1) as nat) * e);
    assert(k * e == e * k && e + ((k - 1) as nat) * e == e * k) by (nonlinear_arith)
        requires
            k >= 1,
    ;
    let p = pow(x, e);
    let q = pow(g, e);
    let r = pow(g, ((k - 1) as nat) * e);
    lemma_pow_positive(g, ((k - 1) as nat) * e);
    assert(p * r <= a * (q * r)) by (nonlinear_arith)
        requires
            p <= a * q,
            r > 0,
    ;
}

/// Small powers written out.
pub proof fn lemma_small_powers(x: int)
    ensures
        pow(x, 1) == x,
        pow(x, 2) == x * x,
        pow(x, 3) == x * x * x,
        pow(x, 4) == x * x * (x * x),
        pow(x, 5) == x * x * (x * x) * x,
{
    lemma_pow1(x);
    lemma_pow_adds(x, 1, 1);
    lemma_pow_adds(x, 2, 1);
    lemma_pow_adds(x, 2, 2);
    lemma_pow_adds(x, 4, 1);
}

/// A quotient from its two bounds.
pub proof fn lemma_quotient(x: int, d: int, q: int)
    requires
        0 < d,
        q * d <= x < (q + 1) * d,
    ensures
        x / d == q,
{
    assert(x / d == q) by (nonlinear_arith)
        requires
            0 < d,
            q * d <= x < (q + 1) * d,
    ;
}

} // verus!
