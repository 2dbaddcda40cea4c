//! MIDI note numbers: the note nearest to a frequency, and note names.
//!
//! Note 69 is A4 at 440 Hz and a semitone is a factor of the twelfth root of
//! two, so note `n` begins a quarter tone below its own frequency, at
//! 440 Hz times 2 to the power (2n - 139) / 24. Whether a frequency has
//! reached that edge is a comparison of 24th powers of whole numbers.

use vstd::prelude::*;
use vstd::arithmetic::power::{
    pow,
    lemma_pow_adds,
    lemma_pow_distributes,
    lemma_pow_multiplies,
    lemma_pow_positive,
    lemma_square_is_pow2,
};
use vstd::arithmetic::power2::{pow2, lemma2_to64, lemma_pow2};
use vstd::string::StringExecFns;

verus! {

/// The lowest note that is reported: A0.
pub const LOWEST_NOTE: u8 = 21;

/// The highest note that is reported: C8.
pub const HIGHEST_NOTE: u8 = 108;

/// `frequency` millihertz is at or above the lower edge of note `n`:
/// `frequency / 440000 >= 2^((2n - 139) / 24)`, stated on the 24th powers with
/// both sides multiplied by `2^(216 - 2n)`.
pub open spec fn reaches_note(frequency: nat, n: int) -> bool {
    pow(frequency as int, 24) * pow(2, (216 - 2 * n) as nat) >= pow(440_000, 24) * pow(2, 77)
}

/// `n` is the note nearest to `frequency`, among the notes 21 to 108.
pub open spec fn is_midi_note(frequency: nat, n: int) -> bool {
    &&& 21 <= n <= 108
    &&& (n > 21 ==> reaches_note(frequency, n))
    &&& (n < 108 ==> !reaches_note(frequency, n + 1))
}

/// The note nearest to `frequency` millihertz, among the notes 21 to 108.
pub open spec fn midi_of(frequency: nat) -> int {
    choose|n: int| is_midi_note(frequency, n)
}

/// The 24th power by squaring.
pub open spec fn power24(x: int) -> int {
    let x2 = x * x;
    let x4 = x2 * x2;
    let x8 = x4 * x4;
    x8 * x8 * x8
}

proof fn lemma_power24(x: int)
    ensures
        pow(x, 24) == power24(x),
{
    lemma_square_is_pow2(x);
    lemma_pow_adds(x, 2, 2);
    lemma_pow_adds(x, 4, 4);
    lemma_pow_adds(x, 8, 8);
    lemma_pow_adds(x, 16, 8);
    let x8 = pow(x, 8);
    assert(x8 * x8 * x8 == (x8 * x8) * x8);
}

proof fn lemma_power24_increases(a: int, b: int)
    requires
        0 <= a <= b,
    ensures
        0 <= power24(a) <= power24(b),
{
    let a2 = a * a;
    let b2 = b * b;
    assert(0 <= a2 <= b2) by (nonlinear_arith)
        requires
            0 <= a <= b,
            a2 == a * a,
            b2 == b * b,
    ;
    let a4 = a2 * a2;
    let b4 = b2 * b2;
    assert(0 <= a4 <= b4) by (nonlinear_arith)
        requires
            0 <= a2 <= b2,
            a4 == a2 * a2,
            b4 == b2 * b2,
    ;
    let a8 = a4 * a4;
    let b8 = b4 * b4;
    assert(0 <= a8 <= b8) by (nonlinear_arith)
        requires
            0 <= a4 <= b4,
            a8 == a4 * a4,
            b8 == b4 * b4,
    ;
    assert(0 <= a8 * a8 <= b8 * b8) by (nonlinear_arith)
        requires
            0 <= a8 <= b8,
    ;
    assert(0 <= a8 * a8 * a8 <= b8 * b8 * b8) by (nonlinear_arith)
        requires
            0 <= a8 <= b8,
            0 <= a8 * a8 <= b8 * b8,
    ;
}

/// The notes of the top octave, whose edges are tabulated.
pub open spec fn in_top_octave(m: int) -> bool {
    97 <= m <= 108
}

/// The lower edge of note `m` of the top octave, in millihertz, rounded up.
pub open spec fn top_edge(m: int) -> int
    recommends
        in_top_octave(m),
{
    if m == 97 {
        2154335
    } else if m == 98 {
        2282438
    } else if m == 99 {
        2418159
    } else if m == 100 {
        2561950
    } else if m == 101 {
        2714292
    } else if m == 102 {
        2875692
    } else if m == 103 {
        3046689
    } else if m == 104 {
        3227855
    } else if m == 105 {
        3419793
    } else if m == 106 {
        3623144
    } else if m == 107 {
        3838588
    } else {
        4066842
    }
}

/// Two to the power `216 - 2m` for a note `m` of the top octave.
pub open spec fn top_shift(m: int) -> int
    recommends
        in_top_octave(m),
{
    if m == 97 {
        4194304
    } else if m == 98 {
        1048576
    } else if m == 99 {
        262144
    } else if m == 100 {
        65536
    } else if m == 101 {
        16384
    } else if m == 102 {
        4096
    } else if m == 103 {
        1024
    } else if m == 104 {
        256
    } else if m == 105 {
        64
    } else if m == 106 {
        16
    } else if m == 107 {
        4
    } else {
        1
    }
}

/// The 24th power of A4 in millihertz, times `2^77`.
pub open spec fn a4_bound() -> int {
    power24(440_000) * 151115727451828646838272
}

/// Each tabulated edge is the least whole frequency that reaches its note.
proof fn lemma_top_edge(m: int)
    requires
        in_top_octave(m),
    ensures
        power24(top_edge(m)) * top_shift(m) >= a4_bound(),
        power24(top_edge(m) - 1) * top_shift(m) < a4_bound(),
{
    let c: int = 440_000;
    let c2 = c * c;
    let c4 = c2 * c2;
    let c8 = c4 * c4;
    let bound = c8 * c8 * c8 * 151115727451828646838272;
    let t = top_edge(m);
    let t2 = t * t;
    let t4 = t2 * t2;
    let t8 = t4 * t4;
    let u = t - 1;
    let u2 = u * u;
    let u4 = u2 * u2;
    let u8 = u4 * u4;
    let s = top_shift(m);
    if m == 97 {
        assert(t8 * t8 * t8 * s >= bound && u8 * u8 * u8 * s < bound) by (nonlinear_arith)
            requires
                t == 2154335,
                u == 2154334,
                s == 4194304,
                t2 == t * t,
                t4 == t2 * t2,
                t8 == t4 * t4,
                u2 == u * u,
                u4 == u2 * u2,
                u8 == u4 * u4,
                c == 440_000,
                c2 == c * c,
                c4 == c2 * c2,
                c8 == c4 * c4,
                bound == c8 * c8 * c8 * 151115727451828646838272,
        ;
    } else if m == 98 {
        assert(t8 * t8 * t8 * s >= bound && u8 * u8 * u8 * s < bound) by (nonlinear_arith)
            requires
                t == 2282438,
                u == 2282437,
                s == 1048576,
                t2 == t * t,
                t4 == t2 * t2,
                t8 == t4 * t4,
                u2 == u * u,
                u4 == u2 * u2,
                u8 == u4 * u4,
                c == 440_000,
                c2 == c * c,
                c4 == c2 * c2,
                c8 == c4 * c4,
                bound == c8 * c8 * c8 * 151115727451828646838272,
        ;
    } else if m == 99 {
        assert(t8 * t8 * t8 * s >= bound && u8 * u8 * u8 * s < bound) by (nonlinear_arith)
            requires
                t == 2418159,
                u == 2418158,
                s == 262144,
                t2 == t * t,
                t4 == t2 * t2,
                t8 == t4 * t4,
                u2 == u * u,
                u4 == u2 * u2,
                u8 == u4 * u4,
                c == 440_000,
                c2 == c * c,
                c4 == c2 * c2,
                c8 == c4 * c4,
                bound == c8 * c8 * c8 * 151115727451828646838272,
        ;
    } else if m == 100 {
        assert(t8 * t8 * t8 * s >= bound && u8 * u8 * u8 * s < bound) by (nonlinear_arith)
            requires
                t == 2561950,
                u == 2561949,
                s == 65536,
                t2 == t * t,
                t4 == t2 * t2,
                t8 == t4 * t4,
                u2 == u * u,
                u4 == u2 * u2,
                u8 == u4 * u4,
                c == 440_000,
                c2 == c * c,
                c4 == c2 * c2,
                c8 == c4 * c4,
                bound == c8 * c8 * c8 * 151115727451828646838272,
        ;
    } else if m == 101 {
        assert(t8 * t8 * t8 * s >= bound && u8 * u8 * u8 * s < bound) by (nonlinear_arith)
            requires
                t == 2714292,
                u == 2714291,
                s == 16384,
                t2 == t * t,
                t4 == t2 * t2,
                t8 == t4 * t4,
                u2 == u * u,
                u4 == u2 * u2,
                u8 == u4 * u4,
                c == 440_000,
                c2 == c * c,
                c4 == c2 * c2,
                c8 == c4 * c4,
                bound == c8 * c8 * c8 * 151115727451828646838272,
        ;
    } else if m == 102 {
        assert(t8 * t8 * t8 * s >= bound && u8 * u8 * u8 * s < bound) by (nonlinear_arith)
            requires
                t == 2875692,
                u == 2875691,
                s == 4096,
                t2 == t * t,
                t4 == t2 * t2,
                t8 == t4 * t4,
                u2 == u * u,
                u4 == u2 * u2,
                u8 == u4 * u4,
                c == 440_000,
                c2 == c * c,
                c4 == c2 * c2,
                c8 == c4 * c4,
                bound == c8 * c8 * c8 * 151115727451828646838272,
        ;
    } else if m == 103 {
        assert(t8 * t8 * t8 * s >= bound && u8 * u8 * u8 * s < bound) by (nonlinear_arith)
            requires
                t == 3046689,
                u == 3046688,
                s == 1024,
                t2 == t * t,
                t4 == t2 * t2,
                t8 == t4 * t4,
                u2 == u * u,
                u4 == u2 * u2,
                u8 == u4 * u4,
                c == 440_000,
                c2 == c * c,
                c4 == c2 * c2,
                c8 == c4 * c4,
                bound == c8 * c8 * c8 * 151115727451828646838272,
        ;
    } else if m == 104 {
        assert(t8 * t8 * t8 * s >= bound && u8 * u8 * u8 * s < bound) by (nonlinear_arith)
            requires
                t == 3227855,
                u == 3227854,
                s == 256,
                t2 == t * t,
                t4 == t2 * t2,
                t8 == t4 * t4,
                u2 == u * u,
                u4 == u2 * u2,
                u8 == u4 * u4,
                c == 440_000,
                c2 == c * c,
                c4 == c2 * c2,
                c8 == c4 * c4,
                bound == c8 * c8 * c8 * 151115727451828646838272,
        ;
    } else if m == 105 {
        assert(t8 * t8 * t8 * s >= bound && u8 * u8 * u8 * s < bound) by (nonlinear_arith)
            requires
                t == 3419793,
                u == 3419792,
                s == 64,
                t2 == t * t,
                t4 == t2 * t2,
                t8 == t4 * t4,
                u2 == u * u,
                u4 == u2 * u2,
                u8 == u4 * u4,
                c == 440_000,
                c2 == c * c,
                c4 == c2 * c2,
                c8 == c4 * c4,
                bound == c8 * c8 * c8 * 151115727451828646838272,
        ;
    } else if m == 106 {
        assert(t8 * t8 * t8 * s >= bound && u8 * u8 * u8 * s < bound) by (nonlinear_arith)
            requires
                t == 3623144,
                u == 3623143,
                s == 16,
                t2 == t * t,
                t4 == t2 * t2,
                t8 == t4 * t4,
                u2 == u * u,
                u4 == u2 * u2,
                u8 == u4 * u4,
                c == 440_000,
                c2 == c * c,
                c4 == c2 * c2,
                c8 == c4 * c4,
                bound == c8 * c8 * c8 * 151115727451828646838272,
        ;
    } else if m == 107 {
        assert(t8 * t8 * t8 * s >= bound && u8 * u8 * u8 * s < bound) by (nonlinear_arith)
            requires
                t == 3838588,
                u == 3838587,
                s == 4,
                t2 == t * t,
                t4 == t2 * t2,
                t8 == t4 * t4,
                u2 == u * u,
                u4 == u2 * u2,
                u8 == u4 * u4,
                c == 440_000,
                c2 == c * c,
                c4 == c2 * c2,
                c8 == c4 * c4,
                bound == c8 * c8 * c8 * 151115727451828646838272,
        ;
    } else if m == 108 {
        assert(t8 * t8 * t8 * s >= bound && u8 * u8 * u8 * s < bound) by (nonlinear_arith)
            requires
                t == 4066842,
                u == 4066841,
                s == 1,
                t2 == t * t,
                t4 == t2 * t2,
                t8 == t4 * t4,
                u2 == u * u,
                u4 == u2 * u2,
                u8 == u4 * u4,
                c == 440_000,
                c2 == c * c,
                c4 == c2 * c2,
                c8 == c4 * c4,
                bound == c8 * c8 * c8 * 151115727451828646838272,
        ;
    }
}

/// The powers of two that the table of edges and the scaling use.
proof fn lemma_powers_of_two(e: nat)
    requires
        e <= 22,
    ensures
        pow(2, e) == pow2(e),
        pow(2, e) > 0,
        pow(2, 77) == 151115727451828646838272,
{
    lemma2_to64();
    lemma_pow2(e);
    lemma_pow2(64);
    lemma_pow2(13);
    lemma_pow_adds(2, 64, 13);
    lemma_pow_positive(2, e);
}

proof fn lemma_shift_is_power(m: int)
    requires
        in_top_octave(m),
    ensures
        top_shift(m) == pow(2, (216 - 2 * m) as nat),
{
    lemma2_to64();
    lemma_pow2((216 - 2 * m) as nat);
}

/// In the top octave a whole frequency reaches a note exactly where it is at
/// least the tabulated edge.
proof fn lemma_edge_decides(frequency: nat, m: int)
    requires
        in_top_octave(m),
    ensures
        reaches_note(frequency, m) <==> frequency >= top_edge(m),
{
    lemma_top_edge(m);
    lemma_shift_is_power(m);
    lemma_powers_of_two(0);
    lemma_power24(frequency as int);
    lemma_power24(440_000);
    let s = top_shift(m);
    let t = top_edge(m);
    let f = frequency as int;
    assert(s > 0);
    if f >= t {
        lemma_power24_increases(t, f);
        assert(power24(f) * s >= power24(t) * s) by (nonlinear_arith)
            requires
                power24(f) >= power24(t),
                s > 0,
        ;
    } else {
        lemma_power24_increases(f, t - 1);
        assert(power24(f) * s <= power24(t - 1) * s) by (nonlinear_arith)
            requires
                power24(f) <= power24(t - 1),
                s > 0,
        ;
    }
}

/// Raising a frequency by `k` octaves raises the note that it reaches by
/// `12 k`.
proof fn lemma_octave_shift(frequency: nat, n: int, k: nat)
    requires
        k <= 7,
        2 * n + 24 * k <= 216,
    ensures
        reaches_note(frequency, n) <==> reaches_note(
            (frequency * pow(2, k)) as nat,
            n + 12 * k,
        ),
{
    let f = frequency as int;
    let high = (216 - 2 * n - 24 * k) as nat;
    lemma_pow_positive(2, k);
    lemma_pow_distributes(f, pow(2, k), 24);
    lemma_pow_multiplies(2, k, 24);
    lemma_pow_adds(2, k * 24, high);
    assert(k * 24 + high == 216 - 2 * n);
    let a = pow(f, 24);
    let b = pow(2, k * 24);
    let c = pow(2, high);
    assert(f * pow(2, k) >= 0) by (nonlinear_arith)
        requires
            f >= 0,
            pow(2, k) > 0,
    ;
    assert((a * b) * c == a * (b * c)) by (nonlinear_arith);
    assert(216 - 2 * (n + 12 * k) == high);
}

/// A frequency that reaches a note reaches every lower one.
proof fn lemma_reaches_lower(frequency: nat, lo: int, hi: int)
    requires
        lo <= hi <= 108,
        reaches_note(frequency, hi),
    ensures
        reaches_note(frequency, lo),
    decreases hi - lo,
{
    if lo < hi {
        let e = (216 - 2 * hi) as nat;
        lemma_pow_adds(2, 2, e);
        lemma_pow_positive(2, e);
        lemma_power24(frequency as int);
        lemma_power24_increases(0, frequency as int);
        lemma2_to64();
        lemma_pow2(2);
        let a = pow(frequency as int, 24);
        let b = pow(2, e);
        assert(a * (4 * b) >= a * b) by (nonlinear_arith)
            requires
                a >= 0,
                b > 0,
        ;
        assert(216 - 2 * (hi - 1) == 2 + e);
        assert(reaches_note(frequency, hi - 1));
        lemma_reaches_lower(frequency, lo, hi - 1);
    }
}

/// At most one note is the nearest to a frequency.
pub proof fn lemma_midi_note_unique(frequency: nat, n: int)
    requires
        is_midi_note(frequency, n),
    ensures
        midi_of(frequency) == n,
{
    let c = midi_of(frequency);
    assert(is_midi_note(frequency, c));
    if c < n {
        lemma_reaches_lower(frequency, c + 1, n);
    } else if n < c {
        lemma_reaches_lower(frequency, n + 1, c);
    }
}

/// Two to the power `k`.
fn two_to(k: u8) -> (r: u64)
    requires
        k <= 7,
    ensures
        r as int == pow(2, k as nat),
        1 <= r <= 128,
{
    proof {
        lemma2_to64();
        lemma_pow2(k as nat);
    }
    if k == 0 {
        1
    } else if k == 1 {
        2
    } else if k == 2 {
        4
    } else if k == 3 {
        8
    } else if k == 4 {
        16
    } else if k == 5 {
        32
    } else if k == 6 {
        64
    } else {
        128
    }
}

/// The lower edge of note `m` of the top octave, in millihertz, rounded up.
fn edge(m: u8) -> (r: u64)
    requires
        in_top_octave(m as int),
    ensures
        r as int == top_edge(m as int),
        r <= 4_066_842,
{
    if m == 97 {
        2154335
    } else if m == 98 {
        2282438
    } else if m == 99 {
        2418159
    } else if m == 100 {
        2561950
    } else if m == 101 {
        2714292
    } else if m == 102 {
        2875692
    } else if m == 103 {
        3046689
    } else if m == 104 {
        3227855
    } else if m == 105 {
        3419793
    } else if m == 106 {
        3623144
    } else if m == 107 {
        3838588
    } else {
        4066842
    }
}

/// Whether `frequency` millihertz is at or above the lower edge of note `n`.
pub fn reaches(frequency: u64, n: u8) -> (r: bool)
    requires
        22 <= n <= 108,
    ensures
        r == reaches_note(frequency as nat, n as int),
{
    let k: u8 = (108 - n) / 12;
    let m: u8 = n + 12 * k;
    let top: u64 = edge(m);
    let scale: u64 = two_to(k);
    proof {
        lemma_octave_shift(frequency as nat, n as int, k as nat);
        lemma_edge_decides((frequency * scale) as nat, m as int);
        assert(frequency * scale >= frequency) by (nonlinear_arith)
            requires
                scale >= 1,
                frequency >= 0,
        ;
    }
    if frequency >= top {
        true
    } else {
        assert(frequency * scale <= 4_066_842 * 128) by (nonlinear_arith)
            requires
                frequency <= 4_066_842,
                scale <= 128,
        ;
        frequency * scale >= top
    }
}

/// The note nearest to `frequency` millihertz on the equal-tempered scale
/// with A4 at 440 Hz, kept within the notes 21 to 108.
pub fn frequency_to_midi(frequency: u64) -> (note: u8)
    ensures
        is_midi_note(frequency as nat, note as int),
        note as int == midi_of(frequency as nat),
{
    let mut note: u8 = LOWEST_NOTE;
    while note < HIGHEST_NOTE
        invariant_except_break
            21 <= note <= 108,
            note > 21 ==> reaches_note(frequency as nat, note as int),
        ensures
            is_midi_note(frequency as nat, note as int),
        decreases 108 - note,
    {
        if !reaches(frequency, note + 1) {
            break;
        }
        note = note + 1;
    }
    proof {
        lemma_midi_note_unique(frequency as nat, note as int);
    }
    note
}

/// The name of a pitch class: 0 is C, 1 is C sharp, and so on to 11, B.
pub open spec fn pitch_class_name(class: int) -> Seq<char> {
    if class == 0 {
        seq!['C']
    } else if class == 1 {
        seq!['C', '#']
    } else if class == 2 {
        seq!['D']
    } else if class == 3 {
        seq!['D', '#']
    } else if class == 4 {
        seq!['E']
    } else if class == 5 {
        seq!['F']
    } else if class == 6 {
        seq!['F', '#']
    } else if class == 7 {
        seq!['G']
    } else if class == 8 {
        seq!['G', '#']
    } else if class == 9 {
        seq!['A']
    } else if class == 10 {
        seq!['A', '#']
    } else {
        seq!['B']
    }
}

/// The character of a decimal digit.
pub open spec fn digit_char(d: int) -> char {
    if d == 0 {
        '0'
    } else if d == 1 {
        '1'
    } else if d == 2 {
        '2'
    } else if d == 3 {
        '3'
    } else if d == 4 {
        '4'
    } else if d == 5 {
        '5'
    } else if d == 6 {
        '6'
    } else if d == 7 {
        '7'
    } else if d == 8 {
        '8'
    } else {
        '9'
    }
}

/// A natural number in decimal digits.
pub open spec fn decimal(v: nat) -> Seq<char>
    decreases v,
{
    if v < 10 {
        seq![digit_char(v as int)]
    } else {
        decimal(v / 10).push(digit_char((v % 10) as int))
    }
}

/// A whole number in decimal digits, with a minus sign where it is negative.
pub open spec fn signed_decimal(v: int) -> Seq<char> {
    if v < 0 {
        seq!['-'] + decimal((-v) as nat)
    } else {
        decimal(v as nat)
    }
}

/// The octave of a note: note 60, middle C, begins octave 4.
pub open spec fn octave_of(midi_note: u8) -> int {
    midi_note as int / 12 - 1
}

/// The name of a note: its pitch class, then its octave.
pub open spec fn note_name_of(midi_note: u8) -> Seq<char> {
    pitch_class_name(midi_note as int % 12) + signed_decimal(octave_of(midi_note))
}

fn pitch_class_str(class: u8) -> (s: &'static str)
    requires
        class < 12,
    ensures
        s@ == pitch_class_name(class as int),
{
    proof {
        reveal_strlit("C");
        reveal_strlit("C#");
        reveal_strlit("D");
        reveal_strlit("D#");
        reveal_strlit("E");
        reveal_strlit("F");
        reveal_strlit("F#");
        reveal_strlit("G");
        reveal_strlit("G#");
        reveal_strlit("A");
        reveal_strlit("A#");
        reveal_strlit("B");
    }
    let s: &'static str = if class == 0 {
        "C"
    } else if class == 1 {
        "C#"
    } else if class == 2 {
        "D"
    } else if class == 3 {
        "D#"
    } else if class == 4 {
        "E"
    } else if class == 5 {
        "F"
    } else if class == 6 {
        "F#"
    } else if class == 7 {
        "G"
    } else if class == 8 {
        "G#"
    } else if class == 9 {
        "A"
    } else if class == 10 {
        "A#"
    } else {
        "B"
    };
    assert(s@ =~= pitch_class_name(class as int));
    s
}

fn digit_str(d: u8) -> (s: &'static str)
    requires
        d < 10,
    ensures
        s@ == seq![digit_char(d as int)],
{
    proof {
        reveal_strlit("0");
        reveal_strlit("1");
        reveal_strlit("2");
        reveal_strlit("3");
        reveal_strlit("4");
        reveal_strlit("5");
        reveal_strlit("6");
        reveal_strlit("7");
        reveal_strlit("8");
        reveal_strlit("9");
    }
    let s: &'static str = if d == 0 {
        "0"
    } else if d == 1 {
        "1"
    } else if d == 2 {
        "2"
    } else if d == 3 {
        "3"
    } else if d == 4 {
        "4"
    } else if d == 5 {
        "5"
    } else if d == 6 {
        "6"
    } else if d == 7 {
        "7"
    } else if d == 8 {
        "8"
    } else {
        "9"
    };
    assert(s@ =~= seq![digit_char(d as int)]);
    s
}

/// The name of a MIDI note, such as `C4` for note 60 and `A#5` for note 82.
pub fn midi_to_note_name(midi_note: u8) -> (name: String)
    ensures
        name@ == note_name_of(midi_note),
{
    let mut name: String = String::from_str(pitch_class_str(midi_note % 12));
    let above: u8 = midi_note / 12;
    if above == 0 {
        proof {
            reveal_strlit("-1");
            assert("-1"@ =~= seq!['-'] + decimal(1));
        }
        name.append("-1");
    } else {
        let octave: u8 = above - 1;
        if octave >= 10 {
            name.append(digit_str(octave / 10));
        }
        name.append(digit_str(octave % 10));
        proof {
            let o = octave as nat;
            if o >= 10 {
                assert(decimal(o / 10) =~= seq![digit_char((o / 10) as int)]);
                assert(decimal(o) =~= seq![digit_char((o / 10) as int)] + seq![
                    digit_char((o % 10) as int),
                ]);
            }
            assert(name@ =~= note_name_of(midi_note));
        }
    }
    name
}

} // verus!
