//! The edges between MIDI velocities on the scale of amplitudes, each
//! bracketed between two whole numbers.
//!
//! Edge `k`, for `k` from 1 to 127, is ten to the power `(6k + 759) / 254`.
//! Its bounds are held at the scale `10^12` and follow from those of the edge
//! before it by one multiplication with a bound of the 127th root of a
//! thousand. This module evaluates them and shows that no whole number lies
//! inside a bracket; what the bounds have to do with powers of ten is proved
//! where they are used.

use vstd::prelude::*;
use crate::power::lemma_quotient;

verus! {

/// The scale of the roots and of the edges: `10^12`.
pub open spec fn root_scale() -> int {
    1_000_000_000_000
}

/// An upper bound of the 127th root of a thousand, at the root scale: the
/// ratio of one edge to the one before it.
pub open spec fn step_above() -> int {
    1055898194434
}

/// A lower bound of the 127th root of a thousand, at the root scale.
pub open spec fn step_below() -> int {
    1055898194433
}

/// An upper bound of the square root of that root, at the root scale.
pub open spec fn half_step_above() -> int {
    1027569070396
}

/// A lower bound of the square root of that root, at the root scale.
pub open spec fn half_step_below() -> int {
    1027569070395
}

/// An upper bound of edge `k`, at the scale `10^12`.
pub open spec fn edge_above(k: nat) -> int
    decreases k,
{
    if k <= 1 {
        1000 * half_step_above()
    } else {
        edge_above((k - 1) as nat) * step_above() / root_scale() + 1
    }
}

/// A lower bound of edge `k`, at the scale `10^12`.
pub open spec fn edge_below(k: nat) -> int
    decreases k,
{
    if k <= 1 {
        1000 * half_step_below()
    } else {
        edge_below((k - 1) as nat) * step_below() / root_scale()
    }
}

/// Between the two bounds of edge `k` lies no multiple of `10^12`, and the
/// upper bound is at most `10^18`.
#[verifier::opaque]
pub open spec fn bracket_is_tight(k: nat) -> bool {
    &&& edge_above(k) <= 1_000_000_000_000_000_000
    &&& (edge_above(k) + 999_999_999_999) / 1_000_000_000_000 == (edge_below(k)
        + 999_999_999_999) / 1_000_000_000_000
}

/// The bounds of edge `k` from those of the edge before it, each product
/// checked against the quotient that it is said to have. `t` is the whole
/// number that both bounds of edge `k` lie just below, at the scale `10^12`.
proof fn lemma_next_edge(k: nat, u: int, next_u: int, l: int, next_l: int, t: int)
    requires
        k >= 2,
        edge_above((k - 1) as nat) == u,
        edge_below((k - 1) as nat) == l,
        (next_u - 1) * 1_000_000_000_000 <= u * 1055898194434,
        u * 1055898194434 < next_u * 1_000_000_000_000,
        next_l * 1_000_000_000_000 <= l * 1055898194433,
        l * 1055898194433 < (next_l + 1) * 1_000_000_000_000,
        (t - 1) * 1_000_000_000_000 < next_l,
        next_l <= next_u <= t * 1_000_000_000_000,
        t <= 1_000_000,
    ensures
        edge_above(k) == next_u,
        edge_below(k) == next_l,
        bracket_is_tight(k),
{
    reveal(bracket_is_tight);
    lemma_quotient(u * step_above(), root_scale(), next_u - 1);
    lemma_quotient(l * step_below(), root_scale(), next_l);
    lemma_quotient(next_u + 999_999_999_999, 1_000_000_000_000, t);
    lemma_quotient(next_l + 999_999_999_999, 1_000_000_000_000, t);
}

proof fn lemma_edges_1_to_10()
    ensures
        edge_above(10) == 1676522741302183,
        edge_below(10) == 1676522741286247,
        bracket_is_tight(1),
        bracket_is_tight(2),
        bracket_is_tight(3),
        bracket_is_tight(4),
        bracket_is_tight(5),
        bracket_is_tight(6),
        bracket_is_tight(7),
        bracket_is_tight(8),
        bracket_is_tight(9),
        bracket_is_tight(10),
{
    reveal(bracket_is_tight);
    assert(edge_above(1) == 1027569070396000);
    assert(edge_below(1) == 1027569070395000);
    lemma_quotient(edge_above(1) + 999_999_999_999, 1_000_000_000_000, 1028);
    lemma_quotient(edge_below(1) + 999_999_999_999, 1_000_000_000_000, 1028);
    lemma_next_edge(
        2,
        1027569070396000,
        1085008326087361,
        1027569070395000,
        1085008326085276,
        1086,
    );
    lemma_next_edge(
        3,
        1085008326087361,
        1145658332461502,
        1085008326085276,
        1145658332458214,
        1146,
    );
    lemma_next_edge(
        4,
        1145658332461502,
        1209698564684368,
        1145658332458214,
        1209698564679749,
        1210,
    );
    lemma_next_edge(
        5,
        1209698564684368,
        1277318530259626,
        1209698564679749,
        1277318530253538,
        1278,
    );
    lemma_next_edge(
        6,
        1277318530259626,
        1348718329818230,
        1277318530253538,
        1348718329810524,
        1349,
    );
    lemma_next_edge(
        7,
        1348718329818230,
        1424109249255110,
        1348718329810524,
        1424109249245623,
        1425,
    );
    lemma_next_edge(
        8,
        1424109249255110,
        1503714384965230,
        1424109249245623,
        1503714384953788,
        1504,
    );
    lemma_next_edge(
        9,
        1503714384965230,
        1587769304029220,
        1503714384953788,
        1587769304015633,
        1588,
    );
    lemma_next_edge(
        10,
        1587769304029220,
        1676522741302183,
        1587769304015633,
        1676522741286247,
        1677,
    );
}

proof fn lemma_edges_11_to_20()
    ensures
        edge_above(20) == 2888217674040547,
        edge_below(20) == 2888217673985725,
        bracket_is_tight(11),
        bracket_is_tight(12),
        bracket_is_tight(13),
        bracket_is_tight(14),
        bracket_is_tight(15),
        bracket_is_tight(16),
        bracket_is_tight(17),
        bracket_is_tight(18),
        bracket_is_tight(19),
        bracket_is_tight(20),
{
    lemma_edges_1_to_10();
    lemma_next_edge(
        11,
        1676522741302183,
        1770237335468516,
        1676522741286247,
        1770237335450011,
        1771,
    );
    lemma_next_edge(
        12,
        1770237335468516,
        1869190406240862,
        1770237335450011,
        1869190406219551,
        1870,
    );
    lemma_next_edge(
        13,
        1869190406240862,
        1973674775003082,
        1869190406219551,
        1973674774978709,
        1974,
    );
    lemma_next_edge(
        14,
        1973674775003082,
        2083999631325686,
        1973674774978709,
        2083999631297976,
        2084,
    );
    lemma_next_edge(
        15,
        2083999631325686,
        2200491447917914,
        2083999631297976,
        2200491447886570,
        2201,
    );
    lemma_next_edge(
        16,
        2200491447917914,
        2323494946723984,
        2200491447886570,
        2323494946688687,
        2324,
    );
    lemma_next_edge(
        17,
        2323494946723984,
        2453374119022378,
        2323494946688687,
        2453374118982784,
        2454,
    );
    lemma_next_edge(
        18,
        2453374119022378,
        2590513302546835,
        2453374118982784,
        2590513302502573,
        2591,
    );
    lemma_next_edge(
        19,
        2590513302546835,
        2735318318816462,
        2590513302502573,
        2735318318767134,
        2736,
    );
    lemma_next_edge(
        20,
        2735318318816462,
        2888217674040547,
        2735318318767134,
        2888217673985725,
        2889,
    );
}

proof fn lemma_edges_21_to_30()
    ensures
        edge_above(30) == 4975656534286531,
        edge_below(30) == 4975656534144952,
        bracket_is_tight(21),
        bracket_is_tight(22),
        bracket_is_tight(23),
        bracket_is_tight(24),
        bracket_is_tight(25),
        bracket_is_tight(26),
        bracket_is_tight(27),
        bracket_is_tight(28),
        bracket_is_tight(29),
        bracket_is_tight(30),
{
    lemma_edges_11_to_20();
    lemma_next_edge(
        21,
        2888217674040547,
        3049663827151781,
        2888217673985725,
        3049663827091006,
        3050,
    );
    lemma_next_edge(
        22,
        3049663827151781,
        3220134528720248,
        3049663827091006,
        3220134528653025,
        3221,
    );
    lemma_next_edge(
        23,
        3220134528720248,
        3400134234710290,
        3220134528653025,
        3400134234636088,
        3401,
    );
    lemma_next_edge(
        24,
        3400134234710290,
        3590195599263826,
        3400134234636088,
        3590195599182075,
        3591,
    );
    lemma_next_edge(
        25,
        3590195599263826,
        3790881050927567,
        3590195599182075,
        3790881050837655,
        3791,
    );
    lemma_next_edge(
        26,
        3790881050927567,
        4002784456988483,
        3790881050837655,
        4002784456889753,
        4003,
    );
    lemma_next_edge(
        27,
        4002784456988483,
        4226532880842619,
        4002784456889753,
        4226532880734366,
        4227,
    );
    lemma_next_edge(
        28,
        4226532880842619,
        4462788437597654,
        4226532880734366,
        4462788437479123,
        4463,
    );
    lemma_next_edge(
        29,
        4462788437597654,
        4712250253400295,
        4462788437479123,
        4712250253270675,
        4713,
    );
    lemma_next_edge(
        30,
        4712250253400295,
        4975656534286531,
        4712250253270675,
        4975656534144952,
        4976,
    );
}

proof fn lemma_edges_31_to_40()
    ensures
        edge_above(40) == 8571777040805093,
        edge_below(40) == 8571777040479995,
        bracket_is_tight(31),
        bracket_is_tight(32),
        bracket_is_tight(33),
        bracket_is_tight(34),
        bracket_is_tight(35),
        bracket_is_tight(36),
        bracket_is_tight(37),
        bracket_is_tight(38),
        bracket_is_tight(39),
        bracket_is_tight(40),
{
    lemma_edges_21_to_30();
    lemma_next_edge(
        31,
        4975656534286531,
        5253786750676883,
        4975656534144952,
        5253786750522413,
        5254,
    );
    lemma_next_edge(
        32,
        5253786750676883,
        5547463943980993,
        5253786750522413,
        5547463943812634,
        5548,
    );
    lemma_next_edge(
        33,
        5547463943980993,
        5857557162137248,
        5547463943812634,
        5857557161953929,
        5858,
    );
    lemma_next_edge(
        34,
        5857557162137248,
        6184984031294666,
        5857557161953929,
        6184984031095241,
        6185,
    );
    lemma_next_edge(
        35,
        6184984031294666,
        6530713471247161,
        6184984031095241,
        6530713471030402,
        6531,
    );
    lemma_next_edge(
        36,
        6530713471247161,
        6895768562655678,
        6530713471030402,
        6895768562420271,
        6896,
    );
    lemma_next_edge(
        37,
        6895768562655678,
        7281229574542870,
        6895768562420271,
        7281229574287408,
        7282,
    );
    lemma_next_edge(
        38,
        7281229574542870,
        7688237161019259,
        7281229574287408,
        7688237160742235,
        7689,
    );
    lemma_next_edge(
        39,
        7688237161019259,
        8117995736700618,
        7688237160742235,
        8117995736400420,
        8118,
    );
    lemma_next_edge(
        40,
        8117995736700618,
        8571777040805093,
        8117995736400420,
        8571777040479995,
        8572,
    );
}

proof fn lemma_edges_41_to_50()
    ensures
        edge_above(50) == 14766968164093557,
        edge_below(50) == 14766968163393631,
        bracket_is_tight(41),
        bracket_is_tight(42),
        bracket_is_tight(43),
        bracket_is_tight(44),
        bracket_is_tight(45),
        bracket_is_tight(46),
        bracket_is_tight(47),
        bracket_is_tight(48),
        bracket_is_tight(49),
        bracket_is_tight(50),
{
    lemma_edges_31_to_40();
    lemma_next_edge(
        41,
        8571777040805093,
        9050923900476914,
        8571777040479995,
        9050923900125071,
        9051,
    );
    lemma_next_edge(
        42,
        9050923900476914,
        9556854204473111,
        9050923900125071,
        9556854204092548,
        9557,
    );
    lemma_next_edge(
        43,
        9556854204473111,
        10091065098972140,
        9556854204092548,
        10091065098560746,
        10092,
    );
    lemma_next_edge(
        44,
        10091065098972140,
        10655137417920637,
        10091065098560746,
        10655137417476154,
        10656,
    );
    lemma_next_edge(
        45,
        10655137417920637,
        11250740361028554,
        10655137417476154,
        11250740360548569,
        11251,
    );
    lemma_next_edge(
        46,
        11250740361028554,
        11879636433255780,
        11250740360548569,
        11879636432737713,
        11880,
    );
    lemma_next_edge(
        47,
        11879636433255780,
        12543686660407142,
        11879636432737713,
        12543686659848236,
        12544,
    );
    lemma_next_edge(
        48,
        12543686660407142,
        13244856096269753,
        12543686659848236,
        13244856095667061,
        13245,
    );
    lemma_next_edge(
        49,
        13244856096269753,
        13985219637589390,
        13244856095667061,
        13985219636939763,
        13986,
    );
    lemma_next_edge(
        50,
        13985219637589390,
        14766968164093557,
        13985219636939763,
        14766968163393631,
        14767,
    );
}

proof fn lemma_edges_51_to_60()
    ensures
        edge_above(60) == 25439689777426976,
        edge_below(60) == 25439689775980244,
        bracket_is_tight(51),
        bracket_is_tight(52),
        bracket_is_tight(53),
        bracket_is_tight(54),
        bracket_is_tight(55),
        bracket_is_tight(56),
        bracket_is_tight(57),
        bracket_is_tight(58),
        bracket_is_tight(59),
        bracket_is_tight(60),
{
    lemma_edges_41_to_50();
    lemma_next_edge(
        51,
        14766968164093557,
        15592415021730747,
        14766968163393631,
        15592415020976929,
        15593,
    );
    lemma_next_edge(
        52,
        15592415021730747,
        16464002868311075,
        15592415020976929,
        16464002867499527,
        16465,
    );
    lemma_next_edge(
        53,
        16464002868311075,
        17384310901805862,
        16464002867499527,
        17384310900932485,
        17385,
    );
    lemma_next_edge(
        54,
        17384310901805862,
        18356062492696112,
        17384310900932485,
        18356062491756530,
        18357,
    );
    lemma_next_edge(
        55,
        18356062492696112,
        19382133242955494,
        18356062491756530,
        19382133241945034,
        19383,
    );
    lemma_next_edge(
        56,
        19382133242955494,
        20465559495515916,
        19382133241945034,
        20465559494429590,
        20466,
    );
    lemma_next_edge(
        57,
        20465559495515916,
        21609547319396860,
        20465559494429590,
        21609547318229344,
        21610,
    );
    lemma_next_edge(
        58,
        21609547319396860,
        22817481997087230,
        21609547318229344,
        22817481995832841,
        22818,
    );
    lemma_next_edge(
        59,
        22817481997087230,
        24092938042254707,
        22817481995832841,
        24092938040907382,
        24093,
    );
    lemma_next_edge(
        60,
        24092938042254707,
        25439689777426976,
        24092938040907382,
        25439689775980244,
        25440,
    );
}

proof fn lemma_edges_61_to_70()
    ensures
        edge_above(70) == 43826045318182506,
        edge_below(70) == 43826045315275085,
        bracket_is_tight(61),
        bracket_is_tight(62),
        bracket_is_tight(63),
        bracket_is_tight(64),
        bracket_is_tight(65),
        bracket_is_tight(66),
        bracket_is_tight(67),
        bracket_is_tight(68),
        bracket_is_tight(69),
        bracket_is_tight(70),
{
    lemma_edges_51_to_60();
    lemma_next_edge(
        61,
        25439689777426976,
        26861722502946232,
        25439689775980244,
        26861722501393189,
        26862,
    );
    lemma_next_edge(
        62,
        26861722502946232,
        28363244290248074,
        26861722501393189,
        28363244288581356,
        28364,
    );
    lemma_next_edge(
        63,
        28363244290248074,
        29948698434363402,
        28363244288581356,
        29948698432575153,
        29949,
    );
    lemma_next_edge(
        64,
        29948698434363402,
        31622776602492679,
        29948698432575153,
        31622776600574521,
        31623,
    );
    lemma_next_edge(
        65,
        31622776602492679,
        33390432717561761,
        31622776600574521,
        33390432715504758,
        33391,
    );
    lemma_next_edge(
        66,
        33390432717561761,
        35256897617843424,
        33390432715504758,
        35256897615638047,
        35257,
    );
    lemma_next_edge(
        67,
        35256897617843424,
        37227694536025268,
        35256897615638047,
        37227694533661356,
        37228,
    );
    lemma_next_edge(
        68,
        37227694536025268,
        39308655443529568,
        37227694533661356,
        39308655440996289,
        39309,
    );
    lemma_next_edge(
        69,
        39308655443529568,
        41505938308451097,
        39308655440996289,
        41505938305736902,
        41506,
    );
    lemma_next_edge(
        70,
        41505938308451097,
        43826045318182506,
        41505938305736902,
        43826045315275085,
        43827,
    );
}

proof fn lemma_edges_71_to_80()
    ensures
        edge_above(80) == 75501009054586536,
        edge_below(80) == 75501009048862741,
        bracket_is_tight(71),
        bracket_is_tight(72),
        bracket_is_tight(73),
        bracket_is_tight(74),
        bracket_is_tight(75),
        bracket_is_tight(76),
        bracket_is_tight(77),
        bracket_is_tight(78),
        bracket_is_tight(79),
        bracket_is_tight(80),
{
    lemma_edges_61_to_70();
    lemma_next_edge(
        71,
        43826045318182506,
        46275842120651568,
        43826045315275085,
        46275842117537800,
        46276,
    );
    lemma_next_edge(
        72,
        46275842120651568,
        48862578141108837,
        46275842117537800,
        48862578137774738,
        48863,
    );
    lemma_next_edge(
        73,
        48862578141108837,
        51593908034587058,
        48862578137774738,
        51593908031017725,
        51594,
    );
    lemma_next_edge(
        74,
        51593908034587058,
        54477914337514321,
        51593908031017725,
        54477914333693873,
        54478,
    );
    lemma_next_edge(
        75,
        54477914337514321,
        57523131385511493,
        54477914333693873,
        57523131381423010,
        57524,
    );
    lemma_next_edge(
        76,
        57523131385511493,
        60738570568151343,
        57523131381423010,
        60738570563776797,
        60739,
    );
    lemma_next_edge(
        77,
        60738570568151343,
        64133746995413097,
        60738570563776797,
        64133746990733282,
        64134,
    );
    lemma_next_edge(
        78,
        64133746995413097,
        67718707654743662,
        64133746990733282,
        67718707649738119,
        67719,
    );
    lemma_next_edge(
        79,
        67718707654743662,
        71504061142047728,
        67718707649738119,
        71504061136694664,
        71505,
    );
    lemma_next_edge(
        80,
        71504061142047728,
        75501009054586536,
        71504061136694664,
        75501009048862741,
        75502,
    );
}

proof fn lemma_edges_81_to_90()
    ensures
        edge_above(90) == 130068828407289135,
        edge_below(90) == 130068828396196665,
        bracket_is_tight(81),
        bracket_is_tight(82),
        bracket_is_tight(83),
        bracket_is_tight(84),
        bracket_is_tight(85),
        bracket_is_tight(86),
        bracket_is_tight(87),
        bracket_is_tight(88),
        bracket_is_tight(89),
        bracket_is_tight(90),
{
    lemma_edges_71_to_80();
    lemma_next_edge(
        81,
        75501009054586536,
        79721379138683009,
        75501009048862741,
        79721379132563762,
        79722,
    );
    lemma_next_edge(
        82,
        79721379138683009,
        84177660290323744,
        79721379132563762,
        84177660283782720,
        84178,
    );
    lemma_next_edge(
        83,
        84177660290323744,
        88883039512231462,
        84177660283782720,
        88883039505240628,
        88884,
    );
    lemma_next_edge(
        84,
        88883039512231462,
        93851440936771081,
        88883039505240628,
        93851440929300588,
        93852,
    );
    lemma_next_edge(
        85,
        93851440936771081,
        99097567030165778,
        93851440929300588,
        99097567022183846,
        99098,
    );
    lemma_next_edge(
        86,
        99097567030165778,
        104636942099954333,
        99097567022183846,
        104636942091427127,
        104637,
    );
    lemma_next_edge(
        87,
        104636942099954333,
        110485958234436781,
        104636942091427127,
        110485958225328282,
        110486,
    );
    lemma_next_edge(
        88,
        110485958234436781,
        116661923810052132,
        110485958225328282,
        116661923800323997,
        116662,
    );
    lemma_next_edge(
        89,
        116661923810052132,
        123183114710230921,
        116661923800323997,
        123183114699842338,
        123184,
    );
    lemma_next_edge(
        90,
        123183114710230921,
        130068828407289135,
        123183114699842338,
        130068828396196665,
        130069,
    );
}

proof fn lemma_edges_91_to_100()
    ensures
        edge_above(100) == 224075152571978718,
        edge_below(100) == 224075152550747104,
        bracket_is_tight(91),
        bracket_is_tight(92),
        bracket_is_tight(93),
        bracket_is_tight(94),
        bracket_is_tight(95),
        bracket_is_tight(96),
        bracket_is_tight(97),
        bracket_is_tight(98),
        bracket_is_tight(99),
        bracket_is_tight(100),
{
    lemma_edges_81_to_90();
    lemma_next_edge(
        91,
        130068828407289135,
        137339441067402366,
        130068828396196665,
        137339441055559777,
        137340,
    );
    lemma_next_edge(
        92,
        137339441067402366,
        145016467847644908,
        137339441055559777,
        145016467835003000,
        145017,
    );
    lemma_next_edge(
        93,
        145016467847644908,
        153122626563524473,
        145016467835003000,
        153122626550030888,
        153123,
    );
    lemma_next_edge(
        94,
        153122626563524473,
        161681904915417138,
        153122626550030888,
        161681904901016162,
        161682,
    );
    lemma_next_edge(
        95,
        161681904915417138,
        170719631472838626,
        161681904901016162,
        170719631457470979,
        170720,
    );
    lemma_next_edge(
        96,
        170719631472838626,
        180262550626608186,
        170719631457470979,
        180262550610210794,
        180263,
    );
    lemma_next_edge(
        97,
        180262550626608186,
        190338901730703099,
        180262550610210794,
        190338901713208859,
        190339,
    );
    lemma_next_edge(
        98,
        190338901730703099,
        200978502667999960,
        190338901713208859,
        200978502649337484,
        200979,
    );
    lemma_next_edge(
        99,
        200978502667999960,
        212212838087190010,
        200978502649337484,
        212212838067283356,
        212213,
    );
    lemma_next_edge(
        100,
        212212838087190010,
        224075152571978718,
        212212838067283356,
        224075152550747104,
        224076,
    );
}

proof fn lemma_edges_101_to_110()
    ensures
        edge_above(110) == 386023881470910216,
        edge_below(110) == 386023881430677706,
        bracket_is_tight(101),
        bracket_is_tight(102),
        bracket_is_tight(103),
        bracket_is_tight(104),
        bracket_is_tight(105),
        bracket_is_tight(106),
        bracket_is_tight(107),
        bracket_is_tight(108),
        bracket_is_tight(109),
        bracket_is_tight(110),
{
    lemma_edges_91_to_100();
    lemma_next_edge(
        101,
        224075152571978718,
        236600549018275400,
        224075152550747104,
        236600548995632901,
        236601,
    );
    lemma_next_edge(
        102,
        236600549018275400,
        249826092510490107,
        236600548995632901,
        249826092486345331,
        249827,
    );
    lemma_next_edge(
        103,
        249826092510490107,
        263790920004327955,
        249826092486345331,
        263790919978583702,
        263791,
    );
    lemma_next_edge(
        104,
        263790920004327955,
        278536356140653620,
        263790919978583702,
        278536356113206517,
        278537,
    );
    lemma_next_edge(
        105,
        278536356140653620,
        294106035533141746,
        278536356113206517,
        294106035503881863,
        294107,
    );
    lemma_next_edge(
        106,
        294106035533141746,
        310546031891586217,
        294106035503881863,
        310546031860396652,
        310547,
    );
    lemma_next_edge(
        107,
        310546031891586217,
        327904994362969269,
        310546031860396652,
        327904994329725716,
        327905,
    );
    lemma_next_edge(
        108,
        327904994362969269,
        346234291493750200,
        327904994329725716,
        346234291458320486,
        346235,
    );
    lemma_next_edge(
        109,
        346234291493750200,
        365588163239386081,
        346234291458320486,
        365588163201629675,
        365589,
    );
    lemma_next_edge(
        110,
        365588163239386081,
        386023881470910216,
        365588163201629675,
        386023881430677706,
        386024,
    );
}

proof fn lemma_edges_111_to_120()
    ensures
        edge_above(120) == 665019906738655719,
        edge_below(120) == 665019906663047290,
        bracket_is_tight(111),
        bracket_is_tight(112),
        bracket_is_tight(113),
        bracket_is_tight(114),
        bracket_is_tight(115),
        bracket_is_tight(116),
        bracket_is_tight(117),
        bracket_is_tight(118),
        bracket_is_tight(119),
        bracket_is_tight(120),
{
    lemma_edges_101_to_110();
    lemma_next_edge(
        111,
        386023881470910216,
        407601919453538526,
        386023881430677706,
        407601919410671066,
        407602,
    );
    lemma_next_edge(
        112,
        407601919453538526,
        430386130798824030,
        407601919410671066,
        430386130753152754,
        430387,
    );
    lemma_next_edge(
        113,
        430386130798824030,
        454443938419913652,
        430386130753152754,
        454443938371259047,
        454444,
    );
    lemma_next_edge(
        114,
        454443938419913652,
        479846534049062709,
        454443938371259047,
        479846533997233954,
        479847,
    );
    lemma_next_edge(
        115,
        479846534049062709,
        506669088907818218,
        479846533997233954,
        506669088852612482,
        506670,
    );
    lemma_next_edge(
        116,
        506669088907818218,
        534990976153285074,
        506669088852612482,
        534990976094486767,
        534991,
    );
    lemma_next_edge(
        117,
        534990976153285074,
        564896005758736861,
        534990976094486767,
        564896005696116843,
        564897,
    );
    lemma_next_edge(
        118,
        564896005758736861,
        596472672523628718,
        564896005696116843,
        596472672456943457,
        596473,
    );
    lemma_next_edge(
        119,
        596472672523628718,
        629814417946922126,
        596472672456943457,
        629814417875912806,
        629815,
    );
    lemma_next_edge(
        120,
        629814417946922126,
        665019906738655719,
        629814417875912806,
        665019906663047290,
        665020,
    );
}

proof fn lemma_edges_121_to_127()
    ensures
        edge_above(127) == 973170591506586962,
        edge_below(127) == 973170591389492237,
        bracket_is_tight(121),
        bracket_is_tight(122),
        bracket_is_tight(123),
        bracket_is_tight(124),
        bracket_is_tight(125),
        bracket_is_tight(126),
        bracket_is_tight(127),
{
    lemma_edges_111_to_120();
    lemma_next_edge(
        121,
        665019906738655719,
        702193318788013644,
        665019906663047290,
        702193318707513819,
        702194,
    );
    lemma_next_edge(
        122,
        702193318788013644,
        741444657451881776,
        702193318707513819,
        741444657366179962,
        741445,
    );
    lemma_next_edge(
        123,
        741444657451881776,
        782890075076177591,
        741444657366179962,
        782890074984943755,
        782891,
    );
    lemma_next_edge(
        124,
        782890075076177591,
        826652216713234624,
        782890074984943755,
        826652216616118090,
        826653,
    );
    lemma_next_edge(
        125,
        826652216713234624,
        872860583052368118,
        826652216616118090,
        872860582948996292,
        872861,
    );
    lemma_next_edge(
        126,
        872860583052368118,
        921651913637603997,
        872860582948996292,
        921651913527581011,
        921652,
    );
    lemma_next_edge(
        127,
        921651913637603997,
        973170591506586962,
        921651913527581011,
        973170591389492237,
        973171,
    );
}

/// Every bracket is tight.
pub proof fn lemma_brackets_are_tight(k: nat)
    requires
        1 <= k <= 127,
    ensures
        bracket_is_tight(k),
{
    if k == 1 {
        lemma_edges_1_to_10();
    } else if k == 2 {
        lemma_edges_1_to_10();
    } else if k == 3 {
        lemma_edges_1_to_10();
    } else if k == 4 {
        lemma_edges_1_to_10();
    } else if k == 5 {
        lemma_edges_1_to_10();
    } else if k == 6 {
        lemma_edges_1_to_10();
    } else if k == 7 {
        lemma_edges_1_to_10();
    } else if k == 8 {
        lemma_edges_1_to_10();
    } else if k == 9 {
        lemma_edges_1_to_10();
    } else if k == 10 {
        lemma_edges_1_to_10();
    } else if k == 11 {
        lemma_edges_11_to_20();
    } else if k == 12 {
        lemma_edges_11_to_20();
    } else if k == 13 {
        lemma_edges_11_to_20();
    } else if k == 14 {
        lemma_edges_11_to_20();
    } else if k == 15 {
        lemma_edges_11_to_20();
    } else if k == 16 {
        lemma_edges_11_to_20();
    } else if k == 17 {
        lemma_edges_11_to_20();
    } else if k == 18 {
        lemma_edges_11_to_20();
    } else if k == 19 {
        lemma_edges_11_to_20();
    } else if k == 20 {
        lemma_edges_11_to_20();
    } else if k == 21 {
        lemma_edges_21_to_30();
    } else if k == 22 {
        lemma_edges_21_to_30();
    } else if k == 23 {
        lemma_edges_21_to_30();
    } else if k == 24 {
        lemma_edges_21_to_30();
    } else if k == 25 {
        lemma_edges_21_to_30();
    } else if k == 26 {
        lemma_edges_21_to_30();
    } else if k == 27 {
        lemma_edges_21_to_30();
    } else if k == 28 {
        lemma_edges_21_to_30();
    } else if k == 29 {
        lemma_edges_21_to_30();
    } else if k == 30 {
        lemma_edges_21_to_30();
    } else if k == 31 {
        lemma_edges_31_to_40();
    } else if k == 32 {
        lemma_edges_31_to_40();
    } else if k == 33 {
        lemma_edges_31_to_40();
    } else if k == 34 {
        lemma_edges_31_to_40();
    } else if k == 35 {
        lemma_edges_31_to_40();
    } else if k == 36 {
        lemma_edges_31_to_40();
    } else if k == 37 {
        lemma_edges_31_to_40();
    } else if k == 38 {
        lemma_edges_31_to_40();
    } else if k == 39 {
        lemma_edges_31_to_40();
    } else if k == 40 {
        lemma_edges_31_to_40();
    } else if k == 41 {
        lemma_edges_41_to_50();
    } else if k == 42 {
        lemma_edges_41_to_50();
    } else if k == 43 {
        lemma_edges_41_to_50();
    } else if k == 44 {
        lemma_edges_41_to_50();
    } else if k == 45 {
        lemma_edges_41_to_50();
    } else if k == 46 {
        lemma_edges_41_to_50();
    } else if k == 47 {
        lemma_edges_41_to_50();
    } else if k == 48 {
        lemma_edges_41_to_50();
    } else if k == 49 {
        lemma_edges_41_to_50();
    } else if k == 50 {
        lemma_edges_41_to_50();
    } else if k == 51 {
        lemma_edges_51_to_60();
    } else if k == 52 {
        lemma_edges_51_to_60();
    } else if k == 53 {
        lemma_edges_51_to_60();
    } else if k == 54 {
        lemma_edges_51_to_60();
    } else if k == 55 {
        lemma_edges_51_to_60();
    } else if k == 56 {
        lemma_edges_51_to_60();
    } else if k == 57 {
        lemma_edges_51_to_60();
    } else if k == 58 {
        lemma_edges_51_to_60();
    } else if k == 59 {
        lemma_edges_51_to_60();
    } else if k == 60 {
        lemma_edges_51_to_60();
    } else if k == 61 {
        lemma_edges_61_to_70();
    } else if k == 62 {
        lemma_edges_61_to_70();
    } else if k == 63 {
        lemma_edges_61_to_70();
    } else if k == 64 {
        lemma_edges_61_to_70();
    } else if k == 65 {
        lemma_edges_61_to_70();
    } else if k == 66 {
        lemma_edges_61_to_70();
    } else if k == 67 {
        lemma_edges_61_to_70();
    } else if k == 68 {
        lemma_edges_61_to_70();
    } else if k == 69 {
        lemma_edges_61_to_70();
    } else if k == 70 {
        lemma_edges_61_to_70();
    } else if k == 71 {
        lemma_edges_71_to_80();
    } else if k == 72 {
        lemma_edges_71_to_80();
    } else if k == 73 {
        lemma_edges_71_to_80();
    } else if k == 74 {
        lemma_edges_71_to_80();
    } else if k == 75 {
        lemma_edges_71_to_80();
    } else if k == 76 {
        lemma_edges_71_to_80();
    } else if k == 77 {
        lemma_edges_71_to_80();
    } else if k == 78 {
        lemma_edges_71_to_80();
    } else if k == 79 {
        lemma_edges_71_to_80();
    } else if k == 80 {
        lemma_edges_71_to_80();
    } else if k == 81 {
        lemma_edges_81_to_90();
    } else if k == 82 {
        lemma_edges_81_to_90();
    } else if k == 83 {
        lemma_edges_81_to_90();
    } else if k == 84 {
        lemma_edges_81_to_90();
    } else if k == 85 {
        lemma_edges_81_to_90();
    } else if k == 86 {
        lemma_edges_81_to_90();
    } else if k == 87 {
        lemma_edges_81_to_90();
    } else if k == 88 {
        lemma_edges_81_to_90();
    } else if k == 89 {
        lemma_edges_81_to_90();
    } else if k == 90 {
        lemma_edges_81_to_90();
    } else if k == 91 {
        lemma_edges_91_to_100();
    } else if k == 92 {
        lemma_edges_91_to_100();
    } else if k == 93 {
        lemma_edges_91_to_100();
    } else if k == 94 {
        lemma_edges_91_to_100();
    } else if k == 95 {
        lemma_edges_91_to_100();
    } else if k == 96 {
        lemma_edges_91_to_100();
    } else if k == 97 {
        lemma_edges_91_to_100();
    } else if k == 98 {
        lemma_edges_91_to_100();
    } else if k == 99 {
        lemma_edges_91_to_100();
    } else if k == 100 {
        lemma_edges_91_to_100();
    } else if k == 101 {
        lemma_edges_101_to_110();
    } else if k == 102 {
        lemma_edges_101_to_110();
    } else if k == 103 {
        lemma_edges_101_to_110();
    } else if k == 104 {
        lemma_edges_101_to_110();
    } else if k == 105 {
        lemma_edges_101_to_110();
    } else if k == 106 {
        lemma_edges_101_to_110();
    } else if k == 107 {
        lemma_edges_101_to_110();
    } else if k == 108 {
        lemma_edges_101_to_110();
    } else if k == 109 {
        lemma_edges_101_to_110();
    } else if k == 110 {
        lemma_edges_101_to_110();
    } else if k == 111 {
        lemma_edges_111_to_120();
    } else if k == 112 {
        lemma_edges_111_to_120();
    } else if k == 113 {
        lemma_edges_111_to_120();
    } else if k == 114 {
        lemma_edges_111_to_120();
    } else if k == 115 {
        lemma_edges_111_to_120();
    } else if k == 116 {
        lemma_edges_111_to_120();
    } else if k == 117 {
        lemma_edges_111_to_120();
    } else if k == 118 {
        lemma_edges_111_to_120();
    } else if k == 119 {
        lemma_edges_111_to_120();
    } else if k == 120 {
        lemma_edges_111_to_120();
    } else if k == 121 {
        lemma_edges_121_to_127();
    } else if k == 122 {
        lemma_edges_121_to_127();
    } else if k == 123 {
        lemma_edges_121_to_127();
    } else if k == 124 {
        lemma_edges_121_to_127();
    } else if k == 125 {
        lemma_edges_121_to_127();
    } else if k == 126 {
        lemma_edges_121_to_127();
    } else {
        lemma_edges_121_to_127();
    }
}

} // verus!
