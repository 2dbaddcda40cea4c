//! The edges between tenths of a decibel within one decade of amplitude,
//! each bracketed between two whole numbers.
//!
//! Edge `j`, for `j` from 1 to 200, is ten to the power `9 + (2j - 1) / 400`.
//! Its bounds are held at the scale `10^10` and follow from those of the edge
//! before it by one multiplication with a bound of the 200th root of ten.
//! This module evaluates them and shows that no whole number lies inside a
//! bracket; what the bounds have to do with powers of ten is proved where
//! they are used.

use vstd::prelude::*;
use crate::power::lemma_quotient;

verus! {

/// The scale of the roots: `10^18`.
pub open spec fn root_scale() -> int {
    1_000_000_000_000_000_000
}

/// An upper bound of the 400th root of ten, at the root scale.
pub open spec fn root_above() -> int {
    1005773063001738243
}

/// A lower bound of the 400th root of ten, at the root scale.
pub open spec fn root_below() -> int {
    1005773063001738242
}

/// An upper bound of the 200th root of ten, at the root scale: the ratio of
/// one edge to the one before it.
pub open spec fn step_above() -> int {
    1011579454259898525
}

/// A lower bound of the 200th root of ten, at the root scale.
pub open spec fn step_below() -> int {
    1011579454259898522
}

/// The edges of a decade: edge `j`, for `j` from 1 to 200, is ten to the
/// power `9 + (2j - 1) / 400`. This is an upper bound of edge `j` times
/// `10^10`.
pub open spec fn edge_above(j: nat) -> int
    decreases j,
{
    if j <= 1 {
        10 * root_above()
    } else {
        edge_above((j - 1) as nat) * step_above() / root_scale() + 1
    }
}

/// A lower bound of edge `j` times `10^10`.
pub open spec fn edge_below(j: nat) -> int
    decreases j,
{
    if j <= 1 {
        10 * root_below()
    } else {
        edge_below((j - 1) as nat) * step_below() / root_scale()
    }
}

/// Between the two bounds of edge `j` lies no multiple of `10^10`, and the
/// upper bound is at most `10^20`.
#[verifier::opaque]
pub open spec fn bracket_is_tight(j: nat) -> bool {
    &&& edge_above(j) <= 100_000_000_000_000_000_000
    &&& (edge_above(j) + 9_999_999_999) / 10_000_000_000 == (edge_below(j) + 9_999_999_999)
        / 10_000_000_000
}

/// The bounds of edge `j` from those of the edge before it, each product
/// checked against the quotient that it is said to have. `t` is the whole
/// number that both bounds of edge `j` lie just below, at the scale `10^10`.
proof fn lemma_next_edge(j: nat, u: int, next_u: int, l: int, next_l: int, t: int)
    requires
        j >= 2,
        edge_above((j - 1) as nat) == u,
        edge_below((j - 1) as nat) == l,
        (next_u - 1) * 1_000_000_000_000_000_000 <= u * 1011579454259898525,
        u * 1011579454259898525 < next_u * 1_000_000_000_000_000_000,
        next_l * 1_000_000_000_000_000_000 <= l * 1011579454259898522,
        l * 1011579454259898522 < (next_l + 1) * 1_000_000_000_000_000_000,
        (t - 1) * 10_000_000_000 < next_l,
        next_l <= next_u <= t * 10_000_000_000,
        t <= 10_000_000_000,
    ensures
        edge_above(j) == next_u,
        edge_below(j) == next_l,
        bracket_is_tight(j),
{
    reveal(bracket_is_tight);
    lemma_quotient(u * step_above(), root_scale(), next_u - 1);
    lemma_quotient(l * step_below(), root_scale(), next_l);
    lemma_quotient(next_u + 9_999_999_999, 10_000_000_000, t);
    lemma_quotient(next_l + 9_999_999_999, 10_000_000_000, t);
}

proof fn lemma_edges_1_to_10()
    ensures
        edge_above(10) == 11155781513508522910,
        edge_below(10) == 11155781513508522593,
        bracket_is_tight(1),
        bracket_is_tight(2),
        bracket_is_tight(3),
        bracket_is_tight(4),
        bracket_is_tight(5),
        bracket_is_tight(6),
        bracket_is_tight(7),
        bracket_is_tight(8),
        bracket_is_tight(9),
        bracket_is_tight(10),
{
    reveal(bracket_is_tight);
    assert(edge_above(1) == 10057730630017382430);
    assert(edge_below(1) == 10057730630017382420);
    lemma_quotient(edge_above(1) + 9_999_999_999, 10_000_000_000, 1005773064);
    lemma_quotient(edge_below(1) + 9_999_999_999, 10_000_000_000, 1005773064);
    lemma_next_edge(
        2,
        10057730630017382430,
        10174193661806049085,
        10057730630017382420,
        10174193661806049044,
        1017419367,
    );
    lemma_next_edge(
        3,
        10174193661806049085,
        10292005271944281714,
        10174193661806049044,
        10292005271944281641,
        1029200528,
    );
    lemma_next_edge(
        4,
        10292005271944281714,
        10411181076233395005,
        10292005271944281641,
        10411181076233394899,
        1041118108,
    );
    lemma_next_edge(
        5,
        10411181076233395005,
        10531736871297160701,
        10411181076233394899,
        10531736871297160562,
        1053173688,
    );
    lemma_next_edge(
        6,
        10531736871297160701,
        10653688636675632973,
        10531736871297160562,
        10653688636675632800,
        1065368864,
    );
    lemma_next_edge(
        7,
        10653688636675632973,
        10777052536943219141,
        10653688636675632800,
        10777052536943218933,
        1077705254,
    );
    lemma_next_edge(
        8,
        10777052536943219141,
        10901844923851276506,
        10777052536943218933,
        10901844923851276263,
        1090184493,
    );
    lemma_next_edge(
        9,
        10901844923851276506,
        11028082338495519281,
        10901844923851276263,
        11028082338495519002,
        1102808234,
    );
    lemma_next_edge(
        10,
        11028082338495519281,
        11155781513508522910,
        11028082338495519002,
        11155781513508522593,
        1115578152,
    );
}

proof fn lemma_edges_11_to_20()
    ensures
        edge_above(20) == 12516992730317251178,
        edge_below(20) == 12516992730317250443,
        bracket_is_tight(11),
        bracket_is_tight(12),
        bracket_is_tight(13),
        bracket_is_tight(14),
        bracket_is_tight(15),
        bracket_is_tight(16),
        bracket_is_tight(17),
        bracket_is_tight(18),
        bracket_is_tight(19),
        bracket_is_tight(20),
{
    lemma_edges_1_to_10();
    lemma_next_edge(
        11,
        11155781513508522910,
        11284959375277616391,
        11155781513508522593,
        11284959375277616036,
        1128495938,
    );
    lemma_next_edge(
        12,
        11284959375277616391,
        11415633046188456584,
        11284959375277616036,
        11415633046188456190,
        1141563305,
    );
    lemma_next_edge(
        13,
        11415633046188456584,
        11547819846894581883,
        11415633046188456190,
        11547819846894581450,
        1154781985,
    );
    lemma_next_edge(
        14,
        11547819846894581883,
        11681537298613246082,
        11547819846894581450,
        11681537298613245609,
        1168153730,
    );
    lemma_next_edge(
        15,
        11681537298613246082,
        11816803125447836743,
        11681537298613245609,
        11816803125447836228,
        1181680313,
    );
    lemma_next_edge(
        16,
        11816803125447836743,
        11953635256737185901,
        11816803125447836228,
        11953635256737185344,
        1195363526,
    );
    lemma_next_edge(
        17,
        11953635256737185901,
        12092051829432084507,
        11953635256737185344,
        12092051829432083907,
        1209205183,
    );
    lemma_next_edge(
        18,
        12092051829432084507,
        12232071190499315611,
        12092051829432083907,
        12232071190499314967,
        1223207120,
    );
    lemma_next_edge(
        19,
        12232071190499315611,
        12373711899353524934,
        12232071190499314967,
        12373711899353524245,
        1237371190,
    );
    lemma_next_edge(
        20,
        12373711899353524934,
        12516992730317251178,
        12373711899353524245,
        12516992730317250443,
        1251699274,
    );
}

proof fn lemma_edges_21_to_30()
    ensures
        edge_above(30) == 14044296835779475308,
        edge_below(30) == 14044296835779474055,
        bracket_is_tight(21),
        bracket_is_tight(22),
        bracket_is_tight(23),
        bracket_is_tight(24),
        bracket_is_tight(25),
        bracket_is_tight(26),
        bracket_is_tight(27),
        bracket_is_tight(28),
        bracket_is_tight(29),
        bracket_is_tight(30),
{
    lemma_edges_11_to_20();
    lemma_next_edge(
        21,
        12516992730317251178,
        12661932675109442142,
        12516992730317250443,
        12661932675109441360,
        1266193268,
    );
    lemma_next_edge(
        22,
        12661932675109442142,
        12808550945362786499,
        12661932675109441360,
        12808550945362785669,
        1280855095,
    );
    lemma_next_edge(
        23,
        12808550945362786499,
        12956866975170194897,
        12808550945362785669,
        12956866975170194018,
        1295686698,
    );
    lemma_next_edge(
        24,
        12956866975170194897,
        13106900423660767927,
        12956866975170194018,
        13106900423660766998,
        1310690043,
    );
    lemma_next_edge(
        25,
        13106900423660767927,
        13258671177605592389,
        13106900423660766998,
        13258671177605591409,
        1325867118,
    );
    lemma_next_edge(
        26,
        13258671177605592389,
        13412199354053711259,
        13258671177605591409,
        13412199354053710227,
        1341219936,
    );
    lemma_next_edge(
        27,
        13412199354053711259,
        13567505302998616752,
        13412199354053710227,
        13567505302998615666,
        1356750531,
    );
    lemma_next_edge(
        28,
        13567505302998616752,
        13724609610075619913,
        13567505302998615666,
        13724609610075618773,
        1372460962,
    );
    lemma_next_edge(
        29,
        13724609610075619913,
        13883533099290454285,
        13724609610075618773,
        13883533099290453089,
        1388353310,
    );
    lemma_next_edge(
        30,
        13883533099290454285,
        14044296835779475308,
        13883533099290453089,
        14044296835779474055,
        1404429684,
    );
}

proof fn lemma_edges_31_to_40()
    ensures
        edge_above(40) == 15757960227439242984,
        edge_below(40) == 15757960227439241102,
        bracket_is_tight(31),
        bracket_is_tight(32),
        bracket_is_tight(33),
        bracket_is_tight(34),
        bracket_is_tight(35),
        bracket_is_tight(36),
        bracket_is_tight(37),
        bracket_is_tight(38),
        bracket_is_tight(39),
        bracket_is_tight(40),
{
    lemma_edges_21_to_30();
    lemma_next_edge(
        31,
        14044296835779475308,
        14206922128601821329,
        14044296835779474055,
        14206922128601820019,
        1420692213,
    );
    lemma_next_edge(
        32,
        14206922128601821329,
        14371430533563906310,
        14206922128601820019,
        14371430533563904941,
        1437143054,
    );
    lemma_next_edge(
        33,
        14371430533563906310,
        14537843856076618617,
        14371430533563904941,
        14537843856076617189,
        1453784386,
    );
    lemma_next_edge(
        34,
        14537843856076618617,
        14706184154045604618,
        14537843856076617189,
        14706184154045603129,
        1470618416,
    );
    lemma_next_edge(
        35,
        14706184154045604618,
        14876473740795020181,
        14706184154045603129,
        14876473740795018630,
        1487647375,
    );
    lemma_next_edge(
        36,
        14876473740795020181,
        15048735188025137624,
        14876473740795018630,
        15048735188025136009,
        1504873519,
    );
    lemma_next_edge(
        37,
        15048735188025137624,
        15222991328804200135,
        15048735188025136009,
        15222991328804198455,
        1522299133,
    );
    lemma_next_edge(
        38,
        15222991328804200135,
        15399265260594920238,
        15222991328804198455,
        15399265260594918492,
        1539926527,
    );
    lemma_next_edge(
        39,
        15399265260594920238,
        15577580348316023457,
        15399265260594918492,
        15577580348316021644,
        1557758035,
    );
    lemma_next_edge(
        40,
        15577580348316023457,
        15757960227439242984,
        15577580348316021644,
        15757960227439241102,
        1575796023,
    );
}

proof fn lemma_edges_41_to_50()
    ensures
        edge_above(50) == 17680722177343195704,
        edge_below(50) == 17680722177343193056,
        bracket_is_tight(41),
        bracket_is_tight(42),
        bracket_is_tight(43),
        bracket_is_tight(44),
        bracket_is_tight(45),
        bracket_is_tight(46),
        bracket_is_tight(47),
        bracket_is_tight(48),
        bracket_is_tight(49),
        bracket_is_tight(50),
{
    lemma_edges_31_to_40();
    lemma_next_edge(
        41,
        15757960227439242984,
        15940428807122175857,
        15757960227439241102,
        15940428807122173904,
        1594042881,
    );
    lemma_next_edge(
        42,
        15940428807122175857,
        16125010273377415900,
        15940428807122173904,
        16125010273377413876,
        1612501028,
    );
    lemma_next_edge(
        43,
        16125010273377415900,
        16311729092278383498,
        16125010273377413876,
        16311729092278381401,
        1631172910,
    );
    lemma_next_edge(
        44,
        16311729092278383498,
        16500610013202277127,
        16311729092278381401,
        16500610013202274955,
        1650061002,
    );
    lemma_next_edge(
        45,
        16500610013202277127,
        16691678072110576492,
        16500610013202274955,
        16691678072110574245,
        1669167808,
    );
    lemma_next_edge(
        46,
        16691678072110576492,
        16884958594867532107,
        16691678072110574245,
        16884958594867529783,
        1688495860,
    );
    lemma_next_edge(
        47,
        16884958594867532107,
        17080477200597081165,
        16884958594867529783,
        17080477200597078763,
        1708047721,
    );
    lemma_next_edge(
        48,
        17080477200597081165,
        17278259805078634670,
        17080477200597078763,
        17278259805078632188,
        1727825981,
    );
    lemma_next_edge(
        49,
        17278259805078634670,
        17478332624182185925,
        17278259805078632188,
        17478332624182183361,
        1747833263,
    );
    lemma_next_edge(
        50,
        17478332624182185925,
        17680722177343195704,
        17478332624182183361,
        17680722177343193056,
        1768072218,
    );
}

proof fn lemma_edges_51_to_60()
    ensures
        edge_above(60) == 19838096568365057997,
        edge_below(60) == 19838096568365054428,
        bracket_is_tight(51),
        bracket_is_tight(52),
        bracket_is_tight(53),
        bracket_is_tight(54),
        bracket_is_tight(55),
        bracket_is_tight(56),
        bracket_is_tight(57),
        bracket_is_tight(58),
        bracket_is_tight(59),
        bracket_is_tight(60),
{
    lemma_edges_41_to_50();
    lemma_next_edge(
        51,
        17680722177343195704,
        17885455291077714696,
        17680722177343193056,
        17885455291077711963,
        1788545530,
    );
    lemma_next_edge(
        52,
        17885455291077714696,
        18092559102538209153,
        17885455291077711963,
        18092559102538206334,
        1809255911,
    );
    lemma_next_edge(
        53,
        18092559102538209153,
        18302061063110561054,
        18092559102538206334,
        18302061063110558147,
        1830206107,
    );
    lemma_next_edge(
        54,
        18302061063110561054,
        18513988942052719568,
        18302061063110558147,
        18513988942052716571,
        1851398895,
    );
    lemma_next_edge(
        55,
        18513988942052719568,
        18728370830175486118,
        18513988942052716571,
        18728370830175483030,
        1872837084,
    );
    lemma_next_edge(
        56,
        18728370830175486118,
        18945235143565920926,
        18728370830175483030,
        18945235143565917745,
        1894523515,
    );
    lemma_next_edge(
        57,
        18945235143565920926,
        19164610627353864573,
        18945235143565917745,
        19164610627353861298,
        1916461063,
    );
    lemma_next_edge(
        58,
        19164610627353864573,
        19386526359522073824,
        19164610627353861298,
        19386526359522070453,
        1938652636,
    );
    lemma_next_edge(
        59,
        19386526359522073824,
        19611011754760476746,
        19386526359522070453,
        19611011754760473277,
        1961101176,
    );
    lemma_next_edge(
        60,
        19611011754760476746,
        19838096568365057997,
        19611011754760473277,
        19838096568365054428,
        1983809657,
    );
}

proof fn lemma_edges_61_to_70()
    ensures
        edge_above(70) == 22258710447930047606,
        edge_below(70) == 22258710447930042929,
        bracket_is_tight(61),
        bracket_is_tight(62),
        bracket_is_tight(63),
        bracket_is_tight(64),
        bracket_is_tight(65),
        bracket_is_tight(66),
        bracket_is_tight(67),
        bracket_is_tight(68),
        bracket_is_tight(69),
        bracket_is_tight(70),
{
    lemma_edges_51_to_60();
    lemma_next_edge(
        61,
        19838096568365057997,
        20067810900181891079,
        19838096568365054428,
        20067810900181887408,
        2006781091,
    );
    lemma_next_edge(
        62,
        20067810900181891079,
        20300185198596840332,
        20067810900181887408,
        20300185198596836557,
        2030018520,
    );
    lemma_next_edge(
        63,
        20300185198596840332,
        20535250264571461500,
        20300185198596836557,
        20535250264571457619,
        2053525027,
    );
    lemma_next_edge(
        64,
        20535250264571461500,
        20773037255725635823,
        20535250264571457619,
        20773037255725631834,
        2077303726,
    );
    lemma_next_edge(
        65,
        20773037255725635823,
        21013577690467478803,
        20773037255725631834,
        21013577690467474704,
        2101357770,
    );
    lemma_next_edge(
        66,
        21013577690467478803,
        21256903452171071060,
        21013577690467474704,
        21256903452171066849,
        2125690346,
    );
    lemma_next_edge(
        67,
        21256903452171071060,
        21503046793402565031,
        21256903452171066849,
        21503046793402560707,
        2150304680,
    );
    lemma_next_edge(
        68,
        21503046793402565031,
        21752040340195227681,
        21503046793402560707,
        21752040340195223242,
        2175204035,
    );
    lemma_next_edge(
        69,
        21752040340195227681,
        22003917096373985872,
        21752040340195223242,
        22003917096373981315,
        2200391710,
    );
    lemma_next_edge(
        70,
        22003917096373985872,
        22258710447930047606,
        22003917096373981315,
        22258710447930042929,
        2225871045,
    );
}

proof fn lemma_edges_71_to_80()
    ensures
        edge_above(80) == 24974683891541436338,
        edge_below(80) == 24974683891541430338,
        bracket_is_tight(71),
        bracket_is_tight(72),
        bracket_is_tight(73),
        bracket_is_tight(74),
        bracket_is_tight(75),
        bracket_is_tight(76),
        bracket_is_tight(77),
        bracket_is_tight(78),
        bracket_is_tight(79),
        bracket_is_tight(80),
{
    lemma_edges_61_to_70();
    lemma_next_edge(
        71,
        22258710447930047606,
        22516454167446179002,
        22258710447930042929,
        22516454167446174203,
        2251645417,
    );
    lemma_next_edge(
        72,
        22516454167446179002,
        22777182418573223556,
        22516454167446174203,
        22777182418573218633,
        2277718242,
    );
    lemma_next_edge(
        73,
        22777182418573223556,
        23040929760558457059,
        22777182418573218633,
        23040929760558452009,
        2304092977,
    );
    lemma_next_edge(
        74,
        23040929760558457059,
        23307731152826378387,
        23040929760558452009,
        23307731152826373208,
        2330773116,
    );
    lemma_next_edge(
        75,
        23307731152826378387,
        23577621959612543354,
        23307731152826373208,
        23577621959612538044,
        2357762196,
    );
    lemma_next_edge(
        76,
        23577621959612543354,
        23850637954651055828,
        23577621959612538044,
        23850637954651050385,
        2385063796,
    );
    lemma_next_edge(
        77,
        23850637954651055828,
        24126815325916337440,
        23850637954651050385,
        24126815325916331862,
        2412681533,
    );
    lemma_next_edge(
        78,
        24126815325916337440,
        24406190680419804394,
        24126815325916331862,
        24406190680419798678,
        2440619069,
    );
    lemma_next_edge(
        79,
        24406190680419804394,
        24688801049062087179,
        24406190680419798678,
        24688801049062081322,
        2468880105,
    );
    lemma_next_edge(
        80,
        24688801049062087179,
        24974683891541436338,
        24688801049062081322,
        24974683891541430338,
        2497468390,
    );
}

proof fn lemma_edges_81_to_90()
    ensures
        edge_above(90) == 28022056216667467588,
        edge_below(90) == 28022056216667460014,
        bracket_is_tight(81),
        bracket_is_tight(82),
        bracket_is_tight(83),
        bracket_is_tight(84),
        bracket_is_tight(85),
        bracket_is_tight(86),
        bracket_is_tight(87),
        bracket_is_tight(88),
        bracket_is_tight(89),
        bracket_is_tight(90),
{
    lemma_edges_71_to_80();
    lemma_next_edge(
        81,
        24974683891541436338,
        25263877101318964895,
        24974683891541430338,
        25263877101318958750,
        2526387711,
    );
    lemma_next_edge(
        82,
        25263877101318964895,
        25556419010641385583,
        25263877101318958750,
        25556419010641379290,
        2555641902,
    );
    lemma_next_edge(
        83,
        25556419010641385583,
        25852348395621908624,
        25556419010641379290,
        25852348395621902180,
        2585234840,
    );
    lemma_next_edge(
        84,
        25852348395621908624,
        26151704481379973533,
        25852348395621902180,
        26151704481379966935,
        2615170449,
    );
    lemma_next_edge(
        85,
        26151704481379973533,
        26454526947240496214,
        26151704481379966935,
        26454526947240489461,
        2645452695,
    );
    lemma_next_edge(
        86,
        26454526947240496214,
        26760855931993320501,
        26454526947240489461,
        26760855931993313589,
        2676085594,
    );
    lemma_next_edge(
        87,
        26760855931993320501,
        27070732039213571269,
        26760855931993313589,
        27070732039213564196,
        2707073204,
    );
    lemma_next_edge(
        88,
        27070732039213571269,
        27384196342643614342,
        27070732039213564196,
        27384196342643607105,
        2738419635,
    );
    lemma_next_edge(
        89,
        27384196342643614342,
        27701290391637336551,
        27384196342643607105,
        27701290391637329147,
        2770129040,
    );
    lemma_next_edge(
        90,
        27701290391637336551,
        28022056216667467588,
        27701290391637329147,
        28022056216667460014,
        2802205622,
    );
}

proof fn lemma_edges_91_to_100()
    ensures
        edge_above(100) == 31441264202587957563,
        edge_below(100) == 31441264202587948121,
        bracket_is_tight(91),
        bracket_is_tight(92),
        bracket_is_tight(93),
        bracket_is_tight(94),
        bracket_is_tight(95),
        bracket_is_tight(96),
        bracket_is_tight(97),
        bracket_is_tight(98),
        bracket_is_tight(99),
        bracket_is_tight(100),
{
    lemma_edges_81_to_90();
    lemma_next_edge(
        91,
        28022056216667467588,
        28346536334896673641,
        28022056216667460014,
        28346536334896665894,
        2834653634,
    );
    lemma_next_edge(
        92,
        28346536334896673641,
        28674773755813161251,
        28346536334896665894,
        28674773755813153328,
        2867477376,
    );
    lemma_next_edge(
        93,
        28674773755813161251,
        29006811986931538389,
        28674773755813153328,
        29006811986931530287,
        2900681199,
    );
    lemma_next_edge(
        94,
        29006811986931538389,
        29342695039559688390,
        29006811986931530287,
        29342695039559680106,
        2934269504,
    );
    lemma_next_edge(
        95,
        29342695039559688390,
        29682467434632421143,
        29342695039559680106,
        29682467434632412674,
        2968246744,
    );
    lemma_next_edge(
        96,
        29682467434632421143,
        30026174208612674776,
        29682467434632412674,
        30026174208612666119,
        3002617421,
    );
    lemma_next_edge(
        97,
        30026174208612674776,
        30373860919461050036,
        30026174208612666119,
        30373860919461041188,
        3037386092,
    );
    lemma_next_edge(
        98,
        30373860919461050036,
        30725573652674468622,
        30373860919461041188,
        30725573652674459579,
        3072557366,
    );
    lemma_next_edge(
        99,
        30725573652674468622,
        31081359027394755881,
        30725573652674459579,
        31081359027394746640,
        3108135903,
    );
    lemma_next_edge(
        100,
        31081359027394755881,
        31441264202587957563,
        31081359027394746640,
        31441264202587948121,
        3144126421,
    );
}

proof fn lemma_edges_101_to_110()
    ensures
        edge_above(110) == 35277678661887395302,
        edge_below(110) == 35277678661887383649,
        bracket_is_tight(101),
        bracket_is_tight(102),
        bracket_is_tight(103),
        bracket_is_tight(104),
        bracket_is_tight(105),
        bracket_is_tight(106),
        bracket_is_tight(107),
        bracket_is_tight(108),
        bracket_is_tight(109),
        bracket_is_tight(110),
{
    lemma_edges_91_to_100();
    lemma_next_edge(
        101,
        31441264202587957563,
        31805336883295209689,
        31441264202587948121,
        31805336883295200043,
        3180533689,
    );
    lemma_next_edge(
        102,
        31805336883295209689,
        32173625326955990082,
        31805336883295200043,
        32173625326955980227,
        3217362533,
    );
    lemma_next_edge(
        103,
        32173625326955990082,
        32546178349804589696,
        32173625326955980227,
        32546178349804579629,
        3254617835,
    );
    lemma_next_edge(
        104,
        32546178349804589696,
        32923045333340651599,
        32546178349804579629,
        32923045333340641317,
        3292304534,
    );
    lemma_next_edge(
        105,
        32923045333340651599,
        33304276230874635262,
        32923045333340641317,
        33304276230874624761,
        3330427624,
    );
    lemma_next_edge(
        106,
        33304276230874635262,
        33689921574149073750,
        33304276230874624761,
        33689921574149063026,
        3368992158,
    );
    lemma_next_edge(
        107,
        33689921574149073750,
        34080032480036501464,
        33689921574149063026,
        34080032480036490513,
        3408003249,
    );
    lemma_next_edge(
        108,
        34080032480036501464,
        34474660657314940225,
        34080032480036490513,
        34474660657314929044,
        3447466066,
    );
    lemma_next_edge(
        109,
        34474660657314940225,
        34873858413521841794,
        34474660657314929044,
        34873858413521830379,
        3487385842,
    );
    lemma_next_edge(
        110,
        34873858413521841794,
        35277678661887395302,
        34873858413521830379,
        35277678661887383649,
        3527767867,
    );
}

proof fn lemma_edges_111_to_120()
    ensures
        edge_above(120) == 39582206483572253272,
        edge_below(120) == 39582206483572239011,
        bracket_is_tight(111),
        bracket_is_tight(112),
        bracket_is_tight(113),
        bracket_is_tight(114),
        bracket_is_tight(115),
        bracket_is_tight(116),
        bracket_is_tight(117),
        bracket_is_tight(118),
        bracket_is_tight(119),
        bracket_is_tight(120),
{
    lemma_edges_101_to_110();
    lemma_next_edge(
        111,
        35277678661887395302,
        35686174928348118599,
        35277678661887383649,
        35686174928348106704,
        3568617493,
    );
    lemma_next_edge(
        112,
        35686174928348118599,
        36099401358641663162,
        35686174928348106704,
        36099401358641651021,
        3609940136,
    );
    lemma_next_edge(
        113,
        36099401358641663162,
        36517412725483772970,
        36099401358641651021,
        36517412725483760579,
        3651741273,
    );
    lemma_next_edge(
        114,
        36517412725483772970,
        36940264435828348652,
        36517412725483760579,
        36940264435828336006,
        3694026444,
    );
    lemma_next_edge(
        115,
        36940264435828348652,
        37368012538211579208,
        36940264435828336006,
        37368012538211566303,
        3736801254,
    );
    lemma_next_edge(
        116,
        37368012538211579208,
        37800713730181114773,
        37368012538211566303,
        37800713730181101606,
        3780071374,
    );
    lemma_next_edge(
        117,
        37800713730181114773,
        38238425365811265146,
        37800713730181101606,
        38238425365811251712,
        3823842537,
    );
    lemma_next_edge(
        118,
        38238425365811265146,
        38681205463305220215,
        38238425365811251712,
        38681205463305206510,
        3868120547,
    );
    lemma_next_edge(
        119,
        38681205463305220215,
        39129112712685299946,
        38681205463305206510,
        39129112712685285965,
        3912911272,
    );
    lemma_next_edge(
        120,
        39129112712685299946,
        39582206483572253272,
        39129112712685285965,
        39582206483572239011,
        3958220649,
    );
}

proof fn lemma_edges_121_to_130()
    ensures
        edge_above(130) == 44411966136558895321,
        edge_below(130) == 44411966136558877994,
        bracket_is_tight(121),
        bracket_is_tight(122),
        bracket_is_tight(123),
        bracket_is_tight(124),
        bracket_is_tight(125),
        bracket_is_tight(126),
        bracket_is_tight(127),
        bracket_is_tight(128),
        bracket_is_tight(129),
        bracket_is_tight(130),
{
    lemma_edges_111_to_120();
    lemma_next_edge(
        121,
        39582206483572253272,
        40040546833054637016,
        39582206483572239011,
        40040546833054622470,
        4004054684,
    );
    lemma_next_edge(
        122,
        40040546833054637016,
        40504194513649317927,
        40040546833054622470,
        40504194513649303092,
        4050419452,
    );
    lemma_next_edge(
        123,
        40504194513649317927,
        40973210981354152987,
        40504194513649303092,
        40973210981354137858,
        4097321099,
    );
    lemma_next_edge(
        124,
        40973210981354152987,
        41447658403793915358,
        40973210981354137858,
        41447658403793899930,
        4144765841,
    );
    lemma_next_edge(
        125,
        41447658403793915358,
        41927599668460545711,
        41447658403793899930,
        41927599668460529979,
        4192759967,
    );
    lemma_next_edge(
        126,
        41927599668460545711,
        42413098391048821162,
        41927599668460529979,
        42413098391048805121,
        4241309840,
    );
    lemma_next_edge(
        127,
        42413098391048821162,
        42904218923888546711,
        42413098391048805121,
        42904218923888530356,
        4290421893,
    );
    lemma_next_edge(
        128,
        42904218923888546711,
        43401026364474386854,
        42904218923888530356,
        43401026364474370180,
        4340102637,
    );
    lemma_next_edge(
        129,
        43401026364474386854,
        43903586564094467987,
        43401026364474370180,
        43903586564094450989,
        4390358657,
    );
    lemma_next_edge(
        130,
        43903586564094467987,
        44411966136558895321,
        43903586564094450989,
        44411966136558877994,
        4441196614,
    );
}

proof fn lemma_edges_131_to_140()
    ensures
        edge_above(140) == 49831045597052954764,
        edge_below(140) == 49831045597052933837,
        bracket_is_tight(131),
        bracket_is_tight(132),
        bracket_is_tight(133),
        bracket_is_tight(134),
        bracket_is_tight(135),
        bracket_is_tight(136),
        bracket_is_tight(137),
        bracket_is_tight(138),
        bracket_is_tight(139),
        bracket_is_tight(140),
{
    lemma_edges_121_to_130();
    lemma_next_edge(
        131,
        44411966136558895321,
        44926232467029341259,
        44411966136558877994,
        44926232467029323598,
        4492623247,
    );
    lemma_next_edge(
        132,
        44926232467029341259,
        45446453720950875585,
        44926232467029323598,
        45446453720950857584,
        4544645373,
    );
    lemma_next_edge(
        133,
        45446453720950875585,
        45972698853087221374,
        45446453720950857584,
        45972698853087203027,
        4597269886,
    );
    lemma_next_edge(
        134,
        45972698853087221374,
        46505037616660634235,
        45972698853087203027,
        46505037616660615536,
        4650503762,
    );
    lemma_next_edge(
        135,
        46505037616660634235,
        47043540572597616365,
        46505037616660615536,
        47043540572597597309,
        4704354058,
    );
    lemma_next_edge(
        136,
        47043540572597616365,
        47588279098881690930,
        47043540572597597309,
        47588279098881671512,
        4758827910,
    );
    lemma_next_edge(
        137,
        47588279098881690930,
        48139325400014476467,
        47588279098881671512,
        48139325400014456681,
        4813932541,
    );
    lemma_next_edge(
        138,
        48139325400014476467,
        48696752516586315363,
        48139325400014456681,
        48696752516586295203,
        4869675252,
    );
    lemma_next_edge(
        139,
        48696752516586315363,
        49260634334957724991,
        48696752516586295203,
        49260634334957704450,
        4926063434,
    );
    lemma_next_edge(
        140,
        49260634334957724991,
        49831045597052954764,
        49260634334957704450,
        49831045597052933837,
        4983104560,
    );
}

proof fn lemma_edges_141_to_150()
    ensures
        edge_above(150) == 55911352757056017304,
        edge_below(150) == 55911352757055992153,
        bracket_is_tight(141),
        bracket_is_tight(142),
        bracket_is_tight(143),
        bracket_is_tight(144),
        bracket_is_tight(145),
        bracket_is_tight(146),
        bracket_is_tight(147),
        bracket_is_tight(148),
        bracket_is_tight(149),
        bracket_is_tight(150),
{
    lemma_edges_131_to_140();
    lemma_next_edge(
        141,
        49831045597052954764,
        50408061910266947240,
        49831045597052933837,
        50408061910266925920,
        5040806192,
    );
    lemma_next_edge(
        142,
        50408061910266947240,
        50991759757487016422,
        50408061910266925920,
        50991759757486994703,
        5099175976,
    );
    lemma_next_edge(
        143,
        50991759757487016422,
        51582216507230571633,
        50991759757486994703,
        51582216507230549508,
        5158221651,
    );
    lemma_next_edge(
        144,
        51582216507230571633,
        52179510423900230692,
        51582216507230549508,
        52179510423900208155,
        5217951043,
    );
    lemma_next_edge(
        145,
        52179510423900230692,
        52783720678157681709,
        52179510423900208155,
        52783720678157658753,
        5278372068,
    );
    lemma_next_edge(
        146,
        52783720678157681709,
        53394927357417668538,
        52783720678157658753,
        53394927357417645157,
        5339492736,
    );
    lemma_next_edge(
        147,
        53394927357417668538,
        54013211476463490853,
        53394927357417645157,
        54013211476463467040,
        5401321148,
    );
    lemma_next_edge(
        148,
        54013211476463490853,
        54638654988185425922,
        54013211476463467040,
        54638654988185401670,
        5463865499,
    );
    lemma_next_edge(
        149,
        54638654988185425922,
        55271340794443495445,
        54638654988185401670,
        55271340794443470747,
        5527134080,
    );
    lemma_next_edge(
        150,
        55271340794443495445,
        55911352757056017304,
        55271340794443470747,
        55911352757055992153,
        5591135276,
    );
}

proof fn lemma_edges_151_to_160()
    ensures
        edge_above(160) == 62733569598403814646,
        edge_below(160) == 62733569598403784554,
        bracket_is_tight(151),
        bracket_is_tight(152),
        bracket_is_tight(153),
        bracket_is_tight(154),
        bracket_is_tight(155),
        bracket_is_tight(156),
        bracket_is_tight(157),
        bracket_is_tight(158),
        bracket_is_tight(159),
        bracket_is_tight(160),
{
    lemma_edges_141_to_150();
    lemma_next_edge(
        151,
        55911352757056017304,
        56558775708915398745,
        55911352757055992153,
        56558775708915373134,
        5655877571,
    );
    lemma_next_edge(
        152,
        56558775708915398745,
        57213695465232644378,
        56558775708915373134,
        57213695465232618299,
        5721369547,
    );
    lemma_next_edge(
        153,
        57213695465232644378,
        57876198834912069445,
        57213695465232618299,
        57876198834912042891,
        5787619884,
    );
    lemma_next_edge(
        154,
        57876198834912069445,
        58546373632057726057,
        57876198834912042891,
        58546373632057699021,
        5854637364,
    );
    lemma_next_edge(
        155,
        58546373632057726057,
        59224308687613067573,
        58546373632057699021,
        59224308687613040047,
        5922430869,
    );
    lemma_next_edge(
        156,
        59224308687613067573,
        59910093861135393931,
        59224308687613040047,
        59910093861135365908,
        5991009387,
    );
    lemma_next_edge(
        157,
        59910093861135393931,
        60603820052706638640,
        59910093861135365908,
        60603820052706610112,
        6060382006,
    );
    lemma_next_edge(
        158,
        60603820052706638640,
        61305579214982076179,
        60603820052706610112,
        61305579214982047138,
        6130557922,
    );
    lemma_next_edge(
        159,
        61305579214982076179,
        62015464365378546854,
        61305579214982047138,
        62015464365378517291,
        6201546437,
    );
    lemma_next_edge(
        160,
        62015464365378546854,
        62733569598403814646,
        62015464365378517291,
        62733569598403784554,
        6273356960,
    );
}

proof fn lemma_edges_161_to_170()
    ensures
        edge_above(170) == 70388222793645693574,
        edge_below(170) == 70388222793645657712,
        bracket_is_tight(161),
        bracket_is_tight(162),
        bracket_is_tight(163),
        bracket_is_tight(164),
        bracket_is_tight(165),
        bracket_is_tight(166),
        bracket_is_tight(167),
        bracket_is_tight(168),
        bracket_is_tight(169),
        bracket_is_tight(170),
{
    lemma_edges_151_to_160();
    lemma_next_edge(
        161,
        62733569598403814646,
        63459990098128692298,
        62733569598403784554,
        63459990098128661669,
        6345999010,
    );
    lemma_next_edge(
        162,
        63459990098128692298,
        64194822150803586800,
        63459990098128661669,
        64194822150803555625,
        6419482216,
    );
    lemma_next_edge(
        163,
        64194822150803586800,
        64938163157621137587,
        64194822150803555625,
        64938163157621105857,
        6493816316,
    );
    lemma_next_edge(
        164,
        64938163157621137587,
        65690111647626639120,
        64938163157621105857,
        65690111647626606827,
        6569011165,
    );
    lemma_next_edge(
        165,
        65690111647626639120,
        66450767290777959122,
        65690111647626606827,
        66450767290777926257,
        6645076730,
    );
    lemma_next_edge(
        166,
        66450767290777959122,
        67220230911156683528,
        66450767290777926257,
        67220230911156650082,
        6722023092,
    );
    lemma_next_edge(
        167,
        67220230911156683528,
        67998604500332239296,
        67220230911156650082,
        67998604500332205260,
        6799860451,
    );
    lemma_next_edge(
        168,
        67998604500332239296,
        68785991230880766458,
        67998604500332205260,
        68785991230880731823,
        6878599124,
    );
    lemma_next_edge(
        169,
        68785991230880766458,
        69582495470060531335,
        68785991230880731823,
        69582495470060496091,
        6958249548,
    );
    lemma_next_edge(
        170,
        69582495470060531335,
        70388222793645693574,
        69582495470060496091,
        70388222793645657712,
        7038822280,
    );
}

proof fn lemma_edges_171_to_180()
    ensures
        edge_above(180) == 78976884939988572149,
        edge_below(180) == 78976884939988529558,
        bracket_is_tight(171),
        bracket_is_tight(172),
        bracket_is_tight(173),
        bracket_is_tight(174),
        bracket_is_tight(175),
        bracket_is_tight(176),
        bracket_is_tight(177),
        bracket_is_tight(178),
        bracket_is_tight(179),
        bracket_is_tight(180),
{
    lemma_edges_161_to_170();
    lemma_next_edge(
        171,
        70388222793645693574,
        71203279999920260657,
        70388222793645657712,
        71203279999920224168,
        7120328000,
    );
    lemma_next_edge(
        172,
        71203279999920260657,
        72027775123834084767,
        71203279999920224168,
        72027775123834047640,
        7202777513,
    );
    lemma_next_edge(
        173,
        72027775123834084767,
        72861817451322778369,
        72027775123834047640,
        72861817451322740595,
        7286181746,
    );
    lemma_next_edge(
        174,
        72861817451322778369,
        73705517533793446605,
        72861817451322740595,
        73705517533793408174,
        7370551754,
    );
    lemma_next_edge(
        175,
        73705517533793446605,
        74558987202778156557,
        73705517533793408174,
        74558987202778117459,
        7455898721,
    );
    lemma_next_edge(
        176,
        74558987202778156557,
        75422339584757085693,
        74558987202778117459,
        75422339584757045918,
        7542233959,
    );
    lemma_next_edge(
        177,
        75422339584757085693,
        76295689116153314279,
        75422339584757045918,
        76295689116153273816,
        7629568912,
    );
    lemma_next_edge(
        178,
        76295689116153314279,
        77179151558501249304,
        76295689116153273816,
        77179151558501208143,
        7717915156,
    );
    lemma_next_edge(
        179,
        77179151558501249304,
        78072844013790690481,
        77179151558501208143,
        78072844013790648610,
        7807284402,
    );
    lemma_next_edge(
        180,
        78072844013790690481,
        78976884939988572149,
        78072844013790648610,
        78976884939988529558,
        7897688494,
    );
}

proof fn lemma_edges_181_to_190()
    ensures
        edge_above(190) == 88613522365949992503,
        edge_below(190) == 88613522365949942078,
        bracket_is_tight(181),
        bracket_is_tight(182),
        bracket_is_tight(183),
        bracket_is_tight(184),
        bracket_is_tight(185),
        bracket_is_tight(186),
        bracket_is_tight(187),
        bracket_is_tight(188),
        bracket_is_tight(189),
        bracket_is_tight(190),
{
    lemma_edges_171_to_180();
    lemma_next_edge(
        181,
        78976884939988572149,
        79891394166740438486,
        78976884939988529558,
        79891394166740395164,
        7989139417,
    );
    lemma_next_edge(
        182,
        79891394166740438486,
        80816492911253733228,
        79891394166740395164,
        80816492911253689164,
        8081649292,
    );
    lemma_next_edge(
        183,
        80816492911253733228,
        81752303794365009218,
        80816492911253689164,
        81752303794364964400,
        8175230380,
    );
    lemma_next_edge(
        184,
        81752303794365009218,
        82698950856793187473,
        81752303794364964400,
        82698950856793141890,
        8269895086,
    );
    lemma_next_edge(
        185,
        82698950856793187473,
        83656559575581020122,
        82698950856793141890,
        83656559575580973762,
        8365655958,
    );
    lemma_next_edge(
        186,
        83656559575581020122,
        84625256880726936509,
        83656559575580973762,
        84625256880726889360,
        8462525689,
    );
    lemma_next_edge(
        187,
        84625256880726936509,
        85605171172009476998,
        84625256880726889360,
        85605171172009429049,
        8560517118,
    );
    lemma_next_edge(
        188,
        85605171172009476998,
        86596432336006544545,
        85605171172009429049,
        86596432336006495783,
        8659643234,
    );
    lemma_next_edge(
        189,
        86596432336006544545,
        87599171763311729906,
        86596432336006495783,
        87599171763311680319,
        8759917177,
    );
    lemma_next_edge(
        190,
        87599171763311729906,
        88613522365949992503,
        87599171763311680319,
        88613522365949942078,
        8861352237,
    );
}

proof fn lemma_edges_191_to_200()
    ensures
        edge_above(200) == 99426007395295677038,
        edge_below(200) == 99426007395295617500,
        bracket_is_tight(191),
        bracket_is_tight(192),
        bracket_is_tight(193),
        bracket_is_tight(194),
        bracket_is_tight(195),
        bracket_is_tight(196),
        bracket_is_tight(197),
        bracket_is_tight(198),
        bracket_is_tight(199),
        bracket_is_tight(200),
{
    lemma_edges_181_to_190();
    lemma_next_edge(
        191,
        88613522365949992503,
        89639618594995005366,
        88613522365949942078,
        89639618594994954090,
        8963961860,
    );
    lemma_next_edge(
        192,
        89639618594995005366,
        90677596458390499316,
        89639618594994954090,
        90677596458390447176,
        9067759646,
    );
    lemma_next_edge(
        193,
        90677596458390499316,
        91727593538977968587,
        90677596458390447176,
        91727593538977915571,
        9172759354,
    );
    lemma_next_edge(
        194,
        91727593538977968587,
        92789749012733127444,
        91727593538977915571,
        92789749012733073538,
        9278974902,
    );
    lemma_next_edge(
        195,
        92789749012733127444,
        93864203667213535012,
        92789749012733073538,
        93864203667213480202,
        9386420367,
    );
    lemma_next_edge(
        196,
        93864203667213535012,
        94951099920219833533,
        93864203667213480202,
        94951099920219777805,
        9495109993,
    );
    lemma_next_edge(
        197,
        94951099920219833533,
        96050581838673073582,
        94951099920219777805,
        96050581838673016923,
        9605058184,
    );
    lemma_next_edge(
        198,
        96050581838673073582,
        97162795157710628404,
        96050581838673016923,
        97162795157710570800,
        9716279516,
    );
    lemma_next_edge(
        199,
        97162795157710628404,
        98287887300003228518,
        97162795157710570800,
        98287887300003169954,
        9828788731,
    );
    lemma_next_edge(
        200,
        98287887300003228518,
        99426007395295677038,
        98287887300003169954,
        99426007395295617500,
        9942600740,
    );
}

/// Every bracket is tight.
pub proof fn lemma_brackets_are_tight(j: nat)
    requires
        1 <= j <= 200,
    ensures
        bracket_is_tight(j),
{
    if j == 1 {
        lemma_edges_1_to_10();
    } else if j == 2 {
        lemma_edges_1_to_10();
    } else if j == 3 {
        lemma_edges_1_to_10();
    } else if j == 4 {
        lemma_edges_1_to_10();
    } else if j == 5 {
        lemma_edges_1_to_10();
    } else if j == 6 {
        lemma_edges_1_to_10();
    } else if j == 7 {
        lemma_edges_1_to_10();
    } else if j == 8 {
        lemma_edges_1_to_10();
    } else if j == 9 {
        lemma_edges_1_to_10();
    } else if j == 10 {
        lemma_edges_1_to_10();
    } else if j == 11 {
        lemma_edges_11_to_20();
    } else if j == 12 {
        lemma_edges_11_to_20();
    } else if j == 13 {
        lemma_edges_11_to_20();
    } else if j == 14 {
        lemma_edges_11_to_20();
    } else if j == 15 {
        lemma_edges_11_to_20();
    } else if j == 16 {
        lemma_edges_11_to_20();
    } else if j == 17 {
        lemma_edges_11_to_20();
    } else if j == 18 {
        lemma_edges_11_to_20();
    } else if j == 19 {
        lemma_edges_11_to_20();
    } else if j == 20 {
        lemma_edges_11_to_20();
    } else if j == 21 {
        lemma_edges_21_to_30();
    } else if j == 22 {
        lemma_edges_21_to_30();
    } else if j == 23 {
        lemma_edges_21_to_30();
    } else if j == 24 {
        lemma_edges_21_to_30();
    } else if j == 25 {
        lemma_edges_21_to_30();
    } else if j == 26 {
        lemma_edges_21_to_30();
    } else if j == 27 {
        lemma_edges_21_to_30();
    } else if j == 28 {
        lemma_edges_21_to_30();
    } else if j == 29 {
        lemma_edges_21_to_30();
    } else if j == 30 {
        lemma_edges_21_to_30();
    } else if j == 31 {
        lemma_edges_31_to_40();
    } else if j == 32 {
        lemma_edges_31_to_40();
    } else if j == 33 {
        lemma_edges_31_to_40();
    } else if j == 34 {
        lemma_edges_31_to_40();
    } else if j == 35 {
        lemma_edges_31_to_40();
    } else if j == 36 {
        lemma_edges_31_to_40();
    } else if j == 37 {
        lemma_edges_31_to_40();
    } else if j == 38 {
        lemma_edges_31_to_40();
    } else if j == 39 {
        lemma_edges_31_to_40();
    } else if j == 40 {
        lemma_edges_31_to_40();
    } else if j == 41 {
        lemma_edges_41_to_50();
    } else if j == 42 {
        lemma_edges_41_to_50();
    } else if j == 43 {
        lemma_edges_41_to_50();
    } else if j == 44 {
        lemma_edges_41_to_50();
    } else if j == 45 {
        lemma_edges_41_to_50();
    } else if j == 46 {
        lemma_edges_41_to_50();
    } else if j == 47 {
        lemma_edges_41_to_50();
    } else if j == 48 {
        lemma_edges_41_to_50();
    } else if j == 49 {
        lemma_edges_41_to_50();
    } else if j == 50 {
        lemma_edges_41_to_50();
    } else if j == 51 {
        lemma_edges_51_to_60();
    } else if j == 52 {
        lemma_edges_51_to_60();
    } else if j == 53 {
        lemma_edges_51_to_60();
    } else if j == 54 {
        lemma_edges_51_to_60();
    } else if j == 55 {
        lemma_edges_51_to_60();
    } else if j == 56 {
        lemma_edges_51_to_60();
    } else if j == 57 {
        lemma_edges_51_to_60();
    } else if j == 58 {
        lemma_edges_51_to_60();
    } else if j == 59 {
        lemma_edges_51_to_60();
    } else if j == 60 {
        lemma_edges_51_to_60();
    } else if j == 61 {
        lemma_edges_61_to_70();
    } else if j == 62 {
        lemma_edges_61_to_70();
    } else if j == 63 {
        lemma_edges_61_to_70();
    } else if j == 64 {
        lemma_edges_61_to_70();
    } else if j == 65 {
        lemma_edges_61_to_70();
    } else if j == 66 {
        lemma_edges_61_to_70();
    } else if j == 67 {
        lemma_edges_61_to_70();
    } else if j == 68 {
        lemma_edges_61_to_70();
    } else if j == 69 {
        lemma_edges_61_to_70();
    } else if j == 70 {
        lemma_edges_61_to_70();
    } else if j == 71 {
        lemma_edges_71_to_80();
    } else if j == 72 {
        lemma_edges_71_to_80();
    } else if j == 73 {
        lemma_edges_71_to_80();
    } else if j == 74 {
        lemma_edges_71_to_80();
    } else if j == 75 {
        lemma_edges_71_to_80();
    } else if j == 76 {
        lemma_edges_71_to_80();
    } else if j == 77 {
        lemma_edges_71_to_80();
    } else if j == 78 {
        lemma_edges_71_to_80();
    } else if j == 79 {
        lemma_edges_71_to_80();
    } else if j == 80 {
        lemma_edges_71_to_80();
    } else if j == 81 {
        lemma_edges_81_to_90();
    } else if j == 82 {
        lemma_edges_81_to_90();
    } else if j == 83 {
        lemma_edges_81_to_90();
    } else if j == 84 {
        lemma_edges_81_to_90();
    } else if j == 85 {
        lemma_edges_81_to_90();
    } else if j == 86 {
        lemma_edges_81_to_90();
    } else if j == 87 {
        lemma_edges_81_to_90();
    } else if j == 88 {
        lemma_edges_81_to_90();
    } else if j == 89 {
        lemma_edges_81_to_90();
    } else if j == 90 {
        lemma_edges_81_to_90();
    } else if j == 91 {
        lemma_edges_91_to_100();
    } else if j == 92 {
        lemma_edges_91_to_100();
    } else if j == 93 {
        lemma_edges_91_to_100();
    } else if j == 94 {
        lemma_edges_91_to_100();
    } else if j == 95 {
        lemma_edges_91_to_100();
    } else if j == 96 {
        lemma_edges_91_to_100();
    } else if j == 97 {
        lemma_edges_91_to_100();
    } else if j == 98 {
        lemma_edges_91_to_100();
    } else if j == 99 {
        lemma_edges_91_to_100();
    } else if j == 100 {
        lemma_edges_91_to_100();
    } else if j == 101 {
        lemma_edges_101_to_110();
    } else if j == 102 {
        lemma_edges_101_to_110();
    } else if j == 103 {
        lemma_edges_101_to_110();
    } else if j == 104 {
        lemma_edges_101_to_110();
    } else if j == 105 {
        lemma_edges_101_to_110();
    } else if j == 106 {
        lemma_edges_101_to_110();
    } else if j == 107 {
        lemma_edges_101_to_110();
    } else if j == 108 {
        lemma_edges_101_to_110();
    } else if j == 109 {
        lemma_edges_101_to_110();
    } else if j == 110 {
        lemma_edges_101_to_110();
    } else if j == 111 {
        lemma_edges_111_to_120();
    } else if j == 112 {
        lemma_edges_111_to_120();
    } else if j == 113 {
        lemma_edges_111_to_120();
    } else if j == 114 {
        lemma_edges_111_to_120();
    } else if j == 115 {
        lemma_edges_111_to_120();
    } else if j == 116 {
        lemma_edges_111_to_120();
    } else if j == 117 {
        lemma_edges_111_to_120();
    } else if j == 118 {
        lemma_edges_111_to_120();
    } else if j == 119 {
        lemma_edges_111_to_120();
    } else if j == 120 {
        lemma_edges_111_to_120();
    } else if j == 121 {
        lemma_edges_121_to_130();
    } else if j == 122 {
        lemma_edges_121_to_130();
    } else if j == 123 {
        lemma_edges_121_to_130();
    } else if j == 124 {
        lemma_edges_121_to_130();
    } else if j == 125 {
        lemma_edges_121_to_130();
    } else if j == 126 {
        lemma_edges_121_to_130();
    } else if j == 127 {
        lemma_edges_121_to_130();
    } else if j == 128 {
        lemma_edges_121_to_130();
    } else if j == 129 {
        lemma_edges_121_to_130();
    } else if j == 130 {
        lemma_edges_121_to_130();
    } else if j == 131 {
        lemma_edges_131_to_140();
    } else if j == 132 {
        lemma_edges_131_to_140();
    } else if j == 133 {
        lemma_edges_131_to_140();
    } else if j == 134 {
        lemma_edges_131_to_140();
    } else if j == 135 {
        lemma_edges_131_to_140();
    } else if j == 136 {
        lemma_edges_131_to_140();
    } else if j == 137 {
        lemma_edges_131_to_140();
    } else if j == 138 {
        lemma_edges_131_to_140();
    } else if j == 139 {
        lemma_edges_131_to_140();
    } else if j == 140 {
        lemma_edges_131_to_140();
    } else if j == 141 {
        lemma_edges_141_to_150();
    } else if j == 142 {
        lemma_edges_141_to_150();
    } else if j == 143 {
        lemma_edges_141_to_150();
    } else if j == 144 {
        lemma_edges_141_to_150();
    } else if j == 145 {
        lemma_edges_141_to_150();
    } else if j == 146 {
        lemma_edges_141_to_150();
    } else if j == 147 {
        lemma_edges_141_to_150();
    } else if j == 148 {
        lemma_edges_141_to_150();
    } else if j == 149 {
        lemma_edges_141_to_150();
    } else if j == 150 {
        lemma_edges_141_to_150();
    } else if j == 151 {
        lemma_edges_151_to_160();
    } else if j == 152 {
        lemma_edges_151_to_160();
    } else if j == 153 {
        lemma_edges_151_to_160();
    } else if j == 154 {
        lemma_edges_151_to_160();
    } else if j == 155 {
        lemma_edges_151_to_160();
    } else if j == 156 {
        lemma_edges_151_to_160();
    } else if j == 157 {
        lemma_edges_151_to_160();
    } else if j == 158 {
        lemma_edges_151_to_160();
    } else if j == 159 {
        lemma_edges_151_to_160();
    } else if j == 160 {
        lemma_edges_151_to_160();
    } else if j == 161 {
        lemma_edges_161_to_170();
    } else if j == 162 {
        lemma_edges_161_to_170();
    } else if j == 163 {
        lemma_edges_161_to_170();
    } else if j == 164 {
        lemma_edges_161_to_170();
    } else if j == 165 {
        lemma_edges_161_to_170();
    } else if j == 166 {
        lemma_edges_161_to_170();
    } else if j == 167 {
        lemma_edges_161_to_170();
    } else if j == 168 {
        lemma_edges_161_to_170();
    } else if j == 169 {
        lemma_edges_161_to_170();
    } else if j == 170 {
        lemma_edges_161_to_170();
    } else if j == 171 {
        lemma_edges_171_to_180();
    } else if j == 172 {
        lemma_edges_171_to_180();
    } else if j == 173 {
        lemma_edges_171_to_180();
    } else if j == 174 {
        lemma_edges_171_to_180();
    } else if j == 175 {
        lemma_edges_171_to_180();
    } else if j == 176 {
        lemma_edges_171_to_180();
    } else if j == 177 {
        lemma_edges_171_to_180();
    } else if j == 178 {
        lemma_edges_171_to_180();
    } else if j == 179 {
        lemma_edges_171_to_180();
    } else if j == 180 {
        lemma_edges_171_to_180();
    } else if j == 181 {
        lemma_edges_181_to_190();
    } else if j == 182 {
        lemma_edges_181_to_190();
    } else if j == 183 {
        lemma_edges_181_to_190();
    } else if j == 184 {
        lemma_edges_181_to_190();
    } else if j == 185 {
        lemma_edges_181_to_190();
    } else if j == 186 {
        lemma_edges_181_to_190();
    } else if j == 187 {
        lemma_edges_181_to_190();
    } else if j == 188 {
        lemma_edges_181_to_190();
    } else if j == 189 {
        lemma_edges_181_to_190();
    } else if j == 190 {
        lemma_edges_181_to_190();
    } else if j == 191 {
        lemma_edges_191_to_200();
    } else if j == 192 {
        lemma_edges_191_to_200();
    } else if j == 193 {
        lemma_edges_191_to_200();
    } else if j == 194 {
        lemma_edges_191_to_200();
    } else if j == 195 {
        lemma_edges_191_to_200();
    } else if j == 196 {
        lemma_edges_191_to_200();
    } else if j == 197 {
        lemma_edges_191_to_200();
    } else if j == 198 {
        lemma_edges_191_to_200();
    } else if j == 199 {
        lemma_edges_191_to_200();
    } else {
        lemma_edges_191_to_200();
    }
}

} // verus!
