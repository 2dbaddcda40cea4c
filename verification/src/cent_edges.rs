//! The edges between cents within one octave, each bracketed between two
//! whole numbers.
//!
//! Edge `c`, for `c` from 0 to 1199, is A4 raised by 45 octaves and `c`
//! cents. Its bounds are held at the scale `2^32` and follow from those of
//! the edge before it by one multiplication with a bound of the 1200th root
//! of two. This module evaluates them and shows that no whole number lies
//! inside a bracket; what the bounds have to do with powers of two is proved
//! where they are used.

use vstd::prelude::*;
use crate::power::lemma_quotient;

verus! {

/// The scale of the roots: `2^100`.
pub open spec fn root_scale() -> int {
    1267650600228229401496703205376
}

/// An upper bound of the 1200th root of two, at the root scale: the ratio of
/// one edge to the one before it.
pub open spec fn root_above() -> int {
    1268383035443019241370469983167
}

/// A lower bound of the 1200th root of two, at the root scale.
pub open spec fn root_below() -> int {
    1268383035443019241370469983166
}

/// The lowest edge of the octave that is tabulated, at the scale `2^32`:
/// A4 raised by 45 octaves, `440000 * 2^77`.
pub open spec fn octave_anchor() -> int {
    66490920078804604608839680000
}

/// The edges of the octave: edge `c`, for `c` from 0 to 1199, is the anchor
/// times two to the power `c / 1200`. This is an upper bound of edge `c`, at
/// the scale `2^32`.
pub open spec fn edge_above(c: nat) -> int
    decreases c,
{
    if c == 0 {
        octave_anchor()
    } else {
        edge_above((c - 1) as nat) * root_above() / root_scale() + 1
    }
}

/// A lower bound of edge `c`, at the scale `2^32`.
pub open spec fn edge_below(c: nat) -> int
    decreases c,
{
    if c == 0 {
        octave_anchor()
    } else {
        edge_below((c - 1) as nat) * root_below() / root_scale()
    }
}

/// Between the two bounds of edge `c` lies no multiple of `2^32`, and the
/// upper bound is below `2^97`.
#[verifier::opaque]
pub open spec fn bracket_is_tight(c: nat) -> bool {
    &&& 0 <= edge_above(c) < 158456325028528675187087900672
    &&& (edge_above(c) + 4294967295) / 4294967296 == (edge_below(c) + 4294967295) / 4294967296
}

/// The bounds of edge `c` from those of the edge before it, each product
/// checked against the quotient that it is said to have. `t` is the whole
/// number that both bounds of edge `c` lie just below, at the scale `2^32`.
proof fn lemma_next_edge(c: nat, u: int, next_u: int, l: int, next_l: int, t: int)
    requires
        c >= 1,
        edge_above((c - 1) as nat) == u,
        edge_below((c - 1) as nat) == l,
        (next_u - 1) * 1267650600228229401496703205376 <= u * 1268383035443019241370469983167,
        u * 1268383035443019241370469983167 < next_u * 1267650600228229401496703205376,
        next_l * 1267650600228229401496703205376 <= l * 1268383035443019241370469983166,
        l * 1268383035443019241370469983166 < (next_l + 1) * 1267650600228229401496703205376,
        (t - 1) * 4294967296 < next_l,
        0 <= next_l <= next_u <= t * 4294967296,
        t <= 30962247438172160000,
    ensures
        edge_above(c) == next_u,
        edge_below(c) == next_l,
        bracket_is_tight(c),
{
    reveal(bracket_is_tight);
    lemma_quotient(u * root_above(), root_scale(), next_u - 1);
    lemma_quotient(l * root_below(), root_scale(), next_l);
    lemma_quotient(next_u + 4294967295, 4294967296, t);
    lemma_quotient(next_l + 4294967295, 4294967296, t);
}

proof fn lemma_edges_1_to_10()
    ensures
        edge_above(10) == 66876098060368472086165143817,
        edge_below(10) == 66876098060368472086165143807,
        bracket_is_tight(1),
        bracket_is_tight(2),
        bracket_is_tight(3),
        bracket_is_tight(4),
        bracket_is_tight(5),
        bracket_is_tight(6),
        bracket_is_tight(7),
        bracket_is_tight(8),
        bracket_is_tight(9),
        bracket_is_tight(10),
{
    lemma_next_edge(
        1,
        66490920078804604608839680000,
        66529337834707315707565163684,
        66490920078804604608839680000,
        66529337834707315707565163683,
        15490068549920645475,
    );
    lemma_next_edge(
        2,
        66529337834707315707565163684,
        66567777787986252778769465209,
        66529337834707315707565163683,
        66567777787986252778769465207,
        15499018548984605069,
    );
    lemma_next_edge(
        3,
        66567777787986252778769465209,
        66606239951466826878869788045,
        66567777787986252778769465207,
        66606239951466826878869788042,
        15507973719264107496,
    );
    lemma_next_edge(
        4,
        66606239951466826878869788045,
        66644724337981859452208986193,
        66606239951466826878869788042,
        66644724337981859452208986189,
        15516934063747026831,
    );
    lemma_next_edge(
        5,
        66644724337981859452208986193,
        66683230960371586612699947130,
        66644724337981859452208986189,
        66683230960371586612699947125,
        15525899585422963513,
    );
    lemma_next_edge(
        6,
        66683230960371586612699947130,
        66721759831483663427943863943,
        66683230960371586612699947125,
        66721759831483663427943863937,
        15534870287283245341,
    );
    lemma_next_edge(
        7,
        66721759831483663427943863943,
        66760310964173168205823826051,
        66721759831483663427943863937,
        66760310964173168205823826044,
        15543846172320928473,
    );
    lemma_next_edge(
        8,
        66760310964173168205823826051,
        66798884371302606783575158718,
        66760310964173168205823826044,
        66798884371302606783575158710,
        15552827243530798421,
    );
    lemma_next_edge(
        9,
        66798884371302606783575158718,
        66837480065741916819333942404,
        66798884371302606783575158710,
        66837480065741916819333942395,
        15561813503909371053,
    );
    lemma_next_edge(
        10,
        66837480065741916819333942404,
        66876098060368472086165143817,
        66837480065741916819333942395,
        66876098060368472086165143807,
        15570804956454893595,
    );
}

proof fn lemma_edges_11_to_20()
    ensures
        edge_above(20) == 67263507355280173783082079905,
        edge_below(20) == 67263507355280173783082079884,
        bracket_is_tight(11),
        bracket_is_tight(12),
        bracket_is_tight(13),
        bracket_is_tight(14),
        bracket_is_tight(15),
        bracket_is_tight(16),
        bracket_is_tight(17),
        bracket_is_tight(18),
        bracket_is_tight(19),
        bracket_is_tight(20),
{
    lemma_edges_1_to_10();
    lemma_next_edge(
        11,
        66876098060368472086165143817,
        66914738368067086768571791358,
        66876098060368472086165143807,
        66914738368067086768571791347,
        15579801604167345625,
    );
    lemma_next_edge(
        12,
        66914738368067086768571791358,
        66953401001730019761486628485,
        66914738368067086768571791347,
        66953401001730019761486628473,
        15588803450048440081,
    );
    lemma_next_edge(
        13,
        66953401001730019761486628485,
        66992085974256978971747679341,
        66953401001730019761486628473,
        66992085974256978971747679328,
        15597810497101624257,
    );
    lemma_next_edge(
        14,
        66992085974256978971747679341,
        67030793298555125622059161828,
        66992085974256978971747679328,
        67030793298555125622059161814,
        15606822748332080809,
    );
    lemma_next_edge(
        15,
        67030793298555125622059161828,
        67069522987539078557439184133,
        67030793298555125622059161814,
        67069522987539078557439184118,
        15615840206746728755,
    );
    lemma_next_edge(
        16,
        67069522987539078557439184133,
        67108275054130918554155661543,
        67069522987539078557439184118,
        67108275054130918554155661527,
        15624862875354224480,
    );
    lemma_next_edge(
        17,
        67108275054130918554155661543,
        67147049511260192631151891215,
        67108275054130918554155661527,
        67147049511260192631151891198,
        15633890757164962737,
    );
    lemma_next_edge(
        18,
        67147049511260192631151891215,
        67185846371863918363963223408,
        67147049511260192631151891198,
        67185846371863918363963223389,
        15642923855191077657,
    );
    lemma_next_edge(
        19,
        67185846371863918363963223408,
        67224665648886588201126268491,
        67185846371863918363963223389,
        67224665648886588201126268471,
        15651962172446443747,
    );
    lemma_next_edge(
        20,
        67224665648886588201126268491,
        67263507355280173783082079905,
        67224665648886588201126268471,
        67263507355280173783082079884,
        15661005711946676901,
    );
}

proof fn lemma_edges_21_to_30()
    ensures
        edge_above(30) == 67653160889406437617968468288,
        edge_below(30) == 67653160889406437617968468257,
        bracket_is_tight(21),
        bracket_is_tight(22),
        bracket_is_tight(23),
        bracket_is_tight(24),
        bracket_is_tight(25),
        bracket_is_tight(26),
        bracket_is_tight(27),
        bracket_is_tight(28),
        bracket_is_tight(29),
        bracket_is_tight(30),
{
    lemma_edges_11_to_20();
    lemma_next_edge(
        21,
        67263507355280173783082079905,
        67302371504004130263574754058,
        67263507355280173783082079884,
        67302371504004130263574754036,
        15670054476709135404,
    );
    lemma_next_edge(
        22,
        67302371504004130263574754058,
        67341258108025400633546888989,
        67302371504004130263574754036,
        67341258108025400633546888966,
        15679108469752920940,
    );
    lemma_next_edge(
        23,
        67341258108025400633546888989,
        67380167180318420047533344450,
        67341258108025400633546888966,
        67380167180318420047533344426,
        15688167694098879595,
    );
    lemma_next_edge(
        24,
        67380167180318420047533344450,
        67419098733865120152554746911,
        67380167180318420047533344426,
        67419098733865120152554746886,
        15697232152769602871,
    );
    lemma_next_edge(
        25,
        67419098733865120152554746911,
        67458052781654933419512183801,
        67419098733865120152554746886,
        67458052781654933419512183775,
        15706301848789428692,
    );
    lemma_next_edge(
        26,
        67458052781654933419512183801,
        67497029336684797477084532155,
        67458052781654933419512183775,
        67497029336684797477084532128,
        15715376785184442410,
    );
    lemma_next_edge(
        27,
        67497029336684797477084532155,
        67536028411959159448129867659,
        67497029336684797477084532128,
        67536028411959159448129867631,
        15724456964982477820,
    );
    lemma_next_edge(
        28,
        67536028411959159448129867659,
        67575050020489980288592400927,
        67536028411959159448129867631,
        67575050020489980288592400898,
        15733542391213118166,
    );
    lemma_next_edge(
        29,
        67575050020489980288592400927,
        67614094175296739128916388673,
        67575050020489980288592400898,
        67614094175296739128916388643,
        15742633066907697155,
    );
    lemma_next_edge(
        30,
        67614094175296739128916388673,
        67653160889406437617968468288,
        67614094175296739128916388643,
        67653160889406437617968468257,
        15751728995099299965,
    );
}

proof fn lemma_edges_31_to_40()
    ensures
        edge_above(40) == 68045071663492775714960910537,
        edge_below(40) == 68045071663492775714960910495,
        bracket_is_tight(31),
        bracket_is_tight(32),
        bracket_is_tight(33),
        bracket_is_tight(34),
        bracket_is_tight(35),
        bracket_is_tight(36),
        bracket_is_tight(37),
        bracket_is_tight(38),
        bracket_is_tight(39),
        bracket_is_tight(40),
{
    lemma_edges_21_to_30();
    lemma_next_edge(
        31,
        67653160889406437617968468288,
        67692250175853604269469865154,
        67653160889406437617968468257,
        67692250175853604269469865122,
        15760830178822764259,
    );
    lemma_next_edge(
        32,
        67692250175853604269469865154,
        67731362047680298810939922885,
        67692250175853604269469865122,
        67731362047680298810939922852,
        15769936621114681199,
    );
    lemma_next_edge(
        33,
        67731362047680298810939922885,
        67770496517936116535152407498,
        67731362047680298810939922852,
        67770496517936116535152407464,
        15779048325013396455,
    );
    lemma_next_edge(
        34,
        67770496517936116535152407498,
        67809653599678192654106037380,
        67770496517936116535152407464,
        67809653599678192654106037345,
        15788165293559011225,
    );
    lemma_next_edge(
        35,
        67809653599678192654106037380,
        67848833305971206655510691735,
        67809653599678192654106037345,
        67848833305971206655510691698,
        15797287529793383241,
    );
    lemma_next_edge(
        36,
        67848833305971206655510691735,
        67888035649887386661790751049,
        67848833305971206655510691698,
        67888035649887386661790751011,
        15806415036760127792,
    );
    lemma_next_edge(
        37,
        67888035649887386661790751049,
        67927260644506513791607023948,
        67888035649887386661790751011,
        67927260644506513791607023909,
        15815547817504618735,
    );
    lemma_next_edge(
        38,
        67927260644506513791607023948,
        67966508302915926523898715651,
        67927260644506513791607023909,
        67966508302915926523898715611,
        15824685875073989510,
    );
    lemma_next_edge(
        39,
        67966508302915926523898715651,
        68005778638210525064446894083,
        67966508302915926523898715611,
        68005778638210525064446894042,
        15833829212517134162,
    );
    lemma_next_edge(
        40,
        68005778638210525064446894083,
        68045071663492775714960910537,
        68005778638210525064446894042,
        68045071663492775714960910495,
        15842977832884708354,
    );
}

proof fn lemma_edges_41_to_50()
    ensures
        edge_above(50) == 68439252753597252788091103729,
        edge_below(50) == 68439252753597252788091103676,
        bracket_is_tight(41),
        bracket_is_tight(42),
        bracket_is_tight(43),
        bracket_is_tight(44),
        bracket_is_tight(45),
        bracket_is_tight(46),
        bracket_is_tight(47),
        bracket_is_tight(48),
        bracket_is_tight(49),
        bracket_is_tight(50),
{
    lemma_edges_31_to_40();
    lemma_next_edge(
        41,
        68045071663492775714960910537,
        68084387391872715244689232626,
        68045071663492775714960910495,
        68084387391872715244689232583,
        15852131739229130383,
    );
    lemma_next_edge(
        42,
        68084387391872715244689232626,
        68123725836467955264556148096,
        68084387391872715244689232583,
        68123725836467955264556148052,
        15861290934604582206,
    );
    lemma_next_edge(
        43,
        68123725836467955264556148096,
        68163087010403686603825798929,
        68123725836467955264556148052,
        68163087010403686603825798884,
        15870455422067010451,
    );
    lemma_next_edge(
        44,
        68163087010403686603825798929,
        68202470926812683689295006003,
        68163087010403686603825798884,
        68202470926812683689295005956,
        15879625204674127440,
    );
    lemma_next_edge(
        45,
        68202470926812683689295006003,
        68241877598835308927016345403,
        68202470926812683689295005956,
        68241877598835308927016345355,
        15888800285485412210,
    );
    lemma_next_edge(
        46,
        68241877598835308927016345403,
        68281307039619517086552938358,
        68241877598835308927016345355,
        68281307039619517086552938309,
        15897980667562111534,
    );
    lemma_next_edge(
        47,
        68281307039619517086552938358,
        68320759262320859687766417580,
        68281307039619517086552938309,
        68320759262320859687766417530,
        15907166353967240939,
    );
    lemma_next_edge(
        48,
        68320759262320859687766417580,
        68360234280102489390139533665,
        68320759262320859687766417530,
        68360234280102489390139533614,
        15916357347765585732,
    );
    lemma_next_edge(
        49,
        68360234280102489390139533665,
        68399732106135164384634866029,
        68360234280102489390139533614,
        68399732106135164384634865977,
        15925553652023702019,
    );
    lemma_next_edge(
        50,
        68399732106135164384634866029,
        68439252753597252788091103729,
        68399732106135164384634865977,
        68439252753597252788091103676,
        15934755269809917731,
    );
}

proof fn lemma_edges_51_to_60()
    ensures
        edge_above(60) == 68835717311526767320108715022,
        edge_below(60) == 68835717311526767320108714959,
        bracket_is_tight(51),
        bracket_is_tight(52),
        bracket_is_tight(53),
        bracket_is_tight(54),
        bracket_is_tight(55),
        bracket_is_tight(56),
        bracket_is_tight(57),
        bracket_is_tight(58),
        bracket_is_tight(59),
        bracket_is_tight(60),
{
    lemma_edges_41_to_50();
    lemma_next_edge(
        51,
        68439252753597252788091103729,
        68478796235674737040158362339,
        68439252753597252788091103676,
        68478796235674737040158362285,
        15943962204194333647,
    );
    lemma_next_edge(
        52,
        68478796235674737040158362339,
        68518362565561218302774003913,
        68478796235674737040158362285,
        68518362565561218302774003858,
        15953174458248824418,
    );
    lemma_next_edge(
        53,
        68518362565561218302774003913,
        68557951756457920862180427911,
        68518362565561218302774003858,
        68557951756457920862180427855,
        15962392035047039591,
    );
    lemma_next_edge(
        54,
        68557951756457920862180427911,
        68597563821573696533486301813,
        68557951756457920862180427855,
        68597563821573696533486301756,
        15971614937664404636,
    );
    lemma_next_edge(
        55,
        68597563821573696533486301813,
        68637198774125029067772700996,
        68597563821573696533486301756,
        68637198774125029067772700938,
        15980843169178121972,
    );
    lemma_next_edge(
        56,
        68637198774125029067772700996,
        68676856627336038561745628285,
        68637198774125029067772700938,
        68676856627336038561745628226,
        15990076732667171993,
    );
    lemma_next_edge(
        57,
        68676856627336038561745628285,
        68716537394438485869936384465,
        68676856627336038561745628226,
        68716537394438485869936384405,
        15999315631212314095,
    );
    lemma_next_edge(
        58,
        68716537394438485869936384465,
        68756241088671777019451261866,
        68716537394438485869936384405,
        68756241088671777019451261805,
        16008559867896087706,
    );
    lemma_next_edge(
        59,
        68756241088671777019451261866,
        68795967723282967627272033992,
        68756241088671777019451261805,
        68795967723282967627272033930,
        16017809445802813310,
    );
    lemma_next_edge(
        60,
        68795967723282967627272033992,
        68835717311526767320108715022,
        68795967723282967627272033930,
        68835717311526767320108714959,
        16027064368018593481,
    );
}

proof fn lemma_edges_61_to_70()
    ensures
        edge_above(70) == 69234478565275860092462190757,
        edge_below(70) == 69234478565275860092462190684,
        bracket_is_tight(61),
        bracket_is_tight(62),
        bracket_is_tight(63),
        bracket_is_tight(64),
        bracket_is_tight(65),
        bracket_is_tight(66),
        bracket_is_tight(67),
        bracket_is_tight(68),
        bracket_is_tight(69),
        bracket_is_tight(70),
{
    lemma_edges_51_to_60();
    lemma_next_edge(
        61,
        68835717311526767320108715022,
        68875489866665544156806063859,
        68835717311526767320108714959,
        68875489866665544156806063795,
        16036324637631313912,
    );
    lemma_next_edge(
        62,
        68875489866665544156806063859,
        68915285401969329053305308245,
        68875489866665544156806063795,
        68915285401969329053305308180,
        16045590257730644442,
    );
    lemma_next_edge(
        63,
        68915285401969329053305308245,
        68955103930715820210162565333,
        68915285401969329053305308180,
        68955103930715820210162565267,
        16054861231408040089,
    );
    lemma_next_edge(
        64,
        68955103930715820210162565333,
        68994945466190387542625435937,
        68955103930715820210162565267,
        68994945466190387542625435870,
        16064137561756742081,
    );
    lemma_next_edge(
        65,
        68994945466190387542625435937,
        69034810021686077113269250556,
        68994945466190387542625435870,
        69034810021686077113269250488,
        16073419251871778889,
    );
    lemma_next_edge(
        66,
        69034810021686077113269250556,
        69074697610503615567194446104,
        69034810021686077113269250488,
        69074697610503615567194446035,
        16082706304849967260,
    );
    lemma_next_edge(
        67,
        69074697610503615567194446104,
        69114608245951414569786553145,
        69074697610503615567194446035,
        69114608245951414569786553075,
        16091998723789913247,
    );
    lemma_next_edge(
        68,
        69114608245951414569786553145,
        69154541941345575247040274283,
        69114608245951414569786553075,
        69154541941345575247040274212,
        16101296511792013247,
    );
    lemma_next_edge(
        69,
        69154541941345575247040274283,
        69194498710009892628449135207,
        69154541941345575247040274212,
        69194498710009892628449135135,
        16110599671958455031,
    );
    lemma_next_edge(
        70,
        69194498710009892628449135207,
        69234478565275860092462190757,
        69194498710009892628449135135,
        69234478565275860092462190684,
        16119908207393218785,
    );
}

proof fn lemma_edges_71_to_80()
    ensures
        edge_above(80) == 69635549819468064707233815786,
        edge_below(80) == 69635549819468064707233815701,
        bracket_is_tight(71),
        bracket_is_tight(72),
        bracket_is_tight(73),
        bracket_is_tight(74),
        bracket_is_tight(75),
        bracket_is_tight(76),
        bracket_is_tight(77),
        bracket_is_tight(78),
        bracket_is_tight(79),
        bracket_is_tight(80),
{
    lemma_edges_61_to_70();
    lemma_next_edge(
        71,
        69234478565275860092462190757,
        69274481520482673814509269227,
        69234478565275860092462190684,
        69274481520482673814509269152,
        16129222121202078140,
    );
    lemma_next_edge(
        72,
        69274481520482673814509269227,
        69314507588977237217596238977,
        69274481520482673814509269152,
        69314507588977237217596238901,
        16138541416492601209,
    );
    lemma_next_edge(
        73,
        69314507588977237217596238977,
        69354556784114165425471782291,
        69314507588977237217596238901,
        69354556784114165425471782214,
        16147866096374151629,
    );
    lemma_next_edge(
        74,
        69354556784114165425471782291,
        69394629119255789718367162265,
        69354556784114165425471782214,
        69394629119255789718367162187,
        16157196163957889592,
    );
    lemma_next_edge(
        75,
        69394629119255789718367162265,
        69434724607772161991310469378,
        69394629119255789718367162187,
        69434724607772161991310469299,
        16166531622356772887,
    );
    lemma_next_edge(
        76,
        69434724607772161991310469378,
        69474843263041059215016835251,
        69434724607772161991310469299,
        69474843263041059215016835171,
        16175872474685557936,
    );
    lemma_next_edge(
        77,
        69474843263041059215016835251,
        69514985098447987899356101960,
        69474843263041059215016835171,
        69514985098447987899356101879,
        16185218724060800835,
    );
    lemma_next_edge(
        78,
        69514985098447987899356101960,
        69555150127386188559399436136,
        69514985098447987899356101879,
        69555150127386188559399436054,
        16194570373600858394,
    );
    lemma_next_edge(
        79,
        69555150127386188559399436136,
        69595338363256640184046377928,
        69555150127386188559399436054,
        69595338363256640184046377844,
        16203927426425889178,
    );
    lemma_next_edge(
        80,
        69595338363256640184046377928,
        69635549819468064707233815786,
        69595338363256640184046377844,
        69635549819468064707233815701,
        16213289885657854543,
    );
}

proof fn lemma_edges_81_to_90()
    ensures
        edge_above(90) == 70038944455799814826638608954,
        edge_below(90) == 70038944455799814826638608858,
        bracket_is_tight(81),
        bracket_is_tight(82),
        bracket_is_tight(83),
        bracket_is_tight(84),
        bracket_is_tight(85),
        bracket_is_tight(86),
        bracket_is_tight(87),
        bracket_is_tight(88),
        bracket_is_tight(89),
        bracket_is_tight(90),
{
    lemma_edges_71_to_80();
    lemma_next_edge(
        81,
        69635549819468064707233815786,
        69675784509436931481728378876,
        69635549819468064707233815701,
        69675784509436931481728378790,
        16222657754420519686,
    );
    lemma_next_edge(
        82,
        69675784509436931481728378876,
        69716042446587461755503739786,
        69675784509436931481728378790,
        69716042446587461755503739699,
        16232031035839454680,
    );
    lemma_next_edge(
        83,
        69716042446587461755503739786,
        69756323644351633150704321069,
        69716042446587461755503739699,
        69756323644351633150704320981,
        16241409733042035520,
    );
    lemma_next_edge(
        84,
        69756323644351633150704321069,
        69796628116169184145196900018,
        69756323644351633150704320981,
        69796628116169184145196899929,
        16250793849157445167,
    );
    lemma_next_edge(
        85,
        69796628116169184145196900018,
        69836955875487618556711606925,
        69796628116169184145196899929,
        69836955875487618556711606835,
        16260183387316674590,
    );
    lemma_next_edge(
        86,
        69836955875487618556711606925,
        69877306935762210029573812962,
        69836955875487618556711606835,
        69877306935762210029573812871,
        16269578350652523812,
    );
    lemma_next_edge(
        87,
        69877306935762210029573812962,
        69917681310456006524028404660,
        69877306935762210029573812871,
        69917681310456006524028404568,
        16278978742299602955,
    );
    lemma_next_edge(
        88,
        69917681310456006524028404660,
        69958079013039834808157942849,
        69917681310456006524028404568,
        69958079013039834808157942755,
        16288384565394333287,
    );
    lemma_next_edge(
        89,
        69958079013039834808157942849,
        69998500056992304952396204770,
        69958079013039834808157942755,
        69998500056992304952396204675,
        16297795823074948265,
    );
    lemma_next_edge(
        90,
        69998500056992304952396204770,
        70038944455799814826638608954,
        69998500056992304952396204675,
        70038944455799814826638608858,
        16307212518481494586,
    );
}

proof fn lemma_edges_91_to_100()
    ensures
        edge_above(100) == 70444675933486922941001229180,
        edge_below(100) == 70444675933486922941001229069,
        bracket_is_tight(91),
        bracket_is_tight(92),
        bracket_is_tight(93),
        bracket_is_tight(94),
        bracket_is_tight(95),
        bracket_is_tight(96),
        bracket_is_tight(97),
        bracket_is_tight(98),
        bracket_is_tight(99),
        bracket_is_tight(100),
{
    lemma_edges_81_to_90();
    lemma_next_edge(
        91,
        70038944455799814826638608954,
        70079412222956554599951023312,
        70038944455799814826638608858,
        70079412222956554599951023215,
        16316634654755833233,
    );
    lemma_next_edge(
        92,
        70079412222956554599951023312,
        70119903371964511242878457757,
        70079412222956554599951023215,
        70119903371964511242878457658,
        16326062235041640523,
    );
    lemma_next_edge(
        93,
        70119903371964511242878457757,
        70160417916333473032355143541,
        70119903371964511242878457658,
        70160417916333473032355143440,
        16335495262484409156,
    );
    lemma_next_edge(
        94,
        70160417916333473032355143541,
        70200955869581034059217502369,
        70160417916333473032355143440,
        70200955869581034059217502266,
        16344933740231449264,
    );
    lemma_next_edge(
        95,
        70200955869581034059217502369,
        70241517245232598738321509204,
        70200955869581034059217502266,
        70241517245232598738321509099,
        16354377671431889464,
    );
    lemma_next_edge(
        96,
        70241517245232598738321509204,
        70282102056821386321265953558,
        70241517245232598738321509099,
        70282102056821386321265953452,
        16363827059236677904,
    );
    lemma_next_edge(
        97,
        70282102056821386321265953558,
        70322710317888435411723104930,
        70282102056821386321265953452,
        70322710317888435411723104823,
        16373281906798583319,
    );
    lemma_next_edge(
        98,
        70322710317888435411723104930,
        70363342041982608483378288921,
        70322710317888435411723104823,
        70363342041982608483378288813,
        16382742217272196078,
    );
    lemma_next_edge(
        99,
        70363342041982608483378288921,
        70403997242660596400479881427,
        70363342041982608483378288813,
        70403997242660596400479881317,
        16392207993813929242,
    );
    lemma_next_edge(
        100,
        70403997242660596400479881427,
        70444675933486922941001229180,
        70403997242660596400479881317,
        70444675933486922941001229069,
        16401679239582019612,
    );
}

proof fn lemma_edges_101_to_110()
    ensures
        edge_above(110) == 70852757789713645561923819554,
        edge_below(110) == 70852757789713645561923819431,
        bracket_is_tight(101),
        bracket_is_tight(102),
        bracket_is_tight(103),
        bracket_is_tight(104),
        bracket_is_tight(105),
        bracket_is_tight(106),
        bracket_is_tight(107),
        bracket_is_tight(108),
        bracket_is_tight(109),
        bracket_is_tight(110),
{
    lemma_edges_91_to_100();
    lemma_next_edge(
        101,
        70444675933486922941001229180,
        70485378128033949322416005790,
        70444675933486922941001229069,
        70485378128033949322416005678,
        16411155957736528787,
    );
    lemma_next_edge(
        102,
        70485378128033949322416005790,
        70526103839881878730088513289,
        70485378128033949322416005678,
        70526103839881878730088513176,
        16420638151439344215,
    );
    lemma_next_edge(
        103,
        70526103839881878730088513289,
        70566853082618760848280440078,
        70526103839881878730088513176,
        70566853082618760848280439963,
        16430125823854180251,
    );
    lemma_next_edge(
        104,
        70566853082618760848280440078,
        70607625869840496393775587030,
        70566853082618760848280439963,
        70607625869840496393775586914,
        16439618978146579209,
    );
    lemma_next_edge(
        105,
        70607625869840496393775587030,
        70648422215150841652124074389,
        70607625869840496393775586914,
        70648422215150841652124074272,
        16449117617483912421,
    );
    lemma_next_edge(
        106,
        70648422215150841652124074389,
        70689242132161413016507542968,
        70648422215150841652124074272,
        70689242132161413016507542850,
        16458621745035381294,
    );
    lemma_next_edge(
        107,
        70689242132161413016507542968,
        70730085634491691529226864034,
        70689242132161413016507542850,
        70730085634491691529226863915,
        16468131363972018364,
    );
    lemma_next_edge(
        108,
        70730085634491691529226864034,
        70770952735769027425813873136,
        70730085634491691529226863915,
        70770952735769027425813873016,
        16477646477466688358,
    );
    lemma_next_edge(
        109,
        70770952735769027425813873136,
        70811843449628644681768644007,
        70770952735769027425813873016,
        70811843449628644681768643885,
        16487167088694089252,
    );
    lemma_next_edge(
        110,
        70811843449628644681768644007,
        70852757789713645561923819554,
        70811843449628644681768643885,
        70852757789713645561923819431,
        16496693200830753326,
    );
}

proof fn lemma_edges_111_to_120()
    ensures
        edge_above(120) == 71263203640084349823653496981,
        edge_below(120) == 71263203640084349823653496848,
        bracket_is_tight(111),
        bracket_is_tight(112),
        bracket_is_tight(113),
        bracket_is_tight(114),
        bracket_is_tight(115),
        bracket_is_tight(116),
        bracket_is_tight(117),
        bracket_is_tight(118),
        bracket_is_tight(119),
        bracket_is_tight(120),
{
    lemma_edges_101_to_110();
    lemma_next_edge(
        111,
        70852757789713645561923819554,
        70893695769675015172437517821,
        70852757789713645561923819431,
        70893695769675015172437517697,
        16506224817055048229,
    );
    lemma_next_edge(
        112,
        70893695769675015172437517821,
        70934657403171626015416331684,
        70893695769675015172437517697,
        70934657403171626015416331559,
        16515761940547178038,
    );
    lemma_next_edge(
        113,
        70934657403171626015416331684,
        70975642703870242546169941924,
        70934657403171626015416331559,
        70975642703870242546169941798,
        16525304574489184317,
    );
    lemma_next_edge(
        114,
        70975642703870242546169941924,
        71016651685445525733098864193,
        70975642703870242546169941798,
        71016651685445525733098864066,
        16534852722064947182,
    );
    lemma_next_edge(
        115,
        71016651685445525733098864193,
        71057684361580037620216851271,
        71016651685445525733098864066,
        71057684361580037620216851143,
        16544406386460186360,
    );
    lemma_next_edge(
        116,
        71057684361580037620216851271,
        71098740745964245892309472891,
        71057684361580037620216851143,
        71098740745964245892309472762,
        16553965570862462254,
    );
    lemma_next_edge(
        117,
        71098740745964245892309472891,
        71139820852296528442730396288,
        71098740745964245892309472762,
        71139820852296528442730396158,
        16563530278461177006,
    );
    lemma_next_edge(
        118,
        71139820852296528442730396288,
        71180924694283177943836891505,
        71139820852296528442730396158,
        71180924694283177943836891374,
        16573100512447575560,
    );
    lemma_next_edge(
        119,
        71180924694283177943836891505,
        71222052285638406420066086376,
        71180924694283177943836891374,
        71222052285638406420066086244,
        16582676276014746731,
    );
    lemma_next_edge(
        120,
        71222052285638406420066086376,
        71263203640084349823653496981,
        71222052285638406420066086244,
        71263203640084349823653496848,
        16592257572357624263,
    );
}

proof fn lemma_edges_121_to_130()
    ensures
        edge_above(130) == 71676027179077796562453881342,
        edge_below(130) == 71676027179077796562453881197,
        bracket_is_tight(121),
        bracket_is_tight(122),
        bracket_is_tight(123),
        bracket_is_tight(124),
        bracket_is_tight(125),
        bracket_is_tight(126),
        bracket_is_tight(127),
        bracket_is_tight(128),
        bracket_is_tight(129),
        bracket_is_tight(130),
{
    lemma_edges_111_to_120();
    lemma_next_edge(
        121,
        71263203640084349823653496981,
        71304378771351072612995360253,
        71263203640084349823653496848,
        71304378771351072612995360118,
        16601844404672987902,
    );
    lemma_next_edge(
        122,
        71304378771351072612995360253,
        71345577693176572333656296298,
        71304378771351072612995360118,
        71345577693176572333656296161,
        16611436776159464460,
    );
    lemma_next_edge(
        123,
        71345577693176572333656296298,
        71386800419306784202023828872,
        71345577693176572333656296161,
        71386800419306784202023828734,
        16621034690017528879,
    );
    lemma_next_edge(
        124,
        71386800419306784202023828872,
        71428046963495585691611293342,
        71386800419306784202023828734,
        71428046963495585691611293203,
        16630638149449505306,
    );
    lemma_next_edge(
        125,
        71428046963495585691611293342,
        71469317339504801122010662339,
        71428046963495585691611293203,
        71469317339504801122010662199,
        16640247157659568154,
    );
    lemma_next_edge(
        126,
        71469317339504801122010662339,
        71510611561104206250496820204,
        71469317339504801122010662199,
        71510611561104206250496820063,
        16649861717853743176,
    );
    lemma_next_edge(
        127,
        71510611561104206250496820204,
        71551929642071532866284818195,
        71510611561104206250496820063,
        71551929642071532866284818053,
        16659481833239908532,
    );
    lemma_next_edge(
        128,
        71551929642071532866284818195,
        71593271596192473387441643335,
        71551929642071532866284818053,
        71593271596192473387441643192,
        16669107507027795862,
    );
    lemma_next_edge(
        129,
        71593271596192473387441643335,
        71634637437260685460454034635,
        71593271596192473387441643192,
        71634637437260685460454034491,
        16678738742428991353,
    );
    lemma_next_edge(
        130,
        71634637437260685460454034635,
        71676027179077796562453881342,
        71634637437260685460454034491,
        71676027179077796562453881197,
        16688375542656936814,
    );
}

proof fn lemma_edges_131_to_140()
    ensures
        edge_above(140) == 72091242180504055031083546891,
        edge_below(140) == 72091242180504055031083546735,
        bracket_is_tight(131),
        bracket_is_tight(132),
        bracket_is_tight(133),
        bracket_is_tight(134),
        bracket_is_tight(135),
        bracket_is_tight(136),
        bracket_is_tight(137),
        bracket_is_tight(138),
        bracket_is_tight(139),
        bracket_is_tight(140),
{
    lemma_edges_121_to_130();
    lemma_next_edge(
        131,
        71676027179077796562453881342,
        71717440835453408606102738725,
        71676027179077796562453881197,
        71717440835453408606102738579,
        16698017910926930748,
    );
    lemma_next_edge(
        132,
        71717440835453408606102738725,
        71758878420205102547136997813,
        71717440835453408606102738579,
        71758878420205102547136997666,
        16707665850456129422,
    );
    lemma_next_edge(
        133,
        71758878420205102547136997813,
        71800339947158442994575246387,
        71758878420205102547136997666,
        71800339947158442994575246238,
        16717319364463547942,
    );
    lemma_next_edge(
        134,
        71800339947158442994575246387,
        71841825430146982823589359402,
        71800339947158442994575246238,
        71841825430146982823589359252,
        16726978456170061330,
    );
    lemma_next_edge(
        135,
        71841825430146982823589359402,
        71883334883012267791040857927,
        71841825430146982823589359252,
        71883334883012267791040857776,
        16736643128798405592,
    );
    lemma_next_edge(
        136,
        71883334883012267791040857927,
        71924868319603841153684076556,
        71883334883012267791040857776,
        71924868319603841153684076404,
        16746313385573178799,
    );
    lemma_next_edge(
        137,
        71924868319603841153684076556,
        71966425753779248289037680149,
        71924868319603841153684076404,
        71966425753779248289037679996,
        16755989229720842161,
    );
    lemma_next_edge(
        138,
        71966425753779248289037680149,
        72008007199404041318926071646,
        71966425753779248289037679996,
        72008007199404041318926071492,
        16765670664469721103,
    );
    lemma_next_edge(
        139,
        72008007199404041318926071646,
        72049612670351783735692233591,
        72008007199404041318926071492,
        72049612670351783735692233436,
        16775357693050006343,
    );
    lemma_next_edge(
        140,
        72049612670351783735692233591,
        72091242180504055031083546891,
        72049612670351783735692233436,
        72091242180504055031083546735,
        16785050318693754969,
    );
}

proof fn lemma_edges_141_to_150()
    ensures
        edge_above(150) == 72508862497964064493288482419,
        edge_below(150) == 72508862497964064493288482253,
        bracket_is_tight(141),
        bracket_is_tight(142),
        bracket_is_tight(143),
        bracket_is_tight(144),
        bracket_is_tight(145),
        bracket_is_tight(146),
        bracket_is_tight(147),
        bracket_is_tight(148),
        bracket_is_tight(149),
        bracket_is_tight(150),
{
    lemma_edges_131_to_140();
    lemma_next_edge(
        141,
        72091242180504055031083546891,
        72132895743750455327812131227,
        72091242180504055031083546735,
        72132895743750455327812131070,
        16794748544634891518,
    );
    lemma_next_edge(
        142,
        72132895743750455327812131227,
        72174573373988610013791252428,
        72132895743750455327812131070,
        72174573373988610013791252270,
        16804452374109209053,
    );
    lemma_next_edge(
        143,
        72174573373988610013791252428,
        72216275085124174379049343014,
        72174573373988610013791252270,
        72216275085124174379049342855,
        16814161810354370247,
    );
    lemma_next_edge(
        144,
        72216275085124174379049343014,
        72258000891070838255323183002,
        72216275085124174379049342855,
        72258000891070838255323182842,
        16823876856609908458,
    );
    lemma_next_edge(
        145,
        72258000891070838255323183002,
        72299750805750330658331788967,
        72258000891070838255323182842,
        72299750805750330658331788806,
        16833597516117228815,
    );
    lemma_next_edge(
        146,
        72299750805750330658331788967,
        72341524843092424432732560240,
        72299750805750330658331788806,
        72341524843092424432732560078,
        16843323792119609293,
    );
    lemma_next_edge(
        147,
        72341524843092424432732560240,
        72383323017034940899761232031,
        72341524843092424432732560078,
        72383323017034940899761231868,
        16853055687862201804,
    );
    lemma_next_edge(
        148,
        72383323017034940899761232031,
        72425145341523754507557186142,
        72383323017034940899761231868,
        72425145341523754507557185978,
        16862793206592033270,
    );
    lemma_next_edge(
        149,
        72425145341523754507557186142,
        72466991830512797484175670849,
        72425145341523754507557185978,
        72466991830512797484175670684,
        16872536351558006715,
    );
    lemma_next_edge(
        150,
        72466991830512797484175670849,
        72508862497964064493288482419,
        72466991830512797484175670684,
        72508862497964064493288482253,
        16882285126010902341,
    );
}

proof fn lemma_edges_151_to_160()
    ensures
        edge_above(160) == 72928902065311858031528494978,
        edge_below(160) == 72928902065311858031528494797,
        bracket_is_tight(151),
        bracket_is_tight(152),
        bracket_is_tight(153),
        bracket_is_tight(154),
        bracket_is_tight(155),
        bracket_is_tight(156),
        bracket_is_tight(157),
        bracket_is_tight(158),
        bracket_is_tight(159),
        bracket_is_tight(160),
{
    lemma_edges_141_to_150();
    lemma_next_edge(
        151,
        72508862497964064493288482419,
        72550757357847617292574661624,
        72508862497964064493288482253,
        72550757357847617292574661456,
        16892039533203378621,
    );
    lemma_next_edge(
        152,
        72550757357847617292574661624,
        72592676424141589394802759519,
        72550757357847617292574661456,
        72592676424141589394802759350,
        16901799576389973377,
    );
    lemma_next_edge(
        153,
        72592676424141589394802759519,
        72634619710832190731606227643,
        72592676424141589394802759350,
        72634619710832190731606227473,
        16911565258827104870,
    );
    lemma_next_edge(
        154,
        72634619710832190731606227643,
        72676587231913712319953488699,
        72634619710832190731606227473,
        72676587231913712319953488527,
        16921336583773072884,
    );
    lemma_next_edge(
        155,
        72676587231913712319953488699,
        72718579001388530931314244675,
        72676587231913712319953488527,
        72718579001388530931314244501,
        16931113554488059816,
    );
    lemma_next_edge(
        156,
        72718579001388530931314244675,
        72760595033267113763523580262,
        72718579001388530931314244501,
        72760595033267113763523580086,
        16940896174234131762,
    );
    lemma_next_edge(
        157,
        72760595033267113763523580262,
        72802635341568023115345420326,
        72760595033267113763523580086,
        72802635341568023115345420149,
        16950684446275239605,
    );
    lemma_next_edge(
        158,
        72802635341568023115345420326,
        72844699940317921063736901097,
        72802635341568023115345420149,
        72844699940317921063736900919,
        16960478373877220104,
    );
    lemma_next_edge(
        159,
        72844699940317921063736901097,
        72886788843551574143815215626,
        72844699940317921063736900919,
        72886788843551574143815215446,
        16970277960307796985,
    );
    lemma_next_edge(
        160,
        72886788843551574143815215626,
        72928902065311858031528494978,
        72886788843551574143815215446,
        72928902065311858031528494797,
        16980083208836582031,
    );
}

proof fn lemma_edges_161_to_170()
    ensures
        edge_above(170) == 73351374897119463989981931476,
        edge_below(170) == 73351374897119463989981931285,
        bracket_is_tight(161),
        bracket_is_tight(162),
        bracket_is_tight(163),
        bracket_is_tight(164),
        bracket_is_tight(165),
        bracket_is_tight(166),
        bracket_is_tight(167),
        bracket_is_tight(168),
        bracket_is_tight(169),
        bracket_is_tight(170),
{
    lemma_edges_151_to_160();
    lemma_next_edge(
        161,
        72928902065311858031528494978,
        72971039619649762229032287526,
        72928902065311858031528494797,
        72971039619649762229032287344,
        16989894122735076172,
    );
    lemma_next_edge(
        162,
        72971039619649762229032287526,
        73013201520624394752773199605,
        72971039619649762229032287344,
        73013201520624394752773199422,
        16999710705276670576,
    );
    lemma_next_edge(
        163,
        73013201520624394752773199605,
        73055387782302986824281261702,
        73013201520624394752773199422,
        73055387782302986824281261518,
        17009532959736647742,
    );
    lemma_next_edge(
        164,
        73055387782302986824281261702,
        73097598418760897563672585250,
        73055387782302986824281261518,
        73097598418760897563672585065,
        17019360889392182596,
    );
    lemma_next_edge(
        165,
        73097598418760897563672585250,
        73139833444081618685863876009,
        73097598418760897563672585065,
        73139833444081618685863875823,
        17029194497522343576,
    );
    lemma_next_edge(
        166,
        73139833444081618685863876009,
        73182092872356779199500370911,
        73139833444081618685863875823,
        73182092872356779199500370724,
        17039033787408093736,
    );
    lemma_next_edge(
        167,
        73182092872356779199500370911,
        73224376717686150108598766162,
        73182092872356779199500370724,
        73224376717686150108598765974,
        17048878762332291834,
    );
    lemma_next_edge(
        168,
        73224376717686150108598766162,
        73266684994177649116906705286,
        73224376717686150108598765974,
        73266684994177649116906705097,
        17058729425579693429,
    );
    lemma_next_edge(
        169,
        73266684994177649116906705286,
        73309017715947345334980396723,
        73266684994177649116906705097,
        73309017715947345334980396533,
        17068585780436951978,
    );
    lemma_next_edge(
        170,
        73309017715947345334980396723,
        73351374897119463989981931476,
        73309017715947345334980396533,
        73351374897119463989981931285,
        17078447830192619933,
    );
}

proof fn lemma_edges_171_to_180()
    ensures
        edge_above(180) == 73776295089144500564212086672,
        edge_below(180) == 73776295089144500564212086469,
        bracket_is_tight(171),
        bracket_is_tight(172),
        bracket_is_tight(173),
        bracket_is_tight(174),
        bracket_is_tight(175),
        bracket_is_tight(176),
        bracket_is_tight(177),
        bracket_is_tight(178),
        bracket_is_tight(179),
        bracket_is_tight(180),
{
    lemma_edges_161_to_170();
    lemma_next_edge(
        171,
        73351374897119463989981931476,
        73393756551826391138197872228,
        73351374897119463989981931285,
        73393756551826391138197872036,
        17088315578137149834,
    );
    lemma_next_edge(
        172,
        73393756551826391138197872228,
        73436162694208678380280686249,
        73393756551826391138197872036,
        73436162694208678380280686055,
        17098189027562895413,
    );
    lemma_next_edge(
        173,
        73436162694208678380280686249,
        73478593338415047579214595323,
        73436162694208678380280686055,
        73478593338415047579214595128,
        17108068181764112688,
    );
    lemma_next_edge(
        174,
        73478593338415047579214595323,
        73521048498602395581007416838,
        73478593338415047579214595128,
        73521048498602395581007416642,
        17117953044036961064,
    );
    lemma_next_edge(
        175,
        73521048498602395581007416838,
        73563528188935798938109971082,
        73521048498602395581007416642,
        73563528188935798938109970885,
        17127843617679504431,
    );
    lemma_next_edge(
        176,
        73563528188935798938109971082,
        73606032423588518635564630711,
        73563528188935798938109970885,
        73606032423588518635564630513,
        17137739905991712268,
    );
    lemma_next_edge(
        177,
        73606032423588518635564630711,
        73648561216742004819884589252,
        73606032423588518635564630513,
        73648561216742004819884589053,
        17147641912275460740,
    );
    lemma_next_edge(
        178,
        73648561216742004819884589252,
        73691114582585901530665426427,
        73648561216742004819884589053,
        73691114582585901530665426227,
        17157549639834533802,
    );
    lemma_next_edge(
        179,
        73691114582585901530665426427,
        73733692535318051434930548989,
        73691114582585901530665426227,
        73733692535318051434930548788,
        17167463091974624302,
    );
    lemma_next_edge(
        180,
        73733692535318051434930548989,
        73776295089144500564212086672,
        73733692535318051434930548788,
        73776295089144500564212086469,
        17177382272003335079,
    );
}

proof fn lemma_edges_181_to_190()
    ensures
        edge_above(190) == 74203676818800479138735195742,
        edge_below(190) == 74203676818800479138735195527,
        bracket_is_tight(181),
        bracket_is_tight(182),
        bracket_is_tight(183),
        bracket_is_tight(184),
        bracket_is_tight(185),
        bracket_is_tight(186),
        bracket_is_tight(187),
        bracket_is_tight(188),
        bracket_is_tight(189),
        bracket_is_tight(190),
{
    lemma_edges_171_to_180();
    lemma_next_edge(
        181,
        73776295089144500564212086672,
        73818922258279503054368823776,
        73776295089144500564212086469,
        73818922258279503054368823572,
        17187307183230180074,
    );
    lemma_next_edge(
        182,
        73818922258279503054368823776,
        73861574056945525888142747816,
        73818922258279503054368823572,
        73861574056945525888142747611,
        17197237828966585428,
    );
    lemma_next_edge(
        183,
        73861574056945525888142747816,
        73904250499373253640455797580,
        73861574056945525888142747611,
        73904250499373253640455797374,
        17207174212525890591,
    );
    lemma_next_edge(
        184,
        73904250499373253640455797580,
        73946951599801593226448393849,
        73904250499373253640455797374,
        73946951599801593226448393642,
        17217116337223349425,
    );
    lemma_next_edge(
        185,
        73946951599801593226448393849,
        73989677372477678652261336963,
        73946951599801593226448393642,
        73989677372477678652261336755,
        17227064206376131311,
    );
    lemma_next_edge(
        186,
        73989677372477678652261336963,
        74032427831656875768562656309,
        73989677372477678652261336755,
        74032427831656875768562656100,
        17237017823303322254,
    );
    lemma_next_edge(
        187,
        74032427831656875768562656309,
        74075202991602787026820997748,
        74032427831656875768562656100,
        74075202991602787026820997538,
        17246977191325925996,
    );
    lemma_next_edge(
        188,
        74075202991602787026820997748,
        74118002866587256238327135891,
        74075202991602787026820997538,
        74118002866587256238327135679,
        17256942313766865116,
    );
    lemma_next_edge(
        189,
        74118002866587256238327135891,
        74160827470890373335965199067,
        74118002866587256238327135679,
        74160827470890373335965198854,
        17266913193950982145,
    );
    lemma_next_edge(
        190,
        74160827470890373335965199067,
        74203676818800479138735195742,
        74160827470890373335965198854,
        74203676818800479138735195527,
        17276889835205040672,
    );
}

proof fn lemma_edges_191_to_200()
    ensures
        edge_above(200) == 74633534345629832064106973029,
        edge_below(200) == 74633534345629832064106972802,
        bracket_is_tight(191),
        bracket_is_tight(192),
        bracket_is_tight(193),
        bracket_is_tight(194),
        bracket_is_tight(195),
        bracket_is_tight(196),
        bracket_is_tight(197),
        bracket_is_tight(198),
        bracket_is_tight(199),
        bracket_is_tight(200),
{
    lemma_edges_181_to_190();
    lemma_next_edge(
        191,
        74203676818800479138735195742,
        74246550924614170119028432048,
        74203676818800479138735195527,
        74246550924614170119028431832,
        17286872240857726457,
    );
    lemma_next_edge(
        192,
        74246550924614170119028432048,
        74289449802636303172657411034,
        74246550924614170119028431832,
        74289449802636303172657410817,
        17296860414239648537,
    );
    lemma_next_edge(
        193,
        74289449802636303172657411034,
        74332373467180000391641805130,
        74289449802636303172657410817,
        74332373467180000391641804912,
        17306854358683340343,
    );
    lemma_next_edge(
        194,
        74332373467180000391641805130,
        74375321932566653839752094270,
        74332373467180000391641804912,
        74375321932566653839752094050,
        17316854077523260806,
    );
    lemma_next_edge(
        195,
        74375321932566653839752094270,
        74418295213125930330812463009,
        74375321932566653839752094050,
        74418295213125930330812462788,
        17326859574095795474,
    );
    lemma_next_edge(
        196,
        74418295213125930330812463009,
        74461293323195776209764550922,
        74418295213125930330812462788,
        74461293323195776209764550700,
        17336870851739257623,
    );
    lemma_next_edge(
        197,
        74461293323195776209764550922,
        74504316277122422136493651462,
        74461293323195776209764550700,
        74504316277122422136493651239,
        17346887913793889372,
    );
    lemma_next_edge(
        198,
        74504316277122422136493651462,
        74547364089260387872418955400,
        74504316277122422136493651239,
        74547364089260387872418955175,
        17356910763601862796,
    );
    lemma_next_edge(
        199,
        74547364089260387872418955400,
        74590436773972487069849435876,
        74547364089260387872418955175,
        74590436773972487069849435650,
        17366939404507281043,
    );
    lemma_next_edge(
        200,
        74590436773972487069849435876,
        74633534345629832064106973029,
        74590436773972487069849435650,
        74633534345629832064106972802,
        17376973839856179447,
    );
}

proof fn lemma_edges_201_to_210()
    ensures
        edge_above(210) == 75065882011779680656045270818,
        edge_below(210) == 75065882011779680656045270580,
        bracket_is_tight(201),
        bracket_is_tight(202),
        bracket_is_tight(203),
        bracket_is_tight(204),
        bracket_is_tight(205),
        bracket_is_tight(206),
        bracket_is_tight(207),
        bracket_is_tight(208),
        bracket_is_tight(209),
        bracket_is_tight(210),
{
    lemma_edges_191_to_200();
    lemma_next_edge(
        201,
        74633534345629832064106973029,
        74676656818611838668418317080,
        74633534345629832064106972802,
        74676656818611838668418316852,
        17387014072996526647,
    );
    lemma_next_edge(
        202,
        74676656818611838668418317080,
        74719804207306230971577489673,
        74676656818611838668418316852,
        74719804207306230971577489444,
        17397060107278225704,
    );
    lemma_next_edge(
        203,
        74719804207306230971577489673,
        74762976526109046138380224213,
        74719804207306230971577489444,
        74762976526109046138380223983,
        17407111946053115218,
    );
    lemma_next_edge(
        204,
        74762976526109046138380224213,
        74806173789424639212832046847,
        74762976526109046138380223983,
        74806173789424639212832046616,
        17417169592674970444,
    );
    lemma_next_edge(
        205,
        74806173789424639212832046847,
        74849396011665687924131600675,
        74806173789424639212832046616,
        74849396011665687924131600443,
        17427233050499504415,
    );
    lemma_next_edge(
        206,
        74849396011665687924131600675,
        74892643207253197495430816689,
        74849396011665687924131600443,
        74892643207253197495430816456,
        17437302322884369059,
    );
    lemma_next_edge(
        207,
        74892643207253197495430816689,
        74935915390616505455373535886,
        74892643207253197495430816456,
        74935915390616505455373535652,
        17447377413189156320,
    );
    lemma_next_edge(
        208,
        74935915390616505455373535886,
        74979212576193286452414187899,
        74935915390616505455373535652,
        74979212576193286452414187663,
        17457458324775399280,
    );
    lemma_next_edge(
        209,
        74979212576193286452414187899,
        75022534778429557071918132448,
        74979212576193286452414187663,
        75022534778429557071918132211,
        17467545061006573279,
    );
    lemma_next_edge(
        210,
        75022534778429557071918132448,
        75065882011779680656045270818,
        75022534778429557071918132211,
        75065882011779680656045270580,
        17477637625248097037,
    );
}

proof fn lemma_edges_211_to_220()
    ensures
        edge_above(220) == 75500734242480359290533626202,
        edge_below(220) == 75500734242480359290533625953,
        bracket_is_tight(211),
        bracket_is_tight(212),
        bracket_is_tight(213),
        bracket_is_tight(214),
        bracket_is_tight(215),
        bracket_is_tight(216),
        bracket_is_tight(217),
        bracket_is_tight(218),
        bracket_is_tight(219),
        bracket_is_tight(220),
{
    lemma_edges_201_to_210();
    lemma_next_edge(
        211,
        75065882011779680656045270818,
        75109254290706372126418535510,
        75065882011779680656045270580,
        75109254290706372126418535271,
        17487736020867333777,
    );
    lemma_next_edge(
        212,
        75109254290706372126418535510,
        75152651629680702809578867139,
        75109254290706372126418535271,
        75152651629680702809578866899,
        17497840251233592353,
    );
    lemma_next_edge(
        213,
        75152651629680702809578867139,
        75196074043182105265228288585,
        75152651629680702809578866899,
        75196074043182105265228288344,
        17507950319718128365,
    );
    lemma_next_edge(
        214,
        75196074043182105265228288585,
        75239521545698378117262687322,
        75196074043182105265228288344,
        75239521545698378117262687080,
        17518066229694145294,
    );
    lemma_next_edge(
        215,
        75239521545698378117262687322,
        75282994151725690887595917798,
        75239521545698378117262687080,
        75282994151725690887595917555,
        17528187984536795618,
    );
    lemma_next_edge(
        216,
        75282994151725690887595917798,
        75326491875768588832776836658,
        75282994151725690887595917555,
        75326491875768588832776836414,
        17538315587623181947,
    );
    lemma_next_edge(
        217,
        75326491875768588832776836658,
        75370014732339997783400884536,
        75326491875768588832776836414,
        75370014732339997783400884291,
        17548449042332358143,
    );
    lemma_next_edge(
        218,
        75370014732339997783400884536,
        75413562735961228986317829077,
        75370014732339997783400884291,
        75413562735961228986317828831,
        17558588352045330449,
    );
    lemma_next_edge(
        219,
        75413562735961228986317829077,
        75457135901161983949637284782,
        75413562735961228986317828831,
        75457135901161983949637284535,
        17568733520145058621,
    );
    lemma_next_edge(
        220,
        75457135901161983949637284782,
        75500734242480359290533626202,
        75457135901161983949637284535,
        75500734242480359290533625953,
        17578884550016457050,
    );
}

proof fn lemma_edges_221_to_230()
    ensures
        edge_above(230) == 75938105546526711560807290712,
        edge_below(230) == 75938105546526711560807290451,
        bracket_is_tight(221),
        bracket_is_tight(222),
        bracket_is_tight(223),
        bracket_is_tight(224),
        bracket_is_tight(225),
        bracket_is_tight(226),
        bracket_is_tight(227),
        bracket_is_tight(228),
        bracket_is_tight(229),
        bracket_is_tight(230),
{
    lemma_edges_211_to_220();
    lemma_next_edge(
        221,
        75500734242480359290533626202,
        75544357774462851585851911937,
        75500734242480359290533625953,
        75544357774462851585851911686,
        17589041445046395899,
    );
    lemma_next_edge(
        222,
        75544357774462851585851911937,
        75588006511664362225516437844,
        75544357774462851585851911686,
        75588006511664362225516437592,
        17599204208623702225,
    );
    lemma_next_edge(
        223,
        75588006511664362225516437844,
        75631680468648202268743538776,
        75588006511664362225516437592,
        75631680468648202268743538523,
        17609372844139161117,
    );
    lemma_next_edge(
        224,
        75631680468648202268743538776,
        75675379659986097303060259116,
        75631680468648202268743538523,
        75675379659986097303060258862,
        17619547354985516822,
    );
    lemma_next_edge(
        225,
        75675379659986097303060259116,
        75719104100258192306130513315,
        75675379659986097303060258862,
        75719104100258192306130513060,
        17629727744557473880,
    );
    lemma_next_edge(
        226,
        75719104100258192306130513315,
        75762853804053056510390358569,
        75719104100258192306130513060,
        75762853804053056510390358312,
        17639914016251698256,
    );
    lemma_next_edge(
        227,
        75762853804053056510390358569,
        75806628785967688270494002703,
        75762853804053056510390358312,
        75806628785967688270494002445,
        17650106173466818471,
    );
    lemma_next_edge(
        228,
        75806628785967688270494002703,
        75850429060607519933572171293,
        75806628785967688270494002445,
        75850429060607519933572171034,
        17660304219603426740,
    );
    lemma_next_edge(
        229,
        75850429060607519933572171293,
        75894254642586422712304458955,
        75850429060607519933572171034,
        75894254642586422712304458695,
        17670508158064080103,
    );
    lemma_next_edge(
        230,
        75894254642586422712304458955,
        75938105546526711560807290712,
        75894254642586422712304458695,
        75938105546526711560807290451,
        17680717992253301563,
    );
}

proof fn lemma_edges_231_to_240()
    ensures
        edge_above(240) == 76378010516762174554612864320,
        edge_below(240) == 76378010516762174554612864047,
        bracket_is_tight(231),
        bracket_is_tight(232),
        bracket_is_tight(233),
        bracket_is_tight(234),
        bracket_is_tight(235),
        bracket_is_tight(236),
        bracket_is_tight(237),
        bracket_is_tight(238),
        bracket_is_tight(239),
        bracket_is_tight(240),
{
    lemma_edges_221_to_230();
    lemma_next_edge(
        231,
        75938105546526711560807290712,
        75981981787059150053339120257,
        75938105546526711560807290451,
        75981981787059150053339119994,
        17690933725577581221,
    );
    lemma_next_edge(
        232,
        75981981787059150053339120257,
        76025883378822955265824492883,
        75981981787059150053339119994,
        76025883378822955265824492619,
        17701155361445377410,
    );
    lemma_next_edge(
        233,
        76025883378822955265824492883,
        76069810336465802660198601797,
        76025883378822955265824492619,
        76069810336465802660198601532,
        17711382903267117837,
    );
    lemma_next_edge(
        234,
        76069810336465802660198601797,
        76113762674643830971573967462,
        76069810336465802660198601532,
        76113762674643830971573967196,
        17721616354455200716,
    );
    lemma_next_edge(
        235,
        76113762674643830971573967462,
        76157740408021647098230870564,
        76113762674643830971573967196,
        76157740408021647098230870297,
        17731855718423995911,
    );
    lemma_next_edge(
        236,
        76157740408021647098230870564,
        76201743551272330994433170138,
        76157740408021647098230870297,
        76201743551272330994433169870,
        17742100998589846072,
    );
    lemma_next_edge(
        237,
        76201743551272330994433170138,
        76245772119077440566071139331,
        76201743551272330994433169870,
        76245772119077440566071139062,
        17752352198371067775,
    );
    lemma_next_edge(
        238,
        76245772119077440566071139331,
        76289826126127016569132952226,
        76245772119077440566071139062,
        76289826126127016569132951955,
        17762609321187952666,
    );
    lemma_next_edge(
        239,
        76289826126127016569132952226,
        76333905587119587511006456083,
        76289826126127016569132951955,
        76333905587119587511006455811,
        17772872370462768598,
    );
    lemma_next_edge(
        240,
        76333905587119587511006456083,
        76378010516762174554612864320,
        76333905587119587511006455811,
        76378010516762174554612864047,
        17783141349619760773,
    );
}

proof fn lemma_edges_241_to_250()
    ensures
        edge_above(250) == 76820463830565667403157968944,
        edge_below(250) == 76820463830565667403157968659,
        bracket_is_tight(241),
        bracket_is_tight(242),
        bracket_is_tight(243),
        bracket_is_tight(244),
        bracket_is_tight(245),
        bracket_is_tight(246),
        bracket_is_tight(247),
        bracket_is_tight(248),
        bracket_is_tight(249),
        bracket_is_tight(250),
{
    lemma_edges_231_to_240();
    lemma_next_edge(
        241,
        76378010516762174554612864320,
        76422140929770296425374006476,
        76378010516762174554612864047,
        76422140929770296425374006202,
        17793416262085152889,
    );
    lemma_next_edge(
        242,
        76422140929770296425374006476,
        76466296840867974321014772361,
        76422140929770296425374006202,
        76466296840867974321014772085,
        17803697111287148279,
    );
    lemma_next_edge(
        243,
        76466296840867974321014772361,
        76510478264787736824202388536,
        76466296840867974321014772085,
        76510478264787736824202388259,
        17813983900655931054,
    );
    lemma_next_edge(
        244,
        76510478264787736824202388536,
        76554685216270624818024166222,
        76510478264787736824202388259,
        76554685216270624818024165943,
        17824276633623667252,
    );
    lemma_next_edge(
        245,
        76554685216270624818024166222,
        76598917710066196404305360662,
        76554685216270624818024165943,
        76598917710066196404305360382,
        17834575313624505980,
    );
    lemma_next_edge(
        246,
        76598917710066196404305360662,
        76643175760932531824768782943,
        76598917710066196404305360382,
        76643175760932531824768782662,
        17844879944094580558,
    );
    lemma_next_edge(
        247,
        76643175760932531824768782943,
        76687459383636238385037806192,
        76643175760932531824768782662,
        76687459383636238385037805910,
        17855190528472009671,
    );
    lemma_next_edge(
        248,
        76687459383636238385037806192,
        76731768592952455381484409045,
        76687459383636238385037805910,
        76731768592952455381484408762,
        17865507070196898511,
    );
    lemma_next_edge(
        249,
        76731768592952455381484409045,
        76776103403664859030923900216,
        76731768592952455381484408762,
        76776103403664859030923899932,
        17875829572711339927,
    );
    lemma_next_edge(
        250,
        76776103403664859030923900216,
        76820463830565667403157968944,
        76776103403664859030923899932,
        76820463830565667403157968659,
        17886158039459415573,
    );
}

proof fn lemma_edges_251_to_260()
    ensures
        edge_above(260) == 77265480250341300346731600075,
        edge_below(260) == 77265480250341300346731599778,
        bracket_is_tight(251),
        bracket_is_tight(252),
        bracket_is_tight(253),
        bracket_is_tight(254),
        bracket_is_tight(255),
        bracket_is_tight(256),
        bracket_is_tight(257),
        bracket_is_tight(258),
        bracket_is_tight(259),
        bracket_is_tight(260),
{
    lemma_edges_241_to_250();
    lemma_next_edge(
        251,
        76820463830565667403157968944,
        76864849888455645356367707060,
        76820463830565667403157968659,
        76864849888455645356367706774,
        17896492473887197058,
    );
    lemma_next_edge(
        252,
        76864849888455645356367707060,
        76909261592144109475358249349,
        76864849888455645356367706774,
        76909261592144109475358249062,
        17906832879442747095,
    );
    lemma_next_edge(
        253,
        76909261592144109475358249349,
        76953698956448933012656679850,
        76909261592144109475358249062,
        76953698956448933012656679562,
        17917179259576120650,
    );
    lemma_next_edge(
        254,
        76953698956448933012656679850,
        76998161996196550832464852674,
        76953698956448933012656679562,
        76998161996196550832464852385,
        17927531617739366096,
    );
    lemma_next_edge(
        255,
        76998161996196550832464852674,
        77042650726221964357468776883,
        76998161996196550832464852385,
        77042650726221964357468776592,
        17937889957386526363,
    );
    lemma_next_edge(
        256,
        77042650726221964357468776883,
        77087165161368746518506215923,
        77042650726221964357468776592,
        77087165161368746518506215631,
        17948254281973640090,
    );
    lemma_next_edge(
        257,
        77087165161368746518506215923,
        77131705316489046707094153060,
        77087165161368746518506215631,
        77131705316489046707094152767,
        17958624594958742780,
    );
    lemma_next_edge(
        258,
        77131705316489046707094153060,
        77176271206443595730817775210,
        77131705316489046707094152767,
        77176271206443595730817774916,
        17969000899801867952,
    );
    lemma_next_edge(
        259,
        77176271206443595730817775210,
        77220862846101710771582628530,
        77176271206443595730817774916,
        77220862846101710771582628235,
        17979383199965048296,
    );
    lemma_next_edge(
        260,
        77220862846101710771582628530,
        77265480250341300346731600075,
        77220862846101710771582628235,
        77265480250341300346731599778,
        17989771498912316828,
    );
}

proof fn lemma_edges_261_to_270()
    ensures
        edge_above(270) == 77713074624010920656082010667,
        edge_below(270) == 77713074624010920656082010358,
        bracket_is_tight(261),
        bracket_is_tight(262),
        bracket_is_tight(263),
        bracket_is_tight(264),
        bracket_is_tight(265),
        bracket_is_tight(266),
        bracket_is_tight(267),
        bracket_is_tight(268),
        bracket_is_tight(269),
        bracket_is_tight(270),
{
    lemma_edges_251_to_260();
    lemma_next_edge(
        261,
        77265480250341300346731600075,
        77310123434048869273028380782,
        77265480250341300346731599778,
        77310123434048869273028380484,
        18000165800109708047,
    );
    lemma_next_edge(
        262,
        77310123434048869273028380782,
        77354792412119523633509066020,
        77310123434048869273028380484,
        77354792412119523633509065721,
        18010566107025259090,
    );
    lemma_next_edge(
        263,
        77354792412119523633509066020,
        77399487199456975747203550866,
        77354792412119523633509065721,
        77399487199456975747203550565,
        18020972423129010887,
    );
    lemma_next_edge(
        264,
        77399487199456975747203550866,
        77444207810973549141728378256,
        77399487199456975747203550565,
        77444207810973549141728377954,
        18031384751893009325,
    );
    lemma_next_edge(
        265,
        77444207810973549141728378256,
        77488954261590183528752699109,
        77444207810973549141728377954,
        77488954261590183528752698806,
        18041803096791306401,
    );
    lemma_next_edge(
        266,
        77488954261590183528752699109,
        77533726566236439782339004467,
        77488954261590183528752698806,
        77533726566236439782339004163,
        18052227461299961383,
    );
    lemma_next_edge(
        267,
        77533726566236439782339004467,
        77578524739850504920160290672,
        77533726566236439782339004163,
        77578524739850504920160290366,
        18062657848897041968,
    );
    lemma_next_edge(
        268,
        77578524739850504920160290672,
        77623348797379197087595319551,
        77578524739850504920160290366,
        77623348797379197087595319244,
        18073094263062625446,
    );
    lemma_next_edge(
        269,
        77623348797379197087595319551,
        77668198753777970544703636545,
        77623348797379197087595319244,
        77668198753777970544703636237,
        18083536707278799859,
    );
    lemma_next_edge(
        270,
        77668198753777970544703636545,
        77713074624010920656082010667,
        77668198753777970544703636237,
        77713074624010920656082010358,
        18093985185029665161,
    );
}

proof fn lemma_edges_271_to_280()
    ensures
        edge_above(280) == 78163261885509511843290348683,
        edge_below(280) == 78163261885509511843290348361,
        bracket_is_tight(271),
        bracket_is_tight(272),
        bracket_is_tight(273),
        bracket_is_tight(274),
        bracket_is_tight(275),
        bracket_is_tight(276),
        bracket_is_tight(277),
        bracket_is_tight(278),
        bracket_is_tight(279),
        bracket_is_tight(280),
{
    lemma_edges_261_to_270();
    lemma_next_edge(
        271,
        77713074624010920656082010667,
        77757976423050788883603961154,
        77713074624010920656082010358,
        77757976423050788883603960844,
        18104439699801334386,
    );
    lemma_next_edge(
        272,
        77757976423050788883603961154,
        77802904165878967782044036627,
        77757976423050788883603960844,
        77802904165878967782044036316,
        18114900255081934804,
    );
    lemma_next_edge(
        273,
        77802904165878967782044036627,
        77847857867485505997588513537,
        77802904165878967782044036316,
        77847857867485505997588513225,
        18125366854361609090,
    );
    lemma_next_edge(
        274,
        77847857867485505997588513537,
        77892837542869113269234181639,
        77847857867485505997588513225,
        77892837542869113269234181326,
        18135839501132516486,
    );
    lemma_next_edge(
        275,
        77892837542869113269234181639,
        77937843207037165433076885206,
        77892837542869113269234181326,
        77937843207037165433076884892,
        18146318198888833969,
    );
    lemma_next_edge(
        276,
        77937843207037165433076885206,
        77982874875005709429491489648,
        77937843207037165433076884892,
        77982874875005709429491489333,
        18156802951126757411,
    );
    lemma_next_edge(
        277,
        77982874875005709429491489648,
        78027932561799468313204944173,
        77982874875005709429491489333,
        78027932561799468313204943857,
        18167293761344502753,
    );
    lemma_next_edge(
        278,
        78027932561799468313204944173,
        78073016282451846266264112092,
        78027932561799468313204943857,
        78073016282451846266264111774,
        18177790633042307167,
    );
    lemma_next_edge(
        279,
        78073016282451846266264112092,
        78118126052004933613900041330,
        78073016282451846266264111774,
        78118126052004933613900041010,
        18188293569722430225,
    );
    lemma_next_edge(
        280,
        78118126052004933613900041330,
        78163261885509511843290348683,
        78118126052004933613900041010,
        78163261885509511843290348361,
        18198802574889155069,
    );
}

proof fn lemma_edges_281_to_290()
    ensures
        edge_above(290) == 78616057055283462691077946710,
        edge_below(290) == 78616057055283462691077946375,
        bracket_is_tight(281),
        bracket_is_tight(282),
        bracket_is_tight(283),
        bracket_is_tight(284),
        bracket_is_tight(285),
        bracket_is_tight(286),
        bracket_is_tight(287),
        bracket_is_tight(288),
        bracket_is_tight(289),
        bracket_is_tight(290),
{
    lemma_edges_271_to_280();
    lemma_next_edge(
        281,
        78163261885509511843290348683,
        78208423798025058625221392313,
        78163261885509511843290348361,
        78208423798025058625221391990,
        18209317652048789576,
    );
    lemma_next_edge(
        282,
        78208423798025058625221392313,
        78253611804619752838651907955,
        78208423798025058625221391990,
        78253611804619752838651907630,
        18219838804709667536,
    );
    lemma_next_edge(
        283,
        78253611804619752838651907955,
        78298825920370479598179785263,
        78253611804619752838651907630,
        78298825920370479598179784937,
        18230366036382149812,
    );
    lemma_next_edge(
        284,
        78298825920370479598179785263,
        78344066160362835284413661711,
        78298825920370479598179784937,
        78344066160362835284413661383,
        18240899350578625520,
    );
    lemma_next_edge(
        285,
        78344066160362835284413661711,
        78389332539691132577251012407,
        78344066160362835284413661383,
        78389332539691132577251012078,
        18251438750813513198,
    );
    lemma_next_edge(
        286,
        78389332539691132577251012407,
        78434625073458405492064415178,
        78389332539691132577251012078,
        78434625073458405492064414848,
        18261984240603261975,
    );
    lemma_next_edge(
        287,
        78434625073458405492064415178,
        78479943776776414418797671228,
        78434625073458405492064414848,
        78479943776776414418797670897,
        18272535823466352751,
    );
    lemma_next_edge(
        288,
        78479943776776414418797671228,
        78525288664765651163973462658,
        78479943776776414418797670897,
        78525288664765651163973462326,
        18283093502923299364,
    );
    lemma_next_edge(
        289,
        78525288664765651163973462658,
        78570659752555343995614229103,
        78525288664765651163973462326,
        78570659752555343995614228769,
        18293657282496649771,
    );
    lemma_next_edge(
        290,
        78570659752555343995614229103,
        78616057055283462691077946710,
        78570659752555343995614228769,
        78616057055283462691077946375,
        18304227165710987219,
    );
}

proof fn lemma_edges_291_to_300()
    ensures
        edge_above(300) == 79071475240791722725236325251,
        edge_below(300) == 79071475240791722725236324902,
        bracket_is_tight(291),
        bracket_is_tight(292),
        bracket_is_tight(293),
        bracket_is_tight(294),
        bracket_is_tight(295),
        bracket_is_tight(296),
        bracket_is_tight(297),
        bracket_is_tight(298),
        bracket_is_tight(299),
        bracket_is_tight(300),
{
    lemma_edges_281_to_290();
    lemma_next_edge(
        291,
        78616057055283462691077946710,
        78661480588096723587810493667,
        78616057055283462691077946375,
        78661480588096723587810493331,
        18314803156092931421,
    );
    lemma_next_edge(
        292,
        78661480588096723587810493667,
        78706930366150594637016287440,
        78661480588096723587810493331,
        78706930366150594637016287102,
        18325385257171139736,
    );
    lemma_next_edge(
        293,
        78706930366150594637016287440,
        78752406404609300460248879879,
        78706930366150594637016287102,
        78752406404609300460248879540,
        18335973472476308342,
    );
    lemma_next_edge(
        294,
        78752406404609300460248879879,
        78797908718645827408923197311,
        78752406404609300460248879540,
        78797908718645827408923196971,
        18346567805541173418,
    );
    lemma_next_edge(
        295,
        78797908718645827408923197311,
        78843437323441928626751113707,
        78797908718645827408923196971,
        78843437323441928626751113365,
        18357168259900512320,
    );
    lemma_next_edge(
        296,
        78843437323441928626751113707,
        78888992234188129115102046005,
        78843437323441928626751113365,
        78888992234188129115102045661,
        18367774839091144762,
    );
    lemma_next_edge(
        297,
        78888992234188129115102046005,
        78934573466083730801290261632,
        78888992234188129115102045661,
        78934573466083730801290261287,
        18378387546651933995,
    );
    lemma_next_edge(
        298,
        78934573466083730801290261632,
        78980181034336817609790589248,
        78934573466083730801290261287,
        78980181034336817609790588902,
        18389006386123787987,
    );
    lemma_next_edge(
        299,
        78980181034336817609790589248,
        79025814954164260536384224712,
        78980181034336817609790588902,
        79025814954164260536384224365,
        18399631361049660607,
    );
    lemma_next_edge(
        300,
        79025814954164260536384224712,
        79071475240791722725236325251,
        79025814954164260536384224365,
        79071475240791722725236324902,
        18410262474974552804,
    );
}

proof fn lemma_edges_301_to_310()
    ensures
        edge_above(310) == 79529531637009860851174815250,
        edge_below(310) == 79529531637009860851174814889,
        bracket_is_tight(301),
        bracket_is_tight(302),
        bracket_is_tight(303),
        bracket_is_tight(304),
        bracket_is_tight(305),
        bracket_is_tight(306),
        bracket_is_tight(307),
        bracket_is_tight(308),
        bracket_is_tight(309),
        bracket_is_tight(310),
{
    lemma_edges_291_to_300();
    lemma_next_edge(
        301,
        79071475240791722725236325251,
        79117161909453664548907085785,
        79071475240791722725236324902,
        79117161909453664548907085434,
        18420899731445513794,
    );
    lemma_next_edge(
        302,
        79117161909453664548907085785,
        79162874975393348691297992347,
        79117161909453664548907085434,
        79162874975393348691297991995,
        18431543134011642238,
    );
    lemma_next_edge(
        303,
        79162874975393348691297992347,
        79208614453862845233534948510,
        79162874975393348691297991995,
        79208614453862845233534948157,
        18442192686224087429,
    );
    lemma_next_edge(
        304,
        79208614453862845233534948510,
        79254380360123036742789971716,
        79208614453862845233534948157,
        79254380360123036742789971362,
        18452848391636050480,
    );
    lemma_next_edge(
        305,
        79254380360123036742789971716,
        79300172709443623364043157381,
        79254380360123036742789971362,
        79300172709443623364043157026,
        18463510253802785502,
    );
    lemma_next_edge(
        306,
        79300172709443623364043157381,
        79345991517103127914786609634,
        79300172709443623364043157026,
        79345991517103127914786609278,
        18474178276281600799,
    );
    lemma_next_edge(
        307,
        79345991517103127914786609634,
        79391836798388900982672038525,
        79345991517103127914786609278,
        79391836798388900982672038168,
        18484852462631860046,
    );
    lemma_next_edge(
        308,
        79391836798388900982672038525,
        79437708568597126026103724525,
        79391836798388900982672038168,
        79437708568597126026103724167,
        18495532816414983484,
    );
    lemma_next_edge(
        309,
        79437708568597126026103724525,
        79483606843032824477778552114,
        79437708568597126026103724167,
        79483606843032824477778551754,
        18506219341194449104,
    );
    lemma_next_edge(
        310,
        79483606843032824477778552114,
        79529531637009860851174815250,
        79483606843032824477778551754,
        79529531637009860851174814889,
        18516912040535793838,
    );
}

proof fn lemma_edges_311_to_320()
    ensures
        edge_above(320) == 79990241526937043972444443572,
        edge_below(320) == 79990241526937043972444443198,
        bracket_is_tight(311),
        bracket_is_tight(312),
        bracket_is_tight(313),
        bracket_is_tight(314),
        bracket_is_tight(315),
        bracket_is_tight(316),
        bracket_is_tight(317),
        bracket_is_tight(318),
        bracket_is_tight(319),
        bracket_is_tight(320),
{
    lemma_edges_301_to_310();
    lemma_next_edge(
        311,
        79529531637009860851174815250,
        79575482965850947849991498487,
        79529531637009860851174814889,
        79575482965850947849991498125,
        18527610918006614747,
    );
    lemma_next_edge(
        312,
        79575482965850947849991498487,
        79621460844887651480539738488,
        79575482965850947849991498125,
        79621460844887651480539738125,
        18538315977176570213,
    );
    lemma_next_edge(
        313,
        79621460844887651480539738488,
        79667465289460396167088171683,
        79621460844887651480539738125,
        79667465289460396167088171318,
        18549027221617381128,
    );
    lemma_next_edge(
        314,
        79667465289460396167088171683,
        79713496314918469870163874788,
        79667465289460396167088171318,
        79713496314918469870163874422,
        18559744654902832087,
    );
    lemma_next_edge(
        315,
        79713496314918469870163874788,
        79759553936620029207810605902,
        79713496314918469870163874422,
        79759553936620029207810605535,
        18570468280608772582,
    );
    lemma_next_edge(
        316,
        79759553936620029207810605902,
        79805638169932104579806054874,
        79759553936620029207810605535,
        79805638169932104579806054505,
        18581198102313118191,
    );
    lemma_next_edge(
        317,
        79805638169932104579806054874,
        79851749030230605294839812625,
        79805638169932104579806054505,
        79851749030230605294839812255,
        18591934123595851775,
    );
    lemma_next_edge(
        318,
        79851749030230605294839812625,
        79897886532900324700653770105,
        79851749030230605294839812255,
        79897886532900324700653769734,
        18602676348039024673,
    );
    lemma_next_edge(
        319,
        79897886532900324700653770105,
        79944050693334945317146658531,
        79897886532900324700653769734,
        79944050693334945317146658159,
        18613424779226757893,
    );
    lemma_next_edge(
        320,
        79944050693334945317146658531,
        79990241526937043972444443572,
        79944050693334945317146658159,
        79990241526937043972444443198,
        18624179420745243312,
    );
}

proof fn lemma_edges_321_to_330()
    ensures
        edge_above(330) == 80453620282105952506521589071,
        edge_below(330) == 80453620282105952506521588682,
        bracket_is_tight(321),
        bracket_is_tight(322),
        bracket_is_tight(323),
        bracket_is_tight(324),
        bracket_is_tight(325),
        bracket_is_tight(326),
        bracket_is_tight(327),
        bracket_is_tight(328),
        bracket_is_tight(329),
        bracket_is_tight(330),
{
    lemma_edges_311_to_320();
    lemma_next_edge(
        321,
        79990241526937043972444443572,
        80036459049118096941938287108,
        79990241526937043972444443198,
        80036459049118096941938286732,
        18634940276182744872,
    );
    lemma_next_edge(
        322,
        80036459049118096941938287108,
        80082703275298485090291791199,
        80036459049118096941938286732,
        80082703275298485090291790822,
        18645707349129599773,
    );
    lemma_next_edge(
        323,
        80082703275298485090291791199,
        80128974220907499016419239883,
        80082703275298485090291790822,
        80128974220907499016419239504,
        18656480643178219678,
    );
    lemma_next_edge(
        324,
        80128974220907499016419239883,
        80175271901383344201436555411,
        80128974220907499016419239504,
        80175271901383344201436555030,
        18667260161923091906,
    );
    lemma_next_edge(
        325,
        80175271901383344201436555411,
        80221596332173146159586686527,
        80175271901383344201436555030,
        80221596332173146159586686145,
        18678045908960780632,
    );
    lemma_next_edge(
        326,
        80221596332173146159586686527,
        80267947528732955592141147386,
        80221596332173146159586686145,
        80267947528732955592141147002,
        18688837887889928090,
    );
    lemma_next_edge(
        327,
        80267947528732955592141147386,
        80314325506527753544279426697,
        80267947528732955592141147002,
        80314325506527753544279426312,
        18699636102311255770,
    );
    lemma_next_edge(
        328,
        80314325506527753544279426697,
        80360730281031456564947987680,
        80314325506527753544279426312,
        80360730281031456564947987293,
        18710440555827565623,
    );
    lemma_next_edge(
        329,
        80360730281031456564947987680,
        80407161867726921869700580401,
        80360730281031456564947987293,
        80407161867726921869700580013,
        18721251252043741260,
    );
    lemma_next_edge(
        330,
        80407161867726921869700580401,
        80453620282105952506521589071,
        80407161867726921869700580013,
        80453620282105952506521588682,
        18732068194566749155,
    );
}

proof fn lemma_edges_331_to_340()
    ensures
        edge_above(340) == 80919683363095649811124157479,
        edge_below(340) == 80919683363095649811124157075,
        bracket_is_tight(331),
        bracket_is_tight(332),
        bracket_is_tight(333),
        bracket_is_tight(334),
        bracket_is_tight(335),
        bracket_is_tight(336),
        bracket_is_tight(337),
        bracket_is_tight(338),
        bracket_is_tight(339),
        bracket_is_tight(340),
{
    lemma_edges_321_to_330();
    lemma_next_edge(
        331,
        80453620282105952506521589071,
        80500105539669302524634137864,
        80453620282105952506521588682,
        80500105539669302524634137474,
        18742891387005639851,
    );
    lemma_next_edge(
        332,
        80500105539669302524634137864,
        80546617655926682146294679820,
        80500105539669302524634137474,
        80546617655926682146294679429,
        18753720832971549162,
    );
    lemma_next_edge(
        333,
        80546617655926682146294679820,
        80593156646396762941575794392,
        80546617655926682146294679429,
        80593156646396762941575793999,
        18764556536077699378,
    );
    lemma_next_edge(
        334,
        80593156646396762941575794392,
        80639722526607183006138920192,
        80593156646396762941575793999,
        80639722526607183006138919797,
        18775398499939400472,
    );
    lemma_next_edge(
        335,
        80639722526607183006138920192,
        80686315312094552141998750489,
        80639722526607183006138919797,
        80686315312094552141998750093,
        18786246728174051303,
    );
    lemma_next_edge(
        336,
        80686315312094552141998750489,
        80732935018404457041281020013,
        80686315312094552141998750093,
        80732935018404457041281019616,
        18797101224401140828,
    );
    lemma_next_edge(
        337,
        80732935018404457041281020013,
        80779581661091466472975412610,
        80732935018404457041281019616,
        80779581661091466472975412211,
        18807961992242249305,
    );
    lemma_next_edge(
        338,
        80779581661091466472975412610,
        80826255255719136472685320299,
        80779581661091466472975412211,
        80826255255719136472685319899,
        18818829035321049503,
    );
    lemma_next_edge(
        339,
        80826255255719136472685320299,
        80872955817860015535376185287,
        80826255255719136472685319899,
        80872955817860015535376184885,
        18829702357263307911,
    );
    lemma_next_edge(
        340,
        80872955817860015535376185287,
        80919683363095649811124157479,
        80872955817860015535376184885,
        80919683363095649811124157075,
        18840581961696885948,
    );
}

proof fn lemma_edges_341_to_350()
    ensures
        edge_above(350) == 81388446320047422632889909695,
        edge_below(350) == 81388446320047422632889909275,
        bracket_is_tight(341),
        bracket_is_tight(342),
        bracket_is_tight(343),
        bracket_is_tight(344),
        bracket_is_tight(345),
        bracket_is_tight(346),
        bracket_is_tight(347),
        bracket_is_tight(348),
        bracket_is_tight(349),
        bracket_is_tight(350),
{
    lemma_edges_331_to_340();
    lemma_next_edge(
        341,
        80919683363095649811124157479,
        80966437907016588303866801047,
        80919683363095649811124157075,
        80966437907016588303866800641,
        18851467852251741175,
    );
    lemma_next_edge(
        342,
        80966437907016588303866801047,
        81013219465222388073157584601,
        80966437907016588303866800641,
        81013219465222388073157584193,
        18862360032559928502,
    );
    lemma_next_edge(
        343,
        81013219465222388073157584601,
        81060028053321619438925890522,
        81013219465222388073157584193,
        81060028053321619438925890112,
        18873258506255601403,
    );
    lemma_next_edge(
        344,
        81060028053321619438925890522,
        81106863686931871189244280010,
        81060028053321619438925890112,
        81106863686931871189244279599,
        18884163276975013127,
    );
    lemma_next_edge(
        345,
        81106863686931871189244280010,
        81153726381679755791104751415,
        81106863686931871189244279599,
        81153726381679755791104751003,
        18895074348356517915,
    );
    lemma_next_edge(
        346,
        81153726381679755791104751415,
        81200616153200914604205730405,
        81153726381679755791104751003,
        81200616153200914604205729991,
        18905991724040572207,
    );
    lemma_next_edge(
        347,
        81200616153200914604205730405,
        81247533017140023097751531550,
        81200616153200914604205729991,
        81247533017140023097751531135,
        18916915407669735863,
    );
    lemma_next_edge(
        348,
        81247533017140023097751531550,
        81294476989150796070266031895,
        81247533017140023097751531135,
        81294476989150796070266031478,
        18927845402888673375,
    );
    lemma_next_edge(
        349,
        81294476989150796070266031895,
        81341448084895992872422298092,
        81294476989150796070266031478,
        81341448084895992872422297674,
        18938781713344155083,
    );
    lemma_next_edge(
        350,
        81341448084895992872422298092,
        81388446320047422632889909695,
        81341448084895992872422297674,
        81388446320047422632889909275,
        18949724342685058395,
    );
}

proof fn lemma_edges_351_to_360()
    ensures
        edge_above(360) == 81859924793183609789374398691,
        edge_below(360) == 81859924793183609789374398257,
        bracket_is_tight(351),
        bracket_is_tight(352),
        bracket_is_tight(353),
        bracket_is_tight(354),
        bracket_is_tight(355),
        bracket_is_tight(356),
        bracket_is_tight(357),
        bracket_is_tight(358),
        bracket_is_tight(359),
        bracket_is_tight(360),
{
    lemma_edges_341_to_350();
    lemma_next_edge(
        351,
        81388446320047422632889909695,
        81435471710285949487201722192,
        81388446320047422632889909275,
        81435471710285949487201721770,
        18960673294562369000,
    );
    lemma_next_edge(
        352,
        81435471710285949487201722192,
        81482524271301497809641814390,
        81435471710285949487201721770,
        81482524271301497809641813967,
        18971628572629182090,
    );
    lemma_next_edge(
        353,
        81482524271301497809641814390,
        81529604018793057448156365755,
        81482524271301497809641813967,
        81529604018793057448156365331,
        18982590180540703575,
    );
    lemma_next_edge(
        354,
        81529604018793057448156365755,
        81576710968468688962289210320,
        81529604018793057448156365331,
        81576710968468688962289209895,
        18993558121954251305,
    );
    lemma_next_edge(
        355,
        81576710968468688962289210320,
        81623845136045528864143814797,
        81576710968468688962289209895,
        81623845136045528864143814371,
        19004532400529256292,
    );
    lemma_next_edge(
        356,
        81623845136045528864143814797,
        81671006537249794862373429524,
        81623845136045528864143814371,
        81671006537249794862373429096,
        19015513019927263927,
    );
    lemma_next_edge(
        357,
        81671006537249794862373429524,
        81718195187816791109201161888,
        81671006537249794862373429096,
        81718195187816791109201161459,
        19026499983811935203,
    );
    lemma_next_edge(
        358,
        81718195187816791109201161888,
        81765411103490913450471722896,
        81718195187816791109201161459,
        81765411103490913450471722465,
        19037493295849047939,
    );
    lemma_next_edge(
        359,
        81765411103490913450471722896,
        81812654300025654678736598546,
        81765411103490913450471722465,
        81812654300025654678736598113,
        19048492959706498003,
    );
    lemma_next_edge(
        360,
        81812654300025654678736598546,
        81859924793183609789374398691,
        81812654300025654678736598113,
        81859924793183609789374398257,
        19059498979054300532,
    );
}

proof fn lemma_edges_361_to_370()
    ensures
        edge_above(370) == 82334134513329436395028032548,
        edge_below(370) == 82334134513329436395028032098,
        bracket_is_tight(361),
        bracket_is_tight(362),
        bracket_is_tight(363),
        bracket_is_tight(364),
        bracket_is_tight(365),
        bracket_is_tight(366),
        bracket_is_tight(367),
        bracket_is_tight(368),
        bracket_is_tight(369),
        bracket_is_tight(370),
{
    lemma_edges_351_to_360();
    lemma_next_edge(
        361,
        81859924793183609789374398691,
        81907222598736481239748137088,
        81859924793183609789374398257,
        81907222598736481239748136652,
        19070511357564591160,
    );
    lemma_next_edge(
        362,
        81907222598736481239748137088,
        81954547732465084211401197329,
        81907222598736481239748136652,
        81954547732465084211401196891,
        19081530098911627245,
    );
    lemma_next_edge(
        363,
        81954547732465084211401197329,
        82001900210159351875293740391,
        81954547732465084211401196891,
        82001900210159351875293739951,
        19092555206771789090,
    );
    lemma_next_edge(
        364,
        82001900210159351875293740391,
        82049280047618340660081310527,
        82001900210159351875293739951,
        82049280047618340660081310085,
        19103586684823581172,
    );
    lemma_next_edge(
        365,
        82049280047618340660081310527,
        82096687260650235523437397254,
        82049280047618340660081310085,
        82096687260650235523437396811,
        19114624536747633369,
    );
    lemma_next_edge(
        366,
        82096687260650235523437397254,
        82144121865072355226421712205,
        82096687260650235523437396811,
        82144121865072355226421711761,
        19125668766226702190,
    );
    lemma_next_edge(
        367,
        82144121865072355226421712205,
        82191583876711157610895940621,
        82144121865072355226421711761,
        82191583876711157610895940176,
        19136719376945672001,
    );
    lemma_next_edge(
        368,
        82191583876711157610895940621,
        82239073311402244879988728291,
        82191583876711157610895940176,
        82239073311402244879988727844,
        19147776372591556255,
    );
    lemma_next_edge(
        369,
        82239073311402244879988728291,
        82286590184990368881611665745,
        82239073311402244879988727844,
        82286590184990368881611665297,
        19158839756853498724,
    );
    lemma_next_edge(
        370,
        82286590184990368881611665745,
        82334134513329436395028032548,
        82286590184990368881611665297,
        82334134513329436395028032098,
        19169909533422774728,
    );
}

proof fn lemma_edges_371_to_380()
    ensures
        edge_above(380) == 82811091302437871042091411512,
        edge_below(380) == 82811091302437871042091411048,
        bracket_is_tight(371),
        bracket_is_tight(372),
        bracket_is_tight(373),
        bracket_is_tight(374),
        bracket_is_tight(375),
        bracket_is_tight(376),
        bracket_is_tight(377),
        bracket_is_tight(378),
        bracket_is_tight(379),
        bracket_is_tight(380),
{
    lemma_edges_361_to_370();
    lemma_next_edge(
        371,
        82334134513329436395028032548,
        82381706312282514420476065532,
        82334134513329436395028032098,
        82381706312282514420476065081,
        19180985705992792366,
    );
    lemma_next_edge(
        372,
        82381706312282514420476065532,
        82429305597721835471848515853,
        82381706312282514420476065081,
        82429305597721835471848515401,
        19192068278259093751,
    );
    lemma_next_edge(
        373,
        82429305597721835471848515853,
        82476932385528802872430260754,
        82429305597721835471848515401,
        82476932385528802872430260300,
        19203157253919356241,
    );
    lemma_next_edge(
        374,
        82476932385528802872430260754,
        82524586691593996053695736948,
        82476932385528802872430260300,
        82524586691593996053695736493,
        19214252636673393672,
    );
    lemma_next_edge(
        375,
        82524586691593996053695736948,
        82572268531817175857167963561,
        82524586691593996053695736493,
        82572268531817175857167963105,
        19225354430223157597,
    );
    lemma_next_edge(
        376,
        82572268531817175857167963561,
        82619977922107289839340923579,
        82572268531817175857167963105,
        82619977922107289839340923121,
        19236462638272738513,
    );
    lemma_next_edge(
        377,
        82619977922107289839340923579,
        82667714878382477579667073779,
        82619977922107289839340923121,
        82667714878382477579667073320,
        19247577264528367105,
    );
    lemma_next_edge(
        378,
        82667714878382477579667073779,
        82715479416570075991611754151,
        82667714878382477579667073320,
        82715479416570075991611753690,
        19258698312698415479,
    );
    lemma_next_edge(
        379,
        82715479416570075991611754151,
        82763271552606624636776268817,
        82715479416570075991611753690,
        82763271552606624636776268355,
        19269825786493398398,
    );
    lemma_next_edge(
        380,
        82763271552606624636776268817,
        82811091302437871042091411512,
        82763271552606624636776268355,
        82811091302437871042091411048,
        19280959689625974522,
    );
}

proof fn lemma_edges_381_to_390()
    ensures
        edge_above(390) == 83290811074117523448208631441,
        edge_below(390) == 83290811074117523448208630966,
        bracket_is_tight(381),
        bracket_is_tight(382),
        bracket_is_tight(383),
        bracket_is_tight(384),
        bracket_is_tight(385),
        bracket_is_tight(386),
        bracket_is_tight(387),
        bracket_is_tight(388),
        bracket_is_tight(389),
        bracket_is_tight(390),
{
    lemma_edges_371_to_380();
    lemma_next_edge(
        381,
        82811091302437871042091411512,
        82858938682018776020083209681,
        82811091302437871042091411048,
        82858938682018776020083209216,
        19292100025810947647,
    );
    lemma_next_edge(
        382,
        82858938682018776020083209681,
        82906813707313518992212662300,
        82858938682018776020083209216,
        82906813707313518992212661834,
        19303246798765267943,
    );
    lemma_next_edge(
        383,
        82906813707313518992212662300,
        82954716394295503315291247535,
        82906813707313518992212661834,
        82954716394295503315291247068,
        19314400012208033194,
    );
    lemma_next_edge(
        384,
        82954716394295503315291247535,
        83002646758947361610973977389,
        82954716394295503315291247068,
        83002646758947361610973976921,
        19325559669860490042,
    );
    lemma_next_edge(
        385,
        83002646758947361610973977389,
        83050604817260961098331777511,
        83002646758947361610973976921,
        83050604817260961098331777042,
        19336725775446035224,
    );
    lemma_next_edge(
        386,
        83050604817260961098331777511,
        83098590585237408929504971371,
        83050604817260961098331777042,
        83098590585237408929504970901,
        19347898332690216818,
    );
    lemma_next_edge(
        387,
        83098590585237408929504971371,
        83146604078887057528439649026,
        83098590585237408929504970901,
        83146604078887057528439648554,
        19359077345320735483,
    );
    lemma_next_edge(
        388,
        83146604078887057528439649026,
        83194645314229509932708701739,
        83146604078887057528439648554,
        83194645314229509932708701266,
        19370262817067445706,
    );
    lemma_next_edge(
        389,
        83194645314229509932708701739,
        83242714307293625138419304740,
        83194645314229509932708701266,
        83242714307293625138419304266,
        19381454751662357045,
    );
    lemma_next_edge(
        390,
        83242714307293625138419304740,
        83290811074117523448208631441,
        83242714307293625138419304266,
        83290811074117523448208630966,
        19392653152839635371,
    );
}

proof fn lemma_edges_391_to_400()
    ensures
        edge_above(400) == 83773309834163600184003069575,
        edge_below(400) == 83773309834163600184003069085,
        bracket_is_tight(391),
        bracket_is_tight(392),
        bracket_is_tight(393),
        bracket_is_tight(394),
        bracket_is_tight(395),
        bracket_is_tight(396),
        bracket_is_tight(397),
        bracket_is_tight(398),
        bracket_is_tight(399),
        bracket_is_tight(400),
{
    lemma_edges_381_to_390();
    lemma_next_edge(
        391,
        83290811074117523448208631441,
        83338935630748591822329583457,
        83290811074117523448208630966,
        83338935630748591822329582980,
        19403858024335604120,
    );
    lemma_next_edge(
        392,
        83338935630748591822329583457,
        83387087993243489232828321810,
        83338935630748591822329582980,
        83387087993243489232828321332,
        19415069369888745536,
    );
    lemma_next_edge(
        393,
        83387087993243489232828321810,
        83435268177668152020815385728,
        83387087993243489232828321332,
        83435268177668152020815385249,
        19426287193239701917,
    );
    lemma_next_edge(
        394,
        83435268177668152020815385728,
        83483476200097799256832186480,
        83435268177668152020815385249,
        83483476200097799256832185999,
        19437511498131276867,
    );
    lemma_next_edge(
        395,
        83483476200097799256832186480,
        83531712076616938104314664719,
        83483476200097799256832185999,
        83531712076616938104314664237,
        19448742288308436541,
    );
    lemma_next_edge(
        396,
        83531712076616938104314664719,
        83579975823319369186155900851,
        83531712076616938104314664237,
        83579975823319369186155900368,
        19459979567518310898,
    );
    lemma_next_edge(
        397,
        83579975823319369186155900851,
        83628267456308191954369468963,
        83579975823319369186155900368,
        83628267456308191954369468478,
        19471223339510194947,
    );
    lemma_next_edge(
        398,
        83628267456308191954369468963,
        83676586991695810062855325888,
        83628267456308191954369468478,
        83676586991695810062855325402,
        19482473608035550002,
    );
    lemma_next_edge(
        399,
        83676586991695810062855325888,
        83724934445603936743270028029,
        83676586991695810062855325402,
        83724934445603936743270027541,
        19493730376848004932,
    );
    lemma_next_edge(
        400,
        83724934445603936743270028029,
        83773309834163600184003069575,
        83724934445603936743270027541,
        83773309834163600184003069085,
        19504993649703357412,
    );
}

proof fn lemma_edges_401_to_410()
    ensures
        edge_above(410) == 84258603681091936195892656053,
        edge_below(410) == 84258603681091936195892655550,
        bracket_is_tight(401),
        bracket_is_tight(402),
        bracket_is_tight(403),
        bracket_is_tight(404),
        bracket_is_tight(405),
        bracket_is_tight(406),
        bracket_is_tight(407),
        bracket_is_tight(408),
        bracket_is_tight(409),
        bracket_is_tight(410),
{
    lemma_edges_391_to_400();
    lemma_next_edge(
        401,
        83773309834163600184003069575,
        83821713173515148912261136808,
        83773309834163600184003069085,
        83821713173515148912261136316,
        19516263430359575179,
    );
    lemma_next_edge(
        402,
        83821713173515148912261136808,
        83870144479808257179262074210,
        83821713173515148912261136316,
        83870144479808257179262073717,
        19527539722576797284,
    );
    lemma_next_edge(
        403,
        83870144479808257179262074210,
        83918603769201930348540359140,
        83870144479808257179262073717,
        83918603769201930348540358646,
        19538822530117335345,
    );
    lemma_next_edge(
        404,
        83918603769201930348540359140,
        83967091057864510287365882866,
        83918603769201930348540358646,
        83967091057864510287365882371,
        19550111856745674808,
    );
    lemma_next_edge(
        405,
        83967091057864510287365882866,
        84015606361973680761277836799,
        83967091057864510287365882371,
        84015606361973680761277836303,
        19561407706228476195,
    );
    lemma_next_edge(
        406,
        84015606361973680761277836799,
        84064149697716472831735503798,
        84015606361973680761277836303,
        84064149697716472831735503301,
        19572710082334576369,
    );
    lemma_next_edge(
        407,
        84064149697716472831735503798,
        84112721081289270256887755461,
        84064149697716472831735503301,
        84112721081289270256887754963,
        19584018988834989783,
    );
    lemma_next_edge(
        408,
        84112721081289270256887755461,
        84161320528897814895463057361,
        84112721081289270256887754963,
        84161320528897814895463056861,
        19595334429502909746,
    );
    lemma_next_edge(
        409,
        84161320528897814895463057361,
        84209948056757212113781785218,
        84161320528897814895463056861,
        84209948056757212113781784716,
        19606656408113709678,
    );
    lemma_next_edge(
        410,
        84209948056757212113781785218,
        84258603681091936195892656053,
        84209948056757212113781784716,
        84258603681091936195892655550,
        19617984928444944368,
    );
}

proof fn lemma_edges_411_to_420()
    ensures
        edge_above(420) == 84746708806676119942045190353,
        edge_below(420) == 84746708806676119942045189835,
        bracket_is_tight(411),
        bracket_is_tight(412),
        bracket_is_tight(413),
        bracket_is_tight(414),
        bracket_is_tight(415),
        bracket_is_tight(416),
        bracket_is_tight(417),
        bracket_is_tight(418),
        bracket_is_tight(419),
        bracket_is_tight(420),
{
    lemma_edges_401_to_410();
    lemma_next_edge(
        411,
        84258603681091936195892656053,
        84307287418135835756835079400,
        84258603681091936195892655550,
        84307287418135835756835078896,
        19629319994276351239,
    );
    lemma_next_edge(
        412,
        84307287418135835756835079400,
        84355999284132139159029234700,
        84307287418135835756835078896,
        84355999284132139159029234194,
        19640661609389851606,
    );
    lemma_next_edge(
        413,
        84355999284132139159029234700,
        84404739295333459931795682043,
        84355999284132139159029234194,
        84404739295333459931795681536,
        19652009777569551937,
    );
    lemma_next_edge(
        414,
        84404739295333459931795682043,
        84453507468001802194006314477,
        84404739295333459931795681536,
        84453507468001802194006313969,
        19663364502601745118,
    );
    lemma_next_edge(
        415,
        84453507468001802194006314477,
        84502303818408566079868461130,
        84453507468001802194006313969,
        84502303818408566079868460621,
        19674725788274911717,
    );
    lemma_next_edge(
        416,
        84502303818408566079868461130,
        84551128362834553167843951455,
        84502303818408566079868460621,
        84551128362834553167843950944,
        19686093638379721243,
    );
    lemma_next_edge(
        417,
        84551128362834553167843951455,
        84599981117569971912704951938,
        84551128362834553167843950944,
        84599981117569971912704951425,
        19697468056709033417,
    );
    lemma_next_edge(
        418,
        84599981117569971912704951938,
        84648862098914443080728387673,
        84599981117569971912704951425,
        84648862098914443080728387158,
        19708849047057899433,
    );
    lemma_next_edge(
        419,
        84648862098914443080728387673,
        84697771323177005188030762236,
        84648862098914443080728387158,
        84697771323177005188030761720,
        19720236613223563226,
    );
    lemma_next_edge(
        420,
        84697771323177005188030762236,
        84746708806676119942045190353,
        84697771323177005188030761720,
        84746708806676119942045189835,
        19731630759005462738,
    );
}

proof fn lemma_edges_421_to_430()
    ensures
        edge_above(430) == 85237641496487730062592309619,
        edge_below(430) == 85237641496487730062592309087,
        bracket_is_tight(421),
        bracket_is_tight(422),
        bracket_is_tight(423),
        bracket_is_tight(424),
        bracket_is_tight(425),
        bracket_is_tight(426),
        bracket_is_tight(427),
        bracket_is_tight(428),
        bracket_is_tight(429),
        bracket_is_tight(430),
{
    lemma_edges_411_to_420();
    lemma_next_edge(
        421,
        84746708806676119942045190353,
        84795674565739677686142458895,
        84746708806676119942045189835,
        84795674565739677686142458375,
        19743031488205231188,
    );
    lemma_next_edge(
        422,
        84795674565739677686142458895,
        84844668616705002847397932792,
        84795674565739677686142458375,
        84844668616705002847397932271,
        19754438804626698338,
    );
    lemma_next_edge(
        423,
        84844668616705002847397932792,
        84893690975918859387506123500,
        84844668616705002847397932271,
        84893690975918859387506122977,
        19765852712075891762,
    );
    lemma_next_edge(
        424,
        84893690975918859387506123500,
        84942741659737456256844738702,
        84893690975918859387506122977,
        84942741659737456256844738178,
        19777273214361038119,
    );
    lemma_next_edge(
        425,
        84942741659737456256844738702,
        84991820684526452851690032991,
        84942741659737456256844738178,
        84991820684526452851690032465,
        19788700315292564420,
    );
    lemma_next_edge(
        426,
        84991820684526452851690032991,
        85040928066660964474585280312,
        84991820684526452851690032465,
        85040928066660964474585279785,
        19800134018683099299,
    );
    lemma_next_edge(
        427,
        85040928066660964474585280312,
        85090063822525567797864190016,
        85040928066660964474585279785,
        85090063822525567797864189488,
        19811574328347474290,
    );
    lemma_next_edge(
        428,
        85090063822525567797864190016,
        85139227968514306330331089405,
        85090063822525567797864189488,
        85139227968514306330331088876,
        19823021248102725095,
    );
    lemma_next_edge(
        429,
        85139227968514306330331089405,
        85188420521030695887099696728,
        85139227968514306330331088876,
        85188420521030695887099696197,
        19834474781768092860,
    );
    lemma_next_edge(
        430,
        85188420521030695887099696728,
        85237641496487730062592309619,
        85188420521030695887099696197,
        85237641496487730062592309087,
        19845934933165025447,
    );
}

proof fn lemma_edges_431_to_440()
    ensures
        edge_above(440) == 85731418130439701609036699886,
        edge_below(440) == 85731418130439701609036699341,
        bracket_is_tight(431),
        bracket_is_tight(432),
        bracket_is_tight(433),
        bracket_is_tight(434),
        bracket_is_tight(435),
        bracket_is_tight(436),
        bracket_is_tight(437),
        bracket_is_tight(438),
        bracket_is_tight(439),
        bracket_is_tight(440),
{
    lemma_edges_421_to_430();
    lemma_next_edge(
        431,
        85237641496487730062592309619,
        85286890911307885706701235039,
        85237641496487730062592309087,
        85286890911307885706701234505,
        19857401706117178711,
    );
    lemma_next_edge(
        432,
        85286890911307885706701235039,
        85336168781923128404114287824,
        85286890911307885706701234505,
        85336168781923128404114287289,
        19868875104450417777,
    );
    lemma_next_edge(
        433,
        85336168781923128404114287824,
        85385475124774917956806186013,
        85336168781923128404114287289,
        85385475124774917956806185477,
        19880355131992818312,
    );
    lemma_next_edge(
        434,
        85385475124774917956806186013,
        85434809956314213869697672173,
        85385475124774917956806185477,
        85434809956314213869697671636,
        19891841792574667808,
    );
    lemma_next_edge(
        435,
        85434809956314213869697672173,
        85484173293001480839484190998,
        85434809956314213869697671636,
        85484173293001480839484190459,
        19903335090028466853,
    );
    lemma_next_edge(
        436,
        85484173293001480839484190998,
        85533565151306694246635954524,
        85484173293001480839484190459,
        85533565151306694246635953984,
        19914835028188930417,
    );
    lemma_next_edge(
        437,
        85533565151306694246635954524,
        85582985547709345650571227354,
        85533565151306694246635953984,
        85582985547709345650571226813,
        19926341610892989126,
    );
    lemma_next_edge(
        438,
        85582985547709345650571227354,
        85632434498698448288004665337,
        85582985547709345650571226813,
        85632434498698448288004664795,
        19937854841979790547,
    );
    lemma_next_edge(
        439,
        85632434498698448288004665337,
        85681912020772542574472542227,
        85632434498698448288004664795,
        85681912020772542574472541684,
        19949374725290700462,
    );
    lemma_next_edge(
        440,
        85681912020772542574472542227,
        85731418130439701609036699886,
        85681912020772542574472541684,
        85731418130439701609036699341,
        19960901264669304157,
    );
}

proof fn lemma_edges_441_to_450()
    ensures
        edge_above(450) == 86228055183332839962204525009,
        edge_below(450) == 86228055183332839962204524450,
        bracket_is_tight(441),
        bracket_is_tight(442),
        bracket_is_tight(443),
        bracket_is_tight(444),
        bracket_is_tight(445),
        bracket_is_tight(446),
        bracket_is_tight(447),
        bracket_is_tight(448),
        bracket_is_tight(449),
        bracket_is_tight(450),
{
    lemma_edges_431_to_440();
    lemma_next_edge(
        441,
        85731418130439701609036699886,
        85780952844217536682169058662,
        85731418130439701609036699341,
        85780952844217536682169058116,
        19972434463961407702,
    );
    lemma_next_edge(
        442,
        85780952844217536682169058662,
        85830516178633202786818525649,
        85780952844217536682169058116,
        85830516178633202786818525101,
        19983974327015039229,
    );
    lemma_next_edge(
        443,
        85830516178633202786818525649,
        85880108150223404132662139567,
        85830516178633202786818525101,
        85880108150223404132662139018,
        19995520857680450225,
    );
    lemma_next_edge(
        444,
        85880108150223404132662139567,
        85929728775534399663542292099,
        85880108150223404132662139018,
        85929728775534399663542291548,
        20007074059810116809,
    );
    lemma_next_edge(
        445,
        85929728775534399663542292099,
        85979378071122008578091866549,
        85929728775534399663542291548,
        85979378071122008578091865996,
        20018633937258741022,
    );
    lemma_next_edge(
        446,
        85979378071122008578091866549,
        86029056053551615853549135781,
        85979378071122008578091865996,
        86029056053551615853549135227,
        20030200493883252110,
    );
    lemma_next_edge(
        447,
        86029056053551615853549135781,
        86078762739398177772764262440,
        86029056053551615853549135227,
        86078762739398177772764261885,
        20041773733542807813,
    );
    lemma_next_edge(
        448,
        86078762739398177772764262440,
        86128498145246227454399245532,
        86078762739398177772764261885,
        86128498145246227454399244976,
        20053353660098795653,
    );
    lemma_next_edge(
        449,
        86128498145246227454399245532,
        86178262287689880386323158500,
        86128498145246227454399244976,
        86178262287689880386323157943,
        20064940277414834217,
    );
    lemma_next_edge(
        450,
        86178262287689880386323158500,
        86228055183332839962204525009,
        86178262287689880386323157943,
        86228055183332839962204524450,
        20076533589356774456,
    );
}

proof fn lemma_edges_451_to_460()
    ensures
        edge_above(460) == 86727569225405500673117315688,
        edge_below(460) == 86727569225405500673117315115,
        bracket_is_tight(451),
        bracket_is_tight(452),
        bracket_is_tight(453),
        bracket_is_tight(454),
        bracket_is_tight(455),
        bracket_is_tight(456),
        bracket_is_tight(457),
        bracket_is_tight(458),
        bracket_is_tight(459),
        bracket_is_tight(460),
{
    lemma_edges_441_to_450();
    lemma_next_edge(
        451,
        86228055183332839962204525009,
        86277876848788403021302679700,
        86228055183332839962204524450,
        86277876848788403021302679140,
        20088133599792700965,
    );
    lemma_next_edge(
        452,
        86277876848788403021302679700,
        86327727300679465391459962272,
        86277876848788403021302679140,
        86327727300679465391459961710,
        20099740312592933279,
    );
    lemma_next_edge(
        453,
        86327727300679465391459962272,
        86377606555638527435296594276,
        86327727300679465391459961710,
        86377606555638527435296593713,
        20111353731630027163,
    );
    lemma_next_edge(
        454,
        86377606555638527435296594276,
        86427514630307699599610089121,
        86377606555638527435296593713,
        86427514630307699599610088556,
        20122973860778775905,
    );
    lemma_next_edge(
        455,
        86427514630307699599610089121,
        86477451541338707967981046819,
        86427514630307699599610088556,
        86477451541338707967981046253,
        20134600703916211606,
    );
    lemma_next_edge(
        456,
        86477451541338707967981046819,
        86527417305392899816587186098,
        86477451541338707967981046253,
        86527417305392899816587185530,
        20146234264921606476,
    );
    lemma_next_edge(
        457,
        86527417305392899816587186098,
        86577411939141249173227467557,
        86527417305392899816587185530,
        86577411939141249173227466988,
        20157874547676474130,
    );
    lemma_next_edge(
        458,
        86577411939141249173227467557,
        86627435459264362379558162634,
        86577411939141249173227466988,
        86627435459264362379558162063,
        20169521556064570877,
    );
    lemma_next_edge(
        459,
        86627435459264362379558162634,
        86677487882452483656542724199,
        86627435459264362379558162063,
        86677487882452483656542723627,
        20181175293971897023,
    );
    lemma_next_edge(
        460,
        86677487882452483656542724199,
        86727569225405500673117315688,
        86677487882452483656542723627,
        86727569225405500673117315115,
        20192835765286698163,
    );
}

proof fn lemma_edges_461_to_470()
    ensures
        edge_above(470) == 87229976922886453566788216408,
        edge_below(470) == 87229976922886453566788215823,
        bracket_is_tight(461),
        bracket_is_tight(462),
        bracket_is_tight(463),
        bracket_is_tight(464),
        bracket_is_tight(465),
        bracket_is_tight(466),
        bracket_is_tight(467),
        bracket_is_tight(468),
        bracket_is_tight(469),
        bracket_is_tight(470),
{
    lemma_edges_451_to_460();
    lemma_next_edge(
        461,
        86727569225405500673117315688,
        86777679504832950118073856743,
        86727569225405500673117315115,
        86777679504832950118073856169,
        20204502973899466479,
    );
    lemma_next_edge(
        462,
        86777679504832950118073856743,
        86827818737454023275162444406,
        86777679504832950118073856169,
        86827818737454023275162443831,
        20216176923702942039,
    );
    lemma_next_edge(
        463,
        86827818737454023275162444406,
        86877986939997571601415009993,
        86827818737454023275162443831,
        86877986939997571601415009416,
        20227857618592114095,
    );
    lemma_next_edge(
        464,
        86877986939997571601415009993,
        86928184129202112308692072837,
        86877986939997571601415009416,
        86928184129202112308692072259,
        20239545062464222384,
    );
    lemma_next_edge(
        465,
        86928184129202112308692072837,
        86978410321815833948454453181,
        86928184129202112308692072259,
        86978410321815833948454452602,
        20251239259218758426,
    );
    lemma_next_edge(
        466,
        86978410321815833948454453181,
        87028665534596601999761807559,
        86978410321815833948454452602,
        87028665534596601999761806979,
        20262940212757466827,
    );
    lemma_next_edge(
        467,
        87028665534596601999761807559,
        87078949784311964460499851094,
        87028665534596601999761806979,
        87078949784311964460499850513,
        20274647926984346579,
    );
    lemma_next_edge(
        468,
        87078949784311964460499851094,
        87129263087739157441838132216,
        87078949784311964460499850513,
        87129263087739157441838131634,
        20286362405805652366,
    );
    lemma_next_edge(
        469,
        87129263087739157441838132216,
        87179605461665110765920226375,
        87129263087739157441838131634,
        87179605461665110765920225791,
        20298083653129895862,
    );
    lemma_next_edge(
        470,
        87179605461665110765920226375,
        87229976922886453566788216408,
        87179605461665110765920225791,
        87229976922886453566788215823,
        20309811672867847041,
    );
}

proof fn lemma_edges_471_to_480()
    ensures
        edge_above(480) == 87735295038550949555190055639,
        edge_below(480) == 87735295038550949555190055040,
        bracket_is_tight(471),
        bracket_is_tight(472),
        bracket_is_tight(473),
        bracket_is_tight(474),
        bracket_is_tight(475),
        bracket_is_tight(476),
        bracket_is_tight(477),
        bracket_is_tight(478),
        bracket_is_tight(479),
        bracket_is_tight(480),
{
    lemma_edges_461_to_470();
    lemma_next_edge(
        471,
        87229976922886453566788216408,
        87280377488209519894543328302,
        87229976922886453566788215823,
        87280377488209519894543327716,
        20321546468932535475,
    );
    lemma_next_edge(
        472,
        87280377488209519894543328302,
        87330807174450354322744592161,
        87280377488209519894543327716,
        87330807174450354322744591574,
        20333288045239251648,
    );
    lemma_next_edge(
        473,
        87330807174450354322744592161,
        87381265998434717559047399281,
        87330807174450354322744591574,
        87381265998434717559047398692,
        20345036405705548255,
    );
    lemma_next_edge(
        474,
        87381265998434717559047399281,
        87431753976998092059083827305,
        87381265998434717559047398692,
        87431753976998092059083826714,
        20356791554251241512,
    );
    lemma_next_edge(
        475,
        87431753976998092059083827305,
        87482271126985687643586606526,
        87431753976998092059083826714,
        87482271126985687643586605934,
        20368553494798412464,
    );
    lemma_next_edge(
        476,
        87482271126985687643586606526,
        87532817465252447118758601472,
        87482271126985687643586605934,
        87532817465252447118758600878,
        20380322231271408294,
    );
    lemma_next_edge(
        477,
        87532817465252447118758601472,
        87583393008663051899889682998,
        87532817465252447118758600878,
        87583393008663051899889682402,
        20392097767596843630,
    );
    lemma_next_edge(
        478,
        87583393008663051899889682998,
        87633997774091927638222867200,
        87583393008663051899889682402,
        87633997774091927638222866603,
        20403880107703601858,
    );
    lemma_next_edge(
        479,
        87633997774091927638222867200,
        87684631778423249851071598537,
        87633997774091927638222866603,
        87684631778423249851071597939,
        20415669255522836431,
    );
    lemma_next_edge(
        480,
        87684631778423249851071598537,
        87735295038550949555190055639,
        87684631778423249851071597939,
        87735295038550949555190055040,
        20427465214987972183,
    );
}

proof fn lemma_edges_481_to_490()
    ensures
        edge_above(490) == 88243540432280008712500729130,
        edge_below(490) == 88243540432280008712500728517,
        bracket_is_tight(481),
        bracket_is_tight(482),
        bracket_is_tight(483),
        bracket_is_tight(484),
        bracket_is_tight(485),
        bracket_is_tight(486),
        bracket_is_tight(487),
        bracket_is_tight(488),
        bracket_is_tight(489),
        bracket_is_tight(490),
{
    lemma_edges_471_to_480();
    lemma_next_edge(
        481,
        87735295038550949555190055639,
        87785987571378718903398359365,
        87735295038550949555190055040,
        87785987571378718903398358765,
        20439267990034706636,
    );
    lemma_next_edge(
        482,
        87785987571378718903398359365,
        87836709393820016824464563760,
        87785987571378718903398358765,
        87836709393820016824464563158,
        20451077584601011320,
    );
    lemma_next_edge(
        483,
        87836709393820016824464563760,
        87887460522798074666245311640,
        87836709393820016824464563158,
        87887460522798074666245311037,
        20462894002627133082,
    );
    lemma_next_edge(
        484,
        87887460522798074666245311640,
        87938240975245901842087037639,
        87887460522798074666245311037,
        87938240975245901842087037035,
        20474717248055595403,
    );
    lemma_next_edge(
        485,
        87938240975245901842087037639,
        87989050768106291480489602615,
        87938240975245901842087037035,
        87989050768106291480489602009,
        20486547324831199712,
    );
    lemma_next_edge(
        486,
        87989050768106291480489602615,
        88039889918331826078034244420,
        87989050768106291480489602009,
        88039889918331826078034243812,
        20498384236901026703,
    );
    lemma_next_edge(
        487,
        88039889918331826078034244420,
        88090758442884883155577731124,
        88039889918331826078034243812,
        88090758442884883155577730515,
        20510227988214437654,
    );
    lemma_next_edge(
        488,
        88090758442884883155577731124,
        88141656358737640917714603868,
        88090758442884883155577730515,
        88141656358737640917714603258,
        20522078582723075738,
    );
    lemma_next_edge(
        489,
        88141656358737640917714603868,
        88192583682872083915509397610,
        88141656358737640917714603258,
        88192583682872083915509396999,
        20533936024380867350,
    );
    lemma_next_edge(
        490,
        88192583682872083915509397610,
        88243540432280008712500729130,
        88192583682872083915509396999,
        88243540432280008712500728517,
        20545800317144023421,
    );
}

proof fn lemma_edges_491_to_500()
    ensures
        edge_above(500) == 88754730061622948273208432905,
        edge_below(500) == 88754730061622948273208432275,
        bracket_is_tight(491),
        bracket_is_tight(492),
        bracket_is_tight(493),
        bracket_is_tight(494),
        bracket_is_tight(495),
        bracket_is_tight(496),
        bracket_is_tight(497),
        bracket_is_tight(498),
        bracket_is_tight(499),
        bracket_is_tight(500),
{
    lemma_edges_481_to_490();
    lemma_next_edge(
        491,
        88243540432280008712500729130,
        88294526623963029553979142738,
        88243540432280008712500728517,
        88294526623963029553979142124,
        20557671464971040738,
    );
    lemma_next_edge(
        492,
        88294526623963029553979142738,
        88345542274932584039540605236,
        88294526623963029553979142124,
        88345542274932584039540604620,
        20569549471822703267,
    );
    lemma_next_edge(
        493,
        88345542274932584039540605236,
        88396587402209938798917542758,
        88345542274932584039540604620,
        88396587402209938798917542140,
        20581434341662083473,
    );
    lemma_next_edge(
        494,
        88396587402209938798917542758,
        88447662022826195171089313230,
        88396587402209938798917542140,
        88447662022826195171089312610,
        20593326078454543644,
    );
    lemma_next_edge(
        495,
        88447662022826195171089313230,
        88498766153822294886674009265,
        88447662022826195171089312610,
        88498766153822294886674008643,
        20605224686167737210,
    );
    lemma_next_edge(
        496,
        88498766153822294886674009265,
        88549899812249025753603487413,
        88498766153822294886674008643,
        88549899812249025753603486790,
        20617130168771610073,
    );
    lemma_next_edge(
        497,
        88549899812249025753603487413,
        88601063015167027346083520784,
        88549899812249025753603486790,
        88601063015167027346083520159,
        20629042530238401924,
    );
    lemma_next_edge(
        498,
        88601063015167027346083520784,
        88652255779646796696840973145,
        88601063015167027346083520159,
        88652255779646796696840972519,
        20640961774542647577,
    );
    lemma_next_edge(
        499,
        88652255779646796696840973145,
        88703478122768693992659893708,
        88652255779646796696840972519,
        88703478122768693992659893080,
        20652887905661178286,
    );
    lemma_next_edge(
        500,
        88703478122768693992659893708,
        88754730061622948273208432905,
        88703478122768693992659893080,
        88754730061622948273208432275,
        20664820927573123080,
    );
}

proof fn lemma_edges_501_to_510()
    ensures
        edge_above(510) == 89268880982363169321758937416,
        edge_below(510) == 89268880982363169321758936774,
        bracket_is_tight(501),
        bracket_is_tight(502),
        bracket_is_tight(503),
        bracket_is_tight(504),
        bracket_is_tight(505),
        bracket_is_tight(506),
        bracket_is_tight(507),
        bracket_is_tight(508),
        bracket_is_tight(509),
        bracket_is_tight(510),
{
    lemma_edges_491_to_500();
    lemma_next_edge(
        501,
        88754730061622948273208432905,
        88806011613309663133158480555,
        88754730061622948273208432275,
        88806011613309663133158479924,
        20676760844259910084,
    );
    lemma_next_edge(
        502,
        88806011613309663133158480555,
        88857322794938822427599928925,
        88806011613309663133158479924,
        88857322794938822427599928293,
        20688707659705267854,
    );
    lemma_next_edge(
        503,
        88857322794938822427599928925,
        88908663623630295980751464280,
        88857322794938822427599928293,
        88908663623630295980751463646,
        20700661377895226698,
    );
    lemma_next_edge(
        504,
        88908663623630295980751464280,
        88960034116513845297969791624,
        88908663623630295980751463646,
        88960034116513845297969790989,
        20712622002818120015,
    );
    lemma_next_edge(
        505,
        88960034116513845297969791624,
        89011434290729129281059198437,
        88960034116513845297969790989,
        89011434290729129281059197801,
        20724589538464585618,
    );
    lemma_next_edge(
        506,
        89011434290729129281059198437,
        89062864163425709946883364299,
        89011434290729129281059197801,
        89062864163425709946883363662,
        20736563988827567070,
    );
    lemma_next_edge(
        507,
        89062864163425709946883364299,
        89114323751763058149281324413,
        89062864163425709946883363662,
        89114323751763058149281323775,
        20748545357902315015,
    );
    lemma_next_edge(
        508,
        89114323751763058149281324413,
        89165813072910559304289496129,
        89114323751763058149281323775,
        89165813072910559304289495490,
        20760533649686388510,
    );
    lemma_next_edge(
        509,
        89165813072910559304289496129,
        89217332144047519118671678676,
        89165813072910559304289495490,
        89217332144047519118671678035,
        20772528868179656360,
    );
    lemma_next_edge(
        510,
        89217332144047519118671678676,
        89268880982363169321758937416,
        89217332144047519118671678035,
        89268880982363169321758936774,
        20784531017384298454,
    );
}

proof fn lemma_edges_511_to_520()
    ensures
        edge_above(520) == 89786010349087221051152964260,
        edge_below(520) == 89786010349087221051152963605,
        bracket_is_tight(511),
        bracket_is_tight(512),
        bracket_is_tight(513),
        bracket_is_tight(514),
        bracket_is_tight(515),
        bracket_is_tight(516),
        bracket_is_tight(517),
        bracket_is_tight(518),
        bracket_is_tight(519),
        bracket_is_tight(520),
{
    lemma_edges_501_to_510();
    lemma_next_edge(
        511,
        89268880982363169321758937416,
        89320459605056673400601285039,
        89268880982363169321758936774,
        89320459605056673400601284395,
        20796540101304807095,
    );
    lemma_next_edge(
        512,
        89320459605056673400601285039,
        89372068029337132338433073214,
        89320459605056673400601284395,
        89372068029337132338433072569,
        20808556123947988344,
    );
    lemma_next_edge(
        513,
        89372068029337132338433073214,
        89423706272423590356454009331,
        89372068029337132338433072569,
        89423706272423590356454008685,
        20820579089322963347,
    );
    lemma_next_edge(
        514,
        89423706272423590356454009331,
        89475374351545040658927714060,
        89423706272423590356454008685,
        89475374351545040658927713413,
        20832609001441169684,
    );
    lemma_next_edge(
        515,
        89475374351545040658927714060,
        89527072283940431181599736572,
        89475374351545040658927713413,
        89527072283940431181599735924,
        20844645864316362698,
    );
    lemma_next_edge(
        516,
        89527072283940431181599736572,
        89578800086858670343436945371,
        89527072283940431181599735924,
        89578800086858670343436944721,
        20856689681964616837,
    );
    lemma_next_edge(
        517,
        89578800086858670343436945371,
        89630557777558632801690213784,
        89578800086858670343436944721,
        89630557777558632801690213132,
        20868740458404326999,
    );
    lemma_next_edge(
        518,
        89630557777558632801690213784,
        89682345373309165210282320287,
        89630557777558632801690213132,
        89682345373309165210282319634,
        20880798197656209863,
    );
    lemma_next_edge(
        519,
        89682345373309165210282320287,
        89734162891389091981522984932,
        89682345373309165210282319634,
        89734162891389091981522984278,
        20892862903743305240,
    );
    lemma_next_edge(
        520,
        89734162891389091981522984932,
        89786010349087221051152964260,
        89734162891389091981522984278,
        89786010349087221051152963605,
        20904934580690977409,
    );
}

proof fn lemma_edges_521_to_530()
    ensures
        edge_above(530) == 90306135415757161577257439183,
        edge_below(530) == 90306135415757161577257438511,
        bracket_is_tight(521),
        bracket_is_tight(522),
        bracket_is_tight(523),
        bracket_is_tight(524),
        bracket_is_tight(525),
        bracket_is_tight(526),
        bracket_is_tight(527),
        bracket_is_tight(528),
        bracket_is_tight(529),
        bracket_is_tight(530),
{
    lemma_edges_511_to_520();
    lemma_next_edge(
        521,
        89786010349087221051152964260,
        89837887763702349646719128201,
        89786010349087221051152963605,
        89837887763702349646719127544,
        20917013232526916463,
    );
    lemma_next_edge(
        522,
        89837887763702349646719128201,
        89889795152543270059282443556,
        89837887763702349646719127544,
        89889795152543270059282442898,
        20929098863281139653,
    );
    lemma_next_edge(
        523,
        89889795152543270059282443556,
        89941732532928775418460789797,
        89889795152543270059282442898,
        89941732532928775418460789138,
        20941191476985992729,
    );
    lemma_next_edge(
        524,
        89941732532928775418460789797,
        89993699922187665470808533998,
        89941732532928775418460789138,
        89993699922187665470808533337,
        20953291077676151291,
    );
    lemma_next_edge(
        525,
        89993699922187665470808533998,
        90045697337658752361534792850,
        89993699922187665470808533337,
        90045697337658752361534792187,
        20965397669388622130,
    );
    lemma_next_edge(
        526,
        90045697337658752361534792850,
        90097724796690866419562310822,
        90045697337658752361534792187,
        90097724796690866419562310157,
        20977511256162744579,
    );
    lemma_next_edge(
        527,
        90097724796690866419562310822,
        90149782316642861945928884632,
        90097724796690866419562310157,
        90149782316642861945928883965,
        20989631842040191858,
    );
    lemma_next_edge(
        528,
        90149782316642861945928884632,
        90201869914883623005533265324,
        90149782316642861945928883965,
        90201869914883623005533264656,
        21001759431064972423,
    );
    lemma_next_edge(
        529,
        90201869914883623005533265324,
        90253987608792069222227470351,
        90201869914883623005533264656,
        90253987608792069222227469681,
        21013894027283431316,
    );
    lemma_next_edge(
        530,
        90253987608792069222227470351,
        90306135415757161577257439183,
        90253987608792069222227469681,
        90306135415757161577257438511,
        21026035634744251515,
    );
}

proof fn lemma_edges_531_to_540()
    ensures
        edge_above(540) == 90829273536286234405583598777,
        edge_below(540) == 90829273536286234405583598092,
        bracket_is_tight(531),
        bracket_is_tight(532),
        bracket_is_tight(533),
        bracket_is_tight(534),
        bracket_is_tight(535),
        bracket_is_tight(536),
        bracket_is_tight(537),
        bracket_is_tight(538),
        bracket_is_tight(539),
        bracket_is_tight(540),
{
    lemma_edges_521_to_530();
    lemma_next_edge(
        531,
        90306135415757161577257439183,
        90358313353177908211053967083,
        90306135415757161577257438511,
        90358313353177908211053966410,
        21038184257498455284,
    );
    lemma_next_edge(
        532,
        90358313353177908211053967083,
        90410521438463370228375852804,
        90358313353177908211053966410,
        90410521438463370228375852130,
        21050339899599405525,
    );
    lemma_next_edge(
        533,
        90410521438463370228375852804,
        90462759689032667506807197079,
        90410521438463370228375852130,
        90462759689032667506807196404,
        21062502565102807132,
    );
    lemma_next_edge(
        534,
        90462759689032667506807197079,
        90515028122314984508610789900,
        90462759689032667506807196404,
        90515028122314984508610789223,
        21074672258066708341,
    );
    lemma_next_edge(
        535,
        90515028122314984508610789900,
        90567326755749576095939525696,
        90515028122314984508610789223,
        90567326755749576095939525018,
        21086848982551502087,
    );
    lemma_next_edge(
        536,
        90567326755749576095939525696,
        90619655606785773349407786648,
        90567326755749576095939525018,
        90619655606785773349407785969,
        21099032742619927356,
    );
    lemma_next_edge(
        537,
        90619655606785773349407786648,
        90672014692882989390024735491,
        90619655606785773349407785969,
        90672014692882989390024734811,
        21111223542337070543,
    );
    lemma_next_edge(
        538,
        90672014692882989390024735491,
        90724404031510725204491460280,
        90672014692882989390024734811,
        90724404031510725204491459599,
        21123421385770366808,
    );
    lemma_next_edge(
        539,
        90724404031510725204491460280,
        90776823640148575473863914720,
        90724404031510725204491459599,
        90776823640148575473863914037,
        21135626276989601430,
    );
    lemma_next_edge(
        540,
        90776823640148575473863914720,
        90829273536286234405583598777,
        90776823640148575473863914037,
        90829273536286234405583598092,
        21147838220066911170,
    );
}

proof fn lemma_edges_541_to_550()
    ensures
        edge_above(550) == 91355442165117879757911292851,
        edge_below(550) == 91355442165117879757911292150,
        bracket_is_tight(541),
        bracket_is_tight(542),
        bracket_is_tight(543),
        bracket_is_tight(544),
        bracket_is_tight(545),
        bracket_is_tight(546),
        bracket_is_tight(547),
        bracket_is_tight(548),
        bracket_is_tight(549),
        bracket_is_tight(550),
{
    lemma_edges_531_to_540();
    lemma_next_edge(
        541,
        90829273536286234405583598777,
        90881753737423501568877925423,
        90829273536286234405583598092,
        90881753737423501568877924736,
        21160057219076785625,
    );
    lemma_next_edge(
        542,
        90881753737423501568877925423,
        90934264261070287733532220476,
        90881753737423501568877924736,
        90934264261070287733532219788,
        21172283278096068589,
    );
    lemma_next_edge(
        543,
        90934264261070287733532220476,
        90986805124746620712035303635,
        90934264261070287733532219788,
        90986805124746620712035302945,
        21184516401203959415,
    );
    lemma_next_edge(
        544,
        90986805124746620712035303635,
        91039376345982651205100599923,
        90986805124746620712035302945,
        91039376345982651205100599232,
        21196756592482014375,
    );
    lemma_next_edge(
        545,
        91039376345982651205100599923,
        91091977942318658650564731896,
        91039376345982651205100599232,
        91091977942318658650564731204,
        21209003856014148018,
    );
    lemma_next_edge(
        546,
        91091977942318658650564731896,
        91144609931305057075665544076,
        91091977942318658650564731204,
        91144609931305057075665543382,
        21221258195886634541,
    );
    lemma_next_edge(
        547,
        91144609931305057075665544076,
        91197272330502400952701512220,
        91144609931305057075665543382,
        91197272330502400952701511524,
        21233519616188109143,
    );
    lemma_next_edge(
        548,
        91197272330502400952701512220,
        91249965157481391058074491149,
        91197272330502400952701511524,
        91249965157481391058074490451,
        21245788121009569396,
    );
    lemma_next_edge(
        549,
        91249965157481391058074491149,
        91302688429822880334717755994,
        91249965157481391058074490451,
        91302688429822880334717755295,
        21258063714444376607,
    );
    lemma_next_edge(
        550,
        91302688429822880334717755994,
        91355442165117879757911292851,
        91302688429822880334717755295,
        91355442165117879757911292150,
        21270346400588257182,
    );
}

proof fn lemma_edges_551_to_560()
    ensures
        edge_above(560) == 91884658857808100077406040989,
        edge_below(560) == 91884658857808100077406040275,
        bracket_is_tight(551),
        bracket_is_tight(552),
        bracket_is_tight(553),
        bracket_is_tight(554),
        bracket_is_tight(555),
        bracket_is_tight(556),
        bracket_is_tight(557),
        bracket_is_tight(558),
        bracket_is_tight(559),
        bracket_is_tight(560),
{
    lemma_edges_541_to_550();
    lemma_next_edge(
        551,
        91355442165117879757911292851,
        91408226380967564204486295952,
        91355442165117879757911292150,
        91408226380967564204486295249,
        21282636183539303999,
    );
    lemma_next_edge(
        552,
        91408226380967564204486295952,
        91461041094983278325420829610,
        91408226380967564204486295249,
        91461041094983278325420828906,
        21294933067397977767,
    );
    lemma_next_edge(
        553,
        91461041094983278325420829610,
        91513886324786542421828614317,
        91461041094983278325420828906,
        91513886324786542421828613612,
        21307237056267108401,
    );
    lemma_next_edge(
        554,
        91513886324786542421828614317,
        91566762088009058324342897496,
        91513886324786542421828613612,
        91566762088009058324342896789,
        21319548154251896387,
    );
    lemma_next_edge(
        555,
        91566762088009058324342897496,
        91619668402292715275897370562,
        91566762088009058324342896789,
        91619668402292715275897369854,
        21331866365459914151,
    );
    lemma_next_edge(
        556,
        91619668402292715275897370562,
        91672605285289595817906095070,
        91619668402292715275897369854,
        91672605285289595817906094361,
        21344191694001107435,
    );
    lemma_next_edge(
        557,
        91672605285289595817906095070,
        91725572754661981679844401851,
        91672605285289595817906094361,
        91725572754661981679844401141,
        21356524143987796661,
    );
    lemma_next_edge(
        558,
        91725572754661981679844401851,
        91778570828082359672232728195,
        91725572754661981679844401141,
        91778570828082359672232727484,
        21368863719534678309,
    );
    lemma_next_edge(
        559,
        91778570828082359672232728195,
        91831599523233427583025359254,
        91778570828082359672232727484,
        91831599523233427583025358542,
        21381210424758826286,
    );
    lemma_next_edge(
        560,
        91831599523233427583025359254,
        91884658857808100077406040989,
        91831599523233427583025358542,
        91884658857808100077406040275,
        21393564263779693302,
    );
}

proof fn lemma_edges_561_to_570()
    ensures
        edge_above(570) == 92416941271611199142787182942,
        edge_below(570) == 92416941271611199142787182215,
        bracket_is_tight(561),
        bracket_is_tight(562),
        bracket_is_tight(563),
        bracket_is_tight(564),
        bracket_is_tight(565),
        bracket_is_tight(566),
        bracket_is_tight(567),
        bracket_is_tight(568),
        bracket_is_tight(569),
        bracket_is_tight(570),
{
    lemma_edges_551_to_560();
    lemma_next_edge(
        561,
        91884658857808100077406040989,
        91937748849509514600992433111,
        91884658857808100077406040275,
        91937748849509514600992432395,
        21405925240719112242,
    );
    lemma_next_edge(
        562,
        91937748849509514600992433111,
        91990869516051037286451371610,
        91937748849509514600992432395,
        91990869516051037286451370893,
        21418293359701297546,
    );
    lemma_next_edge(
        563,
        91990869516051037286451371610,
        92044020875156268863526911605,
        91990869516051037286451370893,
        92044020875156268863526910886,
        21430668624852846578,
    );
    lemma_next_edge(
        564,
        92044020875156268863526911605,
        92097202944559050572483122375,
        92044020875156268863526910886,
        92097202944559050572483121655,
        21443051040302741009,
    );
    lemma_next_edge(
        565,
        92097202944559050572483122375,
        92150415742003470080963607591,
        92097202944559050572483121655,
        92150415742003470080963606870,
        21455440610182348192,
    );
    lemma_next_edge(
        566,
        92150415742003470080963607591,
        92203659285243867404269724886,
        92150415742003470080963606870,
        92203659285243867404269724164,
        21467837338625422541,
    );
    lemma_next_edge(
        567,
        92203659285243867404269724886,
        92256933592044840829059480057,
        92203659285243867404269724164,
        92256933592044840829059479334,
        21480241229768106907,
    );
    lemma_next_edge(
        568,
        92256933592044840829059480057,
        92310238680181252840469072329,
        92256933592044840829059479334,
        92310238680181252840469071604,
        21492652287748933966,
    );
    lemma_next_edge(
        569,
        92310238680181252840469072329,
        92363574567438236052659068251,
        92310238680181252840469071604,
        92363574567438236052659067525,
        21505070516708827590,
    );
    lemma_next_edge(
        570,
        92363574567438236052659068251,
        92416941271611199142787182942,
        92363574567438236052659067525,
        92416941271611199142787182215,
        21517495920791104237,
    );
}

proof fn lemma_edges_571_to_580()
    ensures
        edge_above(580) == 92952307166068914334665541770,
        edge_below(580) == 92952307166068914334665541027,
        bracket_is_tight(571),
        bracket_is_tight(572),
        bracket_is_tight(573),
        bracket_is_tight(574),
        bracket_is_tight(575),
        bracket_is_tight(576),
        bracket_is_tight(577),
        bracket_is_tight(578),
        bracket_is_tight(579),
        bracket_is_tight(580),
{
    lemma_edges_561_to_570();
    lemma_next_edge(
        571,
        92416941271611199142787182942,
        92470338810505832788409648538,
        92416941271611199142787182215,
        92470338810505832788409647809,
        21529928504141474327,
    );
    lemma_next_edge(
        572,
        92470338810505832788409648538,
        92523767201938115608313150848,
        92470338810505832788409647809,
        92523767201938115608313150117,
        21542368270908043629,
    );
    lemma_next_edge(
        573,
        92523767201938115608313150848,
        92577226463734320106779316364,
        92523767201938115608313150117,
        92577226463734320106779315632,
        21554815225241314645,
    );
    lemma_next_edge(
        574,
        92577226463734320106779316364,
        92630716613731018621283732916,
        92577226463734320106779315632,
        92630716613731018621283732183,
        21567269371294187993,
    );
    lemma_next_edge(
        575,
        92630716613731018621283732916,
        92684237669775089273631488406,
        92630716613731018621283732183,
        92684237669775089273631487672,
        21579730713221963792,
    );
    lemma_next_edge(
        576,
        92684237669775089273631488406,
        92737789649723721924531213213,
        92684237669775089273631487672,
        92737789649723721924531212477,
        21592199255182343052,
    );
    lemma_next_edge(
        577,
        92737789649723721924531213213,
        92791372571444424131609612991,
        92737789649723721924531212477,
        92791372571444424131609612253,
        21604675001335429059,
    );
    lemma_next_edge(
        578,
        92791372571444424131609612991,
        92844986452815027110868479747,
        92791372571444424131609612253,
        92844986452815027110868479008,
        21617157955843728760,
    );
    lemma_next_edge(
        579,
        92844986452815027110868479747,
        92898631311723691701586170226,
        92844986452815027110868479008,
        92898631311723691701586169485,
        21629648122872154159,
    );
    lemma_next_edge(
        580,
        92898631311723691701586170226,
        92952307166068914334665541770,
        92898631311723691701586169485,
        92952307166068914334665541027,
        21642145506588023700,
    );
}

proof fn lemma_edges_581_to_590()
    ensures
        edge_above(590) == 93490774403602961710381152002,
        edge_below(590) == 93490774403602961710381151240,
        bracket_is_tight(581),
        bracket_is_tight(582),
        bracket_is_tight(583),
        bracket_is_tight(584),
        bracket_is_tight(585),
        bracket_is_tight(586),
        bracket_is_tight(587),
        bracket_is_tight(588),
        bracket_is_tight(589),
        bracket_is_tight(590),
{
    lemma_edges_571_to_580();
    lemma_next_edge(
        581,
        92952307166068914334665541770,
        93006014033759533004430336994,
        92952307166068914334665541027,
        93006014033759533004430336250,
        21654650111161063660,
    );
    lemma_next_edge(
        582,
        93006014033759533004430336994,
        93059751932714733243872009745,
        93006014033759533004430336250,
        93059751932714733243872008999,
        21667161940763409540,
    );
    lemma_next_edge(
        583,
        93059751932714733243872009745,
        93113520880864054103348985975,
        93059751932714733243872008999,
        93113520880864054103348985227,
        21679680999569607457,
    );
    lemma_next_edge(
        584,
        93113520880864054103348985975,
        93167320896147394132740354311,
        93113520880864054103348985227,
        93167320896147394132740353561,
        21692207291756615540,
    );
    lemma_next_edge(
        585,
        93167320896147394132740354311,
        93221151996515017367055982255,
        93167320896147394132740353561,
        93221151996515017367055981503,
        21704740821503805315,
    );
    lemma_next_edge(
        586,
        93221151996515017367055982255,
        93275014199927559315505055098,
        93221151996515017367055981503,
        93275014199927559315505054344,
        21717281592992963110,
    );
    lemma_next_edge(
        587,
        93275014199927559315505055098,
        93328907524356032954025035790,
        93275014199927559315505054344,
        93328907524356032954025035034,
        21729829610408291443,
    );
    lemma_next_edge(
        588,
        93328907524356032954025035790,
        93382831987781834721273045161,
        93328907524356032954025035034,
        93382831987781834721273044403,
        21742384877936410420,
    );
    lemma_next_edge(
        589,
        93382831987781834721273045161,
        93436787608196750518081663044,
        93382831987781834721273044403,
        93436787608196750518081662284,
        21754947399766359134,
    );
    lemma_next_edge(
        590,
        93436787608196750518081663044,
        93490774403602961710381152002,
        93436787608196750518081662284,
        93490774403602961710381151240,
        21767517180089597058,
    );
}

proof fn lemma_edges_591_to_600()
    ensures
        edge_above(600) == 94032360950111013657539569551,
        edge_below(600) == 94032360950111013657539568776,
        bracket_is_tight(591),
        bracket_is_tight(592),
        bracket_is_tight(593),
        bracket_is_tight(594),
        bracket_is_tight(595),
        bracket_is_tight(596),
        bracket_is_tight(597),
        bracket_is_tight(598),
        bracket_is_tight(599),
        bracket_is_tight(600),
{
    lemma_edges_581_to_590();
    lemma_next_edge(
        591,
        93490774403602961710381152002,
        93544792392013051135590106527,
        93490774403602961710381151240,
        93544792392013051135590105764,
        21780094223100005448,
    );
    lemma_next_edge(
        592,
        93544792392013051135590106527,
        93598841591450009112476531730,
        93544792392013051135590105764,
        93598841591450009112476530965,
        21792678532993888742,
    );
    lemma_next_edge(
        593,
        93598841591450009112476531730,
        93652922019947239454491356692,
        93598841591450009112476530965,
        93652922019947239454491355926,
        21805270113969975956,
    );
    lemma_next_edge(
        594,
        93652922019947239454491356692,
        93707033695548565486576388825,
        93652922019947239454491355926,
        93707033695548565486576388058,
        21817868970229422089,
    );
    lemma_next_edge(
        595,
        93707033695548565486576388825,
        93761176636308236065448716729,
        93707033695548565486576388058,
        93761176636308236065448715960,
        21830475105975809523,
    );
    lemma_next_edge(
        596,
        93761176636308236065448716729,
        93815350860290931603363570202,
        93761176636308236065448715960,
        93815350860290931603363569432,
        21843088525415149426,
    );
    lemma_next_edge(
        597,
        93815350860290931603363570202,
        93869556385571770095357647224,
        93815350860290931603363569432,
        93869556385571770095357646453,
        21855709232755883154,
    );
    lemma_next_edge(
        598,
        93869556385571770095357647224,
        93923793230236313149974918887,
        93869556385571770095357646453,
        93923793230236313149974918115,
        21868337232208883658,
    );
    lemma_next_edge(
        599,
        93923793230236313149974918887,
        93978061412380572023476924411,
        93923793230236313149974918115,
        93978061412380572023476923638,
        21880972527987456886,
    );
    lemma_next_edge(
        600,
        93978061412380572023476924411,
        94032360950111013657539569551,
        93978061412380572023476923638,
        94032360950111013657539568776,
        21893615124307343191,
    );
}

proof fn lemma_edges_601_to_610()
    ensures
        edge_above(610) == 94577084875566129010972875067,
        edge_below(610) == 94577084875566129010972874275,
        bracket_is_tight(601),
        bracket_is_tight(602),
        bracket_is_tight(603),
        bracket_is_tight(604),
        bracket_is_tight(605),
        bracket_is_tight(606),
        bracket_is_tight(607),
        bracket_is_tight(608),
        bracket_is_tight(609),
        bracket_is_tight(610),
{
    lemma_edges_591_to_600();
    lemma_next_edge(
        601,
        94032360950111013657539569551,
        94086691861544566720438442854,
        94032360950111013657539568776,
        94086691861544566720438442077,
        21906265025386718736,
    );
    lemma_next_edge(
        602,
        94086691861544566720438442854,
        94141054164808627651724665405,
        94086691861544566720438442077,
        94141054164808627651724664626,
        21918922235446196900,
    );
    lemma_next_edge(
        603,
        94141054164808627651724665405,
        94195447878041066710393290844,
        94141054164808627651724664626,
        94195447878041066710393290063,
        21931586758708829692,
    );
    lemma_next_edge(
        604,
        94195447878041066710393290844,
        94249873019390234026546273621,
        94195447878041066710393290063,
        94249873019390234026546272839,
        21944258599400109152,
    );
    lemma_next_edge(
        605,
        94249873019390234026546273621,
        94304329607014965656552024611,
        94249873019390234026546272839,
        94304329607014965656552023828,
        21956937761747968769,
    );
    lemma_next_edge(
        606,
        94304329607014965656552024611,
        94358817659084589641703574381,
        94304329607014965656552023828,
        94358817659084589641703573596,
        21969624249982784885,
    );
    lemma_next_edge(
        607,
        94358817659084589641703574381,
        94413337193778932070377365565,
        94358817659084589641703573596,
        94413337193778932070377364778,
        21982318068337378109,
    );
    lemma_next_edge(
        608,
        94413337193778932070377365565,
        94467888229288323143694696980,
        94413337193778932070377364778,
        94467888229288323143694696192,
        21995019221047014730,
    );
    lemma_next_edge(
        609,
        94467888229288323143694696980,
        94522470783813603244687843274,
        94467888229288323143694696192,
        94522470783813603244687842484,
        22007727712349408131,
    );
    lemma_next_edge(
        610,
        94522470783813603244687843274,
        94577084875566129010972875067,
        94522470783813603244687842484,
        94577084875566129010972874275,
        22020443546484720198,
    );
}

proof fn lemma_edges_611_to_620()
    ensures
        edge_above(620) == 95124964354619655633042528833,
        edge_below(620) == 95124964354619655633042528026,
        bracket_is_tight(611),
        bracket_is_tight(612),
        bracket_is_tight(613),
        bracket_is_tight(614),
        bracket_is_tight(615),
        bracket_is_tight(616),
        bracket_is_tight(617),
        bracket_is_tight(618),
        bracket_is_tight(619),
        bracket_is_tight(620),
{
    lemma_edges_601_to_610();
    lemma_next_edge(
        611,
        94577084875566129010972875067,
        94631730522767779410931205732,
        94577084875566129010972874275,
        94631730522767779410931204938,
        22033166727695562740,
    );
    lemma_next_edge(
        612,
        94631730522767779410931205732,
        94686407743650961823401892106,
        94631730522767779410931204938,
        94686407743650961823401891310,
        22045897260226998903,
    );
    lemma_next_edge(
        613,
        94686407743650961823401892106,
        94741116556458618120886717621,
        94686407743650961823401891310,
        94741116556458618120886716823,
        22058635148326544585,
    );
    lemma_next_edge(
        614,
        94741116556458618120886717621,
        94795856979444230756270087495,
        94741116556458618120886716823,
        94795856979444230756270086696,
        22071380396244169855,
    );
    lemma_next_edge(
        615,
        94795856979444230756270087495,
        94850629030871828853055766810,
        94795856979444230756270086696,
        94850629030871828853055766009,
        22084133008232300369,
    );
    lemma_next_edge(
        616,
        94850629030871828853055766810,
        94905432729015994299122493466,
        94850629030871828853055766009,
        94905432729015994299122492664,
        22096892988545818790,
    );
    lemma_next_edge(
        617,
        94905432729015994299122493466,
        94960268092161867844000499190,
        94905432729015994299122492664,
        94960268092161867844000498387,
        22109660341442066209,
    );
    lemma_next_edge(
        618,
        94960268092161867844000499190,
        95015135138605155199670972931,
        94960268092161867844000498387,
        95015135138605155199670972126,
        22122435071180843562,
    );
    lemma_next_edge(
        619,
        95015135138605155199670972931,
        95070033886652133144890502169,
        95015135138605155199670972126,
        95070033886652133144890501363,
        22135217182024413056,
    );
    lemma_next_edge(
        620,
        95070033886652133144890502169,
        95124964354619655633042528833,
        95070033886652133144890501363,
        95124964354619655633042528026,
        22148006678237499584,
    );
}

proof fn lemma_edges_621_to_630()
    ensures
        edge_above(630) == 95676017667207625573059576903,
        edge_below(630) == 95676017667207625573059576080,
        bracket_is_tight(621),
        bracket_is_tight(622),
        bracket_is_tight(623),
        bracket_is_tight(624),
        bracket_is_tight(625),
        bracket_is_tight(626),
        bracket_is_tight(627),
        bracket_is_tight(628),
        bracket_is_tight(629),
        bracket_is_tight(630),
{
    lemma_edges_611_to_620();
    lemma_next_edge(
        621,
        95124964354619655633042528833,
        95179926560835159903517857694,
        95124964354619655633042528026,
        95179926560835159903517856886,
        22160803564087292158,
    );
    lemma_next_edge(
        622,
        95179926560835159903517857694,
        95234920523636672596626256289,
        95179926560835159903517856886,
        95234920523636672596626255479,
        22173607843843445321,
    );
    lemma_next_edge(
        623,
        95234920523636672596626256289,
        95289946261372815872041186600,
        95234920523636672596626255479,
        95289946261372815872041185788,
        22186419521778080583,
    );
    lemma_next_edge(
        624,
        95289946261372815872041186600,
        95345003792402813530779709894,
        95289946261372815872041185788,
        95345003792402813530779709081,
        22199238602165787838,
    );
    lemma_next_edge(
        625,
        95345003792402813530779709894,
        95400093135096497140719607316,
        95345003792402813530779709081,
        95400093135096497140719606502,
        22212065089283626793,
    );
    lemma_next_edge(
        626,
        95400093135096497140719607316,
        95455214307834312165655759991,
        95400093135096497140719606502,
        95455214307834312165655759175,
        22224898987411128396,
    );
    lemma_next_edge(
        627,
        95455214307834312165655759991,
        95510367329007324097897833589,
        95455214307834312165655759175,
        95510367329007324097897832772,
        22237740300830296264,
    );
    lemma_next_edge(
        628,
        95510367329007324097897833589,
        95565552217017224594411313484,
        95510367329007324097897832772,
        95565552217017224594411312665,
        22250589033825608109,
    );
    lemma_next_edge(
        629,
        95565552217017224594411313484,
        95620768990276337616503937808,
        95565552217017224594411312665,
        95620768990276337616503936987,
        22263445190684017171,
    );
    lemma_next_edge(
        630,
        95620768990276337616503937808,
        95676017667207625573059576903,
        95620768990276337616503936987,
        95676017667207625573059576080,
        22276308775694953644,
    );
}

proof fn lemma_edges_631_to_640()
    ensures
        edge_above(640) == 96230263199160663038127210058,
        edge_below(640) == 96230263199160663038127209219,
        bracket_is_tight(631),
        bracket_is_tight(632),
        bracket_is_tight(633),
        bracket_is_tight(634),
        bracket_is_tight(635),
        bracket_is_tight(636),
        bracket_is_tight(637),
        bracket_is_tight(638),
        bracket_is_tight(639),
        bracket_is_tight(640),
{
    lemma_edges_621_to_630();
    lemma_next_edge(
        631,
        95676017667207625573059576903,
        95731298266244695467321608844,
        95676017667207625573059576080,
        95731298266244695467321608020,
        22289179793150326114,
    );
    lemma_next_edge(
        632,
        95731298266244695467321608844,
        95786610805831805047227841898,
        95731298266244695467321608020,
        95786610805831805047227841072,
        22302058247344522981,
    );
    lemma_next_edge(
        633,
        95786610805831805047227841898,
        95841955304423868959299035957,
        95786610805831805047227841072,
        95841955304423868959299035129,
        22314944142574413903,
    );
    lemma_next_edge(
        634,
        95841955304423868959299035957,
        95897331780486464906083076189,
        95841955304423868959299035129,
        95897331780486464906083075359,
        22327837483139351222,
    );
    lemma_next_edge(
        635,
        95897331780486464906083076189,
        95952740252495839807156853317,
        95897331780486464906083075359,
        95952740252495839807156852485,
        22340738273341171399,
    );
    lemma_next_edge(
        636,
        95952740252495839807156853317,
        96008180738938915963687906134,
        95952740252495839807156852485,
        96008180738938915963687905301,
        22353646517484196454,
    );
    lemma_next_edge(
        637,
        96008180738938915963687906134,
        96063653258313297226557883050,
        96008180738938915963687905301,
        96063653258313297226557882216,
        22366562219875235397,
    );
    lemma_next_edge(
        638,
        96063653258313297226557883050,
        96119157829127275168049880648,
        96063653258313297226557882216,
        96119157829127275168049879813,
        22379485384823585667,
    );
    lemma_next_edge(
        639,
        96119157829127275168049880648,
        96174694469899835257101718422,
        96119157829127275168049879813,
        96174694469899835257101717585,
        22392416016641034572,
    );
    lemma_next_edge(
        640,
        96174694469899835257101718422,
        96230263199160663038127210058,
        96174694469899835257101717585,
        96230263199160663038127209219,
        22405354119641860724,
    );
}

proof fn lemma_edges_641_to_650()
    ensures
        edge_above(650) == 96787719442817425524915227795,
        edge_below(650) == 96787719442817425524915226942,
        bracket_is_tight(641),
        bracket_is_tight(642),
        bracket_is_tight(643),
        bracket_is_tight(644),
        bracket_is_tight(645),
        bracket_is_tight(646),
        bracket_is_tight(647),
        bracket_is_tight(648),
        bracket_is_tight(649),
        bracket_is_tight(650),
{
    lemma_edges_631_to_640();
    lemma_next_edge(
        641,
        96230263199160663038127210058,
        96285864035450150313407492809,
        96230263199160663038127209219,
        96285864035450150313407491968,
        22418299698142835478,
    );
    lemma_next_edge(
        642,
        96285864035450150313407492809,
        96341496997319401329054477704,
        96285864035450150313407491968,
        96341496997319401329054476862,
        22431252756463224378,
    );
    lemma_next_edge(
        643,
        96341496997319401329054477704,
        96397162103330238964548484530,
        96341496997319401329054476862,
        96397162103330238964548483686,
        22444213298924788592,
    );
    lemma_next_edge(
        644,
        96397162103330238964548484530,
        96452859372055210925852126704,
        96397162103330238964548483686,
        96452859372055210925852125858,
        22457181329851786356,
    );
    lemma_next_edge(
        645,
        96452859372055210925852126704,
        96508588822077595942102512365,
        96452859372055210925852125858,
        96508588822077595942102511518,
        22470156853570974419,
    );
    lemma_next_edge(
        646,
        96508588822077595942102512365,
        96564350471991409965883829196,
        96508588822077595942102511518,
        96564350471991409965883828348,
        22483139874411609482,
    );
    lemma_next_edge(
        647,
        96564350471991409965883829196,
        96620144340401412377082381679,
        96564350471991409965883828348,
        96620144340401412377082380830,
        22496130396705449647,
    );
    lemma_next_edge(
        648,
        96620144340401412377082381679,
        96675970445923112190326150694,
        96620144340401412377082380830,
        96675970445923112190326149844,
        22509128424786755860,
    );
    lemma_next_edge(
        649,
        96675970445923112190326150694,
        96731828807182774266010946557,
        96675970445923112190326149844,
        96731828807182774266010945706,
        22522133962992293357,
    );
    lemma_next_edge(
        650,
        96731828807182774266010946557,
        96787719442817425524915227795,
        96731828807182774266010945706,
        96787719442817425524915226942,
        22535147015661333112,
    );
}

proof fn lemma_edges_651_to_660()
    ensures
        edge_above(660) == 97348404997641598579759469080,
        edge_below(660) == 97348404997641598579759468210,
        bracket_is_tight(651),
        bracket_is_tight(652),
        bracket_is_tight(653),
        bracket_is_tight(654),
        bracket_is_tight(655),
        bracket_is_tight(656),
        bracket_is_tight(657),
        bracket_is_tight(658),
        bracket_is_tight(659),
        bracket_is_tight(660),
{
    lemma_edges_641_to_650();
    lemma_next_edge(
        651,
        96787719442817425524915227795,
        96843642371474861166405659148,
        96787719442817425524915226942,
        96843642371474861166405658294,
        22548167587135653284,
    );
    lemma_next_edge(
        652,
        96843642371474861166405659148,
        96899597611813650890235483497,
        96843642371474861166405658294,
        96899597611813650890235482641,
        22561195681759540665,
    );
    lemma_next_edge(
        653,
        96899597611813650890235483497,
        96955585182503145121937783597,
        96899597611813650890235482641,
        96955585182503145121937782739,
        22574231303879792132,
    );
    lemma_next_edge(
        654,
        96955585182503145121937783597,
        97011605102223481241815710716,
        96955585182503145121937782739,
        97011605102223481241815709856,
        22587274457845716096,
    );
    lemma_next_edge(
        655,
        97011605102223481241815710716,
        97067657389665589817531758461,
        97011605102223481241815709856,
        97067657389665589817531757600,
        22600325148009133949,
    );
    lemma_next_edge(
        656,
        97067657389665589817531758461,
        97123742063531200840298161289,
        97067657389665589817531757600,
        97123742063531200840298160426,
        22613383378724381524,
    );
    lemma_next_edge(
        657,
        97123742063531200840298161289,
        97179859142532849964670498385,
        97123742063531200840298160426,
        97179859142532849964670497521,
        22626449154348310541,
    );
    lemma_next_edge(
        658,
        97179859142532849964670498385,
        97236008645393884751946584815,
        97179859142532849964670497521,
        97236008645393884751946583949,
        22639522479240290065,
    );
    lemma_next_edge(
        659,
        97236008645393884751946584815,
        97292190590848470917172733037,
        97236008645393884751946583949,
        97292190590848470917172732169,
        22652603357762207957,
    );
    lemma_next_edge(
        660,
        97292190590848470917172733037,
        97348404997641598579759469080,
        97292190590848470917172732169,
        97348404997641598579759468210,
        22665691794278472332,
    );
}

proof fn lemma_edges_661_to_670()
    ensures
        edge_above(670) == 97912338570842464773045673468,
        edge_below(670) == 97912338570842464773045672586,
        bracket_is_tight(661),
        bracket_is_tight(662),
        bracket_is_tight(663),
        bracket_is_tight(664),
        bracket_is_tight(665),
        bracket_is_tight(666),
        bracket_is_tight(667),
        bracket_is_tight(668),
        bracket_is_tight(669),
        bracket_is_tight(670),
{
    lemma_edges_651_to_660();
    lemma_next_edge(
        661,
        97348404997641598579759469080,
        97404651884529088517708788894,
        97348404997641598579759468210,
        97404651884529088517708788023,
        22678787793156013014,
    );
    lemma_next_edge(
        662,
        97404651884529088517708788894,
        97460931270277598425455041580,
        97404651884529088517708788023,
        97460931270277598425455040708,
        22691891358764282993,
    );
    lemma_next_edge(
        663,
        97460931270277598425455041580,
        97517243173664629175321527416,
        97460931270277598425455040708,
        97517243173664629175321526542,
        22705002495475259884,
    );
    lemma_next_edge(
        664,
        97517243173664629175321527416,
        97573587613478531082594899797,
        97517243173664629175321526542,
        97573587613478531082594898922,
        22718121207663447383,
    );
    lemma_next_edge(
        665,
        97573587613478531082594899797,
        97629964608518510174219461431,
        97573587613478531082594898922,
        97629964608518510174219460555,
        22731247499705876730,
    );
    lemma_next_edge(
        666,
        97629964608518510174219461431,
        97686374177594634461113446311,
        97629964608518510174219460555,
        97686374177594634461113445433,
        22744381375982108168,
    );
    lemma_next_edge(
        667,
        97686374177594634461113446311,
        97742816339527840214109380219,
        97686374177594634461113445433,
        97742816339527840214109379340,
        22757522840874232402,
    );
    lemma_next_edge(
        668,
        97742816339527840214109380219,
        97799291113149938243520613717,
        97742816339527840214109379340,
        97799291113149938243520612837,
        22770671898766872065,
    );
    lemma_next_edge(
        669,
        97799291113149938243520613717,
        97855798517303620182336122782,
        97799291113149938243520612837,
        97855798517303620182336121901,
        22783828554047183177,
    );
    lemma_next_edge(
        670,
        97855798517303620182336122782,
        97912338570842464773045673468,
        97855798517303620182336121901,
        97912338570842464773045672586,
        22796992811104856612,
    );
}

proof fn lemma_edges_671_to_680()
    ensures
        edge_above(680) == 98479538977999067593090486201,
        edge_below(680) == 98479538977999067593090485305,
        bracket_is_tight(671),
        bracket_is_tight(672),
        bracket_is_tight(673),
        bracket_is_tight(674),
        bracket_is_tight(675),
        bracket_is_tight(676),
        bracket_is_tight(677),
        bracket_is_tight(678),
        bracket_is_tight(679),
        bracket_is_tight(680),
{
    lemma_edges_661_to_670();
    lemma_next_edge(
        671,
        97912338570842464773045673468,
        97968911292630944158097448176,
        97912338570842464773045672586,
        97968911292630944158097447292,
        22810164674332119562,
    );
    lemma_next_edge(
        672,
        97968911292630944158097448176,
        98025516701544430173990232330,
        97968911292630944158097447292,
        98025516701544430173990231445,
        22823344148123737000,
    );
    lemma_next_edge(
        673,
        98025516701544430173990232330,
        98082154816469200649002261477,
        98025516701544430173990231445,
        98082154816469200649002260591,
        22836531236877013149,
    );
    lemma_next_edge(
        674,
        98082154816469200649002261477,
        98138825656302445704558830025,
        98082154816469200649002260591,
        98138825656302445704558829138,
        22849725944991792950,
    );
    lemma_next_edge(
        675,
        98138825656302445704558830025,
        98195529239952274060240764064,
        98138825656302445704558829138,
        98195529239952274060240763176,
        22862928276870463524,
    );
    lemma_next_edge(
        676,
        98195529239952274060240764064,
        98252265586337719342435861923,
        98195529239952274060240763176,
        98252265586337719342435861034,
        22876138236917955648,
    );
    lemma_next_edge(
        677,
        98252265586337719342435861923,
        98309034714388746396635407327,
        98252265586337719342435861034,
        98309034714388746396635406436,
        22889355829541745223,
    );
    lemma_next_edge(
        678,
        98309034714388746396635407327,
        98365836643046257603377861242,
        98309034714388746396635406436,
        98365836643046257603377860349,
        22902581059151854740,
    );
    lemma_next_edge(
        679,
        98365836643046257603377861242,
        98422671391262099197841839712,
        98365836643046257603377860349,
        98422671391262099197841838817,
        22915813930160854757,
    );
    lemma_next_edge(
        680,
        98422671391262099197841839712,
        98479538977999067593090486201,
        98422671391262099197841838817,
        98479538977999067593090485305,
        22929054446983865368,
    );
}

proof fn lemma_edges_681_to_690()
    ensures
        edge_above(690) == 99050025143687991084676397853,
        edge_below(690) == 99050025143687991084676396942,
        bracket_is_tight(681),
        bracket_is_tight(682),
        bracket_is_tight(683),
        bracket_is_tight(684),
        bracket_is_tight(685),
        bracket_is_tight(686),
        bracket_is_tight(687),
        bracket_is_tight(688),
        bracket_is_tight(689),
        bracket_is_tight(690),
{
    lemma_edges_671_to_680();
    lemma_next_edge(
        681,
        98479538977999067593090486201,
        98536439422230915706969348183,
        98479538977999067593090485305,
        98536439422230915706969347286,
        22942302614038557678,
    );
    lemma_next_edge(
        682,
        98536439422230915706969348183,
        98593372742942359292659868933,
        98536439422230915706969347286,
        98593372742942359292659868035,
        22955558435745155275,
    );
    lemma_next_edge(
        683,
        98593372742942359292659868933,
        98650338959129083272890606696,
        98593372742942359292659868035,
        98650338959129083272890605796,
        22968821916526435706,
    );
    lemma_next_edge(
        684,
        98650338959129083272890606696,
        98707338089797748077808294630,
        98650338959129083272890605796,
        98707338089797748077808293728,
        22982093060807731953,
    );
    lemma_next_edge(
        685,
        98707338089797748077808294630,
        98764370153965995986510856145,
        98707338089797748077808293728,
        98764370153965995986510855241,
        22995371873016933908,
    );
    lemma_next_edge(
        686,
        98764370153965995986510856145,
        98821435170662457472244491469,
        98764370153965995986510855241,
        98821435170662457472244490563,
        23008658357584489853,
    );
    lemma_next_edge(
        687,
        98821435170662457472244491469,
        98878533158926757551266952511,
        98821435170662457472244490563,
        98878533158926757551266951604,
        23021952518943407934,
    );
    lemma_next_edge(
        688,
        98878533158926757551266952511,
        98935664137809522135379124302,
        98878533158926757551266951604,
        98935664137809522135379123394,
        23035254361529257646,
    );
    lemma_next_edge(
        689,
        98935664137809522135379124302,
        98992828126372384388127032523,
        98935664137809522135379123394,
        98992828126372384388127031613,
        23048563889780171306,
    );
    lemma_next_edge(
        690,
        98992828126372384388127032523,
        99050025143687991084676397853,
        98992828126372384388127031613,
        99050025143687991084676396942,
        23061881108136845540,
    );
}

proof fn lemma_edges_691_to_700()
    ensures
        edge_above(700) == 99623816102114776178036315242,
        edge_below(700) == 99623816102114776178036314315,
        bracket_is_tight(691),
        bracket_is_tight(692),
        bracket_is_tight(693),
        bracket_is_tight(694),
        bracket_is_tight(695),
        bracket_is_tight(696),
        bracket_is_tight(697),
        bracket_is_tight(698),
        bracket_is_tight(699),
        bracket_is_tight(700),
{
    lemma_edges_681_to_690();
    lemma_next_edge(
        691,
        99050025143687991084676397853,
        99107255208840008975361859103,
        99050025143687991084676396942,
        99107255208840008975361858191,
        23075206021042542760,
    );
    lemma_next_edge(
        692,
        99107255208840008975361859103,
        99164518340923131152912988310,
        99107255208840008975361858191,
        99164518340923131152912987396,
        23088538632943092649,
    );
    lemma_next_edge(
        693,
        99164518340923131152912988310,
        99221814559043083423359222210,
        99164518340923131152912987396,
        99221814559043083423359221294,
        23101878948286893644,
    );
    lemma_next_edge(
        694,
        99221814559043083423359222210,
        99279143882316630680615835728,
        99221814559043083423359221294,
        99279143882316630680615834811,
        23115226971524914420,
    );
    lemma_next_edge(
        695,
        99279143882316630680615835728,
        99336506329871583284753084355,
        99279143882316630680615834811,
        99336506329871583284753083436,
        23128582707110695375,
    );
    lemma_next_edge(
        696,
        99336506329871583284753084355,
        99393901920846803443950643498,
        99336506329871583284753083436,
        99393901920846803443950642578,
        23141946159500350115,
    );
    lemma_next_edge(
        697,
        99393901920846803443950643498,
        99451330674392211600139474145,
        99393901920846803443950642578,
        99451330674392211600139473224,
        23155317333152566944,
    );
    lemma_next_edge(
        698,
        99451330674392211600139474145,
        99508792609668792818333245387,
        99451330674392211600139473224,
        99508792609668792818333244464,
        23168696232528610346,
    );
    lemma_next_edge(
        699,
        99508792609668792818333245387,
        99566287745848603179651445591,
        99508792609668792818333244464,
        99566287745848603179651444666,
        23182082862092322479,
    );
    lemma_next_edge(
        700,
        99566287745848603179651445591,
        99623816102114776178036315242,
        99566287745848603179651444666,
        99623816102114776178036314315,
        23195477226310124663,
    );
}

proof fn lemma_edges_701_to_710()
    ensures
        edge_above(710) == 100200930997748994775421220295,
        edge_below(710) == 100200930997748994775421219354,
        bracket_is_tight(701),
        bracket_is_tight(702),
        bracket_is_tight(703),
        bracket_is_tight(704),
        bracket_is_tight(705),
        bracket_is_tight(706),
        bracket_is_tight(707),
        bracket_is_tight(708),
        bracket_is_tight(709),
        bracket_is_tight(710),
{
    lemma_edges_691_to_700();
    lemma_next_edge(
        701,
        99623816102114776178036315242,
        99681377697661529120665735707,
        99623816102114776178036314315,
        99681377697661529120665734778,
        23208879329651018866,
    );
    lemma_next_edge(
        702,
        99681377697661529120665735707,
        99738972551694169532064209401,
        99681377697661529120665734778,
        99738972551694169532064208471,
        23222289176586589202,
    );
    lemma_next_edge(
        703,
        99738972551694169532064209401,
        99796600683429101561914068078,
        99738972551694169532064208471,
        99796600683429101561914067146,
        23235706771591003417,
    );
    lemma_next_edge(
        704,
        99796600683429101561914068078,
        99854262112093832396569047196,
        99796600683429101561914067146,
        99854262112093832396569046263,
        23249132119141014386,
    );
    lemma_next_edge(
        705,
        99854262112093832396569047196,
        99911956856926978674272365550,
        99854262112093832396569046263,
        99911956856926978674272364616,
        23262565223715961603,
    );
    lemma_next_edge(
        706,
        99911956856926978674272365550,
        99969684937178272904081450590,
        99911956856926978674272364616,
        99969684937178272904081449654,
        23276006089797772678,
    );
    lemma_next_edge(
        707,
        99969684937178272904081450590,
        100027446372108569888501451090,
        99969684937178272904081449654,
        100027446372108569888501450153,
        23289454721870964833,
    );
    lemma_next_edge(
        708,
        100027446372108569888501451090,
        100085241180989853149829680067,
        100027446372108569888501450153,
        100085241180989853149829679128,
        23302911124422646396,
    );
    lemma_next_edge(
        709,
        100085241180989853149829680067,
        100143069383105241360213132080,
        100085241180989853149829679128,
        100143069383105241360213131140,
        23316375301942518298,
    );
    lemma_next_edge(
        710,
        100143069383105241360213132080,
        100200930997748994775421220295,
        100143069383105241360213131140,
        100200930997748994775421219354,
        23329847258922875574,
    );
}

proof fn lemma_edges_711_to_720()
    ensures
        edge_above(720) == 100781389085963002784425036227,
        edge_below(720) == 100781389085963002784425035267,
        bracket_is_tight(711),
        bracket_is_tight(712),
        bracket_is_tight(713),
        bracket_is_tight(714),
        bracket_is_tight(715),
        bracket_is_tight(716),
        bracket_is_tight(717),
        bracket_is_tight(718),
        bracket_is_tight(719),
        bracket_is_tight(720),
{
    lemma_edges_701_to_710();
    lemma_next_edge(
        711,
        100200930997748994775421220295,
        100258826044226521672335879921,
        100200930997748994775421219354,
        100258826044226521672335878978,
        23343326999858608859,
    );
    lemma_next_edge(
        712,
        100258826044226521672335879921,
        100316754541854384790161185875,
        100258826044226521672335878978,
        100316754541854384790161184930,
        23356814529247205889,
    );
    lemma_next_edge(
        713,
        100316754541854384790161185875,
        100374716509960307775354633779,
        100316754541854384790161184930,
        100374716509960307775354632832,
        23370309851588753000,
    );
    lemma_next_edge(
        714,
        100374716509960307775354633779,
        100432711967883181630282234616,
        100374716509960307775354632832,
        100432711967883181630282233668,
        23383812971385936633,
    );
    lemma_next_edge(
        715,
        100432711967883181630282234616,
        100490740934973071165599574637,
        100432711967883181630282233668,
        100490740934973071165599573687,
        23397323893144044831,
    );
    lemma_next_edge(
        716,
        100490740934973071165599574637,
        100548803430591221456360993329,
        100490740934973071165599573687,
        100548803430591221456360992377,
        23410842621370968748,
    );
    lemma_next_edge(
        717,
        100548803430591221456360993329,
        100606899474110064301859033526,
        100548803430591221456360992377,
        100606899474110064301859032572,
        23424369160577204149,
    );
    lemma_next_edge(
        718,
        100606899474110064301859033526,
        100665029084913224689196318966,
        100606899474110064301859032572,
        100665029084913224689196318010,
        23437903515275852916,
    );
    lemma_next_edge(
        719,
        100665029084913224689196318966,
        100723192282395527260592015853,
        100665029084913224689196318010,
        100723192282395527260592014895,
        23451445689982624553,
    );
    lemma_next_edge(
        720,
        100723192282395527260592015853,
        100781389085963002784425036227,
        100723192282395527260592014895,
        100781389085963002784425035267,
        23464995689215837695,
    );
}

proof fn lemma_edges_721_to_730()
    ensures
        edge_above(730) == 101365209733674393409988457260,
        edge_below(730) == 101365209733674393409988456283,
        bracket_is_tight(721),
        bracket_is_tight(722),
        bracket_is_tight(723),
        bracket_is_tight(724),
        bracket_is_tight(725),
        bracket_is_tight(726),
        bracket_is_tight(727),
        bracket_is_tight(728),
        bracket_is_tight(729),
        bracket_is_tight(730),
{
    lemma_edges_711_to_720();
    lemma_next_edge(
        721,
        100781389085963002784425036227,
        100839619515032894630016142198,
        100781389085963002784425035267,
        100839619515032894630016141237,
        23478553517496421615,
    );
    lemma_next_edge(
        722,
        100839619515032894630016142198,
        100897883589033665246151111333,
        100839619515032894630016141237,
        100897883589033665246151110370,
        23492119179347917728,
    );
    lemma_next_edge(
        723,
        100897883589033665246151111333,
        100956181327405002643347124745,
        100897883589033665246151110370,
        100956181327405002643347123781,
        23505692679296481108,
    );
    lemma_next_edge(
        724,
        100956181327405002643347124745,
        101014512749597826879864540686,
        100956181327405002643347123781,
        101014512749597826879864539720,
        23519274021870881990,
    );
    lemma_next_edge(
        725,
        101014512749597826879864540686,
        101072877875074296551466217673,
        101014512749597826879864539720,
        101072877875074296551466216705,
        23532863211602507288,
    );
    lemma_next_edge(
        726,
        101072877875074296551466217673,
        101131276723307815284926552459,
        101072877875074296551466216705,
        101131276723307815284926551490,
        23546460253025362102,
    );
    lemma_next_edge(
        727,
        101131276723307815284926552459,
        101189709313783038235292399385,
        101131276723307815284926551490,
        101189709313783038235292398414,
        23560065150676071233,
    );
    lemma_next_edge(
        728,
        101189709313783038235292399385,
        101248175665995878586898038907,
        101189709313783038235292398414,
        101248175665995878586898037934,
        23573677909093880697,
    );
    lemma_next_edge(
        729,
        101248175665995878586898038907,
        101306675799453514058136364361,
        101248175665995878586898037934,
        101306675799453514058136363386,
        23587298532820659238,
    );
    lemma_next_edge(
        730,
        101306675799453514058136364361,
        101365209733674393409988457260,
        101306675799453514058136363386,
        101365209733674393409988456283,
        23600927026400899843,
    );
}

proof fn lemma_edges_731_to_740()
    ensures
        edge_above(740) == 101952412419992172140462204995,
        edge_below(740) == 101952412419992172140462204000,
        bracket_is_tight(731),
        bracket_is_tight(732),
        bracket_is_tight(733),
        bracket_is_tight(734),
        bracket_is_tight(735),
        bracket_is_tight(736),
        bracket_is_tight(737),
        bracket_is_tight(738),
        bracket_is_tight(739),
        bracket_is_tight(740),
{
    lemma_edges_721_to_730();
    lemma_next_edge(
        731,
        101365209733674393409988457260,
        101423777488188242958313722680,
        101365209733674393409988456283,
        101423777488188242958313721701,
        23614563394381721262,
    );
    lemma_next_edge(
        732,
        101423777488188242958313722680,
        101482379082536073089902757553,
        101423777488188242958313721701,
        101482379082536073089902756572,
        23628207641312869520,
    );
    lemma_next_edge(
        733,
        101482379082536073089902757553,
        101541014536270184782295125930,
        101482379082536073089902756572,
        101541014536270184782295124947,
        23641859771746719439,
    );
    lemma_next_edge(
        734,
        101541014536270184782295125930,
        101599683868954176127364216540,
        101541014536270184782295124947,
        101599683868954176127364215556,
        23655519790238276154,
    );
    lemma_next_edge(
        735,
        101599683868954176127364216540,
        101658387100162948858671359225,
        101599683868954176127364215556,
        101658387100162948858671358239,
        23669187701345176636,
    );
    lemma_next_edge(
        736,
        101658387100162948858671359225,
        101717124249482714882591378086,
        101658387100162948858671358239,
        101717124249482714882591377098,
        23682863509627691210,
    );
    lemma_next_edge(
        737,
        101717124249482714882591378086,
        101775895336511002813211760445,
        101717124249482714882591377098,
        101775895336511002813211759455,
        23696547219648725077,
    );
    lemma_next_edge(
        738,
        101775895336511002813211760445,
        101834700380856664511007621968,
        101775895336511002813211759455,
        101834700380856664511007620976,
        23710238835973819837,
    );
    lemma_next_edge(
        739,
        101834700380856664511007621968,
        101893539402139881625294649573,
        101834700380856664511007620976,
        101893539402139881625294648580,
        23723938363171155012,
    );
    lemma_next_edge(
        740,
        101893539402139881625294649573,
        101952412419992172140462204995,
        101893539402139881625294648580,
        101952412419992172140462204000,
        23737645805811549570,
    );
}

proof fn lemma_edges_741_to_750()
    ensures
        edge_above(750) == 102543016736866674987284070211,
        edge_below(750) == 102543016736866674987284069201,
        bracket_is_tight(741),
        bracket_is_tight(742),
        bracket_is_tight(743),
        bracket_is_tight(744),
        bracket_is_tight(745),
        bracket_is_tight(746),
        bracket_is_tight(747),
        bracket_is_tight(748),
        bracket_is_tight(749),
        bracket_is_tight(750),
{
    lemma_edges_731_to_740();
    lemma_next_edge(
        741,
        101952412419992172140462204995,
        102011319454056396925988773143,
        101952412419992172140462204000,
        102011319454056396925988772146,
        23751361168468463451,
    );
    lemma_next_edge(
        742,
        102011319454056396925988773143,
        102070260523986766290241940654,
        102011319454056396925988772146,
        102070260523986766290241939656,
        23765084455717999091,
    );
    lemma_next_edge(
        743,
        102070260523986766290241940654,
        102129235649448846538065091304,
        102070260523986766290241939656,
        102129235649448846538065090304,
        23778815672138902950,
    );
    lemma_next_edge(
        744,
        102129235649448846538065091304,
        102188244850119566532153006194,
        102129235649448846538065090304,
        102188244850119566532153005192,
        23792554822312567042,
    );
    lemma_next_edge(
        745,
        102188244850119566532153006194,
        102247288145687224258218557911,
        102188244850119566532153005192,
        102247288145687224258218556907,
        23806301910823030458,
    );
    lemma_next_edge(
        746,
        102247288145687224258218557911,
        102306365555851493393952689113,
        102247288145687224258218556907,
        102306365555851493393952688107,
        23820056942256980901,
    );
    lemma_next_edge(
        747,
        102306365555851493393952689113,
        102365477100323429881779867258,
        102306365555851493393952688107,
        102365477100323429881779866251,
        23833819921203756212,
    );
    lemma_next_edge(
        748,
        102365477100323429881779867258,
        102424622798825478505411208465,
        102365477100323429881779866251,
        102424622798825478505411207457,
        23847590852255345906,
    );
    lemma_next_edge(
        749,
        102424622798825478505411208465,
        102483802671091479470197464757,
        102424622798825478505411207457,
        102483802671091479470197463748,
        23861369740006392699,
    );
    lemma_next_edge(
        750,
        102483802671091479470197464757,
        102543016736866674987284070211,
        102483802671091479470197463748,
        102543016736866674987284069201,
        23875156589054194044,
    );
}

proof fn lemma_edges_751_to_760()
    ensures
        edge_above(760) == 103137042389743251662717326830,
        edge_below(760) == 103137042389743251662717325800,
        bracket_is_tight(751),
        bracket_is_tight(752),
        bracket_is_tight(753),
        bracket_is_tight(754),
        bracket_is_tight(755),
        bracket_is_tight(756),
        bracket_is_tight(757),
        bracket_is_tight(758),
        bracket_is_tight(759),
        bracket_is_tight(760),
{
    lemma_edges_741_to_750();
    lemma_next_edge(
        751,
        102543016736866674987284070211,
        102602265015907715861570442804,
        102543016736866674987284069201,
        102602265015907715861570441792,
        23888951403998703664,
    );
    lemma_next_edge(
        752,
        102602265015907715861570442804,
        102661547527982668083475740011,
        102602265015907715861570441792,
        102661547527982668083475738997,
        23902754189442533088,
    );
    lemma_next_edge(
        753,
        102661547527982668083475740011,
        102720864292871019424513267487,
        102661547527982668083475738997,
        102720864292871019424513266471,
        23916564949990953185,
    );
    lemma_next_edge(
        754,
        102720864292871019424513267487,
        102780215330363686036675741435,
        102720864292871019424513266471,
        102780215330363686036675740417,
        23930383690251895701,
    );
    lemma_next_edge(
        755,
        102780215330363686036675741435,
        102839600660263019055633606523,
        102780215330363686036675740417,
        102839600660263019055633605503,
        23944210414835954797,
    );
    lemma_next_edge(
        756,
        102839600660263019055633606523,
        102899020302382811207748612504,
        102839600660263019055633605503,
        102899020302382811207748611482,
        23958045128356388586,
    );
    lemma_next_edge(
        757,
        102899020302382811207748612504,
        102958474276548303420904853945,
        102899020302382811207748611482,
        102958474276548303420904852921,
        23971887835429120675,
    );
    lemma_next_edge(
        758,
        102958474276548303420904853945,
        103017962602596191439159478767,
        102958474276548303420904852921,
        103017962602596191439159477741,
        23985738540672741700,
    );
    lemma_next_edge(
        759,
        103017962602596191439159478767,
        103077485300374632441215272546,
        103017962602596191439159477741,
        103077485300374632441215271518,
        23999597248708510875,
    );
    lemma_next_edge(
        760,
        103077485300374632441215272546,
        103137042389743251662717326830,
        103077485300374632441215271518,
        103137042389743251662717325800,
        24013463964160357524,
    );
}

proof fn lemma_edges_761_to_770()
    ensures
        edge_above(770) == 103734509198219735505714831650,
        edge_below(770) == 103734509198219735505714830606,
        bracket_is_tight(761),
        bracket_is_tight(762),
        bracket_is_tight(763),
        bracket_is_tight(764),
        bracket_is_tight(765),
        bracket_is_tight(766),
        bracket_is_tight(767),
        bracket_is_tight(768),
        bracket_is_tight(769),
        bracket_is_tight(770),
{
    lemma_edges_751_to_760();
    lemma_next_edge(
        761,
        103137042389743251662717326830,
        103196633890573149022376000975,
        103137042389743251662717325800,
        103196633890573149022375999943,
        24027338691654882632,
    );
    lemma_next_edge(
        762,
        103196633890573149022376000975,
        103256259822746905751918388301,
        103196633890573149022375999943,
        103256259822746905751918387267,
        24041221435821360386,
    );
    lemma_next_edge(
        763,
        103256259822746905751918388301,
        103315920206158591029870498631,
        103256259822746905751918387267,
        103315920206158591029870497595,
        24055112201291739715,
    );
    lemma_next_edge(
        764,
        103315920206158591029870498631,
        103375615060713768619172370566,
        103315920206158591029870497595,
        103375615060713768619172369529,
        24069010992700645845,
    );
    lemma_next_edge(
        765,
        103375615060713768619172370566,
        103435344406329503508628328122,
        103375615060713768619172369529,
        103435344406329503508628327083,
        24082917814685381835,
    );
    lemma_next_edge(
        766,
        103435344406329503508628328122,
        103495108262934368558194597627,
        103435344406329503508628327083,
        103495108262934368558194596587,
        24096832671885930132,
    );
    lemma_next_edge(
        767,
        103495108262934368558194597627,
        103554906650468451148106502080,
        103495108262934368558194596587,
        103554906650468451148106501039,
        24110755568944954115,
    );
    lemma_next_edge(
        768,
        103554906650468451148106502080,
        103614739588883359831847451424,
        103554906650468451148106501039,
        103614739588883359831847450382,
        24124686510507799646,
    );
    lemma_next_edge(
        769,
        103614739588883359831847451424,
        103674607098142230992961948491,
        103614739588883359831847450382,
        103674607098142230992961947448,
        24138625501222496618,
    );
    lemma_next_edge(
        770,
        103674607098142230992961948491,
        103734509198219735505714831650,
        103674607098142230992961947448,
        103734509198219735505714830606,
        24152572545739760508,
    );
}

proof fn lemma_edges_771_to_780()
    ensures
        edge_above(780) == 104335437096707722092317540803,
        edge_below(780) == 104335437096707722092317539741,
        bracket_is_tight(771),
        bracket_is_tight(772),
        bracket_is_tight(773),
        bracket_is_tight(774),
        bracket_is_tight(775),
        bracket_is_tight(776),
        bracket_is_tight(777),
        bracket_is_tight(778),
        bracket_is_tight(779),
        bracket_is_tight(780),
{
    lemma_edges_761_to_770();
    lemma_next_edge(
        771,
        103734509198219735505714831650,
        103794445909102085399598976471,
        103734509198219735505714830606,
        103794445909102085399598975425,
        24166527648712993926,
    );
    lemma_next_edge(
        772,
        103794445909102085399598976471,
        103854417250787040527693680005,
        103794445909102085399598975425,
        103854417250787040527693678957,
        24180490814798288171,
    );
    lemma_next_edge(
        773,
        103854417250787040527693680005,
        103914423243283915238875952566,
        103854417250787040527693678957,
        103914423243283915238875951516,
        24194462048654424781,
    );
    lemma_next_edge(
        774,
        103914423243283915238875952566,
        103974463906613585053886943182,
        103914423243283915238875951516,
        103974463906613585053886942130,
        24208441354942877091,
    );
    lemma_next_edge(
        775,
        103974463906613585053886943182,
        104034539260808493345255726170,
        103974463906613585053886942130,
        104034539260808493345255725116,
        24222428738327811786,
    );
    lemma_next_edge(
        776,
        104034539260808493345255726170,
        104094649325912658021082677582,
        104034539260808493345255725116,
        104094649325912658021082676527,
        24236424203476090455,
    );
    lemma_next_edge(
        777,
        104094649325912658021082677582,
        104154794121981678212684671552,
        104094649325912658021082676527,
        104154794121981678212684670495,
        24250427755057271154,
    );
    lemma_next_edge(
        778,
        104154794121981678212684671552,
        104214973669082740966104327853,
        104154794121981678212684670495,
        104214973669082740966104326794,
        24264439397743609959,
    );
    lemma_next_edge(
        779,
        104214973669082740966104327853,
        104275187987294627937485543288,
        104214973669082740966104326794,
        104275187987294627937485542227,
        24278459136210062527,
    );
    lemma_next_edge(
        780,
        104275187987294627937485543288,
        104335437096707722092317540803,
        104275187987294627937485542227,
        104335437096707722092317539741,
        24292486975134285655,
    );
}

proof fn lemma_edges_781_to_790()
    ensures
        edge_above(790) == 104939846135097678594072496794,
        edge_below(790) == 104939846135097678594072495715,
        bracket_is_tight(781),
        bracket_is_tight(782),
        bracket_is_tight(783),
        bracket_is_tight(784),
        bracket_is_tight(785),
        bracket_is_tight(786),
        bracket_is_tight(787),
        bracket_is_tight(788),
        bracket_is_tight(789),
        bracket_is_tight(790),
{
    lemma_edges_771_to_780();
    lemma_next_edge(
        781,
        104335437096707722092317540803,
        104395721017424014408549671514,
        104335437096707722092317539741,
        104395721017424014408549670451,
        24306522919196638840,
    );
    lemma_next_edge(
        782,
        104395721017424014408549671514,
        104456039769557110583579206125,
        104395721017424014408549670451,
        104456039769557110583579205060,
        24320566973080185844,
    );
    lemma_next_edge(
        783,
        104456039769557110583579206125,
        104516393373232237745114353516,
        104456039769557110583579205060,
        104516393373232237745114352449,
        24334619141470696253,
    );
    lemma_next_edge(
        784,
        104516393373232237745114353516,
        104576781848586251165914745561,
        104516393373232237745114352449,
        104576781848586251165914744492,
        24348679429056647040,
    );
    lemma_next_edge(
        785,
        104576781848586251165914745561,
        104637205215767640982411628538,
        104576781848586251165914744492,
        104637205215767640982411627467,
        24362747840529224133,
    );
    lemma_next_edge(
        786,
        104637205215767640982411628538,
        104697663494936538917210002785,
        104637205215767640982411627467,
        104697663494936538917210001713,
        24376824380582323978,
    );
    lemma_next_edge(
        787,
        104697663494936538917210002785,
        104758156706264725005474953549,
        104697663494936538917210001713,
        104758156706264725005474952475,
        24390909053912555102,
    );
    lemma_next_edge(
        788,
        104758156706264725005474953549,
        104818684869935634325204417273,
        104758156706264725005474952475,
        104818684869935634325204416198,
        24405001865219239687,
    );
    lemma_next_edge(
        789,
        104818684869935634325204417273,
        104879248006144363731390628867,
        104818684869935634325204416198,
        104879248006144363731390627790,
        24419102819204415133,
    );
    lemma_next_edge(
        790,
        104879248006144363731390628867,
        104939846135097678594072496794,
        104879248006144363731390627790,
        104939846135097678594072495715,
        24433211920572835625,
    );
}

proof fn lemma_edges_791_to_800()
    ensures
        edge_above(800) == 105547756479427906075767808777,
        edge_below(800) == 105547756479427906075767807681,
        bracket_is_tight(791),
        bracket_is_tight(792),
        bracket_is_tight(793),
        bracket_is_tight(794),
        bracket_is_tight(795),
        bracket_is_tight(796),
        bracket_is_tight(797),
        bracket_is_tight(798),
        bracket_is_tight(799),
        bracket_is_tight(800),
{
    lemma_edges_781_to_790();
    lemma_next_edge(
        791,
        104939846135097678594072496794,
        105000479277014019540281154118,
        104939846135097678594072495715,
        105000479277014019540281153037,
        24447329174031973710,
    );
    lemma_next_edge(
        792,
        105000479277014019540281154118,
        105061147452123509199880934940,
        105000479277014019540281153037,
        105061147452123509199880933857,
        24461454584292021860,
    );
    lemma_next_edge(
        793,
        105061147452123509199880934940,
        105121850680667958955308026967,
        105061147452123509199880933857,
        105121850680667958955308025883,
        24475588156065894048,
    );
    lemma_next_edge(
        794,
        105121850680667958955308026967,
        105182588982900875695209052247,
        105121850680667958955308025883,
        105182588982900875695209051161,
        24489729894069227320,
    );
    lemma_next_edge(
        795,
        105182588982900875695209052247,
        105243362379087468571981829402,
        105182588982900875695209051161,
        105243362379087468571981828315,
        24503879803020383365,
    );
    lemma_next_edge(
        796,
        105243362379087468571981829402,
        105304170889504655763220572009,
        105243362379087468571981828315,
        105304170889504655763220570920,
        24518037887640450095,
    );
    lemma_next_edge(
        797,
        105304170889504655763220572009,
        105365014534441071237067779061,
        105304170889504655763220570920,
        105365014534441071237067777970,
        24532204152653243216,
    );
    lemma_next_edge(
        798,
        105365014534441071237067779061,
        105425893334197071521475074763,
        105365014534441071237067777970,
        105425893334197071521475073670,
        24546378602785307803,
    );
    lemma_next_edge(
        799,
        105425893334197071521475074763,
        105486807309084742477375256206,
        105425893334197071521475073670,
        105486807309084742477375255112,
        24560561242765919883,
    );
    lemma_next_edge(
        800,
        105486807309084742477375256206,
        105547756479427906075767808777,
        105486807309084742477375255112,
        105547756479427906075767807681,
        24574752077327088005,
    );
}

proof fn lemma_edges_801_to_810()
    ensures
        edge_above(810) == 106159188412557377052335027360,
        edge_below(810) == 106159188412557377052335026249,
        bracket_is_tight(801),
        bracket_is_tight(802),
        bracket_is_tight(803),
        bracket_is_tight(804),
        bracket_is_tight(805),
        bracket_is_tight(806),
        bracket_is_tight(807),
        bracket_is_tight(808),
        bracket_is_tight(809),
        bracket_is_tight(810),
{
    lemma_edges_791_to_800();
    lemma_next_edge(
        801,
        105547756479427906075767808777,
        105608740865562127178720150462,
        105547756479427906075767807681,
        105608740865562127178720149364,
        24588951111203554827,
    );
    lemma_next_edge(
        802,
        105608740865562127178720150462,
        105669760487834720324286867516,
        105608740865562127178720149364,
        105669760487834720324286866416,
        24603158349132798688,
    );
    lemma_next_edge(
        803,
        105669760487834720324286867516,
        105730815366604756515349205269,
        105669760487834720324286866416,
        105730815366604756515349204168,
        24617373795855035195,
    );
    lemma_next_edge(
        804,
        105730815366604756515349205269,
        105791905522243070012377079150,
        105730815366604756515349204168,
        105791905522243070012377078048,
        24631597456113218799,
    );
    lemma_next_edge(
        805,
        105791905522243070012377079150,
        105853030975132265130115872323,
        105791905522243070012377078048,
        105853030975132265130115871219,
        24645829334653044383,
    );
    lemma_next_edge(
        806,
        105853030975132265130115872323,
        105914191745666723038200287631,
        105853030975132265130115871219,
        105914191745666723038200286526,
        24660069436222948842,
    );
    lemma_next_edge(
        807,
        105914191745666723038200287631,
        105975387854252608565697522868,
        105914191745666723038200286526,
        105975387854252608565697521762,
        24674317765574112667,
    );
    lemma_next_edge(
        808,
        105975387854252608565697522868,
        106036619321307877009582039689,
        105975387854252608565697521762,
        106036619321307877009582038581,
        24688574327460461532,
    );
    lemma_next_edge(
        809,
        106036619321307877009582039689,
        106097886167262280947144197798,
        106036619321307877009582038581,
        106097886167262280947144196688,
        24702839126638667879,
    );
    lemma_next_edge(
        810,
        106097886167262280947144197798,
        106159188412557377052335027360,
        106097886167262280947144196688,
        106159188412557377052335026249,
        24717112167868152506,
    );
}

proof fn lemma_edges_811_to_820()
    ensures
        edge_above(820) == 106774162334842470754066893376,
        edge_below(820) == 106774162334842470754066892246,
        bracket_is_tight(811),
        bracket_is_tight(812),
        bracket_is_tight(813),
        bracket_is_tight(814),
        bracket_is_tight(815),
        bracket_is_tight(816),
        bracket_is_tight(817),
        bracket_is_tight(818),
        bracket_is_tight(819),
        bracket_is_tight(820),
{
    lemma_edges_801_to_810();
    lemma_next_edge(
        811,
        106159188412557377052335027360,
        106220526077646532916049413899,
        106159188412557377052335026249,
        106220526077646532916049412786,
        24731393455911086155,
    );
    lemma_next_edge(
        812,
        106220526077646532916049413899,
        106281899182994933870349971244,
        106220526077646532916049412786,
        106281899182994933870349970129,
        24745682995532391098,
    );
    lemma_next_edge(
        813,
        106281899182994933870349971244,
        106343307749079589816633879427,
        106281899182994933870349970129,
        106343307749079589816633878310,
        24759980791499742730,
    );
    lemma_next_edge(
        814,
        106343307749079589816633879427,
        106404751796389342057744965725,
        106343307749079589816633878310,
        106404751796389342057744964606,
        24774286848583571161,
    );
    lemma_next_edge(
        815,
        106404751796389342057744965725,
        106466231345424870134033308369,
        106404751796389342057744964606,
        106466231345424870134033307248,
        24788601171557062803,
    );
    lemma_next_edge(
        816,
        106466231345424870134033308369,
        106527746416698698663364643763,
        106466231345424870134033307248,
        106527746416698698663364642640,
        24802923765196161965,
    );
    lemma_next_edge(
        817,
        106527746416698698663364643763,
        106589297030735204185081859357,
        106527746416698698663364642640,
        106589297030735204185081858232,
        24817254634279572449,
    );
    lemma_next_edge(
        818,
        106589297030735204185081859357,
        106650883208070622007920855660,
        106589297030735204185081858232,
        106650883208070622007920854533,
        24831593783588759138,
    );
    lemma_next_edge(
        819,
        106650883208070622007920855660,
        106712504969253053061883062175,
        106650883208070622007920854533,
        106712504969253053061883061046,
        24845941217907949599,
    );
    lemma_next_edge(
        820,
        106712504969253053061883062175,
        106774162334842470754066893376,
        106712504969253053061883061046,
        106774162334842470754066892246,
        24860296942024135673,
    );
}

proof fn lemma_edges_821_to_830()
    ensures
        edge_above(830) == 107392698764817628679345031213,
        edge_below(830) == 107392698764817628679345030069,
        bracket_is_tight(821),
        bracket_is_tight(822),
        bracket_is_tight(823),
        bracket_is_tight(824),
        bracket_is_tight(825),
        bracket_is_tight(826),
        bracket_is_tight(827),
        bracket_is_tight(828),
        bracket_is_tight(829),
        bracket_is_tight(830),
{
    lemma_edges_811_to_820();
    lemma_next_edge(
        821,
        106774162334842470754066893376,
        106835855325410727828460432160,
        106774162334842470754066892246,
        106835855325410727828460431029,
        24874660960727075075,
    );
    lemma_next_edge(
        822,
        106835855325410727828460432160,
        106897583961541563229697629526,
        106835855325410727828460431029,
        106897583961541563229697628394,
        24889033278809292994,
    );
    lemma_next_edge(
        823,
        106897583961541563229697629526,
        106959348263830608970780310565,
        106897583961541563229697628394,
        106959348263830608970780309431,
        24903413901066083688,
    );
    lemma_next_edge(
        824,
        106959348263830608970780310565,
        107021148252885397004768278154,
        106959348263830608970780309431,
        107021148252885397004768277018,
        24917802832295512084,
    );
    lemma_next_edge(
        825,
        107021148252885397004768278154,
        107082983949325366100439807090,
        107021148252885397004768277018,
        107082983949325366100439805953,
        24932200077298415383,
    );
    lemma_next_edge(
        826,
        107082983949325366100439807090,
        107144855373781868721924822706,
        107082983949325366100439805953,
        107144855373781868721924821568,
        24946605640878404659,
    );
    lemma_next_edge(
        827,
        107144855373781868721924822706,
        107206762546898177912313059344,
        107144855373781868721924821568,
        107206762546898177912313058205,
        24961019527841866462,
    );
    lemma_next_edge(
        828,
        107206762546898177912313059344,
        107268705489329494181239495393,
        107206762546898177912313058205,
        107268705489329494181239494253,
        24975441742997964421,
    );
    lemma_next_edge(
        829,
        107268705489329494181239495393,
        107330684221742952396449362914,
        107268705489329494181239494253,
        107330684221742952396449361772,
        24989872291158640850,
    );
    lemma_next_edge(
        830,
        107330684221742952396449362914,
        107392698764817628679345031213,
        107330684221742952396449361772,
        107392698764817628679345030069,
        25004311177138618352,
    );
}

proof fn lemma_edges_831_to_840()
    ensures
        edge_above(840) == 108014818339879953144872100893,
        edge_below(840) == 108014818339879953144872099730,
        bracket_is_tight(831),
        bracket_is_tight(832),
        bracket_is_tight(833),
        bracket_is_tight(834),
        bracket_is_tight(835),
        bracket_is_tight(836),
        bracket_is_tight(837),
        bracket_is_tight(838),
        bracket_is_tight(839),
        bracket_is_tight(840),
{
    lemma_edges_821_to_830();
    lemma_next_edge(
        831,
        107392698764817628679345031213,
        107454749139244547304517065044,
        107392698764817628679345030069,
        107454749139244547304517063898,
        25018758405755401428,
    );
    lemma_next_edge(
        832,
        107454749139244547304517065044,
        107516835365726687603261759460,
        107454749139244547304517063898,
        107516835365726687603261758312,
        25033213981829278079,
    );
    lemma_next_edge(
        833,
        107516835365726687603261759460,
        107578957464978990871087454650,
        107516835365726687603261758312,
        107578957464978990871087453500,
        25047677910183321422,
    );
    lemma_next_edge(
        834,
        107578957464978990871087454650,
        107641115457728367279211935446,
        107578957464978990871087453500,
        107641115457728367279211934294,
        25062150195643391293,
    );
    lemma_next_edge(
        835,
        107641115457728367279211935446,
        107703309364713702790053221497,
        107641115457728367279211934294,
        107703309364713702790053220343,
        25076630843038135858,
    );
    lemma_next_edge(
        836,
        107703309364713702790053221497,
        107765539206685866076716055458,
        107703309364713702790053220343,
        107765539206685866076716054303,
        25091119857198993228,
    );
    lemma_next_edge(
        837,
        107765539206685866076716055458,
        107827805004407715446476397862,
        107765539206685866076716054303,
        107827805004407715446476396705,
        25105617242960193066,
    );
    lemma_next_edge(
        838,
        107827805004407715446476397862,
        107890106778654105768266238680,
        107827805004407715446476396705,
        107890106778654105768266237521,
        25120123005158758203,
    );
    lemma_next_edge(
        839,
        107890106778654105768266238680,
        107952444550211895404161036913,
        107890106778654105768266237521,
        107952444550211895404161035752,
        25134637148634506251,
    );
    lemma_next_edge(
        840,
        107952444550211895404161036913,
        108014818339879953144872100893,
        107952444550211895404161035752,
        108014818339879953144872099730,
        25149159678230051218,
    );
}

proof fn lemma_edges_841_to_850()
    ensures
        edge_above(850) == 108640541816977771674960582881,
        edge_below(850) == 108640541816977771674960581701,
        bracket_is_tight(841),
        bracket_is_tight(842),
        bracket_is_tight(843),
        bracket_is_tight(844),
        bracket_is_tight(845),
        bracket_is_tight(846),
        bracket_is_tight(847),
        bracket_is_tight(848),
        bracket_is_tight(849),
        bracket_is_tight(850),
{
    lemma_edges_831_to_840();
    lemma_next_edge(
        841,
        108014818339879953144872100893,
        108077228168469165149246223301,
        108014818339879953144872099730,
        108077228168469165149246222136,
        25163690598790805124,
    );
    lemma_next_edge(
        842,
        108077228168469165149246223301,
        108139674056802441887774886258,
        108077228168469165149246222136,
        108139674056802441887774885092,
        25178229915164979615,
    );
    lemma_next_edge(
        843,
        108139674056802441887774886258,
        108202156025714725090115353172,
        108139674056802441887774885092,
        108202156025714725090115352005,
        25192777632203587585,
    );
    lemma_next_edge(
        844,
        108202156025714725090115353172,
        108264674096052994696625965368,
        108202156025714725090115352005,
        108264674096052994696625964199,
        25207333754760444793,
    );
    lemma_next_edge(
        845,
        108264674096052994696625965368,
        108327228288676275813917962866,
        108264674096052994696625964199,
        108327228288676275813917961695,
        25221898287692171479,
    );
    lemma_next_edge(
        846,
        108327228288676275813917962866,
        108389818624455645674426150016,
        108327228288676275813917961695,
        108389818624455645674426148844,
        25236471235858193989,
    );
    lemma_next_edge(
        847,
        108389818624455645674426150016,
        108452445124274240600000728033,
        108389818624455645674426148844,
        108452445124274240600000726859,
        25251052604120746395,
    );
    lemma_next_edge(
        848,
        108452445124274240600000728033,
        108515107809027262969522617818,
        108452445124274240600000726859,
        108515107809027262969522616642,
        25265642397344872116,
    );
    lemma_next_edge(
        849,
        108515107809027262969522617818,
        108577806699621988190544597802,
        108515107809027262969522616642,
        108577806699621988190544596624,
        25280240620398425542,
    );
    lemma_next_edge(
        850,
        108577806699621988190544597802,
        108640541816977771674960582881,
        108577806699621988190544596624,
        108640541816977771674960581701,
        25294847278152073658,
    );
}

proof fn lemma_edges_851_to_860()
    ensures
        edge_above(860) == 109269890073303190203750135342,
        edge_below(860) == 109269890073303190203750134143,
        bracket_is_tight(851),
        bracket_is_tight(852),
        bracket_is_tight(853),
        bracket_is_tight(854),
        bracket_is_tight(855),
        bracket_is_tight(856),
        bracket_is_tight(857),
        bracket_is_tight(858),
        bracket_is_tight(859),
        bracket_is_tight(860),
{
    lemma_edges_841_to_850();
    lemma_next_edge(
        851,
        108640541816977771674960582881,
        108703313182026055818705371860,
        108640541816977771674960581701,
        108703313182026055818705370678,
        25309462375479297671,
    );
    lemma_next_edge(
        852,
        108703313182026055818705371860,
        108766120815710376985487192175,
        108703313182026055818705370678,
        108766120815710376985487190991,
        25324085917256394631,
    );
    lemma_next_edge(
        853,
        108766120815710376985487192175,
        108828964738986372494555371989,
        108766120815710376985487190991,
        108828964738986372494555370804,
        25338717908362479065,
    );
    lemma_next_edge(
        854,
        108828964738986372494555371989,
        108891844972821787612505471131,
        108828964738986372494555370804,
        108891844972821787612505469944,
        25353358353679484598,
    );
    lemma_next_edge(
        855,
        108891844972821787612505471131,
        108954761538196482549124203664,
        108891844972821787612505469944,
        108954761538196482549124202475,
        25368007258092165587,
    );
    lemma_next_edge(
        856,
        108954761538196482549124203664,
        109017714456102439457276486243,
        108954761538196482549124202475,
        109017714456102439457276485052,
        25382664626488098749,
    );
    lemma_next_edge(
        857,
        109017714456102439457276486243,
        109080703747543769436836947757,
        109017714456102439457276485052,
        109080703747543769436836946564,
        25397330463757684789,
    );
    lemma_next_edge(
        858,
        109080703747543769436836947757,
        109143729433536719542668237099,
        109080703747543769436836946564,
        109143729433536719542668235904,
        25412004774794150038,
    );
    lemma_next_edge(
        859,
        109143729433536719542668237099,
        109206791535109679796648467267,
        109143729433536719542668235904,
        109206791535109679796648466070,
        25426687564493548078,
    );
    lemma_next_edge(
        860,
        109206791535109679796648467267,
        109269890073303190203750135342,
        109206791535109679796648466070,
        109269890073303190203750134143,
        25441378837754761382,
    );
}

proof fn lemma_edges_861_to_870()
    ensures
        edge_above(870) == 109902884106988658197311749701,
        edge_below(870) == 109902884106988658197311748483,
        bracket_is_tight(861),
        bracket_is_tight(862),
        bracket_is_tight(863),
        bracket_is_tight(864),
        bracket_is_tight(865),
        bracket_is_tight(866),
        bracket_is_tight(867),
        bracket_is_tight(868),
        bracket_is_tight(869),
        bracket_is_tight(870),
{
    lemma_edges_851_to_860();
    lemma_next_edge(
        861,
        109269890073303190203750135342,
        109333025069169947772172859239,
        109269890073303190203750134143,
        109333025069169947772172858038,
        25456078599479502946,
    );
    lemma_next_edge(
        862,
        109333025069169947772172859239,
        109396196543774813537532273494,
        109333025069169947772172858038,
        109396196543774813537532272291,
        25470786854572317921,
    );
    lemma_next_edge(
        863,
        109396196543774813537532273494,
        109459404518194819591107427683,
        109396196543774813537532272291,
        109459404518194819591107426478,
        25485503607940585258,
    );
    lemma_next_edge(
        864,
        109459404518194819591107427683,
        109522649013519176112149032437,
        109459404518194819591107426478,
        109522649013519176112149031231,
        25500228864494519335,
    );
    lemma_next_edge(
        865,
        109522649013519176112149032437,
        109585930050849278404250899373,
        109522649013519176112149031231,
        109585930050849278404250898165,
        25514962629147171603,
    );
    lemma_next_edge(
        866,
        109585930050849278404250899373,
        109649247651298713935786922599,
        109585930050849278404250898165,
        109649247651298713935786921389,
        25529704906814432223,
    );
    lemma_next_edge(
        867,
        109649247651298713935786922599,
        109712601835993269384415950839,
        109649247651298713935786921389,
        109712601835993269384415949627,
        25544455702415031704,
    );
    lemma_next_edge(
        868,
        109712601835993269384415950839,
        109775992626070937685656900541,
        109712601835993269384415949627,
        109775992626070937685656899327,
        25559215020870542547,
    );
    lemma_next_edge(
        869,
        109775992626070937685656900541,
        109839420042681925085536461732,
        109775992626070937685656899327,
        109839420042681925085536460516,
        25573982867105380885,
    );
    lemma_next_edge(
        870,
        109839420042681925085536461732,
        109902884106988658197311749701,
        109839420042681925085536460516,
        109902884106988658197311748483,
        25588759246046808129,
    );
}

proof fn lemma_edges_871_to_880()
    ensures
        edge_above(880) == 110539545037807568936454177724,
        edge_below(880) == 110539545037807568936454176488,
        bracket_is_tight(871),
        bracket_is_tight(872),
        bracket_is_tight(873),
        bracket_is_tight(874),
        bracket_is_tight(875),
        bracket_is_tight(876),
        bracket_is_tight(877),
        bracket_is_tight(878),
        bracket_is_tight(879),
        bracket_is_tight(880),
{
    lemma_edges_861_to_870();
    lemma_next_edge(
        871,
        109902884106988658197311749701,
        109966384840165791062270256989,
        109902884106988658197311748483,
        109966384840165791062270255769,
        25603544162624932608,
    );
    lemma_next_edge(
        872,
        109966384840165791062270256989,
        110029922263400212214609461495,
        109966384840165791062270255769,
        110029922263400212214609460273,
        25618337621772711216,
    );
    lemma_next_edge(
        873,
        110029922263400212214609461495,
        110093496397891051750398447883,
        110029922263400212214609460273,
        110093496397891051750398446660,
        25633139628425951058,
    );
    lemma_next_edge(
        874,
        110093496397891051750398447883,
        110157107264849688400623900843,
        110093496397891051750398446660,
        110157107264849688400623899618,
        25647950187523311098,
    );
    lemma_next_edge(
        875,
        110157107264849688400623900843,
        110220754885499756608322830098,
        110157107264849688400623899618,
        110220754885499756608322828871,
        25662769304006303803,
    );
    lemma_next_edge(
        876,
        110220754885499756608322830098,
        110284439281077153609804388440,
        110220754885499756608322828871,
        110284439281077153609804387211,
        25677596982819296795,
    );
    lemma_next_edge(
        877,
        110284439281077153609804388440,
        110348160472830046519963145427,
        110284439281077153609804387211,
        110348160472830046519963144197,
        25692433228909514500,
    );
    lemma_next_edge(
        878,
        110348160472830046519963145427,
        110411918482018879421686180740,
        110348160472830046519963144197,
        110411918482018879421686179508,
        25707278047227039799,
    );
    lemma_next_edge(
        879,
        110411918482018879421686180740,
        110475713329916380459356362563,
        110411918482018879421686179508,
        110475713329916380459356361329,
        25722131442724815677,
    );
    lemma_next_edge(
        880,
        110475713329916380459356362563,
        110539545037807568936454177724,
        110475713329916380459356361329,
        110539545037807568936454176488,
        25736993420358646880,
    );
}

proof fn lemma_edges_881_to_890()
    ensures
        edge_above(890) == 111179894107878918335680777673,
        edge_below(890) == 111179894107878918335680776419,
        bracket_is_tight(881),
        bracket_is_tight(882),
        bracket_is_tight(883),
        bracket_is_tight(884),
        bracket_is_tight(885),
        bracket_is_tight(886),
        bracket_is_tight(887),
        bracket_is_tight(888),
        bracket_is_tight(889),
        bracket_is_tight(890),
{
    lemma_edges_871_to_880();
    lemma_next_edge(
        881,
        110539545037807568936454177724,
        110603413626989762417260481698,
        110539545037807568936454176488,
        110603413626989762417260480460,
        25751863985087201563,
    );
    lemma_next_edge(
        882,
        110603413626989762417260481698,
        110667319118772583832662537933,
        110603413626989762417260480460,
        110667319118772583832662536693,
        25766743141872012949,
    );
    lemma_next_edge(
        883,
        110667319118772583832662537933,
        110731261534477968590065717342,
        110667319118772583832662536693,
        110731261534477968590065716101,
        25781630895677480985,
    );
    lemma_next_edge(
        884,
        110731261534477968590065717342,
        110795240895440171687413230173,
        110731261534477968590065716101,
        110795240895440171687413228930,
        25796527251470873991,
    );
    lemma_next_edge(
        885,
        110795240895440171687413230173,
        110859257223005774831316263819,
        110795240895440171687413228930,
        110859257223005774831316262575,
        25811432214222330328,
    );
    lemma_next_edge(
        886,
        110859257223005774831316263819,
        110923310538533693559296901540,
        110859257223005774831316262575,
        110923310538533693559296900294,
        25826345788904860048,
    );
    lemma_next_edge(
        887,
        110923310538533693559296901540,
        110987400863395184366146198396,
        110923310538533693559296900294,
        110987400863395184366146197148,
        25841267980494346555,
    );
    lemma_next_edge(
        888,
        110987400863395184366146198396,
        111051528218973851834399792103,
        110987400863395184366146197148,
        111051528218973851834399790853,
        25856198793969548269,
    );
    lemma_next_edge(
        889,
        111051528218973851834399792103,
        111115692626665655768933427872,
        111051528218973851834399790853,
        111115692626665655768933426620,
        25871138234312100283,
    );
    lemma_next_edge(
        890,
        111115692626665655768933427872,
        111179894107878918335680777673,
        111115692626665655768933426620,
        111179894107878918335680776419,
        25886086306506516025,
    );
}

proof fn lemma_edges_891_to_900()
    ensures
        edge_above(900) == 111823952682376045809157520666,
        edge_below(900) == 111823952682376045809157519393,
        bracket_is_tight(891),
        bracket_is_tight(892),
        bracket_is_tight(893),
        bracket_is_tight(894),
        bracket_is_tight(895),
        bracket_is_tight(896),
        bracket_is_tight(897),
        bracket_is_tight(898),
        bracket_is_tight(899),
        bracket_is_tight(900),
{
    lemma_edges_881_to_890();
    lemma_next_edge(
        891,
        111179894107878918335680777673,
        111244132684034331204475935750,
        111179894107878918335680776419,
        111244132684034331204475934494,
        25901043015540188925,
    );
    lemma_next_edge(
        892,
        111244132684034331204475935750,
        111308408376564962696022973573,
        111244132684034331204475934494,
        111308408376564962696022972315,
        25916008366403394076,
    );
    lemma_next_edge(
        893,
        111308408376564962696022973573,
        111372721206916264932994938804,
        111308408376564962696022972315,
        111372721206916264932994937544,
        25930982364089289898,
    );
    lemma_next_edge(
        894,
        111372721206916264932994938804,
        111437071196546080995264684225,
        111372721206916264932994937544,
        111437071196546080995264682963,
        25945965013593919807,
    );
    lemma_next_edge(
        895,
        111437071196546080995264684225,
        111501458366924652079269913957,
        111437071196546080995264682963,
        111501458366924652079269912693,
        25960956319916213882,
    );
    lemma_next_edge(
        896,
        111501458366924652079269913957,
        111565882739534624661514835673,
        111501458366924652079269912693,
        111565882739534624661514834407,
        25975956288057990527,
    );
    lemma_next_edge(
        897,
        111565882739534624661514835673,
        111630344335871057666210808899,
        111565882739534624661514834407,
        111630344335871057666210807631,
        25990964923023958148,
    );
    lemma_next_edge(
        898,
        111630344335871057666210808899,
        111694843177441429637058380867,
        111630344335871057666210807631,
        111694843177441429637058379597,
        26005982229821716817,
    );
    lemma_next_edge(
        899,
        111694843177441429637058380867,
        111759379285765645913173102772,
        111694843177441429637058379597,
        111759379285765645913173101501,
        26021008213461759946,
    );
    lemma_next_edge(
        900,
        111759379285765645913173102772,
        111823952682376045809157520666,
        111759379285765645913173101501,
        111823952682376045809157519393,
        26036042878957475957,
    );
}

proof fn lemma_edges_901_to_910()
    ensures
        edge_above(910) == 112471742250239480830749929114,
        edge_below(910) == 112471742250239480830749927821,
        bracket_is_tight(901),
        bracket_is_tight(902),
        bracket_is_tight(903),
        bracket_is_tight(904),
        bracket_is_tight(905),
        bracket_is_tight(906),
        bracket_is_tight(907),
        bracket_is_tight(908),
        bracket_is_tight(909),
        bracket_is_tight(910),
{
    lemma_edges_891_to_900();
    lemma_next_edge(
        901,
        111823952682376045809157520666,
        111888563388817409799321736603,
        111823952682376045809157519393,
        111888563388817409799321735328,
        26051086231325149956,
    );
    lemma_next_edge(
        902,
        111888563388817409799321736603,
        111953211426646966706054937038,
        111888563388817409799321735328,
        111953211426646966706054935761,
        26066138275583965403,
    );
    lemma_next_edge(
        903,
        111953211426646966706054937038,
        112017896817434400892350286865,
        111953211426646966706054935761,
        112017896817434400892350285586,
        26081199016756005793,
    );
    lemma_next_edge(
        904,
        112017896817434400892350286865,
        112082619582761859458485588863,
        112017896817434400892350285586,
        112082619582761859458485587582,
        26096268459866256328,
    );
    lemma_next_edge(
        905,
        112082619582761859458485588863,
        112147379744223959442862109710,
        112082619582761859458485587582,
        112147379744223959442862108427,
        26111346609942605590,
    );
    lemma_next_edge(
        906,
        112147379744223959442862109710,
        112212177323427795027003975109,
        112147379744223959442862108427,
        112212177323427795027003973824,
        26126433472015847226,
    );
    lemma_next_edge(
        907,
        112212177323427795027003975109,
        112277012341992944744720537959,
        112212177323427795027003973824,
        112277012341992944744720536672,
        26141529051119681622,
    );
    lemma_next_edge(
        908,
        112277012341992944744720537959,
        112341884821551478695434124894,
        112277012341992944744720536672,
        112341884821551478695434123605,
        26156633352290717582,
    );
    lemma_next_edge(
        909,
        112341884821551478695434124894,
        112406794783747965761675567900,
        112341884821551478695434123605,
        112406794783747965761675566609,
        26171746380568474011,
    );
    lemma_next_edge(
        910,
        112406794783747965761675567900,
        112471742250239480830749929114,
        112406794783747965761675566609,
        112471742250239480830749927821,
        26186868140995381594,
    );
}

proof fn lemma_edges_911_to_920()
    ensures
        edge_above(920) == 113123284424893918972172731170,
        edge_below(920) == 113123284424893918972172729859,
        bracket_is_tight(911),
        bracket_is_tight(912),
        bracket_is_tight(913),
        bracket_is_tight(914),
        bracket_is_tight(915),
        bracket_is_tight(916),
        bracket_is_tight(917),
        bracket_is_tight(918),
        bracket_is_tight(919),
        bracket_is_tight(920),
{
    lemma_edges_901_to_910();
    lemma_next_edge(
        911,
        112471742250239480830749929114,
        112536727242695612020574828300,
        112471742250239480830749927821,
        112536727242695612020574827005,
        26201998638616784481,
    );
    lemma_next_edge(
        912,
        112536727242695612020574828300,
        112601749782798467909693783887,
        112536727242695612020574827005,
        112601749782798467909693782590,
        26217137878480941968,
    );
    lemma_next_edge(
        913,
        112601749782798467909693783887,
        112666809892242684771466979843,
        112601749782798467909693782590,
        112666809892242684771466978545,
        26232285865639030182,
    );
    lemma_next_edge(
        914,
        112666809892242684771466979843,
        112731907592735433812441872071,
        112666809892242684771466978545,
        112731907592735433812441870771,
        26247442605145143767,
    );
    lemma_next_edge(
        915,
        112731907592735433812441872071,
        112797042905996428414906049376,
        112731907592735433812441870771,
        112797042905996428414906048074,
        26262608102056297571,
    );
    lemma_next_edge(
        916,
        112797042905996428414906049376,
        112862215853757931383624765484,
        112797042905996428414906048074,
        112862215853757931383624764180,
        26277782361432428329,
    );
    lemma_next_edge(
        917,
        112862215853757931383624765484,
        112927426457764762196765559959,
        112862215853757931383624764180,
        112927426457764762196765558653,
        26292965388336396357,
    );
    lemma_next_edge(
        918,
        112927426457764762196765559959,
        112992674739774304261012387281,
        112927426457764762196765558653,
        112992674739774304261012385974,
        26308157187833987238,
    );
    lemma_next_edge(
        919,
        112992674739774304261012387281,
        113057960721556512170871674736,
        112992674739774304261012385974,
        113057960721556512170871673427,
        26323357764993913512,
    );
    lemma_next_edge(
        920,
        113057960721556512170871674736,
        113123284424893918972172731170,
        113057960721556512170871673427,
        113123284424893918972172729859,
        26338567124887816369,
    );
}

proof fn lemma_edges_921_to_930()
    ensures
        edge_above(930) == 113778600944969351341075579187,
        edge_below(930) == 113778600944969351341075577858,
        bracket_is_tight(921),
        bracket_is_tight(922),
        bracket_is_tight(923),
        bracket_is_tight(924),
        bracket_is_tight(925),
        bracket_is_tight(926),
        bracket_is_tight(927),
        bracket_is_tight(928),
        bracket_is_tight(929),
        bracket_is_tight(930),
{
    lemma_edges_911_to_920();
    lemma_next_edge(
        921,
        113123284424893918972172731170,
        113188645871581643429764930062,
        113123284424893918972172729859,
        113188645871581643429764928749,
        26353785272590267340,
    );
    lemma_next_edge(
        922,
        113188645871581643429764930062,
        113254045083427397299414091765,
        113188645871581643429764928749,
        113254045083427397299414090450,
        26369012213178769988,
    );
    lemma_next_edge(
        923,
        113254045083427397299414091765,
        113319482082251492603900491169,
        113254045083427397299414090450,
        113319482082251492603900489852,
        26384247951733761608,
    );
    lemma_next_edge(
        924,
        113319482082251492603900491169,
        113384956889886848913320918444,
        113319482082251492603900489852,
        113384956889886848913320917125,
        26399492493338614915,
    );
    lemma_next_edge(
        925,
        113384956889886848913320918444,
        113450469528179000629597221913,
        113384956889886848913320917125,
        113450469528179000629597220593,
        26414745843079639746,
    );
    lemma_next_edge(
        926,
        113450469528179000629597221913,
        113516020018986104275193763530,
        113450469528179000629597220593,
        113516020018986104275193762208,
        26430008006046084752,
    );
    lemma_next_edge(
        927,
        113516020018986104275193763530,
        113581608384178945786046218809,
        113516020018986104275193762208,
        113581608384178945786046217485,
        26445278987330139100,
    );
    lemma_next_edge(
        928,
        113581608384178945786046218809,
        113647234645640947808704154497,
        113581608384178945786046217485,
        113647234645640947808704153171,
        26460558792026934170,
    );
    lemma_next_edge(
        929,
        113647234645640947808704154497,
        113712898825268177001689818646,
        113647234645640947808704153171,
        113712898825268177001689817319,
        26475847425234545256,
    );
    lemma_next_edge(
        930,
        113712898825268177001689818646,
        113778600944969351341075579187,
        113712898825268177001689817319,
        113778600944969351341075577858,
        26491144892053993266,
    );
}

proof fn lemma_edges_931_to_940()
    ensures
        edge_above(940) == 114437713675026371479465892970,
        edge_below(940) == 114437713675026371479465891621,
        bracket_is_tight(931),
        bracket_is_tight(932),
        bracket_is_tight(933),
        bracket_is_tight(934),
        bracket_is_tight(935),
        bracket_is_tight(936),
        bracket_is_tight(937),
        bracket_is_tight(938),
        bracket_is_tight(939),
        bracket_is_tight(940),
{
    lemma_edges_921_to_930();
    lemma_next_edge(
        931,
        113778600944969351341075579187,
        113844341026665847430282448478,
        113778600944969351341075577858,
        113844341026665847430282447147,
        26506451197589246424,
    );
    lemma_next_edge(
        932,
        113844341026665847430282448478,
        113910119092291707814102132742,
        113844341026665847430282447147,
        113910119092291707814102131409,
        26521766346947221974,
    );
    lemma_next_edge(
        933,
        113910119092291707814102132742,
        113975935163793648296945046693,
        113910119092291707814102131409,
        113975935163793648296945045358,
        26537090345237787883,
    );
    lemma_next_edge(
        934,
        113975935163793648296945046693,
        114041789263131065265316735069,
        113975935163793648296945045358,
        114041789263131065265316733732,
        26552423197573764545,
    );
    lemma_next_edge(
        935,
        114041789263131065265316735069,
        114107681412276043014525144208,
        114041789263131065265316733732,
        114107681412276043014525142869,
        26567764909070926489,
    );
    lemma_next_edge(
        936,
        114107681412276043014525144208,
        114173611633213361079621188200,
        114107681412276043014525142869,
        114173611633213361079621186859,
        26583115484848004086,
    );
    lemma_next_edge(
        937,
        114173611633213361079621188200,
        114239579947940501570575055570,
        114173611633213361079621186859,
        114239579947940501570575054227,
        26598474930026685254,
    );
    lemma_next_edge(
        938,
        114239579947940501570575055570,
        114305586378467656511690703865,
        114239579947940501570575054227,
        114305586378467656511690702520,
        26613843249731617168,
    );
    lemma_next_edge(
        939,
        114305586378467656511690703865,
        114371630946817735185260990915,
        114305586378467656511690702520,
        114371630946817735185260989568,
        26629220449090407972,
    );
    lemma_next_edge(
        940,
        114371630946817735185260990915,
        114437713675026371479465892970,
        114371630946817735185260989568,
        114437713675026371479465891621,
        26644606533233628488,
    );
}

proof fn lemma_edges_941_to_950()
    ensures
        edge_above(950) == 115100644606285683922250374131,
        edge_below(950) == 115100644606285683922250372762,
        bracket_is_tight(941),
        bracket_is_tight(942),
        bracket_is_tight(943),
        bracket_is_tight(944),
        bracket_is_tight(945),
        bracket_is_tight(946),
        bracket_is_tight(947),
        bracket_is_tight(948),
        bracket_is_tight(949),
        bracket_is_tight(950),
{
    lemma_edges_931_to_940();
    lemma_next_edge(
        941,
        114437713675026371479465892970,
        114503834585141931240516261325,
        114437713675026371479465891621,
        114503834585141931240516259974,
        26660001507294813926,
    );
    lemma_next_edge(
        942,
        114503834585141931240516261325,
        114569993699225519629045570455,
        114503834585141931240516259974,
        114569993699225519629045569102,
        26675405376410465602,
    );
    lemma_next_edge(
        943,
        114569993699225519629045570455,
        114636191039350988480752112110,
        114569993699225519629045569102,
        114636191039350988480752110755,
        26690818145720052645,
    );
    lemma_next_edge(
        944,
        114636191039350988480752112110,
        114702426627604943671294091232,
        114636191039350988480752110755,
        114702426627604943671294089875,
        26706239820366013719,
    );
    lemma_next_edge(
        945,
        114702426627604943671294091232,
        114768700486086752485440080972,
        114702426627604943671294089875,
        114768700486086752485440079613,
        26721670405493758732,
    );
    lemma_next_edge(
        946,
        114768700486086752485440080972,
        114835012636908550990477295516,
        114768700486086752485440079613,
        114835012636908550990477294155,
        26737109906251670558,
    );
    lemma_next_edge(
        947,
        114835012636908550990477295516,
        114901363102195251413880140837,
        114835012636908550990477294155,
        114901363102195251413880139474,
        26752558327791106751,
    );
    lemma_next_edge(
        948,
        114901363102195251413880140837,
        114967751904084549525241504918,
        114901363102195251413880139474,
        114967751904084549525241503553,
        26768015675266401267,
    );
    lemma_next_edge(
        949,
        114967751904084549525241504918,
        115034179064726932022469250412,
        114967751904084549525241503553,
        115034179064726932022469249045,
        26783481953834866179,
    );
    lemma_next_edge(
        950,
        115034179064726932022469250412,
        115100644606285683922250374131,
        115034179064726932022469249045,
        115100644606285683922250372762,
        26798957168656793405,
    );
}

proof fn lemma_edges_951_to_960()
    ensures
        edge_above(960) == 115767415857361838755864646144,
        edge_below(960) == 115767415857361838755864644756,
        bracket_is_tight(951),
        bracket_is_tight(952),
        bracket_is_tight(953),
        bracket_is_tight(954),
        bracket_is_tight(955),
        bracket_is_tight(956),
        bracket_is_tight(957),
        bracket_is_tight(958),
        bracket_is_tight(959),
        bracket_is_tight(960),
{
    lemma_edges_941_to_950();
    lemma_next_edge(
        951,
        115100644606285683922250374131,
        115167148550936895954785299174,
        115100644606285683922250372762,
        115167148550936895954785297803,
        26814441324895456423,
    );
    lemma_next_edge(
        952,
        115167148550936895954785299174,
        115233690920869471962794766931,
        115167148550936895954785297803,
        115233690920869471962794765558,
        26829934427717111997,
    );
    lemma_next_edge(
        953,
        115233690920869471962794766931,
        115300271738285136304801797631,
        115233690920869471962794765558,
        115300271738285136304801796256,
        26845436482291001898,
    );
    lemma_next_edge(
        954,
        115300271738285136304801797631,
        115366891025398441262691189519,
        115300271738285136304801796256,
        115366891025398441262691188142,
        26860947493789354634,
    );
    lemma_next_edge(
        955,
        115366891025398441262691189519,
        115433548804436774453549028181,
        115366891025398441262691188142,
        115433548804436774453549026802,
        26876467467387387169,
    );
    lemma_next_edge(
        956,
        115433548804436774453549028181,
        115500245097640366245784678961,
        115433548804436774453549026802,
        115500245097640366245784677580,
        26891996408263306657,
    );
    lemma_next_edge(
        957,
        115500245097640366245784678961,
        115566979927262297179537736849,
        115500245097640366245784677580,
        115566979927262297179537735466,
        26907534321598312161,
    );
    lemma_next_edge(
        958,
        115566979927262297179537736849,
        115633753315568505391372409632,
        115566979927262297179537735466,
        115633753315568505391372408247,
        26923081212576596391,
    );
    lemma_next_edge(
        959,
        115633753315568505391372409632,
        115700565284837794043261811554,
        115633753315568505391372408247,
        115700565284837794043261810167,
        26938637086385347425,
    );
    lemma_next_edge(
        960,
        115700565284837794043261811554,
        115767415857361838755864646144,
        115700565284837794043261810167,
        115767415857361838755864644756,
        26954201948214750448,
    );
}

proof fn lemma_edges_961_to_970()
    ensures
        edge_above(970) == 116438049675001216657960483346,
        edge_below(970) == 116438049675001216657960481939,
        bracket_is_tight(961),
        bracket_is_tight(962),
        bracket_is_tight(963),
        bracket_is_tight(964),
        bracket_is_tight(965),
        bracket_is_tight(966),
        bracket_is_tight(967),
        bracket_is_tight(968),
        bracket_is_tight(969),
        bracket_is_tight(970),
{
    lemma_edges_951_to_960();
    lemma_next_edge(
        961,
        115767415857361838755864646144,
        115834305055445195046096758311,
        115767415857361838755864644756,
        115834305055445195046096756921,
        26969775803257989476,
    );
    lemma_next_edge(
        962,
        115834305055445195046096758311,
        115901232901405305769000037233,
        115834305055445195046096756921,
        115901232901405305769000035841,
        26985358656711249093,
    );
    lemma_next_edge(
        963,
        115901232901405305769000037233,
        115968199417572508563911153012,
        115901232901405305769000035841,
        115968199417572508563911151618,
        27000950513773716187,
    );
    lemma_next_edge(
        964,
        115968199417572508563911153012,
        116035204626290043304932611487,
        115968199417572508563911151618,
        116035204626290043304932610091,
        27016551379647581677,
    );
    lemma_next_edge(
        965,
        116035204626290043304932611487,
        116102248549914059555708613039,
        116035204626290043304932610091,
        116102248549914059555708611641,
        27032161259538042256,
    );
    lemma_next_edge(
        966,
        116102248549914059555708613039,
        116169331210813624028508202666,
        116102248549914059555708611641,
        116169331210813624028508201266,
        27047780158653302125,
    );
    lemma_next_edge(
        967,
        116169331210813624028508202666,
        116236452631370728047618200026,
        116169331210813624028508201266,
        116236452631370728047618198624,
        27063408082204574731,
    );
    lemma_next_edge(
        968,
        116236452631370728047618200026,
        116303612833980295017048399599,
        116236452631370728047618198624,
        116303612833980295017048398195,
        27079045035406084503,
    );
    lemma_next_edge(
        969,
        116303612833980295017048399599,
        116370811841050187892551532555,
        116303612833980295017048398195,
        116370811841050187892551531150,
        27094691023475068597,
    );
    lemma_next_edge(
        970,
        116370811841050187892551532555,
        116438049675001216657960483346,
        116370811841050187892551531150,
        116438049675001216657960481939,
        27110346051631778632,
    );
}

proof fn lemma_edges_971_to_980()
    ensures
        edge_above(980) == 117112568434824289040936905530,
        edge_below(980) == 117112568434824289040936904104,
        bracket_is_tight(971),
        bracket_is_tight(972),
        bracket_is_tight(973),
        bracket_is_tight(974),
        bracket_is_tight(975),
        bracket_is_tight(976),
        bracket_is_tight(977),
        bracket_is_tight(978),
        bracket_is_tight(979),
        bracket_is_tight(980),
{
    lemma_edges_961_to_970();
    lemma_next_edge(
        971,
        116438049675001216657960483346,
        116505326358267145805845255489,
        116438049675001216657960481939,
        116505326358267145805845254080,
        27126010125099482436,
    );
    lemma_next_edge(
        972,
        116505326358267145805845255489,
        116572641913294701822492182445,
        116505326358267145805845254080,
        116572641913294701822492181034,
        27141683249104465783,
    );
    lemma_next_edge(
        973,
        116572641913294701822492182445,
        116639996362543580677207880949,
        116572641913294701822492181034,
        116639996362543580677207879536,
        27157365428876034142,
    );
    lemma_next_edge(
        974,
        116639996362543580677207880949,
        116707389728486455315950445566,
        116639996362543580677207879536,
        116707389728486455315950444151,
        27173056669646514421,
    );
    lemma_next_edge(
        975,
        116707389728486455315950445566,
        116774822033608983159290384726,
        116707389728486455315950444151,
        116774822033608983159290383309,
        27188756976651256709,
    );
    lemma_next_edge(
        976,
        116774822033608983159290384726,
        116842293300409813604703799903,
        116774822033608983159290383309,
        116842293300409813604703798484,
        27204466355128636026,
    );
    lemma_next_edge(
        977,
        116842293300409813604703799903,
        116909803551400595533200311070,
        116842293300409813604703798484,
        116909803551400595533200309649,
        27220184810320054073,
    );
    lemma_next_edge(
        978,
        116909803551400595533200311070,
        116977352809105984820288232999,
        116909803551400595533200309649,
        116977352809105984820288231576,
        27235912347469940973,
    );
    lemma_next_edge(
        979,
        116977352809105984820288232999,
        117044941096063651851279508424,
        116977352809105984820288231576,
        117044941096063651851279506999,
        27251648971825757030,
    );
    lemma_next_edge(
        980,
        117044941096063651851279508424,
        117112568434824289040936905530,
        117044941096063651851279506999,
        117112568434824289040936904104,
        27267394688637994473,
    );
}

proof fn lemma_edges_981_to_990()
    ensures
        edge_above(990) == 117790994642072178064739764605,
        edge_below(990) == 117790994642072178064739763160,
        bracket_is_tight(981),
        bracket_is_tight(982),
        bracket_is_tight(983),
        bracket_is_tight(984),
        bracket_is_tight(985),
        bracket_is_tight(986),
        bracket_is_tight(987),
        bracket_is_tight(988),
        bracket_is_tight(989),
        bracket_is_tight(990),
{
    lemma_edges_971_to_980();
    lemma_next_edge(
        981,
        117112568434824289040936905530,
        117180234847951618357465988693,
        117112568434824289040936904104,
        117180234847951618357465987265,
        27283149503160179211,
    );
    lemma_next_edge(
        982,
        117180234847951618357465988693,
        117247940358022398850854372818,
        117180234847951618357465987265,
        117247940358022398850854371388,
        27298913420648872585,
    );
    lemma_next_edge(
        983,
        117247940358022398850854372818,
        117315684987626434185560773110,
        117247940358022398850854371388,
        117315684987626434185560771678,
        27314686446363673123,
    );
    lemma_next_edge(
        984,
        117315684987626434185560773110,
        117383468759366580177556363526,
        117315684987626434185560771678,
        117383468759366580177556362092,
        27330468585567218293,
    );
    lemma_next_edge(
        985,
        117383468759366580177556363526,
        117451291695858752335720958640,
        117383468759366580177556362092,
        117451291695858752335720957204,
        27346259843525186260,
    );
    lemma_next_edge(
        986,
        117451291695858752335720958640,
        117519153819731933407596535083,
        117451291695858752335720957204,
        117519153819731933407596533646,
        27362060225506297641,
    );
    lemma_next_edge(
        987,
        117519153819731933407596535083,
        117587055153628180929500610190,
        117519153819731933407596533646,
        117587055153628180929500608751,
        27377869736782317267,
    );
    lemma_next_edge(
        988,
        117587055153628180929500610190,
        117654995720202634781001996927,
        117587055153628180929500608751,
        117654995720202634781001995486,
        27393688382628055937,
    );
    lemma_next_edge(
        989,
        117654995720202634781001996927,
        117722975542123524743761455638,
        117654995720202634781001995486,
        117722975542123524743761454195,
        27409516168321372183,
    );
    lemma_next_edge(
        990,
        117722975542123524743761455638,
        117790994642072178064739764605,
        117722975542123524743761454195,
        117790994642072178064739763160,
        27425353099143174027,
    );
}

proof fn lemma_edges_991_to_1000()
    ensures
        edge_above(1000) == 118473350932357541427819095154,
        edge_below(1000) == 118473350932357541427819093690,
        bracket_is_tight(991),
        bracket_is_tight(992),
        bracket_is_tight(993),
        bracket_is_tight(994),
        bracket_is_tight(995),
        bracket_is_tight(996),
        bracket_is_tight(997),
        bracket_is_tight(998),
        bracket_is_tight(999),
        bracket_is_tight(1000),
{
    lemma_edges_981_to_990();
    lemma_next_edge(
        991,
        117790994642072178064739764605,
        117859053042743027023775732862,
        117790994642072178064739763160,
        117859053042743027023775731415,
        27441199180377420743,
    );
    lemma_next_edge(
        992,
        117859053042743027023775732862,
        117927150766843616505536680180,
        117859053042743027023775731415,
        117927150766843616505536678731,
        27457054417311124622,
    );
    lemma_next_edge(
        993,
        117927150766843616505536680180,
        117995287837094611575843910579,
        117927150766843616505536678731,
        117995287837094611575843909129,
        27472918815234352736,
    );
    lemma_next_edge(
        994,
        117995287837094611575843910579,
        118063464276229805062375707202,
        117995287837094611575843909129,
        118063464276229805062375705750,
        27488792379440228703,
    );
    lemma_next_edge(
        995,
        118063464276229805062375707202,
        118131680106996125139750377825,
        118063464276229805062375705750,
        118131680106996125139750376371,
        27504675115224934449,
    );
    lemma_next_edge(
        996,
        118131680106996125139750377825,
        118199935352153642918991881762,
        118131680106996125139750376371,
        118199935352153642918991880306,
        27520567027887711982,
    );
    lemma_next_edge(
        997,
        118199935352153642918991881762,
        118268230034475580041380570370,
        118199935352153642918991880306,
        118268230034475580041380568912,
        27536468122730865153,
    );
    lemma_next_edge(
        998,
        118268230034475580041380570370,
        118336564176748316276691574822,
        118268230034475580041380568912,
        118336564176748316276691573362,
        27552378405059761433,
    );
    lemma_next_edge(
        999,
        118336564176748316276691574822,
        118404937801771397125823376293,
        118336564176748316276691573362,
        118404937801771397125823374831,
        27568297880182833673,
    );
    lemma_next_edge(
        1000,
        118404937801771397125823376293,
        118473350932357541427819095154,
        118404937801771397125823374831,
        118473350932357541427819093690,
        27584226553411581886,
    );
}

proof fn lemma_edges_1001_to_1010()
    ensures
        edge_above(1010) == 119159660072419806989429228381,
        edge_below(1010) == 119159660072419806989429226897,
        bracket_is_tight(1001),
        bracket_is_tight(1002),
        bracket_is_tight(1003),
        bracket_is_tight(1004),
        bracket_is_tight(1005),
        bracket_is_tight(1006),
        bracket_is_tight(1007),
        bracket_is_tight(1008),
        bracket_is_tight(1009),
        bracket_is_tight(1010),
{
    lemma_edges_991_to_1000();
    lemma_next_edge(
        1001,
        118473350932357541427819095154,
        118541803591332648971283037243,
        118473350932357541427819093690,
        118541803591332648971283035777,
        27600164430060575012,
    );
    lemma_next_edge(
        1002,
        118541803591332648971283037243,
        118610295801535808110195036747,
        118541803591332648971283035777,
        118610295801535808110195035279,
        27616111515447452691,
    );
    lemma_next_edge(
        1003,
        118610295801535808110195036747,
        118678827585819303384125136695,
        118610295801535808110195035279,
        118678827585819303384125135225,
        27632067814892927042,
    );
    lemma_next_edge(
        1004,
        118678827585819303384125136695,
        118747398967048623142851149531,
        118678827585819303384125135225,
        118747398967048623142851148059,
        27648033333720784435,
    );
    lemma_next_edge(
        1005,
        118747398967048623142851149531,
        118816009968102467175381641705,
        118747398967048623142851148059,
        118816009968102467175381640231,
        27664008077257887269,
    );
    lemma_next_edge(
        1006,
        118816009968102467175381641705,
        118884660611872754343386887690,
        118816009968102467175381640231,
        118884660611872754343386886214,
        27679992050834175745,
    );
    lemma_next_edge(
        1007,
        118884660611872754343386887690,
        118953350921264630219040340305,
        118884660611872754343386886214,
        118953350921264630219040338827,
        27695985259782669652,
    );
    lemma_next_edge(
        1008,
        118953350921264630219040340305,
        119022080919196474727273165686,
        118953350921264630219040338827,
        119022080919196474727273164206,
        27711987709439470137,
    );
    lemma_next_edge(
        1009,
        119022080919196474727273165686,
        119090850628599909792444392743,
        119022080919196474727273164206,
        119090850628599909792444391261,
        27727999405143761494,
    );
    lemma_next_edge(
        1010,
        119090850628599909792444392743,
        119159660072419806989429228381,
        119090850628599909792444391261,
        119159660072419806989429226897,
        27744020352237812940,
    );
}

proof fn lemma_edges_1011_to_1020()
    ensures
        edge_above(1020) == 119849944960884782421588293147,
        edge_below(1020) == 119849944960884782421588291644,
        bracket_is_tight(1011),
        bracket_is_tight(1012),
        bracket_is_tight(1013),
        bracket_is_tight(1014),
        bracket_is_tight(1015),
        bracket_is_tight(1016),
        bracket_is_tight(1017),
        bracket_is_tight(1018),
        bracket_is_tight(1019),
        bracket_is_tight(1020),
{
    lemma_edges_1001_to_1010();
    lemma_next_edge(
        1011,
        119159660072419806989429228381,
        119228509273614295199128091268,
        119159660072419806989429226897,
        119228509273614295199128089782,
        27760050556066980399,
    );
    lemma_next_edge(
        1012,
        119228509273614295199128091268,
        119297398255154768268398918390,
        119228509273614295199128089782,
        119297398255154768268398916902,
        27776090021979708288,
    );
    lemma_next_edge(
        1013,
        119297398255154768268398918390,
        119366327040025892674415300110,
        119297398255154768268398916902,
        119366327040025892674415298620,
        27792138755327531294,
    );
    lemma_next_edge(
        1014,
        119366327040025892674415300110,
        119435295651225615193453000938,
        119366327040025892674415298620,
        119435295651225615193452999446,
        27808196761465076170,
    );
    lemma_next_edge(
        1015,
        119435295651225615193453000938,
        119504304111765170574107424673,
        119435295651225615193452999446,
        119504304111765170574107423179,
        27824264045750063513,
    );
    lemma_next_edge(
        1016,
        119504304111765170574107424673,
        119573352444669089214944584085,
        119504304111765170574107423179,
        119573352444669089214944582589,
        27840340613543309555,
    );
    lemma_next_edge(
        1017,
        119573352444669089214944584085,
        119642440672975204846588136759,
        119573352444669089214944582589,
        119642440672975204846588135261,
        27856426470208727952,
    );
    lemma_next_edge(
        1018,
        119642440672975204846588136759,
        119711568819734662218245050216,
        119642440672975204846588135261,
        119711568819734662218245048716,
        27872521621113331574,
    );
    lemma_next_edge(
        1019,
        119711568819734662218245050216,
        119780736908011924788672460905,
        119711568819734662218245048716,
        119780736908011924788672459404,
        27888626071627234293,
    );
    lemma_next_edge(
        1020,
        119780736908011924788672460905,
        119849944960884782421588293147,
        119780736908011924788672459404,
        119849944960884782421588291644,
        27904739827123652777,
    );
}

proof fn lemma_edges_1021_to_1030()
    ensures
        edge_above(1030) == 120544228629028665234986091063,
        edge_below(1030) == 120544228629028665234986089540,
        bracket_is_tight(1021),
        bracket_is_tight(1022),
        bracket_is_tight(1023),
        bracket_is_tight(1024),
        bracket_is_tight(1025),
        bracket_is_tight(1026),
        bracket_is_tight(1027),
        bracket_is_tight(1028),
        bracket_is_tight(1029),
        bracket_is_tight(1030),
{
    lemma_edges_1011_to_1020();
    lemma_next_edge(
        1021,
        119849944960884782421588293147,
        119919193001444359085528205574,
        119849944960884782421588291644,
        119919193001444359085528204069,
        27920862892978908282,
    );
    lemma_next_edge(
        1022,
        119919193001444359085528205574,
        119988481052795120558151434122,
        119919193001444359085528204069,
        119988481052795120558151432615,
        27936995274572428446,
    );
    lemma_next_edge(
        1023,
        119988481052795120558151434122,
        120057809138054882134998102089,
        119988481052795120558151432615,
        120057809138054882134998100580,
        27953136977286749086,
    );
    lemma_next_edge(
        1024,
        120057809138054882134998102089,
        120127177280354816342700569280,
        120057809138054882134998100580,
        120127177280354816342700567769,
        27969288006507515988,
    );
    lemma_next_edge(
        1025,
        120127177280354816342700569280,
        120196585502839460656651393730,
        120127177280354816342700567769,
        120196585502839460656651392217,
        27985448367623486710,
    );
    lemma_next_edge(
        1026,
        120196585502839460656651393730,
        120266033828666725223130480988,
        120196585502839460656651392217,
        120266033828666725223130479473,
        28001618066026532376,
    );
    lemma_next_edge(
        1027,
        120266033828666725223130480988,
        120335522281007900585893997440,
        120266033828666725223130479473,
        120335522281007900585893995923,
        28017797107111639480,
    );
    lemma_next_edge(
        1028,
        120335522281007900585893997440,
        120405050883047665417227625624,
        120335522281007900585893995923,
        120405050883047665417227624105,
        28033985496276911679,
    );
    lemma_next_edge(
        1029,
        120405050883047665417227625624,
        120474619657984094253466740993,
        120405050883047665417227624105,
        120474619657984094253466739472,
        28050183238923571598,
    );
    lemma_next_edge(
        1030,
        120474619657984094253466740993,
        120544228629028665234986091063,
        120474619657984094253466739472,
        120544228629028665234986089540,
        28066390340455962633,
    );
}

proof fn lemma_edges_1031_to_1040()
    ensures
        edge_above(1040) == 121242534241546478669947305072,
        edge_below(1040) == 121242534241546478669947303530,
        bracket_is_tight(1031),
        bracket_is_tight(1032),
        bracket_is_tight(1033),
        bracket_is_tight(1034),
        bracket_is_tight(1035),
        bracket_is_tight(1036),
        bracket_is_tight(1037),
        bracket_is_tight(1038),
        bracket_is_tight(1039),
        bracket_is_tight(1040),
{
    lemma_edges_1021_to_1030();
    lemma_next_edge(
        1031,
        120544228629028665234986091063,
        120613877819406267850661559379,
        120544228629028665234986089540,
        120613877819406267850661557854,
        28082606806281550753,
    );
    lemma_next_edge(
        1032,
        120613877819406267850661559379,
        120683567252355210686806598220,
        120613877819406267850661557854,
        120683567252355210686806596694,
        28098832641810926303,
    );
    lemma_next_edge(
        1033,
        120683567252355210686806598220,
        120753296951127229180585915466,
        120683567252355210686806596694,
        120753296951127229180585913938,
        28115067852457805812,
    );
    lemma_next_edge(
        1034,
        120753296951127229180585915466,
        120823066938987493377909002528,
        120753296951127229180585913938,
        120823066938987493377909000998,
        28131312443639033795,
    );
    lemma_next_edge(
        1035,
        120823066938987493377909002528,
        120892877239214615695806091756,
        120823066938987493377909000998,
        120892877239214615695806090224,
        28147566420774584566,
    );
    lemma_next_edge(
        1036,
        120892877239214615695806091756,
        120962727875100658689289133218,
        120892877239214615695806090224,
        120962727875100658689289131684,
        28163829789287564040,
    );
    lemma_next_edge(
        1037,
        120962727875100658689289133218,
        121032618869951142822700382252,
        120962727875100658689289131684,
        121032618869951142822700380716,
        28180102554604211549,
    );
    lemma_next_edge(
        1038,
        121032618869951142822700382252,
        121102550247085054245551190683,
        121032618869951142822700380716,
        121102550247085054245551189145,
        28196384722153901646,
    );
    lemma_next_edge(
        1039,
        121102550247085054245551190683,
        121172522029834852572853596098,
        121102550247085054245551189145,
        121172522029834852572853594558,
        28212676297369145922,
    );
    lemma_next_edge(
        1040,
        121172522029834852572853596098,
        121242534241546478669947305072,
        121172522029834852572853594558,
        121242534241546478669947303530,
        28228977285685594816,
    );
}

proof fn lemma_edges_1041_to_1050()
    ensures
        edge_above(1050) == 121944885097324959091225481341,
        edge_below(1050) == 121944885097324959091225479779,
        bracket_is_tight(1041),
        bracket_is_tight(1042),
        bracket_is_tight(1043),
        bracket_is_tight(1044),
        bracket_is_tight(1045),
        bracket_is_tight(1046),
        bracket_is_tight(1047),
        bracket_is_tight(1048),
        bracket_is_tight(1049),
        bracket_is_tight(1050),
{
    lemma_edges_1031_to_1040();
    lemma_next_edge(
        1041,
        121242534241546478669947305072,
        121312586905579362441824667734,
        121242534241546478669947303530,
        121312586905579362441824666190,
        28245287692542039427,
    );
    lemma_next_edge(
        1042,
        121312586905579362441824667734,
        121382680045306430626956242566,
        121312586905579362441824666190,
        121382680045306430626956241020,
        28261607523380413332,
    );
    lemma_next_edge(
        1043,
        121382680045306430626956242566,
        121452813684114114595619551832,
        121382680045306430626956241020,
        121452813684114114595619550284,
        28277936783645794400,
    );
    lemma_next_edge(
        1044,
        121452813684114114595619551832,
        121522987845402358152733629527,
        121452813684114114595619550284,
        121522987845402358152733627977,
        28294275478786406609,
    );
    lemma_next_edge(
        1045,
        121522987845402358152733629527,
        121593202552584625345201965252,
        121522987845402358152733627977,
        121593202552584625345201963700,
        28310623614253621862,
    );
    lemma_next_edge(
        1046,
        121593202552584625345201965252,
        121663457829087908273766448913,
        121593202552584625345201963700,
        121663457829087908273766447359,
        28326981195501961810,
    );
    lemma_next_edge(
        1047,
        121663457829087908273766448913,
        121733753698352734909374922660,
        121663457829087908273766447359,
        121733753698352734909374921104,
        28343348227989099666,
    );
    lemma_next_edge(
        1048,
        121733753698352734909374922660,
        121804090183833176914064947973,
        121733753698352734909374921104,
        121804090183833176914064946415,
        28359724717175862034,
    );
    lemma_next_edge(
        1049,
        121804090183833176914064947973,
        121874467308996857466366397325,
        121804090183833176914064946415,
        121874467308996857466366395765,
        28376110668526230722,
    );
    lemma_next_edge(
        1050,
        121874467308996857466366397325,
        121944885097324959091225481341,
        121874467308996857466366395765,
        121944885097324959091225479779,
        28392506087507344571,
    );
}

proof fn lemma_edges_1051_to_1060()
    ensures
        edge_above(1060) == 122651304630219920673927139461,
        edge_below(1060) == 122651304630219920673927137879,
        bracket_is_tight(1051),
        bracket_is_tight(1052),
        bracket_is_tight(1053),
        bracket_is_tight(1054),
        bracket_is_tight(1055),
        bracket_is_tight(1056),
        bracket_is_tight(1057),
        bracket_is_tight(1058),
        bracket_is_tight(1059),
        bracket_is_tight(1060),
{
    lemma_edges_1041_to_1050();
    lemma_next_edge(
        1051,
        121944885097324959091225481341,
        122015343572312231494452823904,
        121944885097324959091225479779,
        122015343572312231494452822340,
        28408910979589501279,
    );
    lemma_next_edge(
        1052,
        122015343572312231494452823904,
        122085842757466999401698199141,
        122015343572312231494452822340,
        122085842757466999401698197575,
        28425325350246159221,
    );
    lemma_next_edge(
        1053,
        122085842757466999401698199141,
        122156382676311170401954545761,
        122085842757466999401698197575,
        122156382676311170401954544193,
        28441749204953939282,
    );
    lemma_next_edge(
        1054,
        122156382676311170401954545761,
        122226963352380242795593875704,
        122156382676311170401954544193,
        122226963352380242795593874134,
        28458182549192626681,
    );
    lemma_next_edge(
        1055,
        122226963352380242795593875704,
        122297584809223313446937695583,
        122226963352380242795593874134,
        122297584809223313446937694011,
        28474625388445172796,
    );
    lemma_next_edge(
        1056,
        122297584809223313446937695583,
        122368247070403085641364560919,
        122297584809223313446937694011,
        122368247070403085641364559345,
        28491077728197697001,
    );
    lemma_next_edge(
        1057,
        122368247070403085641364560919,
        122438950159495876946957384671,
        122368247070403085641364559345,
        122438950159495876946957383095,
        28507539573939488490,
    );
    lemma_next_edge(
        1058,
        122438950159495876946957384671,
        122509694100091627080693123085,
        122438950159495876946957383095,
        122509694100091627080693121507,
        28524010931163008111,
    );
    lemma_next_edge(
        1059,
        122509694100091627080693123085,
        122580478915793905779177463399,
        122509694100091627080693121507,
        122580478915793905779177461819,
        28540491805363890198,
    );
    lemma_next_edge(
        1060,
        122580478915793905779177463399,
        122651304630219920673927139461,
        122580478915793905779177461819,
        122651304630219920673927137879,
        28556982202040944406,
    );
}

proof fn lemma_edges_1061_to_1070()
    ensures
        edge_above(1070) == 123361816409838123317249671411,
        edge_below(1070) == 123361816409838123317249669809,
        bracket_is_tight(1061),
        bracket_is_tight(1062),
        bracket_is_tight(1063),
        bracket_is_tight(1064),
        bracket_is_tight(1065),
        bracket_is_tight(1066),
        bracket_is_tight(1067),
        bracket_is_tight(1068),
        bracket_is_tight(1069),
        bracket_is_tight(1070),
{
    lemma_edges_1051_to_1060();
    lemma_next_edge(
        1061,
        122651304630219920673927139461,
        122722171267000525171202502831,
        122651304630219920673927137879,
        122722171267000525171202501247,
        28573482126696157542,
    );
    lemma_next_edge(
        1062,
        122722171267000525171202502831,
        122793078849780226336392978453,
        122722171267000525171202501247,
        122793078849780226336392976867,
        28589991584834695407,
    );
    lemma_next_edge(
        1063,
        122793078849780226336392978453,
        122864027402217192782958035510,
        122793078849780226336392976867,
        122864027402217192782958033922,
        28606510581964904625,
    );
    lemma_next_edge(
        1064,
        122864027402217192782958035510,
        122935016947983262565926305593,
        122864027402217192782958033922,
        122935016947983262565926304003,
        28623039123598314488,
    );
    lemma_next_edge(
        1065,
        122935016947983262565926305593,
        123006047510763951079955481826,
        122935016947983262565926304003,
        123006047510763951079955480234,
        28639577215249638791,
    );
    lemma_next_edge(
        1066,
        123006047510763951079955481826,
        123077119114258458961955634125,
        123006047510763951079955480234,
        123077119114258458961955632531,
        28656124862436777671,
    );
    lemma_next_edge(
        1067,
        123077119114258458961955634125,
        123148231782179679998278577282,
        123077119114258458961955632531,
        123148231782179679998278575686,
        28672682070680819452,
    );
    lemma_next_edge(
        1068,
        123148231782179679998278577282,
        123219385538254209036475930093,
        123148231782179679998278575686,
        123219385538254209036475928495,
        28689248845506042484,
    );
    lemma_next_edge(
        1069,
        123219385538254209036475930093,
        123290580406222349901628505271,
        123219385538254209036475928495,
        123290580406222349901628503671,
        28705825192439916987,
    );
    lemma_next_edge(
        1070,
        123290580406222349901628505271,
        123361816409838123317249671411,
        123290580406222349901628503671,
        123361816409838123317249669809,
        28722411117013106895,
    );
}

proof fn lemma_edges_1071_to_1080()
    ensures
        edge_above(1080) == 124076444142323669872966369676,
        edge_below(1080) == 124076444142323669872966368053,
        bracket_is_tight(1071),
        bracket_is_tight(1072),
        bracket_is_tight(1073),
        bracket_is_tight(1074),
        bracket_is_tight(1075),
        bracket_is_tight(1076),
        bracket_is_tight(1077),
        bracket_is_tight(1078),
        bracket_is_tight(1079),
        bracket_is_tight(1080),
{
    lemma_edges_1061_to_1070();
    lemma_next_edge(
        1071,
        123361816409838123317249671411,
        123433093572869274830765329799,
        123361816409838123317249669809,
        123433093572869274830765328195,
        28739006624759471704,
    );
    lemma_next_edge(
        1072,
        123433093572869274830765329799,
        123504411919097282743573150386,
        123433093572869274830765328195,
        123504411919097282743573148780,
        28755611721216068311,
    );
    lemma_next_edge(
        1073,
        123504411919097282743573150386,
        123575771472317366045683712776,
        123504411919097282743573148780,
        123575771472317366045683711168,
        28772226411923152871,
    );
    lemma_next_edge(
        1074,
        123575771472317366045683712776,
        123647172256338492354946199605,
        123575771472317366045683711168,
        123647172256338492354946197995,
        28788850702424182640,
    );
    lemma_next_edge(
        1075,
        123647172256338492354946199605,
        123718614294983385860861291210,
        123647172256338492354946197995,
        123718614294983385860861289598,
        28805484598265817823,
    );
    lemma_next_edge(
        1076,
        123718614294983385860861291210,
        123790097612088535272983912037,
        123718614294983385860861289598,
        123790097612088535272983910423,
        28822128104997923429,
    );
    lemma_next_edge(
        1077,
        123790097612088535272983912037,
        123861622231504201773918480748,
        123790097612088535272983910423,
        123861622231504201773918479132,
        28838781228173571121,
    );
    lemma_next_edge(
        1078,
        123861622231504201773918480748,
        123933188177094426976909317525,
        123861622231504201773918479132,
        123933188177094426976909315907,
        28855443973349041068,
    );
    lemma_next_edge(
        1079,
        123933188177094426976909317525,
        124004795472737040888028863616,
        123933188177094426976909315907,
        124004795472737040888028861995,
        28872116346083823799,
    );
    lemma_next_edge(
        1080,
        124004795472737040888028863616,
        124076444142323669872966369676,
        124004795472737040888028861995,
        124076444142323669872966368053,
        28888798351940622058,
    );
}

proof fn lemma_edges_1081_to_1090()
    ensures
        edge_above(1090) == 124795211671148958926711992400,
        edge_below(1090) == 124795211671148958926711990757,
        bracket_is_tight(1081),
        bracket_is_tight(1082),
        bracket_is_tight(1083),
        bracket_is_tight(1084),
        bracket_is_tight(1085),
        bracket_is_tight(1086),
        bracket_is_tight(1087),
        bracket_is_tight(1088),
        bracket_is_tight(1089),
        bracket_is_tight(1090),
{
    lemma_edges_1071_to_1080();
    lemma_next_edge(
        1081,
        124076444142323669872966369676,
        124148134209759744628419711019,
        124076444142323669872966368053,
        124148134209759744628419709394,
        28905489996485352663,
    );
    lemma_next_edge(
        1082,
        124148134209759744628419711019,
        124219865698964508158092989412,
        124148134209759744628419709394,
        124219865698964508158092987785,
        28922191285287148356,
    );
    lemma_next_edge(
        1083,
        124219865698964508158092989412,
        124291638633871023753302582584,
        124219865698964508158092987785,
        124291638633871023753302580955,
        28938902223918359670,
    );
    lemma_next_edge(
        1084,
        124291638633871023753302582584,
        124363453038426182978194304172,
        124291638633871023753302580955,
        124363453038426182978194302541,
        28955622817954556779,
    );
    lemma_next_edge(
        1085,
        124363453038426182978194304172,
        124435308936590713659574338344,
        124363453038426182978194302541,
        124435308936590713659574336711,
        28972353072974531367,
    );
    lemma_next_edge(
        1086,
        124435308936590713659574338344,
        124507206352339187881356614899,
        124435308936590713659574336711,
        124507206352339187881356613264,
        28989092994560298483,
    );
    lemma_next_edge(
        1087,
        124507206352339187881356614899,
        124579145309660029983629292172,
        124507206352339187881356613264,
        124579145309660029983629290535,
        29005842588297098406,
    );
    lemma_next_edge(
        1088,
        124579145309660029983629292172,
        124651125832555524566343016610,
        124579145309660029983629290535,
        124651125832555524566343014971,
        29022601859773398509,
    );
    lemma_next_edge(
        1089,
        124651125832555524566343016610,
        124723147945041824497623629443,
        124651125832555524566343014971,
        124723147945041824497623627802,
        29039370814580895123,
    );
    lemma_next_edge(
        1090,
        124723147945041824497623629443,
        124795211671148958926711992400,
        124723147945041824497623627802,
        124795211671148958926711990757,
        29056149458314515401,
    );
}

proof fn lemma_edges_1091_to_1100()
    ensures
        edge_above(1100) == 125518142977910219522117770601,
        edge_below(1100) == 125518142977910219522117768937,
        bracket_is_tight(1091),
        bracket_is_tight(1092),
        bracket_is_tight(1093),
        bracket_is_tight(1094),
        bracket_is_tight(1095),
        bracket_is_tight(1096),
        bracket_is_tight(1097),
        bracket_is_tight(1098),
        bracket_is_tight(1099),
        bracket_is_tight(1100),
{
    lemma_edges_1081_to_1090();
    lemma_next_edge(
        1091,
        124795211671148958926711992400,
        124867317034920841301533605972,
        124795211671148958926711990757,
        124867317034920841301533604327,
        29072937796572419187,
    );
    lemma_next_edge(
        1092,
        124867317034920841301533605972,
        124939464060415277390900695270,
        124867317034920841301533604327,
        124939464060415277390900693623,
        29089735834956000883,
    );
    lemma_next_edge(
        1093,
        124939464060415277390900695270,
        125011652771703973311349440069,
        124939464060415277390900693623,
        125011652771703973311349438420,
        29106543579069891319,
    );
    lemma_next_edge(
        1094,
        125011652771703973311349440069,
        125083883192872543558615027172,
        125011652771703973311349438420,
        125083883192872543558615025521,
        29123361034521959620,
    );
    lemma_next_edge(
        1095,
        125083883192872543558615027172,
        125156155348020519043747204781,
        125083883192872543558615025521,
        125156155348020519043747203128,
        29140188206923315079,
    );
    lemma_next_edge(
        1096,
        125156155348020519043747204781,
        125228469261261355133869020111,
        125156155348020519043747203128,
        125228469261261355133869018456,
        29157025101888309032,
    );
    lemma_next_edge(
        1097,
        125228469261261355133869020111,
        125300824956722439697581423025,
        125228469261261355133869018456,
        125300824956722439697581421368,
        29173871725034536724,
    );
    lemma_next_edge(
        1098,
        125300824956722439697581423025,
        125373222458545101155016420029,
        125300824956722439697581421368,
        125373222458545101155016418370,
        29190728081982839191,
    );
    lemma_next_edge(
        1099,
        125373222458545101155016420029,
        125445661790884616532541464502,
        125373222458545101155016418370,
        125445661790884616532541462840,
        29207594178357305130,
    );
    lemma_next_edge(
        1100,
        125445661790884616532541464502,
        125518142977910219522117770601,
        125445661790884616532541462840,
        125518142977910219522117768937,
        29224470019785272778,
    );
}

proof fn lemma_edges_1101_to_1110()
    ensures
        edge_above(1110) == 126245262183127654370720760488,
        edge_below(1110) == 126245262183127654370720758803,
        bracket_is_tight(1101),
        bracket_is_tight(1102),
        bracket_is_tight(1103),
        bracket_is_tight(1104),
        bracket_is_tight(1105),
        bracket_is_tight(1106),
        bracket_is_tight(1107),
        bracket_is_tight(1108),
        bracket_is_tight(1109),
        bracket_is_tight(1110),
{
    lemma_edges_1091_to_1100();
    lemma_next_edge(
        1101,
        125518142977910219522117770601,
        125590666043805108545315239834,
        125518142977910219522117768937,
        125590666043805108545315238168,
        29241355611897331790,
    );
    lemma_next_edge(
        1102,
        125590666043805108545315239834,
        125663231012766454821986690835,
        125590666043805108545315238168,
        125663231012766454821986689167,
        29258250960327325115,
    );
    lemma_next_edge(
        1103,
        125663231012766454821986690835,
        125735837909005410443604084441,
        125663231012766454821986689167,
        125735837909005410443604082771,
        29275156070712350878,
    );
    lemma_next_edge(
        1104,
        125735837909005410443604084441,
        125808486756747116451259437722,
        125735837909005410443604082771,
        125808486756747116451259436050,
        29292070948692764261,
    );
    lemma_next_edge(
        1105,
        125808486756747116451259437722,
        125881177580230710918333122176,
        125808486756747116451259436050,
        125881177580230710918333120502,
        29308995599912179383,
    );
    lemma_next_edge(
        1106,
        125881177580230710918333122176,
        125953910403709337037832242847,
        125881177580230710918333120502,
        125953910403709337037832241171,
        29325930030017471183,
    );
    lemma_next_edge(
        1107,
        125953910403709337037832242847,
        126026685251450151214401796701,
        125953910403709337037832241171,
        126026685251450151214401795023,
        29342874244658777308,
    );
    lemma_next_edge(
        1108,
        126026685251450151214401796701,
        126099502147734331161011310130,
        126026685251450151214401795023,
        126099502147734331161011308450,
        29359828249489499992,
    );
    lemma_next_edge(
        1109,
        126099502147734331161011310130,
        126172361116857084000319657034,
        126099502147734331161011308450,
        126172361116857084000319655352,
        29376792050166307949,
    );
    lemma_next_edge(
        1110,
        126172361116857084000319657034,
        126245262183127654370720760488,
        126172361116857084000319655352,
        126245262183127654370720758803,
        29393765652349138254,
    );
}

proof fn lemma_edges_1111_to_1120()
    ensures
        edge_above(1120) == 126976593547050218244334043759,
        edge_below(1120) == 126976593547050218244334042053,
        bracket_is_tight(1111),
        bracket_is_tight(1112),
        bracket_is_tight(1113),
        bracket_is_tight(1114),
        bracket_is_tight(1115),
        bracket_is_tight(1116),
        bracket_is_tight(1117),
        bracket_is_tight(1118),
        bracket_is_tight(1119),
        bracket_is_tight(1120),
{
    lemma_edges_1101_to_1110();
    lemma_next_edge(
        1111,
        126245262183127654370720760488,
        126318205370869332537072882550,
        126245262183127654370720758803,
        126318205370869332537072880863,
        29410749061701198234,
    );
    lemma_next_edge(
        1112,
        126318205370869332537072882550,
        126391190704419462506114208347,
        126318205370869332537072880863,
        126391190704419462506114206658,
        29427742283888967360,
    );
    lemma_next_edge(
        1113,
        126391190704419462506114208347,
        126464218208129450146567432123,
        126391190704419462506114206658,
        126464218208129450146567430432,
        29444745324582199135,
    );
    lemma_next_edge(
        1114,
        126464218208129450146567432123,
        126537287906364771313936054514,
        126464218208129450146567430432,
        126537287906364771313936052821,
        29461758189453922984,
    );
    lemma_next_edge(
        1115,
        126537287906364771313936054514,
        126610399823504979979995101861,
        126537287906364771313936052821,
        126610399823504979979995100166,
        29478780884180446151,
    );
    lemma_next_edge(
        1116,
        126610399823504979979995101861,
        126683553983943716366978979957,
        126610399823504979979995100166,
        126683553983943716366978978260,
        29495813414441355590,
    );
    lemma_next_edge(
        1117,
        126683553983943716366978979957,
        126756750412088715086469176181,
        126683553983943716366978978260,
        126756750412088715086469174482,
        29512855785919519860,
    );
    lemma_next_edge(
        1118,
        126756750412088715086469176181,
        126829989132361813282984525540,
        126756750412088715086469174482,
        126829989132361813282984523839,
        29529908004301091024,
    );
    lemma_next_edge(
        1119,
        126829989132361813282984525540,
        126903270169198958782276757714,
        126829989132361813282984523839,
        126903270169198958782276756010,
        29546970075275506541,
    );
    lemma_next_edge(
        1120,
        126903270169198958782276757714,
        126976593547050218244334043759,
        126903270169198958782276756010,
        126976593547050218244334042053,
        29564042004535491170,
    );
}

proof fn lemma_edges_1121_to_1130()
    ensures
        edge_above(1130) == 127712161470465058401216610283,
        edge_below(1130) == 127712161470465058401216608557,
        bracket_is_tight(1121),
        bracket_is_tight(1122),
        bracket_is_tight(1123),
        bracket_is_tight(1124),
        bracket_is_tight(1125),
        bracket_is_tight(1126),
        bracket_is_tight(1127),
        bracket_is_tight(1128),
        bracket_is_tight(1129),
        bracket_is_tight(1130),
{
    lemma_edges_1111_to_1120();
    lemma_next_edge(
        1121,
        126976593547050218244334043759,
        127049959290379785321095262715,
        126976593547050218244334042053,
        127049959290379785321095261007,
        29581123797777058865,
    );
    lemma_next_edge(
        1122,
        127049959290379785321095262715,
        127123367423665988818877709908,
        127049959290379785321095261007,
        127123367423665988818877708198,
        29598215460699514677,
    );
    lemma_next_edge(
        1123,
        127123367423665988818877709908,
        127196817971401300865520970332,
        127123367423665988818877708198,
        127196817971401300865520968620,
        29615316999005456657,
    );
    lemma_next_edge(
        1124,
        127196817971401300865520970332,
        127270310958092345082249682059,
        127196817971401300865520968620,
        127270310958092345082249680345,
        29632428418400777756,
    );
    lemma_next_edge(
        1125,
        127270310958092345082249682059,
        127343846408259904760257916204,
        127270310958092345082249680345,
        127343846408259904760257914488,
        29649549724594667731,
    );
    lemma_next_edge(
        1126,
        127343846408259904760257916204,
        127417424346438931042017901544,
        127343846408259904760257914488,
        127417424346438931042017899826,
        29666680923299615049,
    );
    lemma_next_edge(
        1127,
        127417424346438931042017901544,
        127491044797178551107315823465,
        127417424346438931042017899826,
        127491044797178551107315821745,
        29683822020231408791,
    );
    lemma_next_edge(
        1128,
        127491044797178551107315823465,
        127564707785042076364017428498,
        127491044797178551107315821745,
        127564707785042076364017426776,
        29700973021109140563,
    );
    lemma_next_edge(
        1129,
        127564707785042076364017428498,
        127638413334607010643566167270,
        127564707785042076364017426776,
        127638413334607010643566165546,
        29718133931655206402,
    );
    lemma_next_edge(
        1130,
        127638413334607010643566167270,
        127712161470465058401216610283,
        127638413334607010643566165546,
        127712161470465058401216608557,
        29735304757595308685,
    );
}

proof fn lemma_edges_1131_to_1140()
    ensures
        edge_above(1140) == 128451990495511644052929981087,
        edge_below(1140) == 128451990495511644052929979340,
        bracket_is_tight(1131),
        bracket_is_tight(1132),
        bracket_is_tight(1133),
        bracket_is_tight(1134),
        bracket_is_tight(1135),
        bracket_is_tight(1136),
        bracket_is_tight(1137),
        bracket_is_tight(1138),
        bracket_is_tight(1139),
        bracket_is_tight(1140),
{
    lemma_edges_1121_to_1130();
    lemma_next_edge(
        1131,
        127712161470465058401216610283,
        127785952217222132921005872513,
        127712161470465058401216608557,
        127785952217222132921005870785,
        29752485504658458038,
    );
    lemma_next_edge(
        1132,
        127785952217222132921005872513,
        127859785599498364525465784398,
        127785952217222132921005870785,
        127859785599498364525465782668,
        29769676178576975252,
    );
    lemma_next_edge(
        1133,
        127859785599498364525465784398,
        127933661641928108790078548370,
        127859785599498364525465782668,
        127933661641928108790078546638,
        29786876785086493192,
    );
    lemma_next_edge(
        1134,
        127933661641928108790078548370,
        128007580369159954762478621671,
        127933661641928108790078546638,
        128007580369159954762478619936,
        29804087329925958711,
    );
    lemma_next_edge(
        1135,
        128007580369159954762478621671,
        128081541805856733186403567764,
        128007580369159954762478619936,
        128081541805856733186403566027,
        29821307818837634565,
    );
    lemma_next_edge(
        1136,
        128081541805856733186403567764,
        128155545976695524730396620253,
        128081541805856733186403566027,
        128155545976695524730396618514,
        29838538257567101329,
    );
    lemma_next_edge(
        1137,
        128155545976695524730396620253,
        128229592906367668221263704795,
        128155545976695524730396618514,
        128229592906367668221263703054,
        29855778651863259315,
    );
    lemma_next_edge(
        1138,
        128229592906367668221263704795,
        128303682619578768882287666080,
        128229592906367668221263703054,
        128303682619578768882287664337,
        29873029007478330490,
    );
    lemma_next_edge(
        1139,
        128303682619578768882287666080,
        128377815141048706576202448548,
        128303682619578768882287664337,
        128377815141048706576202446803,
        29890289330167860393,
    );
    lemma_next_edge(
        1140,
        128377815141048706576202448548,
        128451990495511644052929981087,
        128377815141048706576202446803,
        128451990495511644052929979340,
        29907559625690720057,
    );
}

proof fn lemma_edges_1141_to_1150()
    ensures
        edge_above(1150) == 129196105306500612035217934676,
        edge_below(1150) == 129196105306500612035217932908,
        bracket_is_tight(1141),
        bracket_is_tight(1142),
        bracket_is_tight(1143),
        bracket_is_tight(1144),
        bracket_is_tight(1145),
        bracket_is_tight(1146),
        bracket_is_tight(1147),
        bracket_is_tight(1148),
        bracket_is_tight(1149),
        bracket_is_tight(1150),
{
    lemma_edges_1131_to_1140();
    lemma_next_edge(
        1141,
        128451990495511644052929981087,
        128526208707716035202082517559,
        128451990495511644052929979340,
        128526208707716035202082515810,
        29924839899809107930,
    );
    lemma_next_edge(
        1142,
        128526208707716035202082517559,
        128600469802424633310233186578,
        128526208707716035202082515810,
        128600469802424633310233184827,
        29942130158288551800,
    );
    lemma_next_edge(
        1143,
        128600469802424633310233186578,
        128674773804414499322957505567,
        128600469802424633310233184827,
        128674773804414499322957503814,
        29959430406897910713,
    );
    lemma_next_edge(
        1144,
        128674773804414499322957505567,
        128749120738477010111648615701,
        128674773804414499322957503814,
        128749120738477010111648613946,
        29976740651409376905,
    );
    lemma_next_edge(
        1145,
        128749120738477010111648615701,
        128823510629417866745108995950,
        128749120738477010111648613946,
        128823510629417866745108994193,
        29994060897598477720,
    );
    lemma_next_edge(
        1146,
        128823510629417866745108995950,
        128897943502057102765921416016,
        128823510629417866745108994193,
        128897943502057102765921414257,
        30011391151244077545,
    );
    lemma_next_edge(
        1147,
        128897943502057102765921416016,
        128972419381229092471601889554,
        128897943502057102765921414257,
        128972419381229092471601887792,
        30028731418128379731,
    );
    lemma_next_edge(
        1148,
        128972419381229092471601889554,
        129046938291782559200537390677,
        128972419381229092471601887792,
        129046938291782559200537388913,
        30046081704036928528,
    );
    lemma_next_edge(
        1149,
        129046938291782559200537390677,
        129121500258580583622711098324,
        129046938291782559200537388913,
        129121500258580583622711096558,
        30063442014758611011,
    );
    lemma_next_edge(
        1150,
        129121500258580583622711098324,
        129196105306500612035217934676,
        129121500258580583622711096558,
        129196105306500612035217932908,
        30080812356085659013,
    );
}

proof fn lemma_edges_1151_to_1160()
    ensures
        edge_above(1160) == 129944530730737356003601306535,
        edge_below(1160) == 129944530730737356003601304745,
        bracket_is_tight(1151),
        bracket_is_tight(1152),
        bracket_is_tight(1153),
        bracket_is_tight(1154),
        bracket_is_tight(1155),
        bracket_is_tight(1156),
        bracket_is_tight(1157),
        bracket_is_tight(1158),
        bracket_is_tight(1159),
        bracket_is_tight(1160),
{
    lemma_edges_1141_to_1150();
    lemma_next_edge(
        1151,
        129196105306500612035217934676,
        129270753460434464662573165401,
        129196105306500612035217932908,
        129270753460434464662573163631,
        30098192733813651061,
    );
    lemma_next_edge(
        1152,
        129270753460434464662573165401,
        129345444745288343961816831108,
        129270753460434464662573163631,
        129345444745288343961816829336,
        30115583153741514302,
    );
    lemma_next_edge(
        1153,
        129345444745288343961816831108,
        129420179185982842932416780997,
        129345444745288343961816829336,
        129420179185982842932416779222,
        30132983621671526445,
    );
    lemma_next_edge(
        1154,
        129420179185982842932416780997,
        129494956807452953430973081275,
        129420179185982842932416779222,
        129494956807452953430973079498,
        30150394143409317693,
    );
    lemma_next_edge(
        1155,
        129494956807452953430973081275,
        129569777634648074490726572539,
        129494956807452953430973079498,
        129569777634648074490726570760,
        30167814724763872682,
    );
    lemma_next_edge(
        1156,
        129569777634648074490726572539,
        129644641692532020645874351893,
        129569777634648074490726570760,
        129644641692532020645874350111,
        30185245371547532419,
    );
    lemma_next_edge(
        1157,
        129644641692532020645874351893,
        129719549006083030260694957206,
        129644641692532020645874350111,
        129719549006083030260694955422,
        30202686089575996218,
    );
    lemma_next_edge(
        1158,
        129719549006083030260694957206,
        129794499600293773863486032501,
        129719549006083030260694955422,
        129794499600293773863486030715,
        30220136884668323646,
    );
    lemma_next_edge(
        1159,
        129794499600293773863486032501,
        129869493500171362485317255071,
        129794499600293773863486030715,
        129869493500171362485317253283,
        30237597762646936459,
    );
    lemma_next_edge(
        1160,
        129869493500171362485317255071,
        129944530730737356003601306535,
        129869493500171362485317253283,
        129944530730737356003601304745,
        30255068729337620550,
    );
}

proof fn lemma_edges_1161_to_1170()
    ensures
        edge_above(1170) == 130697291739350386632646990102,
        edge_below(1170) == 130697291739350386632646988292,
        bracket_is_tight(1161),
        bracket_is_tight(1162),
        bracket_is_tight(1163),
        bracket_is_tight(1164),
        bracket_is_tight(1165),
        bracket_is_tight(1166),
        bracket_is_tight(1167),
        bracket_is_tight(1168),
        bracket_is_tight(1169),
        bracket_is_tight(1170),
{
    lemma_edges_1151_to_1160();
    lemma_next_edge(
        1161,
        129944530730737356003601306535,
        130019611317027771490485671653,
        129944530730737356003601304745,
        130019611317027771490485669861,
        30272549790569527888,
    );
    lemma_next_edge(
        1162,
        130019611317027771490485671653,
        130094735284093091566068050312,
        130019611317027771490485669861,
        130094735284093091566068048518,
        30290040952175178465,
    );
    lemma_next_edge(
        1163,
        130094735284093091566068050312,
        130169902656998272756438169728,
        130094735284093091566068048518,
        130169902656998272756438167932,
        30307542219990462241,
    );
    lemma_next_edge(
        1164,
        130169902656998272756438169728,
        130245113460822753856548785502,
        130169902656998272756438167932,
        130245113460822753856548783704,
        30325053599854641095,
    );
    lemma_next_edge(
        1165,
        130245113460822753856548785502,
        130320367720660464297918661781,
        130245113460822753856548783704,
        130320367720660464297918659981,
        30342575097610350768,
    );
    lemma_next_edge(
        1166,
        130320367720660464297918661781,
        130395665461619832521170322401,
        130320367720660464297918659981,
        130395665461619832521170320599,
        30360106719103602814,
    );
    lemma_next_edge(
        1167,
        130395665461619832521170322401,
        130471006708823794353405366480,
        130395665461619832521170320599,
        130471006708823794353405364676,
        30377648470183786553,
    );
    lemma_next_edge(
        1168,
        130471006708823794353405366480,
        130546391487409801390420143566,
        130471006708823794353405364676,
        130546391487409801390420141760,
        30395200356703671020,
    );
    lemma_next_edge(
        1169,
        130546391487409801390420143566,
        130621819822529829383764585039,
        130546391487409801390420141760,
        130621819822529829383764583231,
        30412762384519406917,
    );
    lemma_next_edge(
        1170,
        130621819822529829383764585039,
        130697291739350386632646990102,
        130621819822529829383764583231,
        130697291739350386632646988292,
        30430334559490528571,
    );
}

proof fn lemma_edges_1171_to_1180()
    ensures
        edge_above(1180) == 131454413448124490457054258394,
        edge_below(1180) == 131454413448124490457054256564,
        bracket_is_tight(1171),
        bracket_is_tight(1172),
        bracket_is_tight(1173),
        bracket_is_tight(1174),
        bracket_is_tight(1175),
        bracket_is_tight(1176),
        bracket_is_tight(1177),
        bracket_is_tight(1178),
        bracket_is_tight(1179),
        bracket_is_tight(1180),
{
    lemma_edges_1161_to_1170();
    lemma_next_edge(
        1171,
        130697291739350386632646990102,
        130772807263052522380687566291,
        130697291739350386632646988292,
        130772807263052522380687564479,
        30447916887479955885,
    );
    lemma_next_edge(
        1172,
        130772807263052522380687566291,
        130848366418831835217523526075,
        130772807263052522380687564479,
        130848366418831835217523524261,
        30465509374353996296,
    );
    lemma_next_edge(
        1173,
        130848366418831835217523526075,
        130923969231898481485268542717,
        130848366418831835217523524261,
        130923969231898481485268540901,
        30483112025982346732,
    );
    lemma_next_edge(
        1174,
        130923969231898481485268542717,
        130999615727477183689829370196,
        130923969231898481485268540901,
        130999615727477183689829368378,
        30500724848238095569,
    );
    lemma_next_edge(
        1175,
        130999615727477183689829370196,
        131075305930807238917082433608,
        130999615727477183689829368378,
        131075305930807238917082431788,
        30518347846997724594,
    );
    lemma_next_edge(
        1176,
        131075305930807238917082433608,
        131151039867142527253913198087,
        131075305930807238917082431788,
        131151039867142527253913196265,
        30535981028141110962,
    );
    lemma_next_edge(
        1177,
        131151039867142527253913198087,
        131226817561751520214121125906,
        131151039867142527253913196265,
        131226817561751520214121124082,
        30553624397551529160,
    );
    lemma_next_edge(
        1178,
        131226817561751520214121125906,
        131302639039917289169193033050,
        131226817561751520214121124082,
        131302639039917289169193031224,
        30571277961115652968,
    );
    lemma_next_edge(
        1179,
        131302639039917289169193033050,
        131378504326937513783947658160,
        131302639039917289169193031224,
        131378504326937513783947656332,
        30588941724723557426,
    );
    lemma_next_edge(
        1180,
        131378504326937513783947658160,
        131454413448124490457054258394,
        131378504326937513783947656332,
        131454413448124490457054256564,
        30606615694268720797,
    );
}

proof fn lemma_edges_1181_to_1190()
    ensures
        edge_above(1190) == 132215921118338715152807659756,
        edge_below(1190) == 132215921118338715152807657903,
        bracket_is_tight(1181),
        bracket_is_tight(1182),
        bracket_is_tight(1183),
        bracket_is_tight(1184),
        bracket_is_tight(1185),
        bracket_is_tight(1186),
        bracket_is_tight(1187),
        bracket_is_tight(1188),
        bracket_is_tight(1189),
        bracket_is_tight(1190),
{
    lemma_edges_1171_to_1180();
    lemma_next_edge(
        1181,
        131454413448124490457054258394,
        131530366428805140766428048362,
        131454413448124490457054256564,
        131530366428805140766428046530,
        30624299875648026534,
    );
    lemma_next_edge(
        1182,
        131530366428805140766428048362,
        131606363294321019919505299925,
        131530366428805140766428046530,
        131606363294321019919505298091,
        30641994274761765246,
    );
    lemma_next_edge(
        1183,
        131606363294321019919505299925,
        131682404070028325208400922272,
        131606363294321019919505298091,
        131682404070028325208400920436,
        30659698897513636670,
    );
    lemma_next_edge(
        1184,
        131682404070028325208400922272,
        131758488781297904469951343326,
        131682404070028325208400920436,
        131758488781297904469951341487,
        30677413749810751637,
    );
    lemma_next_edge(
        1185,
        131758488781297904469951343326,
        131834617453515264550645515147,
        131758488781297904469951341487,
        131834617453515264550645513306,
        30695138837563634047,
    );
    lemma_next_edge(
        1186,
        131834617453515264550645515147,
        131910790112080579776446867651,
        131834617453515264550645513306,
        131910790112080579776446865807,
        30712874166686222837,
    );
    lemma_next_edge(
        1187,
        131910790112080579776446867651,
        131987006782408700427509036568,
        131910790112080579776446865807,
        131987006782408700427509034722,
        30730619743095873955,
    );
    lemma_next_edge(
        1188,
        131987006782408700427509036568,
        132063267489929161217788193227,
        131987006782408700427509034722,
        132063267489929161217788191379,
        30748375572713362337,
    );
    lemma_next_edge(
        1189,
        132063267489929161217788193227,
        132139572260086189779554805357,
        132063267489929161217788191379,
        132139572260086189779554803506,
        30766141661462883880,
    );
    lemma_next_edge(
        1190,
        132139572260086189779554805357,
        132215921118338715152807659756,
        132139572260086189779554803506,
        132215921118338715152807657903,
        30783918015272057418,
    );
}

proof fn lemma_edges_1191_to_1199()
    ensures
        edge_above(1199) == 132905049014920229069859078746,
        edge_below(1199) == 132905049014920229069859076872,
        bracket_is_tight(1191),
        bracket_is_tight(1192),
        bracket_is_tight(1193),
        bracket_is_tight(1194),
        bracket_is_tight(1195),
        bracket_is_tight(1196),
        bracket_is_tight(1197),
        bracket_is_tight(1198),
        bracket_is_tight(1199),
{
    lemma_edges_1181_to_1190();
    lemma_next_edge(
        1191,
        132215921118338715152807659756,
        132292314090160376279592979300,
        132215921118338715152807657903,
        132292314090160376279592977444,
        30801704640071926704,
    );
    lemma_next_edge(
        1192,
        132292314090160376279592979300,
        132368751201039530503231468399,
        132292314090160376279592977444,
        132368751201039530503231466540,
        30819501541796962383,
    );
    lemma_next_edge(
        1193,
        132368751201039530503231468399,
        132445232476479262072456122657,
        132368751201039530503231466540,
        132445232476479262072456120796,
        30837308726385063975,
    );
    lemma_next_edge(
        1194,
        132445232476479262072456122657,
        132521757941997390650463640122,
        132445232476479262072456120796,
        132521757941997390650463638259,
        30855126199777561858,
    );
    lemma_next_edge(
        1195,
        132521757941997390650463640122,
        132598327623126479828882273146,
        132521757941997390650463638259,
        132598327623126479828882271281,
        30872953967919219246,
    );
    lemma_next_edge(
        1196,
        132598327623126479828882273146,
        132674941545413845646658961536,
        132598327623126479828882271281,
        132674941545413845646658959669,
        30890792036758234177,
    );
    lemma_next_edge(
        1197,
        132674941545413845646658961536,
        132751599734421565113868589294,
        132674941545413845646658959669,
        132751599734421565113868587425,
        30908640412246241494,
    );
    lemma_next_edge(
        1198,
        132751599734421565113868589294,
        132828302215726484740448208902,
        132751599734421565113868587425,
        132828302215726484740448207030,
        30926499100338314833,
    );
    lemma_next_edge(
        1199,
        132828302215726484740448208902,
        132905049014920229069859078746,
        132828302215726484740448207030,
        132905049014920229069859076872,
        30944368106992968608,
    );
}

proof fn lemma_brackets_1_to_100(c: nat)
    requires
        1 <= c <= 100,
    ensures
        bracket_is_tight(c),
{
    if c == 1 {
        lemma_edges_1_to_10();
    } else if c == 2 {
        lemma_edges_1_to_10();
    } else if c == 3 {
        lemma_edges_1_to_10();
    } else if c == 4 {
        lemma_edges_1_to_10();
    } else if c == 5 {
        lemma_edges_1_to_10();
    } else if c == 6 {
        lemma_edges_1_to_10();
    } else if c == 7 {
        lemma_edges_1_to_10();
    } else if c == 8 {
        lemma_edges_1_to_10();
    } else if c == 9 {
        lemma_edges_1_to_10();
    } else if c == 10 {
        lemma_edges_1_to_10();
    } else if c == 11 {
        lemma_edges_11_to_20();
    } else if c == 12 {
        lemma_edges_11_to_20();
    } else if c == 13 {
        lemma_edges_11_to_20();
    } else if c == 14 {
        lemma_edges_11_to_20();
    } else if c == 15 {
        lemma_edges_11_to_20();
    } else if c == 16 {
        lemma_edges_11_to_20();
    } else if c == 17 {
        lemma_edges_11_to_20();
    } else if c == 18 {
        lemma_edges_11_to_20();
    } else if c == 19 {
        lemma_edges_11_to_20();
    } else if c == 20 {
        lemma_edges_11_to_20();
    } else if c == 21 {
        lemma_edges_21_to_30();
    } else if c == 22 {
        lemma_edges_21_to_30();
    } else if c == 23 {
        lemma_edges_21_to_30();
    } else if c == 24 {
        lemma_edges_21_to_30();
    } else if c == 25 {
        lemma_edges_21_to_30();
    } else if c == 26 {
        lemma_edges_21_to_30();
    } else if c == 27 {
        lemma_edges_21_to_30();
    } else if c == 28 {
        lemma_edges_21_to_30();
    } else if c == 29 {
        lemma_edges_21_to_30();
    } else if c == 30 {
        lemma_edges_21_to_30();
    } else if c == 31 {
        lemma_edges_31_to_40();
    } else if c == 32 {
        lemma_edges_31_to_40();
    } else if c == 33 {
        lemma_edges_31_to_40();
    } else if c == 34 {
        lemma_edges_31_to_40();
    } else if c == 35 {
        lemma_edges_31_to_40();
    } else if c == 36 {
        lemma_edges_31_to_40();
    } else if c == 37 {
        lemma_edges_31_to_40();
    } else if c == 38 {
        lemma_edges_31_to_40();
    } else if c == 39 {
        lemma_edges_31_to_40();
    } else if c == 40 {
        lemma_edges_31_to_40();
    } else if c == 41 {
        lemma_edges_41_to_50();
    } else if c == 42 {
        lemma_edges_41_to_50();
    } else if c == 43 {
        lemma_edges_41_to_50();
    } else if c == 44 {
        lemma_edges_41_to_50();
    } else if c == 45 {
        lemma_edges_41_to_50();
    } else if c == 46 {
        lemma_edges_41_to_50();
    } else if c == 47 {
        lemma_edges_41_to_50();
    } else if c == 48 {
        lemma_edges_41_to_50();
    } else if c == 49 {
        lemma_edges_41_to_50();
    } else if c == 50 {
        lemma_edges_41_to_50();
    } else if c == 51 {
        lemma_edges_51_to_60();
    } else if c == 52 {
        lemma_edges_51_to_60();
    } else if c == 53 {
        lemma_edges_51_to_60();
    } else if c == 54 {
        lemma_edges_51_to_60();
    } else if c == 55 {
        lemma_edges_51_to_60();
    } else if c == 56 {
        lemma_edges_51_to_60();
    } else if c == 57 {
        lemma_edges_51_to_60();
    } else if c == 58 {
        lemma_edges_51_to_60();
    } else if c == 59 {
        lemma_edges_51_to_60();
    } else if c == 60 {
        lemma_edges_51_to_60();
    } else if c == 61 {
        lemma_edges_61_to_70();
    } else if c == 62 {
        lemma_edges_61_to_70();
    } else if c == 63 {
        lemma_edges_61_to_70();
    } else if c == 64 {
        lemma_edges_61_to_70();
    } else if c == 65 {
        lemma_edges_61_to_70();
    } else if c == 66 {
        lemma_edges_61_to_70();
    } else if c == 67 {
        lemma_edges_61_to_70();
    } else if c == 68 {
        lemma_edges_61_to_70();
    } else if c == 69 {
        lemma_edges_61_to_70();
    } else if c == 70 {
        lemma_edges_61_to_70();
    } else if c == 71 {
        lemma_edges_71_to_80();
    } else if c == 72 {
        lemma_edges_71_to_80();
    } else if c == 73 {
        lemma_edges_71_to_80();
    } else if c == 74 {
        lemma_edges_71_to_80();
    } else if c == 75 {
        lemma_edges_71_to_80();
    } else if c == 76 {
        lemma_edges_71_to_80();
    } else if c == 77 {
        lemma_edges_71_to_80();
    } else if c == 78 {
        lemma_edges_71_to_80();
    } else if c == 79 {
        lemma_edges_71_to_80();
    } else if c == 80 {
        lemma_edges_71_to_80();
    } else if c == 81 {
        lemma_edges_81_to_90();
    } else if c == 82 {
        lemma_edges_81_to_90();
    } else if c == 83 {
        lemma_edges_81_to_90();
    } else if c == 84 {
        lemma_edges_81_to_90();
    } else if c == 85 {
        lemma_edges_81_to_90();
    } else if c == 86 {
        lemma_edges_81_to_90();
    } else if c == 87 {
        lemma_edges_81_to_90();
    } else if c == 88 {
        lemma_edges_81_to_90();
    } else if c == 89 {
        lemma_edges_81_to_90();
    } else if c == 90 {
        lemma_edges_81_to_90();
    } else if c == 91 {
        lemma_edges_91_to_100();
    } else if c == 92 {
        lemma_edges_91_to_100();
    } else if c == 93 {
        lemma_edges_91_to_100();
    } else if c == 94 {
        lemma_edges_91_to_100();
    } else if c == 95 {
        lemma_edges_91_to_100();
    } else if c == 96 {
        lemma_edges_91_to_100();
    } else if c == 97 {
        lemma_edges_91_to_100();
    } else if c == 98 {
        lemma_edges_91_to_100();
    } else if c == 99 {
        lemma_edges_91_to_100();
    } else {
        lemma_edges_91_to_100();
    }
}

proof fn lemma_brackets_101_to_200(c: nat)
    requires
        101 <= c <= 200,
    ensures
        bracket_is_tight(c),
{
    if c == 101 {
        lemma_edges_101_to_110();
    } else if c == 102 {
        lemma_edges_101_to_110();
    } else if c == 103 {
        lemma_edges_101_to_110();
    } else if c == 104 {
        lemma_edges_101_to_110();
    } else if c == 105 {
        lemma_edges_101_to_110();
    } else if c == 106 {
        lemma_edges_101_to_110();
    } else if c == 107 {
        lemma_edges_101_to_110();
    } else if c == 108 {
        lemma_edges_101_to_110();
    } else if c == 109 {
        lemma_edges_101_to_110();
    } else if c == 110 {
        lemma_edges_101_to_110();
    } else if c == 111 {
        lemma_edges_111_to_120();
    } else if c == 112 {
        lemma_edges_111_to_120();
    } else if c == 113 {
        lemma_edges_111_to_120();
    } else if c == 114 {
        lemma_edges_111_to_120();
    } else if c == 115 {
        lemma_edges_111_to_120();
    } else if c == 116 {
        lemma_edges_111_to_120();
    } else if c == 117 {
        lemma_edges_111_to_120();
    } else if c == 118 {
        lemma_edges_111_to_120();
    } else if c == 119 {
        lemma_edges_111_to_120();
    } else if c == 120 {
        lemma_edges_111_to_120();
    } else if c == 121 {
        lemma_edges_121_to_130();
    } else if c == 122 {
        lemma_edges_121_to_130();
    } else if c == 123 {
        lemma_edges_121_to_130();
    } else if c == 124 {
        lemma_edges_121_to_130();
    } else if c == 125 {
        lemma_edges_121_to_130();
    } else if c == 126 {
        lemma_edges_121_to_130();
    } else if c == 127 {
        lemma_edges_121_to_130();
    } else if c == 128 {
        lemma_edges_121_to_130();
    } else if c == 129 {
        lemma_edges_121_to_130();
    } else if c == 130 {
        lemma_edges_121_to_130();
    } else if c == 131 {
        lemma_edges_131_to_140();
    } else if c == 132 {
        lemma_edges_131_to_140();
    } else if c == 133 {
        lemma_edges_131_to_140();
    } else if c == 134 {
        lemma_edges_131_to_140();
    } else if c == 135 {
        lemma_edges_131_to_140();
    } else if c == 136 {
        lemma_edges_131_to_140();
    } else if c == 137 {
        lemma_edges_131_to_140();
    } else if c == 138 {
        lemma_edges_131_to_140();
    } else if c == 139 {
        lemma_edges_131_to_140();
    } else if c == 140 {
        lemma_edges_131_to_140();
    } else if c == 141 {
        lemma_edges_141_to_150();
    } else if c == 142 {
        lemma_edges_141_to_150();
    } else if c == 143 {
        lemma_edges_141_to_150();
    } else if c == 144 {
        lemma_edges_141_to_150();
    } else if c == 145 {
        lemma_edges_141_to_150();
    } else if c == 146 {
        lemma_edges_141_to_150();
    } else if c == 147 {
        lemma_edges_141_to_150();
    } else if c == 148 {
        lemma_edges_141_to_150();
    } else if c == 149 {
        lemma_edges_141_to_150();
    } else if c == 150 {
        lemma_edges_141_to_150();
    } else if c == 151 {
        lemma_edges_151_to_160();
    } else if c == 152 {
        lemma_edges_151_to_160();
    } else if c == 153 {
        lemma_edges_151_to_160();
    } else if c == 154 {
        lemma_edges_151_to_160();
    } else if c == 155 {
        lemma_edges_151_to_160();
    } else if c == 156 {
        lemma_edges_151_to_160();
    } else if c == 157 {
        lemma_edges_151_to_160();
    } else if c == 158 {
        lemma_edges_151_to_160();
    } else if c == 159 {
        lemma_edges_151_to_160();
    } else if c == 160 {
        lemma_edges_151_to_160();
    } else if c == 161 {
        lemma_edges_161_to_170();
    } else if c == 162 {
        lemma_edges_161_to_170();
    } else if c == 163 {
        lemma_edges_161_to_170();
    } else if c == 164 {
        lemma_edges_161_to_170();
    } else if c == 165 {
        lemma_edges_161_to_170();
    } else if c == 166 {
        lemma_edges_161_to_170();
    } else if c == 167 {
        lemma_edges_161_to_170();
    } else if c == 168 {
        lemma_edges_161_to_170();
    } else if c == 169 {
        lemma_edges_161_to_170();
    } else if c == 170 {
        lemma_edges_161_to_170();
    } else if c == 171 {
        lemma_edges_171_to_180();
    } else if c == 172 {
        lemma_edges_171_to_180();
    } else if c == 173 {
        lemma_edges_171_to_180();
    } else if c == 174 {
        lemma_edges_171_to_180();
    } else if c == 175 {
        lemma_edges_171_to_180();
    } else if c == 176 {
        lemma_edges_171_to_180();
    } else if c == 177 {
        lemma_edges_171_to_180();
    } else if c == 178 {
        lemma_edges_171_to_180();
    } else if c == 179 {
        lemma_edges_171_to_180();
    } else if c == 180 {
        lemma_edges_171_to_180();
    } else if c == 181 {
        lemma_edges_181_to_190();
    } else if c == 182 {
        lemma_edges_181_to_190();
    } else if c == 183 {
        lemma_edges_181_to_190();
    } else if c == 184 {
        lemma_edges_181_to_190();
    } else if c == 185 {
        lemma_edges_181_to_190();
    } else if c == 186 {
        lemma_edges_181_to_190();
    } else if c == 187 {
        lemma_edges_181_to_190();
    } else if c == 188 {
        lemma_edges_181_to_190();
    } else if c == 189 {
        lemma_edges_181_to_190();
    } else if c == 190 {
        lemma_edges_181_to_190();
    } else if c == 191 {
        lemma_edges_191_to_200();
    } else if c == 192 {
        lemma_edges_191_to_200();
    } else if c == 193 {
        lemma_edges_191_to_200();
    } else if c == 194 {
        lemma_edges_191_to_200();
    } else if c == 195 {
        lemma_edges_191_to_200();
    } else if c == 196 {
        lemma_edges_191_to_200();
    } else if c == 197 {
        lemma_edges_191_to_200();
    } else if c == 198 {
        lemma_edges_191_to_200();
    } else if c == 199 {
        lemma_edges_191_to_200();
    } else {
        lemma_edges_191_to_200();
    }
}

proof fn lemma_brackets_201_to_300(c: nat)
    requires
        201 <= c <= 300,
    ensures
        bracket_is_tight(c),
{
    if c == 201 {
        lemma_edges_201_to_210();
    } else if c == 202 {
        lemma_edges_201_to_210();
    } else if c == 203 {
        lemma_edges_201_to_210();
    } else if c == 204 {
        lemma_edges_201_to_210();
    } else if c == 205 {
        lemma_edges_201_to_210();
    } else if c == 206 {
        lemma_edges_201_to_210();
    } else if c == 207 {
        lemma_edges_201_to_210();
    } else if c == 208 {
        lemma_edges_201_to_210();
    } else if c == 209 {
        lemma_edges_201_to_210();
    } else if c == 210 {
        lemma_edges_201_to_210();
    } else if c == 211 {
        lemma_edges_211_to_220();
    } else if c == 212 {
        lemma_edges_211_to_220();
    } else if c == 213 {
        lemma_edges_211_to_220();
    } else if c == 214 {
        lemma_edges_211_to_220();
    } else if c == 215 {
        lemma_edges_211_to_220();
    } else if c == 216 {
        lemma_edges_211_to_220();
    } else if c == 217 {
        lemma_edges_211_to_220();
    } else if c == 218 {
        lemma_edges_211_to_220();
    } else if c == 219 {
        lemma_edges_211_to_220();
    } else if c == 220 {
        lemma_edges_211_to_220();
    } else if c == 221 {
        lemma_edges_221_to_230();
    } else if c == 222 {
        lemma_edges_221_to_230();
    } else if c == 223 {
        lemma_edges_221_to_230();
    } else if c == 224 {
        lemma_edges_221_to_230();
    } else if c == 225 {
        lemma_edges_221_to_230();
    } else if c == 226 {
        lemma_edges_221_to_230();
    } else if c == 227 {
        lemma_edges_221_to_230();
    } else if c == 228 {
        lemma_edges_221_to_230();
    } else if c == 229 {
        lemma_edges_221_to_230();
    } else if c == 230 {
        lemma_edges_221_to_230();
    } else if c == 231 {
        lemma_edges_231_to_240();
    } else if c == 232 {
        lemma_edges_231_to_240();
    } else if c == 233 {
        lemma_edges_231_to_240();
    } else if c == 234 {
        lemma_edges_231_to_240();
    } else if c == 235 {
        lemma_edges_231_to_240();
    } else if c == 236 {
        lemma_edges_231_to_240();
    } else if c == 237 {
        lemma_edges_231_to_240();
    } else if c == 238 {
        lemma_edges_231_to_240();
    } else if c == 239 {
        lemma_edges_231_to_240();
    } else if c == 240 {
        lemma_edges_231_to_240();
    } else if c == 241 {
        lemma_edges_241_to_250();
    } else if c == 242 {
        lemma_edges_241_to_250();
    } else if c == 243 {
        lemma_edges_241_to_250();
    } else if c == 244 {
        lemma_edges_241_to_250();
    } else if c == 245 {
        lemma_edges_241_to_250();
    } else if c == 246 {
        lemma_edges_241_to_250();
    } else if c == 247 {
        lemma_edges_241_to_250();
    } else if c == 248 {
        lemma_edges_241_to_250();
    } else if c == 249 {
        lemma_edges_241_to_250();
    } else if c == 250 {
        lemma_edges_241_to_250();
    } else if c == 251 {
        lemma_edges_251_to_260();
    } else if c == 252 {
        lemma_edges_251_to_260();
    } else if c == 253 {
        lemma_edges_251_to_260();
    } else if c == 254 {
        lemma_edges_251_to_260();
    } else if c == 255 {
        lemma_edges_251_to_260();
    } else if c == 256 {
        lemma_edges_251_to_260();
    } else if c == 257 {
        lemma_edges_251_to_260();
    } else if c == 258 {
        lemma_edges_251_to_260();
    } else if c == 259 {
        lemma_edges_251_to_260();
    } else if c == 260 {
        lemma_edges_251_to_260();
    } else if c == 261 {
        lemma_edges_261_to_270();
    } else if c == 262 {
        lemma_edges_261_to_270();
    } else if c == 263 {
        lemma_edges_261_to_270();
    } else if c == 264 {
        lemma_edges_261_to_270();
    } else if c == 265 {
        lemma_edges_261_to_270();
    } else if c == 266 {
        lemma_edges_261_to_270();
    } else if c == 267 {
        lemma_edges_261_to_270();
    } else if c == 268 {
        lemma_edges_261_to_270();
    } else if c == 269 {
        lemma_edges_261_to_270();
    } else if c == 270 {
        lemma_edges_261_to_270();
    } else if c == 271 {
        lemma_edges_271_to_280();
    } else if c == 272 {
        lemma_edges_271_to_280();
    } else if c == 273 {
        lemma_edges_271_to_280();
    } else if c == 274 {
        lemma_edges_271_to_280();
    } else if c == 275 {
        lemma_edges_271_to_280();
    } else if c == 276 {
        lemma_edges_271_to_280();
    } else if c == 277 {
        lemma_edges_271_to_280();
    } else if c == 278 {
        lemma_edges_271_to_280();
    } else if c == 279 {
        lemma_edges_271_to_280();
    } else if c == 280 {
        lemma_edges_271_to_280();
    } else if c == 281 {
        lemma_edges_281_to_290();
    } else if c == 282 {
        lemma_edges_281_to_290();
    } else if c == 283 {
        lemma_edges_281_to_290();
    } else if c == 284 {
        lemma_edges_281_to_290();
    } else if c == 285 {
        lemma_edges_281_to_290();
    } else if c == 286 {
        lemma_edges_281_to_290();
    } else if c == 287 {
        lemma_edges_281_to_290();
    } else if c == 288 {
        lemma_edges_281_to_290();
    } else if c == 289 {
        lemma_edges_281_to_290();
    } else if c == 290 {
        lemma_edges_281_to_290();
    } else if c == 291 {
        lemma_edges_291_to_300();
    } else if c == 292 {
        lemma_edges_291_to_300();
    } else if c == 293 {
        lemma_edges_291_to_300();
    } else if c == 294 {
        lemma_edges_291_to_300();
    } else if c == 295 {
        lemma_edges_291_to_300();
    } else if c == 296 {
        lemma_edges_291_to_300();
    } else if c == 297 {
        lemma_edges_291_to_300();
    } else if c == 298 {
        lemma_edges_291_to_300();
    } else if c == 299 {
        lemma_edges_291_to_300();
    } else {
        lemma_edges_291_to_300();
    }
}

proof fn lemma_brackets_301_to_400(c: nat)
    requires
        301 <= c <= 400,
    ensures
        bracket_is_tight(c),
{
    if c == 301 {
        lemma_edges_301_to_310();
    } else if c == 302 {
        lemma_edges_301_to_310();
    } else if c == 303 {
        lemma_edges_301_to_310();
    } else if c == 304 {
        lemma_edges_301_to_310();
    } else if c == 305 {
        lemma_edges_301_to_310();
    } else if c == 306 {
        lemma_edges_301_to_310();
    } else if c == 307 {
        lemma_edges_301_to_310();
    } else if c == 308 {
        lemma_edges_301_to_310();
    } else if c == 309 {
        lemma_edges_301_to_310();
    } else if c == 310 {
        lemma_edges_301_to_310();
    } else if c == 311 {
        lemma_edges_311_to_320();
    } else if c == 312 {
        lemma_edges_311_to_320();
    } else if c == 313 {
        lemma_edges_311_to_320();
    } else if c == 314 {
        lemma_edges_311_to_320();
    } else if c == 315 {
        lemma_edges_311_to_320();
    } else if c == 316 {
        lemma_edges_311_to_320();
    } else if c == 317 {
        lemma_edges_311_to_320();
    } else if c == 318 {
        lemma_edges_311_to_320();
    } else if c == 319 {
        lemma_edges_311_to_320();
    } else if c == 320 {
        lemma_edges_311_to_320();
    } else if c == 321 {
        lemma_edges_321_to_330();
    } else if c == 322 {
        lemma_edges_321_to_330();
    } else if c == 323 {
        lemma_edges_321_to_330();
    } else if c == 324 {
        lemma_edges_321_to_330();
    } else if c == 325 {
        lemma_edges_321_to_330();
    } else if c == 326 {
        lemma_edges_321_to_330();
    } else if c == 327 {
        lemma_edges_321_to_330();
    } else if c == 328 {
        lemma_edges_321_to_330();
    } else if c == 329 {
        lemma_edges_321_to_330();
    } else if c == 330 {
        lemma_edges_321_to_330();
    } else if c == 331 {
        lemma_edges_331_to_340();
    } else if c == 332 {
        lemma_edges_331_to_340();
    } else if c == 333 {
        lemma_edges_331_to_340();
    } else if c == 334 {
        lemma_edges_331_to_340();
    } else if c == 335 {
        lemma_edges_331_to_340();
    } else if c == 336 {
        lemma_edges_331_to_340();
    } else if c == 337 {
        lemma_edges_331_to_340();
    } else if c == 338 {
        lemma_edges_331_to_340();
    } else if c == 339 {
        lemma_edges_331_to_340();
    } else if c == 340 {
        lemma_edges_331_to_340();
    } else if c == 341 {
        lemma_edges_341_to_350();
    } else if c == 342 {
        lemma_edges_341_to_350();
    } else if c == 343 {
        lemma_edges_341_to_350();
    } else if c == 344 {
        lemma_edges_341_to_350();
    } else if c == 345 {
        lemma_edges_341_to_350();
    } else if c == 346 {
        lemma_edges_341_to_350();
    } else if c == 347 {
        lemma_edges_341_to_350();
    } else if c == 348 {
        lemma_edges_341_to_350();
    } else if c == 349 {
        lemma_edges_341_to_350();
    } else if c == 350 {
        lemma_edges_341_to_350();
    } else if c == 351 {
        lemma_edges_351_to_360();
    } else if c == 352 {
        lemma_edges_351_to_360();
    } else if c == 353 {
        lemma_edges_351_to_360();
    } else if c == 354 {
        lemma_edges_351_to_360();
    } else if c == 355 {
        lemma_edges_351_to_360();
    } else if c == 356 {
        lemma_edges_351_to_360();
    } else if c == 357 {
        lemma_edges_351_to_360();
    } else if c == 358 {
        lemma_edges_351_to_360();
    } else if c == 359 {
        lemma_edges_351_to_360();
    } else if c == 360 {
        lemma_edges_351_to_360();
    } else if c == 361 {
        lemma_edges_361_to_370();
    } else if c == 362 {
        lemma_edges_361_to_370();
    } else if c == 363 {
        lemma_edges_361_to_370();
    } else if c == 364 {
        lemma_edges_361_to_370();
    } else if c == 365 {
        lemma_edges_361_to_370();
    } else if c == 366 {
        lemma_edges_361_to_370();
    } else if c == 367 {
        lemma_edges_361_to_370();
    } else if c == 368 {
        lemma_edges_361_to_370();
    } else if c == 369 {
        lemma_edges_361_to_370();
    } else if c == 370 {
        lemma_edges_361_to_370();
    } else if c == 371 {
        lemma_edges_371_to_380();
    } else if c == 372 {
        lemma_edges_371_to_380();
    } else if c == 373 {
        lemma_edges_371_to_380();
    } else if c == 374 {
        lemma_edges_371_to_380();
    } else if c == 375 {
        lemma_edges_371_to_380();
    } else if c == 376 {
        lemma_edges_371_to_380();
    } else if c == 377 {
        lemma_edges_371_to_380();
    } else if c == 378 {
        lemma_edges_371_to_380();
    } else if c == 379 {
        lemma_edges_371_to_380();
    } else if c == 380 {
        lemma_edges_371_to_380();
    } else if c == 381 {
        lemma_edges_381_to_390();
    } else if c == 382 {
        lemma_edges_381_to_390();
    } else if c == 383 {
        lemma_edges_381_to_390();
    } else if c == 384 {
        lemma_edges_381_to_390();
    } else if c == 385 {
        lemma_edges_381_to_390();
    } else if c == 386 {
        lemma_edges_381_to_390();
    } else if c == 387 {
        lemma_edges_381_to_390();
    } else if c == 388 {
        lemma_edges_381_to_390();
    } else if c == 389 {
        lemma_edges_381_to_390();
    } else if c == 390 {
        lemma_edges_381_to_390();
    } else if c == 391 {
        lemma_edges_391_to_400();
    } else if c == 392 {
        lemma_edges_391_to_400();
    } else if c == 393 {
        lemma_edges_391_to_400();
    } else if c == 394 {
        lemma_edges_391_to_400();
    } else if c == 395 {
        lemma_edges_391_to_400();
    } else if c == 396 {
        lemma_edges_391_to_400();
    } else if c == 397 {
        lemma_edges_391_to_400();
    } else if c == 398 {
        lemma_edges_391_to_400();
    } else if c == 399 {
        lemma_edges_391_to_400();
    } else {
        lemma_edges_391_to_400();
    }
}

proof fn lemma_brackets_401_to_500(c: nat)
    requires
        401 <= c <= 500,
    ensures
        bracket_is_tight(c),
{
    if c == 401 {
        lemma_edges_401_to_410();
    } else if c == 402 {
        lemma_edges_401_to_410();
    } else if c == 403 {
        lemma_edges_401_to_410();
    } else if c == 404 {
        lemma_edges_401_to_410();
    } else if c == 405 {
        lemma_edges_401_to_410();
    } else if c == 406 {
        lemma_edges_401_to_410();
    } else if c == 407 {
        lemma_edges_401_to_410();
    } else if c == 408 {
        lemma_edges_401_to_410();
    } else if c == 409 {
        lemma_edges_401_to_410();
    } else if c == 410 {
        lemma_edges_401_to_410();
    } else if c == 411 {
        lemma_edges_411_to_420();
    } else if c == 412 {
        lemma_edges_411_to_420();
    } else if c == 413 {
        lemma_edges_411_to_420();
    } else if c == 414 {
        lemma_edges_411_to_420();
    } else if c == 415 {
        lemma_edges_411_to_420();
    } else if c == 416 {
        lemma_edges_411_to_420();
    } else if c == 417 {
        lemma_edges_411_to_420();
    } else if c == 418 {
        lemma_edges_411_to_420();
    } else if c == 419 {
        lemma_edges_411_to_420();
    } else if c == 420 {
        lemma_edges_411_to_420();
    } else if c == 421 {
        lemma_edges_421_to_430();
    } else if c == 422 {
        lemma_edges_421_to_430();
    } else if c == 423 {
        lemma_edges_421_to_430();
    } else if c == 424 {
        lemma_edges_421_to_430();
    } else if c == 425 {
        lemma_edges_421_to_430();
    } else if c == 426 {
        lemma_edges_421_to_430();
    } else if c == 427 {
        lemma_edges_421_to_430();
    } else if c == 428 {
        lemma_edges_421_to_430();
    } else if c == 429 {
        lemma_edges_421_to_430();
    } else if c == 430 {
        lemma_edges_421_to_430();
    } else if c == 431 {
        lemma_edges_431_to_440();
    } else if c == 432 {
        lemma_edges_431_to_440();
    } else if c == 433 {
        lemma_edges_431_to_440();
    } else if c == 434 {
        lemma_edges_431_to_440();
    } else if c == 435 {
        lemma_edges_431_to_440();
    } else if c == 436 {
        lemma_edges_431_to_440();
    } else if c == 437 {
        lemma_edges_431_to_440();
    } else if c == 438 {
        lemma_edges_431_to_440();
    } else if c == 439 {
        lemma_edges_431_to_440();
    } else if c == 440 {
        lemma_edges_431_to_440();
    } else if c == 441 {
        lemma_edges_441_to_450();
    } else if c == 442 {
        lemma_edges_441_to_450();
    } else if c == 443 {
        lemma_edges_441_to_450();
    } else if c == 444 {
        lemma_edges_441_to_450();
    } else if c == 445 {
        lemma_edges_441_to_450();
    } else if c == 446 {
        lemma_edges_441_to_450();
    } else if c == 447 {
        lemma_edges_441_to_450();
    } else if c == 448 {
        lemma_edges_441_to_450();
    } else if c == 449 {
        lemma_edges_441_to_450();
    } else if c == 450 {
        lemma_edges_441_to_450();
    } else if c == 451 {
        lemma_edges_451_to_460();
    } else if c == 452 {
        lemma_edges_451_to_460();
    } else if c == 453 {
        lemma_edges_451_to_460();
    } else if c == 454 {
        lemma_edges_451_to_460();
    } else if c == 455 {
        lemma_edges_451_to_460();
    } else if c == 456 {
        lemma_edges_451_to_460();
    } else if c == 457 {
        lemma_edges_451_to_460();
    } else if c == 458 {
        lemma_edges_451_to_460();
    } else if c == 459 {
        lemma_edges_451_to_460();
    } else if c == 460 {
        lemma_edges_451_to_460();
    } else if c == 461 {
        lemma_edges_461_to_470();
    } else if c == 462 {
        lemma_edges_461_to_470();
    } else if c == 463 {
        lemma_edges_461_to_470();
    } else if c == 464 {
        lemma_edges_461_to_470();
    } else if c == 465 {
        lemma_edges_461_to_470();
    } else if c == 466 {
        lemma_edges_461_to_470();
    } else if c == 467 {
        lemma_edges_461_to_470();
    } else if c == 468 {
        lemma_edges_461_to_470();
    } else if c == 469 {
        lemma_edges_461_to_470();
    } else if c == 470 {
        lemma_edges_461_to_470();
    } else if c == 471 {
        lemma_edges_471_to_480();
    } else if c == 472 {
        lemma_edges_471_to_480();
    } else if c == 473 {
        lemma_edges_471_to_480();
    } else if c == 474 {
        lemma_edges_471_to_480();
    } else if c == 475 {
        lemma_edges_471_to_480();
    } else if c == 476 {
        lemma_edges_471_to_480();
    } else if c == 477 {
        lemma_edges_471_to_480();
    } else if c == 478 {
        lemma_edges_471_to_480();
    } else if c == 479 {
        lemma_edges_471_to_480();
    } else if c == 480 {
        lemma_edges_471_to_480();
    } else if c == 481 {
        lemma_edges_481_to_490();
    } else if c == 482 {
        lemma_edges_481_to_490();
    } else if c == 483 {
        lemma_edges_481_to_490();
    } else if c == 484 {
        lemma_edges_481_to_490();
    } else if c == 485 {
        lemma_edges_481_to_490();
    } else if c == 486 {
        lemma_edges_481_to_490();
    } else if c == 487 {
        lemma_edges_481_to_490();
    } else if c == 488 {
        lemma_edges_481_to_490();
    } else if c == 489 {
        lemma_edges_481_to_490();
    } else if c == 490 {
        lemma_edges_481_to_490();
    } else if c == 491 {
        lemma_edges_491_to_500();
    } else if c == 492 {
        lemma_edges_491_to_500();
    } else if c == 493 {
        lemma_edges_491_to_500();
    } else if c == 494 {
        lemma_edges_491_to_500();
    } else if c == 495 {
        lemma_edges_491_to_500();
    } else if c == 496 {
        lemma_edges_491_to_500();
    } else if c == 497 {
        lemma_edges_491_to_500();
    } else if c == 498 {
        lemma_edges_491_to_500();
    } else if c == 499 {
        lemma_edges_491_to_500();
    } else {
        lemma_edges_491_to_500();
    }
}

proof fn lemma_brackets_501_to_600(c: nat)
    requires
        501 <= c <= 600,
    ensures
        bracket_is_tight(c),
{
    if c == 501 {
        lemma_edges_501_to_510();
    } else if c == 502 {
        lemma_edges_501_to_510();
    } else if c == 503 {
        lemma_edges_501_to_510();
    } else if c == 504 {
        lemma_edges_501_to_510();
    } else if c == 505 {
        lemma_edges_501_to_510();
    } else if c == 506 {
        lemma_edges_501_to_510();
    } else if c == 507 {
        lemma_edges_501_to_510();
    } else if c == 508 {
        lemma_edges_501_to_510();
    } else if c == 509 {
        lemma_edges_501_to_510();
    } else if c == 510 {
        lemma_edges_501_to_510();
    } else if c == 511 {
        lemma_edges_511_to_520();
    } else if c == 512 {
        lemma_edges_511_to_520();
    } else if c == 513 {
        lemma_edges_511_to_520();
    } else if c == 514 {
        lemma_edges_511_to_520();
    } else if c == 515 {
        lemma_edges_511_to_520();
    } else if c == 516 {
        lemma_edges_511_to_520();
    } else if c == 517 {
        lemma_edges_511_to_520();
    } else if c == 518 {
        lemma_edges_511_to_520();
    } else if c == 519 {
        lemma_edges_511_to_520();
    } else if c == 520 {
        lemma_edges_511_to_520();
    } else if c == 521 {
        lemma_edges_521_to_530();
    } else if c == 522 {
        lemma_edges_521_to_530();
    } else if c == 523 {
        lemma_edges_521_to_530();
    } else if c == 524 {
        lemma_edges_521_to_530();
    } else if c == 525 {
        lemma_edges_521_to_530();
    } else if c == 526 {
        lemma_edges_521_to_530();
    } else if c == 527 {
        lemma_edges_521_to_530();
    } else if c == 528 {
        lemma_edges_521_to_530();
    } else if c == 529 {
        lemma_edges_521_to_530();
    } else if c == 530 {
        lemma_edges_521_to_530();
    } else if c == 531 {
        lemma_edges_531_to_540();
    } else if c == 532 {
        lemma_edges_531_to_540();
    } else if c == 533 {
        lemma_edges_531_to_540();
    } else if c == 534 {
        lemma_edges_531_to_540();
    } else if c == 535 {
        lemma_edges_531_to_540();
    } else if c == 536 {
        lemma_edges_531_to_540();
    } else if c == 537 {
        lemma_edges_531_to_540();
    } else if c == 538 {
        lemma_edges_531_to_540();
    } else if c == 539 {
        lemma_edges_531_to_540();
    } else if c == 540 {
        lemma_edges_531_to_540();
    } else if c == 541 {
        lemma_edges_541_to_550();
    } else if c == 542 {
        lemma_edges_541_to_550();
    } else if c == 543 {
        lemma_edges_541_to_550();
    } else if c == 544 {
        lemma_edges_541_to_550();
    } else if c == 545 {
        lemma_edges_541_to_550();
    } else if c == 546 {
        lemma_edges_541_to_550();
    } else if c == 547 {
        lemma_edges_541_to_550();
    } else if c == 548 {
        lemma_edges_541_to_550();
    } else if c == 549 {
        lemma_edges_541_to_550();
    } else if c == 550 {
        lemma_edges_541_to_550();
    } else if c == 551 {
        lemma_edges_551_to_560();
    } else if c == 552 {
        lemma_edges_551_to_560();
    } else if c == 553 {
        lemma_edges_551_to_560();
    } else if c == 554 {
        lemma_edges_551_to_560();
    } else if c == 555 {
        lemma_edges_551_to_560();
    } else if c == 556 {
        lemma_edges_551_to_560();
    } else if c == 557 {
        lemma_edges_551_to_560();
    } else if c == 558 {
        lemma_edges_551_to_560();
    } else if c == 559 {
        lemma_edges_551_to_560();
    } else if c == 560 {
        lemma_edges_551_to_560();
    } else if c == 561 {
        lemma_edges_561_to_570();
    } else if c == 562 {
        lemma_edges_561_to_570();
    } else if c == 563 {
        lemma_edges_561_to_570();
    } else if c == 564 {
        lemma_edges_561_to_570();
    } else if c == 565 {
        lemma_edges_561_to_570();
    } else if c == 566 {
        lemma_edges_561_to_570();
    } else if c == 567 {
        lemma_edges_561_to_570();
    } else if c == 568 {
        lemma_edges_561_to_570();
    } else if c == 569 {
        lemma_edges_561_to_570();
    } else if c == 570 {
        lemma_edges_561_to_570();
    } else if c == 571 {
        lemma_edges_571_to_580();
    } else if c == 572 {
        lemma_edges_571_to_580();
    } else if c == 573 {
        lemma_edges_571_to_580();
    } else if c == 574 {
        lemma_edges_571_to_580();
    } else if c == 575 {
        lemma_edges_571_to_580();
    } else if c == 576 {
        lemma_edges_571_to_580();
    } else if c == 577 {
        lemma_edges_571_to_580();
    } else if c == 578 {
        lemma_edges_571_to_580();
    } else if c == 579 {
        lemma_edges_571_to_580();
    } else if c == 580 {
        lemma_edges_571_to_580();
    } else if c == 581 {
        lemma_edges_581_to_590();
    } else if c == 582 {
        lemma_edges_581_to_590();
    } else if c == 583 {
        lemma_edges_581_to_590();
    } else if c == 584 {
        lemma_edges_581_to_590();
    } else if c == 585 {
        lemma_edges_581_to_590();
    } else if c == 586 {
        lemma_edges_581_to_590();
    } else if c == 587 {
        lemma_edges_581_to_590();
    } else if c == 588 {
        lemma_edges_581_to_590();
    } else if c == 589 {
        lemma_edges_581_to_590();
    } else if c == 590 {
        lemma_edges_581_to_590();
    } else if c == 591 {
        lemma_edges_591_to_600();
    } else if c == 592 {
        lemma_edges_591_to_600();
    } else if c == 593 {
        lemma_edges_591_to_600();
    } else if c == 594 {
        lemma_edges_591_to_600();
    } else if c == 595 {
        lemma_edges_591_to_600();
    } else if c == 596 {
        lemma_edges_591_to_600();
    } else if c == 597 {
        lemma_edges_591_to_600();
    } else if c == 598 {
        lemma_edges_591_to_600();
    } else if c == 599 {
        lemma_edges_591_to_600();
    } else {
        lemma_edges_591_to_600();
    }
}

proof fn lemma_brackets_601_to_700(c: nat)
    requires
        601 <= c <= 700,
    ensures
        bracket_is_tight(c),
{
    if c == 601 {
        lemma_edges_601_to_610();
    } else if c == 602 {
        lemma_edges_601_to_610();
    } else if c == 603 {
        lemma_edges_601_to_610();
    } else if c == 604 {
        lemma_edges_601_to_610();
    } else if c == 605 {
        lemma_edges_601_to_610();
    } else if c == 606 {
        lemma_edges_601_to_610();
    } else if c == 607 {
        lemma_edges_601_to_610();
    } else if c == 608 {
        lemma_edges_601_to_610();
    } else if c == 609 {
        lemma_edges_601_to_610();
    } else if c == 610 {
        lemma_edges_601_to_610();
    } else if c == 611 {
        lemma_edges_611_to_620();
    } else if c == 612 {
        lemma_edges_611_to_620();
    } else if c == 613 {
        lemma_edges_611_to_620();
    } else if c == 614 {
        lemma_edges_611_to_620();
    } else if c == 615 {
        lemma_edges_611_to_620();
    } else if c == 616 {
        lemma_edges_611_to_620();
    } else if c == 617 {
        lemma_edges_611_to_620();
    } else if c == 618 {
        lemma_edges_611_to_620();
    } else if c == 619 {
        lemma_edges_611_to_620();
    } else if c == 620 {
        lemma_edges_611_to_620();
    } else if c == 621 {
        lemma_edges_621_to_630();
    } else if c == 622 {
        lemma_edges_621_to_630();
    } else if c == 623 {
        lemma_edges_621_to_630();
    } else if c == 624 {
        lemma_edges_621_to_630();
    } else if c == 625 {
        lemma_edges_621_to_630();
    } else if c == 626 {
        lemma_edges_621_to_630();
    } else if c == 627 {
        lemma_edges_621_to_630();
    } else if c == 628 {
        lemma_edges_621_to_630();
    } else if c == 629 {
        lemma_edges_621_to_630();
    } else if c == 630 {
        lemma_edges_621_to_630();
    } else if c == 631 {
        lemma_edges_631_to_640();
    } else if c == 632 {
        lemma_edges_631_to_640();
    } else if c == 633 {
        lemma_edges_631_to_640();
    } else if c == 634 {
        lemma_edges_631_to_640();
    } else if c == 635 {
        lemma_edges_631_to_640();
    } else if c == 636 {
        lemma_edges_631_to_640();
    } else if c == 637 {
        lemma_edges_631_to_640();
    } else if c == 638 {
        lemma_edges_631_to_640();
    } else if c == 639 {
        lemma_edges_631_to_640();
    } else if c == 640 {
        lemma_edges_631_to_640();
    } else if c == 641 {
        lemma_edges_641_to_650();
    } else if c == 642 {
        lemma_edges_641_to_650();
    } else if c == 643 {
        lemma_edges_641_to_650();
    } else if c == 644 {
        lemma_edges_641_to_650();
    } else if c == 645 {
        lemma_edges_641_to_650();
    } else if c == 646 {
        lemma_edges_641_to_650();
    } else if c == 647 {
        lemma_edges_641_to_650();
    } else if c == 648 {
        lemma_edges_641_to_650();
    } else if c == 649 {
        lemma_edges_641_to_650();
    } else if c == 650 {
        lemma_edges_641_to_650();
    } else if c == 651 {
        lemma_edges_651_to_660();
    } else if c == 652 {
        lemma_edges_651_to_660();
    } else if c == 653 {
        lemma_edges_651_to_660();
    } else if c == 654 {
        lemma_edges_651_to_660();
    } else if c == 655 {
        lemma_edges_651_to_660();
    } else if c == 656 {
        lemma_edges_651_to_660();
    } else if c == 657 {
        lemma_edges_651_to_660();
    } else if c == 658 {
        lemma_edges_651_to_660();
    } else if c == 659 {
        lemma_edges_651_to_660();
    } else if c == 660 {
        lemma_edges_651_to_660();
    } else if c == 661 {
        lemma_edges_661_to_670();
    } else if c == 662 {
        lemma_edges_661_to_670();
    } else if c == 663 {
        lemma_edges_661_to_670();
    } else if c == 664 {
        lemma_edges_661_to_670();
    } else if c == 665 {
        lemma_edges_661_to_670();
    } else if c == 666 {
        lemma_edges_661_to_670();
    } else if c == 667 {
        lemma_edges_661_to_670();
    } else if c == 668 {
        lemma_edges_661_to_670();
    } else if c == 669 {
        lemma_edges_661_to_670();
    } else if c == 670 {
        lemma_edges_661_to_670();
    } else if c == 671 {
        lemma_edges_671_to_680();
    } else if c == 672 {
        lemma_edges_671_to_680();
    } else if c == 673 {
        lemma_edges_671_to_680();
    } else if c == 674 {
        lemma_edges_671_to_680();
    } else if c == 675 {
        lemma_edges_671_to_680();
    } else if c == 676 {
        lemma_edges_671_to_680();
    } else if c == 677 {
        lemma_edges_671_to_680();
    } else if c == 678 {
        lemma_edges_671_to_680();
    } else if c == 679 {
        lemma_edges_671_to_680();
    } else if c == 680 {
        lemma_edges_671_to_680();
    } else if c == 681 {
        lemma_edges_681_to_690();
    } else if c == 682 {
        lemma_edges_681_to_690();
    } else if c == 683 {
        lemma_edges_681_to_690();
    } else if c == 684 {
        lemma_edges_681_to_690();
    } else if c == 685 {
        lemma_edges_681_to_690();
    } else if c == 686 {
        lemma_edges_681_to_690();
    } else if c == 687 {
        lemma_edges_681_to_690();
    } else if c == 688 {
        lemma_edges_681_to_690();
    } else if c == 689 {
        lemma_edges_681_to_690();
    } else if c == 690 {
        lemma_edges_681_to_690();
    } else if c == 691 {
        lemma_edges_691_to_700();
    } else if c == 692 {
        lemma_edges_691_to_700();
    } else if c == 693 {
        lemma_edges_691_to_700();
    } else if c == 694 {
        lemma_edges_691_to_700();
    } else if c == 695 {
        lemma_edges_691_to_700();
    } else if c == 696 {
        lemma_edges_691_to_700();
    } else if c == 697 {
        lemma_edges_691_to_700();
    } else if c == 698 {
        lemma_edges_691_to_700();
    } else if c == 699 {
        lemma_edges_691_to_700();
    } else {
        lemma_edges_691_to_700();
    }
}

proof fn lemma_brackets_701_to_800(c: nat)
    requires
        701 <= c <= 800,
    ensures
        bracket_is_tight(c),
{
    if c == 701 {
        lemma_edges_701_to_710();
    } else if c == 702 {
        lemma_edges_701_to_710();
    } else if c == 703 {
        lemma_edges_701_to_710();
    } else if c == 704 {
        lemma_edges_701_to_710();
    } else if c == 705 {
        lemma_edges_701_to_710();
    } else if c == 706 {
        lemma_edges_701_to_710();
    } else if c == 707 {
        lemma_edges_701_to_710();
    } else if c == 708 {
        lemma_edges_701_to_710();
    } else if c == 709 {
        lemma_edges_701_to_710();
    } else if c == 710 {
        lemma_edges_701_to_710();
    } else if c == 711 {
        lemma_edges_711_to_720();
    } else if c == 712 {
        lemma_edges_711_to_720();
    } else if c == 713 {
        lemma_edges_711_to_720();
    } else if c == 714 {
        lemma_edges_711_to_720();
    } else if c == 715 {
        lemma_edges_711_to_720();
    } else if c == 716 {
        lemma_edges_711_to_720();
    } else if c == 717 {
        lemma_edges_711_to_720();
    } else if c == 718 {
        lemma_edges_711_to_720();
    } else if c == 719 {
        lemma_edges_711_to_720();
    } else if c == 720 {
        lemma_edges_711_to_720();
    } else if c == 721 {
        lemma_edges_721_to_730();
    } else if c == 722 {
        lemma_edges_721_to_730();
    } else if c == 723 {
        lemma_edges_721_to_730();
    } else if c == 724 {
        lemma_edges_721_to_730();
    } else if c == 725 {
        lemma_edges_721_to_730();
    } else if c == 726 {
        lemma_edges_721_to_730();
    } else if c == 727 {
        lemma_edges_721_to_730();
    } else if c == 728 {
        lemma_edges_721_to_730();
    } else if c == 729 {
        lemma_edges_721_to_730();
    } else if c == 730 {
        lemma_edges_721_to_730();
    } else if c == 731 {
        lemma_edges_731_to_740();
    } else if c == 732 {
        lemma_edges_731_to_740();
    } else if c == 733 {
        lemma_edges_731_to_740();
    } else if c == 734 {
        lemma_edges_731_to_740();
    } else if c == 735 {
        lemma_edges_731_to_740();
    } else if c == 736 {
        lemma_edges_731_to_740();
    } else if c == 737 {
        lemma_edges_731_to_740();
    } else if c == 738 {
        lemma_edges_731_to_740();
    } else if c == 739 {
        lemma_edges_731_to_740();
    } else if c == 740 {
        lemma_edges_731_to_740();
    } else if c == 741 {
        lemma_edges_741_to_750();
    } else if c == 742 {
        lemma_edges_741_to_750();
    } else if c == 743 {
        lemma_edges_741_to_750();
    } else if c == 744 {
        lemma_edges_741_to_750();
    } else if c == 745 {
        lemma_edges_741_to_750();
    } else if c == 746 {
        lemma_edges_741_to_750();
    } else if c == 747 {
        lemma_edges_741_to_750();
    } else if c == 748 {
        lemma_edges_741_to_750();
    } else if c == 749 {
        lemma_edges_741_to_750();
    } else if c == 750 {
        lemma_edges_741_to_750();
    } else if c == 751 {
        lemma_edges_751_to_760();
    } else if c == 752 {
        lemma_edges_751_to_760();
    } else if c == 753 {
        lemma_edges_751_to_760();
    } else if c == 754 {
        lemma_edges_751_to_760();
    } else if c == 755 {
        lemma_edges_751_to_760();
    } else if c == 756 {
        lemma_edges_751_to_760();
    } else if c == 757 {
        lemma_edges_751_to_760();
    } else if c == 758 {
        lemma_edges_751_to_760();
    } else if c == 759 {
        lemma_edges_751_to_760();
    } else if c == 760 {
        lemma_edges_751_to_760();
    } else if c == 761 {
        lemma_edges_761_to_770();
    } else if c == 762 {
        lemma_edges_761_to_770();
    } else if c == 763 {
        lemma_edges_761_to_770();
    } else if c == 764 {
        lemma_edges_761_to_770();
    } else if c == 765 {
        lemma_edges_761_to_770();
    } else if c == 766 {
        lemma_edges_761_to_770();
    } else if c == 767 {
        lemma_edges_761_to_770();
    } else if c == 768 {
        lemma_edges_761_to_770();
    } else if c == 769 {
        lemma_edges_761_to_770();
    } else if c == 770 {
        lemma_edges_761_to_770();
    } else if c == 771 {
        lemma_edges_771_to_780();
    } else if c == 772 {
        lemma_edges_771_to_780();
    } else if c == 773 {
        lemma_edges_771_to_780();
    } else if c == 774 {
        lemma_edges_771_to_780();
    } else if c == 775 {
        lemma_edges_771_to_780();
    } else if c == 776 {
        lemma_edges_771_to_780();
    } else if c == 777 {
        lemma_edges_771_to_780();
    } else if c == 778 {
        lemma_edges_771_to_780();
    } else if c == 779 {
        lemma_edges_771_to_780();
    } else if c == 780 {
        lemma_edges_771_to_780();
    } else if c == 781 {
        lemma_edges_781_to_790();
    } else if c == 782 {
        lemma_edges_781_to_790();
    } else if c == 783 {
        lemma_edges_781_to_790();
    } else if c == 784 {
        lemma_edges_781_to_790();
    } else if c == 785 {
        lemma_edges_781_to_790();
    } else if c == 786 {
        lemma_edges_781_to_790();
    } else if c == 787 {
        lemma_edges_781_to_790();
    } else if c == 788 {
        lemma_edges_781_to_790();
    } else if c == 789 {
        lemma_edges_781_to_790();
    } else if c == 790 {
        lemma_edges_781_to_790();
    } else if c == 791 {
        lemma_edges_791_to_800();
    } else if c == 792 {
        lemma_edges_791_to_800();
    } else if c == 793 {
        lemma_edges_791_to_800();
    } else if c == 794 {
        lemma_edges_791_to_800();
    } else if c == 795 {
        lemma_edges_791_to_800();
    } else if c == 796 {
        lemma_edges_791_to_800();
    } else if c == 797 {
        lemma_edges_791_to_800();
    } else if c == 798 {
        lemma_edges_791_to_800();
    } else if c == 799 {
        lemma_edges_791_to_800();
    } else {
        lemma_edges_791_to_800();
    }
}

proof fn lemma_brackets_801_to_900(c: nat)
    requires
        801 <= c <= 900,
    ensures
        bracket_is_tight(c),
{
    if c == 801 {
        lemma_edges_801_to_810();
    } else if c == 802 {
        lemma_edges_801_to_810();
    } else if c == 803 {
        lemma_edges_801_to_810();
    } else if c == 804 {
        lemma_edges_801_to_810();
    } else if c == 805 {
        lemma_edges_801_to_810();
    } else if c == 806 {
        lemma_edges_801_to_810();
    } else if c == 807 {
        lemma_edges_801_to_810();
    } else if c == 808 {
        lemma_edges_801_to_810();
    } else if c == 809 {
        lemma_edges_801_to_810();
    } else if c == 810 {
        lemma_edges_801_to_810();
    } else if c == 811 {
        lemma_edges_811_to_820();
    } else if c == 812 {
        lemma_edges_811_to_820();
    } else if c == 813 {
        lemma_edges_811_to_820();
    } else if c == 814 {
        lemma_edges_811_to_820();
    } else if c == 815 {
        lemma_edges_811_to_820();
    } else if c == 816 {
        lemma_edges_811_to_820();
    } else if c == 817 {
        lemma_edges_811_to_820();
    } else if c == 818 {
        lemma_edges_811_to_820();
    } else if c == 819 {
        lemma_edges_811_to_820();
    } else if c == 820 {
        lemma_edges_811_to_820();
    } else if c == 821 {
        lemma_edges_821_to_830();
    } else if c == 822 {
        lemma_edges_821_to_830();
    } else if c == 823 {
        lemma_edges_821_to_830();
    } else if c == 824 {
        lemma_edges_821_to_830();
    } else if c == 825 {
        lemma_edges_821_to_830();
    } else if c == 826 {
        lemma_edges_821_to_830();
    } else if c == 827 {
        lemma_edges_821_to_830();
    } else if c == 828 {
        lemma_edges_821_to_830();
    } else if c == 829 {
        lemma_edges_821_to_830();
    } else if c == 830 {
        lemma_edges_821_to_830();
    } else if c == 831 {
        lemma_edges_831_to_840();
    } else if c == 832 {
        lemma_edges_831_to_840();
    } else if c == 833 {
        lemma_edges_831_to_840();
    } else if c == 834 {
        lemma_edges_831_to_840();
    } else if c == 835 {
        lemma_edges_831_to_840();
    } else if c == 836 {
        lemma_edges_831_to_840();
    } else if c == 837 {
        lemma_edges_831_to_840();
    } else if c == 838 {
        lemma_edges_831_to_840();
    } else if c == 839 {
        lemma_edges_831_to_840();
    } else if c == 840 {
        lemma_edges_831_to_840();
    } else if c == 841 {
        lemma_edges_841_to_850();
    } else if c == 842 {
        lemma_edges_841_to_850();
    } else if c == 843 {
        lemma_edges_841_to_850();
    } else if c == 844 {
        lemma_edges_841_to_850();
    } else if c == 845 {
        lemma_edges_841_to_850();
    } else if c == 846 {
        lemma_edges_841_to_850();
    } else if c == 847 {
        lemma_edges_841_to_850();
    } else if c == 848 {
        lemma_edges_841_to_850();
    } else if c == 849 {
        lemma_edges_841_to_850();
    } else if c == 850 {
        lemma_edges_841_to_850();
    } else if c == 851 {
        lemma_edges_851_to_860();
    } else if c == 852 {
        lemma_edges_851_to_860();
    } else if c == 853 {
        lemma_edges_851_to_860();
    } else if c == 854 {
        lemma_edges_851_to_860();
    } else if c == 855 {
        lemma_edges_851_to_860();
    } else if c == 856 {
        lemma_edges_851_to_860();
    } else if c == 857 {
        lemma_edges_851_to_860();
    } else if c == 858 {
        lemma_edges_851_to_860();
    } else if c == 859 {
        lemma_edges_851_to_860();
    } else if c == 860 {
        lemma_edges_851_to_860();
    } else if c == 861 {
        lemma_edges_861_to_870();
    } else if c == 862 {
        lemma_edges_861_to_870();
    } else if c == 863 {
        lemma_edges_861_to_870();
    } else if c == 864 {
        lemma_edges_861_to_870();
    } else if c == 865 {
        lemma_edges_861_to_870();
    } else if c == 866 {
        lemma_edges_861_to_870();
    } else if c == 867 {
        lemma_edges_861_to_870();
    } else if c == 868 {
        lemma_edges_861_to_870();
    } else if c == 869 {
        lemma_edges_861_to_870();
    } else if c == 870 {
        lemma_edges_861_to_870();
    } else if c == 871 {
        lemma_edges_871_to_880();
    } else if c == 872 {
        lemma_edges_871_to_880();
    } else if c == 873 {
        lemma_edges_871_to_880();
    } else if c == 874 {
        lemma_edges_871_to_880();
    } else if c == 875 {
        lemma_edges_871_to_880();
    } else if c == 876 {
        lemma_edges_871_to_880();
    } else if c == 877 {
        lemma_edges_871_to_880();
    } else if c == 878 {
        lemma_edges_871_to_880();
    } else if c == 879 {
        lemma_edges_871_to_880();
    } else if c == 880 {
        lemma_edges_871_to_880();
    } else if c == 881 {
        lemma_edges_881_to_890();
    } else if c == 882 {
        lemma_edges_881_to_890();
    } else if c == 883 {
        lemma_edges_881_to_890();
    } else if c == 884 {
        lemma_edges_881_to_890();
    } else if c == 885 {
        lemma_edges_881_to_890();
    } else if c == 886 {
        lemma_edges_881_to_890();
    } else if c == 887 {
        lemma_edges_881_to_890();
    } else if c == 888 {
        lemma_edges_881_to_890();
    } else if c == 889 {
        lemma_edges_881_to_890();
    } else if c == 890 {
        lemma_edges_881_to_890();
    } else if c == 891 {
        lemma_edges_891_to_900();
    } else if c == 892 {
        lemma_edges_891_to_900();
    } else if c == 893 {
        lemma_edges_891_to_900();
    } else if c == 894 {
        lemma_edges_891_to_900();
    } else if c == 895 {
        lemma_edges_891_to_900();
    } else if c == 896 {
        lemma_edges_891_to_900();
    } else if c == 897 {
        lemma_edges_891_to_900();
    } else if c == 898 {
        lemma_edges_891_to_900();
    } else if c == 899 {
        lemma_edges_891_to_900();
    } else {
        lemma_edges_891_to_900();
    }
}

proof fn lemma_brackets_901_to_1000(c: nat)
    requires
        901 <= c <= 1000,
    ensures
        bracket_is_tight(c),
{
    if c == 901 {
        lemma_edges_901_to_910();
    } else if c == 902 {
        lemma_edges_901_to_910();
    } else if c == 903 {
        lemma_edges_901_to_910();
    } else if c == 904 {
        lemma_edges_901_to_910();
    } else if c == 905 {
        lemma_edges_901_to_910();
    } else if c == 906 {
        lemma_edges_901_to_910();
    } else if c == 907 {
        lemma_edges_901_to_910();
    } else if c == 908 {
        lemma_edges_901_to_910();
    } else if c == 909 {
        lemma_edges_901_to_910();
    } else if c == 910 {
        lemma_edges_901_to_910();
    } else if c == 911 {
        lemma_edges_911_to_920();
    } else if c == 912 {
        lemma_edges_911_to_920();
    } else if c == 913 {
        lemma_edges_911_to_920();
    } else if c == 914 {
        lemma_edges_911_to_920();
    } else if c == 915 {
        lemma_edges_911_to_920();
    } else if c == 916 {
        lemma_edges_911_to_920();
    } else if c == 917 {
        lemma_edges_911_to_920();
    } else if c == 918 {
        lemma_edges_911_to_920();
    } else if c == 919 {
        lemma_edges_911_to_920();
    } else if c == 920 {
        lemma_edges_911_to_920();
    } else if c == 921 {
        lemma_edges_921_to_930();
    } else if c == 922 {
        lemma_edges_921_to_930();
    } else if c == 923 {
        lemma_edges_921_to_930();
    } else if c == 924 {
        lemma_edges_921_to_930();
    } else if c == 925 {
        lemma_edges_921_to_930();
    } else if c == 926 {
        lemma_edges_921_to_930();
    } else if c == 927 {
        lemma_edges_921_to_930();
    } else if c == 928 {
        lemma_edges_921_to_930();
    } else if c == 929 {
        lemma_edges_921_to_930();
    } else if c == 930 {
        lemma_edges_921_to_930();
    } else if c == 931 {
        lemma_edges_931_to_940();
    } else if c == 932 {
        lemma_edges_931_to_940();
    } else if c == 933 {
        lemma_edges_931_to_940();
    } else if c == 934 {
        lemma_edges_931_to_940();
    } else if c == 935 {
        lemma_edges_931_to_940();
    } else if c == 936 {
        lemma_edges_931_to_940();
    } else if c == 937 {
        lemma_edges_931_to_940();
    } else if c == 938 {
        lemma_edges_931_to_940();
    } else if c == 939 {
        lemma_edges_931_to_940();
    } else if c == 940 {
        lemma_edges_931_to_940();
    } else if c == 941 {
        lemma_edges_941_to_950();
    } else if c == 942 {
        lemma_edges_941_to_950();
    } else if c == 943 {
        lemma_edges_941_to_950();
    } else if c == 944 {
        lemma_edges_941_to_950();
    } else if c == 945 {
        lemma_edges_941_to_950();
    } else if c == 946 {
        lemma_edges_941_to_950();
    } else if c == 947 {
        lemma_edges_941_to_950();
    } else if c == 948 {
        lemma_edges_941_to_950();
    } else if c == 949 {
        lemma_edges_941_to_950();
    } else if c == 950 {
        lemma_edges_941_to_950();
    } else if c == 951 {
        lemma_edges_951_to_960();
    } else if c == 952 {
        lemma_edges_951_to_960();
    } else if c == 953 {
        lemma_edges_951_to_960();
    } else if c == 954 {
        lemma_edges_951_to_960();
    } else if c == 955 {
        lemma_edges_951_to_960();
    } else if c == 956 {
        lemma_edges_951_to_960();
    } else if c == 957 {
        lemma_edges_951_to_960();
    } else if c == 958 {
        lemma_edges_951_to_960();
    } else if c == 959 {
        lemma_edges_951_to_960();
    } else if c == 960 {
        lemma_edges_951_to_960();
    } else if c == 961 {
        lemma_edges_961_to_970();
    } else if c == 962 {
        lemma_edges_961_to_970();
    } else if c == 963 {
        lemma_edges_961_to_970();
    } else if c == 964 {
        lemma_edges_961_to_970();
    } else if c == 965 {
        lemma_edges_961_to_970();
    } else if c == 966 {
        lemma_edges_961_to_970();
    } else if c == 967 {
        lemma_edges_961_to_970();
    } else if c == 968 {
        lemma_edges_961_to_970();
    } else if c == 969 {
        lemma_edges_961_to_970();
    } else if c == 970 {
        lemma_edges_961_to_970();
    } else if c == 971 {
        lemma_edges_971_to_980();
    } else if c == 972 {
        lemma_edges_971_to_980();
    } else if c == 973 {
        lemma_edges_971_to_980();
    } else if c == 974 {
        lemma_edges_971_to_980();
    } else if c == 975 {
        lemma_edges_971_to_980();
    } else if c == 976 {
        lemma_edges_971_to_980();
    } else if c == 977 {
        lemma_edges_971_to_980();
    } else if c == 978 {
        lemma_edges_971_to_980();
    } else if c == 979 {
        lemma_edges_971_to_980();
    } else if c == 980 {
        lemma_edges_971_to_980();
    } else if c == 981 {
        lemma_edges_981_to_990();
    } else if c == 982 {
        lemma_edges_981_to_990();
    } else if c == 983 {
        lemma_edges_981_to_990();
    } else if c == 984 {
        lemma_edges_981_to_990();
    } else if c == 985 {
        lemma_edges_981_to_990();
    } else if c == 986 {
        lemma_edges_981_to_990();
    } else if c == 987 {
        lemma_edges_981_to_990();
    } else if c == 988 {
        lemma_edges_981_to_990();
    } else if c == 989 {
        lemma_edges_981_to_990();
    } else if c == 990 {
        lemma_edges_981_to_990();
    } else if c == 991 {
        lemma_edges_991_to_1000();
    } else if c == 992 {
        lemma_edges_991_to_1000();
    } else if c == 993 {
        lemma_edges_991_to_1000();
    } else if c == 994 {
        lemma_edges_991_to_1000();
    } else if c == 995 {
        lemma_edges_991_to_1000();
    } else if c == 996 {
        lemma_edges_991_to_1000();
    } else if c == 997 {
        lemma_edges_991_to_1000();
    } else if c == 998 {
        lemma_edges_991_to_1000();
    } else if c == 999 {
        lemma_edges_991_to_1000();
    } else {
        lemma_edges_991_to_1000();
    }
}

proof fn lemma_brackets_1001_to_1100(c: nat)
    requires
        1001 <= c <= 1100,
    ensures
        bracket_is_tight(c),
{
    if c == 1001 {
        lemma_edges_1001_to_1010();
    } else if c == 1002 {
        lemma_edges_1001_to_1010();
    } else if c == 1003 {
        lemma_edges_1001_to_1010();
    } else if c == 1004 {
        lemma_edges_1001_to_1010();
    } else if c == 1005 {
        lemma_edges_1001_to_1010();
    } else if c == 1006 {
        lemma_edges_1001_to_1010();
    } else if c == 1007 {
        lemma_edges_1001_to_1010();
    } else if c == 1008 {
        lemma_edges_1001_to_1010();
    } else if c == 1009 {
        lemma_edges_1001_to_1010();
    } else if c == 1010 {
        lemma_edges_1001_to_1010();
    } else if c == 1011 {
        lemma_edges_1011_to_1020();
    } else if c == 1012 {
        lemma_edges_1011_to_1020();
    } else if c == 1013 {
        lemma_edges_1011_to_1020();
    } else if c == 1014 {
        lemma_edges_1011_to_1020();
    } else if c == 1015 {
        lemma_edges_1011_to_1020();
    } else if c == 1016 {
        lemma_edges_1011_to_1020();
    } else if c == 1017 {
        lemma_edges_1011_to_1020();
    } else if c == 1018 {
        lemma_edges_1011_to_1020();
    } else if c == 1019 {
        lemma_edges_1011_to_1020();
    } else if c == 1020 {
        lemma_edges_1011_to_1020();
    } else if c == 1021 {
        lemma_edges_1021_to_1030();
    } else if c == 1022 {
        lemma_edges_1021_to_1030();
    } else if c == 1023 {
        lemma_edges_1021_to_1030();
    } else if c == 1024 {
        lemma_edges_1021_to_1030();
    } else if c == 1025 {
        lemma_edges_1021_to_1030();
    } else if c == 1026 {
        lemma_edges_1021_to_1030();
    } else if c == 1027 {
        lemma_edges_1021_to_1030();
    } else if c == 1028 {
        lemma_edges_1021_to_1030();
    } else if c == 1029 {
        lemma_edges_1021_to_1030();
    } else if c == 1030 {
        lemma_edges_1021_to_1030();
    } else if c == 1031 {
        lemma_edges_1031_to_1040();
    } else if c == 1032 {
        lemma_edges_1031_to_1040();
    } else if c == 1033 {
        lemma_edges_1031_to_1040();
    } else if c == 1034 {
        lemma_edges_1031_to_1040();
    } else if c == 1035 {
        lemma_edges_1031_to_1040();
    } else if c == 1036 {
        lemma_edges_1031_to_1040();
    } else if c == 1037 {
        lemma_edges_1031_to_1040();
    } else if c == 1038 {
        lemma_edges_1031_to_1040();
    } else if c == 1039 {
        lemma_edges_1031_to_1040();
    } else if c == 1040 {
        lemma_edges_1031_to_1040();
    } else if c == 1041 {
        lemma_edges_1041_to_1050();
    } else if c == 1042 {
        lemma_edges_1041_to_1050();
    } else if c == 1043 {
        lemma_edges_1041_to_1050();
    } else if c == 1044 {
        lemma_edges_1041_to_1050();
    } else if c == 1045 {
        lemma_edges_1041_to_1050();
    } else if c == 1046 {
        lemma_edges_1041_to_1050();
    } else if c == 1047 {
        lemma_edges_1041_to_1050();
    } else if c == 1048 {
        lemma_edges_1041_to_1050();
    } else if c == 1049 {
        lemma_edges_1041_to_1050();
    } else if c == 1050 {
        lemma_edges_1041_to_1050();
    } else if c == 1051 {
        lemma_edges_1051_to_1060();
    } else if c == 1052 {
        lemma_edges_1051_to_1060();
    } else if c == 1053 {
        lemma_edges_1051_to_1060();
    } else if c == 1054 {
        lemma_edges_1051_to_1060();
    } else if c == 1055 {
        lemma_edges_1051_to_1060();
    } else if c == 1056 {
        lemma_edges_1051_to_1060();
    } else if c == 1057 {
        lemma_edges_1051_to_1060();
    } else if c == 1058 {
        lemma_edges_1051_to_1060();
    } else if c == 1059 {
        lemma_edges_1051_to_1060();
    } else if c == 1060 {
        lemma_edges_1051_to_1060();
    } else if c == 1061 {
        lemma_edges_1061_to_1070();
    } else if c == 1062 {
        lemma_edges_1061_to_1070();
    } else if c == 1063 {
        lemma_edges_1061_to_1070();
    } else if c == 1064 {
        lemma_edges_1061_to_1070();
    } else if c == 1065 {
        lemma_edges_1061_to_1070();
    } else if c == 1066 {
        lemma_edges_1061_to_1070();
    } else if c == 1067 {
        lemma_edges_1061_to_1070();
    } else if c == 1068 {
        lemma_edges_1061_to_1070();
    } else if c == 1069 {
        lemma_edges_1061_to_1070();
    } else if c == 1070 {
        lemma_edges_1061_to_1070();
    } else if c == 1071 {
        lemma_edges_1071_to_1080();
    } else if c == 1072 {
        lemma_edges_1071_to_1080();
    } else if c == 1073 {
        lemma_edges_1071_to_1080();
    } else if c == 1074 {
        lemma_edges_1071_to_1080();
    } else if c == 1075 {
        lemma_edges_1071_to_1080();
    } else if c == 1076 {
        lemma_edges_1071_to_1080();
    } else if c == 1077 {
        lemma_edges_1071_to_1080();
    } else if c == 1078 {
        lemma_edges_1071_to_1080();
    } else if c == 1079 {
        lemma_edges_1071_to_1080();
    } else if c == 1080 {
        lemma_edges_1071_to_1080();
    } else if c == 1081 {
        lemma_edges_1081_to_1090();
    } else if c == 1082 {
        lemma_edges_1081_to_1090();
    } else if c == 1083 {
        lemma_edges_1081_to_1090();
    } else if c == 1084 {
        lemma_edges_1081_to_1090();
    } else if c == 1085 {
        lemma_edges_1081_to_1090();
    } else if c == 1086 {
        lemma_edges_1081_to_1090();
    } else if c == 1087 {
        lemma_edges_1081_to_1090();
    } else if c == 1088 {
        lemma_edges_1081_to_1090();
    } else if c == 1089 {
        lemma_edges_1081_to_1090();
    } else if c == 1090 {
        lemma_edges_1081_to_1090();
    } else if c == 1091 {
        lemma_edges_1091_to_1100();
    } else if c == 1092 {
        lemma_edges_1091_to_1100();
    } else if c == 1093 {
        lemma_edges_1091_to_1100();
    } else if c == 1094 {
        lemma_edges_1091_to_1100();
    } else if c == 1095 {
        lemma_edges_1091_to_1100();
    } else if c == 1096 {
        lemma_edges_1091_to_1100();
    } else if c == 1097 {
        lemma_edges_1091_to_1100();
    } else if c == 1098 {
        lemma_edges_1091_to_1100();
    } else if c == 1099 {
        lemma_edges_1091_to_1100();
    } else {
        lemma_edges_1091_to_1100();
    }
}

proof fn lemma_brackets_1101_to_1199(c: nat)
    requires
        1101 <= c <= 1199,
    ensures
        bracket_is_tight(c),
{
    if c == 1101 {
        lemma_edges_1101_to_1110();
    } else if c == 1102 {
        lemma_edges_1101_to_1110();
    } else if c == 1103 {
        lemma_edges_1101_to_1110();
    } else if c == 1104 {
        lemma_edges_1101_to_1110();
    } else if c == 1105 {
        lemma_edges_1101_to_1110();
    } else if c == 1106 {
        lemma_edges_1101_to_1110();
    } else if c == 1107 {
        lemma_edges_1101_to_1110();
    } else if c == 1108 {
        lemma_edges_1101_to_1110();
    } else if c == 1109 {
        lemma_edges_1101_to_1110();
    } else if c == 1110 {
        lemma_edges_1101_to_1110();
    } else if c == 1111 {
        lemma_edges_1111_to_1120();
    } else if c == 1112 {
        lemma_edges_1111_to_1120();
    } else if c == 1113 {
        lemma_edges_1111_to_1120();
    } else if c == 1114 {
        lemma_edges_1111_to_1120();
    } else if c == 1115 {
        lemma_edges_1111_to_1120();
    } else if c == 1116 {
        lemma_edges_1111_to_1120();
    } else if c == 1117 {
        lemma_edges_1111_to_1120();
    } else if c == 1118 {
        lemma_edges_1111_to_1120();
    } else if c == 1119 {
        lemma_edges_1111_to_1120();
    } else if c == 1120 {
        lemma_edges_1111_to_1120();
    } else if c == 1121 {
        lemma_edges_1121_to_1130();
    } else if c == 1122 {
        lemma_edges_1121_to_1130();
    } else if c == 1123 {
        lemma_edges_1121_to_1130();
    } else if c == 1124 {
        lemma_edges_1121_to_1130();
    } else if c == 1125 {
        lemma_edges_1121_to_1130();
    } else if c == 1126 {
        lemma_edges_1121_to_1130();
    } else if c == 1127 {
        lemma_edges_1121_to_1130();
    } else if c == 1128 {
        lemma_edges_1121_to_1130();
    } else if c == 1129 {
        lemma_edges_1121_to_1130();
    } else if c == 1130 {
        lemma_edges_1121_to_1130();
    } else if c == 1131 {
        lemma_edges_1131_to_1140();
    } else if c == 1132 {
        lemma_edges_1131_to_1140();
    } else if c == 1133 {
        lemma_edges_1131_to_1140();
    } else if c == 1134 {
        lemma_edges_1131_to_1140();
    } else if c == 1135 {
        lemma_edges_1131_to_1140();
    } else if c == 1136 {
        lemma_edges_1131_to_1140();
    } else if c == 1137 {
        lemma_edges_1131_to_1140();
    } else if c == 1138 {
        lemma_edges_1131_to_1140();
    } else if c == 1139 {
        lemma_edges_1131_to_1140();
    } else if c == 1140 {
        lemma_edges_1131_to_1140();
    } else if c == 1141 {
        lemma_edges_1141_to_1150();
    } else if c == 1142 {
        lemma_edges_1141_to_1150();
    } else if c == 1143 {
        lemma_edges_1141_to_1150();
    } else if c == 1144 {
        lemma_edges_1141_to_1150();
    } else if c == 1145 {
        lemma_edges_1141_to_1150();
    } else if c == 1146 {
        lemma_edges_1141_to_1150();
    } else if c == 1147 {
        lemma_edges_1141_to_1150();
    } else if c == 1148 {
        lemma_edges_1141_to_1150();
    } else if c == 1149 {
        lemma_edges_1141_to_1150();
    } else if c == 1150 {
        lemma_edges_1141_to_1150();
    } else if c == 1151 {
        lemma_edges_1151_to_1160();
    } else if c == 1152 {
        lemma_edges_1151_to_1160();
    } else if c == 1153 {
        lemma_edges_1151_to_1160();
    } else if c == 1154 {
        lemma_edges_1151_to_1160();
    } else if c == 1155 {
        lemma_edges_1151_to_1160();
    } else if c == 1156 {
        lemma_edges_1151_to_1160();
    } else if c == 1157 {
        lemma_edges_1151_to_1160();
    } else if c == 1158 {
        lemma_edges_1151_to_1160();
    } else if c == 1159 {
        lemma_edges_1151_to_1160();
    } else if c == 1160 {
        lemma_edges_1151_to_1160();
    } else if c == 1161 {
        lemma_edges_1161_to_1170();
    } else if c == 1162 {
        lemma_edges_1161_to_1170();
    } else if c == 1163 {
        lemma_edges_1161_to_1170();
    } else if c == 1164 {
        lemma_edges_1161_to_1170();
    } else if c == 1165 {
        lemma_edges_1161_to_1170();
    } else if c == 1166 {
        lemma_edges_1161_to_1170();
    } else if c == 1167 {
        lemma_edges_1161_to_1170();
    } else if c == 1168 {
        lemma_edges_1161_to_1170();
    } else if c == 1169 {
        lemma_edges_1161_to_1170();
    } else if c == 1170 {
        lemma_edges_1161_to_1170();
    } else if c == 1171 {
        lemma_edges_1171_to_1180();
    } else if c == 1172 {
        lemma_edges_1171_to_1180();
    } else if c == 1173 {
        lemma_edges_1171_to_1180();
    } else if c == 1174 {
        lemma_edges_1171_to_1180();
    } else if c == 1175 {
        lemma_edges_1171_to_1180();
    } else if c == 1176 {
        lemma_edges_1171_to_1180();
    } else if c == 1177 {
        lemma_edges_1171_to_1180();
    } else if c == 1178 {
        lemma_edges_1171_to_1180();
    } else if c == 1179 {
        lemma_edges_1171_to_1180();
    } else if c == 1180 {
        lemma_edges_1171_to_1180();
    } else if c == 1181 {
        lemma_edges_1181_to_1190();
    } else if c == 1182 {
        lemma_edges_1181_to_1190();
    } else if c == 1183 {
        lemma_edges_1181_to_1190();
    } else if c == 1184 {
        lemma_edges_1181_to_1190();
    } else if c == 1185 {
        lemma_edges_1181_to_1190();
    } else if c == 1186 {
        lemma_edges_1181_to_1190();
    } else if c == 1187 {
        lemma_edges_1181_to_1190();
    } else if c == 1188 {
        lemma_edges_1181_to_1190();
    } else if c == 1189 {
        lemma_edges_1181_to_1190();
    } else if c == 1190 {
        lemma_edges_1181_to_1190();
    } else if c == 1191 {
        lemma_edges_1191_to_1199();
    } else if c == 1192 {
        lemma_edges_1191_to_1199();
    } else if c == 1193 {
        lemma_edges_1191_to_1199();
    } else if c == 1194 {
        lemma_edges_1191_to_1199();
    } else if c == 1195 {
        lemma_edges_1191_to_1199();
    } else if c == 1196 {
        lemma_edges_1191_to_1199();
    } else if c == 1197 {
        lemma_edges_1191_to_1199();
    } else if c == 1198 {
        lemma_edges_1191_to_1199();
    } else {
        lemma_edges_1191_to_1199();
    }
}

/// Every bracket is tight.
pub proof fn lemma_brackets_are_tight(c: nat)
    requires
        1 <= c <= 1199,
    ensures
        bracket_is_tight(c),
{
    if c <= 100 {
        lemma_brackets_1_to_100(c);
    } else if c <= 200 {
        lemma_brackets_101_to_200(c);
    } else if c <= 300 {
        lemma_brackets_201_to_300(c);
    } else if c <= 400 {
        lemma_brackets_301_to_400(c);
    } else if c <= 500 {
        lemma_brackets_401_to_500(c);
    } else if c <= 600 {
        lemma_brackets_501_to_600(c);
    } else if c <= 700 {
        lemma_brackets_601_to_700(c);
    } else if c <= 800 {
        lemma_brackets_701_to_800(c);
    } else if c <= 900 {
        lemma_brackets_801_to_900(c);
    } else if c <= 1000 {
        lemma_brackets_901_to_1000(c);
    } else if c <= 1100 {
        lemma_brackets_1001_to_1100(c);
    } else {
        lemma_brackets_1101_to_1199(c);
    }
}

} // verus!
