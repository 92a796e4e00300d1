//! The blackbody colour ramp and the mapping from temperature to colour.
use vstd::prelude::*;
use crate::fixed::{floor_div, ONE};

verus! {

/// Lowest temperature on the ramp: 1000 K.
pub const MIN_TEMP: i64 = 1_000_000;

/// Highest temperature on the ramp: 10000 K.
pub const MAX_TEMP: i64 = 10_000_000;

/// Number of colours on the ramp.
pub const COLOR_COUNT: usize = 200;

/// A colour with red, green, blue and alpha channels in millionths.
#[derive(Debug, Clone, Copy, PartialEq, Eq, Structural)]
pub struct Rgba {
    pub r: i64,
    pub g: i64,
    pub b: i64,
    pub a: i64,
}

/// Red, green and blue of the `i`-th colour of the ramp, from 1000 K up.
pub open spec fn ramp_rgb(i: usize) -> (int, int, int) {
    match i {
        0 => (1000000, -9872, -16682),
        1 => (1000000, 672, -17383),
        2 => (1000000, 11348, -17984),
        3 => (1000000, 22136, -18468),
        4 => (1000000, 33018, -18821),
        5 => (1000000, 43977, -19028),
        6 => (1000000, 54999, -19075),
        7 => (1000000, 66070, -18950),
        8 => (1000000, 77177, -18639),
        9 => (1000000, 88309, -18133),
        10 => (1000000, 99455, -17421),
        11 => (1000000, 110607, -16494),
        12 => (1000000, 121756, -15346),
        13 => (1000000, 132894, -13967),
        14 => (1000000, 144013, -12353),
        15 => (1000000, 155107, -10499),
        16 => (1000000, 166171, -8401),
        17 => (1000000, 177198, -6055),
        18 => (1000000, 188184, -3458),
        19 => (1000000, 199125, -610),
        20 => (1000000, 210015, 2490),
        21 => (1000000, 220853, 5844),
        22 => (1000000, 231633, 9450),
        23 => (1000000, 242353, 13308),
        24 => (1000000, 253010, 17416),
        25 => (1000000, 263601, 21773),
        26 => (1000000, 274125, 26376),
        27 => (1000000, 284579, 31222),
        28 => (1000000, 294962, 36309),
        29 => (1000000, 305271, 41633),
        30 => (1000000, 315505, 47190),
        31 => (1000000, 325662, 52976),
        32 => (1000000, 335742, 58988),
        33 => (1000000, 345744, 65221),
        34 => (1000000, 355666, 71671),
        35 => (1000000, 365508, 78332),
        36 => (1000000, 375268, 85200),
        37 => (1000000, 384948, 92271),
        38 => (1000000, 394544, 99539),
        39 => (1000000, 404059, 106999),
        40 => (1000000, 413490, 114646),
        41 => (1000000, 422838, 122476),
        42 => (1000000, 432103, 130482),
        43 => (1000000, 441284, 138661),
        44 => (1000000, 450381, 147005),
        45 => (1000000, 459395, 155512),
        46 => (1000000, 468325, 164175),
        47 => (1000000, 477172, 172989),
        48 => (1000000, 485935, 181949),
        49 => (1000000, 494614, 191050),
        50 => (1000000, 503211, 200288),
        51 => (1000000, 511724, 209657),
        52 => (1000000, 520155, 219152),
        53 => (1000000, 528504, 228769),
        54 => (1000000, 536771, 238502),
        55 => (1000000, 544955, 248347),
        56 => (1000000, 553059, 258300),
        57 => (1000000, 561082, 268356),
        58 => (1000000, 569024, 278510),
        59 => (1000000, 576886, 288758),
        60 => (1000000, 584668, 299095),
        61 => (1000000, 592372, 309518),
        62 => (1000000, 599996, 320022),
        63 => (1000000, 607543, 330603),
        64 => (1000000, 615012, 341257),
        65 => (1000000, 622403, 351980),
        66 => (1000000, 629719, 362768),
        67 => (1000000, 636958, 373617),
        68 => (1000000, 644122, 384524),
        69 => (1000000, 651210, 395486),
        70 => (1000000, 658225, 406497),
        71 => (1000000, 665166, 417556),
        72 => (1000000, 672034, 428659),
        73 => (1000000, 678829, 439802),
        74 => (1000000, 685552, 450982),
        75 => (1000000, 692204, 462196),
        76 => (1000000, 698786, 473441),
        77 => (1000000, 705297, 484714),
        78 => (1000000, 711739, 496013),
        79 => (1000000, 718112, 507333),
        80 => (1000000, 724417, 518673),
        81 => (1000000, 730654, 530030),
        82 => (1000000, 736825, 541402),
        83 => (1000000, 742929, 552785),
        84 => (1000000, 748968, 564177),
        85 => (1000000, 754942, 575576),
        86 => (1000000, 760851, 586979),
        87 => (1000000, 766696, 598385),
        88 => (1000000, 772479, 609791),
        89 => (1000000, 778199, 621195),
        90 => (1000000, 783858, 632595),
        91 => (1000000, 789455, 643989),
        92 => (1000000, 794991, 655375),
        93 => (1000000, 800468, 666751),
        94 => (1000000, 805886, 678116),
        95 => (1000000, 811245, 689467),
        96 => (1000000, 816546, 700803),
        97 => (1000000, 821790, 712122),
        98 => (1000000, 826976, 723423),
        99 => (1000000, 832107, 734704),
        100 => (1000000, 837183, 745964),
        101 => (1000000, 842203, 757201),
        102 => (1000000, 847169, 768414),
        103 => (1000000, 852082, 779601),
        104 => (1000000, 856941, 790762),
        105 => (1000000, 861748, 801895),
        106 => (1000000, 866503, 812999),
        107 => (1000000, 871207, 824073),
        108 => (1000000, 875860, 835115),
        109 => (1000000, 880463, 846125),
        110 => (1000000, 885017, 857102),
        111 => (1000000, 889521, 868044),
        112 => (1000000, 893977, 878951),
        113 => (1000000, 898386, 889822),
        114 => (1000000, 902747, 900657),
        115 => (1000000, 907061, 911453),
        116 => (1000000, 911330, 922211),
        117 => (1000000, 915552, 932929),
        118 => (1000000, 919730, 943608),
        119 => (1000000, 923863, 954246),
        120 => (1000000, 927952, 964842),
        121 => (1000000, 931998, 975397),
        122 => (1000000, 936001, 985909),
        123 => (1000000, 939961, 996379),
        124 => (993241, 937500, 1000000),
        125 => (983104, 931743, 1000000),
        126 => (973213, 926103, 1000000),
        127 => (963562, 920576, 1000000),
        128 => (954141, 915159, 1000000),
        129 => (944943, 909849, 1000000),
        130 => (935961, 904643, 1000000),
        131 => (927189, 899538, 1000000),
        132 => (918618, 894531, 1000000),
        133 => (910244, 889620, 1000000),
        134 => (902059, 884801, 1000000),
        135 => (894058, 880074, 1000000),
        136 => (886236, 875434, 1000000),
        137 => (878586, 870880, 1000000),
        138 => (871103, 866410, 1000000),
        139 => (863783, 862021, 1000000),
        140 => (856621, 857712, 1000000),
        141 => (849611, 853479, 1000000),
        142 => (842750, 849322, 1000000),
        143 => (836033, 845239, 1000000),
        144 => (829456, 841227, 1000000),
        145 => (823014, 837285, 1000000),
        146 => (816705, 833410, 1000000),
        147 => (810524, 829602, 1000000),
        148 => (804468, 825859, 1000000),
        149 => (798532, 822180, 1000000),
        150 => (792715, 818562, 1000000),
        151 => (787012, 815004, 1000000),
        152 => (781421, 811505, 1000000),
        153 => (775939, 808063, 1000000),
        154 => (770561, 804678, 1000000),
        155 => (765287, 801348, 1000000),
        156 => (760112, 798071, 1000000),
        157 => (755035, 794846, 1000000),
        158 => (750053, 791672, 1000000),
        159 => (745164, 788549, 1000000),
        160 => (740364, 785474, 1000000),
        161 => (735652, 782448, 1000000),
        162 => (731026, 779468, 1000000),
        163 => (726482, 776534, 1000000),
        164 => (722021, 773644, 1000000),
        165 => (717638, 770798, 1000000),
        166 => (713333, 767996, 1000000),
        167 => (709103, 765235, 1000000),
        168 => (704947, 762515, 1000000),
        169 => (700862, 759835, 1000000),
        170 => (696848, 757195, 1000000),
        171 => (692902, 754593, 1000000),
        172 => (689023, 752029, 1000000),
        173 => (685208, 749502, 1000000),
        174 => (681458, 747011, 1000000),
        175 => (677770, 744555, 1000000),
        176 => (674143, 742134, 1000000),
        177 => (670574, 739747, 1000000),
        178 => (667064, 737394, 1000000),
        179 => (663611, 735073, 1000000),
        180 => (660213, 732785, 1000000),
        181 => (656869, 730528, 1000000),
        182 => (653579, 728301, 1000000),
        183 => (650340, 726105, 1000000),
        184 => (647151, 723939, 1000000),
        185 => (644013, 721801, 1000000),
        186 => (640922, 719692, 1000000),
        187 => (637879, 717611, 1000000),
        188 => (634883, 715558, 1000000),
        189 => (631932, 713531, 1000000),
        190 => (629025, 711531, 1000000),
        191 => (626162, 709557, 1000000),
        192 => (623342, 707609, 1000000),
        193 => (620563, 705685, 1000000),
        194 => (617825, 703786, 1000000),
        195 => (615127, 701911, 1000000),
        196 => (612469, 700060, 1000000),
        197 => (609848, 698231, 1000000),
        198 => (607266, 696426, 1000000),
        199 => (604720, 694643, 1000000),
        _ => (ONE as int, ONE as int, ONE as int),
    }
}

/// The `i`-th colour of the ramp, fully opaque.
pub open spec fn ramp(i: int) -> Rgba {
    Rgba {
        r: ramp_rgb(i as usize).0 as i64,
        g: ramp_rgb(i as usize).1 as i64,
        b: ramp_rgb(i as usize).2 as i64,
        a: ONE,
    }
}

/// The `i`-th colour of the ramp.
pub fn ramp_color(i: usize) -> (r: Rgba)
    requires
        i < COLOR_COUNT,
    ensures
        r == ramp(i as int),
        -ONE <= r.r <= ONE,
        -ONE <= r.g <= ONE,
        -ONE <= r.b <= ONE,
        r.a == ONE,
{
    let (red, green, blue): (i64, i64, i64) = match i {
            0 => (1000000, -9872, -16682),
            1 => (1000000, 672, -17383),
            2 => (1000000, 11348, -17984),
            3 => (1000000, 22136, -18468),
            4 => (1000000, 33018, -18821),
            5 => (1000000, 43977, -19028),
            6 => (1000000, 54999, -19075),
            7 => (1000000, 66070, -18950),
            8 => (1000000, 77177, -18639),
            9 => (1000000, 88309, -18133),
            10 => (1000000, 99455, -17421),
            11 => (1000000, 110607, -16494),
            12 => (1000000, 121756, -15346),
            13 => (1000000, 132894, -13967),
            14 => (1000000, 144013, -12353),
            15 => (1000000, 155107, -10499),
            16 => (1000000, 166171, -8401),
            17 => (1000000, 177198, -6055),
            18 => (1000000, 188184, -3458),
            19 => (1000000, 199125, -610),
            20 => (1000000, 210015, 2490),
            21 => (1000000, 220853, 5844),
            22 => (1000000, 231633, 9450),
            23 => (1000000, 242353, 13308),
            24 => (1000000, 253010, 17416),
            25 => (1000000, 263601, 21773),
            26 => (1000000, 274125, 26376),
            27 => (1000000, 284579, 31222),
            28 => (1000000, 294962, 36309),
            29 => (1000000, 305271, 41633),
            30 => (1000000, 315505, 47190),
            31 => (1000000, 325662, 52976),
            32 => (1000000, 335742, 58988),
            33 => (1000000, 345744, 65221),
            34 => (1000000, 355666, 71671),
            35 => (1000000, 365508, 78332),
            36 => (1000000, 375268, 85200),
            37 => (1000000, 384948, 92271),
            38 => (1000000, 394544, 99539),
            39 => (1000000, 404059, 106999),
            40 => (1000000, 413490, 114646),
            41 => (1000000, 422838, 122476),
            42 => (1000000, 432103, 130482),
            43 => (1000000, 441284, 138661),
            44 => (1000000, 450381, 147005),
            45 => (1000000, 459395, 155512),
            46 => (1000000, 468325, 164175),
            47 => (1000000, 477172, 172989),
            48 => (1000000, 485935, 181949),
            49 => (1000000, 494614, 191050),
            50 => (1000000, 503211, 200288),
            51 => (1000000, 511724, 209657),
            52 => (1000000, 520155, 219152),
            53 => (1000000, 528504, 228769),
            54 => (1000000, 536771, 238502),
            55 => (1000000, 544955, 248347),
            56 => (1000000, 553059, 258300),
            57 => (1000000, 561082, 268356),
            58 => (1000000, 569024, 278510),
            59 => (1000000, 576886, 288758),
            60 => (1000000, 584668, 299095),
            61 => (1000000, 592372, 309518),
            62 => (1000000, 599996, 320022),
            63 => (1000000, 607543, 330603),
            64 => (1000000, 615012, 341257),
            65 => (1000000, 622403, 351980),
            66 => (1000000, 629719, 362768),
            67 => (1000000, 636958, 373617),
            68 => (1000000, 644122, 384524),
            69 => (1000000, 651210, 395486),
            70 => (1000000, 658225, 406497),
            71 => (1000000, 665166, 417556),
            72 => (1000000, 672034, 428659),
            73 => (1000000, 678829, 439802),
            74 => (1000000, 685552, 450982),
            75 => (1000000, 692204, 462196),
            76 => (1000000, 698786, 473441),
            77 => (1000000, 705297, 484714),
            78 => (1000000, 711739, 496013),
            79 => (1000000, 718112, 507333),
            80 => (1000000, 724417, 518673),
            81 => (1000000, 730654, 530030),
            82 => (1000000, 736825, 541402),
            83 => (1000000, 742929, 552785),
            84 => (1000000, 748968, 564177),
            85 => (1000000, 754942, 575576),
            86 => (1000000, 760851, 586979),
            87 => (1000000, 766696, 598385),
            88 => (1000000, 772479, 609791),
            89 => (1000000, 778199, 621195),
            90 => (1000000, 783858, 632595),
            91 => (1000000, 789455, 643989),
            92 => (1000000, 794991, 655375),
            93 => (1000000, 800468, 666751),
            94 => (1000000, 805886, 678116),
            95 => (1000000, 811245, 689467),
            96 => (1000000, 816546, 700803),
            97 => (1000000, 821790, 712122),
            98 => (1000000, 826976, 723423),
            99 => (1000000, 832107, 734704),
            100 => (1000000, 837183, 745964),
            101 => (1000000, 842203, 757201),
            102 => (1000000, 847169, 768414),
            103 => (1000000, 852082, 779601),
            104 => (1000000, 856941, 790762),
            105 => (1000000, 861748, 801895),
            106 => (1000000, 866503, 812999),
            107 => (1000000, 871207, 824073),
            108 => (1000000, 875860, 835115),
            109 => (1000000, 880463, 846125),
            110 => (1000000, 885017, 857102),
            111 => (1000000, 889521, 868044),
            112 => (1000000, 893977, 878951),
            113 => (1000000, 898386, 889822),
            114 => (1000000, 902747, 900657),
            115 => (1000000, 907061, 911453),
            116 => (1000000, 911330, 922211),
            117 => (1000000, 915552, 932929),
            118 => (1000000, 919730, 943608),
            119 => (1000000, 923863, 954246),
            120 => (1000000, 927952, 964842),
            121 => (1000000, 931998, 975397),
            122 => (1000000, 936001, 985909),
            123 => (1000000, 939961, 996379),
            124 => (993241, 937500, 1000000),
            125 => (983104, 931743, 1000000),
            126 => (973213, 926103, 1000000),
            127 => (963562, 920576, 1000000),
            128 => (954141, 915159, 1000000),
            129 => (944943, 909849, 1000000),
            130 => (935961, 904643, 1000000),
            131 => (927189, 899538, 1000000),
            132 => (918618, 894531, 1000000),
            133 => (910244, 889620, 1000000),
            134 => (902059, 884801, 1000000),
            135 => (894058, 880074, 1000000),
            136 => (886236, 875434, 1000000),
            137 => (878586, 870880, 1000000),
            138 => (871103, 866410, 1000000),
            139 => (863783, 862021, 1000000),
            140 => (856621, 857712, 1000000),
            141 => (849611, 853479, 1000000),
            142 => (842750, 849322, 1000000),
            143 => (836033, 845239, 1000000),
            144 => (829456, 841227, 1000000),
            145 => (823014, 837285, 1000000),
            146 => (816705, 833410, 1000000),
            147 => (810524, 829602, 1000000),
            148 => (804468, 825859, 1000000),
            149 => (798532, 822180, 1000000),
            150 => (792715, 818562, 1000000),
            151 => (787012, 815004, 1000000),
            152 => (781421, 811505, 1000000),
            153 => (775939, 808063, 1000000),
            154 => (770561, 804678, 1000000),
            155 => (765287, 801348, 1000000),
            156 => (760112, 798071, 1000000),
            157 => (755035, 794846, 1000000),
            158 => (750053, 791672, 1000000),
            159 => (745164, 788549, 1000000),
            160 => (740364, 785474, 1000000),
            161 => (735652, 782448, 1000000),
            162 => (731026, 779468, 1000000),
            163 => (726482, 776534, 1000000),
            164 => (722021, 773644, 1000000),
            165 => (717638, 770798, 1000000),
            166 => (713333, 767996, 1000000),
            167 => (709103, 765235, 1000000),
            168 => (704947, 762515, 1000000),
            169 => (700862, 759835, 1000000),
            170 => (696848, 757195, 1000000),
            171 => (692902, 754593, 1000000),
            172 => (689023, 752029, 1000000),
            173 => (685208, 749502, 1000000),
            174 => (681458, 747011, 1000000),
            175 => (677770, 744555, 1000000),
            176 => (674143, 742134, 1000000),
            177 => (670574, 739747, 1000000),
            178 => (667064, 737394, 1000000),
            179 => (663611, 735073, 1000000),
            180 => (660213, 732785, 1000000),
            181 => (656869, 730528, 1000000),
            182 => (653579, 728301, 1000000),
            183 => (650340, 726105, 1000000),
            184 => (647151, 723939, 1000000),
            185 => (644013, 721801, 1000000),
            186 => (640922, 719692, 1000000),
            187 => (637879, 717611, 1000000),
            188 => (634883, 715558, 1000000),
            189 => (631932, 713531, 1000000),
            190 => (629025, 711531, 1000000),
            191 => (626162, 709557, 1000000),
            192 => (623342, 707609, 1000000),
            193 => (620563, 705685, 1000000),
            194 => (617825, 703786, 1000000),
            195 => (615127, 701911, 1000000),
            196 => (612469, 700060, 1000000),
            197 => (609848, 698231, 1000000),
            198 => (607266, 696426, 1000000),
            199 => (604720, 694643, 1000000),
        _ => (ONE, ONE, ONE),
    };
    Rgba { r: red, g: green, b: blue, a: ONE }
}

/// Ramp index of a temperature: the temperature clamped to the ramp's range,
/// its position there in two-hundredths rounded down, at most the last index.
pub open spec fn color_index_of(temp: int) -> int {
    if temp <= MIN_TEMP {
        0
    } else if temp >= MAX_TEMP {
        COLOR_COUNT - 1
    } else {
        let i = ((temp - MIN_TEMP) * COLOR_COUNT) / ((MAX_TEMP - MIN_TEMP) as int);
        if i > COLOR_COUNT - 1 {
            COLOR_COUNT - 1
        } else {
            i
        }
    }
}

/// Ramp index of a temperature given in thousandths of a kelvin.
pub fn color_index(temp: i64) -> (r: usize)
    ensures
        r == color_index_of(temp as int),
        r < COLOR_COUNT,
{
    if temp <= MIN_TEMP {
        0
    } else if temp >= MAX_TEMP {
        COLOR_COUNT - 1
    } else {
        let span = (MAX_TEMP - MIN_TEMP) as i64;
        let i = ((temp - MIN_TEMP) * (COLOR_COUNT as i64)) / span;
        proof {
            vstd::arithmetic::div_mod::lemma_div_pos_is_pos((temp - MIN_TEMP) * COLOR_COUNT, span as int);
        }
        if i > (COLOR_COUNT - 1) as i64 {
            COLOR_COUNT - 1
        } else {
            i as usize
        }
    }
}

/// Blackbody colour of a temperature given in thousandths of a kelvin.
pub fn color_from_temperature_hrd(temp: i64) -> (r: Rgba)
    ensures
        r == ramp(color_index_of(temp as int)),
{
    ramp_color(color_index(temp))
}

/// Every channel of `c` scaled by `factor` millionths, rounded down.
pub open spec fn scaled(c: Rgba, factor: int) -> Rgba {
    Rgba {
        r: ((c.r * factor) / (ONE as int)) as i64,
        g: ((c.g * factor) / (ONE as int)) as i64,
        b: ((c.b * factor) / (ONE as int)) as i64,
        a: ((c.a * factor) / (ONE as int)) as i64,
    }
}

/// A channel of at most `MAX_CHANNEL` in magnitude.
pub const MAX_CHANNEL: i64 = 1_099_511_627_776;

/// `c * factor / ONE` rounded down, for one channel.
fn scale_channel(c: i64, factor: i64) -> (r: i64)
    requires
        -MAX_CHANNEL <= c <= MAX_CHANNEL,
        -MAX_CHANNEL <= factor <= MAX_CHANNEL,
    ensures
        r == (c * factor) / (ONE as int),
{
    proof {
        assert(-MAX_CHANNEL * MAX_CHANNEL <= c * factor <= MAX_CHANNEL * MAX_CHANNEL) by (nonlinear_arith)
            requires -MAX_CHANNEL <= c <= MAX_CHANNEL, -MAX_CHANNEL <= factor <= MAX_CHANNEL;
    }
    floor_div((c as i128) * (factor as i128), ONE as i128) as i64
}

/// Every channel of `c` scaled by `factor` millionths.
pub fn scale_color(c: Rgba, factor: i64) -> (r: Rgba)
    requires
        -MAX_CHANNEL <= c.r <= MAX_CHANNEL,
        -MAX_CHANNEL <= c.g <= MAX_CHANNEL,
        -MAX_CHANNEL <= c.b <= MAX_CHANNEL,
        -MAX_CHANNEL <= c.a <= MAX_CHANNEL,
        -MAX_CHANNEL <= factor <= MAX_CHANNEL,
    ensures
        r == scaled(c, factor as int),
{
    Rgba {
        r: scale_channel(c.r, factor),
        g: scale_channel(c.g, factor),
        b: scale_channel(c.b, factor),
        a: scale_channel(c.a, factor),
    }
}

} // verus!
