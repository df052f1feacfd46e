//! The VGA palette of the games.
use vstd::prelude::*;

verus! {

/// A color.
#[derive(Clone, Copy, PartialEq, Eq, Structural, Debug)]
pub struct RGB {
    pub r: u8,
    pub g: u8,
    pub b: u8,
}

impl RGB {
    pub fn from(r: u8, g: u8, b: u8) -> (c: RGB)
        ensures
            c == (RGB { r, g, b }),
    {
        RGB { r, g, b }
    }
}

/// The Wolfenstein 3D palette.
pub open spec fn palette_color(c: u8) -> (u8, u8, u8) {
    match c {
        0u8 => (0, 0, 0),
        1u8 => (0, 0, 168),
        2u8 => (0, 168, 0),
        3u8 => (0, 168, 168),
        4u8 => (168, 0, 0),
        5u8 => (168, 0, 168),
        6u8 => (168, 84, 0),
        7u8 => (168, 168, 168),
        8u8 => (84, 84, 84),
        9u8 => (84, 84, 255),
        10u8 => (84, 255, 84),
        11u8 => (84, 255, 255),
        12u8 => (255, 84, 84),
        13u8 => (255, 84, 255),
        14u8 => (255, 255, 84),
        15u8 => (255, 255, 255),
        16u8 => (236, 236, 236),
        17u8 => (220, 220, 220),
        18u8 => (208, 208, 208),
        19u8 => (192, 192, 192),
        20u8 => (180, 180, 180),
        21u8 => (168, 168, 168),
        22u8 => (152, 152, 152),
        23u8 => (140, 140, 140),
        24u8 => (124, 124, 124),
        25u8 => (112, 112, 112),
        26u8 => (100, 100, 100),
        27u8 => (84, 84, 84),
        28u8 => (72, 72, 72),
        29u8 => (56, 56, 56),
        30u8 => (44, 44, 44),
        31u8 => (32, 32, 32),
        32u8 => (255, 0, 0),
        33u8 => (236, 0, 0),
        34u8 => (224, 0, 0),
        35u8 => (212, 0, 0),
        36u8 => (200, 0, 0),
        37u8 => (188, 0, 0),
        38u8 => (176, 0, 0),
        39u8 => (164, 0, 0),
        40u8 => (152, 0, 0),
        41u8 => (136, 0, 0),
        42u8 => (124, 0, 0),
        43u8 => (112, 0, 0),
        44u8 => (100, 0, 0),
        45u8 => (88, 0, 0),
        46u8 => (76, 0, 0),
        47u8 => (64, 0, 0),
        48u8 => (255, 216, 216),
        49u8 => (255, 184, 184),
        50u8 => (255, 156, 156),
        51u8 => (255, 124, 124),
        52u8 => (255, 92, 92),
        53u8 => (255, 64, 64),
        54u8 => (255, 32, 32),
        55u8 => (255, 0, 0),
        56u8 => (255, 168, 92),
        57u8 => (255, 152, 64),
        58u8 => (255, 136, 32),
        59u8 => (255, 120, 0),
        60u8 => (228, 108, 0),
        61u8 => (204, 96, 0),
        62u8 => (180, 84, 0),
        63u8 => (156, 76, 0),
        64u8 => (255, 255, 216),
        65u8 => (255, 255, 184),
        66u8 => (255, 255, 156),
        67u8 => (255, 255, 124),
        68u8 => (255, 248, 92),
        69u8 => (255, 244, 64),
        70u8 => (255, 244, 32),
        71u8 => (255, 244, 0),
        72u8 => (228, 216, 0),
        73u8 => (204, 196, 0),
        74u8 => (180, 172, 0),
        75u8 => (156, 156, 0),
        76u8 => (132, 132, 0),
        77u8 => (112, 108, 0),
        78u8 => (88, 84, 0),
        79u8 => (64, 64, 0),
        80u8 => (208, 255, 92),
        81u8 => (196, 255, 64),
        82u8 => (180, 255, 32),
        83u8 => (160, 255, 0),
        84u8 => (144, 228, 0),
        85u8 => (128, 204, 0),
        86u8 => (116, 180, 0),
        87u8 => (96, 156, 0),
        88u8 => (216, 255, 216),
        89u8 => (188, 255, 184),
        90u8 => (156, 255, 156),
        91u8 => (128, 255, 124),
        92u8 => (96, 255, 92),
        93u8 => (64, 255, 64),
        94u8 => (32, 255, 32),
        95u8 => (0, 255, 0),
        96u8 => (0, 255, 0),
        97u8 => (0, 236, 0),
        98u8 => (0, 224, 0),
        99u8 => (0, 212, 0),
        100u8 => (4, 200, 0),
        101u8 => (4, 188, 0),
        102u8 => (4, 176, 0),
        103u8 => (4, 164, 0),
        104u8 => (4, 152, 0),
        105u8 => (4, 136, 0),
        106u8 => (4, 124, 0),
        107u8 => (4, 112, 0),
        108u8 => (4, 100, 0),
        109u8 => (4, 88, 0),
        110u8 => (4, 76, 0),
        111u8 => (4, 64, 0),
        112u8 => (216, 255, 255),
        113u8 => (184, 255, 255),
        114u8 => (156, 255, 255),
        115u8 => (124, 255, 248),
        116u8 => (92, 255, 255),
        117u8 => (64, 255, 255),
        118u8 => (32, 255, 255),
        119u8 => (0, 255, 255),
        120u8 => (0, 228, 228),
        121u8 => (0, 204, 204),
        122u8 => (0, 180, 180),
        123u8 => (0, 156, 156),
        124u8 => (0, 132, 132),
        125u8 => (0, 112, 112),
        126u8 => (0, 88, 88),
        127u8 => (0, 64, 64),
        128u8 => (92, 188, 255),
        129u8 => (64, 176, 255),
        130u8 => (32, 168, 255),
        131u8 => (0, 156, 255),
        132u8 => (0, 140, 228),
        133u8 => (0, 124, 204),
        134u8 => (0, 108, 180),
        135u8 => (0, 92, 156),
        136u8 => (216, 216, 255),
        137u8 => (184, 188, 255),
        138u8 => (156, 156, 255),
        139u8 => (124, 128, 255),
        140u8 => (92, 96, 255),
        141u8 => (64, 64, 255),
        142u8 => (32, 36, 255),
        143u8 => (0, 4, 255),
        144u8 => (0, 0, 255),
        145u8 => (0, 0, 236),
        146u8 => (0, 0, 224),
        147u8 => (0, 0, 212),
        148u8 => (0, 0, 200),
        149u8 => (0, 0, 188),
        150u8 => (0, 0, 176),
        151u8 => (0, 0, 164),
        152u8 => (0, 0, 152),
        153u8 => (0, 0, 136),
        154u8 => (0, 0, 124),
        155u8 => (0, 0, 112),
        156u8 => (0, 0, 100),
        157u8 => (0, 0, 88),
        158u8 => (0, 0, 76),
        159u8 => (0, 0, 64),
        160u8 => (40, 40, 40),
        161u8 => (255, 224, 52),
        162u8 => (255, 212, 36),
        163u8 => (255, 204, 24),
        164u8 => (255, 192, 8),
        165u8 => (255, 180, 0),
        166u8 => (180, 32, 255),
        167u8 => (168, 0, 255),
        168u8 => (152, 0, 228),
        169u8 => (128, 0, 204),
        170u8 => (116, 0, 180),
        171u8 => (96, 0, 156),
        172u8 => (80, 0, 132),
        173u8 => (68, 0, 112),
        174u8 => (52, 0, 88),
        175u8 => (40, 0, 64),
        176u8 => (255, 216, 255),
        177u8 => (255, 184, 255),
        178u8 => (255, 156, 255),
        179u8 => (255, 124, 255),
        180u8 => (255, 92, 255),
        181u8 => (255, 64, 255),
        182u8 => (255, 32, 255),
        183u8 => (255, 0, 255),
        184u8 => (224, 0, 228),
        185u8 => (200, 0, 204),
        186u8 => (180, 0, 180),
        187u8 => (156, 0, 156),
        188u8 => (132, 0, 132),
        189u8 => (108, 0, 112),
        190u8 => (88, 0, 88),
        191u8 => (64, 0, 64),
        192u8 => (255, 232, 220),
        193u8 => (255, 224, 208),
        194u8 => (255, 216, 196),
        195u8 => (255, 212, 188),
        196u8 => (255, 204, 176),
        197u8 => (255, 196, 164),
        198u8 => (255, 188, 156),
        199u8 => (255, 184, 144),
        200u8 => (255, 176, 128),
        201u8 => (255, 164, 112),
        202u8 => (255, 156, 96),
        203u8 => (240, 148, 92),
        204u8 => (232, 140, 88),
        205u8 => (220, 136, 84),
        206u8 => (208, 128, 80),
        207u8 => (200, 124, 76),
        208u8 => (188, 120, 72),
        209u8 => (180, 112, 68),
        210u8 => (168, 104, 64),
        211u8 => (160, 100, 60),
        212u8 => (156, 96, 56),
        213u8 => (144, 92, 52),
        214u8 => (136, 88, 48),
        215u8 => (128, 80, 44),
        216u8 => (116, 76, 40),
        217u8 => (108, 72, 36),
        218u8 => (92, 64, 32),
        219u8 => (84, 60, 28),
        220u8 => (72, 56, 24),
        221u8 => (64, 48, 24),
        222u8 => (56, 44, 20),
        223u8 => (40, 32, 12),
        224u8 => (96, 0, 100),
        225u8 => (0, 100, 100),
        226u8 => (0, 96, 96),
        227u8 => (0, 0, 28),
        228u8 => (0, 0, 44),
        229u8 => (48, 36, 16),
        230u8 => (72, 0, 72),
        231u8 => (80, 0, 80),
        232u8 => (0, 0, 52),
        233u8 => (28, 28, 28),
        234u8 => (76, 76, 76),
        235u8 => (92, 92, 92),
        236u8 => (64, 64, 64),
        237u8 => (48, 48, 48),
        238u8 => (52, 52, 52),
        239u8 => (216, 244, 244),
        240u8 => (184, 232, 232),
        241u8 => (156, 220, 220),
        242u8 => (116, 200, 200),
        243u8 => (72, 192, 192),
        244u8 => (32, 180, 180),
        245u8 => (32, 176, 176),
        246u8 => (0, 164, 164),
        247u8 => (0, 152, 152),
        248u8 => (0, 140, 140),
        249u8 => (0, 132, 132),
        250u8 => (0, 124, 124),
        251u8 => (0, 120, 120),
        252u8 => (0, 116, 116),
        253u8 => (0, 112, 112),
        254u8 => (0, 108, 108),
        255u8 => (255, 0, 255),
    }
}

fn palette_entry(c: u8) -> (r: (u8, u8, u8))
    ensures
        r == palette_color(c),
{
    match c {
        0u8 => (0, 0, 0),
        1u8 => (0, 0, 168),
        2u8 => (0, 168, 0),
        3u8 => (0, 168, 168),
        4u8 => (168, 0, 0),
        5u8 => (168, 0, 168),
        6u8 => (168, 84, 0),
        7u8 => (168, 168, 168),
        8u8 => (84, 84, 84),
        9u8 => (84, 84, 255),
        10u8 => (84, 255, 84),
        11u8 => (84, 255, 255),
        12u8 => (255, 84, 84),
        13u8 => (255, 84, 255),
        14u8 => (255, 255, 84),
        15u8 => (255, 255, 255),
        16u8 => (236, 236, 236),
        17u8 => (220, 220, 220),
        18u8 => (208, 208, 208),
        19u8 => (192, 192, 192),
        20u8 => (180, 180, 180),
        21u8 => (168, 168, 168),
        22u8 => (152, 152, 152),
        23u8 => (140, 140, 140),
        24u8 => (124, 124, 124),
        25u8 => (112, 112, 112),
        26u8 => (100, 100, 100),
        27u8 => (84, 84, 84),
        28u8 => (72, 72, 72),
        29u8 => (56, 56, 56),
        30u8 => (44, 44, 44),
        31u8 => (32, 32, 32),
        32u8 => (255, 0, 0),
        33u8 => (236, 0, 0),
        34u8 => (224, 0, 0),
        35u8 => (212, 0, 0),
        36u8 => (200, 0, 0),
        37u8 => (188, 0, 0),
        38u8 => (176, 0, 0),
        39u8 => (164, 0, 0),
        40u8 => (152, 0, 0),
        41u8 => (136, 0, 0),
        42u8 => (124, 0, 0),
        43u8 => (112, 0, 0),
        44u8 => (100, 0, 0),
        45u8 => (88, 0, 0),
        46u8 => (76, 0, 0),
        47u8 => (64, 0, 0),
        48u8 => (255, 216, 216),
        49u8 => (255, 184, 184),
        50u8 => (255, 156, 156),
        51u8 => (255, 124, 124),
        52u8 => (255, 92, 92),
        53u8 => (255, 64, 64),
        54u8 => (255, 32, 32),
        55u8 => (255, 0, 0),
        56u8 => (255, 168, 92),
        57u8 => (255, 152, 64),
        58u8 => (255, 136, 32),
        59u8 => (255, 120, 0),
        60u8 => (228, 108, 0),
        61u8 => (204, 96, 0),
        62u8 => (180, 84, 0),
        63u8 => (156, 76, 0),
        64u8 => (255, 255, 216),
        65u8 => (255, 255, 184),
        66u8 => (255, 255, 156),
        67u8 => (255, 255, 124),
        68u8 => (255, 248, 92),
        69u8 => (255, 244, 64),
        70u8 => (255, 244, 32),
        71u8 => (255, 244, 0),
        72u8 => (228, 216, 0),
        73u8 => (204, 196, 0),
        74u8 => (180, 172, 0),
        75u8 => (156, 156, 0),
        76u8 => (132, 132, 0),
        77u8 => (112, 108, 0),
        78u8 => (88, 84, 0),
        79u8 => (64, 64, 0),
        80u8 => (208, 255, 92),
        81u8 => (196, 255, 64),
        82u8 => (180, 255, 32),
        83u8 => (160, 255, 0),
        84u8 => (144, 228, 0),
        85u8 => (128, 204, 0),
        86u8 => (116, 180, 0),
        87u8 => (96, 156, 0),
        88u8 => (216, 255, 216),
        89u8 => (188, 255, 184),
        90u8 => (156, 255, 156),
        91u8 => (128, 255, 124),
        92u8 => (96, 255, 92),
        93u8 => (64, 255, 64),
        94u8 => (32, 255, 32),
        95u8 => (0, 255, 0),
        96u8 => (0, 255, 0),
        97u8 => (0, 236, 0),
        98u8 => (0, 224, 0),
        99u8 => (0, 212, 0),
        100u8 => (4, 200, 0),
        101u8 => (4, 188, 0),
        102u8 => (4, 176, 0),
        103u8 => (4, 164, 0),
        104u8 => (4, 152, 0),
        105u8 => (4, 136, 0),
        106u8 => (4, 124, 0),
        107u8 => (4, 112, 0),
        108u8 => (4, 100, 0),
        109u8 => (4, 88, 0),
        110u8 => (4, 76, 0),
        111u8 => (4, 64, 0),
        112u8 => (216, 255, 255),
        113u8 => (184, 255, 255),
        114u8 => (156, 255, 255),
        115u8 => (124, 255, 248),
        116u8 => (92, 255, 255),
        117u8 => (64, 255, 255),
        118u8 => (32, 255, 255),
        119u8 => (0, 255, 255),
        120u8 => (0, 228, 228),
        121u8 => (0, 204, 204),
        122u8 => (0, 180, 180),
        123u8 => (0, 156, 156),
        124u8 => (0, 132, 132),
        125u8 => (0, 112, 112),
        126u8 => (0, 88, 88),
        127u8 => (0, 64, 64),
        128u8 => (92, 188, 255),
        129u8 => (64, 176, 255),
        130u8 => (32, 168, 255),
        131u8 => (0, 156, 255),
        132u8 => (0, 140, 228),
        133u8 => (0, 124, 204),
        134u8 => (0, 108, 180),
        135u8 => (0, 92, 156),
        136u8 => (216, 216, 255),
        137u8 => (184, 188, 255),
        138u8 => (156, 156, 255),
        139u8 => (124, 128, 255),
        140u8 => (92, 96, 255),
        141u8 => (64, 64, 255),
        142u8 => (32, 36, 255),
        143u8 => (0, 4, 255),
        144u8 => (0, 0, 255),
        145u8 => (0, 0, 236),
        146u8 => (0, 0, 224),
        147u8 => (0, 0, 212),
        148u8 => (0, 0, 200),
        149u8 => (0, 0, 188),
        150u8 => (0, 0, 176),
        151u8 => (0, 0, 164),
        152u8 => (0, 0, 152),
        153u8 => (0, 0, 136),
        154u8 => (0, 0, 124),
        155u8 => (0, 0, 112),
        156u8 => (0, 0, 100),
        157u8 => (0, 0, 88),
        158u8 => (0, 0, 76),
        159u8 => (0, 0, 64),
        160u8 => (40, 40, 40),
        161u8 => (255, 224, 52),
        162u8 => (255, 212, 36),
        163u8 => (255, 204, 24),
        164u8 => (255, 192, 8),
        165u8 => (255, 180, 0),
        166u8 => (180, 32, 255),
        167u8 => (168, 0, 255),
        168u8 => (152, 0, 228),
        169u8 => (128, 0, 204),
        170u8 => (116, 0, 180),
        171u8 => (96, 0, 156),
        172u8 => (80, 0, 132),
        173u8 => (68, 0, 112),
        174u8 => (52, 0, 88),
        175u8 => (40, 0, 64),
        176u8 => (255, 216, 255),
        177u8 => (255, 184, 255),
        178u8 => (255, 156, 255),
        179u8 => (255, 124, 255),
        180u8 => (255, 92, 255),
        181u8 => (255, 64, 255),
        182u8 => (255, 32, 255),
        183u8 => (255, 0, 255),
        184u8 => (224, 0, 228),
        185u8 => (200, 0, 204),
        186u8 => (180, 0, 180),
        187u8 => (156, 0, 156),
        188u8 => (132, 0, 132),
        189u8 => (108, 0, 112),
        190u8 => (88, 0, 88),
        191u8 => (64, 0, 64),
        192u8 => (255, 232, 220),
        193u8 => (255, 224, 208),
        194u8 => (255, 216, 196),
        195u8 => (255, 212, 188),
        196u8 => (255, 204, 176),
        197u8 => (255, 196, 164),
        198u8 => (255, 188, 156),
        199u8 => (255, 184, 144),
        200u8 => (255, 176, 128),
        201u8 => (255, 164, 112),
        202u8 => (255, 156, 96),
        203u8 => (240, 148, 92),
        204u8 => (232, 140, 88),
        205u8 => (220, 136, 84),
        206u8 => (208, 128, 80),
        207u8 => (200, 124, 76),
        208u8 => (188, 120, 72),
        209u8 => (180, 112, 68),
        210u8 => (168, 104, 64),
        211u8 => (160, 100, 60),
        212u8 => (156, 96, 56),
        213u8 => (144, 92, 52),
        214u8 => (136, 88, 48),
        215u8 => (128, 80, 44),
        216u8 => (116, 76, 40),
        217u8 => (108, 72, 36),
        218u8 => (92, 64, 32),
        219u8 => (84, 60, 28),
        220u8 => (72, 56, 24),
        221u8 => (64, 48, 24),
        222u8 => (56, 44, 20),
        223u8 => (40, 32, 12),
        224u8 => (96, 0, 100),
        225u8 => (0, 100, 100),
        226u8 => (0, 96, 96),
        227u8 => (0, 0, 28),
        228u8 => (0, 0, 44),
        229u8 => (48, 36, 16),
        230u8 => (72, 0, 72),
        231u8 => (80, 0, 80),
        232u8 => (0, 0, 52),
        233u8 => (28, 28, 28),
        234u8 => (76, 76, 76),
        235u8 => (92, 92, 92),
        236u8 => (64, 64, 64),
        237u8 => (48, 48, 48),
        238u8 => (52, 52, 52),
        239u8 => (216, 244, 244),
        240u8 => (184, 232, 232),
        241u8 => (156, 220, 220),
        242u8 => (116, 200, 200),
        243u8 => (72, 192, 192),
        244u8 => (32, 180, 180),
        245u8 => (32, 176, 176),
        246u8 => (0, 164, 164),
        247u8 => (0, 152, 152),
        248u8 => (0, 140, 140),
        249u8 => (0, 132, 132),
        250u8 => (0, 124, 124),
        251u8 => (0, 120, 120),
        252u8 => (0, 116, 116),
        253u8 => (0, 112, 112),
        254u8 => (0, 108, 108),
        255u8 => (255, 0, 255),
    }
}

/// The color of palette index `c`; Spear of Destiny differs in two greens.
pub open spec fn spec_palette_to_rgb(c: u8, sod: bool) -> RGB {
    if sod && c == 166 {
        RGB { r: 0, g: 56, b: 0 }
    } else if sod && c == 167 {
        RGB { r: 0, g: 40, b: 0 }
    } else {
        RGB { r: palette_color(c).0, g: palette_color(c).1, b: palette_color(c).2 }
    }
}

pub fn palette_to_rgb(c: u8, sod: bool) -> (r: RGB)
    ensures
        r == spec_palette_to_rgb(c, sod),
{
    if sod {
        if c == 166 {
            return RGB::from(0, 56, 0);
        }
        if c == 167 {
            return RGB::from(0, 40, 0);
        }
    }
    let (r, g, b) = palette_entry(c);
    RGB::from(r, g, b)
}

} // verus!
