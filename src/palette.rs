//! The fixed colour ramp and the rule that turns an escape result into a pixel colour.
use vstd::prelude::*;

verus! {

/// Number of entries in the colour ramp.
pub const PALETTE_LEN: usize = 256;

/// Divisor applied to an escape count before the ramp is indexed; entry 255 is never reached.
pub const PALETTE_MODULUS: u64 = 255;

/// The colour ramp, from deep indigo through blue, cyan, green, yellow and orange to dark red.
pub open spec fn palette() -> Seq<(u8, u8, u8)> {
    seq![
        (48u8, 18u8, 59u8), (50u8, 21u8, 67u8), (51u8, 24u8, 74u8), (52u8, 27u8, 81u8),
        (53u8, 30u8, 88u8), (54u8, 33u8, 95u8), (55u8, 36u8, 102u8), (56u8, 39u8, 109u8),
        (57u8, 42u8, 115u8), (58u8, 45u8, 121u8), (59u8, 47u8, 128u8), (60u8, 50u8, 134u8),
        (61u8, 53u8, 139u8), (62u8, 56u8, 145u8), (63u8, 59u8, 151u8), (63u8, 62u8, 156u8),
        (64u8, 64u8, 162u8), (65u8, 67u8, 167u8), (65u8, 70u8, 172u8), (66u8, 73u8, 177u8),
        (66u8, 75u8, 181u8), (67u8, 78u8, 186u8), (68u8, 81u8, 191u8), (68u8, 84u8, 195u8),
        (68u8, 86u8, 199u8), (69u8, 89u8, 203u8), (69u8, 92u8, 207u8), (69u8, 94u8, 211u8),
        (70u8, 97u8, 214u8), (70u8, 100u8, 218u8), (70u8, 102u8, 221u8), (70u8, 105u8, 224u8),
        (70u8, 107u8, 227u8), (71u8, 110u8, 230u8), (71u8, 113u8, 233u8), (71u8, 115u8, 235u8),
        (71u8, 118u8, 238u8), (71u8, 120u8, 240u8), (71u8, 123u8, 242u8), (70u8, 125u8, 244u8),
        (70u8, 128u8, 246u8), (70u8, 130u8, 248u8), (70u8, 133u8, 250u8), (70u8, 135u8, 251u8),
        (69u8, 138u8, 252u8), (69u8, 140u8, 253u8), (68u8, 143u8, 254u8), (67u8, 145u8, 254u8),
        (66u8, 148u8, 255u8), (65u8, 150u8, 255u8), (64u8, 153u8, 255u8), (62u8, 155u8, 254u8),
        (61u8, 158u8, 254u8), (59u8, 160u8, 253u8), (58u8, 163u8, 252u8), (56u8, 165u8, 251u8),
        (55u8, 168u8, 250u8), (53u8, 171u8, 248u8), (51u8, 173u8, 247u8), (49u8, 175u8, 245u8),
        (47u8, 178u8, 244u8), (46u8, 180u8, 242u8), (44u8, 183u8, 240u8), (42u8, 185u8, 238u8),
        (40u8, 188u8, 235u8), (39u8, 190u8, 233u8), (37u8, 192u8, 231u8), (35u8, 195u8, 228u8),
        (34u8, 197u8, 226u8), (32u8, 199u8, 223u8), (31u8, 201u8, 221u8), (30u8, 203u8, 218u8),
        (28u8, 205u8, 216u8), (27u8, 208u8, 213u8), (26u8, 210u8, 210u8), (26u8, 212u8, 208u8),
        (25u8, 213u8, 205u8), (24u8, 215u8, 202u8), (24u8, 217u8, 200u8), (24u8, 219u8, 197u8),
        (24u8, 221u8, 194u8), (24u8, 222u8, 192u8), (24u8, 224u8, 189u8), (25u8, 226u8, 187u8),
        (25u8, 227u8, 185u8), (26u8, 228u8, 182u8), (28u8, 230u8, 180u8), (29u8, 231u8, 178u8),
        (31u8, 233u8, 175u8), (32u8, 234u8, 172u8), (34u8, 235u8, 170u8), (37u8, 236u8, 167u8),
        (39u8, 238u8, 164u8), (42u8, 239u8, 161u8), (44u8, 240u8, 158u8), (47u8, 241u8, 155u8),
        (50u8, 242u8, 152u8), (53u8, 243u8, 148u8), (56u8, 244u8, 145u8), (60u8, 245u8, 142u8),
        (63u8, 246u8, 138u8), (67u8, 247u8, 135u8), (70u8, 248u8, 132u8), (74u8, 248u8, 128u8),
        (78u8, 249u8, 125u8), (82u8, 250u8, 122u8), (85u8, 250u8, 118u8), (89u8, 251u8, 115u8),
        (93u8, 252u8, 111u8), (97u8, 252u8, 108u8), (101u8, 253u8, 105u8), (105u8, 253u8, 102u8),
        (109u8, 254u8, 98u8), (113u8, 254u8, 95u8), (117u8, 254u8, 92u8), (121u8, 254u8, 89u8),
        (125u8, 255u8, 86u8), (128u8, 255u8, 83u8), (132u8, 255u8, 81u8), (136u8, 255u8, 78u8),
        (139u8, 255u8, 75u8), (143u8, 255u8, 73u8), (146u8, 255u8, 71u8), (150u8, 254u8, 68u8),
        (153u8, 254u8, 66u8), (156u8, 254u8, 64u8), (159u8, 253u8, 63u8), (161u8, 253u8, 61u8),
        (164u8, 252u8, 60u8), (167u8, 252u8, 58u8), (169u8, 251u8, 57u8), (172u8, 251u8, 56u8),
        (175u8, 250u8, 55u8), (177u8, 249u8, 54u8), (180u8, 248u8, 54u8), (183u8, 247u8, 53u8),
        (185u8, 246u8, 53u8), (188u8, 245u8, 52u8), (190u8, 244u8, 52u8), (193u8, 243u8, 52u8),
        (195u8, 241u8, 52u8), (198u8, 240u8, 52u8), (200u8, 239u8, 52u8), (203u8, 237u8, 52u8),
        (205u8, 236u8, 52u8), (208u8, 234u8, 52u8), (210u8, 233u8, 53u8), (212u8, 231u8, 53u8),
        (215u8, 229u8, 53u8), (217u8, 228u8, 54u8), (219u8, 226u8, 54u8), (221u8, 224u8, 55u8),
        (223u8, 223u8, 55u8), (225u8, 221u8, 55u8), (227u8, 219u8, 56u8), (229u8, 217u8, 56u8),
        (231u8, 215u8, 57u8), (233u8, 213u8, 57u8), (235u8, 211u8, 57u8), (236u8, 209u8, 58u8),
        (238u8, 207u8, 58u8), (239u8, 205u8, 58u8), (241u8, 203u8, 58u8), (242u8, 201u8, 58u8),
        (244u8, 199u8, 58u8), (245u8, 197u8, 58u8), (246u8, 195u8, 58u8), (247u8, 193u8, 58u8),
        (248u8, 190u8, 57u8), (249u8, 188u8, 57u8), (250u8, 186u8, 57u8), (251u8, 184u8, 56u8),
        (251u8, 182u8, 55u8), (252u8, 179u8, 54u8), (252u8, 177u8, 54u8), (253u8, 174u8, 53u8),
        (253u8, 172u8, 52u8), (254u8, 169u8, 51u8), (254u8, 167u8, 50u8), (254u8, 164u8, 49u8),
        (254u8, 161u8, 48u8), (254u8, 158u8, 47u8), (254u8, 155u8, 45u8), (254u8, 153u8, 44u8),
        (254u8, 150u8, 43u8), (254u8, 147u8, 42u8), (254u8, 144u8, 41u8), (253u8, 141u8, 39u8),
        (253u8, 138u8, 38u8), (252u8, 135u8, 37u8), (252u8, 132u8, 35u8), (251u8, 129u8, 34u8),
        (251u8, 126u8, 33u8), (250u8, 123u8, 31u8), (249u8, 120u8, 30u8), (249u8, 117u8, 29u8),
        (248u8, 114u8, 28u8), (247u8, 111u8, 26u8), (246u8, 108u8, 25u8), (245u8, 105u8, 24u8),
        (244u8, 102u8, 23u8), (243u8, 99u8, 21u8), (242u8, 96u8, 20u8), (241u8, 93u8, 19u8),
        (240u8, 91u8, 18u8), (239u8, 88u8, 17u8), (237u8, 85u8, 16u8), (236u8, 83u8, 15u8),
        (235u8, 80u8, 14u8), (234u8, 78u8, 13u8), (232u8, 75u8, 12u8), (231u8, 73u8, 12u8),
        (229u8, 71u8, 11u8), (228u8, 69u8, 10u8), (226u8, 67u8, 10u8), (225u8, 65u8, 9u8),
        (223u8, 63u8, 8u8), (221u8, 61u8, 8u8), (220u8, 59u8, 7u8), (218u8, 57u8, 7u8),
        (216u8, 55u8, 6u8), (214u8, 53u8, 6u8), (212u8, 51u8, 5u8), (210u8, 49u8, 5u8),
        (208u8, 47u8, 5u8), (206u8, 45u8, 4u8), (204u8, 43u8, 4u8), (202u8, 42u8, 4u8),
        (200u8, 40u8, 3u8), (197u8, 38u8, 3u8), (195u8, 37u8, 3u8), (193u8, 35u8, 2u8),
        (190u8, 33u8, 2u8), (188u8, 32u8, 2u8), (185u8, 30u8, 2u8), (183u8, 29u8, 2u8),
        (180u8, 27u8, 1u8), (178u8, 26u8, 1u8), (175u8, 24u8, 1u8), (172u8, 23u8, 1u8),
        (169u8, 22u8, 1u8), (167u8, 20u8, 1u8), (164u8, 19u8, 1u8), (161u8, 18u8, 1u8),
        (158u8, 16u8, 1u8), (155u8, 15u8, 1u8), (152u8, 14u8, 1u8), (149u8, 13u8, 1u8),
        (146u8, 11u8, 1u8), (142u8, 10u8, 1u8), (139u8, 9u8, 2u8), (136u8, 8u8, 2u8),
        (133u8, 7u8, 2u8), (129u8, 6u8, 2u8), (126u8, 5u8, 2u8), (122u8, 4u8, 3u8),
    ]
}

/// A colour triple as the three channel bytes, in red, green, blue order.
pub open spec fn rgb(t: (u8, u8, u8)) -> Seq<u8> {
    seq![t.0, t.1, t.2]
}

/// The colour of a pixel whose escape result is `escape`.
pub open spec fn shade(escape: Option<u64>) -> Seq<u8> {
    match escape {
        None => seq![0u8, 0u8, 0u8],
        Some(i) => rgb(palette()[(i % 255) as int]),
    }
}

/// True when `m` holds the colour ramp, one three-byte entry per colour.
pub open spec fn is_colormap(m: Seq<Vec<u8>>) -> bool {
    &&& m.len() == palette().len()
    &&& forall|i: int| 0 <= i < m.len() ==> (#[trigger] m[i])@ == rgb(palette()[i])
}

fn palette_table() -> (r: [(u8, u8, u8); 256])
    ensures
        r@ == palette(),
{
    let data: [(u8, u8, u8); 256] = [
        (48, 18, 59), (50, 21, 67), (51, 24, 74), (52, 27, 81), (53, 30, 88), (54, 33, 95),
        (55, 36, 102), (56, 39, 109), (57, 42, 115), (58, 45, 121), (59, 47, 128), (60, 50, 134),
        (61, 53, 139), (62, 56, 145), (63, 59, 151), (63, 62, 156), (64, 64, 162), (65, 67, 167),
        (65, 70, 172), (66, 73, 177), (66, 75, 181), (67, 78, 186), (68, 81, 191), (68, 84, 195),
        (68, 86, 199), (69, 89, 203), (69, 92, 207), (69, 94, 211), (70, 97, 214), (70, 100, 218),
        (70, 102, 221), (70, 105, 224), (70, 107, 227), (71, 110, 230), (71, 113, 233),
        (71, 115, 235), (71, 118, 238), (71, 120, 240), (71, 123, 242), (70, 125, 244),
        (70, 128, 246), (70, 130, 248), (70, 133, 250), (70, 135, 251), (69, 138, 252),
        (69, 140, 253), (68, 143, 254), (67, 145, 254), (66, 148, 255), (65, 150, 255),
        (64, 153, 255), (62, 155, 254), (61, 158, 254), (59, 160, 253), (58, 163, 252),
        (56, 165, 251), (55, 168, 250), (53, 171, 248), (51, 173, 247), (49, 175, 245),
        (47, 178, 244), (46, 180, 242), (44, 183, 240), (42, 185, 238), (40, 188, 235),
        (39, 190, 233), (37, 192, 231), (35, 195, 228), (34, 197, 226), (32, 199, 223),
        (31, 201, 221), (30, 203, 218), (28, 205, 216), (27, 208, 213), (26, 210, 210),
        (26, 212, 208), (25, 213, 205), (24, 215, 202), (24, 217, 200), (24, 219, 197),
        (24, 221, 194), (24, 222, 192), (24, 224, 189), (25, 226, 187), (25, 227, 185),
        (26, 228, 182), (28, 230, 180), (29, 231, 178), (31, 233, 175), (32, 234, 172),
        (34, 235, 170), (37, 236, 167), (39, 238, 164), (42, 239, 161), (44, 240, 158),
        (47, 241, 155), (50, 242, 152), (53, 243, 148), (56, 244, 145), (60, 245, 142),
        (63, 246, 138), (67, 247, 135), (70, 248, 132), (74, 248, 128), (78, 249, 125),
        (82, 250, 122), (85, 250, 118), (89, 251, 115), (93, 252, 111), (97, 252, 108),
        (101, 253, 105), (105, 253, 102), (109, 254, 98), (113, 254, 95), (117, 254, 92),
        (121, 254, 89), (125, 255, 86), (128, 255, 83), (132, 255, 81), (136, 255, 78),
        (139, 255, 75), (143, 255, 73), (146, 255, 71), (150, 254, 68), (153, 254, 66),
        (156, 254, 64), (159, 253, 63), (161, 253, 61), (164, 252, 60), (167, 252, 58),
        (169, 251, 57), (172, 251, 56), (175, 250, 55), (177, 249, 54), (180, 248, 54),
        (183, 247, 53), (185, 246, 53), (188, 245, 52), (190, 244, 52), (193, 243, 52),
        (195, 241, 52), (198, 240, 52), (200, 239, 52), (203, 237, 52), (205, 236, 52),
        (208, 234, 52), (210, 233, 53), (212, 231, 53), (215, 229, 53), (217, 228, 54),
        (219, 226, 54), (221, 224, 55), (223, 223, 55), (225, 221, 55), (227, 219, 56),
        (229, 217, 56), (231, 215, 57), (233, 213, 57), (235, 211, 57), (236, 209, 58),
        (238, 207, 58), (239, 205, 58), (241, 203, 58), (242, 201, 58), (244, 199, 58),
        (245, 197, 58), (246, 195, 58), (247, 193, 58), (248, 190, 57), (249, 188, 57),
        (250, 186, 57), (251, 184, 56), (251, 182, 55), (252, 179, 54), (252, 177, 54),
        (253, 174, 53), (253, 172, 52), (254, 169, 51), (254, 167, 50), (254, 164, 49),
        (254, 161, 48), (254, 158, 47), (254, 155, 45), (254, 153, 44), (254, 150, 43),
        (254, 147, 42), (254, 144, 41), (253, 141, 39), (253, 138, 38), (252, 135, 37),
        (252, 132, 35), (251, 129, 34), (251, 126, 33), (250, 123, 31), (249, 120, 30),
        (249, 117, 29), (248, 114, 28), (247, 111, 26), (246, 108, 25), (245, 105, 24),
        (244, 102, 23), (243, 99, 21), (242, 96, 20), (241, 93, 19), (240, 91, 18), (239, 88, 17),
        (237, 85, 16), (236, 83, 15), (235, 80, 14), (234, 78, 13), (232, 75, 12), (231, 73, 12),
        (229, 71, 11), (228, 69, 10), (226, 67, 10), (225, 65, 9), (223, 63, 8), (221, 61, 8),
        (220, 59, 7), (218, 57, 7), (216, 55, 6), (214, 53, 6), (212, 51, 5), (210, 49, 5),
        (208, 47, 5), (206, 45, 4), (204, 43, 4), (202, 42, 4), (200, 40, 3), (197, 38, 3),
        (195, 37, 3), (193, 35, 2), (190, 33, 2), (188, 32, 2), (185, 30, 2), (183, 29, 2),
        (180, 27, 1), (178, 26, 1), (175, 24, 1), (172, 23, 1), (169, 22, 1), (167, 20, 1),
        (164, 19, 1), (161, 18, 1), (158, 16, 1), (155, 15, 1), (152, 14, 1), (149, 13, 1),
        (146, 11, 1), (142, 10, 1), (139, 9, 2), (136, 8, 2), (133, 7, 2), (129, 6, 2),
        (126, 5, 2), (122, 4, 3),
    ];
    assert(data@ == palette());
    data
}

/// Builds the colour ramp: 256 entries, each a red, green, blue byte triple.
pub fn gen_colormap() -> (result: Vec<Vec<u8>>)
    ensures
        is_colormap(result@),
        result@.len() == PALETTE_LEN,
{
    let data = palette_table();
    let mut result: Vec<Vec<u8>> = Vec::with_capacity(PALETTE_LEN);
    let mut k: usize = 0;
    while k < PALETTE_LEN
        invariant
            k <= PALETTE_LEN,
            data@ == palette(),
            palette().len() == PALETTE_LEN,
            result@.len() == k,
            forall|i: int| 0 <= i < k ==> (#[trigger] result@[i])@ == rgb(palette()[i]),
        decreases PALETTE_LEN - k,
    {
        let c = data[k];
        result.push(vec![c.0, c.1, c.2]);
        k = k + 1;
    }
    result
}

/// The colour of one pixel: black when its point did not escape, otherwise the ramp
/// entry at the escape count taken modulo 255.
pub fn pixel_color(escape: Option<u64>, colormap: &Vec<Vec<u8>>) -> (color: Vec<u8>)
    requires
        is_colormap(colormap@),
    ensures
        color@ == shade(escape),
{
    match escape {
        None => vec![0u8, 0u8, 0u8],
        Some(count) => {
            let k = (count % PALETTE_MODULUS) as usize;
            let entry = &colormap[k];
            assert(entry@ == rgb(palette()[k as int]));
            vec![entry[0], entry[1], entry[2]]
        },
    }
}

/// Colours a run of pixels from their escape results, keeping their order.
pub fn colorize(escapes: &Vec<Option<u64>>, colormap: &Vec<Vec<u8>>) -> (pixels: Vec<Vec<u8>>)
    requires
        is_colormap(colormap@),
    ensures
        pixels@.len() == escapes@.len(),
        forall|i: int| 0 <= i < escapes@.len() ==> (#[trigger] pixels@[i])@ == shade(escapes@[i]),
{
    let mut pixels: Vec<Vec<u8>> = Vec::with_capacity(escapes.len());
    let mut k: usize = 0;
    while k < escapes.len()
        invariant
            k <= escapes@.len(),
            is_colormap(colormap@),
            pixels@.len() == k,
            forall|i: int| 0 <= i < k ==> (#[trigger] pixels@[i])@ == shade(escapes@[i]),
        decreases escapes@.len() - k,
    {
        pixels.push(pixel_color(escapes[k], colormap));
        k = k + 1;
    }
    pixels
}


} // verus!
