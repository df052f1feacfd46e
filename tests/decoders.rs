use rolf3d::assetloader::{load_maps, load_one_map, load_pics, load_vswap};
use rolf3d::decode::{
    carmack_expand, decompress_map_plane, huff_decode_chunk, munge_pic, parse_font, parse_sprite, rlew_expand,
};

#[test]
fn carmack_words_and_references() {
    // plain word, near copy of 2 words from 1 back, escaped word
    let chunk = [8u8, 0, 0x34, 0x12, 2, 0xA7, 1, 0x00, 0xA7, 0x55];
    assert_eq!(carmack_expand(&chunk), Some(vec![0x1234, 0x1234, 0x1234, 0xA755]));
    // far copy from word 0
    let chunk = [6u8, 0, 0x01, 0x00, 0x02, 0x00, 1, 0xA8, 0, 0];
    assert_eq!(carmack_expand(&chunk), Some(vec![1, 2, 1]));
    // reference before the start
    assert_eq!(carmack_expand(&[4u8, 0, 1, 0xA7, 1]), None);
    assert_eq!(carmack_expand(&[8u8, 0, 1, 2]), None);
}

#[test]
fn rlew_runs() {
    let words = vec![10u16, 7, 0xABCD, 3, 9, 8];
    assert_eq!(rlew_expand(&words, 0xABCD), Some(vec![7, 9, 9, 9, 8]));
    assert_eq!(rlew_expand(&vec![10u16, 7], 0xABCD), None);
}

#[test]
fn map_plane_is_carmack_then_rlew() {
    let words = [10u16, 7, 0xABCD, 3, 9, 8];
    let mut chunk = vec![12u8, 0];
    for w in words {
        chunk.push((w & 0xFF) as u8);
        chunk.push((w >> 8) as u8);
    }
    assert_eq!(decompress_map_plane(&chunk, 0xABCD), Some(vec![7, 9, 9, 9, 8]));
}

#[test]
fn huffman_decoding() {
    let mut dict = vec![0u16; 512];
    dict[2 * 254] = 65;
    dict[2 * 254 + 1] = 256 + 253;
    dict[2 * 253] = 66;
    dict[2 * 253 + 1] = 67;
    // A = 0, B = 10, C = 11, low bit first
    let bytes = [3u8, 0, 0, 0, 0b11010];
    assert_eq!(huff_decode_chunk(&bytes, &dict), Some(vec![65, 66, 67]));
    // asks for more bytes than the bits hold
    let bytes = [9u8, 0, 0, 0, 0b11010];
    assert_eq!(huff_decode_chunk(&bytes, &dict), None);
}

#[test]
fn munged_pic_is_column_by_column() {
    let mut px = vec![10u8, 11, 12, 13, 14, 15, 16, 17];
    munge_pic(8, 1, &mut px);
    assert_eq!(px, vec![10, 12, 14, 16, 11, 13, 15, 17]);
}

#[test]
fn sprite_columns() {
    let bytes = [0u8, 0, 0, 0, 8, 0, 0x11, 0x22, 4, 0, 0, 0, 0, 0, 0, 0];
    let px = parse_sprite(&bytes).unwrap();
    assert_eq!(px.len(), 4096);
    assert_eq!((px[0], px[1], px[2], px[64]), (0x11, 0x22, 0xFF, 0xFF));
    // a transparent texel cannot be stored
    let bad = [0u8, 0, 0, 0, 8, 0, 0xFF, 0x22, 4, 0, 0, 0, 0, 0, 0, 0];
    assert_eq!(parse_sprite(&bad), None);
}

#[test]
fn font_glyphs() {
    let mut b = vec![0u8; 702];
    b[0] = 2;
    b[2 + 2 * 33] = (700 % 256) as u8;
    b[3 + 2 * 33] = (700 / 256) as u8;
    b[33 + 514] = 1;
    b[546] = 3;
    b[700] = 5;
    b[701] = 6;
    let f = parse_font(&b).unwrap();
    assert_eq!((f.font_height, f.space_width), (2, 3));
    assert_eq!(f.offs_widths, vec![0, 1]);
    assert_eq!(f.pixels, vec![5, 6]);
    assert_eq!(f.text_width("! "), 4);
    assert!(parse_font(&b[0..600]).is_none());
}

#[test]
fn file_errors() {
    assert_eq!(load_one_map(5, &[0u8; 10], 0xABCD).err(), Some(String::from("Invalid map header index: 5")));
    assert!(load_maps(&[1u8], &[]).is_err());
    assert_eq!(load_maps(&[0xCD, 0xAB, 0, 0, 0, 0], &[]).map(|m| m.len()), Ok(0));
    assert!(load_vswap(&[0u8; 4]).is_err());
    assert!(load_pics(&[0u8; 10], &[0u8; 9], &[]).is_err());
}

#[test]
fn vswap_with_one_wall_and_one_sprite() {
    let mut v = vec![2u8, 0, 1, 0, 2, 0];
    let wall_ofs = 6 + 12;
    let sprite_ofs = wall_ofs + 4096;
    for ofs in [wall_ofs as u32, sprite_ofs as u32] {
        v.extend_from_slice(&ofs.to_le_bytes());
    }
    v.extend_from_slice(&4096u16.to_le_bytes());
    v.extend_from_slice(&16u16.to_le_bytes());
    v.extend(std::iter::repeat(7u8).take(4096));
    v.extend_from_slice(&[0u8, 0, 0, 0, 8, 0, 0x11, 0x22, 4, 0, 0, 0, 0, 0, 0, 0]);
    let (walls, sprites) = load_vswap(&v).unwrap();
    assert_eq!((walls.len(), sprites.len()), (1, 1));
    assert_eq!(walls[0].texel_at(10, 10), 7);
    assert_eq!(sprites[0].texel_at(0, 1), 0x22);
}

/// A map plane of 4096 copies of `value`, RLEW run inside a plain Carmack chunk.
fn plane_of(value: u16, tag: u16) -> Vec<u8> {
    let words = [8192u16, tag, 4096, value];
    let mut chunk = vec![8u8, 0];
    for w in words {
        chunk.extend_from_slice(&w.to_le_bytes());
    }
    chunk
}

#[test]
fn maps_from_maphead_and_gamemaps() {
    let tag = 0xABCDu16;
    let mut g = vec![0u8; 4];
    let ofs1 = g.len() as i32;
    g.extend(plane_of(107, tag));
    let ofs2 = g.len() as i32;
    g.extend(plane_of(0, tag));
    let hdr = g.len() as i32;
    g.extend_from_slice(&ofs1.to_le_bytes());
    g.extend_from_slice(&ofs2.to_le_bytes());
    g.extend_from_slice(&[0u8; 10]);
    g.extend_from_slice(&64u16.to_le_bytes());
    g.extend_from_slice(&64u16.to_le_bytes());
    g.extend_from_slice(b"Test\0\0\0\0\0\0\0\0\0\0\0\0");
    let mut maphead = tag.to_le_bytes().to_vec();
    maphead.extend_from_slice(&hdr.to_le_bytes());
    maphead.extend_from_slice(&0i32.to_le_bytes());
    let maps = load_maps(&maphead, &g).unwrap();
    assert_eq!(maps.len(), 1);
    assert_eq!(maps[0].name, "Test");
    assert_eq!((maps[0].tile(10, 10), maps[0].thing(10, 10)), (107, 0));
    // a header pointing past the planes
    assert!(load_one_map(hdr as usize + 1, &g, tag).is_err());
}
