//! Reading the game files (already loaded into memory): maps from MAPHEAD
//! and GAMEMAPS, walls and sprites from VSWAP, fonts and PICs from VGADICT,
//! VGAHEAD and VGAGRAPH.
use vstd::prelude::*;
use vstd::slice::slice_subrange;
use vstd::string::StrSliceExecFns;
use crate::assets::{FontData, GfxData, MapData};
use crate::decode::{
    decompress_map_plane, huff_decode_chunk, map_plane, munge_pic, parse_font, parse_sprite, sprite_texels, huff_decode,
    font_of, at_col, plane_index,
};
use crate::picdict::PicDict;
use crate::text::nat_decimal;
use crate::utils::{buf_to_ascii, buf_to_i32, buf_to_u16, buf_to_u32, le_u16, le_u32, ascii_text_of};
use crate::lemma_mul_bound;

verus! {

/// Everything the game files hold.
pub struct GameAssets {
    pub maps: Vec<MapData>,
    pub walls: Vec<GfxData>,
    pub sprites: Vec<GfxData>,
    pub font1: FontData,
    pub font2: FontData,
    pub pics: PicDict,
    pub game_type: String,
    pub is_sod: bool,
}

fn message(text: &str) -> (r: String)
    ensures
        r@ == text@,
{
    let mut s = String::new();
    s.append(text);
    s
}

fn message_with_number(text: &str, n: usize) -> (r: String) {
    let mut s = String::new();
    s.append(text);
    s.append(nat_decimal(n as u64).as_str());
    s
}

pub open spec fn all_wf(v: Seq<GfxData>) -> bool {
    forall|i: int| 0 <= i < v.len() ==> (#[trigger] v[i]).wf()
}

/// A four-byte little-endian signed value.
pub open spec fn le_i32_at(b: Seq<u8>, i: int) -> int {
    let u = le_u32(b[i], b[i + 1], b[i + 2], b[i + 3]);
    if u < 0x8000_0000 {
        u
    } else {
        u - 0x1_0000_0000
    }
}

/// The parts of a map: name, width, height, walls plane, things plane.
pub open spec fn map_parts_ok(name: Seq<char>, w: u16, h: u16, tiles: Seq<u16>, things: Seq<u16>) -> bool {
    name.len() > 0 && w == 64 && h == 64 && tiles.len() == 4096 && things.len() == 4096
        && (forall|i: int| 0 <= i < 4096 ==> tiles[i] <= 0xFF) && (forall|i: int| 0 <= i < 4096 ==> things[i] <= 0x1FF)
}

/// The map whose header starts at `hdr` in GAMEMAPS: the offsets of its
/// two planes (four bytes each), its width and height (two bytes each, at
/// 18 and 20) and its name (at 22, up to 16 characters); the planes are
/// Carmack and RLEW compressed.
#[verifier::opaque]
pub open spec fn one_map(g: Seq<u8>, hdr: int, tag: u16) -> Option<(Seq<char>, u16, u16, Seq<u16>, Seq<u16>)> {
    if hdr < 0 || hdr + 26 >= g.len() {
        None
    } else {
        let o1 = le_i32_at(g, hdr);
        let o2 = le_i32_at(g, hdr + 4);
        let w = le_u16(g[hdr + 18], g[hdr + 19]) as u16;
        let h = le_u16(g[hdr + 20], g[hdr + 21]) as u16;
        let name = ascii_text_of(g.subrange(hdr + 22, g.len() as int), 16);
        if o1 <= 0 || o2 <= 0 || o1 >= g.len() || o2 >= g.len() {
            None
        } else {
            match (map_plane(g.subrange(o1, g.len() as int), tag), map_plane(g.subrange(o2, g.len() as int), tag)) {
                (Some(tiles), Some(things)) => if map_parts_ok(name, w, h, tiles, things) {
                    Some((name, w, h, tiles, things))
                } else {
                    None
                },
                _ => None,
            }
        }
    }
}

pub open spec fn map_matches(m: MapData, parts: (Seq<char>, u16, u16, Seq<u16>, Seq<u16>)) -> bool {
    m.name@ == parts.0 && m.width == parts.1 && m.height == parts.2 && m.tiles@ == parts.3 && m.things@ == parts.4
}

/// Reads the map whose header starts at `hdridx` in GAMEMAPS.
pub fn load_one_map(hdridx: usize, gamemaps: &[u8], rlew_tag: u16) -> (r: Result<MapData, String>)
    ensures
        r is Ok <==> one_map(gamemaps@, hdridx as int, rlew_tag) is Some,
        r matches Ok(m) ==> m.wf() && map_matches(m, one_map(gamemaps@, hdridx as int, rlew_tag)->0),
{
    reveal(one_map);
    let n = gamemaps.len();
    if n <= 26 || hdridx >= n - 26 {
        return Err(message_with_number("Invalid map header index: ", hdridx));
    }
    let hdr = slice_subrange(gamemaps, hdridx, n);
    let ofs_plane_1 = buf_to_i32(hdr);
    let ofs_plane_2 = buf_to_i32(slice_subrange(hdr, 4, 8));
    let width = buf_to_u16(slice_subrange(hdr, 18, 20));
    let height = buf_to_u16(slice_subrange(hdr, 20, 22));
    let name = buf_to_ascii(slice_subrange(hdr, 22, hdr.len()), 16);
    proof {
        assert(hdr@.subrange(22, hdr@.len() as int) =~= gamemaps@.subrange(hdridx + 22, n as int));
    }
    if ofs_plane_1 <= 0 || ofs_plane_2 <= 0 || ofs_plane_1 as usize >= n || ofs_plane_2 as usize >= n {
        let mut msg = message("Missing plane in GAMEMAPS for ");
        msg.append(name.as_str());
        return Err(msg);
    }
    let walls = decompress_map_plane(slice_subrange(gamemaps, ofs_plane_1 as usize, n), rlew_tag);
    let things = decompress_map_plane(slice_subrange(gamemaps, ofs_plane_2 as usize, n), rlew_tag);
    match (walls, things) {
        (Some(walls), Some(things)) => {
            if !map_data_ok(&name, width, height, &walls, &things) {
                let mut msg = message("Invalid map data in GAMEMAPS for ");
                msg.append(name.as_str());
                return Err(msg);
            }
            Ok(MapData::new(name, width, height, walls, things))
        },
        _ => {
            let mut msg = message("Corrupt plane in GAMEMAPS for ");
            msg.append(name.as_str());
            Err(msg)
        },
    }
}

/// Whether the parts make a well-formed map.
fn map_data_ok(name: &String, width: u16, height: u16, tiles: &Vec<u16>, things: &Vec<u16>) -> (r: bool)
    ensures
        r == map_parts_ok(name@, width, height, tiles@, things@),
{
    if name.as_str().unicode_len() == 0 || width != 64 || height != 64 || tiles.len() != 4096 || things.len() != 4096 {
        return false;
    }
    let mut i: usize = 0;
    while i < 4096
        invariant
            tiles@.len() == 4096,
            things@.len() == 4096,
            0 <= i <= 4096,
            forall|k: int| 0 <= k < i ==> tiles@[k] <= 0xFF && things@[k] <= 0x1FF,
        decreases 4096 - i,
    {
        if tiles[i] > 0xFF || things[i] > 0x1FF {
            assert(!map_parts_ok(name@, width, height, tiles@, things@));
            return false;
        }
        i += 1;
    }
    true
}

/// The header offsets listed in MAPHEAD from byte `idx` on (four bytes
/// each), up to the first that is not positive or the end of the file.
pub open spec fn map_entries(mh: Seq<u8>, idx: int) -> Seq<int>
    decreases mh.len() - idx,
{
    if idx < 0 || idx + 3 >= mh.len() || le_i32_at(mh, idx) <= 0 {
        seq![]
    } else {
        seq![le_i32_at(mh, idx)] + map_entries(mh, idx + 4)
    }
}

/// Whether every map that MAPHEAD lists can be read.
pub open spec fn maps_ok(maphead: Seq<u8>, gamemaps: Seq<u8>) -> bool {
    maphead.len() >= 2 && forall|i: int| 0 <= i < map_entries(maphead, 2).len()
        ==> one_map(gamemaps, #[trigger] map_entries(maphead, 2)[i], le_u16(maphead[0], maphead[1]) as u16) is Some
}

/// Reads every map: MAPHEAD holds the RLEW tag (two bytes), then the header
/// offset of each map in GAMEMAPS.
pub fn load_maps(maphead: &[u8], gamemaps: &[u8]) -> (r: Result<Vec<MapData>, String>)
    ensures
        r is Ok <==> maps_ok(maphead@, gamemaps@),
        maphead@.len() < 2 ==> r is Err,
        r matches Ok(v) ==> ({
            let tag = le_u16(maphead@[0], maphead@[1]) as u16;
            let entries = map_entries(maphead@, 2);
            &&& v@.len() == entries.len()
            &&& forall|i: int| 0 <= i < v@.len() ==> (#[trigger] v@[i]).wf() && one_map(gamemaps@, entries[i], tag) is Some
                && map_matches(v@[i], one_map(gamemaps@, entries[i], tag)->0)
        }),
        (r is Err && maphead@.len() >= 2) ==> exists|i: int| 0 <= i < map_entries(maphead@, 2).len()
            && one_map(gamemaps@, #[trigger] map_entries(maphead@, 2)[i], le_u16(maphead@[0], maphead@[1]) as u16) is None,
{
    let n = maphead.len();
    if n < 2 {
        return Err(message("MAPHEAD is too short"));
    }
    let rlew_tag = buf_to_u16(maphead);
    let ghost entries = map_entries(maphead@, 2);
    let mut maps: Vec<MapData> = Vec::new();
    let mut idx: usize = 2;
    loop
        invariant
            n == maphead@.len(),
            n >= 2,
            idx >= 2,
            rlew_tag == le_u16(maphead@[0], maphead@[1]) as u16,
            entries == map_entries(maphead@, 2),
            entries == entries.take(maps@.len() as int) + map_entries(maphead@, idx as int),
            maps@.len() <= entries.len(),
            forall|i: int| 0 <= i < maps@.len() ==> (#[trigger] maps@[i]).wf() && one_map(gamemaps@, entries[i], rlew_tag) is Some
                && map_matches(maps@[i], one_map(gamemaps@, entries[i], rlew_tag)->0),
        decreases n - idx,
    {
        if idx >= n || n - idx <= 3 {
            assert(map_entries(maphead@, idx as int) =~= Seq::<int>::empty());
            assert(entries =~= entries.take(maps@.len() as int));
            assert forall|i: int| 0 <= i < entries.len() implies one_map(gamemaps@, #[trigger] entries[i], rlew_tag) is Some by {
                assert(maps@[i].wf());
            }
            assert(maps@.len() == entries.len());
            return Ok(maps);
        }
        let entry = slice_subrange(maphead, idx, n);
        assert(entry@[0] == maphead@[idx as int] && entry@[1] == maphead@[idx + 1] && entry@[2] == maphead@[idx + 2]
            && entry@[3] == maphead@[idx + 3]);
        let mapidx = buf_to_i32(entry);
        assert(mapidx as int == le_i32_at(maphead@, idx as int));
        if mapidx <= 0 {
            assert(map_entries(maphead@, idx as int) =~= Seq::<int>::empty());
            assert(entries =~= entries.take(maps@.len() as int));
            assert forall|i: int| 0 <= i < entries.len() implies one_map(gamemaps@, #[trigger] entries[i], rlew_tag) is Some by {
                assert(maps@[i].wf());
            }
            return Ok(maps);
        }
        let ghost k = maps@.len() as int;
        assert(entries[k] == mapidx as int);
        let map = load_one_map(mapidx as usize, gamemaps, rlew_tag);
        let ghost before = maps@;
        match map {
            Ok(m) => {
                assert(m.wf() && one_map(gamemaps@, entries[k], rlew_tag) is Some);
                assert(map_matches(m, one_map(gamemaps@, entries[k], rlew_tag)->0));
                maps.push(m);
            },
            Err(e) => {
                assert(one_map(gamemaps@, entries[k], rlew_tag) is None);
                return Err(e);
            },
        }
        proof {
            assert forall|i: int| 0 <= i < maps@.len() implies (#[trigger] maps@[i]).wf() && one_map(gamemaps@, entries[i], rlew_tag) is Some
                && map_matches(maps@[i], one_map(gamemaps@, entries[i], rlew_tag)->0) by {
                if i < k {
                    assert(maps@[i] == before[i]);
                }
            }
            assert(entries.take(k + 1) =~= entries.take(k) + seq![mapidx as int]);
            assert(entries =~= entries.take(maps@.len() as int) + map_entries(maphead@, idx + 4));
        }
        idx += 4;
    }
}

/// Chunk `i` of VSWAP, as a picture: a wall's 64 x 64 raw texels, or a
/// decoded sprite; an empty picture where the chunk has no offset or length.
pub open spec fn vswap_pic(v: Seq<u8>, i: int, pic: GfxData) -> bool {
    let cnt = le_u16(v[0], v[1]);
    let ofs = le_u32(v[6 + 4 * i], v[7 + 4 * i], v[8 + 4 * i], v[9 + 4 * i]);
    let len = le_u16(v[6 + 4 * cnt + 2 * i], v[7 + 4 * cnt + 2 * i]);
    if ofs > 0 && len > 0 {
        pic.width == 64 && pic.height == 64 && if i < le_u16(v[2], v[3]) {
            pic.texels@ == v.subrange(ofs, ofs + len)
        } else {
            sprite_texels(v.subrange(ofs, ofs + len)) == Some(pic.texels@)
        }
    } else {
        pic.width == 0 && pic.height == 0 && pic.texels@.len() == 0
    }
}

/// Whether chunk `i` of VSWAP can be read: no offset or no length (an
/// empty picture), or it lies in the file and is a 64 x 64 wall (before the
/// first sprite) or a sprite that decodes.
pub open spec fn vswap_chunk_ok(v: Seq<u8>, i: int) -> bool {
    let cnt = le_u16(v[0], v[1]);
    let ofs = le_u32(v[6 + 4 * i], v[7 + 4 * i], v[8 + 4 * i], v[9 + 4 * i]);
    let len = le_u16(v[6 + 4 * cnt + 2 * i], v[7 + 4 * cnt + 2 * i]);
    ofs == 0 || len == 0 || (ofs < v.len() && len <= v.len() - ofs && if i < le_u16(v[2], v[3]) {
        len == 4096
    } else {
        sprite_texels(v.subrange(ofs, ofs + len)) is Some
    })
}

/// Whether VSWAP can be read: a header whose sprite and sound starts are
/// in order, the offset and length tables in the file, every picture chunk
/// readable.
pub open spec fn vswap_ok(v: Seq<u8>) -> bool {
    &&& v.len() >= 6
    &&& le_u16(v[2], v[3]) <= le_u16(v[4], v[5]) <= le_u16(v[0], v[1])
    &&& 6 + 6 * le_u16(v[0], v[1]) <= v.len()
    &&& forall|i: int| 0 <= i < le_u16(v[4], v[5]) ==> #[trigger] vswap_chunk_ok(v, i)
}

/// Reads VSWAP: the chunk count, the first sprite and first sound chunk,
/// then an offset (four bytes) and a length (two bytes) per chunk. Walls
/// are 64 x 64 raw texels, sprites are in column-command format; missing
/// chunks give empty pictures.
pub fn load_vswap(vswap: &[u8]) -> (r: Result<(Vec<GfxData>, Vec<GfxData>), String>)
    ensures
        r is Ok <==> vswap_ok(vswap@),
        r matches Ok((walls, sprites)) ==> all_wf(walls@) && all_wf(sprites@) && vswap@.len() >= 6
            && walls@.len() == le_u16(vswap@[2], vswap@[3]) && sprites@.len() == le_u16(vswap@[4], vswap@[5])
            - le_u16(vswap@[2], vswap@[3])
            && (forall|i: int| 0 <= i < walls@.len() ==> vswap_pic(vswap@, i, #[trigger] walls@[i]))
            && (forall|j: int| 0 <= j < sprites@.len() ==> vswap_pic(vswap@, walls@.len() + j, #[trigger] sprites@[j])),
{
    let n = vswap.len();
    if n < 6 {
        return Err(message("VSWAP is too short"));
    }
    let cnt = buf_to_u16(vswap) as usize;
    let sprite_start = buf_to_u16(slice_subrange(vswap, 2, 4)) as usize;
    let sound_start = buf_to_u16(slice_subrange(vswap, 4, 6)) as usize;
    if sprite_start > sound_start || sound_start > cnt || 6 + 6 * cnt > n {
        return Err(message("VSWAP header is inconsistent"));
    }
    let mut walls: Vec<GfxData> = Vec::new();
    let mut sprites: Vec<GfxData> = Vec::new();
    let mut i: usize = 0;
    while i < sound_start
        invariant
            n == vswap@.len(),
            cnt < 0x1_0000,
            sprite_start <= sound_start <= cnt,
            6 + 6 * cnt <= n,
            0 <= i <= sound_start,
            i <= sprite_start ==> walls@.len() == i && sprites@.len() == 0,
            i > sprite_start ==> walls@.len() == sprite_start && sprites@.len() == i - sprite_start,
            all_wf(walls@),
            all_wf(sprites@),
            cnt == le_u16(vswap@[0], vswap@[1]),
            forall|k: int| 0 <= k < walls@.len() ==> vswap_pic(vswap@, k, #[trigger] walls@[k]),
            forall|k: int| 0 <= k < sprites@.len() ==> vswap_pic(vswap@, sprite_start + k, #[trigger] sprites@[k]),
            sprite_start == le_u16(vswap@[2], vswap@[3]),
            sound_start == le_u16(vswap@[4], vswap@[5]),
            forall|k: int| 0 <= k < i ==> #[trigger] vswap_chunk_ok(vswap@, k),
        decreases sound_start - i,
    {
        let oslice = slice_subrange(vswap, 6 + 4 * i, n);
        assert(oslice@[0] == vswap@[6 + 4 * i] && oslice@[1] == vswap@[7 + 4 * i] && oslice@[2] == vswap@[8 + 4 * i]
            && oslice@[3] == vswap@[9 + 4 * i]);
        let ofs = buf_to_u32(oslice) as usize;
        let lslice = slice_subrange(vswap, 6 + 4 * cnt + 2 * i, n);
        assert(lslice@[0] == vswap@[6 + 4 * cnt + 2 * i] && lslice@[1] == vswap@[7 + 4 * cnt + 2 * i]);
        let len = buf_to_u16(lslice) as usize;
        let pic = if ofs > 0 && len > 0 {
            if ofs >= n || len > n - ofs {
                assert(!vswap_chunk_ok(vswap@, i as int));
                return Err(message_with_number("VSWAP chunk outside the file: ", i));
            }
            let bytes = slice_subrange(vswap, ofs, ofs + len);
            if i < sprite_start {
                if len != 4096 {
                    assert(!vswap_chunk_ok(vswap@, i as int));
                    return Err(message_with_number("Wall of wrong size: ", i));
                }
                GfxData::new_sprite(vstd::slice::slice_to_vec(bytes))
            } else {
                match parse_sprite(bytes) {
                    Some(pixels) => GfxData::new_sprite(pixels),
                    None => {
                        assert(!vswap_chunk_ok(vswap@, i as int));
                        return Err(message_with_number("Corrupt sprite: ", i));
                    },
                }
            }
        } else {
            GfxData::new_empty()
        };
        assert(vswap_pic(vswap@, i as int, pic));
        assert(vswap_chunk_ok(vswap@, i as int));
        let ghost walls0 = walls@;
        let ghost sprites0 = sprites@;
        if i < sprite_start {
            walls.push(pic);
        } else {
            sprites.push(pic);
        }
        proof {
            assert(all_wf(walls@));
            assert(all_wf(sprites@));
            assert forall|k: int| 0 <= k < walls@.len() implies vswap_pic(vswap@, k, #[trigger] walls@[k]) by {
                if k < walls0.len() {
                    assert(walls@[k] == walls0[k]);
                }
            }
            assert forall|k: int| 0 <= k < sprites@.len() implies vswap_pic(vswap@, sprite_start + k, #[trigger] sprites@[k]) by {
                if k < sprites0.len() {
                    assert(sprites@[k] == sprites0[k]);
                }
            }
        }
        i += 1;
    }
    Ok((walls, sprites))
}

/// The Huffman tree of VGADICT: 512 little-endian words.
pub open spec fn huff_dict_of(d: Seq<u8>) -> Seq<u16> {
    Seq::new(512, |i: int| le_u16(d[2 * i], d[2 * i + 1]) as u16)
}

/// Offset of chunk `k` in VGAGRAPH: three little-endian bytes of VGAHEAD.
pub open spec fn chunk_offset(head: Seq<u8>, k: int) -> int {
    head[3 * k] + 256 * head[3 * k + 1] + 65536 * head[3 * k + 2]
}

/// What a decoded chunk of VGAGRAPH, from offset `o` to the end, holds.
pub open spec fn decoded_from(graph: Seq<u8>, o: int, dict: Seq<u16>) -> Seq<u8> {
    huff_decode(graph.subrange(o, graph.len() as int), dict)->0
}

/// A font made of the given parts.
pub open spec fn font_is(f: FontData, parts: (u16, u16, Seq<u16>, Seq<u8>)) -> bool {
    f.font_height == parts.0 && f.space_width == parts.1 && f.offs_widths@ == parts.2 && f.pixels@ == parts.3
}

/// PIC `p`: its size from the size table, its texels the plane-split
/// pixels of its chunk (chunk `p + 3`) put column by column.
pub open spec fn pic_is(pic: GfxData, sizes: Seq<u8>, pixels: Seq<u8>, p: int) -> bool {
    &&& pic.width as int == le_u16(sizes[4 * p], sizes[4 * p + 1])
    &&& pic.height as int == le_u16(sizes[4 * p + 2], sizes[4 * p + 3])
    &&& forall|x: int, y: int| 0 <= x < pic.width && 0 <= y < pic.height ==> #[trigger] at_col(pic.texels@, pic.height as int, x, y)
        == pixels[plane_index(pic.width as int, pic.height as int, x, y)]
}

/// Whether PIC `p` can be read: its chunk is listed in VGAHEAD, lies in
/// VGAGRAPH and decodes to width x height texels, the width a multiple of 4.
pub open spec fn pic_chunk_ok(head: Seq<u8>, graph: Seq<u8>, dict: Seq<u16>, sizes: Seq<u8>, p: int) -> bool {
    let o = chunk_offset(head, p + 3);
    let w = le_u16(sizes[4 * p], sizes[4 * p + 1]);
    let h = le_u16(sizes[4 * p + 2], sizes[4 * p + 3]);
    &&& p + 3 < head.len() / 3
    &&& o <= graph.len()
    &&& huff_decode(graph.subrange(o, graph.len() as int), dict) is Some
    &&& w % 4 == 0
    &&& decoded_from(graph, o, dict).len() == w * h
}

/// Whether the fonts and PICs can be read: a dictionary of 1024 bytes, a
/// list of three-byte offsets, a size table and two fonts that decode,
/// and every PIC readable.
pub open spec fn pics_ok(d: Seq<u8>, head: Seq<u8>, graph: Seq<u8>) -> bool {
    let dict = huff_dict_of(d);
    let o0 = chunk_offset(head, 0);
    let o1 = chunk_offset(head, 1);
    let o2 = chunk_offset(head, 2);
    let sizes = huff_decode(graph.subrange(o0, o1), dict)->0;
    &&& d.len() == 1024
    &&& head.len() >= 9 && head.len() % 3 == 0
    &&& o0 <= o1 <= graph.len() && o2 <= graph.len()
    &&& huff_decode(graph.subrange(o0, o1), dict) is Some
    &&& huff_decode(graph.subrange(o1, graph.len() as int), dict) is Some
    &&& font_of(decoded_from(graph, o1, dict)) is Some
    &&& huff_decode(graph.subrange(o2, graph.len() as int), dict) is Some
    &&& font_of(decoded_from(graph, o2, dict)) is Some
    &&& forall|p: int| 0 <= p < sizes.len() / 4 ==> #[trigger] pic_chunk_ok(head, graph, dict, sizes, p)
}

/// Reads the fonts and PICs: VGADICT is the Huffman tree (256 word pairs),
/// VGAHEAD the three-byte offsets of the chunks in VGAGRAPH. Chunk 0 holds
/// the PIC sizes, chunks 1 and 2 the fonts, the PICs follow.
pub fn load_pics(vgadict: &[u8], vgahead: &[u8], vgagraph: &[u8]) -> (r: Result<(FontData, FontData, Vec<GfxData>), String>)
    ensures
        r is Ok <==> pics_ok(vgadict@, vgahead@, vgagraph@),
        r matches Ok((f1, f2, pics)) ==> ({
            let dict = huff_dict_of(vgadict@);
            let sizes = huff_decode(vgagraph@.subrange(chunk_offset(vgahead@, 0), chunk_offset(vgahead@, 1)), dict)->0;
            &&& all_wf(pics@)
            &&& font_is(f1, font_of(decoded_from(vgagraph@, chunk_offset(vgahead@, 1), dict))->0)
            &&& font_is(f2, font_of(decoded_from(vgagraph@, chunk_offset(vgahead@, 2), dict))->0)
            &&& pics@.len() == sizes.len() / 4
            &&& forall|p: int| 0 <= p < pics@.len() ==> pic_is(#[trigger] pics@[p], sizes, decoded_from(vgagraph@, chunk_offset(vgahead@, p + 3), dict), p)
        }),
{
    if vgadict.len() != 1024 {
        return Err(message("VGADICT must hold 1024 bytes"));
    }
    let len2 = vgahead.len();
    if len2 < 9 || len2 % 3 != 0 {
        return Err(message("VGAHEAD is not a list of offsets"));
    }
    let cnt_chunks = len2 / 3 - 1;
    let mut huffnodes: Vec<u16> = Vec::new();
    let mut i: usize = 0;
    while i < 512
        invariant
            vgadict@.len() == 1024,
            0 <= i <= 512,
            huffnodes@.len() == i,
            forall|k: int| 0 <= k < i ==> huffnodes@[k] == #[trigger] huff_dict_of(vgadict@)[k],
        decreases 512 - i,
    {
        let word = slice_subrange(vgadict, 2 * i, 1024);
        assert(word@[0] == vgadict@[2 * i] && word@[1] == vgadict@[2 * i + 1]);
        huffnodes.push(buf_to_u16(word));
        i += 1;
    }
    assert(huffnodes@ =~= huff_dict_of(vgadict@));
    let mut offsets: Vec<usize> = Vec::new();
    let mut k: usize = 0;
    while k <= cnt_chunks
        invariant
            len2 == vgahead@.len(),
            cnt_chunks == len2 / 3 - 1,
            len2 % 3 == 0,
            0 <= k <= cnt_chunks + 1,
            offsets@.len() == k,
            forall|j: int| 0 <= j < k ==> #[trigger] offsets@[j] == chunk_offset(vgahead@, j),
        decreases cnt_chunks + 1 - k,
    {
        let b1 = vgahead[3 * k] as usize;
        let b2 = vgahead[3 * k + 1] as usize;
        let b3 = vgahead[3 * k + 2] as usize;
        offsets.push(b1 + b2 * 256 + b3 * 65536);
        k += 1;
    }
    let g = vgagraph.len();
    let o0 = offsets[0];
    let o1 = offsets[1];
    let o2 = offsets[2];
    assert(offsets@[0] == chunk_offset(vgahead@, 0) && offsets@[1] == chunk_offset(vgahead@, 1) && offsets@[2] == chunk_offset(vgahead@, 2));
    if o0 > o1 || o1 > g || o2 > g {
        return Err(message("VGAGRAPH is shorter than VGAHEAD says"));
    }
    let sizes = match huff_decode_chunk(slice_subrange(vgagraph, o0, o1), huffnodes.as_slice()) {
        Some(d) => d,
        None => {
            return Err(message("Corrupt PIC size table"));
        },
    };
    let cnt_words = sizes.len() / 2;
    assert(offsets@[0] == chunk_offset(vgahead@, 0) && offsets@[1] == chunk_offset(vgahead@, 1) && offsets@[2] == chunk_offset(vgahead@, 2));
    let font1 = match huff_decode_chunk(slice_subrange(vgagraph, o1, g), huffnodes.as_slice()) {
        Some(d) => parse_font(d.as_slice()),
        None => None,
    };
    let font2 = match huff_decode_chunk(slice_subrange(vgagraph, o2, g), huffnodes.as_slice()) {
        Some(d) => parse_font(d.as_slice()),
        None => None,
    };
    let ghost dict = huff_dict_of(vgadict@);
    assert(font1 is Some <==> (huff_decode(vgagraph@.subrange(o1 as int, g as int), dict) is Some
        && font_of(decoded_from(vgagraph@, o1 as int, dict)) is Some));
    assert(font2 is Some <==> (huff_decode(vgagraph@.subrange(o2 as int, g as int), dict) is Some
        && font_of(decoded_from(vgagraph@, o2 as int, dict)) is Some));
    let (font1, font2) = match (font1, font2) {
        (Some(a), Some(b)) => (a, b),
        _ => {
            return Err(message("Corrupt font"));
        },
    };
    let cnt_pics = cnt_words / 2;
    let slen = sizes.len();
    let mut pics: Vec<GfxData> = Vec::new();
    let mut p: usize = 0;
    while p < cnt_pics
        invariant
            cnt_pics == cnt_words / 2,
            cnt_words == sizes@.len() / 2,
            slen == sizes@.len(),
            offsets@.len() == cnt_chunks + 1,
            huffnodes@ == huff_dict_of(vgadict@),
            g == vgagraph@.len(),
            0 <= p <= cnt_pics,
            all_wf(pics@),
            pics@.len() == p,
            sizes@ == huff_decode(vgagraph@.subrange(chunk_offset(vgahead@, 0), chunk_offset(vgahead@, 1)), huff_dict_of(vgadict@))->0,
            font_is(font1, font_of(decoded_from(vgagraph@, chunk_offset(vgahead@, 1), huff_dict_of(vgadict@)))->0),
            font_is(font2, font_of(decoded_from(vgagraph@, chunk_offset(vgahead@, 2), huff_dict_of(vgadict@)))->0),
            forall|j: int| 0 <= j < offsets@.len() ==> #[trigger] offsets@[j] == chunk_offset(vgahead@, j),
            forall|q: int| 0 <= q < p ==> pic_is(#[trigger] pics@[q], sizes@, decoded_from(vgagraph@, chunk_offset(vgahead@, q + 3), huff_dict_of(vgadict@)), q),
            forall|q: int| 0 <= q < p ==> #[trigger] pic_chunk_ok(vgahead@, vgagraph@, huff_dict_of(vgadict@), sizes@, q),
            len2 == vgahead@.len(),
            cnt_chunks == len2 / 3 - 1,
            vgadict@.len() == 1024,
            len2 >= 9 && len2 % 3 == 0,
            chunk_offset(vgahead@, 0) <= chunk_offset(vgahead@, 1) <= g && chunk_offset(vgahead@, 2) <= g,
            huff_decode(vgagraph@.subrange(chunk_offset(vgahead@, 0), chunk_offset(vgahead@, 1)), huff_dict_of(vgadict@)) is Some,
            huff_decode(vgagraph@.subrange(chunk_offset(vgahead@, 1), g as int), huff_dict_of(vgadict@)) is Some,
            font_of(decoded_from(vgagraph@, chunk_offset(vgahead@, 1), huff_dict_of(vgadict@))) is Some,
            huff_decode(vgagraph@.subrange(chunk_offset(vgahead@, 2), g as int), huff_dict_of(vgadict@)) is Some,
            font_of(decoded_from(vgagraph@, chunk_offset(vgahead@, 2), huff_dict_of(vgadict@))) is Some,
        decreases cnt_pics - p,
    {
        assert(4 * p + 4 <= slen) by (nonlinear_arith)
            requires p < cnt_pics, cnt_pics == cnt_words / 2, cnt_words == slen / 2;
        assert(p < sizes@.len() / 4);
        if p + 3 >= offsets.len() {
            assert(!pic_chunk_ok(vgahead@, vgagraph@, huff_dict_of(vgadict@), sizes@, p as int));
            return Err(message_with_number("No VGAGRAPH chunk for PIC ", p));
        }
        let o = offsets[p + 3];
        if o > g {
            assert(!pic_chunk_ok(vgahead@, vgagraph@, huff_dict_of(vgadict@), sizes@, p as int));
            return Err(message_with_number("VGAGRAPH chunk outside the file: ", p));
        }
        let ws = slice_subrange(sizes.as_slice(), 4 * p, sizes.len());
        assert(ws@[0] == sizes@[4 * p as int] && ws@[1] == sizes@[4 * p + 1]);
        let width = buf_to_u16(ws);
        let hs = slice_subrange(sizes.as_slice(), 4 * p + 2, sizes.len());
        assert(hs@[0] == sizes@[4 * p + 2] && hs@[1] == sizes@[4 * p + 3]);
        let height = buf_to_u16(hs);
        let mut pixels = match huff_decode_chunk(slice_subrange(vgagraph, o, g), huffnodes.as_slice()) {
            Some(d) => d,
            None => {
                assert(!pic_chunk_ok(vgahead@, vgagraph@, huff_dict_of(vgadict@), sizes@, p as int));
                return Err(message_with_number("Corrupt PIC ", p));
            },
        };
        proof {
            lemma_mul_bound(width as int, height as int, 65535, 65535);
        }
        if width % 4 != 0 || pixels.len() != (width as usize) * (height as usize) {
            assert(!pic_chunk_ok(vgahead@, vgagraph@, huff_dict_of(vgadict@), sizes@, p as int));
            return Err(message_with_number("PIC of wrong size: ", p));
        }
        let ghost raw = pixels@;
        assert(raw == decoded_from(vgagraph@, chunk_offset(vgahead@, p + 3), huff_dict_of(vgadict@)));
        munge_pic(width, height, &mut pixels);
        let ghost before = pics@;
        let pic = GfxData::new_pic(width, height, pixels);
        assert(pic_is(pic, sizes@, raw, p as int));
        assert(pic_chunk_ok(vgahead@, vgagraph@, huff_dict_of(vgadict@), sizes@, p as int));
        pics.push(pic);
        proof {
            assert(all_wf(pics@));
            assert forall|q: int| 0 <= q < p + 1 implies pic_is(#[trigger] pics@[q], sizes@, decoded_from(vgagraph@, chunk_offset(vgahead@, q + 3), huff_dict_of(vgadict@)), q) by {
                if q < p {
                    assert(pics@[q] == before[q]);
                }
            }
        }
        p += 1;
    }
    Ok((font1, font2, pics))
}

impl GameAssets {
    /// Reads all the assets of the game with extension `ext` from the
    /// contents of its files.
    pub fn load(
        ext: &str,
        maphead: &[u8],
        gamemaps: &[u8],
        vgadict: &[u8],
        vgahead: &[u8],
        vgagraph: &[u8],
        vswap: &[u8],
    ) -> (r: Result<Self, String>)
        ensures
            r is Ok <==> (maps_ok(maphead@, gamemaps@) && vswap_ok(vswap@) && pics_ok(vgadict@, vgahead@, vgagraph@)),
            r matches Ok(a) ==> ({
                let tag = le_u16(maphead@[0], maphead@[1]) as u16;
                let entries = map_entries(maphead@, 2);
                let dict = huff_dict_of(vgadict@);
                &&& a.game_type@ == ext@
                &&& a.is_sod == (ext@.len() > 0 && ext@[0] == 'S')
                &&& a.maps@.len() == entries.len()
                &&& forall|i: int| 0 <= i < a.maps@.len() ==> (#[trigger] a.maps@[i]).wf()
                    && one_map(gamemaps@, entries[i], tag) is Some && map_matches(a.maps@[i], one_map(gamemaps@, entries[i], tag)->0)
                &&& a.walls@.len() == le_u16(vswap@[2], vswap@[3])
                &&& forall|i: int| 0 <= i < a.walls@.len() ==> vswap_pic(vswap@, i, #[trigger] a.walls@[i])
                &&& forall|j: int| 0 <= j < a.sprites@.len() ==> vswap_pic(vswap@, a.walls@.len() + j, #[trigger] a.sprites@[j])
                &&& font_is(a.font1, font_of(decoded_from(vgagraph@, chunk_offset(vgahead@, 1), dict))->0)
                &&& font_is(a.font2, font_of(decoded_from(vgagraph@, chunk_offset(vgahead@, 2), dict))->0)
                &&& a.pics.pics@.len() == crate::picdict::TOTAL_PICS
            }),
    {
        let maps = match load_maps(maphead, gamemaps) {
            Ok(m) => m,
            Err(e) => {
                return Err(e);
            },
        };
        let (walls, sprites) = match load_vswap(vswap) {
            Ok(v) => v,
            Err(e) => {
                return Err(e);
            },
        };
        let (font1, font2, pics) = match load_pics(vgadict, vgahead, vgagraph) {
            Ok(v) => v,
            Err(e) => {
                return Err(e);
            },
        };
        let pics = PicDict::new(ext, pics);
        let is_sod = ext.unicode_len() > 0 && ext.get_char(0) == 'S';
        let game_type = message(ext);
        Ok(GameAssets { maps, walls, sprites, font1, font2, pics, game_type, is_sod })
    }

    /// Index of the first of the five animation sprites of a weapon; they
    /// close the sprite list, knife first.
    pub fn weapon_sprite_index(&self, weapon: u8) -> (r: usize)
        requires
            weapon < 4,
            self.sprites@.len() >= (4 - weapon) * 5,
        ensures
            r == self.sprites@.len() - (4 - weapon) * 5,
    {
        let delta = (4 - (weapon as usize)) * 5;
        self.sprites.len() - delta
    }
}

} // verus!
