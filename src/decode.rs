//! Decoders for the compressed data of the game files: Carmack and RLEW
//! compression of map planes, Huffman compression of pictures, the column
//! format of sprites, the plane-split layout of PICs.
use vstd::prelude::*;
use crate::utils::{buf_to_u16, buf_to_u32, le_u16, le_u32};
use crate::lemma_mul_bound;
use crate::assets::FontData;

verus! {

/// `out` extended by `n` words copied from position `from` on, where the
/// copy may run into the words it has just written.
pub open spec fn lz_copy(out: Seq<u16>, from: int, n: int) -> Seq<u16>
    decreases n,
{
    if n <= 0 {
        out
    } else {
        lz_copy(out.push(out[from]), from + 1, n - 1)
    }
}

/// One Carmack token read at `idx`: an escaped word, a near or a far
/// back-reference, or a plain word. `None` where the data is cut short or
/// a reference points outside what was decoded.
pub open spec fn carmack_step(chunk: Seq<u8>, idx: int, out: Seq<u16>) -> Option<(int, Seq<u16>)> {
    if idx + 1 >= chunk.len() {
        None
    } else {
        let b1 = chunk[idx];
        let b2 = chunk[idx + 1];
        if (b2 == 0xA7 || b2 == 0xA8) && b1 == 0 {
            if idx + 2 >= chunk.len() {
                None
            } else {
                Some((idx + 3, out.push(le_u16(chunk[idx + 2], b2) as u16)))
            }
        } else if b2 == 0xA7 {
            if chunk.len() - idx < 3 || chunk[idx + 2] == 0 || chunk[idx + 2] > out.len() {
                None
            } else {
                Some((idx + 3, lz_copy(out, out.len() - chunk[idx + 2], b1 as int)))
            }
        } else if b2 == 0xA8 {
            if idx + 3 >= chunk.len() || le_u16(chunk[idx + 2], chunk[idx + 3]) >= out.len() {
                None
            } else {
                Some((idx + 4, lz_copy(out, le_u16(chunk[idx + 2], chunk[idx + 3]), b1 as int)))
            }
        } else {
            Some((idx + 2, out.push(le_u16(b1, b2) as u16)))
        }
    }
}

/// Carmack expansion from `idx` until `count` words are out.
pub open spec fn carmack_run(chunk: Seq<u8>, idx: int, out: Seq<u16>, count: int) -> Option<Seq<u16>>
    decreases chunk.len() - idx,
{
    if out.len() >= count {
        Some(out)
    } else if idx < 0 {
        None
    } else {
        match carmack_step(chunk, idx, out) {
            Some((next, o)) => if next > idx && next <= chunk.len() {
                carmack_run(chunk, next, o, count)
            } else {
                None
            },
            None => None,
        }
    }
}

/// Carmack expansion of a chunk whose first word is the expanded size in bytes.
pub open spec fn carmack(chunk: Seq<u8>) -> Option<Seq<u16>> {
    if chunk.len() < 2 {
        None
    } else {
        carmack_run(chunk, 2, Seq::empty(), le_u16(chunk[0], chunk[1]) / 2)
    }
}

/// RLEW expansion from word `idx` until `count` words are out: `tag`
/// introduces a run (a count, then the word to repeat).
pub open spec fn rlew_run(words: Seq<u16>, tag: u16, idx: int, out: Seq<u16>, count: int) -> Option<Seq<u16>>
    decreases words.len() - idx,
{
    if out.len() >= count {
        Some(out)
    } else if idx < 0 || idx >= words.len() {
        None
    } else if words[idx] == tag {
        if idx + 2 >= words.len() {
            None
        } else {
            rlew_run(words, tag, idx + 3, out + Seq::new(words[idx + 1] as nat, |i: int| words[idx + 2]), count)
        }
    } else {
        rlew_run(words, tag, idx + 1, out.push(words[idx]), count)
    }
}

/// RLEW expansion of words whose first word is the expanded size in bytes.
pub open spec fn rlew(words: Seq<u16>, tag: u16) -> Option<Seq<u16>> {
    if words.len() == 0 {
        None
    } else {
        rlew_run(words, tag, 1, Seq::empty(), (words[0] / 2) as int)
    }
}

/// A map plane: Carmack expansion, then RLEW expansion.
pub open spec fn map_plane(chunk: Seq<u8>, tag: u16) -> Option<Seq<u16>> {
    match carmack(chunk) {
        Some(words) => rlew(words, tag),
        None => None,
    }
}

/// Appends `n` words copied from `from` on, the copy running into what it writes.
fn lz_copy_exec(out: &mut Vec<u16>, from: usize, n: usize)
    requires
        from < old(out)@.len(),
        old(out)@.len() + n <= 0x1_0000_0000,
    ensures
        final(out)@ == lz_copy(old(out)@, from as int, n as int),
        final(out)@.len() == old(out)@.len() + n,
{
    let mut i: usize = 0;
    let ghost o0 = out@;
    while i < n
        invariant
            0 <= i <= n,
            from < o0.len(),
            out@.len() == o0.len() + i,
            o0.len() + n <= 0x1_0000_0000,
            lz_copy(out@, from + i, n - i) == lz_copy(o0, from as int, n as int),
        decreases n - i,
    {
        let w = out[from + i];
        out.push(w);
        i += 1;
    }
}

/// Carmack expansion; `None` for data that is cut short or inconsistent.
pub fn carmack_expand(chunk: &[u8]) -> (r: Option<Vec<u16>>)
    ensures
        r matches Some(v) ==> carmack(chunk@) == Some(v@),
        r is None ==> carmack(chunk@) is None,
{
    if chunk.len() < 2 {
        return None;
    }
    let count = (buf_to_u16(chunk) / 2) as usize;
    let mut out: Vec<u16> = Vec::new();
    let mut idx: usize = 2;
    while out.len() < count
        invariant
            2 <= idx <= chunk@.len(),
            count == le_u16(chunk@[0], chunk@[1]) / 2,
            count < 0x8000,
            out@.len() < count + 256,
            carmack_run(chunk@, idx as int, out@, count as int) == carmack(chunk@),
        decreases chunk@.len() - idx,
    {
        if chunk.len() - idx < 2 {
            return None;
        }
        let b1 = chunk[idx];
        let b2 = chunk[idx + 1];
        if (b2 == 0xA7 || b2 == 0xA8) && b1 == 0 {
            if chunk.len() - idx < 3 {
                return None;
            }
            out.push((chunk[idx + 2] as u16) + (b2 as u16) * 256);
            idx += 3;
        } else if b2 == 0xA7 {
            if chunk.len() - idx < 3 || chunk[idx + 2] == 0 || chunk[idx + 2] as usize > out.len() {
                return None;
            }
            let from = out.len() - chunk[idx + 2] as usize;
            lz_copy_exec(&mut out, from, b1 as usize);
            idx += 3;
        } else if b2 == 0xA8 {
            if chunk.len() - idx < 4 {
                return None;
            }
            let from = (chunk[idx + 2] as usize) + (chunk[idx + 3] as usize) * 256;
            if from >= out.len() {
                return None;
            }
            lz_copy_exec(&mut out, from, b1 as usize);
            idx += 4;
        } else {
            out.push((b1 as u16) + (b2 as u16) * 256);
            idx += 2;
        }
    }
    Some(out)
}

/// RLEW expansion; `None` for data that is cut short.
pub fn rlew_expand(words: &Vec<u16>, tag: u16) -> (r: Option<Vec<u16>>)
    ensures
        r matches Some(v) ==> rlew(words@, tag) == Some(v@),
        r is None ==> rlew(words@, tag) is None,
{
    if words.len() == 0 {
        return None;
    }
    let count = (words[0] / 2) as usize;
    let mut out: Vec<u16> = Vec::new();
    let mut idx: usize = 1;
    while out.len() < count
        invariant
            1 <= idx,
            words@.len() > 0,
            count == words@[0] / 2,
            count < 0x8000,
            out@.len() < count + 0x1_0000,
            rlew_run(words@, tag, idx as int, out@, count as int) == rlew(words@, tag),
        decreases words@.len() - idx,
    {
        if idx >= words.len() {
            return None;
        }
        let next = words[idx];
        if next == tag {
            if words.len() - idx < 3 {
                return None;
            }
            let cnt = words[idx + 1];
            let val = words[idx + 2];
            let mut k: u16 = 0;
            let ghost o0 = out@;
            while k < cnt
                invariant
                    0 <= k <= cnt,
                    out@ == o0 + Seq::new(k as nat, |i: int| val),
                decreases cnt - k,
            {
                out.push(val);
                k += 1;
                proof {
                    assert(out@ =~= o0 + Seq::new(k as nat, |i: int| val));
                }
            }
            idx += 3;
        } else {
            out.push(next);
            idx += 1;
        }
    }
    Some(out)
}

/// Decodes a map plane (Carmack, then RLEW with tag `rlew_tag`).
pub fn decompress_map_plane(chunk: &[u8], rlew_tag: u16) -> (r: Option<Vec<u16>>)
    ensures
        r matches Some(v) ==> map_plane(chunk@, rlew_tag) == Some(v@),
        r is None ==> map_plane(chunk@, rlew_tag) is None,
{
    match carmack_expand(chunk) {
        Some(words) => rlew_expand(&words, rlew_tag),
        None => None,
    }
}

/// The mask of bit `k` of a byte.
pub open spec fn bit_mask(k: int) -> u8 {
    if k == 0 {
        1
    } else if k == 1 {
        2
    } else if k == 2 {
        4
    } else if k == 3 {
        8
    } else if k == 4 {
        16
    } else if k == 5 {
        32
    } else if k == 6 {
        64
    } else {
        128
    }
}

fn bit_mask_exec(k: usize) -> (r: u8)
    requires
        k < 8,
    ensures
        r == bit_mask(k as int),
{
    match k {
        0 => 1,
        1 => 2,
        2 => 4,
        3 => 8,
        4 => 16,
        5 => 32,
        6 => 64,
        _ => 128,
    }
}

/// The root node of the Huffman tree.
pub const HUFF_ROOT: usize = 254;

/// Huffman decoding, bit `k` (low bit first) of byte `src` on, from tree
/// node `node`: each node is a pair of words in `dict` (for bit 0, bit 1);
/// a word below 256 is a decoded byte (and decoding goes back to the
/// root), another one names the next node in its low byte.
pub open spec fn huff_run(bytes: Seq<u8>, dict: Seq<u16>, size: int, src: int, k: int, node: int, out: Seq<u8>) -> Seq<u8>
    decreases (bytes.len() - src) * 8 - k,
{
    if out.len() >= size || src < 0 || src >= bytes.len() || k < 0 || k >= 8 || node < 0 || 2 * node + 1 >= dict.len() {
        out
    } else {
        let target = if bytes[src] & bit_mask(k) == 0 {
            dict[2 * node]
        } else {
            dict[2 * node + 1]
        };
        let (src2, k2) = if k == 7 {
            (src + 1, 0)
        } else {
            (src, k + 1)
        };
        if target < 256 {
            huff_run(bytes, dict, size, src2, k2, HUFF_ROOT as int, out.push(target as u8))
        } else {
            huff_run(bytes, dict, size, src2, k2, (target % 256) as int, out)
        }
    }
}

/// A Huffman-compressed chunk: its expanded size (four bytes), then the
/// bits. `None` when the bits run out before that many bytes are decoded.
pub open spec fn huff_decode(bytes: Seq<u8>, dict: Seq<u16>) -> Option<Seq<u8>> {
    if bytes.len() < 5 || dict.len() < 512 {
        None
    } else {
        let size = le_u32(bytes[0], bytes[1], bytes[2], bytes[3]);
        let out = huff_run(bytes, dict, size, 4, 0, HUFF_ROOT as int, Seq::empty());
        if out.len() == size {
            Some(out)
        } else {
            None
        }
    }
}

/// Decodes a Huffman-compressed chunk with the tree `huff_dict`.
pub fn huff_decode_chunk(bytes: &[u8], huff_dict: &[u16]) -> (r: Option<Vec<u8>>)
    ensures
        r matches Some(v) ==> huff_decode(bytes@, huff_dict@) == Some(v@),
        r is None ==> huff_decode(bytes@, huff_dict@) is None,
{
    if bytes.len() < 5 || huff_dict.len() < 512 {
        return None;
    }
    let size = buf_to_u32(bytes) as usize;
    let mut decoded: Vec<u8> = Vec::new();
    let mut src: usize = 4;
    let mut k: usize = 0;
    let mut node: usize = HUFF_ROOT;
    while decoded.len() < size && src < bytes.len()
        invariant
            huff_dict@.len() >= 512,
            size == le_u32(bytes@[0], bytes@[1], bytes@[2], bytes@[3]),
            4 <= src <= bytes@.len(),
            k < 8,
            node < 256,
            decoded@.len() <= size,
            huff_run(bytes@, huff_dict@, size as int, src as int, k as int, node as int, decoded@)
                == huff_run(bytes@, huff_dict@, size as int, 4, 0, HUFF_ROOT as int, Seq::empty()),
        decreases (bytes@.len() - src) * 8 - k,
    {
        let target = if bytes[src] & bit_mask_exec(k) == 0 {
            huff_dict[2 * node]
        } else {
            huff_dict[2 * node + 1]
        };
        if k == 7 {
            k = 0;
            src += 1;
        } else {
            k += 1;
        }
        if target < 256 {
            decoded.push(target as u8);
            node = HUFF_ROOT;
        } else {
            let low = target & 0xFF;
            assert(low == target % 256 && low < 256) by (bit_vector)
                requires low == target & 0xFF;
            node = low as usize;
        }
    }
    if decoded.len() == size {
        Some(decoded)
    } else {
        None
    }
}

/// Byte at column `x`, row `y` of a picture stored column by column.
pub open spec fn at_col(s: Seq<u8>, h: int, x: int, y: int) -> u8 {
    s[x * h + y]
}

/// Where texel `(x, y)` of a `w` x `h` PIC lies in the file: the PIC is
/// stored as four planes (columns `x % 4`), each row by row.
pub open spec fn plane_index(w: int, h: int, x: int, y: int) -> int {
    (x % 4) * h * (w / 4) + y * (w / 4) + x / 4
}

/// Turns a PIC from its four planes into column-by-column order.
pub fn munge_pic(width: u16, height: u16, pixels: &mut Vec<u8>)
    requires
        width % 4 == 0,
        old(pixels)@.len() == width * height,
    ensures
        final(pixels)@.len() == width * height,
        forall|x: int, y: int|
            0 <= x < width && 0 <= y < height ==> #[trigger] at_col(final(pixels)@, height as int, x, y)
                == old(pixels)@[plane_index(width as int, height as int, x, y)],
{
    let w = width as usize;
    let h = height as usize;
    let pw = w / 4;
    let total = pixels.len();
    let mut out: Vec<u8> = Vec::new();
    let mut x: usize = 0;
    proof {
        lemma_mul_bound(w as int, h as int, 65535, 65535);
    }
    while x < w
        invariant
            w == width,
            h == height,
            pw == w / 4,
            w % 4 == 0,
            pixels@.len() == w * h,
            total == w * h,
            0 <= x <= w,
            out@.len() == x * h,
            forall|a: int, b: int|
                0 <= a < x && 0 <= b < h ==> #[trigger] at_col(out@, h as int, a, b) == pixels@[plane_index(w as int, h as int, a, b)],
        decreases w - x,
    {
        let mut y: usize = 0;
        while y < h
            invariant
                w == width,
                h == height,
                pw == w / 4,
                w % 4 == 0,
                pixels@.len() == w * h,
                total == w * h,
                0 <= x < w,
                0 <= y <= h,
                out@.len() == x * h + y,
                forall|a: int, b: int|
                    0 <= a < x && 0 <= b < h ==> #[trigger] at_col(out@, h as int, a, b) == pixels@[plane_index(w as int, h as int, a, b)],
                forall|b: int| 0 <= b < y ==> #[trigger] at_col(out@, h as int, x as int, b) == pixels@[plane_index(w as int, h as int, x as int, b)],
            decreases h - y,
        {
            let a = x % 4;
            let q = x / 4;
            proof {
                assert(plane_index(w as int, h as int, x as int, y as int) < w * h) by (nonlinear_arith)
                    requires 0 <= x < w, 0 <= y < h, w % 4 == 0, w > 0;
                assert(0 <= plane_index(w as int, h as int, x as int, y as int)) by (nonlinear_arith)
                    requires 0 <= x < w, 0 <= y < h;
                assert(a < 4);
                lemma_mul_bound(a as int, h as int, 3, 65535);
                lemma_mul_bound((a * h) as int, pw as int, 196605, 65535);
                lemma_mul_bound(y as int, pw as int, 65535, 65535);
                assert(a * h * pw + y * pw + q < w * h) by (nonlinear_arith)
                    requires a < 4, y < h, q < pw, pw * 4 == w, 0 <= a, 0 <= y, 0 <= q;
                assert(a * h * pw <= a * h * pw + y * pw) by (nonlinear_arith)
                    requires 0 <= y, 0 <= pw;
                assert(a * h <= a * h * pw || pw == 0) by (nonlinear_arith)
                    requires 0 <= a, 0 <= h, 0 <= pw;
            }
            let src = a * h * pw + y * pw + q;
            let ghost before = out@;
            out.push(pixels[src]);
            proof {
                assert forall|a: int, b: int|
                    0 <= a < x && 0 <= b < h implies #[trigger] at_col(out@, h as int, a, b) == pixels@[plane_index(w as int, h as int, a, b)] by {
                    assert(a * h + b < x * h) by (nonlinear_arith)
                        requires 0 <= a < x, 0 <= b < h;
                    assert(0 <= a * h + b) by (nonlinear_arith)
                        requires 0 <= a, 0 <= b, h >= 0;
                    assert(at_col(out@, h as int, a, b) == at_col(before, h as int, a, b));
                }
                assert forall|b: int| 0 <= b < y + 1 implies #[trigger] at_col(out@, h as int, x as int, b) == pixels@[plane_index(w as int, h as int, x as int, b)] by {
                    if b < y {
                        assert(at_col(out@, h as int, x as int, b) == at_col(before, h as int, x as int, b));
                    }
                }
            }
            y += 1;
        }
        proof {
            assert((x + 1) * h == x * h + h) by (nonlinear_arith);
        }
        x += 1;
    }
    *pixels = out;
}

pub open spec fn word_at(b: Seq<u8>, i: int) -> int {
    le_u16(b[i], b[i + 1])
}

/// Copies texels from `tex` on into rows `y..end` of column `x`; texel
/// 0xFF is the transparent color and cannot be stored.
pub open spec fn draw_run(b: Seq<u8>, px: Seq<u8>, x: int, y: int, end: int, tex: int) -> Option<(Seq<u8>, int)>
    decreases end - y,
{
    if y >= end {
        Some((px, tex))
    } else if tex < 0 || tex >= b.len() || b[tex] == 0xFF || y < 0 || x * 64 + y >= 4096 {
        None
    } else {
        draw_run(b, px.update(x * 64 + y, b[tex]), x, y + 1, end, tex + 1)
    }
}

/// Runs the commands of column `x` from offset `ofs`: each command is three
/// words (end row * 2, unused, start row * 2); an end of 0 closes the column.
pub open spec fn draw_column(b: Seq<u8>, px: Seq<u8>, x: int, ofs: int, tex: int) -> Option<(Seq<u8>, int)>
    decreases b.len() - ofs,
{
    if ofs < 0 || ofs + 1 >= b.len() {
        None
    } else if word_at(b, ofs) / 2 == 0 {
        Some((px, tex))
    } else if ofs + 5 >= b.len() {
        None
    } else {
        match draw_run(b, px, x, word_at(b, ofs + 4) / 2, word_at(b, ofs) / 2, tex) {
            Some((px2, tex2)) => draw_column(b, px2, x, ofs + 6, tex2),
            None => None,
        }
    }
}

/// Draws columns `x..=right`; the offset of column `x`'s commands is the
/// word at `4 + 2 * (x - left)`.
pub open spec fn draw_columns(b: Seq<u8>, px: Seq<u8>, left: int, x: int, right: int, tex: int) -> Option<Seq<u8>>
    decreases right + 1 - x,
{
    if x > right {
        Some(px)
    } else if x < left || 4 + 2 * (x - left) + 1 >= b.len() {
        None
    } else {
        match draw_column(b, px, x, word_at(b, 4 + 2 * (x - left)), tex) {
            Some((px2, tex2)) => draw_columns(b, px2, left, x + 1, right, tex2),
            None => None,
        }
    }
}

/// A sprite: 64 x 64 texels, column by column, transparent (0xFF) where
/// no command draws.
pub open spec fn sprite_texels(b: Seq<u8>) -> Option<Seq<u8>> {
    if b.len() < 4 {
        None
    } else {
        let left = word_at(b, 0);
        let right = word_at(b, 2);
        if right < left || right >= 64 {
            None
        } else {
            draw_columns(b, Seq::new(4096, |i: int| 0xFFu8), left, left, right, 4 + 2 * (right - left + 1))
        }
    }
}

fn draw_run_exec(b: &[u8], pixels: &mut Vec<u8>, x: usize, y0: usize, end: usize, tex0: usize) -> (r: Option<usize>)
    requires
        old(pixels)@.len() == 4096,
        x < 64,
        end < 0x8000,
    ensures
        final(pixels)@.len() == 4096,
        r matches Some(t) ==> draw_run(b@, old(pixels)@, x as int, y0 as int, end as int, tex0 as int) == Some((final(pixels)@, t as int)),
        r is None ==> draw_run(b@, old(pixels)@, x as int, y0 as int, end as int, tex0 as int) is None,
{
    let mut y = y0;
    let mut tex = tex0;
    while y < end
        invariant
            pixels@.len() == 4096,
            x < 64,
            end < 0x8000,
            draw_run(b@, pixels@, x as int, y as int, end as int, tex as int)
                == draw_run(b@, old(pixels)@, x as int, y0 as int, end as int, tex0 as int),
        decreases end - y,
    {
        if tex >= b.len() || b[tex] == 0xFF || x * 64 + y >= 4096 {
            return None;
        }
        pixels.set(x * 64 + y, b[tex]);
        tex += 1;
        y += 1;
    }
    Some(tex)
}

fn draw_column_exec(b: &[u8], pixels: &mut Vec<u8>, x: usize, ofs0: usize, tex0: usize) -> (r: Option<usize>)
    requires
        old(pixels)@.len() == 4096,
        x < 64,
    ensures
        final(pixels)@.len() == 4096,
        r matches Some(t) ==> draw_column(b@, old(pixels)@, x as int, ofs0 as int, tex0 as int) == Some((final(pixels)@, t as int)),
        r is None ==> draw_column(b@, old(pixels)@, x as int, ofs0 as int, tex0 as int) is None,
{
    let n = b.len();
    let mut ofs = ofs0;
    let mut tex = tex0;
    loop
        invariant
            n == b@.len(),
            pixels@.len() == 4096,
            x < 64,
            draw_column(b@, pixels@, x as int, ofs as int, tex as int)
                == draw_column(b@, old(pixels)@, x as int, ofs0 as int, tex0 as int),
        decreases n + 6 - ofs,
    {
        if ofs >= n || n - ofs < 2 {
            return None;
        }
        let end_y = ((b[ofs] as usize) + (b[ofs + 1] as usize) * 256) / 2;
        if end_y == 0 {
            return Some(tex);
        }
        if n - ofs < 6 {
            return None;
        }
        let start_y = ((b[ofs + 4] as usize) + (b[ofs + 5] as usize) * 256) / 2;
        match draw_run_exec(b, pixels, x, start_y, end_y, tex) {
            Some(t) => {
                tex = t;
            },
            None => {
                return None;
            },
        }
        ofs += 6;
    }
}

/// Decodes a sprite.
pub fn parse_sprite(b: &[u8]) -> (r: Option<Vec<u8>>)
    ensures
        r matches Some(v) ==> sprite_texels(b@) == Some(v@) && v@.len() == 4096,
        r is None ==> sprite_texels(b@) is None,
{
    let n = b.len();
    if n < 4 {
        return None;
    }
    let left = (b[0] as usize) + (b[1] as usize) * 256;
    let right = (b[2] as usize) + (b[3] as usize) * 256;
    if right < left || right >= 64 {
        return None;
    }
    let mut pixels: Vec<u8> = Vec::new();
    let mut i: usize = 0;
    while i < 4096
        invariant
            0 <= i <= 4096,
            pixels@ == Seq::new(i as nat, |k: int| 0xFFu8),
        decreases 4096 - i,
    {
        pixels.push(0xFF);
        i += 1;
        proof {
            assert(pixels@ =~= Seq::new(i as nat, |k: int| 0xFFu8));
        }
    }
    let mut tex: usize = 4 + 2 * (right - left + 1);
    let mut x: usize = left;
    while x <= right
        invariant
            n == b@.len(),
            left <= x <= right + 1,
            right < 64,
            left == word_at(b@, 0),
            right == word_at(b@, 2),
            pixels@.len() == 4096,
            sprite_texels(b@) == draw_columns(b@, pixels@, left as int, x as int, right as int, tex as int),
        decreases right + 1 - x,
    {
        let t = 4 + 2 * (x - left);
        let ghost px0 = pixels@;
        let ghost d = draw_columns(b@, px0, left as int, x as int, right as int, tex as int);
        if t + 1 >= n {
            assert(d is None);
            return None;
        }
        let ofs = (b[t] as usize) + (b[t + 1] as usize) * 256;
        assert(ofs == word_at(b@, t as int));
        match draw_column_exec(b, &mut pixels, x, ofs, tex) {
            Some(t2) => {
                tex = t2;
            },
            None => {
                assert(d is None);
                return None;
            },
        }
        x += 1;
    }
    Some(pixels)
}

/// Column `x` of a glyph stored row by row at `loc`, `cw` wide and `h` high.
pub open spec fn glyph_column(b: Seq<u8>, loc: int, h: int, cw: int, x: int) -> Seq<u8> {
    Seq::new(h as nat, |y: int| b[loc + y * cw + x])
}

/// The first `x` columns of a glyph, one after the other.
pub open spec fn glyph_columns(b: Seq<u8>, loc: int, h: int, cw: int, x: int) -> Seq<u8>
    decreases x,
{
    if x <= 0 {
        Seq::empty()
    } else {
        glyph_columns(b, loc, h, cw, x - 1) + glyph_column(b, loc, h, cw, x - 1)
    }
}

/// The glyphs of characters `j..128`, until one with no location or no
/// width: each adds its pixel offset and width to `offs`, and its pixels,
/// column by column, to `pix`.
pub open spec fn font_glyphs(b: Seq<u8>, h: int, j: int, offs: Seq<u16>, pix: Seq<u8>) -> Option<(Seq<u16>, Seq<u8>)>
    decreases 128 - j,
{
    if j >= 128 || j < 0 {
        Some((offs, pix))
    } else {
        let loc = word_at(b, 2 + 2 * j);
        let cw = b[j + 514] as int;
        if loc == 0 || cw == 0 {
            Some((offs, pix))
        } else if loc + h * cw > b.len() || pix.len() > 65535 {
            None
        } else {
            font_glyphs(b, h, j + 1, offs.push(pix.len() as u16).push(cw as u16), pix + glyph_columns(b, loc, h, cw, cw))
        }
    }
}

/// A font chunk: its height (a word), the locations of the 256 glyphs
/// (words), then their widths (bytes).
pub open spec fn font_of(b: Seq<u8>) -> Option<(u16, u16, Seq<u16>, Seq<u8>)> {
    if b.len() < 642 {
        None
    } else {
        match font_glyphs(b, word_at(b, 0), 33, Seq::empty(), Seq::empty()) {
            Some((offs, pix)) => Some((word_at(b, 0) as u16, b[546] as u16, offs, pix)),
            None => None,
        }
    }
}

/// Reads a font from its decoded chunk.
pub fn parse_font(b: &[u8]) -> (r: Option<FontData>)
    ensures
        r matches Some(f) ==> font_of(b@) == Some((f.font_height, f.space_width, f.offs_widths@, f.pixels@)),
        r is None ==> font_of(b@) is None,
{
    let n = b.len();
    if n < 642 {
        return None;
    }
    let h = (b[0] as usize) + (b[1] as usize) * 256;
    let space_width = b[546] as u16;
    let mut offs_widths: Vec<u16> = Vec::new();
    let mut pixels: Vec<u8> = Vec::new();
    let mut j: usize = 33;
    while j < 128
        invariant
            n == b@.len(),
            n >= 642,
            h == word_at(b@, 0),
            space_width == b@[546] as u16,
            33 <= j <= 128,
            pixels@.len() <= 65535 + 65535 * 255,
            font_glyphs(b@, h as int, j as int, offs_widths@, pixels@) == font_glyphs(b@, h as int, 33, Seq::empty(), Seq::empty()),
        decreases 128 - j,
    {
        let loc = (b[2 + 2 * j] as usize) + (b[3 + 2 * j] as usize) * 256;
        let cw = b[j + 514] as usize;
        if loc == 0 || cw == 0 {
            assert(loc == word_at(b@, 2 + 2 * j));
            return Some(FontData::new(h as u16, space_width, offs_widths, pixels));
        }
        proof {
            lemma_mul_bound(h as int, cw as int, 65535, 255);
        }
        if loc + h * cw > n || pixels.len() > 65535 {
            return None;
        }
        offs_widths.push(pixels.len() as u16);
        offs_widths.push(cw as u16);
        let ghost base = pixels@;
        let mut x: usize = 0;
        while x < cw
            invariant
                n == b@.len(),
                loc + h * cw <= n,
                0 <= x <= cw,
                h <= 65535,
                cw <= 255,
                base.len() <= 65535,
                pixels@ == base + glyph_columns(b@, loc as int, h as int, cw as int, x as int),
                pixels@.len() == base.len() + x * h,
            decreases cw - x,
        {
            proof {
                lemma_mul_bound(x as int, h as int, 255, 65535);
            }
            let ghost before = pixels@;
            let mut y: usize = 0;
            while y < h
                invariant
                    n == b@.len(),
                    loc + h * cw <= n,
                    0 <= x < cw,
                    0 <= y <= h,
                    h <= 65535,
                    cw <= 255,
                    before.len() <= 65535 + 65535 * 255,
                    pixels@ == before + Seq::new(y as nat, |yy: int| b@[loc + yy * cw + x]),
                decreases h - y,
            {
                proof {
                    assert(loc + y * cw + x < loc + h * cw) by (nonlinear_arith)
                        requires y < h, x < cw;
                    lemma_mul_bound(y as int, cw as int, 65535, 255);
                }
                pixels.push(b[loc + y * cw + x]);
                y += 1;
                proof {
                    assert(pixels@ =~= before + Seq::new(y as nat, |yy: int| b@[loc + yy * cw + x]));
                }
            }
            proof {
                assert(Seq::new(y as nat, |yy: int| b@[loc + yy * cw + x]) =~= glyph_column(b@, loc as int, h as int, cw as int, x as int));
                assert(pixels@ =~= base + glyph_columns(b@, loc as int, h as int, cw as int, x + 1));
                assert((x + 1) * h == x * h + h) by (nonlinear_arith);
                lemma_mul_bound(x as int, h as int, 255, 65535);
            }
            x += 1;
        }
        proof {
            lemma_mul_bound(cw as int, h as int, 255, 65535);
        }
        j += 1;
    }
    Some(FontData::new(h as u16, space_width, offs_widths, pixels))
}

} // verus!
