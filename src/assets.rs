//! Data structures for the assets: graphics, fonts and maps.
use vstd::prelude::*;
use vstd::string::StringSliceAdditionalSpecFns;
use crate::lemma_mul_bound;

verus! {

/// A picture (wall, sprite or PIC), stored column by column.
pub struct GfxData {
    pub width: u16,
    pub height: u16,
    pub texels: Vec<u8>,
}

impl GfxData {
    pub open spec fn wf(&self) -> bool {
        self.texels@.len() == self.width * self.height
    }

    /// A 64 x 64 sprite or wall.
    pub fn new_sprite(pixels: Vec<u8>) -> (r: Self)
        requires
            pixels@.len() == 64 * 64,
        ensures
            r.wf(),
            r.width == 64,
            r.height == 64,
            r.texels@ == pixels@,
    {
        Self::new_pic(64, 64, pixels)
    }

    pub fn new_pic(width: u16, height: u16, texels: Vec<u8>) -> (r: Self)
        requires
            texels@.len() == width * height,
        ensures
            r.wf(),
            r.width == width,
            r.height == height,
            r.texels@ == texels@,
    {
        GfxData { width, height, texels }
    }

    pub fn new_empty() -> (r: Self)
        ensures
            r.wf(),
            r.width == 0,
            r.height == 0,
            r.texels@.len() == 0,
    {
        GfxData { width: 0, height: 0, texels: Vec::new() }
    }

    pub fn size(&self) -> (r: (u16, u16))
        ensures
            r == (self.width, self.height),
    {
        (self.width, self.height)
    }

    /// The texel at column `x`, row `y`.
    pub fn texel_at(&self, x: usize, y: usize) -> (r: u8)
        requires
            self.wf(),
            x < self.width,
            y < self.height,
        ensures
            r == self.texels@[x * self.height + y],
    {
        assert(x * self.height + y < self.width * self.height) by (nonlinear_arith)
            requires x < self.width, y < self.height;
        proof {
            lemma_mul_bound(x as int, self.height as int, 65535, 65535);
        }
        self.texels[x * (self.height as usize) + y]
    }
}

/// A copy of a picture.
pub fn copy_pic(g: &GfxData) -> (r: GfxData)
    ensures
        r.width == g.width,
        r.height == g.height,
        r.texels@ == g.texels@,
{
    let mut texels: Vec<u8> = Vec::new();
    let mut i: usize = 0;
    while i < g.texels.len()
        invariant
            0 <= i <= g.texels@.len(),
            texels@ == g.texels@.take(i as int),
        decreases g.texels@.len() - i,
    {
        texels.push(g.texels[i]);
        proof {
            assert(g.texels@.take(i + 1) =~= g.texels@.take(i as int).push(g.texels@[i as int]));
        }
        i += 1;
    }
    assert(g.texels@.take(i as int) =~= g.texels@);
    GfxData { width: g.width, height: g.height, texels }
}

/// A proportional font: for each character from 33 to 127, the offset of
/// its pixels and its width, one after the other in `offs_widths`.
pub struct FontData {
    pub font_height: u16,
    pub space_width: u16,
    pub offs_widths: Vec<u16>,
    pub pixels: Vec<u8>,
}

/// Width of one byte of text: a space has the space width, a character
/// from 33 to 127 the width the font gives it (0 where the font has none),
/// anything else 0.
pub open spec fn glyph_width(f: &FontData, b: u8) -> int {
    if b == 32 {
        f.space_width as int
    } else if 33 <= b <= 127 && (b - 33) * 2 + 1 < f.offs_widths@.len() {
        f.offs_widths@[(b - 33) * 2 + 1] as int
    } else {
        0
    }
}

pub open spec fn text_width_of(f: &FontData, bytes: Seq<u8>) -> int
    decreases bytes.len(),
{
    if bytes.len() == 0 {
        0
    } else {
        text_width_of(f, bytes.drop_last()) + glyph_width(f, bytes.last())
    }
}

impl FontData {
    pub fn new(font_height: u16, space_width: u16, offs_widths: Vec<u16>, pixels: Vec<u8>) -> (r: Self)
        ensures
            r.font_height == font_height,
            r.space_width == space_width,
            r.offs_widths@ == offs_widths@,
            r.pixels@ == pixels@,
    {
        FontData { font_height, space_width, offs_widths, pixels }
    }

    /// The width in pixels of `text` drawn in this font.
    pub fn text_width(&self, text: &str) -> (r: i32)
        requires
            text.spec_bytes().len() <= 0x8000,
        ensures
            r == text_width_of(self, text.spec_bytes()),
    {
        let bytes = text.as_bytes();
        let mut dx: i32 = 0;
        let mut i: usize = 0;
        while i < bytes.len()
            invariant
                bytes@ == text.spec_bytes(),
                bytes@.len() <= 0x8000,
                0 <= i <= bytes@.len(),
                dx == text_width_of(self, bytes@.take(i as int)),
                0 <= dx <= i * 65535,
            decreases bytes@.len() - i,
        {
            let ch = bytes[i];
            let cw: i32 = if ch == 32 {
                self.space_width as i32
            } else if 33 <= ch && ch <= 127 && ((ch - 33) as usize) * 2 + 1 < self.offs_widths.len() {
                self.offs_widths[((ch - 33) as usize) * 2 + 1] as i32
            } else {
                0
            };
            proof {
                assert(bytes@.take(i + 1).drop_last() =~= bytes@.take(i as int));
            }
            dx = dx + cw;
            i += 1;
        }
        assert(bytes@.take(i as int) =~= bytes@);
        dx
    }
}

/// A floor: the walls plane and the things plane, row by row.
pub struct MapData {
    pub name: String,
    pub width: u16,
    pub height: u16,
    pub tiles: Vec<u16>,
    pub things: Vec<u16>,
}

/// The item at `(x, y)` of a row-by-row grid, 0 outside it.
pub open spec fn grid_item(w: int, h: int, v: Seq<u16>, x: int, y: int) -> u16 {
    if 0 <= x < w && 0 <= y < h {
        v[y * w + x]
    } else {
        0
    }
}

impl MapData {
    /// A floor of the game files: 64 x 64 cells, wall codes up to 0xFF,
    /// thing codes up to 0x1FF.
    pub open spec fn wf(&self) -> bool {
        &&& self.name@.len() > 0
        &&& self.width == 64
        &&& self.height == 64
        &&& self.tiles@.len() == 4096
        &&& self.things@.len() == 4096
        &&& forall|i: int| 0 <= i < 4096 ==> self.tiles@[i] <= 0xFF
        &&& forall|i: int| 0 <= i < 4096 ==> self.things@[i] <= 0x1FF
    }

    pub fn new(name: String, width: u16, height: u16, tiles: Vec<u16>, things: Vec<u16>) -> (r: Self)
        requires
            (MapData { name, width, height, tiles, things }).wf(),
        ensures
            r.wf(),
            r.name@ == name@,
            r.width == width,
            r.height == height,
            r.tiles@ == tiles@,
            r.things@ == things@,
    {
        MapData { name, width, height, tiles, things }
    }

    /// The wall code at `(x, y)`, 0 outside the map.
    pub fn tile(&self, x: i32, y: i32) -> (r: u16)
        requires
            self.tiles@.len() == self.width * self.height,
        ensures
            r == grid_item(self.width as int, self.height as int, self.tiles@, x as int, y as int),
    {
        Self::safe_item_from_array(self.width, self.height, x, y, &self.tiles)
    }

    /// The thing code at `(x, y)`, 0 outside the map.
    pub fn thing(&self, x: i32, y: i32) -> (r: u16)
        requires
            self.things@.len() == self.width * self.height,
        ensures
            r == grid_item(self.width as int, self.height as int, self.things@, x as int, y as int),
    {
        Self::safe_item_from_array(self.width, self.height, x, y, &self.things)
    }

    pub fn safe_item_from_array(width: u16, height: u16, x: i32, y: i32, vect: &Vec<u16>) -> (r: u16)
        requires
            vect@.len() == width * height,
        ensures
            r == grid_item(width as int, height as int, vect@, x as int, y as int),
    {
        let w = width as i64;
        let h = height as i64;
        if x >= 0 && y >= 0 && (x as i64) < w && (y as i64) < h {
            proof {
                assert(0 <= y * w + x < w * h) by (nonlinear_arith)
                    requires 0 <= x < w, 0 <= y < h;
                lemma_mul_bound(y as int, w as int, 65535, 65535);
            }
            vect[((y as i64) * w + (x as i64)) as usize]
        } else {
            0
        }
    }
}

} // verus!
