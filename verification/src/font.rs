//! Fonts and glyph atlases. A font's glyphs are sliced out of one sheet
//! image along a declared grid: cell size, stride between cells, sheet size
//! in cells, and pixel origin. Character codes map to cells in raster-scan
//! order (left to right, then top to bottom), and a character's glyph index
//! is its raw code point; codes at or beyond the atlas length render blank.

use vstd::prelude::*;
use vstd::arithmetic::mul::lemma_mul_inequality;
use vstd::arithmetic::div_mod::lemma_fundamental_div_mod_converse;
use crate::bitmap::Bitmap;
use crate::SCREEN_W;

verus! {

/// The fonts the board supports.
#[derive(Clone, Copy, PartialEq, Eq, Hash, Structural, Debug)]
pub enum Font {
    Small5x5,
    Big8x8,
}

/// Declared slicing geometry of one font sheet. All quantities are pixels
/// except `map_dims`, which counts cells.
#[derive(Clone, Copy)]
pub struct FontMeta {
    pub filepath: &'static str,
    pub origin: (usize, usize),
    pub stride: (usize, usize),
    pub char_dims: (usize, usize),
    pub map_dims: (usize, usize),
}

/// Why a font could not be loaded: the sheet file could not be read, its
/// image could not be decoded, or the declared grid would crop outside the
/// image bounds. The first two arise only in the unverified shell that does
/// the file I/O; this crate's own slicer reports `BadGeometry`.
#[derive(Clone, Copy, PartialEq, Eq, Structural, Debug)]
pub enum FontLoadError {
    BadPath,
    Undecodable,
    BadGeometry,
}

/// The declared slicing geometry of each supported font.
pub open spec fn spec_font_meta(font: Font) -> FontMeta {
    match font {
        Font::Small5x5 => FontMeta {
            filepath: "fonts/kongtext.png",
            origin: (0, 0),
            stride: (8, 8),
            char_dims: (8, 8),
            map_dims: (32, 4),
        },
        Font::Big8x8 => FontMeta {
            filepath: "fonts/magero.png",
            origin: (0, 0),
            stride: (5, 5),
            char_dims: (5, 5),
            map_dims: (32, 4),
        },
    }
}

/// The slicing geometry of one font.
pub fn font_meta(font: Font) -> (r: FontMeta)
    ensures
        r == spec_font_meta(font),
{
    match font {
        Font::Small5x5 => FontMeta {
            filepath: "fonts/kongtext.png",
            origin: (0, 0),
            stride: (8, 8),
            char_dims: (8, 8),
            map_dims: (32, 4),
        },
        Font::Big8x8 => FontMeta {
            filepath: "fonts/magero.png",
            origin: (0, 0),
            stride: (5, 5),
            char_dims: (5, 5),
            map_dims: (32, 4),
        },
    }
}

/// Every supported font together with its slicing geometry.
pub fn get_fonts_meta_info() -> (r: Vec<(Font, FontMeta)>)
    ensures
        r@.len() == 2,
        r@[0] == (Font::Small5x5, spec_font_meta(Font::Small5x5)),
        r@[1] == (Font::Big8x8, spec_font_meta(Font::Big8x8)),
{
    let mut r: Vec<(Font, FontMeta)> = Vec::new();
    r.push((Font::Small5x5, font_meta(Font::Small5x5)));
    r.push((Font::Big8x8, font_meta(Font::Big8x8)));
    r
}

/// The declared grid fits inside a sheet of the given pixel dimensions:
/// the grid is nonempty, its cells are nonempty, and the furthest cell's
/// far edge stays inside the sheet on both axes.
pub open spec fn geometry_ok(meta: FontMeta, sheet_w: int, sheet_h: int) -> bool {
    &&& meta.char_dims.0 > 0
    &&& meta.char_dims.1 > 0
    &&& meta.map_dims.0 > 0
    &&& meta.map_dims.1 > 0
    &&& meta.origin.0 + (meta.map_dims.0 - 1) * meta.stride.0 + meta.char_dims.0 <= sheet_w
    &&& meta.origin.1 + (meta.map_dims.1 - 1) * meta.stride.1 + meta.char_dims.1 <= sheet_h
}

/// Column of the cell holding glyph `k` (raster-scan order).
pub open spec fn cell_col(meta: FontMeta, k: int) -> int {
    k % (meta.map_dims.0 as int)
}

/// Row of the cell holding glyph `k` (raster-scan order).
pub open spec fn cell_row(meta: FontMeta, k: int) -> int {
    k / (meta.map_dims.0 as int)
}

/// Sheet x coordinate of the left edge of glyph `k`'s cell.
pub open spec fn cell_x(meta: FontMeta, k: int) -> int {
    meta.origin.0 + cell_col(meta, k) * meta.stride.0
}

/// Sheet y coordinate of the top edge of glyph `k`'s cell.
pub open spec fn cell_y(meta: FontMeta, k: int) -> int {
    meta.origin.1 + cell_row(meta, k) * meta.stride.1
}

/// `cell` is exactly glyph `k` of the sheet under the declared grid: its
/// dimensions are the declared cell size and each of its pixels is the
/// corresponding sheet pixel.
pub open spec fn cell_matches_sheet(cell: Bitmap, sheet: Bitmap, meta: FontMeta, k: int) -> bool {
    &&& cell.wf()
    &&& cell.width == meta.char_dims.0
    &&& cell.height == meta.char_dims.1
    &&& forall|dx: int, dy: int|
        0 <= dx < meta.char_dims.0 && 0 <= dy < meta.char_dims.1
            ==> #[trigger] cell.pixel(dx, dy) == sheet.pixel(cell_x(meta, k) + dx, cell_y(meta, k) + dy)
}

/// A usable glyph atlas: at least one glyph, every glyph well-formed, all
/// of one nonempty size.
pub open spec fn atlas_wf(atlas: Seq<Bitmap>) -> bool {
    &&& atlas.len() > 0
    &&& atlas[0].width > 0
    &&& atlas[0].height > 0
    &&& forall|k: int|
        0 <= k < atlas.len()
            ==> (#[trigger] atlas[k]).wf() && atlas[k].width == atlas[0].width && atlas[k].height
            == atlas[0].height
}

/// Whether `origin + (count - 1) * stride + cell <= limit`, evaluated
/// without overflowing.
fn span_fits(origin: usize, count: usize, stride: usize, cell: usize, limit: usize) -> (b: bool)
    requires
        count >= 1,
    ensures
        b == (origin + (count - 1) * stride + cell <= limit),
{
    match (count - 1).checked_mul(stride) {
        Some(p) => match origin.checked_add(p) {
            Some(q) => match q.checked_add(cell) {
                Some(need) => need <= limit,
                None => false,
            },
            None => false,
        },
        None => false,
    }
}

/// Whether the declared grid fits inside a sheet of the given dimensions.
pub fn geometry_fits(meta: &FontMeta, sheet_w: usize, sheet_h: usize) -> (b: bool)
    ensures
        b == geometry_ok(*meta, sheet_w as int, sheet_h as int),
{
    if meta.char_dims.0 == 0 || meta.char_dims.1 == 0 || meta.map_dims.0 == 0 || meta.map_dims.1
        == 0 {
        return false;
    }
    span_fits(meta.origin.0, meta.map_dims.0, meta.stride.0, meta.char_dims.0, sheet_w)
        && span_fits(meta.origin.1, meta.map_dims.1, meta.stride.1, meta.char_dims.1, sheet_h)
}

/// Copies the `cw` by `ch` window of the sheet whose top-left corner is
/// `(x0, y0)` into a bitmap of its own.
fn slice_cell(sheet: &Bitmap, x0: usize, y0: usize, cw: usize, ch: usize) -> (cell: Bitmap)
    requires
        sheet.wf(),
        x0 + cw <= sheet.width,
        y0 + ch <= sheet.height,
    ensures
        cell.wf(),
        cell.width == cw,
        cell.height == ch,
        forall|dx: int, dy: int|
            0 <= dx < cw && 0 <= dy < ch ==> #[trigger] cell.pixel(dx, dy) == sheet.pixel(
                x0 + dx,
                y0 + dy,
            ),
{
    let mut data: Vec<u8> = Vec::new();
    let mut dy: usize = 0;
    while dy < ch
        invariant
            sheet.wf(),
            x0 + cw <= sheet.width,
            y0 + ch <= sheet.height,
            dy <= ch,
            data@.len() == dy * cw,
            forall|e: int, d: int|
                0 <= d < cw && 0 <= e < dy ==> #[trigger] data@[e * cw + d] == sheet.pixel(
                    x0 + d,
                    y0 + e,
                ),
        decreases ch - dy,
    {
        let mut dx: usize = 0;
        while dx < cw
            invariant
                sheet.wf(),
                x0 + cw <= sheet.width,
                y0 + ch <= sheet.height,
                dy < ch,
                dx <= cw,
                data@.len() == dy * cw + dx,
                forall|e: int, d: int|
                    0 <= d < cw && 0 <= e < dy ==> #[trigger] data@[e * cw + d] == sheet.pixel(
                        x0 + d,
                        y0 + e,
                    ),
                forall|d: int|
                    0 <= d < dx ==> #[trigger] data@[dy * cw + d] == sheet.pixel(x0 + d, y0 + dy),
            decreases cw - dx,
        {
            proof {
                lemma_mul_inequality(dy as int, ch as int - 1, cw as int);
            }
            data.push(sheet.get(x0 + dx, y0 + dy));
            proof {
                assert forall|e: int, d: int| 0 <= d < cw && 0 <= e < dy implies #[trigger] data@[e
                    * cw + d] == sheet.pixel(x0 + d, y0 + e) by {
                    lemma_mul_inequality(e + 1, dy as int, cw as int);
                    assert((e + 1) * cw == e * cw + cw) by (nonlinear_arith);
                }
            }
            dx += 1;
        }
        dy += 1;
        proof {
            assert(dy * cw == (dy - 1) * cw + cw) by (nonlinear_arith);
        }
    }
    proof {
        assert(ch * cw == cw * ch) by (nonlinear_arith);
    }
    let cell = Bitmap { width: cw, height: ch, data };
    proof {
        assert forall|dx: int, dy2: int| 0 <= dx < cw && 0 <= dy2 < ch implies #[trigger] cell.pixel(
            dx,
            dy2,
        ) == sheet.pixel(x0 + dx, y0 + dy2) by {
            assert(cell.data@[dy2 * cw + dx] == sheet.pixel(x0 + dx, y0 + dy2));
        }
    }
    cell
}

/// Slices a font sheet into its per-character glyph cells, in raster-scan
/// order, under the declared grid geometry. Fails exactly when the grid
/// would crop outside the sheet.
pub fn slice_atlas(sheet: &Bitmap, meta: &FontMeta) -> (r: Result<Vec<Bitmap>, FontLoadError>)
    requires
        sheet.wf(),
    ensures
        match r {
            Ok(cells) => {
                &&& geometry_ok(*meta, sheet.width as int, sheet.height as int)
                &&& cells@.len() == meta.map_dims.0 * meta.map_dims.1
                &&& forall|k: int|
                    0 <= k < cells@.len() ==> cell_matches_sheet(
                        #[trigger] cells@[k],
                        *sheet,
                        *meta,
                        k,
                    )
            },
            Err(e) => {
                &&& e == FontLoadError::BadGeometry
                &&& !geometry_ok(*meta, sheet.width as int, sheet.height as int)
            },
        },
{
    if !geometry_fits(meta, sheet.width(), sheet.height()) {
        return Err(FontLoadError::BadGeometry);
    }
    let cols = meta.map_dims.0;
    let rows = meta.map_dims.1;
    let cw = meta.char_dims.0;
    let ch = meta.char_dims.1;
    let mut cells: Vec<Bitmap> = Vec::new();
    let mut j: usize = 0;
    while j < rows
        invariant
            sheet.wf(),
            geometry_ok(*meta, sheet.width as int, sheet.height as int),
            cols == meta.map_dims.0,
            rows == meta.map_dims.1,
            cw == meta.char_dims.0,
            ch == meta.char_dims.1,
            j <= rows,
            cells@.len() == j * cols,
            forall|k: int|
                0 <= k < cells@.len() ==> cell_matches_sheet(#[trigger] cells@[k], *sheet, *meta, k),
        decreases rows - j,
    {
        let mut i: usize = 0;
        while i < cols
            invariant
                sheet.wf(),
                geometry_ok(*meta, sheet.width as int, sheet.height as int),
                cols == meta.map_dims.0,
                rows == meta.map_dims.1,
                cw == meta.char_dims.0,
                ch == meta.char_dims.1,
                j < rows,
                i <= cols,
                cells@.len() == j * cols + i,
                forall|k: int|
                    0 <= k < cells@.len() ==> cell_matches_sheet(
                        #[trigger] cells@[k],
                        *sheet,
                        *meta,
                        k,
                    ),
            decreases cols - i,
        {
            proof {
                lemma_mul_inequality(i as int, cols as int - 1, meta.stride.0 as int);
                lemma_mul_inequality(j as int, rows as int - 1, meta.stride.1 as int);
            }
            let x0 = meta.origin.0 + i * meta.stride.0;
            let y0 = meta.origin.1 + j * meta.stride.1;
            let cell = slice_cell(sheet, x0, y0, cw, ch);
            proof {
                lemma_fundamental_div_mod_converse(
                    j * cols + i,
                    cols as int,
                    j as int,
                    i as int,
                );
            }
            cells.push(cell);
            i += 1;
        }
        j += 1;
        proof {
            assert(j * cols == (j - 1) * cols + cols) by (nonlinear_arith);
        }
    }
    proof {
        assert(rows * cols == cols * rows) by (nonlinear_arith);
    }
    Ok(cells)
}

/// The sliced glyph atlases of every supported font, built once at
/// activation and immutable afterward; every line built for a font reads
/// the same atlas.
pub struct FontMaps {
    pub small5x5: Vec<Bitmap>,
    pub big8x8: Vec<Bitmap>,
}

impl FontMaps {
    /// Both atlases usable, with glyph cells no wider than the display.
    pub open spec fn wf(&self) -> bool {
        &&& atlas_wf(self.small5x5@)
        &&& atlas_wf(self.big8x8@)
        &&& self.small5x5@[0].width <= SCREEN_W
        &&& self.big8x8@[0].width <= SCREEN_W
    }

    /// The atlas of one font.
    pub open spec fn spec_get(&self, font: Font) -> Seq<Bitmap> {
        match font {
            Font::Small5x5 => self.small5x5@,
            Font::Big8x8 => self.big8x8@,
        }
    }

    /// The atlas of one font.
    pub fn get(&self, font: Font) -> (r: &Vec<Bitmap>)
        ensures
            r@ == self.spec_get(font),
    {
        match font {
            Font::Small5x5 => &self.small5x5,
            Font::Big8x8 => &self.big8x8,
        }
    }
}

/// Slices both supported fonts' sheets into their glyph atlases. Fails
/// exactly when a sheet does not contain its font's declared grid.
pub fn load_fontmaps(small_sheet: &Bitmap, big_sheet: &Bitmap) -> (r: Result<
    FontMaps,
    FontLoadError,
>)
    requires
        small_sheet.wf(),
        big_sheet.wf(),
    ensures
        match r {
            Ok(maps) => {
                &&& maps.wf()
                &&& maps.small5x5@.len() == 128
                &&& maps.big8x8@.len() == 128
                &&& forall|k: int|
                    0 <= k < 128 ==> cell_matches_sheet(
                        #[trigger] maps.small5x5@[k],
                        *small_sheet,
                        spec_font_meta(Font::Small5x5),
                        k,
                    )
                &&& forall|k: int|
                    0 <= k < 128 ==> cell_matches_sheet(
                        #[trigger] maps.big8x8@[k],
                        *big_sheet,
                        spec_font_meta(Font::Big8x8),
                        k,
                    )
            },
            Err(e) => {
                &&& e == FontLoadError::BadGeometry
                &&& {
                    ||| !geometry_ok(
                        spec_font_meta(Font::Small5x5),
                        small_sheet.width as int,
                        small_sheet.height as int,
                    )
                    ||| !geometry_ok(
                        spec_font_meta(Font::Big8x8),
                        big_sheet.width as int,
                        big_sheet.height as int,
                    )
                }
            },
        },
{
    let small_meta = font_meta(Font::Small5x5);
    let big_meta = font_meta(Font::Big8x8);
    let small = match slice_atlas(small_sheet, &small_meta) {
        Ok(cells) => cells,
        Err(e) => {
            return Err(e);
        },
    };
    let big = match slice_atlas(big_sheet, &big_meta) {
        Ok(cells) => cells,
        Err(e) => {
            return Err(e);
        },
    };
    let maps = FontMaps { small5x5: small, big8x8: big };
    proof {
        assert(cell_matches_sheet(maps.small5x5@[0], *small_sheet, small_meta, 0));
        assert(cell_matches_sheet(maps.big8x8@[0], *big_sheet, big_meta, 0));
        assert forall|k: int| 0 <= k < maps.small5x5@.len() implies (#[trigger] maps.small5x5@[k]).wf()
            && maps.small5x5@[k].width == maps.small5x5@[0].width && maps.small5x5@[k].height
            == maps.small5x5@[0].height by {
            assert(cell_matches_sheet(maps.small5x5@[k], *small_sheet, small_meta, k));
        }
        assert forall|k: int| 0 <= k < maps.big8x8@.len() implies (#[trigger] maps.big8x8@[k]).wf()
            && maps.big8x8@[k].width == maps.big8x8@[0].width && maps.big8x8@[k].height
            == maps.big8x8@[0].height by {
            assert(cell_matches_sheet(maps.big8x8@[k], *big_sheet, big_meta, k));
        }
    }
    Ok(maps)
}

} // verus!
