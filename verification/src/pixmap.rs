//! The line compositor: paints a line's text into a fixed-height RGB
//! pixmap, one glyph cell per character, padded on the right with blanks
//! until the text at least fills the display. The pixmap is the full
//! horizontal period of the line's scroll animation and is never mutated
//! after construction; scrolling only moves the window sampled from it.
//!
//! A glyph pixel is active when its intensity is strictly greater than
//! zero; active pixels take the line's color, inactive ones black. A
//! character whose code point lies outside the atlas renders blank.

use vstd::prelude::*;
use vstd::arithmetic::mul::lemma_mul_inequality;
use crate::bitmap::Bitmap;
use crate::font::atlas_wf;
use crate::line::{augmented_text, spec_spaces};
use crate::scroll::Scroll;
use crate::SCREEN_W;

verus! {

/// A 2-D buffer of RGB pixels, stored row-major.
pub struct Pixmap {
    pub width: usize,
    pub height: usize,
    pub data: Vec<(u8, u8, u8)>,
}

impl Pixmap {
    /// The stored pixel count matches the declared dimensions.
    pub open spec fn wf(self) -> bool {
        self.data@.len() == self.width * self.height
    }

    /// The pixel at column `x`, row `y`.
    pub open spec fn pixel(self, x: int, y: int) -> (u8, u8, u8) {
        self.data@[y * self.width + x]
    }

    /// Reads one pixel.
    pub fn get(&self, x: usize, y: usize) -> (r: (u8, u8, u8))
        requires
            self.wf(),
            x < self.width,
            y < self.height,
        ensures
            r == self.pixel(x as int, y as int),
    {
        let n = self.data.len();
        proof {
            assert(y * self.width + x < self.height * self.width) by (nonlinear_arith)
                requires
                    x < self.width,
                    y < self.height,
            ;
            assert(self.height * self.width == self.width * self.height) by (nonlinear_arith);
        }
        self.data[y * self.width + x]
    }
}

/// Characters that fit across the display for glyph cells `char_w` wide.
pub open spec fn spec_capacity(char_w: int) -> int {
    SCREEN_W as int / char_w
}

/// `text` padded on the right with blanks up to `cap` characters; text
/// already at or beyond that length is left unpadded.
pub open spec fn padded_text(text: Seq<char>, cap: int) -> Seq<char> {
    if text.len() >= cap {
        text
    } else {
        text + spec_spaces(cap - text.len())
    }
}

/// Width in pixels of the pixmap composed for `text` under `atlas`:
/// padded character count times glyph width.
pub open spec fn pixmap_width(atlas: Seq<Bitmap>, text: Seq<char>) -> int {
    padded_text(text, spec_capacity(atlas[0].width as int)).len() * atlas[0].width
}

/// Whether the glyph for character `c` is active at `(dx, dy)`: the
/// character's code point indexes the atlas, out-of-range codes are blank.
pub open spec fn glyph_active(atlas: Seq<Bitmap>, c: char, dx: int, dy: int) -> bool {
    ((c as u32) as int) < atlas.len() && atlas[(c as u32) as int].pixel(dx, dy) > 0
}

/// The color composed at `(x, y)` for the padded text: the line's color
/// where the character's glyph is active, black elsewhere.
pub open spec fn composed_pixel(
    atlas: Seq<Bitmap>,
    ptext: Seq<char>,
    color: (u8, u8, u8),
    x: int,
    y: int,
) -> (u8, u8, u8) {
    if glyph_active(atlas, ptext[x / (atlas[0].width as int)], x % (atlas[0].width as int), y) {
        color
    } else {
        (0u8, 0u8, 0u8)
    }
}

/// The full scroll period of one configured line, as characters: the
/// line's text with its mode's spacing (none when an auto mode degrades to
/// static), padded up to the display capacity.
pub open spec fn line_period_text(mode: Scroll, text: Seq<char>, char_w: int) -> Seq<char> {
    padded_text(
        augmented_text(mode, text, spec_capacity(char_w)),
        spec_capacity(char_w),
    )
}

/// `text` padded on the right with blanks up to `cap` characters.
pub fn pad_text(text: &Vec<char>, cap: usize) -> (r: Vec<char>)
    ensures
        r@ == padded_text(text@, cap as int),
{
    let mut r = crate::line::clone_chars(text);
    if r.len() < cap {
        let missing = cap - r.len();
        crate::line::push_spaces(&mut r, missing);
    }
    r
}

/// Composes the full-period pixmap of one line: the padded text painted
/// glyph cell by glyph cell, active pixels in the line's color, inactive
/// ones black.
pub fn make_pixmap(font_map: &Vec<Bitmap>, text: &Vec<char>, color: (u8, u8, u8)) -> (p: Pixmap)
    requires
        atlas_wf(font_map@),
        font_map@[0].width <= SCREEN_W,
        pixmap_width(font_map@, text@) <= usize::MAX,
    ensures
        p.wf(),
        p.height == font_map@[0].height,
        p.width == pixmap_width(font_map@, text@),
        p.width > 0,
        forall|x: int, y: int|
            0 <= x < p.width && 0 <= y < p.height ==> #[trigger] p.pixel(x, y) == composed_pixel(
                font_map@,
                padded_text(text@, spec_capacity(font_map@[0].width as int)),
                color,
                x,
                y,
            ),
{
    let cw = font_map[0].width();
    let ch = font_map[0].height();
    let cap = SCREEN_W / cw;
    let ptext = pad_text(text, cap);
    proof {
        assert(ptext@.len() * cw <= usize::MAX);
        vstd::arithmetic::div_mod::lemma_div_non_zero(SCREEN_W as int, cw as int);
        assert(ptext@.len() >= 1);
        assert(ptext@.len() * cw >= 1 * cw) by (nonlinear_arith)
            requires
                ptext@.len() >= 1,
                cw >= 0,
        ;
    }
    let w = ptext.len() * cw;
    let ghost ptext_seq = ptext@;
    let mut data: Vec<(u8, u8, u8)> = Vec::new();
    let mut y: usize = 0;
    while y < ch
        invariant
            atlas_wf(font_map@),
            cw == font_map@[0].width,
            ch == font_map@[0].height,
            ptext@ == ptext_seq,
            w == ptext_seq.len() * cw,
            w <= usize::MAX,
            y <= ch,
            data@.len() == y * w,
            forall|e: int, d: int|
                0 <= d < w && 0 <= e < y ==> #[trigger] data@[e * w + d] == composed_pixel(
                    font_map@,
                    ptext_seq,
                    color,
                    d,
                    e,
                ),
        decreases ch - y,
    {
        let mut x: usize = 0;
        while x < w
            invariant
                atlas_wf(font_map@),
                cw == font_map@[0].width,
                ch == font_map@[0].height,
                ptext@ == ptext_seq,
                w == ptext_seq.len() * cw,
                w <= usize::MAX,
                y < ch,
                x <= w,
                data@.len() == y * w + x,
                forall|e: int, d: int|
                    0 <= d < w && 0 <= e < y ==> #[trigger] data@[e * w + d] == composed_pixel(
                        font_map@,
                        ptext_seq,
                        color,
                        d,
                        e,
                    ),
                forall|d: int|
                    0 <= d < x ==> #[trigger] data@[y * w + d] == composed_pixel(
                        font_map@,
                        ptext_seq,
                        color,
                        d,
                        y as int,
                    ),
            decreases w - x,
        {
            let i = x / cw;
            let dxp = x % cw;
            proof {
                assert(x / cw < ptext_seq.len() && x % cw < cw) by (nonlinear_arith)
                    requires
                        0 <= x < ptext_seq.len() * cw,
                        cw > 0,
                ;
            }
            let c = ptext[i];
            let code: u32 = #[verifier::truncate] (c as u32);
            let active: bool = if (code as usize) < font_map.len() {
                font_map[code as usize].get(dxp, y) > 0
            } else {
                false
            };
            data.push(
                if active {
                    color
                } else {
                    (0u8, 0u8, 0u8)
                },
            );
            proof {
                assert(i == x as int / (cw as int));
                assert(dxp == x as int % (cw as int));
                assert(ptext_seq[i as int] == c);
                assert(active == glyph_active(font_map@, c, dxp as int, y as int));
                assert(data@[y * w + x] == composed_pixel(font_map@, ptext_seq, color, x as int, y as int));
                assert forall|e: int, d: int| 0 <= d < w && 0 <= e < y implies #[trigger] data@[e * w
                    + d] == composed_pixel(font_map@, ptext_seq, color, d, e) by {
                    lemma_mul_inequality(e + 1, y as int, w as int);
                    assert((e + 1) * w == e * w + w) by (nonlinear_arith);
                }
            }
            x += 1;
        }
        y += 1;
        proof {
            assert(y * w == (y - 1) * w + w) by (nonlinear_arith);
        }
    }
    proof {
        assert(ch * w == w * ch) by (nonlinear_arith);
    }
    let p = Pixmap { width: w, height: ch, data };
    proof {
        assert forall|x: int, y2: int| 0 <= x < p.width && 0 <= y2 < p.height implies #[trigger] p.pixel(
            x,
            y2,
        ) == composed_pixel(font_map@, ptext_seq, color, x, y2) by {
            assert(p.data@[y2 * w + x] == composed_pixel(font_map@, ptext_seq, color, x, y2));
        }
    }
    p
}

/// Law: a text at or beyond the display's character capacity is left
/// unpadded, and its composed pixmap is exactly its character count of
/// glyph cells wide.
pub proof fn lemma_long_text_width(atlas: Seq<Bitmap>, text: Seq<char>)
    requires
        atlas_wf(atlas),
        text.len() >= spec_capacity(atlas[0].width as int),
    ensures
        padded_text(text, spec_capacity(atlas[0].width as int)) == text,
        pixmap_width(atlas, text) == text.len() * atlas[0].width,
{
}

/// Law: a text shorter than the display's character capacity is padded
/// with blanks to exactly that capacity, so its composed pixmap is the
/// capacity times the glyph width.
pub proof fn lemma_short_text_width(atlas: Seq<Bitmap>, text: Seq<char>)
    requires
        atlas_wf(atlas),
        text.len() < spec_capacity(atlas[0].width as int),
    ensures
        padded_text(text, spec_capacity(atlas[0].width as int)) == text + spec_spaces(
            spec_capacity(atlas[0].width as int) - text.len(),
        ),
        padded_text(text, spec_capacity(atlas[0].width as int)).len() == spec_capacity(
            atlas[0].width as int,
        ),
        pixmap_width(atlas, text) == spec_capacity(atlas[0].width as int) * atlas[0].width,
{
}

} // verus!
