//! Per-line configuration: text, color, scroll mode and font, built with a
//! small builder-style API and immutable once handed to the board.

use vstd::prelude::*;
use vstd::string::StrSliceExecFns;
use crate::font::Font;
use crate::scroll::Scroll;

verus! {

/// Configuration of one displayed line.
pub struct Line {
    pub scroll_mode: Scroll,
    pub text: Vec<char>,
    pub color: (u8, u8, u8),
    pub font: Font,
}

/// `n` blank characters.
pub open spec fn spec_spaces(n: int) -> Seq<char> {
    Seq::new(n as nat, |i: int| ' ')
}

/// Blank characters a scroll mode inserts between scroll cycles.
pub open spec fn spec_spacing(mode: Scroll) -> int {
    match mode {
        Scroll::Off => 0,
        Scroll::Left { spacing, .. } => spacing as int,
        Scroll::Right { spacing, .. } => spacing as int,
        Scroll::LeftAuto { spacing, .. } => spacing as int,
        Scroll::RightAuto { spacing, .. } => spacing as int,
    }
}

/// The text a line's pixmap is composed from, before padding: the line's
/// own text with the mode's inter-cycle spacing appended (left modes) or
/// prepended (right modes), untouched when the mode never scrolls, and
/// also untouched when an auto mode degrades to static because the text
/// does not exceed the display's character capacity.
pub open spec fn augmented_text(mode: Scroll, text: Seq<char>, capacity: int) -> Seq<char> {
    match mode {
        Scroll::Off => text,
        Scroll::Left { spacing, .. } => text + spec_spaces(spacing as int),
        Scroll::LeftAuto { spacing, .. } => if text.len() > capacity {
            text + spec_spaces(spacing as int)
        } else {
            text
        },
        Scroll::Right { spacing, .. } => spec_spaces(spacing as int) + text,
        Scroll::RightAuto { spacing, .. } => if text.len() > capacity {
            spec_spaces(spacing as int) + text
        } else {
            text
        },
    }
}

/// Law: blank characters are added to a line's text exactly as its scroll
/// mode directs — appended for `Left`, prepended for `Right`, never for
/// `Off`; the auto modes do the same only when the text exceeds the
/// display's character capacity, and add no spacing when they degrade to
/// static.
pub proof fn lemma_spacing_by_mode(mode: Scroll, text: Seq<char>, capacity: int)
    ensures
        mode is Off ==> augmented_text(mode, text, capacity) == text,
        mode is Left ==> augmented_text(mode, text, capacity) == text + spec_spaces(
            spec_spacing(mode),
        ),
        mode is Right ==> augmented_text(mode, text, capacity) == spec_spaces(spec_spacing(mode))
            + text,
        mode is LeftAuto && text.len() > capacity ==> augmented_text(mode, text, capacity) == text
            + spec_spaces(spec_spacing(mode)),
        mode is RightAuto && text.len() > capacity ==> augmented_text(mode, text, capacity)
            == spec_spaces(spec_spacing(mode)) + text,
        (mode is LeftAuto || mode is RightAuto) && text.len() <= capacity ==> augmented_text(
            mode,
            text,
            capacity,
        ) == text,
{
}

/// Copies a character vector.
pub fn clone_chars(v: &Vec<char>) -> (r: Vec<char>)
    ensures
        r@ == v@,
{
    let mut r: Vec<char> = Vec::new();
    let mut i: usize = 0;
    while i < v.len()
        invariant
            i <= v@.len(),
            r@ == v@.subrange(0, i as int),
        decreases v@.len() - i,
    {
        r.push(v[i]);
        proof {
            assert(r@ =~= v@.subrange(0, i + 1));
        }
        i += 1;
    }
    proof {
        assert(r@ =~= v@);
    }
    r
}

/// Appends `n` blank characters.
pub fn push_spaces(v: &mut Vec<char>, n: usize)
    requires
        old(v)@.len() + n <= usize::MAX,
    ensures
        final(v)@ == old(v)@ + spec_spaces(n as int),
{
    let mut i: usize = 0;
    while i < n
        invariant
            i <= n,
            old(v)@.len() + n <= usize::MAX,
            v@ == old(v)@ + spec_spaces(i as int),
        decreases n - i,
    {
        v.push(' ');
        proof {
            assert(v@ =~= old(v)@ + spec_spaces(i + 1));
        }
        i += 1;
    }
}

/// Appends `text` to `n` blank characters.
fn spaces_then(text: &Vec<char>, n: usize) -> (r: Vec<char>)
    requires
        n + text@.len() <= usize::MAX,
    ensures
        r@ == spec_spaces(n as int) + text@,
{
    let mut r: Vec<char> = Vec::new();
    push_spaces(&mut r, n);
    let mut i: usize = 0;
    while i < text.len()
        invariant
            i <= text@.len(),
            r@ == spec_spaces(n as int) + text@.subrange(0, i as int),
        decreases text@.len() - i,
    {
        r.push(text[i]);
        proof {
            assert(r@ =~= spec_spaces(n as int) + text@.subrange(0, i + 1));
        }
        i += 1;
    }
    proof {
        assert(r@ =~= spec_spaces(n as int) + text@);
    }
    r
}

/// Builds the augmented text of a line for a display that fits `capacity`
/// characters: spacing appended for the left modes, prepended for the
/// right modes, nothing for `Off` — and nothing for an auto mode whose
/// text already fits the display.
pub fn augment_text(text: &Vec<char>, mode: &Scroll, capacity: usize) -> (r: Vec<char>)
    requires
        augmented_text(*mode, text@, capacity as int).len() <= usize::MAX,
    ensures
        r@ == augmented_text(*mode, text@, capacity as int),
{
    match mode {
        Scroll::Off => clone_chars(text),
        Scroll::Left { spacing, .. } => {
            let mut r = clone_chars(text);
            push_spaces(&mut r, *spacing as usize);
            r
        },
        Scroll::LeftAuto { spacing, .. } => {
            if text.len() > capacity {
                let mut r = clone_chars(text);
                push_spaces(&mut r, *spacing as usize);
                r
            } else {
                clone_chars(text)
            }
        },
        Scroll::Right { spacing, .. } => spaces_then(text, *spacing as usize),
        Scroll::RightAuto { spacing, .. } => {
            if text.len() > capacity {
                spaces_then(text, *spacing as usize)
            } else {
                clone_chars(text)
            }
        },
    }
}

impl Line {
    /// A white, static line of the default font showing `text`.
    pub fn new(text: &str) -> (l: Line)
        ensures
            l.text@ == text@,
            l.color == (255u8, 255u8, 255u8),
            l.scroll_mode == Scroll::Off,
            l.font == Font::Big8x8,
    {
        let n: usize = text.unicode_len();
        let mut chars: Vec<char> = Vec::new();
        let mut i: usize = 0;
        while i < n
            invariant
                n == text@.len(),
                i <= n,
                chars@ == text@.subrange(0, i as int),
            decreases n - i,
        {
            chars.push(text.get_char(i));
            proof {
                assert(chars@ =~= text@.subrange(0, i + 1));
            }
            i += 1;
        }
        proof {
            assert(chars@ =~= text@);
        }
        Line { scroll_mode: Scroll::Off, text: chars, color: (255, 255, 255), font: Font::Big8x8 }
    }

    /// The same line with another color.
    pub fn with_color(&self, r: u8, g: u8, b: u8) -> (l: Line)
        ensures
            l.text@ == self.text@,
            l.color == (r, g, b),
            l.scroll_mode == self.scroll_mode,
            l.font == self.font,
    {
        Line {
            scroll_mode: self.scroll_mode,
            text: clone_chars(&self.text),
            color: (r, g, b),
            font: self.font,
        }
    }

    /// The same line with another scroll mode.
    pub fn with_scroll(&self, scroll_mode: Scroll) -> (l: Line)
        ensures
            l.text@ == self.text@,
            l.color == self.color,
            l.scroll_mode == scroll_mode,
            l.font == self.font,
    {
        Line {
            scroll_mode,
            text: clone_chars(&self.text),
            color: self.color,
            font: self.font,
        }
    }

    /// The same line with another font.
    pub fn with_font(&self, font: Font) -> (l: Line)
        ensures
            l.text@ == self.text@,
            l.color == self.color,
            l.scroll_mode == self.scroll_mode,
            l.font == font,
    {
        Line {
            scroll_mode: self.scroll_mode,
            text: clone_chars(&self.text),
            color: self.color,
            font,
        }
    }
}

} // verus!
