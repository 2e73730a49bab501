//! The font table: fixed-size 8x8 bitmap glyphs, looked up by character
//! code.
//!
//! The bitmap data itself comes from outside; this crate only consumes it
//! through lookup-by-code.  A character code with no entry renders as a
//! blank glyph — drawing such a character touches nothing and never fails.

use vstd::prelude::*;

verus! {

/// A read-only table of 8x8 glyph bitmaps, one per character code,
/// starting at code 0.  Each glyph is eight row bytes, top to bottom; the
/// most significant bit of a row is the leftmost column.
pub struct Font {
    pub glyphs: Vec<[u8; 8]>,
}

impl Font {
    /// Row `row` of the glyph for character code `code`.  A code outside
    /// the table reads as the blank glyph.
    pub open spec fn glyph_row(self, code: int, row: int) -> u8
        recommends
            0 <= row < 8,
    {
        if 0 <= code < self.glyphs@.len() {
            self.glyphs@[code][row]
        } else {
            0
        }
    }

    /// An empty table: every character renders blank.
    pub fn new_empty() -> (f: Font)
        ensures
            f.glyphs@.len() == 0,
    {
        Font { glyphs: Vec::new() }
    }

    pub fn lookup_row(&self, code: usize, row: usize) -> (b: u8)
        requires
            row < 8,
        ensures
            b == self.glyph_row(code as int, row as int),
    {
        if code < self.glyphs.len() {
            self.glyphs[code][row]
        } else {
            0
        }
    }
}

} // verus!
