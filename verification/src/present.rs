//! What is sent to the terminal: the control sequences, and the cells of a
//! finished frame.

use crate::raster::{Canvas, CanvasView};
use vstd::prelude::*;

verus! {

/// The bytes that clear the terminal: ESC `[` `2` `J`.
pub open spec fn clear_screen_sequence() -> Seq<u8> {
    seq![0x1bu8, 0x5bu8, 0x32u8, 0x4au8]
}

/// The bytes that move the cursor to the top left corner: ESC `[` `H`.
pub open spec fn cursor_home_sequence() -> Seq<u8> {
    seq![0x1bu8, 0x5bu8, 0x48u8]
}

/// The control sequence sent once, before the first frame.
pub fn clear_screen() -> (bytes: Vec<u8>)
    ensures
        bytes@ == clear_screen_sequence(),
{
    let mut bytes: Vec<u8> = Vec::new();
    bytes.push(0x1bu8);
    bytes.push(0x5bu8);
    bytes.push(0x32u8);
    bytes.push(0x4au8);
    assert(bytes@ =~= clear_screen_sequence());
    bytes
}

/// The control sequence sent before the cells of every frame.
pub fn cursor_home() -> (bytes: Vec<u8>)
    ensures
        bytes@ == cursor_home_sequence(),
{
    let mut bytes: Vec<u8> = Vec::new();
    bytes.push(0x1bu8);
    bytes.push(0x5bu8);
    bytes.push(0x48u8);
    assert(bytes@ =~= cursor_home_sequence());
    bytes
}

impl CanvasView {
    /// The cells as they are shown, row by row without line breaks: the
    /// character buffer, except that the leftmost column of every row shows
    /// the background whatever was drawn there.
    pub open spec fn presented(self) -> Seq<char> {
        Seq::new(
            self.glyphs.len(),
            |k: int|
                if k % (self.width as int) == 0 {
                    self.background
                } else {
                    self.glyphs[k]
                },
        )
    }
}

impl Canvas {
    /// The characters of the finished frame in the order in which they are
    /// written to the terminal: one per cell, with the leftmost column
    /// blanked.
    pub fn present(&self) -> (cells: Vec<char>)
        ensures
            cells@ == self@.presented(),
            cells@.len() == self@.width * self@.height,
    {
        let glyphs = self.glyphs();
        let width: usize = self.width();
        let background: char = self.background();
        let mut cells: Vec<char> = Vec::new();
        let mut k: usize = 0;
        while k < glyphs.len()
            invariant
                k <= glyphs@.len(),
                glyphs@ == self@.glyphs,
                glyphs@.len() == width * self@.height,
                width == self@.width,
                background == self@.background,
                cells@.len() == k,
                forall|i: int| 0 <= i < k ==> cells@[i] == self@.presented()[i],
            decreases glyphs@.len() - k,
        {
            assert(width != 0) by (nonlinear_arith)
                requires
                    k < width * self@.height,
            ;
            let shown: char = if k % width != 0 {
                glyphs[k]
            } else {
                background
            };
            cells.push(shown);
            k = k + 1;
        }
        assert(cells@ =~= self@.presented());
        cells
    }
}

} // verus!
