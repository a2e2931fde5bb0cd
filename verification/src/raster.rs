//! Depth-tested rasterization into a grid of characters.
//!
//! A canvas pairs a depth buffer with a character buffer, one cell each per
//! screen position, in row-major order. A projected sample lands on the cell
//! `xp + yp * width`; it is drawn there only if neither coordinate is
//! negative, that index lies on the canvas, and the sample is strictly
//! nearer to the camera than whatever the cell already holds.

use crate::ieee::{exceeds, greater, truncate, truncated, truncates};
use vstd::prelude::*;

verus! {

/// A surface point after projection: the screen column and row it falls on,
/// its inverse depth as a double-precision bit pattern (larger is nearer to
/// the camera), and the character that draws it.
#[derive(Clone, Copy, Debug, PartialEq, Eq)]
pub struct Sample {
    pub xp: i64,
    pub yp: i64,
    pub ooz: u64,
    pub glyph: char,
}

/// The position of column `xp`, row `yp` in a row-major grid: not yet held
/// against the grid's bounds, so it may be negative or past the end.
pub open spec fn linear_index(xp: int, yp: int, width: int) -> int {
    xp + yp * width
}

/// The cell that column `xp`, row `yp` falls on: its linear index, where
/// neither coordinate is negative and the index lies on a grid of
/// `width * height` cells. A negative column or row falls on no cell, also
/// where the other coordinate would bring the index back into range.
pub open spec fn cell_of(xp: int, yp: int, width: nat, height: nat) -> Option<int> {
    let index = linear_index(xp, yp, width as int);
    if 0 <= xp && 0 <= yp && index < width * height {
        Some(index)
    } else {
        None
    }
}

/// Computes the cell that column `xp`, row `yp` falls on. A negative
/// coordinate, or a linear index past the last cell, gives `None`: a
/// negative coordinate is not carried over into a neighbouring row, and
/// nothing is clamped to the edge.
pub fn cell_index(xp: i64, yp: i64, width: usize, height: usize) -> (r: Option<usize>)
    requires
        width * height <= usize::MAX,
    ensures
        r == (match cell_of(xp as int, yp as int, width as nat, height as nat) {
            Some(index) => Some(index as usize),
            None => None,
        }),
{
    if xp < 0 || yp < 0 {
        return None;
    }
    assert(0 <= yp * width <= 0x7fff_ffff_ffff_ffff * 0xffff_ffff_ffff_ffff) by (nonlinear_arith)
        requires
            0 <= yp <= 0x7fff_ffff_ffff_ffff,
            0 <= width <= 0xffff_ffff_ffff_ffff,
    ;
    let index: u128 = xp as u128 + (yp as u128) * (width as u128);
    let cells: usize = width * height;
    if index < cells as u128 {
        Some(index as usize)
    } else {
        None
    }
}

impl Sample {
    /// The sample that screen coordinates given as double-precision bit
    /// patterns stand for, each rounded toward zero; none where either
    /// coordinate has no truncation.
    pub open spec fn projected(sx: u64, sy: u64, ooz: u64, glyph: char) -> Option<Sample> {
        if truncates(sx) && truncates(sy) {
            Some(Sample { xp: truncated(sx) as i64, yp: truncated(sy) as i64, ooz, glyph })
        } else {
            None
        }
    }

    /// Rounds a pair of screen coordinates toward zero and joins them with
    /// the inverse depth and the character. A coordinate that is NaN,
    /// infinite or beyond the 64-bit signed range gives no sample.
    pub fn from_screen(sx: u64, sy: u64, ooz: u64, glyph: char) -> (r: Option<Sample>)
        ensures
            r == Sample::projected(sx, sy, ooz, glyph),
    {
        match truncate(sx) {
            Some(xp) => match truncate(sy) {
                Some(yp) => Some(Sample { xp, yp, ooz, glyph }),
                None => None,
            },
            None => None,
        }
    }
}

/// What a canvas holds: its dimensions, the character of an untouched cell,
/// and the two buffers, row by row.
#[verifier::ext_equal]
pub struct CanvasView {
    pub width: nat,
    pub height: nat,
    pub background: char,
    pub depth: Seq<u64>,
    pub glyphs: Seq<char>,
}

impl CanvasView {
    /// Both buffers have one cell per screen position.
    pub open spec fn wf(self) -> bool {
        &&& self.depth.len() == self.width * self.height
        &&& self.glyphs.len() == self.width * self.height
    }

    /// The canvas at the start of a frame: every depth is positive zero and
    /// every cell shows the background.
    pub open spec fn blank(width: nat, height: nat, background: char) -> CanvasView {
        CanvasView {
            width,
            height,
            background,
            depth: Seq::new(width * height, |i: int| 0u64),
            glyphs: Seq::new(width * height, |i: int| background),
        }
    }

    /// This canvas with both buffers reset.
    pub open spec fn cleared(self) -> CanvasView {
        CanvasView::blank(self.width, self.height, self.background)
    }

    /// The cell that a sample falls on, if it falls on the canvas.
    pub open spec fn cell(self, sample: Sample) -> Option<int> {
        cell_of(sample.xp as int, sample.yp as int, self.width, self.height)
    }

    /// Whether the sample is drawn: it falls on the canvas and is strictly
    /// nearer than what its cell holds. A sample at equal depth is not
    /// drawn.
    pub open spec fn admits(self, sample: Sample) -> bool {
        match self.cell(sample) {
            Some(index) => greater(sample.ooz, self.depth[index]),
            None => false,
        }
    }

    /// The canvas after one sample went through the depth test.
    pub open spec fn plotted(self, sample: Sample) -> CanvasView {
        if self.admits(sample) {
            let index = self.cell(sample).unwrap();
            CanvasView {
                depth: self.depth.update(index, sample.ooz),
                glyphs: self.glyphs.update(index, sample.glyph),
                ..self
            }
        } else {
            self
        }
    }

    /// The canvas after the samples went through the depth test one by one,
    /// first to last.
    pub open spec fn rasterized(self, samples: Seq<Sample>) -> CanvasView
        decreases samples.len(),
    {
        if samples.len() == 0 {
            self
        } else {
            self.rasterized(samples.drop_last()).plotted(samples.last())
        }
    }
}

/// A depth buffer and a character buffer over a screen of fixed size. Both
/// always have one cell per screen position.
pub struct Canvas {
    width: usize,
    height: usize,
    background: char,
    depth: Vec<u64>,
    glyphs: Vec<char>,
}

impl View for Canvas {
    type V = CanvasView;

    closed spec fn view(&self) -> CanvasView {
        CanvasView {
            width: self.width as nat,
            height: self.height as nat,
            background: self.background,
            depth: self.depth@,
            glyphs: self.glyphs@,
        }
    }
}

impl Canvas {
    #[verifier::type_invariant]
    spec fn sized(&self) -> bool {
        self@.wf()
    }

    /// A blank canvas of `width` columns and `height` rows.
    pub fn new(width: usize, height: usize, background: char) -> (canvas: Canvas)
        requires
            width * height <= usize::MAX,
        ensures
            canvas@ == CanvasView::blank(width as nat, height as nat, background),
            canvas@.wf(),
    {
        let cells: usize = width * height;
        let mut depth: Vec<u64> = Vec::new();
        let mut glyphs: Vec<char> = Vec::new();
        let mut filled: usize = 0;
        while filled < cells
            invariant
                filled <= cells,
                depth@.len() == filled,
                glyphs@.len() == filled,
                forall|i: int| 0 <= i < filled ==> depth@[i] == 0u64,
                forall|i: int| 0 <= i < filled ==> glyphs@[i] == background,
            decreases cells - filled,
        {
            depth.push(0u64);
            glyphs.push(background);
            filled = filled + 1;
        }
        let canvas = Canvas { width, height, background, depth, glyphs };
        assert(canvas@ =~= CanvasView::blank(width as nat, height as nat, background));
        canvas
    }

    /// The number of columns.
    pub fn width(&self) -> (r: usize)
        ensures
            r == self@.width,
    {
        self.width
    }

    /// The number of rows.
    pub fn height(&self) -> (r: usize)
        ensures
            r == self@.height,
    {
        self.height
    }

    /// The character of an untouched cell.
    pub fn background(&self) -> (r: char)
        ensures
            r == self@.background,
    {
        self.background
    }

    /// The depth buffer, row by row.
    pub fn depth(&self) -> (r: &Vec<u64>)
        ensures
            r@ == self@.depth,
            self@.wf(),
    {
        proof {
            use_type_invariant(self);
        }
        &self.depth
    }

    /// The character buffer, row by row.
    pub fn glyphs(&self) -> (r: &Vec<char>)
        ensures
            r@ == self@.glyphs,
            self@.wf(),
    {
        proof {
            use_type_invariant(self);
        }
        &self.glyphs
    }

    /// Resets both buffers for the next frame.
    pub fn clear(&mut self)
        ensures
            final(self)@ == old(self)@.cleared(),
            final(self)@.wf(),
    {
        proof {
            use_type_invariant(&*self);
        }
        let cells: usize = self.depth.len();
        let mut done: usize = 0;
        while done < cells
            invariant
                done <= cells,
                self@.wf(),
                self.depth@.len() == cells,
                self.width == old(self).width,
                self.height == old(self).height,
                self.background == old(self).background,
                forall|i: int| 0 <= i < done ==> self.depth@[i] == 0u64,
                forall|i: int| 0 <= i < done ==> self.glyphs@[i] == self.background,
            decreases cells - done,
        {
            self.depth[done] = 0u64;
            self.glyphs[done] = self.background;
            done = done + 1;
        }
        assert(self@ =~= old(self)@.cleared());
    }

    /// Puts one sample through the depth test, and reports whether it was
    /// drawn. A sample that falls off the canvas, or that is not strictly
    /// nearer than what its cell holds, changes nothing.
    pub fn plot(&mut self, sample: Sample) -> (drawn: bool)
        ensures
            drawn == old(self)@.admits(sample),
            final(self)@ == old(self)@.plotted(sample),
            old(self)@.cell(sample) is None ==> final(self)@ == old(self)@,
            sample.xp < 0 || sample.yp < 0 ==> final(self)@ == old(self)@,
            final(self)@.wf(),
    {
        proof {
            use_type_invariant(&*self);
        }
        assert(self.width * self.height == self.depth.len());
        match cell_index(sample.xp, sample.yp, self.width, self.height) {
            Some(index) => {
                if exceeds(sample.ooz, self.depth[index]) {
                    self.depth[index] = sample.ooz;
                    self.glyphs[index] = sample.glyph;
                    assert(self@ =~= old(self)@.plotted(sample));
                    true
                } else {
                    false
                }
            },
            None => false,
        }
    }

    /// Rounds screen coordinates given as double-precision bit patterns
    /// toward zero and puts the sample through the depth test. Coordinates
    /// without a truncation fall off the canvas.
    pub fn plot_projected(&mut self, sx: u64, sy: u64, ooz: u64, glyph: char) -> (drawn: bool)
        ensures
            final(self)@ == (match Sample::projected(sx, sy, ooz, glyph) {
                Some(sample) => old(self)@.plotted(sample),
                None => old(self)@,
            }),
            drawn == (match Sample::projected(sx, sy, ooz, glyph) {
                Some(sample) => old(self)@.admits(sample),
                None => false,
            }),
            final(self)@.wf(),
    {
        proof {
            use_type_invariant(&*self);
        }
        match Sample::from_screen(sx, sy, ooz, glyph) {
            Some(sample) => self.plot(sample),
            None => false,
        }
    }

    /// Puts the samples through the depth test one by one, first to last.
    pub fn rasterize(&mut self, samples: &Vec<Sample>)
        ensures
            final(self)@ == old(self)@.rasterized(samples@),
            final(self)@.wf(),
    {
        proof {
            use_type_invariant(&*self);
        }
        let mut done: usize = 0;
        while done < samples.len()
            invariant
                done <= samples@.len(),
                self@.wf(),
                self@ == old(self)@.rasterized(samples@.take(done as int)),
            decreases samples@.len() - done,
        {
            assert(samples@.take(done + 1).drop_last() =~= samples@.take(done as int));
            self.plot(samples[done]);
            done = done + 1;
        }
        assert(samples@.take(done as int) =~= samples@);
    }
}

} // verus!
