//! What the depth test guarantees: which of the samples that fall on a cell
//! the canvas ends up showing.

use crate::ieee::{greater, is_nan, same_number};
use crate::raster::{CanvasView, Sample};
use vstd::prelude::*;

verus! {

/// Of two samples on one cell, the strictly nearer one decides the outcome:
/// drawing both, in either order, leaves the canvas as drawing the nearer
/// one alone does.
pub proof fn drawing_order_is_immaterial(canvas: CanvasView, near: Sample, far: Sample)
    requires
        canvas.wf(),
        canvas.cell(near) == canvas.cell(far),
        greater(near.ooz, far.ooz),
    ensures
        canvas.plotted(near).plotted(far) == canvas.plotted(near),
        canvas.plotted(far).plotted(near) == canvas.plotted(near),
{
    assert(canvas.plotted(near).plotted(far) =~= canvas.plotted(near));
    assert(canvas.plotted(far).plotted(near) =~= canvas.plotted(near));
}

/// Of two samples on one cell of the canvas, where the nearer one is also
/// nearer than what the cell held before, the cell ends up with the nearer
/// sample's character and depth in whichever order the two are drawn.
pub proof fn closer_sample_wins(canvas: CanvasView, near: Sample, far: Sample)
    requires
        canvas.wf(),
        canvas.cell(near) == canvas.cell(far),
        greater(near.ooz, far.ooz),
        canvas.admits(near),
    ensures
        canvas.plotted(near).plotted(far).glyphs[canvas.cell(near).unwrap()] == near.glyph,
        canvas.plotted(near).plotted(far).depth[canvas.cell(near).unwrap()] == near.ooz,
        canvas.plotted(far).plotted(near).glyphs[canvas.cell(near).unwrap()] == near.glyph,
        canvas.plotted(far).plotted(near).depth[canvas.cell(near).unwrap()] == near.ooz,
{
    drawing_order_is_immaterial(canvas, near, far);
}

/// Of two samples at the same depth on one cell, the one drawn first stays:
/// drawing the second after it changes nothing.
pub proof fn first_sample_wins_a_tie(canvas: CanvasView, first: Sample, second: Sample)
    requires
        canvas.wf(),
        canvas.cell(first) == canvas.cell(second),
        same_number(first.ooz, second.ooz),
    ensures
        canvas.plotted(first).plotted(second) == canvas.plotted(first),
        canvas.admits(first) ==> canvas.plotted(first).plotted(second).glyphs[canvas.cell(
            first,
        ).unwrap()] == first.glyph,
{
    assert(canvas.plotted(first).plotted(second) =~= canvas.plotted(first));
}

/// A sample that falls off the canvas leaves both buffers as they were: one
/// with a negative column, one with a negative row, and one whose linear
/// index lies past the last cell.
pub proof fn off_canvas_sample_is_discarded(canvas: CanvasView, sample: Sample)
    requires
        sample.xp < 0 || sample.yp < 0 || sample.xp + sample.yp * canvas.width >= canvas.width
            * canvas.height,
    ensures
        canvas.plotted(sample) == canvas,
{
}

/// None of the samples on cell `index` is nearer than what the cell held
/// before any of them was drawn.
pub open spec fn untouched(canvas: CanvasView, samples: Seq<Sample>, index: int) -> bool {
    forall|j: int|
        0 <= j < samples.len() && canvas.cell(#[trigger] samples[j]) == Some(index) ==> !greater(
            samples[j].ooz,
            canvas.depth[index],
        )
}

/// Sample `k` falls on cell `index`, is nearer than what the cell held
/// before, strictly nearer than every comparable sample on the cell that
/// comes before it, and no sample on the cell that comes after it is
/// strictly nearer. (A sample whose depth is NaN compares with none.)
pub open spec fn owns(canvas: CanvasView, samples: Seq<Sample>, index: int, k: int) -> bool {
    &&& 0 <= k < samples.len()
    &&& canvas.cell(samples[k]) == Some(index)
    &&& greater(samples[k].ooz, canvas.depth[index])
    &&& forall|j: int|
        0 <= j < k && canvas.cell(#[trigger] samples[j]) == Some(index) ==> is_nan(samples[j].ooz)
            || greater(samples[k].ooz, samples[j].ooz)
    &&& forall|j: int|
        k < j < samples.len() && canvas.cell(#[trigger] samples[j]) == Some(index) ==> !greater(
            samples[j].ooz,
            samples[k].ooz,
        )
}

/// After a run of samples went through the depth test, every cell holds the
/// nearest of the samples that fell on it, and among equally near ones the
/// first; a cell on which no sample was nearer than its earlier content
/// still holds that content. On a blank canvas the earlier content is depth
/// zero and the background.
pub proof fn cell_shows_nearest(canvas: CanvasView, samples: Seq<Sample>, index: int)
    requires
        canvas.wf(),
        0 <= index < canvas.width * canvas.height,
    ensures
        canvas.rasterized(samples).wf(),
        canvas.rasterized(samples).width == canvas.width,
        canvas.rasterized(samples).height == canvas.height,
        canvas.rasterized(samples).background == canvas.background,
        untouched(canvas, samples, index) ==> {
            &&& canvas.rasterized(samples).depth[index] == canvas.depth[index]
            &&& canvas.rasterized(samples).glyphs[index] == canvas.glyphs[index]
        },
        forall|k: int| #[trigger]
            owns(canvas, samples, index, k) ==> {
                &&& canvas.rasterized(samples).depth[index] == samples[k].ooz
                &&& canvas.rasterized(samples).glyphs[index] == samples[k].glyph
            },
        untouched(canvas, samples, index) || exists|k: int| owns(canvas, samples, index, k),
    decreases samples.len(),
{
    if samples.len() > 0 {
        let earlier = samples.drop_last();
        let last = samples.last();
        let n = earlier.len() as int;
        let before = canvas.rasterized(earlier);
        cell_shows_nearest(canvas, earlier, index);
        assert(canvas.cell(last) == before.cell(last));
        assert forall|j: int| 0 <= j < n implies samples[j] == earlier[j] by {}
        if untouched(canvas, earlier, index) {
            if before.cell(last) == Some(index) && greater(last.ooz, canvas.depth[index]) {
                assert(owns(canvas, samples, index, n));
                assert forall|k: int| #[trigger] owns(canvas, samples, index, k) implies k == n by {
                    if k < n {
                        assert(canvas.cell(earlier[k]) == Some(index));
                    }
                }
            } else {
                assert(untouched(canvas, samples, index));
                assert forall|k: int| !#[trigger] owns(canvas, samples, index, k) by {
                    if owns(canvas, samples, index, k) && k < n {
                        assert(canvas.cell(earlier[k]) == Some(index));
                    }
                }
            }
        } else {
            let w = choose|k: int| owns(canvas, earlier, index, k);
            assert(owns(canvas, earlier, index, w));
            assert(samples[w] == earlier[w]);
            if before.cell(last) == Some(index) && greater(last.ooz, earlier[w].ooz) {
                assert forall|j: int|
                    0 <= j < n && canvas.cell(#[trigger] samples[j]) == Some(index) implies is_nan(
                    samples[j].ooz,
                ) || greater(last.ooz, samples[j].ooz) by {
                    assert(samples[j] == earlier[j]);
                }
                assert(owns(canvas, samples, index, n));
                assert forall|k: int| #[trigger] owns(canvas, samples, index, k) implies k == n by {
                    if k < n {
                        assert(canvas.cell(samples[w]) == Some(index));
                        assert(canvas.cell(samples[k]) == Some(index));
                    }
                }
            } else {
                assert(owns(canvas, samples, index, w));
                assert forall|k: int| #[trigger] owns(canvas, samples, index, k) implies k == w by {
                    assert(canvas.cell(samples[w]) == Some(index));
                    assert(canvas.cell(samples[k]) == Some(index));
                }
            }
        }
    }
}

} // verus!
