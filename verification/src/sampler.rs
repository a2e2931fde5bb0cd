//! The sweep over one face of the cube.
//!
//! The face lies in the plane at minus the half-width. Its sample points
//! are visited row by row: the first coordinate is held while the second
//! runs from minus the half-width up to, but not including, the half-width;
//! then the first coordinate moves on and the second starts over. The order
//! matters, because of two samples at the same depth on one cell the
//! earlier one stays.
//!
//! Coordinates are double-precision bit patterns. The sampler decides where
//! the sweep stands and when it ends; the sums that move it on are the
//! host's to compute.

use crate::ieee::{exceeds, greater, negate, negated};
use vstd::prelude::*;

verus! {

/// A point on the surface of the cube, in object space.
#[derive(Clone, Copy, Debug, PartialEq, Eq)]
pub struct SamplePoint {
    pub i: u64,
    pub j: u64,
    pub k: u64,
}

/// A position in the sweep over the face of a cube of the given half-width.
#[derive(Clone, Copy, Debug, PartialEq, Eq)]
pub struct SurfaceSampler {
    pub half_width: u64,
    pub x: u64,
    pub y: u64,
}

impl SurfaceSampler {
    /// The sweep at its first position: both coordinates at minus the
    /// half-width.
    pub open spec fn start(half_width: u64) -> SurfaceSampler {
        SurfaceSampler { half_width, x: negated(half_width), y: negated(half_width) }
    }

    /// Whether the position lies on the face: both coordinates are below
    /// the half-width.
    pub open spec fn on_face(self) -> bool {
        greater(self.half_width, self.x) && greater(self.half_width, self.y)
    }

    /// The sample point at this position; none once the sweep has left the
    /// face.
    pub open spec fn current(self) -> Option<SamplePoint> {
        if self.on_face() {
            Some(SamplePoint { i: self.x, j: self.y, k: negated(self.half_width) })
        } else {
            None
        }
    }

    /// The position that follows, given the two coordinates each moved on
    /// by the sampling step. While the second coordinate stays below the
    /// half-width the sweep goes on in its row; otherwise it moves the
    /// first coordinate on and starts the second over.
    pub open spec fn advanced(self, next_x: u64, next_y: u64) -> SurfaceSampler {
        if greater(self.half_width, next_y) {
            SurfaceSampler { y: next_y, ..self }
        } else {
            SurfaceSampler { x: next_x, y: negated(self.half_width), ..self }
        }
    }

    /// Starts the sweep over the face of a cube of the given half-width.
    pub fn new(half_width: u64) -> (sampler: SurfaceSampler)
        ensures
            sampler == SurfaceSampler::start(half_width),
    {
        let low: u64 = negate(half_width);
        SurfaceSampler { half_width, x: low, y: low }
    }

    /// The sample point at the present position, or `None` when the sweep
    /// is over.
    pub fn point(&self) -> (r: Option<SamplePoint>)
        ensures
            r == self.current(),
    {
        if exceeds(self.half_width, self.x) && exceeds(self.half_width, self.y) {
            Some(SamplePoint { i: self.x, j: self.y, k: negate(self.half_width) })
        } else {
            None
        }
    }

    /// Moves to the next position. `next_x` and `next_y` are the present
    /// coordinates, each with the sampling step added.
    pub fn advance(&mut self, next_x: u64, next_y: u64)
        ensures
            *final(self) == old(self).advanced(next_x, next_y),
    {
        if exceeds(self.half_width, next_y) {
            self.y = next_y;
        } else {
            self.x = next_x;
            self.y = negate(self.half_width);
        }
    }
}

/// The sweep has a first point exactly when the half-width is a positive
/// number: only then does minus the half-width lie below it. That point is
/// the corner of the face where both coordinates are lowest.
pub proof fn sweep_begins_on_positive_width(half_width: u64)
    ensures
        SurfaceSampler::start(half_width).on_face() == greater(half_width, 0),
        SurfaceSampler::start(half_width).on_face() ==> SurfaceSampler::start(
            half_width,
        ).current() == Some(
            SamplePoint {
                i: negated(half_width),
                j: negated(half_width),
                k: negated(half_width),
            },
        ),
{
}

/// On a face of positive half-width every row has a first point: when the
/// sweep leaves a row, it stands on the face again unless the first
/// coordinate has reached the half-width, and then the sweep is over.
pub proof fn row_starts_on_face(sampler: SurfaceSampler, next_x: u64, next_y: u64)
    requires
        greater(sampler.half_width, 0),
        !greater(sampler.half_width, next_y),
    ensures
        sampler.advanced(next_x, next_y).on_face() == greater(sampler.half_width, next_x),
        sampler.advanced(next_x, next_y).y == negated(sampler.half_width),
{
}

/// Within a row the first coordinate stays as it is, and the sweep stays on
/// the face.
pub proof fn row_keeps_first_coordinate(sampler: SurfaceSampler, next_x: u64, next_y: u64)
    requires
        sampler.on_face(),
        greater(sampler.half_width, next_y),
    ensures
        sampler.advanced(next_x, next_y).x == sampler.x,
        sampler.advanced(next_x, next_y).y == next_y,
        sampler.advanced(next_x, next_y).on_face(),
{
}

} // verus!
