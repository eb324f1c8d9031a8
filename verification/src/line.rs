//! Line segments over an arena of points: a segment stores two indices into
//! a shared point list, so several segments can share an endpoint without
//! shared ownership.

use vstd::prelude::*;

use crate::xy::Xy;

verus! {

/// A line segment: two indices into a point arena.
#[derive(Clone, Copy, Debug)]
pub struct Line {
    pub index1: usize,
    pub index2: usize,
}

impl Line {
    /// Both endpoints lie inside the arena.
    pub open spec fn wf(self, points: Seq<Xy>) -> bool {
        self.index1 < points.len() && self.index2 < points.len()
    }

    pub fn from_points(points: &Vec<Xy>, index1: usize, index2: usize) -> (r: Line)
        requires
            index1 < points@.len(),
            index2 < points@.len(),
        ensures
            r.index1 == index1,
            r.index2 == index2,
            r.wf(points@),
    {
        Line { index1, index2 }
    }

    /// The two endpoints of this segment, read from the arena; a caller
    /// draws the segment between them.
    pub fn endpoints(&self, points: &Vec<Xy>) -> (r: (Xy, Xy))
        requires
            self.wf(points@),
        ensures
            r.0 == points@[self.index1 as int],
            r.1 == points@[self.index2 as int],
    {
        (points[self.index1], points[self.index2])
    }
}

} // verus!
