use vstd::prelude::*;

use crate::geometry::{Point, Rect, COORD_LIMIT};

verus! {

/// Whether `p` lies in `bounds`; unknown bounds contain nothing.
pub open spec fn spec_inside(bounds: Option<Rect>, p: Point) -> bool {
    match bounds {
        Some(r) => r.spec_contains(p),
        None => false,
    }
}

/// A drop-target region, whose bounds are known once it has been measured.
#[derive(Clone, Copy, Debug, PartialEq, Eq, Structural)]
pub struct Slot {
    pub bounds: Option<Rect>,
}

impl Slot {
    /// A region not yet measured.
    pub fn new() -> (r: Slot)
        ensures
            r.bounds is None,
    {
        Slot { bounds: None }
    }

    /// Records the region's measured bounds.
    pub fn measure(&mut self, bounds: Rect)
        ensures
            final(self).bounds == Some(bounds),
    {
        self.bounds = Some(bounds);
    }

    /// Forgets the bounds, as when the region is detached.
    pub fn unmeasure(&mut self)
        ensures
            final(self).bounds is None,
    {
        self.bounds = None;
    }

    /// Whether `p` lies in the region, edges included; `false` while unmeasured.
    pub fn is_inside(&self, p: Point) -> (r: bool)
        ensures
            r == spec_inside(self.bounds, p),
    {
        match self.bounds {
            Some(rect) => rect.contains(p),
            None => false,
        }
    }

    /// Whether `p` lies outside the region; `true` while unmeasured.
    pub fn is_outside(&self, p: Point) -> (r: bool)
        ensures
            r == !spec_inside(self.bounds, p),
    {
        !self.is_inside(p)
    }
}

/// Containment boundary: of a measured region, both corners `(left, top)`
/// and `(right, bottom)` lie inside, and a point one unit beyond any edge
/// lies outside.
pub proof fn lemma_containment_boundary(r: Rect)
    requires
        r.left <= r.right,
        r.top <= r.bottom,
        -COORD_LIMIT <= r.left,
        r.right <= COORD_LIMIT,
        -COORD_LIMIT <= r.top,
        r.bottom <= COORD_LIMIT,
    ensures
        spec_inside(Some(r), Point { x: r.left, y: r.top }),
        spec_inside(Some(r), Point { x: r.right, y: r.bottom }),
        !spec_inside(Some(r), Point { x: (r.left - 1) as i64, y: r.top }),
        !spec_inside(Some(r), Point { x: (r.right + 1) as i64, y: r.bottom }),
        !spec_inside(Some(r), Point { x: r.left, y: (r.top - 1) as i64 }),
        !spec_inside(Some(r), Point { x: r.right, y: (r.bottom + 1) as i64 }),
{
}

} // verus!
