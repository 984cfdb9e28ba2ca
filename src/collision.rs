use vstd::prelude::*;
use crate::types::Vec2I;

verus! {

/// An axis-aligned box in display units: top-left corner and size.
#[derive(Clone, Copy, Debug, PartialEq, Eq, Structural)]
pub struct CollBox {
    pub top_left: Vec2I,
    pub size: Vec2I,
}

/// The half-open ranges `[a, a + aw)` and `[b, b + bw)` share a point.
pub open spec fn ranges_overlap(a: int, aw: int, b: int, bw: int) -> bool {
    a < b + bw && b < a + aw
}

/// Two boxes overlap when their ranges intersect on both axes. Boxes whose
/// edges only touch do not overlap.
pub open spec fn overlaps(a: CollBox, b: CollBox) -> bool {
    ranges_overlap(a.top_left.x as int, a.size.x as int, b.top_left.x as int, b.size.x as int)
        && ranges_overlap(a.top_left.y as int, a.size.y as int, b.top_left.y as int, b.size.y as int)
}

impl CollBox {
    /// The box's far edges are representable.
    pub open spec fn wf(&self) -> bool {
        self.size.x >= 0 && self.size.y >= 0
            && self.top_left.x + self.size.x <= i32::MAX
            && self.top_left.y + self.size.y <= i32::MAX
    }

    pub fn check_collision(&self, target: &CollBox) -> (r: bool)
        requires
            self.wf(),
            target.wf(),
        ensures
            r == overlaps(*self, *target),
    {
        self.top_left.x < target.top_left.x + target.size.x
            && target.top_left.x < self.top_left.x + self.size.x
            && self.top_left.y < target.top_left.y + target.size.y
            && target.top_left.y < self.top_left.y + self.size.y
    }
}

/// Overlap does not depend on which box is asked about.
pub proof fn lemma_overlap_symmetric(a: CollBox, b: CollBox)
    ensures
        overlaps(a, b) == overlaps(b, a),
{
}

/// Boxes that touch along an edge, on either axis and from either side, do not
/// overlap; boxes with a common interior point do.
pub proof fn lemma_touching_boxes_do_not_overlap(a: CollBox, b: CollBox)
    ensures
        a.top_left.x + a.size.x == b.top_left.x ==> !overlaps(a, b) && !overlaps(b, a),
        b.top_left.x + b.size.x == a.top_left.x ==> !overlaps(a, b) && !overlaps(b, a),
        a.top_left.y + a.size.y == b.top_left.y ==> !overlaps(a, b) && !overlaps(b, a),
        b.top_left.y + b.size.y == a.top_left.y ==> !overlaps(a, b) && !overlaps(b, a),
{
}

/// Outcome of testing a box against the enemies: the first enemy hit, where it
/// was, and whether the hit destroyed it.
#[derive(Clone, Copy, Debug, PartialEq, Eq, Structural)]
pub enum CollisionResult {
    NoHit,
    Hit(Vec2I, bool),
}

} // verus!
