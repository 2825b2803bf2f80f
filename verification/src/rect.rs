//! Axis-aligned rectangles and point containment.
//!
//! A rectangle is stored as a corner `(x, y)` and extents `(w, h)`;
//! its sides run from `x` to `x + w` and from `y` to `y + h`, whichever
//! of the two is smaller. Containment is strict: a point on the border
//! is outside, and a rectangle with a zero extent contains nothing.
//! Callers that track a rectangle by its center must offset by half the
//! extents before building the query rectangle.

use vstd::prelude::*;
use crate::in_coord_range;

verus! {

/// The smaller of two integers, at the specification level.
pub open spec fn spec_min(a: int, b: int) -> int {
    if a < b { a } else { b }
}

/// The larger of two integers, at the specification level.
pub open spec fn spec_max(a: int, b: int) -> int {
    if a > b { a } else { b }
}

/// An axis-aligned rectangle: corner `(x, y)`, extents `(w, h)`.
#[derive(Clone, Copy, Debug, PartialEq, Eq, Structural)]
pub struct Rect {
    pub x: i64,
    pub y: i64,
    pub w: i64,
    pub h: i64,
}

/// Smallest X coordinate covered by the rectangle.
pub open spec fn rect_min_x(r: Rect) -> int {
    spec_min(r.x as int, r.x + r.w)
}

/// Largest X coordinate covered by the rectangle.
pub open spec fn rect_max_x(r: Rect) -> int {
    spec_max(r.x as int, r.x + r.w)
}

/// Smallest Y coordinate covered by the rectangle.
pub open spec fn rect_min_y(r: Rect) -> int {
    spec_min(r.y as int, r.y + r.h)
}

/// Largest Y coordinate covered by the rectangle.
pub open spec fn rect_max_y(r: Rect) -> int {
    spec_max(r.y as int, r.y + r.h)
}

/// Strict containment: the point lies strictly between the rectangle's
/// smallest and largest coordinate on both axes.
pub open spec fn rect_contains(r: Rect, px: int, py: int) -> bool {
    &&& rect_min_x(r) < px < rect_max_x(r)
    &&& rect_min_y(r) < py < rect_max_y(r)
}

impl Rect {
    /// All four fields within the coordinate range, so that corner
    /// sums stay far from the `i64` boundaries.
    pub open spec fn wf(self) -> bool {
        &&& in_coord_range(self.x)
        &&& in_coord_range(self.y)
        &&& in_coord_range(self.w)
        &&& in_coord_range(self.h)
    }

    pub fn new(x: i64, y: i64, w: i64, h: i64) -> (r: Self)
        ensures
            r == (Rect { x, y, w, h }),
    {
        Self { x, y, w, h }
    }

    /// Whether `(x, y)` lies strictly inside the rectangle.
    ///
    /// A degenerate rectangle (`w == 0` or `h == 0`) has equal minimum
    /// and maximum on one axis, so it contains no point at all.
    pub fn contains(&self, x: i64, y: i64) -> (res: bool)
        requires
            self.wf(),
        ensures
            res == rect_contains(*self, x as int, y as int),
    {
        let min_x = min(self.x, self.x + self.w);
        let max_x = max(self.x, self.x + self.w);
        let min_y = min(self.y, self.y + self.h);
        let max_y = max(self.y, self.y + self.h);

        x > min_x && x < max_x && y > min_y && y < max_y
    }
}

fn min(a: i64, b: i64) -> (r: i64)
    ensures
        r == spec_min(a as int, b as int),
{
    if a < b { a } else { b }
}

fn max(a: i64, b: i64) -> (r: i64)
    ensures
        r == spec_max(a as int, b as int),
{
    if a > b { a } else { b }
}

/// A rectangle with a zero extent on either axis contains no point.
pub proof fn lemma_degenerate_contains_nothing(r: Rect, px: int, py: int)
    requires
        r.w == 0 || r.h == 0,
    ensures
        !rect_contains(r, px, py),
{
}

/// Containment is exactly strict membership in the open coordinate
/// intervals: inside on both axes means contained, and a point on or
/// outside either border is not contained.
pub proof fn lemma_contains_iff_strictly_inside(r: Rect, px: int, py: int)
    ensures
        rect_contains(r, px, py) <==> {
            &&& rect_min_x(r) < px && px < rect_max_x(r)
            &&& rect_min_y(r) < py && py < rect_max_y(r)
        },
{
}

} // verus!
