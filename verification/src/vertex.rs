//! Interleaved vertex layouts and the quad's strip ordering.
//!
//! A layout is a sequence of per-attribute component counts — for
//! instance two position floats then four color floats. The stride of
//! one vertex is the sum of the counts, and each attribute starts at
//! the sum of the counts before it, both in float-sized units; the
//! rendering shell multiplies by the float size when it configures
//! the attribute pointers. Every count must be positive.
//!
//! A quad is drawn as a four-vertex triangle strip, so its corners
//! must be handed over in strip order: bottom-left, bottom-right,
//! top-left, top-right.

use vstd::prelude::*;
use crate::{COORD_LIMIT, in_coord_range};

verus! {

/// Every component count positive.
pub open spec fn layout_valid(s: Seq<i64>) -> bool {
    forall|i: int| 0 <= i < s.len() ==> s[i] > 0
}

/// The sum of the component counts.
pub open spec fn layout_sum(s: Seq<i64>) -> int
    decreases s.len(),
{
    if s.len() == 0 {
        0
    } else {
        layout_sum(s.drop_last()) + s.last()
    }
}

/// Prefix sums of a valid layout never exceed the whole sum and never
/// fall below zero.
pub proof fn lemma_layout_prefix_sum(s: Seq<i64>, i: int)
    requires
        layout_valid(s),
        0 <= i <= s.len(),
    ensures
        0 <= layout_sum(s.take(i)) <= layout_sum(s),
    decreases s.len() - i,
{
    if i == s.len() {
        assert(s.take(i) =~= s);
        lemma_layout_sum_nonneg(s);
    } else {
        lemma_layout_prefix_sum(s, i + 1);
        assert(s.take(i + 1).drop_last() =~= s.take(i));
        assert(layout_sum(s.take(i + 1)) == layout_sum(s.take(i)) + s[i]);
        assert(layout_valid(s.take(i)));
        lemma_layout_sum_nonneg(s.take(i));
    }
}

/// The sum of a valid layout is nonnegative.
pub proof fn lemma_layout_sum_nonneg(s: Seq<i64>)
    requires
        layout_valid(s),
    ensures
        layout_sum(s) >= 0,
    decreases s.len(),
{
    if s.len() > 0 {
        assert(layout_valid(s.drop_last()));
        lemma_layout_sum_nonneg(s.drop_last());
    }
}

/// The stride of one interleaved vertex: the sum of the layout's
/// component counts.
pub fn stride(layout: &Vec<i64>) -> (r: i64)
    requires
        layout_valid(layout@),
        layout_sum(layout@) <= COORD_LIMIT,
    ensures
        r == layout_sum(layout@),
{
    let mut acc: i64 = 0;
    let mut i: usize = 0;
    while i < layout.len()
        invariant
            0 <= i <= layout@.len(),
            layout_valid(layout@),
            layout_sum(layout@) <= COORD_LIMIT,
            acc == layout_sum(layout@.take(i as int)),
            0 <= acc,
        decreases layout@.len() - i,
    {
        proof {
            lemma_layout_prefix_sum(layout@, i + 1);
            assert(layout@.take(i + 1).drop_last() =~= layout@.take(i as int));
        }
        acc = acc + layout[i];
        i = i + 1;
    }
    proof {
        assert(layout@.take(layout@.len() as int) =~= layout@);
    }
    acc
}

/// Where each attribute starts inside one vertex: the sum of the
/// component counts before it.
pub fn offsets(layout: &Vec<i64>) -> (r: Vec<i64>)
    requires
        layout_valid(layout@),
        layout_sum(layout@) <= COORD_LIMIT,
    ensures
        r@.len() == layout@.len(),
        forall|j: int| 0 <= j < layout@.len() ==> r@[j] == layout_sum(layout@.take(j)),
{
    let mut r: Vec<i64> = Vec::new();
    let mut acc: i64 = 0;
    let mut i: usize = 0;
    while i < layout.len()
        invariant
            0 <= i <= layout@.len(),
            layout_valid(layout@),
            layout_sum(layout@) <= COORD_LIMIT,
            acc == layout_sum(layout@.take(i as int)),
            0 <= acc,
            r@.len() == i,
            forall|j: int| 0 <= j < i ==> r@[j] == layout_sum(layout@.take(j)),
        decreases layout@.len() - i,
    {
        proof {
            lemma_layout_prefix_sum(layout@, i + 1);
            assert(layout@.take(i + 1).drop_last() =~= layout@.take(i as int));
        }
        r.push(acc);
        acc = acc + layout[i];
        i = i + 1;
    }
    r
}

/// The host-side bookkeeping of one vertex buffer: the attribute
/// layout fixed at creation and the number of vertices last uploaded.
/// A re-upload replaces the count without touching the layout, and a
/// draw issues a triangle strip of exactly the last-uploaded count —
/// which is why callers hand the corners over in strip order.
pub struct VertexBuffer {
    layout: Vec<i64>,
    vertex_count: usize,
}

impl VertexBuffer {
    /// The attribute layout the buffer was configured with.
    pub closed spec fn layout_view(&self) -> Seq<i64> {
        self.layout@
    }

    /// The number of vertices last uploaded.
    pub closed spec fn count(&self) -> nat {
        self.vertex_count as nat
    }

    pub fn new(layout: Vec<i64>, vertex_count: usize) -> (r: Self)
        requires
            layout_valid(layout@),
            layout_sum(layout@) <= COORD_LIMIT,
        ensures
            r.layout_view() == layout@,
            r.count() == vertex_count,
    {
        Self { layout, vertex_count }
    }

    /// Record a re-upload of `vertex_count` vertices; the layout is
    /// not reconfigured.
    pub fn set_data(&mut self, vertex_count: usize)
        ensures
            final(self).layout_view() == old(self).layout_view(),
            final(self).count() == vertex_count,
    {
        self.vertex_count = vertex_count;
    }

    /// How many vertices a draw call issues: the last-uploaded count.
    pub fn draw_count(&self) -> (r: usize)
        ensures
            r == self.count(),
    {
        self.vertex_count
    }

    /// The stride of one vertex under this buffer's layout.
    pub fn stride(&self) -> (r: i64)
        requires
            layout_valid(self.layout_view()),
            layout_sum(self.layout_view()) <= COORD_LIMIT,
        ensures
            r == layout_sum(self.layout_view()),
    {
        stride(&self.layout)
    }
}

/// The four corners of the rectangle with corner `(x, y)` and extents
/// `(w, h)`, in the order a four-vertex triangle strip wants them:
/// bottom-left, bottom-right, top-left, top-right.
pub fn quad_strip(x: i64, y: i64, w: i64, h: i64) -> (r: Vec<(i64, i64)>)
    requires
        in_coord_range(x) && in_coord_range(y),
        in_coord_range(w) && in_coord_range(h),
    ensures
        r@ =~= seq![(x, y), ((x + w) as i64, y), (x, (y + h) as i64), ((x + w) as i64, (y + h) as i64)],
{
    let mut r: Vec<(i64, i64)> = Vec::new();
    r.push((x, y));
    r.push((x + w, y));
    r.push((x, y + h));
    r.push((x + w, y + h));
    r
}

} // verus!
