//! The camera: a projection and a view matrix in one buffer.
//!
//! The camera owns the pair of matrices that every shader reads from a
//! shared uniform block: the orthographic projection, recomputed from
//! the window size on every resize, and the view transform, set on its
//! own. Each write touches only its own matrix. The rendering shell
//! uploads [`Camera::buffer_entries`] — projection first, view second —
//! into the GPU buffer bound at the block's binding point.

use vstd::prelude::*;
use crate::{COORD_LIMIT, in_coord_range};
use crate::mat::{Mat4r, cols_seq, identity_mat, ortho_mat, scale_mat, apply_mat};
use crate::rat::{Rat, Ratio, ratio_of, ratio_eq, ratio_whole};

verus! {

/// The host-side value of the camera's two matrices.
pub struct Camera {
    pub width: i64,
    pub height: i64,
    pub projection: Mat4r,
    pub view: Mat4r,
}

impl Camera {
    /// The projection always matches the current half-extents, and
    /// both matrices are well-formed.
    pub open spec fn wf(self) -> bool {
        &&& 1 <= self.width <= COORD_LIMIT
        &&& 1 <= self.height <= COORD_LIMIT
        &&& self.projection == ortho_mat(self.width, self.height)
        &&& self.view.wf()
    }

    /// A fresh camera covers the unit volume until the first resize;
    /// its view transform is the identity.
    pub fn new() -> (r: Self)
        ensures
            r.wf(),
            r.width == 1 && r.height == 1,
            r.view == identity_mat(),
    {
        Self {
            width: 1,
            height: 1,
            projection: Mat4r::ortho(1, 1),
            view: Mat4r::identity(),
        }
    }

    /// Recompute the projection for a window of `w` by `h`: the new
    /// orthographic volume spans `[-w, w] x [-h, h]` with `near = 0`,
    /// `far = 1`. Only the projection changes; the view is untouched.
    pub fn resize(&mut self, w: i64, h: i64)
        requires
            old(self).wf(),
            1 <= w <= COORD_LIMIT,
            1 <= h <= COORD_LIMIT,
        ensures
            final(self).wf(),
            final(self).width == w,
            final(self).height == h,
            final(self).projection == ortho_mat(w, h),
            final(self).view == old(self).view,
    {
        self.width = w;
        self.height = h;
        self.projection = Mat4r::ortho(w, h);
    }

    /// Replace the view transform. Only the view changes; the
    /// projection and the tracked window size are untouched.
    pub fn view(&mut self, m: Mat4r)
        requires
            old(self).wf(),
            m.wf(),
        ensures
            final(self).wf(),
            final(self).view == m,
            final(self).projection == old(self).projection,
            final(self).width == old(self).width,
            final(self).height == old(self).height,
    {
        self.view = m;
    }

    /// The clip-space image of the point `(px, py, pz)` under the
    /// stored projection, one exact rational per axis.
    pub fn project(&self, px: i64, py: i64, pz: i64) -> (r: (Rat, Rat, Rat))
        requires
            self.wf(),
            in_coord_range(px),
            in_coord_range(py),
            in_coord_range(pz),
        ensures
            r.0.wf() && r.1.wf() && r.2.wf(),
            ratio_eq(ratio_of(r.0), apply_mat(self.projection, px as int, py as int, pz as int).0),
            ratio_eq(ratio_of(r.1), apply_mat(self.projection, px as int, py as int, pz as int).1),
            ratio_eq(ratio_of(r.2), apply_mat(self.projection, px as int, py as int, pz as int).2),
    {
        let x = Rat::new(px, self.width);
        let y = Rat::new(py, self.height);
        let z = Rat::new(-pz, 1);
        proof {
            broadcast use vstd::arithmetic::mul::group_mul_basics;
            let a = apply_mat(self.projection, px as int, py as int, pz as int);
            assert(a.0.num == px as int && a.0.den == self.width as int);
            assert(a.1.num == py as int && a.1.den == self.height as int);
        }
        (x, y, z)
    }

    /// The thirty-two rationals the shared uniform buffer holds, in
    /// upload order: the projection's entries at the start, the view's
    /// entries right after, both column-major.
    pub fn buffer_entries(&self) -> (r: Vec<Rat>)
        ensures
            r@.len() == 32,
            r@ == cols_seq(self.projection) + cols_seq(self.view),
    {
        let mut v = self.projection.cols_array();
        let mut w = self.view.cols_array();
        v.append(&mut w);
        proof {
            assert(v@ =~= cols_seq(self.projection) + cols_seq(self.view));
        }
        v
    }
}

/// The view transform that fits a square scene into the window: a
/// uniform scale by the smaller of the two window dimensions, flat in
/// depth. Recomputed alongside the projection when the window
/// resizes.
pub fn square_fit_view(w: i64, h: i64) -> (r: Mat4r)
    requires
        1 <= w <= COORD_LIMIT,
        1 <= h <= COORD_LIMIT,
    ensures
        r == scale_mat(if w < h { w } else { h }, if w < h { w } else { h }, 0),
        r.wf(),
{
    let s = if w < h { w } else { h };
    Mat4r::scale(s, s, 0)
}

/// Resizing to `w` by `h` sends the volume's corner `(w, h, 0)` to the
/// corner `(1, 1, 0)` of clip space, whatever the new size is.
pub proof fn lemma_corner_maps_to_unit(w: i64, h: i64)
    requires
        1 <= w <= COORD_LIMIT,
        1 <= h <= COORD_LIMIT,
    ensures
        ratio_eq(apply_mat(ortho_mat(w, h), w as int, h as int, 0).0, ratio_whole(1)),
        ratio_eq(apply_mat(ortho_mat(w, h), w as int, h as int, 0).1, ratio_whole(1)),
        ratio_eq(apply_mat(ortho_mat(w, h), w as int, h as int, 0).2, ratio_whole(0)),
{
}

} // verus!
