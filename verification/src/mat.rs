//! 4-by-4 matrices of exact rationals.
//!
//! The camera keeps a projection and a view matrix; the paddles push a
//! translation-only transform. All of them are small rational matrices
//! built here, handed to the rendering shell in the column-major entry
//! order that a graphics API's uniform upload expects.

use vstd::prelude::*;
use crate::rat::{Rat, Ratio, ratio_of, ratio_mul, ratio_add};

verus! {

/// The entries of `m` in column-major order: entry `4 * C + R` of the
/// sequence is row `R` of column `C`.
pub open spec fn cols_seq(m: Mat4r) -> Seq<Rat> {
    seq![
        m.m00, m.m10, m.m20, m.m30,
        m.m01, m.m11, m.m21, m.m31,
        m.m02, m.m12, m.m22, m.m32,
        m.m03, m.m13, m.m23, m.m33,
    ]
}

/// A 4x4 matrix of rationals; field `mRC` is row `R`, column `C`.
#[derive(Clone, Copy, Debug, PartialEq, Eq, Structural)]
pub struct Mat4r {
    pub m00: Rat, pub m01: Rat, pub m02: Rat, pub m03: Rat,
    pub m10: Rat, pub m11: Rat, pub m12: Rat, pub m13: Rat,
    pub m20: Rat, pub m21: Rat, pub m22: Rat, pub m23: Rat,
    pub m30: Rat, pub m31: Rat, pub m32: Rat, pub m33: Rat,
}

/// The identity matrix.
pub open spec fn identity_mat() -> Mat4r {
    Mat4r {
        m00: Rat { num: 1, den: 1 }, m01: Rat { num: 0, den: 1 },
        m02: Rat { num: 0, den: 1 }, m03: Rat { num: 0, den: 1 },
        m10: Rat { num: 0, den: 1 }, m11: Rat { num: 1, den: 1 },
        m12: Rat { num: 0, den: 1 }, m13: Rat { num: 0, den: 1 },
        m20: Rat { num: 0, den: 1 }, m21: Rat { num: 0, den: 1 },
        m22: Rat { num: 1, den: 1 }, m23: Rat { num: 0, den: 1 },
        m30: Rat { num: 0, den: 1 }, m31: Rat { num: 0, den: 1 },
        m32: Rat { num: 0, den: 1 }, m33: Rat { num: 1, den: 1 },
    }
}

/// A diagonal scale by `(sx, sy, sz)`.
pub open spec fn scale_mat(sx: i64, sy: i64, sz: i64) -> Mat4r {
    Mat4r {
        m00: Rat { num: sx, den: 1 }, m01: Rat { num: 0, den: 1 },
        m02: Rat { num: 0, den: 1 }, m03: Rat { num: 0, den: 1 },
        m10: Rat { num: 0, den: 1 }, m11: Rat { num: sy, den: 1 },
        m12: Rat { num: 0, den: 1 }, m13: Rat { num: 0, den: 1 },
        m20: Rat { num: 0, den: 1 }, m21: Rat { num: 0, den: 1 },
        m22: Rat { num: sz, den: 1 }, m23: Rat { num: 0, den: 1 },
        m30: Rat { num: 0, den: 1 }, m31: Rat { num: 0, den: 1 },
        m32: Rat { num: 0, den: 1 }, m33: Rat { num: 1, den: 1 },
    }
}

/// A translation by `(tx, ty)` in the plane: the identity with the
/// offsets in the last column.
pub open spec fn translation_mat(tx: i64, ty: i64) -> Mat4r {
    Mat4r {
        m00: Rat { num: 1, den: 1 }, m01: Rat { num: 0, den: 1 },
        m02: Rat { num: 0, den: 1 }, m03: Rat { num: tx, den: 1 },
        m10: Rat { num: 0, den: 1 }, m11: Rat { num: 1, den: 1 },
        m12: Rat { num: 0, den: 1 }, m13: Rat { num: ty, den: 1 },
        m20: Rat { num: 0, den: 1 }, m21: Rat { num: 0, den: 1 },
        m22: Rat { num: 1, den: 1 }, m23: Rat { num: 0, den: 1 },
        m30: Rat { num: 0, den: 1 }, m31: Rat { num: 0, den: 1 },
        m32: Rat { num: 0, den: 1 }, m33: Rat { num: 1, den: 1 },
    }
}

/// The orthographic projection over the symmetric volume
/// `[-w, w] x [-h, h]` with `near = 0`, `far = 1`:
/// `x` is scaled by `2 / (right - left) = 1 / w`, `y` by
/// `2 / (top - bottom) = 1 / h`, `z` by `1 / (near - far) = -1`, and
/// every translation term `-(right + left) / (right - left)`,
/// `-(top + bottom) / (top - bottom)`, `near / (near - far)` vanishes.
pub open spec fn ortho_mat(w: i64, h: i64) -> Mat4r {
    Mat4r {
        m00: Rat { num: 1, den: w }, m01: Rat { num: 0, den: 1 },
        m02: Rat { num: 0, den: 1 }, m03: Rat { num: 0, den: 1 },
        m10: Rat { num: 0, den: 1 }, m11: Rat { num: 1, den: h },
        m12: Rat { num: 0, den: 1 }, m13: Rat { num: 0, den: 1 },
        m20: Rat { num: 0, den: 1 }, m21: Rat { num: 0, den: 1 },
        m22: Rat { num: -1i64, den: 1 }, m23: Rat { num: 0, den: 1 },
        m30: Rat { num: 0, den: 1 }, m31: Rat { num: 0, den: 1 },
        m32: Rat { num: 0, den: 1 }, m33: Rat { num: 1, den: 1 },
    }
}

/// Row `R` of `m` applied to the point `(px, py, pz, 1)`:
/// `mR0 * px + mR1 * py + mR2 * pz + mR3`, as exact rationals.
pub open spec fn apply_row(c0: Rat, c1: Rat, c2: Rat, c3: Rat, px: int, py: int, pz: int) -> Ratio {
    ratio_add(
        ratio_add(
            ratio_add(
                ratio_mul(ratio_of(c0), Ratio { num: px, den: 1 }),
                ratio_mul(ratio_of(c1), Ratio { num: py, den: 1 }),
            ),
            ratio_mul(ratio_of(c2), Ratio { num: pz, den: 1 }),
        ),
        ratio_of(c3),
    )
}

/// The clip-space image of `(px, py, pz, 1)` under `m`, one rational
/// per row of the product.
pub open spec fn apply_mat(m: Mat4r, px: int, py: int, pz: int) -> (Ratio, Ratio, Ratio, Ratio) {
    (
        apply_row(m.m00, m.m01, m.m02, m.m03, px, py, pz),
        apply_row(m.m10, m.m11, m.m12, m.m13, px, py, pz),
        apply_row(m.m20, m.m21, m.m22, m.m23, px, py, pz),
        apply_row(m.m30, m.m31, m.m32, m.m33, px, py, pz),
    )
}

impl Mat4r {
    /// Every entry well-formed as a rational.
    pub open spec fn wf(self) -> bool {
        &&& self.m00.wf() && self.m01.wf() && self.m02.wf() && self.m03.wf()
        &&& self.m10.wf() && self.m11.wf() && self.m12.wf() && self.m13.wf()
        &&& self.m20.wf() && self.m21.wf() && self.m22.wf() && self.m23.wf()
        &&& self.m30.wf() && self.m31.wf() && self.m32.wf() && self.m33.wf()
    }

    pub fn identity() -> (r: Self)
        ensures
            r == identity_mat(),
            r.wf(),
    {
        Self {
            m00: Rat::whole(1), m01: Rat::whole(0), m02: Rat::whole(0), m03: Rat::whole(0),
            m10: Rat::whole(0), m11: Rat::whole(1), m12: Rat::whole(0), m13: Rat::whole(0),
            m20: Rat::whole(0), m21: Rat::whole(0), m22: Rat::whole(1), m23: Rat::whole(0),
            m30: Rat::whole(0), m31: Rat::whole(0), m32: Rat::whole(0), m33: Rat::whole(1),
        }
    }

    /// The diagonal scale by `(sx, sy, sz)`.
    pub fn scale(sx: i64, sy: i64, sz: i64) -> (r: Self)
        requires
            crate::rat::in_rat_range(sx),
            crate::rat::in_rat_range(sy),
            crate::rat::in_rat_range(sz),
        ensures
            r == scale_mat(sx, sy, sz),
            r.wf(),
    {
        Self {
            m00: Rat::whole(sx), m01: Rat::whole(0), m02: Rat::whole(0), m03: Rat::whole(0),
            m10: Rat::whole(0), m11: Rat::whole(sy), m12: Rat::whole(0), m13: Rat::whole(0),
            m20: Rat::whole(0), m21: Rat::whole(0), m22: Rat::whole(sz), m23: Rat::whole(0),
            m30: Rat::whole(0), m31: Rat::whole(0), m32: Rat::whole(0), m33: Rat::whole(1),
        }
    }

    /// The translation by `(tx, ty)`.
    pub fn translation(tx: i64, ty: i64) -> (r: Self)
        requires
            crate::rat::in_rat_range(tx),
            crate::rat::in_rat_range(ty),
        ensures
            r == translation_mat(tx, ty),
            r.wf(),
    {
        Self {
            m00: Rat::whole(1), m01: Rat::whole(0), m02: Rat::whole(0), m03: Rat::whole(tx),
            m10: Rat::whole(0), m11: Rat::whole(1), m12: Rat::whole(0), m13: Rat::whole(ty),
            m20: Rat::whole(0), m21: Rat::whole(0), m22: Rat::whole(1), m23: Rat::whole(0),
            m30: Rat::whole(0), m31: Rat::whole(0), m32: Rat::whole(0), m33: Rat::whole(1),
        }
    }

    /// The orthographic projection over `[-w, w] x [-h, h]` with
    /// `near = 0`, `far = 1`.
    pub fn ortho(w: i64, h: i64) -> (r: Self)
        requires
            1 <= w <= crate::rat::RAT_LIMIT,
            1 <= h <= crate::rat::RAT_LIMIT,
        ensures
            r == ortho_mat(w, h),
            r.wf(),
    {
        Self {
            m00: Rat::new(1, w), m01: Rat::whole(0), m02: Rat::whole(0), m03: Rat::whole(0),
            m10: Rat::whole(0), m11: Rat::new(1, h), m12: Rat::whole(0), m13: Rat::whole(0),
            m20: Rat::whole(0), m21: Rat::whole(0), m22: Rat::whole(-1), m23: Rat::whole(0),
            m30: Rat::whole(0), m31: Rat::whole(0), m32: Rat::whole(0), m33: Rat::whole(1),
        }
    }

    /// The sixteen entries in column-major order, the layout a uniform
    /// upload expects: entry `4 * C + R` is row `R` of column `C`.
    pub fn cols_array(&self) -> (r: Vec<Rat>)
        ensures
            r@ == cols_seq(*self),
    {
        let mut v: Vec<Rat> = Vec::new();
        v.push(self.m00); v.push(self.m10); v.push(self.m20); v.push(self.m30);
        v.push(self.m01); v.push(self.m11); v.push(self.m21); v.push(self.m31);
        v.push(self.m02); v.push(self.m12); v.push(self.m22); v.push(self.m32);
        v.push(self.m03); v.push(self.m13); v.push(self.m23); v.push(self.m33);
        v
    }
}

} // verus!
