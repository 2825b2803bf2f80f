//! Verified core of a paddle-and-ball game.
//!
//! The modules here hold the game's logic — rectangle containment,
//! paddle movement, ball reflection, the per-frame step, and the
//! camera's orthographic projection — over exact integer and rational
//! coordinates. Rendering, windowing and input polling are left to a
//! thin unverified shell that feeds this library plain values.

pub mod ball;
pub mod camera;
pub mod game;
pub mod input;
pub mod mat;
pub mod paddle;
pub mod rat;
pub mod rect;
pub mod shader;
pub mod vertex;

use vstd::prelude::*;

verus! {

/// Greatest magnitude a game coordinate may take (2^29).
///
/// Keeping every coordinate, extent and speed within this range lets
/// sums and doublings of two coordinates stay well inside `i64`.
pub const COORD_LIMIT: i64 = 536870912;

/// A value usable as a coordinate, extent or speed.
pub open spec fn in_coord_range(v: i64) -> bool {
    -COORD_LIMIT <= v <= COORD_LIMIT
}

/// A value usable as a center coordinate or extent of a paddle: half
/// the coordinate range, so that offsetting a center by half an
/// extent stays a valid coordinate.
pub open spec fn in_center_range(v: i64) -> bool {
    -COORD_LIMIT / 2 <= v <= COORD_LIMIT / 2
}

/// The play field: the axis-aligned bounds the ball reflects off.
///
/// An explicit value threaded through the update steps, in place of
/// process-wide mutable window-size state.
#[derive(Clone, Copy, Debug, PartialEq, Eq, Structural)]
pub struct Field {
    pub min_x: i64,
    pub max_x: i64,
    pub min_y: i64,
    pub max_y: i64,
}

impl Field {
    /// Bounds in range and nonempty on both axes.
    pub open spec fn wf(self) -> bool {
        &&& in_coord_range(self.min_x) && in_coord_range(self.max_x)
        &&& in_coord_range(self.min_y) && in_coord_range(self.max_y)
        &&& self.min_x < self.max_x
        &&& self.min_y < self.max_y
    }

    pub fn new(min_x: i64, max_x: i64, min_y: i64, max_y: i64) -> (r: Self)
        ensures
            r == (Field { min_x, max_x, min_y, max_y }),
    {
        Self { min_x, max_x, min_y, max_y }
    }

    /// Runtime check of [`Field::wf`], for callers outside verified
    /// code.
    pub fn well_formed(&self) -> (r: bool)
        ensures
            r == self.wf(),
    {
        -COORD_LIMIT <= self.min_x && self.min_x <= COORD_LIMIT
            && -COORD_LIMIT <= self.max_x && self.max_x <= COORD_LIMIT
            && -COORD_LIMIT <= self.min_y && self.min_y <= COORD_LIMIT
            && -COORD_LIMIT <= self.max_y && self.max_y <= COORD_LIMIT
            && self.min_x < self.max_x && self.min_y < self.max_y
    }
}

} // verus!
