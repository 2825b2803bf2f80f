//! The paddle: a player-driven quad clamped to the play field.
//!
//! A paddle's authoritative state is its center, its extents, a fixed
//! per-tick speed and the vertical bounds its center may reach. Each
//! tick it reads the current key state — no edge triggering — and
//! moves up, then down, clamping at the bound it would pass; holding
//! both keys processes up first and then down, so the net motion of
//! such a tick is zero away from the bounds. Collision response does
//! not live here: the paddle only exposes its rectangle, corner-offset
//! from the center, for the ball to query.

use vstd::prelude::*;
use crate::{in_center_range, COORD_LIMIT};
use crate::mat::{Mat4r, translation_mat};
use crate::rect::{Rect, spec_min, spec_max};

verus! {

/// Center position, extents, per-tick speed, and the bounds the
/// center's Y coordinate is clamped to.
#[derive(Clone, Copy, Debug, PartialEq, Eq, Structural)]
pub struct Paddle {
    pub x: i64,
    pub y: i64,
    pub w: i64,
    pub h: i64,
    pub speed: i64,
    pub min_y: i64,
    pub max_y: i64,
}

/// One tick of paddle movement under the current key state: up first,
/// then down, each clamped at its field bound.
pub open spec fn paddle_step(p: Paddle, up: bool, down: bool) -> Paddle {
    let y_up = if up && p.y < p.max_y {
        spec_min(p.y + p.speed, p.max_y as int)
    } else {
        p.y as int
    };
    let y_down = if down && y_up > p.min_y {
        spec_max(y_up - p.speed, p.min_y as int)
    } else {
        y_up
    };
    Paddle { y: y_down as i64, ..p }
}

/// The paddle's rectangle: the center offset by half the extents to
/// the corner, as the containment primitive expects.
pub open spec fn paddle_rect(p: Paddle) -> Rect {
    Rect { x: (p.x - p.w / 2) as i64, y: (p.y - p.h / 2) as i64, w: p.w, h: p.h }
}

impl Paddle {
    /// Fields in range, extents and speed nonnegative, and the center
    /// between its bounds.
    pub open spec fn wf(self) -> bool {
        &&& in_center_range(self.x) && in_center_range(self.y)
        &&& 0 <= self.w && in_center_range(self.w)
        &&& 0 <= self.h && in_center_range(self.h)
        &&& 0 <= self.speed <= COORD_LIMIT
        &&& in_center_range(self.min_y) && in_center_range(self.max_y)
        &&& self.min_y <= self.y <= self.max_y
    }

    pub fn new(x: i64, y: i64, w: i64, h: i64, speed: i64, min_y: i64, max_y: i64) -> (r: Self)
        requires
            in_center_range(x) && in_center_range(y),
            0 <= w && in_center_range(w),
            0 <= h && in_center_range(h),
            0 <= speed <= COORD_LIMIT,
            in_center_range(min_y) && in_center_range(max_y),
            min_y <= y <= max_y,
        ensures
            r == (Paddle { x, y, w, h, speed, min_y, max_y }),
            r.wf(),
    {
        Self { x, y, w, h, speed, min_y, max_y }
    }

    /// One tick: move by the per-tick speed for each held key, up
    /// processed before down, clamped to the vertical bounds. Only the
    /// center's Y coordinate changes.
    pub fn update(&mut self, up: bool, down: bool)
        requires
            old(self).wf(),
        ensures
            *final(self) == paddle_step(*old(self), up, down),
            final(self).wf(),
    {
        if up && self.y < self.max_y {
            let moved = self.y + self.speed;
            self.y = if moved > self.max_y { self.max_y } else { moved };
        }
        if down && self.y > self.min_y {
            let moved = self.y - self.speed;
            self.y = if moved < self.min_y { self.min_y } else { moved };
        }
    }

    /// The rectangle to test the ball against, offset from the center
    /// by half the extents.
    pub fn rect(&self) -> (r: Rect)
        requires
            self.wf(),
        ensures
            r == paddle_rect(*self),
            r.wf(),
    {
        Rect { x: self.x - self.w / 2, y: self.y - self.h / 2, w: self.w, h: self.h }
    }

    /// The translation-only transform to push to the shader after a
    /// tick: the identity carrying the center into its last column.
    pub fn transform(&self) -> (r: Mat4r)
        requires
            self.wf(),
        ensures
            r == translation_mat(self.x, self.y),
            r.wf(),
    {
        Mat4r::translation(self.x, self.y)
    }

    /// Runtime check of [`Paddle::wf`], for callers outside verified
    /// code.
    pub fn well_formed(&self) -> (r: bool)
        ensures
            r == self.wf(),
    {
        let half = COORD_LIMIT / 2;
        -half <= self.x && self.x <= half && -half <= self.y && self.y <= half
            && 0 <= self.w && self.w <= half && 0 <= self.h && self.h <= half
            && 0 <= self.speed && self.speed <= COORD_LIMIT
            && -half <= self.min_y && self.min_y <= half
            && -half <= self.max_y && self.max_y <= half
            && self.min_y <= self.y && self.y <= self.max_y
    }
}

/// The paddle after a whole run of ticks, one key-state pair per tick.
pub open spec fn paddle_run(p: Paddle, inputs: Seq<(bool, bool)>) -> Paddle
    decreases inputs.len(),
{
    if inputs.len() == 0 {
        p
    } else {
        paddle_run(paddle_step(p, inputs[0].0, inputs[0].1), inputs.drop_first())
    }
}

/// A single tick keeps the center between its bounds and touches
/// nothing but the center's Y coordinate.
pub proof fn lemma_step_stays_in_field(p: Paddle, up: bool, down: bool)
    requires
        p.wf(),
    ensures
        paddle_step(p, up, down).wf(),
        paddle_step(p, up, down).min_y <= paddle_step(p, up, down).y <= paddle_step(p, up, down).max_y,
        paddle_step(p, up, down) == (Paddle { y: paddle_step(p, up, down).y, ..p }),
{
}

/// However many ticks run and whatever keys are held on each, the
/// paddle's center never leaves the vertical field bounds.
pub proof fn lemma_run_stays_in_field(p: Paddle, inputs: Seq<(bool, bool)>)
    requires
        p.wf(),
    ensures
        paddle_run(p, inputs).wf(),
        p.min_y <= paddle_run(p, inputs).y <= p.max_y,
        paddle_run(p, inputs) == (Paddle { y: paddle_run(p, inputs).y, ..p }),
    decreases inputs.len(),
{
    if inputs.len() == 0 {
    } else {
        lemma_step_stays_in_field(p, inputs[0].0, inputs[0].1);
        lemma_run_stays_in_field(paddle_step(p, inputs[0].0, inputs[0].1), inputs.drop_first());
    }
}

/// With the up key held and room to move, one tick raises the center
/// by exactly the per-tick speed; at the upper bound the center stays
/// fixed however long the key is held.
pub proof fn lemma_up_tick(p: Paddle, down: bool)
    requires
        p.wf(),
        !down,
    ensures
        p.y + p.speed <= p.max_y ==> paddle_step(p, true, down).y == p.y + p.speed,
        p.y == p.max_y ==> paddle_step(p, true, down).y == p.y,
{
}

} // verus!
