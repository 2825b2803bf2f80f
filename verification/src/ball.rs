//! The ball: a position advanced by an axial direction each tick.
//!
//! The direction components live in `{-1, 0, +1}` and are scaled by a
//! fixed per-tick speed; a reflection negates one component and never
//! recomputes an angle. Each tick the ball first moves, then negates a
//! direction component for each field boundary the new position has
//! reached — once per axis per tick at most, since the field is
//! nonempty on both axes.

use vstd::prelude::*;
use crate::{Field, COORD_LIMIT};
use crate::rat::Rat;

verus! {

/// A direction component: one of `-1`, `0`, `+1`.
pub open spec fn is_dir(d: i64) -> bool {
    d == -1 || d == 0 || d == 1
}

/// Position plus axial direction and per-tick speed.
#[derive(Clone, Copy, Debug, PartialEq, Eq, Structural)]
pub struct Ball {
    pub x: i64,
    pub y: i64,
    pub dx: i64,
    pub dy: i64,
    pub speed: i64,
}

/// Whether this tick's move reaches or passes a horizontal boundary,
/// which is what makes the tick negate `dx`.
pub open spec fn crosses_x(b: Ball, f: Field) -> bool {
    b.x + b.dx * b.speed >= f.max_x || b.x + b.dx * b.speed <= f.min_x
}

/// Whether this tick's move reaches or passes a vertical boundary,
/// which is what makes the tick negate `dy`.
pub open spec fn crosses_y(b: Ball, f: Field) -> bool {
    b.y + b.dy * b.speed >= f.max_y || b.y + b.dy * b.speed <= f.min_y
}

/// One tick of ball motion: advance by `direction * speed`, then
/// negate each direction component whose axis reached a boundary.
pub open spec fn ball_step(b: Ball, f: Field) -> Ball {
    Ball {
        x: (b.x + b.dx * b.speed) as i64,
        y: (b.y + b.dy * b.speed) as i64,
        dx: if crosses_x(b, f) { (-b.dx) as i64 } else { b.dx },
        dy: if crosses_y(b, f) { (-b.dy) as i64 } else { b.dy },
        speed: b.speed,
    }
}

impl Ball {
    /// Direction components axial, speed bounded, and the position
    /// inside the field up to one tick of overshoot; a ball beyond a
    /// boundary is already heading back (or standing still), which is
    /// what keeps the overshoot from ever growing past one tick.
    pub open spec fn wf(self, f: Field) -> bool {
        &&& f.wf()
        &&& is_dir(self.dx) && is_dir(self.dy)
        &&& 0 <= self.speed <= COORD_LIMIT
        &&& f.min_x - self.speed <= self.x <= f.max_x + self.speed
        &&& f.min_y - self.speed <= self.y <= f.max_y + self.speed
        &&& self.x > f.max_x ==> self.dx <= 0
        &&& self.x < f.min_x ==> self.dx >= 0
        &&& self.y > f.max_y ==> self.dy <= 0
        &&& self.y < f.min_y ==> self.dy >= 0
    }

    /// A ball at `(x, y)` heading up-right: direction `(1, 1)`.
    pub fn new(x: i64, y: i64, speed: i64) -> (r: Self)
        ensures
            r == (Ball { x, y, dx: 1i64, dy: 1i64, speed }),
    {
        Self { x, y, dx: 1, dy: 1, speed }
    }

    /// One tick: move by `direction * speed`, then reflect off each
    /// boundary the new position has reached.
    pub fn update(&mut self, f: &Field)
        requires
            old(self).wf(*f),
        ensures
            *final(self) == ball_step(*old(self), *f),
            final(self).wf(*f),
    {
        proof {
            broadcast use vstd::arithmetic::mul::group_mul_basics;
        }
        let step_x = if self.dx == 1 { self.speed } else if self.dx == -1 { -self.speed } else { 0 };
        let step_y = if self.dy == 1 { self.speed } else if self.dy == -1 { -self.speed } else { 0 };
        self.x = self.x + step_x;
        self.y = self.y + step_y;
        if self.x >= f.max_x || self.x <= f.min_x {
            self.dx = -self.dx;
        }
        if self.y >= f.max_y || self.y <= f.min_y {
            self.dy = -self.dy;
        }
    }

    /// Runtime check of [`Ball::wf`], for callers outside verified
    /// code.
    pub fn well_formed(&self, f: &Field) -> (r: bool)
        ensures
            r == self.wf(*f),
    {
        f.well_formed()
            && (self.dx == -1 || self.dx == 0 || self.dx == 1)
            && (self.dy == -1 || self.dy == 0 || self.dy == 1)
            && 0 <= self.speed && self.speed <= COORD_LIMIT
            && f.min_x - self.speed <= self.x && self.x <= f.max_x + self.speed
            && f.min_y - self.speed <= self.y && self.y <= f.max_y + self.speed
            && (self.x <= f.max_x || self.dx <= 0)
            && (self.x >= f.min_x || self.dx >= 0)
            && (self.y <= f.max_y || self.dy <= 0)
            && (self.y >= f.min_y || self.dy >= 0)
    }

    /// Negate the horizontal direction, as a paddle hit does.
    pub fn flip_x(&mut self)
        requires
            is_dir(old(self).dx),
        ensures
            *final(self) == (Ball { dx: (-old(self).dx) as i64, ..*old(self) }),
    {
        self.dx = -self.dx;
    }

    /// Negate the vertical direction.
    pub fn flip_y(&mut self)
        requires
            is_dir(old(self).dy),
        ensures
            *final(self) == (Ball { dy: (-old(self).dy) as i64, ..*old(self) }),
    {
        self.dy = -self.dy;
    }

    /// The position mapped from window coordinates (`[0, w] x [0, h]`,
    /// Y growing downward) to clip coordinates (`[-1, 1]` on both
    /// axes, Y growing upward): `x` maps to `2x/w - 1 = (2x - w) / w`
    /// and `y` to `-(2y/h - 1) = (h - 2y) / h`, each as an exact
    /// rational.
    pub fn map_coords(&self, w: i64, h: i64) -> (r: (Rat, Rat))
        requires
            1 <= w <= COORD_LIMIT,
            1 <= h <= COORD_LIMIT,
            0 <= self.x <= w,
            0 <= self.y <= h,
        ensures
            r.0 == (Rat { num: (2 * self.x - w) as i64, den: w }),
            r.1 == (Rat { num: (h - 2 * self.y) as i64, den: h }),
            r.0.wf() && r.1.wf(),
    {
        (Rat::new(2 * self.x - w, w), Rat::new(h - 2 * self.y, h))
    }
}

/// One tick keeps a well-formed ball well-formed: the overshoot past
/// a boundary never exceeds one tick of travel, and a ball beyond a
/// boundary is never still heading further out.
pub proof fn lemma_step_preserves_wf(b: Ball, f: Field)
    requires
        b.wf(f),
    ensures
        ball_step(b, f).wf(f),
{
    broadcast use vstd::arithmetic::mul::group_mul_basics;
    assert(b.dx == 1 ==> b.dx * b.speed == b.speed) by (nonlinear_arith);
    assert(b.dx == -1 ==> b.dx * b.speed == -b.speed) by (nonlinear_arith);
    assert(b.dy == 1 ==> b.dy * b.speed == b.speed) by (nonlinear_arith);
    assert(b.dy == -1 ==> b.dy * b.speed == -b.speed) by (nonlinear_arith);
}

/// The ball after `n` ticks against the field bounds alone.
pub open spec fn ball_run(b: Ball, f: Field, n: nat) -> Ball
    decreases n,
{
    if n == 0 {
        b
    } else {
        ball_step(ball_run(b, f, (n - 1) as nat), f)
    }
}

/// Over any run of ticks, a direction component changes only on a
/// tick that reaches a boundary of its axis, and such a tick negates
/// the component: exactly one negation per boundary crossing.
pub proof fn lemma_negation_only_at_crossings(b: Ball, f: Field, n: nat)
    requires
        b.wf(f),
    ensures
        ball_run(b, f, n).wf(f),
        ball_run(b, f, n + 1).dx != ball_run(b, f, n).dx
            ==> crosses_x(ball_run(b, f, n), f) && ball_run(b, f, n).dx != 0,
        crosses_x(ball_run(b, f, n), f)
            ==> ball_run(b, f, n + 1).dx == -ball_run(b, f, n).dx,
        ball_run(b, f, n + 1).dy != ball_run(b, f, n).dy
            ==> crosses_y(ball_run(b, f, n), f) && ball_run(b, f, n).dy != 0,
        crosses_y(ball_run(b, f, n), f)
            ==> ball_run(b, f, n + 1).dy == -ball_run(b, f, n).dy,
    decreases n,
{
    if n == 0 {
    } else {
        lemma_negation_only_at_crossings(b, f, (n - 1) as nat);
        lemma_step_preserves_wf(ball_run(b, f, (n - 1) as nat), f);
    }
    let c = ball_run(b, f, n);
    assert(ball_run(b, f, n + 1) == ball_step(c, f));
}

/// A tick negates `dx` exactly when it reaches a horizontal boundary,
/// and never for both boundaries at once; the same holds of `dy` and
/// the vertical boundaries. A component is negated at most once per
/// tick.
pub proof fn lemma_flip_iff_crossing(b: Ball, f: Field)
    requires
        b.wf(f),
    ensures
        ball_step(b, f).dx == if crosses_x(b, f) { -b.dx } else { b.dx as int },
        ball_step(b, f).dy == if crosses_y(b, f) { -b.dy } else { b.dy as int },
        !(b.x + b.dx * b.speed >= f.max_x && b.x + b.dx * b.speed <= f.min_x),
        !(b.y + b.dy * b.speed >= f.max_y && b.y + b.dy * b.speed <= f.min_y),
{
    broadcast use vstd::arithmetic::mul::group_mul_basics;
}

/// Reaching the right boundary while heading right flips the ball to
/// the left; reaching the left boundary while heading left flips it
/// back to the right. The vertical direction is untouched either way.
pub proof fn lemma_bounce_reverses_direction(b: Ball, f: Field)
    requires
        b.wf(f),
    ensures
        b.dx == 1 && b.x + b.speed >= f.max_x ==> ball_step(b, f).dx == -1,
        b.dx == -1 && b.x - b.speed <= f.min_x ==> ball_step(b, f).dx == 1,
        ball_step(b, f).dy == if crosses_y(b, f) { -b.dy } else { b.dy as int },
{
    broadcast use vstd::arithmetic::mul::group_mul_basics;
    assert(b.dx == 1 ==> b.dx * b.speed == b.speed) by (nonlinear_arith);
    assert(b.dx == -1 ==> b.dx * b.speed == -b.speed) by (nonlinear_arith);
}

/// A ball heading up-right that reaches the right boundary on this
/// tick, while staying strictly between the vertical boundaries,
/// comes out heading up-left: `dx` becomes `-1` and `dy` stays `1`.
pub proof fn lemma_right_edge_bounce(b: Ball, f: Field)
    requires
        b.wf(f),
        b.dx == 1,
        b.dy == 1,
        b.x + b.speed >= f.max_x,
        f.min_y < b.y + b.speed < f.max_y,
    ensures
        ball_step(b, f).dx == -1,
        ball_step(b, f).dy == 1,
{
    broadcast use vstd::arithmetic::mul::group_mul_basics;
    assert(b.dx == 1 ==> b.dx * b.speed == b.speed) by (nonlinear_arith);
    assert(b.dy == 1 ==> b.dy * b.speed == b.speed) by (nonlinear_arith);
}

} // verus!
