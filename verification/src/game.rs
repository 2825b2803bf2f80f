//! One frame of the game: input, ball, paddles, collision.
//!
//! The render loop polls the keys, hands the held pairs in, and gets
//! back the next state to draw. A tick advances the ball (reflecting
//! it off the field bounds), advances each paddle from its key pair,
//! then tests the ball's position against each paddle's rectangle and
//! negates the ball's horizontal direction once per hit — so a ball
//! inside both paddles at once keeps its direction, the two negations
//! cancelling.

use vstd::prelude::*;
use crate::Field;
use crate::ball::{Ball, ball_step};
use crate::paddle::{Paddle, paddle_step, paddle_rect};
use crate::rect::{rect_contains, rect_min_x, rect_max_x};

verus! {

/// The key state a tick consumes: whether each paddle's up and down
/// keys are held.
#[derive(Clone, Copy, Debug, PartialEq, Eq, Structural)]
pub struct TickKeys {
    pub left_up: bool,
    pub left_down: bool,
    pub right_up: bool,
    pub right_down: bool,
}

/// The whole game state: the ball, the two paddles, the field.
#[derive(Clone, Copy, Debug, PartialEq, Eq, Structural)]
pub struct Game {
    pub ball: Ball,
    pub left: Paddle,
    pub right: Paddle,
    pub field: Field,
}

/// Whether the stepped ball's position lies inside the stepped
/// paddle's rectangle — the hit that negates the ball's direction.
pub open spec fn hits(b: Ball, p: Paddle) -> bool {
    rect_contains(paddle_rect(p), b.x as int, b.y as int)
}

/// One whole frame: ball first, then both paddles, then one direction
/// negation per paddle hit.
pub open spec fn game_step(g: Game, k: TickKeys) -> Game {
    let b = ball_step(g.ball, g.field);
    let l = paddle_step(g.left, k.left_up, k.left_down);
    let r = paddle_step(g.right, k.right_up, k.right_down);
    let dx1 = if hits(b, l) { -b.dx } else { b.dx as int };
    let dx2 = if hits(b, r) { -dx1 } else { dx1 };
    Game { ball: Ball { dx: dx2 as i64, ..b }, left: l, right: r, field: g.field }
}

impl Game {
    /// Every part well-formed, and both paddles' rectangles within
    /// the field's horizontal bounds, so that a ball inside a paddle
    /// is strictly inside the field.
    pub open spec fn wf(self) -> bool {
        &&& self.field.wf()
        &&& self.ball.wf(self.field)
        &&& self.left.wf()
        &&& self.right.wf()
        &&& self.field.min_x <= rect_min_x(paddle_rect(self.left))
        &&& rect_max_x(paddle_rect(self.left)) <= self.field.max_x
        &&& self.field.min_x <= rect_min_x(paddle_rect(self.right))
        &&& rect_max_x(paddle_rect(self.right)) <= self.field.max_x
    }

    /// One frame of the game under the currently held keys.
    pub fn tick(&mut self, keys: TickKeys)
        requires
            old(self).wf(),
        ensures
            *final(self) == game_step(*old(self), keys),
            final(self).wf(),
    {
        self.ball.update(&self.field);
        self.left.update(keys.left_up, keys.left_down);
        self.right.update(keys.right_up, keys.right_down);
        let left_rect = self.left.rect();
        if left_rect.contains(self.ball.x, self.ball.y) {
            self.ball.flip_x();
        }
        let right_rect = self.right.rect();
        if right_rect.contains(self.ball.x, self.ball.y) {
            self.ball.flip_x();
        }
    }

    /// Runtime check of [`Game::wf`], for callers outside verified
    /// code.
    pub fn well_formed(&self) -> (r: bool)
        ensures
            r == self.wf(),
    {
        self.field.well_formed()
            && self.ball.well_formed(&self.field)
            && self.left.well_formed()
            && self.right.well_formed()
            && {
                let lr = self.left.rect();
                let rr = self.right.rect();
                self.field.min_x <= lr.x && lr.x + lr.w <= self.field.max_x
                    && self.field.min_x <= rr.x && rr.x + rr.w <= self.field.max_x
            }
    }
}

/// A hit on exactly one paddle negates the ball's horizontal
/// direction; hitting both paddles in the same tick (an extremely
/// tight field) leaves it unchanged, the double negation cancelling.
pub proof fn lemma_paddle_hits_negate(g: Game, k: TickKeys)
    requires
        g.wf(),
    ensures
        ({
            let b = ball_step(g.ball, g.field);
            let l = paddle_step(g.left, k.left_up, k.left_down);
            let r = paddle_step(g.right, k.right_up, k.right_down);
            &&& (hits(b, l) && !hits(b, r)) ==> game_step(g, k).ball.dx == -b.dx
            &&& (!hits(b, l) && hits(b, r)) ==> game_step(g, k).ball.dx == -b.dx
            &&& (hits(b, l) && hits(b, r)) ==> game_step(g, k).ball.dx == b.dx
            &&& (!hits(b, l) && !hits(b, r)) ==> game_step(g, k).ball.dx == b.dx
        }),
{
}

} // verus!
