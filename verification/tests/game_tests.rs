use pong_core::Field;
use pong_core::ball::Ball;
use pong_core::game::{Game, TickKeys};
use pong_core::paddle::Paddle;

fn no_keys() -> TickKeys {
    TickKeys { left_up: false, left_down: false, right_up: false, right_down: false }
}

fn standard_game() -> Game {
    let field = Field::new(-1000, 1000, -1000, 1000);
    let left = Paddle::new(-700, 0, 50, 900, 40, -500, 500);
    let right = Paddle::new(700, 0, 50, 900, 40, -500, 500);
    let ball = Ball { x: 0, y: 0, dx: 1, dy: 0, speed: 10 };
    Game { ball, left, right, field }
}

#[test]
fn paddle_hit_negates_direction_x() {
    let mut g = standard_game();
    // heading left, one tick from inside the left paddle's rectangle
    g.ball = Ball { x: -670, y: 0, dx: -1, dy: 0, speed: 10 };
    assert!(g.well_formed());
    g.tick(no_keys());
    assert_eq!(g.ball.x, -680);
    assert_eq!(g.ball.dx, 1);
    assert_eq!(g.ball.dy, 0);
}

#[test]
fn miss_leaves_direction_alone() {
    let mut g = standard_game();
    assert!(g.well_formed());
    g.tick(no_keys());
    assert_eq!(g.ball.x, 10);
    assert_eq!(g.ball.dx, 1);
}

#[test]
fn double_paddle_contact_keeps_direction() {
    // an extremely tight field: both paddles overlap the ball's
    // position after the move, so the two negations cancel and the
    // horizontal direction comes out unchanged
    let field = Field::new(-1000, 1000, -1000, 1000);
    let left = Paddle::new(-10, 0, 100, 900, 40, -500, 500);
    let right = Paddle::new(10, 0, 100, 900, 40, -500, 500);
    let ball = Ball { x: -5, y: 0, dx: 1, dy: 0, speed: 5 };
    let mut g = Game { ball, left, right, field };
    assert!(g.well_formed());
    // after the move the ball sits at x = 0, inside [-60, 40] and
    // inside [-40, 60]
    g.tick(no_keys());
    assert_eq!(g.ball.x, 0);
    assert_eq!(g.ball.dx, 1);
}

#[test]
fn tick_advances_paddles_from_keys() {
    let mut g = standard_game();
    let keys = TickKeys { left_up: true, left_down: false, right_up: false, right_down: true };
    g.tick(keys);
    assert_eq!(g.left.y, 40);
    assert_eq!(g.right.y, -40);
}

#[test]
fn tick_bounces_ball_off_field() {
    let mut g = standard_game();
    g.ball = Ball { x: 995, y: 0, dx: 1, dy: 0, speed: 10 };
    assert!(g.well_formed());
    g.tick(no_keys());
    assert_eq!(g.ball.x, 1005);
    assert_eq!(g.ball.dx, -1);
}

#[test]
fn many_ticks_stay_well_formed() {
    let mut g = standard_game();
    g.ball = Ball { x: 0, y: 0, dx: 1, dy: 1, speed: 170 };
    let keys = TickKeys { left_up: true, left_down: false, right_up: false, right_down: true };
    for _ in 0..500 {
        g.tick(keys);
        assert!(g.well_formed());
        assert!(-500 <= g.left.y && g.left.y <= 500);
        assert!(-500 <= g.right.y && g.right.y <= 500);
    }
}
