use pong_core::paddle::Paddle;
use pong_core::rect::Rect;
use pong_core::rat::Rat;

// the scenario paddle: center (0.7, -0.4), extents (0.05, 0.9) in
// thousandths, per-tick speed 40, center clamped to [-1000, 1000]
fn scenario_paddle() -> Paddle {
    Paddle::new(700, -400, 50, 900, 40, -1000, 1000)
}

#[test]
fn up_tick_moves_by_exactly_speed() {
    let mut p = scenario_paddle();
    p.update(true, false);
    assert_eq!(p.y, -360);
    assert_eq!(p.x, 700);
    assert_eq!(p.w, 50);
    assert_eq!(p.h, 900);
}

#[test]
fn stays_fixed_at_upper_bound() {
    let mut p = scenario_paddle();
    for _ in 0..200 {
        p.update(true, false);
        assert!(p.y <= 1000);
    }
    assert_eq!(p.y, 1000);
    p.update(true, false);
    assert_eq!(p.y, 1000);
}

#[test]
fn clamps_partial_step_at_bound() {
    let mut p = Paddle::new(700, 990, 50, 900, 40, -1000, 1000);
    p.update(true, false);
    assert_eq!(p.y, 1000);
}

#[test]
fn down_tick_moves_by_exactly_speed() {
    let mut p = scenario_paddle();
    p.update(false, true);
    assert_eq!(p.y, -440);
}

#[test]
fn stays_fixed_at_lower_bound() {
    let mut p = scenario_paddle();
    for _ in 0..200 {
        p.update(false, true);
        assert!(p.y >= -1000);
    }
    assert_eq!(p.y, -1000);
}

#[test]
fn both_keys_cancel_away_from_bounds() {
    let mut p = scenario_paddle();
    p.update(true, true);
    assert_eq!(p.y, -400);
}

#[test]
fn never_leaves_bounds_over_any_sequence() {
    let inputs = [
        (true, false), (true, true), (false, true), (false, false),
        (true, false), (true, false), (false, true), (true, true),
    ];
    let mut p = Paddle::new(700, -400, 50, 900, 600, -1000, 1000);
    for _ in 0..50 {
        for &(up, down) in inputs.iter() {
            p.update(up, down);
            assert!(-1000 <= p.y && p.y <= 1000);
        }
    }
}

#[test]
fn rect_is_corner_offset_from_center() {
    let p = scenario_paddle();
    assert_eq!(p.rect(), Rect::new(700 - 25, -400 - 450, 50, 900));
}

#[test]
fn transform_is_translation_by_center() {
    let p = scenario_paddle();
    let t = p.transform();
    assert_eq!(t.m03, Rat::new(700, 1));
    assert_eq!(t.m13, Rat::new(-400, 1));
    assert_eq!(t.m00, Rat::new(1, 1));
    assert_eq!(t.m11, Rat::new(1, 1));
    assert_eq!(t.m22, Rat::new(1, 1));
    assert_eq!(t.m33, Rat::new(1, 1));
    assert_eq!(t.m01, Rat::new(0, 1));
    assert_eq!(t.m23, Rat::new(0, 1));
}

#[test]
fn well_formed_scenario() {
    assert!(scenario_paddle().well_formed());
    let out_of_bounds = Paddle {
        x: 0, y: 2000, w: 50, h: 900, speed: 40, min_y: -1000, max_y: 1000,
    };
    assert!(!out_of_bounds.well_formed());
}
