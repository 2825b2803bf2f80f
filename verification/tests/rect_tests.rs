use pong_core::rect::Rect;

#[test]
fn contains_strictly_inside() {
    let r = Rect::new(0, 0, 10, 10);
    assert!(r.contains(5, 5));
    assert!(r.contains(1, 9));
    assert!(r.contains(9, 1));
}

#[test]
fn boundary_points_are_outside() {
    let r = Rect::new(0, 0, 10, 10);
    assert!(!r.contains(0, 5));
    assert!(!r.contains(10, 5));
    assert!(!r.contains(5, 0));
    assert!(!r.contains(5, 10));
    assert!(!r.contains(0, 0));
    assert!(!r.contains(10, 10));
}

#[test]
fn points_outside_are_outside() {
    let r = Rect::new(0, 0, 10, 10);
    assert!(!r.contains(-1, 5));
    assert!(!r.contains(11, 5));
    assert!(!r.contains(5, -3));
    assert!(!r.contains(5, 13));
}

#[test]
fn degenerate_width_contains_nothing() {
    let r = Rect::new(0, 0, 0, 10);
    assert!(!r.contains(0, 5));
    assert!(!r.contains(0, 0));
    assert!(!r.contains(1, 5));
}

#[test]
fn degenerate_height_contains_nothing() {
    let r = Rect::new(0, 0, 10, 0);
    assert!(!r.contains(5, 0));
    assert!(!r.contains(5, 1));
}

#[test]
fn negative_extents_are_normalized() {
    // the rectangle from (10, 10) with extents (-10, -10) covers the
    // same area as the one from (0, 0) with extents (10, 10)
    let r = Rect::new(10, 10, -10, -10);
    assert!(r.contains(5, 5));
    assert!(!r.contains(0, 5));
    assert!(!r.contains(10, 5));
}

#[test]
fn offset_rectangle() {
    let r = Rect::new(-25, -450, 50, 900);
    assert!(r.contains(0, 0));
    assert!(r.contains(-24, 449));
    assert!(!r.contains(-25, 0));
    assert!(!r.contains(25, 0));
}
