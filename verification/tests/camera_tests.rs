use pong_core::camera::Camera;
use pong_core::mat::Mat4r;
use pong_core::rat::Rat;

#[test]
fn resize_recomputes_projection_entries() {
    let mut c = Camera::new();
    c.resize(400, 300);
    assert_eq!(c.projection.m00, Rat::new(1, 400));
    assert_eq!(c.projection.m11, Rat::new(1, 300));
    assert_eq!(c.projection.m22, Rat::new(-1, 1));
    assert_eq!(c.projection.m33, Rat::new(1, 1));
    // every translation term vanishes for symmetric bounds
    assert_eq!(c.projection.m03, Rat::new(0, 1));
    assert_eq!(c.projection.m13, Rat::new(0, 1));
    assert_eq!(c.projection.m23, Rat::new(0, 1));
    assert_eq!(c.projection.m01, Rat::new(0, 1));
    assert_eq!(c.projection.m10, Rat::new(0, 1));
}

#[test]
fn projected_corner_reaches_unit_corner() {
    let mut c = Camera::new();
    c.resize(400, 300);
    let (x, y, z) = c.project(400, 300, 0);
    assert_eq!(x, Rat::new(400, 400));
    assert_eq!(y, Rat::new(300, 300));
    assert!(x.equals(&Rat::whole(1)));
    assert!(y.equals(&Rat::whole(1)));
    assert!(z.equals(&Rat::whole(0)));
}

#[test]
fn projection_scales_points_inside() {
    let mut c = Camera::new();
    c.resize(400, 300);
    let (x, y, _) = c.project(100, -150, 0);
    assert!(x.equals(&Rat::new(1, 4)));
    assert!(y.equals(&Rat::new(-1, 2)));
}

#[test]
fn resize_keeps_view_untouched() {
    let mut c = Camera::new();
    let v = Mat4r::scale(200, 200, 0);
    c.view(v);
    c.resize(400, 300);
    assert_eq!(c.view, v);
}

#[test]
fn view_keeps_projection_untouched() {
    let mut c = Camera::new();
    c.resize(400, 300);
    let before = c.projection;
    c.view(Mat4r::scale(200, 200, 0));
    assert_eq!(c.projection, before);
}

#[test]
fn buffer_holds_projection_then_view() {
    let mut c = Camera::new();
    c.resize(400, 300);
    c.view(Mat4r::scale(200, 200, 0));
    let entries = c.buffer_entries();
    assert_eq!(entries.len(), 32);
    assert_eq!(entries[0], c.projection.m00);
    assert_eq!(entries[5], c.projection.m11);
    assert_eq!(entries[15], c.projection.m33);
    assert_eq!(entries[16], c.view.m00);
    assert_eq!(entries[21], c.view.m11);
    assert_eq!(entries[31], c.view.m33);
}

#[test]
fn cols_array_is_column_major() {
    let m = Mat4r::translation(7, 9);
    let cols = m.cols_array();
    assert_eq!(cols.len(), 16);
    // the translation column is the fourth one
    assert_eq!(cols[12], Rat::new(7, 1));
    assert_eq!(cols[13], Rat::new(9, 1));
    assert_eq!(cols[0], Rat::new(1, 1));
    assert_eq!(cols[1], Rat::new(0, 1));
}

#[test]
fn square_fit_uses_smaller_dimension() {
    let v = pong_core::camera::square_fit_view(800, 600);
    assert_eq!(v.m00, Rat::new(600, 1));
    assert_eq!(v.m11, Rat::new(600, 1));
    assert_eq!(v.m22, Rat::new(0, 1));
    assert_eq!(v.m33, Rat::new(1, 1));
    let w = pong_core::camera::square_fit_view(300, 500);
    assert_eq!(w.m00, Rat::new(300, 1));
}

#[test]
fn ortho_matches_float_formula() {
    // the exact rational entries agree with the float orthographic
    // matrix over the same symmetric volume
    let mut c = Camera::new();
    c.resize(400, 300);
    let expected = glam::Mat4::orthographic_rh(-400.0, 400.0, -300.0, 300.0, 0.0, 1.0);
    let entries = c.projection.cols_array();
    let floats = expected.to_cols_array();
    for i in 0..16 {
        let ours = entries[i].num as f64 / entries[i].den as f64;
        assert!((ours - floats[i] as f64).abs() < 1e-6, "entry {} differs", i);
    }
}
