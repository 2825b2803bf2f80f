use pong_core::vertex::{stride, offsets, quad_strip, VertexBuffer};

#[test]
fn buffer_tracks_last_upload() {
    let mut vb = VertexBuffer::new(vec![2, 4], 4);
    assert_eq!(vb.draw_count(), 4);
    assert_eq!(vb.stride(), 6);
    vb.set_data(8);
    assert_eq!(vb.draw_count(), 8);
    // a re-upload leaves the layout as it was
    assert_eq!(vb.stride(), 6);
}

#[test]
fn stride_sums_component_counts() {
    // two position floats and four color floats per vertex
    assert_eq!(stride(&vec![2, 4]), 6);
    assert_eq!(stride(&vec![3]), 3);
    assert_eq!(stride(&vec![]), 0);
}

#[test]
fn offsets_are_prefix_sums() {
    assert_eq!(offsets(&vec![2, 4]), vec![0, 2]);
    assert_eq!(offsets(&vec![2, 4, 3]), vec![0, 2, 6]);
    assert_eq!(offsets(&vec![1]), vec![0]);
    assert_eq!(offsets(&vec![]), Vec::<i64>::new());
}

#[test]
fn quad_corners_in_strip_order() {
    // bottom-left, bottom-right, top-left, top-right
    let corners = quad_strip(1, 2, 10, 20);
    assert_eq!(corners, vec![(1, 2), (11, 2), (1, 22), (11, 22)]);
}

#[test]
fn quad_centered_on_origin() {
    let corners = quad_strip(-25, -450, 50, 900);
    assert_eq!(corners, vec![(-25, -450), (25, -450), (-25, 450), (25, 450)]);
}
