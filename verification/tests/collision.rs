use pong::collision::disc_hits_box;

#[test]
fn disc_inside_the_box_hits() {
    assert!(disc_hits_box(0, 0, 5, 0, 0, 10, 10));
    assert!(disc_hits_box(9, -9, 0, 0, 0, 10, 10));
}

#[test]
fn disc_beside_the_box_hits_within_its_radius() {
    assert!(disc_hits_box(15, 0, 5, 0, 0, 10, 10));
    assert!(!disc_hits_box(16, 0, 5, 0, 0, 10, 10));
    assert!(disc_hits_box(-15, 3, 5, 0, 0, 10, 10));
    assert!(!disc_hits_box(-16, 3, 5, 0, 0, 10, 10));
    assert!(disc_hits_box(7, 15, 5, 0, 0, 10, 10));
    assert!(!disc_hits_box(7, -16, 5, 0, 0, 10, 10));
}

#[test]
fn disc_at_a_corner_hits_by_the_straight_distance() {
    assert!(disc_hits_box(13, 14, 5, 0, 0, 10, 10));
    assert!(!disc_hits_box(14, 14, 5, 0, 0, 10, 10));
    assert!(!disc_hits_box(13, 14, 4, 0, 0, 10, 10));
    assert!(disc_hits_box(-13, -14, 5, 0, 0, 10, 10));
    assert!(disc_hits_box(113, 186, 5, 100, 200, 10, 10));
    assert!(!disc_hits_box(113, 185, 5, 100, 200, 10, 10));
}

#[test]
fn point_and_line_are_boxes_too() {
    assert!(disc_hits_box(3, 4, 5, 0, 0, 0, 0));
    assert!(!disc_hits_box(3, 5, 5, 0, 0, 0, 0));
    assert!(disc_hits_box(0, 0, 0, 0, 0, 0, 0));
    assert!(!disc_hits_box(1, 0, 0, 0, 0, 0, 0));
    assert!(disc_hits_box(5, 100, 5, 0, 0, 0, 100));
}

#[test]
fn far_apart_shapes_do_not_hit() {
    assert!(!disc_hits_box(2_000_000_000, 2_000_000_000, 2_000_000, -2_000_000_000, -2_000_000_000, 0, 0));
    assert!(disc_hits_box(
        2_000_000_000,
        2_000_000_000,
        2_000_000,
        1_000_000_000,
        1_000_000_000,
        1_000_000_000,
        1_000_000_000,
    ));
}
