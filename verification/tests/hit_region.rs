use clickthrough::region::{CursorPoint, HitRegion, hit_test};

#[test]
fn initial_region_is_the_default_placeholder() {
    let r = HitRegion::initial();
    assert_eq!(r.x, 0);
    assert_eq!(r.y, 0);
    assert_eq!(r.width, 128);
    assert_eq!(r.height, 128);
}

#[test]
fn center_point_hits() {
    let r = HitRegion { x: 500, y: 500, width: 64, height: 64 };
    assert!(hit_test(CursorPoint { x: 500, y: 500 }, r));
}

#[test]
fn boundary_points_are_inside() {
    let r = HitRegion { x: 500, y: 500, width: 64, height: 64 };
    assert!(hit_test(CursorPoint { x: 532, y: 532 }, r));
    assert!(hit_test(CursorPoint { x: 468, y: 468 }, r));
    assert!(hit_test(CursorPoint { x: 532, y: 468 }, r));
    assert!(hit_test(CursorPoint { x: 468, y: 532 }, r));
}

#[test]
fn points_just_past_the_boundary_miss() {
    let r = HitRegion { x: 500, y: 500, width: 64, height: 64 };
    assert!(!hit_test(CursorPoint { x: 533, y: 500 }, r));
    assert!(!hit_test(CursorPoint { x: 467, y: 500 }, r));
    assert!(!hit_test(CursorPoint { x: 500, y: 533 }, r));
    assert!(!hit_test(CursorPoint { x: 500, y: 467 }, r));
}

#[test]
fn far_away_point_misses() {
    let r = HitRegion { x: 0, y: 0, width: 128, height: 128 };
    assert!(!hit_test(CursorPoint { x: 500, y: 500 }, r));
}

#[test]
fn odd_extent_rounds_the_half_extent_down() {
    let r = HitRegion { x: 0, y: 0, width: 3, height: 3 };
    assert!(hit_test(CursorPoint { x: 1, y: 1 }, r));
    assert!(hit_test(CursorPoint { x: -1, y: -1 }, r));
    assert!(!hit_test(CursorPoint { x: 2, y: 0 }, r));
    assert!(!hit_test(CursorPoint { x: -2, y: 0 }, r));
}

#[test]
fn zero_width_pins_the_x_coordinate() {
    let r = HitRegion { x: 10, y: 20, width: 0, height: 50 };
    assert!(hit_test(CursorPoint { x: 10, y: 20 }, r));
    assert!(hit_test(CursorPoint { x: 10, y: 45 }, r));
    assert!(!hit_test(CursorPoint { x: 11, y: 20 }, r));
    assert!(!hit_test(CursorPoint { x: 9, y: 20 }, r));
    assert!(!hit_test(CursorPoint { x: 10, y: 46 }, r));
}

#[test]
fn zero_height_pins_the_y_coordinate() {
    let r = HitRegion { x: 10, y: 20, width: 50, height: 0 };
    assert!(hit_test(CursorPoint { x: 10, y: 20 }, r));
    assert!(hit_test(CursorPoint { x: 35, y: 20 }, r));
    assert!(!hit_test(CursorPoint { x: 10, y: 21 }, r));
    assert!(!hit_test(CursorPoint { x: 10, y: 19 }, r));
}

#[test]
fn zero_sized_region_hits_only_its_center() {
    let r = HitRegion { x: 7, y: -3, width: 0, height: 0 };
    assert!(hit_test(CursorPoint { x: 7, y: -3 }, r));
    assert!(!hit_test(CursorPoint { x: 7, y: -2 }, r));
    assert!(!hit_test(CursorPoint { x: 8, y: -3 }, r));
}

#[test]
fn negative_width_never_hits() {
    let r = HitRegion { x: 0, y: 0, width: -2, height: 100 };
    assert!(!hit_test(CursorPoint { x: 0, y: 0 }, r));
    assert!(!hit_test(CursorPoint { x: -1, y: 0 }, r));
    assert!(!hit_test(CursorPoint { x: 1, y: 0 }, r));
}

#[test]
fn negative_height_never_hits() {
    let r = HitRegion { x: 0, y: 0, width: 100, height: -1 };
    assert!(!hit_test(CursorPoint { x: 0, y: 0 }, r));
}

#[test]
fn extreme_coordinates_do_not_overflow() {
    let r = HitRegion { x: i64::MAX, y: i64::MIN, width: i64::MAX, height: i64::MAX };
    assert!(hit_test(CursorPoint { x: i64::MAX, y: i64::MIN }, r));
    let far = HitRegion { x: i64::MIN, y: i64::MIN, width: 2, height: 2 };
    assert!(!hit_test(CursorPoint { x: i64::MAX, y: i64::MAX }, far));
}
