use fireflies::vector::Vector2;

#[test]
fn new_sets_both_coordinates() {
    let v = Vector2::new(3, -4);
    assert_eq!(v.x, 3);
    assert_eq!(v.y, -4);
}

#[test]
fn a_point_is_within_any_radius_of_itself() {
    let p = Vector2::new(12, -9);
    assert!(p.within(&p, 0));
    assert!(p.within(&p, 5));
}

#[test]
fn nothing_is_within_a_negative_radius() {
    let p = Vector2::new(12, -9);
    assert!(!p.within(&p, -1));
    assert!(!p.within(&p, i64::MIN));
}

#[test]
fn the_distance_is_euclidean() {
    let origin = Vector2::new(0, 0);
    // a 3-4-5 triangle
    assert!(origin.within(&Vector2::new(3, 4), 5));
    assert!(!origin.within(&Vector2::new(3, 4), 4));
    assert!(Vector2::new(-3, 4).within(&origin, 5));
    // inside the square of side 2 * 5 but outside the circle
    assert!(!origin.within(&Vector2::new(4, 4), 5));
    assert!(origin.within(&Vector2::new(4, 4), 6));
}

#[test]
fn the_radius_itself_is_within() {
    let a = Vector2::new(1_000, 0);
    let b = Vector2::new(1_090, 0);
    assert!(a.within(&b, 90));
    assert!(!a.within(&b, 89));
}

#[test]
fn far_corners_do_not_overflow() {
    let low = Vector2::new(i64::MIN, i64::MIN);
    let high = Vector2::new(i64::MAX, i64::MAX);
    assert!(!low.within(&high, i64::MAX));
    assert!(low.within(&low, i64::MAX));
    let left = Vector2::new(-i64::MAX / 2, 0);
    let right = Vector2::new(i64::MAX / 2, 0);
    assert!(left.within(&right, i64::MAX));
    assert!(!left.within(&right, i64::MAX - 2));
}

#[test]
fn checked_add_sums_the_coordinates() {
    assert_eq!(
        Vector2::new(1, 2).checked_add(Vector2::new(10, -20)),
        Some(Vector2::new(11, -18))
    );
}

#[test]
fn checked_add_refuses_what_does_not_fit() {
    assert_eq!(Vector2::new(i64::MAX, 0).checked_add(Vector2::new(1, 0)), None);
    assert_eq!(Vector2::new(0, i64::MIN).checked_add(Vector2::new(0, -1)), None);
    assert_eq!(
        Vector2::new(i64::MAX, i64::MIN).checked_add(Vector2::new(0, 0)),
        Some(Vector2::new(i64::MAX, i64::MIN))
    );
}
