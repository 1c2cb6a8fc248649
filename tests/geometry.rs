use asteroids::geometry::{
    cos_of, isqrt, normalize, scale_exec, sin_of, step_along, turn_point, Rect, Vector2, COORD_LIMIT,
    FULL_TURN, HALF_TURN, QUARTER_TURN, TRIG_SCALE, UNITS_PER_DEGREE,
};

#[test]
fn sine_at_cardinal_angles() {
    assert_eq!(sin_of(0), 0);
    assert_eq!(sin_of(QUARTER_TURN), TRIG_SCALE);
    assert_eq!(sin_of(HALF_TURN), 0);
    assert_eq!(sin_of(3 * QUARTER_TURN), -TRIG_SCALE);
    assert_eq!(cos_of(0), TRIG_SCALE);
    assert_eq!(cos_of(HALF_TURN), -TRIG_SCALE);
}

#[test]
fn sine_of_thirty_degrees_is_one_half() {
    assert_eq!(sin_of(30 * UNITS_PER_DEGREE), 500000);
    assert_eq!(sin_of(150 * UNITS_PER_DEGREE), 500000);
    assert_eq!(sin_of(-30 * UNITS_PER_DEGREE), -500000);
    assert_eq!(cos_of(60 * UNITS_PER_DEGREE), 500000);
}

#[test]
fn normalize_wraps_both_ways() {
    assert_eq!(normalize(0), 0);
    assert_eq!(normalize(FULL_TURN), 0);
    assert_eq!(normalize(-1), FULL_TURN - 1);
    assert_eq!(normalize(FULL_TURN + 5), 5);
    assert_eq!(normalize(-3 * FULL_TURN - 7), FULL_TURN - 7);
}

#[test]
fn scale_rounds_toward_zero() {
    assert_eq!(scale_exec(3, 500000), 1);
    assert_eq!(scale_exec(3, -500000), -1);
    assert_eq!(scale_exec(6000, TRIG_SCALE), 6000);
}

#[test]
fn step_along_headings() {
    assert_eq!(step_along(0, 6000), Vector2::new(0, -6000));
    assert_eq!(step_along(QUARTER_TURN, 6000), Vector2::new(6000, 0));
    assert_eq!(step_along(HALF_TURN, 9000), Vector2::new(0, 9000));
    assert_eq!(step_along(3 * QUARTER_TURN, 9000), Vector2::new(-9000, 0));
}

#[test]
fn integer_square_root() {
    assert_eq!(isqrt(0), 0);
    assert_eq!(isqrt(10), 3);
    assert_eq!(isqrt(16), 4);
    assert_eq!(isqrt(250000000000), 500000);
    assert_eq!(isqrt(1000000000000000000), 1000000000);
}

#[test]
fn translate_saturates_at_the_limit() {
    let p = Vector2::new(COORD_LIMIT - 1, -COORD_LIMIT + 1);
    let q = p.translate(Vector2::new(5, -5));
    assert_eq!(q, Vector2::new(COORD_LIMIT, -COORD_LIMIT));
    assert_eq!(Vector2::new(1, 2).translate(Vector2::new(3, -4)), Vector2::new(4, -2));
}

#[test]
fn rect_contains_is_half_open() {
    let r = Rect { left: 0, top: 0, width: 10, height: 10 };
    assert!(r.contains(Vector2::new(0, 0)));
    assert!(r.contains(Vector2::new(9, 9)));
    assert!(!r.contains(Vector2::new(10, 5)));
    assert!(!r.contains(Vector2::new(5, 10)));
    assert!(!r.contains(Vector2::new(-1, 5)));
}

#[test]
fn rect_intersects_needs_positive_area() {
    let a = Rect { left: 0, top: 0, width: 10, height: 10 };
    let b = Rect { left: 5, top: 5, width: 10, height: 10 };
    let touching = Rect { left: 10, top: 0, width: 10, height: 10 };
    assert!(a.intersects(&b));
    assert!(b.intersects(&a));
    assert!(!a.intersects(&touching));
}

#[test]
fn zero_size_rectangles_overlap_nothing() {
    let big = Rect { left: 50000, top: 50000, width: 100000, height: 100000 };
    let flat = Rect { left: 100000, top: 100000, width: 0, height: 10000 };
    let thin = Rect { left: 100000, top: 100000, width: 10000, height: 0 };
    assert!(!big.intersects(&flat));
    assert!(!flat.intersects(&big));
    assert!(!big.intersects(&thin));
    assert!(big.intersects(&Rect { left: 100000, top: 100000, width: 1, height: 1 }));
}

#[test]
fn turn_point_by_quarter_turns() {
    assert_eq!(turn_point(10, 20, 0), Vector2::new(10, 20));
    assert_eq!(turn_point(10, 20, QUARTER_TURN), Vector2::new(-20, 10));
    assert_eq!(turn_point(10, 20, HALF_TURN), Vector2::new(-10, -20));
}
