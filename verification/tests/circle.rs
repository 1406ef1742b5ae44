use geom2d::Circle;
use geom2d::circle;
use geom2d::point;
use geom2d::vector;

#[test]
fn circle_eq_test() {
    assert!(circle(point(10, 20), 3) == circle(point(10, 20), 3));
}

#[test]
fn circle_translate_test() {
    assert!(circle(point(10, 20), 3).translate(vector(1, 2)) == circle(point(11, 22), 3));
}

#[test]
fn circle_scale_test() {
    assert!(circle(point(10, 20), 3).scale(2) == circle(point(10, 20), 6));
}

#[test]
fn circle_cast_test() {
    let a: Circle<i64> = Circle::new(point(1, 2), 1 << 38);
    assert!(a.cast().is_none());
    let b: Circle<i64> = Circle::new(point(1, 2), 9);
    assert!(b.cast() == Some(circle(point(1, 2), 9)));
}
