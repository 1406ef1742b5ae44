use geom2d::Rect;
use geom2d::point;
use geom2d::rect;
use geom2d::size;
use geom2d::vector;

#[test]
fn rect_eq_test() {
    assert!(rect(point(10, 20), size(30, 40)) == rect(point(10, 20), size(30, 40)));
}

#[test]
fn from_points_test() {
    let rc = Rect::from_points(point(10, 20), point(30, 40));
    assert!(rc == rect(point(10, 20), size(20, 20)));
    assert!(rc.endpoint() == point(30, 40));
}

#[test]
fn rect_translate_test() {
    assert!(rect(point(10, 20), size(30, 40)).translate(vector(1, 2)) == rect(
        point(11, 22),
        size(30, 40)
    ));
}

#[test]
fn rect_scale_test() {
    assert!(rect(point(10, 20), size(30, 40)).scale(2, 3) == rect(point(10, 20), size(60, 120)));
}

#[test]
fn from_test() {
    let rc = Rect::from(((10, 20), (30, 40)));
    assert!(rc == rect(point(10, 20), size(30, 40)));
}

#[test]
fn from_points_orders_each_axis() {
    let rc = Rect::from_points(point(30, 20), point(10, 40));
    assert!(rc == rect(point(10, 20), size(20, 20)));
    assert!(rc.endpoint() == point(30, 40));
}

#[test]
fn rect_cast_test() {
    let a: Rect<i64> = Rect::from(((0, 0), (1 << 44, 5)));
    assert!(a.cast().is_none());
    let b: Rect<i64> = Rect::from(((-3, 0), (7, 5)));
    assert!(b.cast() == Some(rect(point(-3, 0), size(7, 5))));
}
