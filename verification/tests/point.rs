use geom2d::Point;
use geom2d::Size;
use geom2d::point;
use geom2d::size;
use geom2d::vector;

#[test]
fn point_map_test() {
    assert!(point(1, 2).map(|x| x + 1) == point(2, 3));
}

#[test]
fn point_eq_test() {
    assert!(point(1, 2) == point(1, 2));
    assert!(point(1, 2) == Point::from((1, 2)));
    assert!(Point::from((1, 2)) == point(1, 2));
    assert!(point(1, 2) == Point::from(vector(1, 2)));
    assert!(Point::from(vector(1, 2)) == point(1, 2));
}

#[test]
fn point_add_test() {
    let a = point(1, 2);
    let b = point(6, 7);
    let c = a.add(b);
    assert!(c == point(7, 9));
    let a = point(1, 2);
    let b = size(6, 7);
    let c = a.add_size(b);
    assert!(c == point(7, 9));
    let a = point(1, 2);
    let b = vector(6, 7);
    let c = a.add_size(Size::from(b));
    assert!(c == point(7, 9));
    let c = a.add_size(Size::from((6, 7)));
    assert!(c == point(7, 9));
}

#[test]
fn point_sub_test() {
    let a = point(1, 2);
    let b = point(6, 7);
    let c = b.sub(a);
    assert!(c == vector(5, 5));
    let a = point(6, 7);
    let b = vector(1, 2);
    let c = a.sub_vector(b);
    assert!(c == point(5, 5));
}

#[test]
fn point_mul_test() {
    let a = point(1, 2);
    let b = a.mul(2);
    assert!(b == point(2, 4));
}

#[test]
fn point_div_test() {
    let a = point(2, 6);
    let b = a.div(2);
    assert!(b == point(1, 3));
}

#[test]
fn point_add_assign_test() {
    let mut a = point(1, 2);
    let b = size(6, 7);
    a.add_assign(b);
    assert!(a == point(7, 9));
    let mut a = point(1, 2);
    let b = vector(6, 7);
    a.add_assign(Size::from(b));
    assert!(a == point(7, 9));
    let mut a = point(1, 2);
    a.add_assign(Size::from((6, 7)));
    assert!(a == point(7, 9));
}

#[test]
fn point_sub_assign_test() {
    let mut a = point(6, 7);
    let b = vector(1, 2);
    a.sub_assign(b);
    assert!(a == point(5, 5));
}

#[test]
fn point_mul_assign_test() {
    let mut a = point(1, 2);
    a.mul_assign(2);
    assert!(a == point(2, 4));
}

#[test]
fn point_div_assign_test() {
    let mut a = point(3, 6);
    a.div_assign(3);
    assert!(a == point(1, 2));
}

#[test]
fn point_cast_test() {
    let a: Point<i64> = Point::new(3, -(1 << 33));
    assert!(a.cast().is_none());
    let b: Point<i64> = Point::new(3, -4);
    assert!(b.cast() == Some(point(3, -4)));
}

#[test]
fn point_cast_at_range_edges() {
    let a: Point<i64> = Point::new(i32::MAX as i64, i32::MIN as i64);
    assert!(a.cast() == Some(point(i32::MAX, i32::MIN)));
    let b: Point<i64> = Point::new(i32::MAX as i64 + 1, 0);
    assert!(b.cast().is_none());
    let c: Point<i64> = Point::new(0, i32::MIN as i64 - 1);
    assert!(c.cast().is_none());
}
