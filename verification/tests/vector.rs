use geom2d::Point;
use geom2d::Size;
use geom2d::Vector;
use geom2d::point;
use geom2d::size;
use geom2d::vector;

#[test]
fn vector_map_test() {
    assert!(vector(1, 2).map(|x| x * 2) == vector(2, 4));
}

#[test]
#[allow(clippy::identity_op)]
fn dot_test() {
    assert!(vector(1, 2).dot(Vector::from((3, 4))) == 1 * 3 + 2 * 4);
}

#[test]
#[allow(clippy::identity_op)]
fn cross_test() {
    assert!(vector(3, 4).cross(Vector::from((1, 2))) == 3 * 2 - 1 * 4);
}

#[test]
fn abs_pow2_test() {
    assert!(vector(2, 3).abs_pow2() == 2 * 2 + 3 * 3);
}

#[test]
fn vector_eq_test() {
    assert!(vector(1, 2) == vector(1, 2));
    assert!(vector(1, 2) == Vector::from((1, 2)));
    assert!(Vector::from((1, 2)) == vector(1, 2));
    assert!(vector(1, 2) == Vector::from(point(1, 2)));
    assert!(vector(1, 2) == Vector::from(size(1, 2)));
}

#[test]
fn vector_add_test() {
    let a = vector(1, 2);
    let b = vector(6, 7);
    let c = a.add(b);
    assert!(c == vector(7, 9));
    let c = a.add(Vector::from((6, 7)));
    assert!(c == vector(7, 9));
}

#[test]
fn vector_sub_test() {
    let a = vector(1, 2);
    let b = vector(6, 7);
    let c = b.sub(a);
    assert!(c == vector(5, 5));
    let c = b.sub(Vector::from((1, 2)));
    assert!(c == vector(5, 5));
}

#[test]
fn vector_mul_test() {
    let a = vector(1, 2);
    let b = a.mul(2);
    assert!(b == vector(2, 4));
}

#[test]
fn vector_div_test() {
    let a = vector(2, 6);
    let b = a.div(2);
    assert!(b == vector(1, 3));
}

#[test]
fn vector_add_assign_test() {
    let mut a = vector(1, 2);
    let b = vector(6, 7);
    a.add_assign(b);
    assert!(a == vector(7, 9));
    let mut a = vector(1, 2);
    a.add_assign(Vector::from((6, 7)));
    assert!(a == vector(7, 9));
}

#[test]
fn vector_sub_assign_test() {
    let mut a = vector(6, 7);
    let b = vector(1, 2);
    a.sub_assign(b);
    assert!(a == vector(5, 5));
    let mut a = vector(6, 7);
    a.sub_assign(Vector::from((1, 2)));
    assert!(a == vector(5, 5));
}

#[test]
fn vector_mul_assign_test() {
    let mut a = vector(1, 2);
    a.mul_assign(2);
    assert!(a == vector(2, 4));
}

#[test]
fn vector_div_assign_test() {
    let mut a = vector(3, 6);
    a.div_assign(3);
    assert!(a == vector(1, 2));
}

#[test]
fn vector_cast_test() {
    let a: Vector<i64> = Vector::new(1 << 40, -7);
    assert!(a.cast().is_none());
    let b: Vector<i64> = Vector::new(12, -7);
    assert!(b.cast() == Some(vector(12, -7)));
}

#[test]
fn vector_from_point_and_size_test() {
    let p: Point<i32> = point(4, 5);
    assert!(Vector::from(p) == vector(4, 5));
    let s: Size<i32> = size(6, 7);
    assert!(Vector::from(s) == vector(6, 7));
}

#[test]
fn vector_div_truncates_toward_zero() {
    let a = vector(-7, 7);
    assert!(a.div(2) == vector(-3, 3));
}
