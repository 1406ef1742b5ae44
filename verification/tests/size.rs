use geom2d::Size;
use geom2d::size;
use geom2d::vector;

#[test]
fn size_map_test() {
    assert!(size(1, 2).map(|x| x + 1) == size(2, 3));
}

#[test]
fn size_eq_test() {
    assert!(size(1, 2) == size(1, 2));
    assert!(size(1, 2) == Size::from((1, 2)));
    assert!(Size::from((1, 2)) == size(1, 2));
    assert!(size(1, 2) == Size::from(vector(1, 2)));
    assert!(Size::from(vector(1, 2)) == size(1, 2));
}

#[test]
fn size_add_test() {
    let a = size(1, 2);
    let b = size(6, 7);
    let c = a.add(b);
    assert!(c == size(7, 9));
    let a = size(1, 2);
    let b = vector(6, 7);
    let c = a.add(Size::from(b));
    assert!(c == size(7, 9));
    let c = a.add(Size::from((6, 7)));
    assert!(c == size(7, 9));
}

#[test]
fn size_sub_test() {
    let a = size(6, 7);
    let b = vector(1, 2);
    let c = a.sub(Size::from(b));
    assert!(c == size(5, 5));
}

#[test]
fn size_mul_test() {
    let a = size(1, 2);
    let b = a.mul(2);
    assert!(b == size(2, 4));
}

#[test]
fn size_div_test() {
    let a = size(2, 6);
    let b = a.div(2);
    assert!(b == size(1, 3));
}

#[test]
fn size_add_assign_test() {
    let mut a = size(1, 2);
    let b = size(6, 7);
    a.add_assign(b);
    assert!(a == size(7, 9));
    let mut a = size(1, 2);
    let b = vector(6, 7);
    a.add_assign(Size::from(b));
    assert!(a == size(7, 9));
    let mut a = size(1, 2);
    a.add_assign(Size::from((6, 7)));
    assert!(a == size(7, 9));
}

#[test]
fn size_sub_assign_test() {
    let mut a = size(6, 7);
    let b = vector(1, 2);
    a.sub_assign(Size::from(b));
    assert!(a == size(5, 5));
}

#[test]
fn size_mul_assign_test() {
    let mut a = size(1, 2);
    a.mul_assign(2);
    assert!(a == size(2, 4));
}

#[test]
fn size_div_assign_test() {
    let mut a = size(3, 6);
    a.div_assign(3);
    assert!(a == size(1, 2));
}

#[test]
fn size_cast_test() {
    let a: Size<i64> = Size::new(1 << 35, 2);
    assert!(a.cast().is_none());
    let b: Size<i64> = Size::new(8, 2);
    assert!(b.cast() == Some(size(8, 2)));
}
