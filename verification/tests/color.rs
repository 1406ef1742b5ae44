use geom2d::Rgba;
use geom2d::rgba;

#[test]
fn color_map_test() {
    assert!(rgba(1, 2, 3, 4).map(|x| x + 1) == rgba(2, 3, 4, 5));
}

#[test]
fn color_eq_test() {
    assert!(rgba(1, 2, 3, 4) == rgba(1, 2, 3, 4));
    assert!(rgba(1, 2, 3, 4) == Rgba::from((1, 2, 3, 4)));
    assert!(Rgba::from((1, 2, 3, 4)) == rgba(1, 2, 3, 4));
}

#[test]
fn values_test() {
    assert!(Rgba::values(0x010203, 255u8) == rgba(1, 2, 3, 255));
}

#[test]
fn values_splits_each_component() {
    assert!(Rgba::values(0xffeedd, 7u8) == rgba(0xff, 0xee, 0xdd, 7));
    assert!(Rgba::values(0, 0u8) == rgba(0, 0, 0, 0));
}

#[test]
fn color_add_test() {
    let a = rgba(1, 2, 3, 4);
    let b = rgba(10, 11, 12, 13);
    let c = a.add(b);
    assert!(c == rgba(11, 13, 15, 17));
    let c = a.add(Rgba::from((10, 11, 12, 13)));
    assert!(c == rgba(11, 13, 15, 17));
}

#[test]
fn color_sub_test() {
    let a = rgba(1, 2, 3, 4);
    let b = rgba(10, 11, 12, 13);
    let c = b.sub(a);
    assert!(c == rgba(9, 9, 9, 9));
    let c = b.sub(Rgba::from((1, 2, 3, 4)));
    assert!(c == rgba(9, 9, 9, 9));
}

#[test]
fn color_mul_test() {
    let a = rgba(1, 2, 3, 4).mul(2);
    assert!(a == rgba(2, 4, 6, 8));
}

#[test]
fn color_div_test() {
    let a = rgba(2, 4, 6, 8).div(2);
    assert!(a == rgba(1, 2, 3, 4));
}

#[test]
fn color_add_assign_test() {
    let mut a = rgba(1, 2, 3, 4);
    let b = rgba(10, 11, 12, 13);
    a.add_assign(b);
    assert!(a == rgba(11, 13, 15, 17));
    let mut a = rgba(1, 2, 3, 4);
    a.add_assign(Rgba::from((10, 11, 12, 13)));
    assert!(a == rgba(11, 13, 15, 17));
}

#[test]
fn color_sub_assign_test() {
    let mut a = rgba(10, 11, 12, 13);
    let b = rgba(1, 2, 3, 4);
    a.sub_assign(b);
    assert!(a == rgba(9, 9, 9, 9));
    let mut a = rgba(10, 11, 12, 13);
    a.sub_assign(Rgba::from((1, 2, 3, 4)));
    assert!(a == rgba(9, 9, 9, 9));
}

#[test]
fn color_mul_assign_test() {
    let mut a = rgba(1, 2, 3, 4);
    a.mul_assign(2);
    assert!(a == rgba(2, 4, 6, 8));
}

#[test]
fn color_div_assign_test() {
    let mut a = rgba(2, 4, 6, 8);
    a.div_assign(2);
    assert!(a == rgba(1, 2, 3, 4));
}

#[test]
fn color_cast_test() {
    let a: Rgba<i64> = Rgba::new(1, 2, 3, 1 << 37);
    assert!(a.cast().is_none());
    let b: Rgba<i64> = Rgba::new(1, 2, 3, 4);
    assert!(b.cast() == Some(rgba(1, 2, 3, 4)));
}

#[test]
fn color_div_truncates_toward_zero() {
    let a = rgba(-9, 9, -1, 1).div(2);
    assert!(a == rgba(-4, 4, 0, 0));
}
