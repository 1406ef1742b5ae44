use vstd::prelude::*;

use crate::point::Point;
use crate::size::Size;

verus! {

/// A difference between two points: a displacement in the plane.
#[derive(Clone, Copy, PartialEq, Eq, Structural, Debug)]
pub struct Vector<T> {
    pub x: T,
    pub y: T,
}

impl<T> Vector<T> {
    pub fn new(x: T, y: T) -> (r: Self)
        ensures
            r.x == x,
            r.y == y,
    {
        Vector { x, y }
    }

    pub fn map<R, F: Fn(T) -> R>(self, f: F) -> (r: Vector<R>)
        requires
            call_requires(f, (self.x,)),
            call_requires(f, (self.y,)),
        ensures
            call_ensures(f, (self.x,), r.x),
            call_ensures(f, (self.y,), r.y),
    {
        let x = f(self.x);
        let y = f(self.y);
        Vector { x, y }
    }
}

impl<T> From<Point<T>> for Vector<T> {
    fn from(src: Point<T>) -> Vector<T> {
        Vector { x: src.x, y: src.y }
    }
}

impl<T> vstd::std_specs::convert::FromSpecImpl<Point<T>> for Vector<T> {
    open spec fn obeys_from_spec() -> bool {
        true
    }

    open spec fn from_spec(v: Point<T>) -> Vector<T> {
        Vector { x: v.x, y: v.y }
    }
}

impl<T> From<Size<T>> for Vector<T> {
    fn from(src: Size<T>) -> Vector<T> {
        Vector { x: src.width, y: src.height }
    }
}

impl<T> vstd::std_specs::convert::FromSpecImpl<Size<T>> for Vector<T> {
    open spec fn obeys_from_spec() -> bool {
        true
    }

    open spec fn from_spec(v: Size<T>) -> Vector<T> {
        Vector { x: v.width, y: v.height }
    }
}

impl<T> From<(T, T)> for Vector<T> {
    fn from(src: (T, T)) -> Vector<T> {
        Vector { x: src.0, y: src.1 }
    }
}

impl<T> vstd::std_specs::convert::FromSpecImpl<(T, T)> for Vector<T> {
    open spec fn obeys_from_spec() -> bool {
        true
    }

    open spec fn from_spec(v: (T, T)) -> Vector<T> {
        Vector { x: v.0, y: v.1 }
    }
}

impl Vector<i32> {
    pub fn dot(self, rhs: Vector<i32>) -> (r: i32)
        requires
            i32::MIN <= self.x * rhs.x <= i32::MAX,
            i32::MIN <= self.y * rhs.y <= i32::MAX,
            i32::MIN <= self.x * rhs.x + self.y * rhs.y <= i32::MAX,
        ensures
            r == self.x * rhs.x + self.y * rhs.y,
    {
        self.x * rhs.x + self.y * rhs.y
    }

    pub fn cross(self, rhs: Vector<i32>) -> (r: i32)
        requires
            i32::MIN <= self.x * rhs.y <= i32::MAX,
            i32::MIN <= self.y * rhs.x <= i32::MAX,
            i32::MIN <= self.x * rhs.y - self.y * rhs.x <= i32::MAX,
        ensures
            r == self.x * rhs.y - self.y * rhs.x,
    {
        self.x * rhs.y - self.y * rhs.x
    }

    pub fn abs_pow2(self) -> (r: i32)
        requires
            i32::MIN <= self.x * self.x <= i32::MAX,
            i32::MIN <= self.y * self.y <= i32::MAX,
            i32::MIN <= self.x * self.x + self.y * self.y <= i32::MAX,
        ensures
            r == self.x * self.x + self.y * self.y,
    {
        self.x * self.x + self.y * self.y
    }

    pub fn add(self, rhs: Vector<i32>) -> (r: Vector<i32>)
        requires
            i32::MIN <= self.x + rhs.x <= i32::MAX,
            i32::MIN <= self.y + rhs.y <= i32::MAX,
        ensures
            r.x == self.x + rhs.x,
            r.y == self.y + rhs.y,
    {
        Vector { x: self.x + rhs.x, y: self.y + rhs.y }
    }

    pub fn sub(self, rhs: Vector<i32>) -> (r: Vector<i32>)
        requires
            i32::MIN <= self.x - rhs.x <= i32::MAX,
            i32::MIN <= self.y - rhs.y <= i32::MAX,
        ensures
            r.x == self.x - rhs.x,
            r.y == self.y - rhs.y,
    {
        Vector { x: self.x - rhs.x, y: self.y - rhs.y }
    }

    pub fn mul(self, rhs: i32) -> (r: Vector<i32>)
        requires
            i32::MIN <= self.x * rhs <= i32::MAX,
            i32::MIN <= self.y * rhs <= i32::MAX,
        ensures
            r.x == self.x * rhs,
            r.y == self.y * rhs,
    {
        Vector { x: self.x * rhs, y: self.y * rhs }
    }

    pub fn div(self, rhs: i32) -> (r: Vector<i32>)
        requires
            rhs > 0,
        ensures
            r.x == crate::scalar::div_trunc(self.x as int, rhs as int),
            r.y == crate::scalar::div_trunc(self.y as int, rhs as int),
    {
        Vector { x: self.x / rhs, y: self.y / rhs }
    }

    pub fn add_assign(&mut self, rhs: Vector<i32>)
        requires
            i32::MIN <= old(self).x + rhs.x <= i32::MAX,
            i32::MIN <= old(self).y + rhs.y <= i32::MAX,
        ensures
            final(self).x == old(self).x + rhs.x,
            final(self).y == old(self).y + rhs.y,
    {
        self.x = self.x + rhs.x;
        self.y = self.y + rhs.y;
    }

    pub fn sub_assign(&mut self, rhs: Vector<i32>)
        requires
            i32::MIN <= old(self).x - rhs.x <= i32::MAX,
            i32::MIN <= old(self).y - rhs.y <= i32::MAX,
        ensures
            final(self).x == old(self).x - rhs.x,
            final(self).y == old(self).y - rhs.y,
    {
        self.x = self.x - rhs.x;
        self.y = self.y - rhs.y;
    }

    pub fn mul_assign(&mut self, rhs: i32)
        requires
            i32::MIN <= old(self).x * rhs <= i32::MAX,
            i32::MIN <= old(self).y * rhs <= i32::MAX,
        ensures
            final(self).x == old(self).x * rhs,
            final(self).y == old(self).y * rhs,
    {
        self.x = self.x * rhs;
        self.y = self.y * rhs;
    }

    pub fn div_assign(&mut self, rhs: i32)
        requires
            rhs > 0,
        ensures
            final(self).x == crate::scalar::div_trunc(old(self).x as int, rhs as int),
            final(self).y == crate::scalar::div_trunc(old(self).y as int, rhs as int),
    {
        self.x = self.x / rhs;
        self.y = self.y / rhs;
    }
}

impl Vector<i64> {
    /// Checked conversion of each component into the `i32` range.
    pub fn cast(self) -> (r: Option<Vector<i32>>)
        ensures
            r is Some <==> (i32::MIN <= self.x <= i32::MAX && i32::MIN <= self.y <= i32::MAX),
            r matches Some(v) ==> v.x == self.x && v.y == self.y,
    {
        let x = crate::cast::narrow_i64_to_i32(self.x);
        let y = crate::cast::narrow_i64_to_i32(self.y);
        match (x, y) {
            (Some(x), Some(y)) => Some(Vector { x, y }),
            _ => None,
        }
    }
}

/// Builds the vector with components `x` and `y`.
pub fn vector<T>(x: T, y: T) -> (r: Vector<T>)
    ensures
        r.x == x,
        r.y == y,
{
    Vector::new(x, y)
}

} // verus!
