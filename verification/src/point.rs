use vstd::prelude::*;

use crate::size::Size;
use crate::vector::Vector;

verus! {

/// A position in the plane.
#[derive(Clone, Copy, PartialEq, Eq, Structural, Debug)]
pub struct Point<T> {
    pub x: T,
    pub y: T,
}

impl<T> Point<T> {
    pub fn new(x: T, y: T) -> (r: Self)
        ensures
            r.x == x,
            r.y == y,
    {
        Point { x, y }
    }

    pub fn map<R, F: Fn(T) -> R>(self, f: F) -> (r: Point<R>)
        requires
            call_requires(f, (self.x,)),
            call_requires(f, (self.y,)),
        ensures
            call_ensures(f, (self.x,), r.x),
            call_ensures(f, (self.y,), r.y),
    {
        let x = f(self.x);
        let y = f(self.y);
        Point { x, y }
    }
}

impl<T> From<Vector<T>> for Point<T> {
    fn from(src: Vector<T>) -> Point<T> {
        Point { x: src.x, y: src.y }
    }
}

impl<T> vstd::std_specs::convert::FromSpecImpl<Vector<T>> for Point<T> {
    open spec fn obeys_from_spec() -> bool {
        true
    }

    open spec fn from_spec(v: Vector<T>) -> Point<T> {
        Point { x: v.x, y: v.y }
    }
}

impl<T> From<(T, T)> for Point<T> {
    fn from(src: (T, T)) -> Point<T> {
        Point { x: src.0, y: src.1 }
    }
}

impl<T> vstd::std_specs::convert::FromSpecImpl<(T, T)> for Point<T> {
    open spec fn obeys_from_spec() -> bool {
        true
    }

    open spec fn from_spec(v: (T, T)) -> Point<T> {
        Point { x: v.0, y: v.1 }
    }
}

impl Point<i32> {
    /// Componentwise sum of two points.
    pub fn add(self, rhs: Point<i32>) -> (r: Point<i32>)
        requires
            i32::MIN <= self.x + rhs.x <= i32::MAX,
            i32::MIN <= self.y + rhs.y <= i32::MAX,
        ensures
            r.x == self.x + rhs.x,
            r.y == self.y + rhs.y,
    {
        Point { x: self.x + rhs.x, y: self.y + rhs.y }
    }

    /// The point displaced by a size.
    pub fn add_size(self, rhs: Size<i32>) -> (r: Point<i32>)
        requires
            i32::MIN <= self.x + rhs.width <= i32::MAX,
            i32::MIN <= self.y + rhs.height <= i32::MAX,
        ensures
            r.x == self.x + rhs.width,
            r.y == self.y + rhs.height,
    {
        Point { x: self.x + rhs.width, y: self.y + rhs.height }
    }

    /// The difference vector between two points.
    pub fn sub(self, rhs: Point<i32>) -> (r: Vector<i32>)
        requires
            i32::MIN <= self.x - rhs.x <= i32::MAX,
            i32::MIN <= self.y - rhs.y <= i32::MAX,
        ensures
            r.x == self.x - rhs.x,
            r.y == self.y - rhs.y,
    {
        Vector { x: self.x - rhs.x, y: self.y - rhs.y }
    }

    /// The point displaced backwards along a vector.
    pub fn sub_vector(self, rhs: Vector<i32>) -> (r: Point<i32>)
        requires
            i32::MIN <= self.x - rhs.x <= i32::MAX,
            i32::MIN <= self.y - rhs.y <= i32::MAX,
        ensures
            r.x == self.x - rhs.x,
            r.y == self.y - rhs.y,
    {
        Point { x: self.x - rhs.x, y: self.y - rhs.y }
    }

    pub fn mul(self, rhs: i32) -> (r: Point<i32>)
        requires
            i32::MIN <= self.x * rhs <= i32::MAX,
            i32::MIN <= self.y * rhs <= i32::MAX,
        ensures
            r.x == self.x * rhs,
            r.y == self.y * rhs,
    {
        Point { x: self.x * rhs, y: self.y * rhs }
    }

    pub fn div(self, rhs: i32) -> (r: Point<i32>)
        requires
            rhs > 0,
        ensures
            r.x == crate::scalar::div_trunc(self.x as int, rhs as int),
            r.y == crate::scalar::div_trunc(self.y as int, rhs as int),
    {
        Point { x: self.x / rhs, y: self.y / rhs }
    }

    pub fn add_assign(&mut self, rhs: Size<i32>)
        requires
            i32::MIN <= old(self).x + rhs.width <= i32::MAX,
            i32::MIN <= old(self).y + rhs.height <= i32::MAX,
        ensures
            final(self).x == old(self).x + rhs.width,
            final(self).y == old(self).y + rhs.height,
    {
        self.x = self.x + rhs.width;
        self.y = self.y + rhs.height;
    }

    pub fn sub_assign(&mut self, rhs: Vector<i32>)
        requires
            i32::MIN <= old(self).x - rhs.x <= i32::MAX,
            i32::MIN <= old(self).y - rhs.y <= i32::MAX,
        ensures
            final(self).x == old(self).x - rhs.x,
            final(self).y == old(self).y - rhs.y,
    {
        self.x = self.x - rhs.x;
        self.y = self.y - rhs.y;
    }

    pub fn mul_assign(&mut self, rhs: i32)
        requires
            i32::MIN <= old(self).x * rhs <= i32::MAX,
            i32::MIN <= old(self).y * rhs <= i32::MAX,
        ensures
            final(self).x == old(self).x * rhs,
            final(self).y == old(self).y * rhs,
    {
        self.x = self.x * rhs;
        self.y = self.y * rhs;
    }

    pub fn div_assign(&mut self, rhs: i32)
        requires
            rhs > 0,
        ensures
            final(self).x == crate::scalar::div_trunc(old(self).x as int, rhs as int),
            final(self).y == crate::scalar::div_trunc(old(self).y as int, rhs as int),
    {
        self.x = self.x / rhs;
        self.y = self.y / rhs;
    }
}

impl Point<i64> {
    /// Checked conversion of each coordinate into the `i32` range.
    pub fn cast(self) -> (r: Option<Point<i32>>)
        ensures
            r is Some <==> (i32::MIN <= self.x <= i32::MAX && i32::MIN <= self.y <= i32::MAX),
            r matches Some(p) ==> p.x == self.x && p.y == self.y,
    {
        let x = crate::cast::narrow_i64_to_i32(self.x);
        let y = crate::cast::narrow_i64_to_i32(self.y);
        match (x, y) {
            (Some(x), Some(y)) => Some(Point { x, y }),
            _ => None,
        }
    }
}

/// Builds the point with coordinates `x` and `y`.
pub fn point<T>(x: T, y: T) -> (r: Point<T>)
    ensures
        r.x == x,
        r.y == y,
{
    Point::new(x, y)
}

} // verus!
