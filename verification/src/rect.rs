use vstd::prelude::*;

use crate::point::Point;
use crate::size::Size;
use crate::vector::Vector;

verus! {

/// An axis-aligned rectangle: an origin corner and an extent. The extent may
/// be zero or negative; no normalization is performed.
#[derive(Clone, Copy, PartialEq, Eq, Structural, Debug)]
pub struct Rect<T> {
    pub origin: Point<T>,
    pub size: Size<T>,
}

impl<T> Rect<T> {
    pub fn new(origin: Point<T>, size: Size<T>) -> (r: Self)
        ensures
            r.origin == origin,
            r.size == size,
    {
        Rect { origin, size }
    }
}

impl Rect<i32> {
    /// The x coordinate of the corner opposite `origin`, as a mathematical
    /// integer: `origin.x + size.width`.
    pub open spec fn endpoint_x(self) -> int {
        self.origin.x + self.size.width
    }

    /// The y coordinate of the corner opposite `origin`, as a mathematical
    /// integer: `origin.y + size.height`.
    pub open spec fn endpoint_y(self) -> int {
        self.origin.y + self.size.height
    }

    /// The corner opposite `origin`: `origin + size`.
    pub fn endpoint(&self) -> (r: Point<i32>)
        requires
            i32::MIN <= self.endpoint_x() <= i32::MAX,
            i32::MIN <= self.endpoint_y() <= i32::MAX,
        ensures
            r.x == self.endpoint_x(),
            r.y == self.endpoint_y(),
    {
        Point::new(self.origin.x + self.size.width, self.origin.y + self.size.height)
    }

    /// The smallest rectangle with two given opposite corners: its origin
    /// takes the smaller coordinate on each axis, its endpoint the larger.
    pub fn from_points(a: Point<i32>, b: Point<i32>) -> (r: Rect<i32>)
        requires
            a.x - b.x <= i32::MAX,
            b.x - a.x <= i32::MAX,
            a.y - b.y <= i32::MAX,
            b.y - a.y <= i32::MAX,
        ensures
            r.origin.x == if a.x < b.x { a.x } else { b.x },
            r.origin.y == if a.y < b.y { a.y } else { b.y },
            r.endpoint_x() == if a.x < b.x { b.x } else { a.x },
            r.endpoint_y() == if a.y < b.y { b.y } else { a.y },
            r.size.width >= 0,
            r.size.height >= 0,
    {
        let (tx, ux) = if a.x < b.x { (a.x, b.x) } else { (b.x, a.x) };
        let (ty, uy) = if a.y < b.y { (a.y, b.y) } else { (b.y, a.y) };
        Rect { origin: Point { x: tx, y: ty }, size: Size { width: ux - tx, height: uy - ty } }
    }

    /// The rectangle displaced by a vector, its size unchanged.
    pub fn translate(&self, d: Vector<i32>) -> (r: Rect<i32>)
        requires
            i32::MIN <= self.origin.x + d.x <= i32::MAX,
            i32::MIN <= self.origin.y + d.y <= i32::MAX,
        ensures
            r.origin.x == self.origin.x + d.x,
            r.origin.y == self.origin.y + d.y,
            r.size == self.size,
    {
        Rect { origin: Point { x: self.origin.x + d.x, y: self.origin.y + d.y }, size: self.size }
    }

    /// The rectangle with its extent multiplied axis by axis, its origin
    /// unchanged.
    pub fn scale(&self, x: i32, y: i32) -> (r: Rect<i32>)
        requires
            i32::MIN <= self.size.width * x <= i32::MAX,
            i32::MIN <= self.size.height * y <= i32::MAX,
        ensures
            r.origin == self.origin,
            r.size.width == self.size.width * x,
            r.size.height == self.size.height * y,
    {
        Rect {
            origin: self.origin,
            size: Size { width: self.size.width * x, height: self.size.height * y },
        }
    }
}

impl Rect<i64> {
    /// Checked conversion of origin and size into the `i32` range.
    pub fn cast(self) -> (r: Option<Rect<i32>>)
        ensures
            r is Some <==> {
                &&& i32::MIN <= self.origin.x <= i32::MAX
                &&& i32::MIN <= self.origin.y <= i32::MAX
                &&& i32::MIN <= self.size.width <= i32::MAX
                &&& i32::MIN <= self.size.height <= i32::MAX
            },
            r matches Some(c) ==> {
                &&& c.origin.x == self.origin.x
                &&& c.origin.y == self.origin.y
                &&& c.size.width == self.size.width
                &&& c.size.height == self.size.height
            },
    {
        let origin = self.origin.cast();
        let size = self.size.cast();
        match (origin, size) {
            (Some(origin), Some(size)) => Some(Rect { origin, size }),
            _ => None,
        }
    }
}

impl<T> From<((T, T), (T, T))> for Rect<T> {
    fn from(src: ((T, T), (T, T))) -> Rect<T> {
        Rect {
            origin: Point { x: src.0.0, y: src.0.1 },
            size: Size { width: src.1.0, height: src.1.1 },
        }
    }
}

impl<T> vstd::std_specs::convert::FromSpecImpl<((T, T), (T, T))> for Rect<T> {
    open spec fn obeys_from_spec() -> bool {
        true
    }

    open spec fn from_spec(v: ((T, T), (T, T))) -> Rect<T> {
        Rect {
            origin: Point { x: v.0.0, y: v.0.1 },
            size: Size { width: v.1.0, height: v.1.1 },
        }
    }
}

/// Builds the rectangle with the given origin corner and size.
pub fn rect<T>(origin: Point<T>, size: Size<T>) -> (r: Rect<T>)
    ensures
        r.origin == origin,
        r.size == size,
{
    Rect::new(origin, size)
}

} // verus!
