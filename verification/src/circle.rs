use vstd::prelude::*;

use crate::point::Point;
use crate::vector::Vector;

verus! {

/// A circle: a center and a radius. The radius is conventionally
/// non-negative, but no predicate assumes it.
#[derive(Clone, Copy, PartialEq, Eq, Structural, Debug)]
pub struct Circle<T> {
    pub center: Point<T>,
    pub radius: T,
}

impl<T> Circle<T> {
    pub fn new(center: Point<T>, radius: T) -> (r: Self)
        ensures
            r.center == center,
            r.radius == radius,
    {
        Circle { center, radius }
    }
}

impl Circle<i32> {
    /// The circle displaced by a vector, its radius unchanged.
    pub fn translate(&self, v: Vector<i32>) -> (r: Circle<i32>)
        requires
            i32::MIN <= self.center.x + v.x <= i32::MAX,
            i32::MIN <= self.center.y + v.y <= i32::MAX,
        ensures
            r.center.x == self.center.x + v.x,
            r.center.y == self.center.y + v.y,
            r.radius == self.radius,
    {
        Circle {
            center: Point { x: self.center.x + v.x, y: self.center.y + v.y },
            radius: self.radius,
        }
    }

    /// The circle with its radius multiplied by `s`, its center unchanged.
    pub fn scale(&self, s: i32) -> (r: Circle<i32>)
        requires
            i32::MIN <= self.radius * s <= i32::MAX,
        ensures
            r.center == self.center,
            r.radius == self.radius * s,
    {
        Circle { center: self.center, radius: self.radius * s }
    }
}

impl Circle<i64> {
    /// Checked conversion of center and radius into the `i32` range.
    pub fn cast(self) -> (r: Option<Circle<i32>>)
        ensures
            r is Some <==> {
                &&& i32::MIN <= self.center.x <= i32::MAX
                &&& i32::MIN <= self.center.y <= i32::MAX
                &&& i32::MIN <= self.radius <= i32::MAX
            },
            r matches Some(c) ==> {
                &&& c.center.x == self.center.x
                &&& c.center.y == self.center.y
                &&& c.radius == self.radius
            },
    {
        let center = self.center.cast();
        let radius = crate::cast::narrow_i64_to_i32(self.radius);
        match (center, radius) {
            (Some(center), Some(radius)) => Some(Circle { center, radius }),
            _ => None,
        }
    }
}

/// Builds the circle with the given center and radius.
pub fn circle<T>(center: Point<T>, radius: T) -> (r: Circle<T>)
    ensures
        r.center == center,
        r.radius == radius,
{
    Circle::new(center, radius)
}

} // verus!
