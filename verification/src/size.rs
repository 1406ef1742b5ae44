use vstd::prelude::*;

use crate::vector::Vector;

verus! {

/// A width and a height: the extent of a rectangle.
#[derive(Clone, Copy, PartialEq, Eq, Structural, Debug)]
pub struct Size<T> {
    pub width: T,
    pub height: T,
}

impl<T> Size<T> {
    pub fn new(width: T, height: T) -> (r: Self)
        ensures
            r.width == width,
            r.height == height,
    {
        Size { width, height }
    }

    pub fn map<R, F: Fn(T) -> R>(self, f: F) -> (r: Size<R>)
        requires
            call_requires(f, (self.width,)),
            call_requires(f, (self.height,)),
        ensures
            call_ensures(f, (self.width,), r.width),
            call_ensures(f, (self.height,), r.height),
    {
        let width = f(self.width);
        let height = f(self.height);
        Size { width, height }
    }
}

impl<T> From<Vector<T>> for Size<T> {
    fn from(src: Vector<T>) -> Size<T> {
        Size { width: src.x, height: src.y }
    }
}

impl<T> vstd::std_specs::convert::FromSpecImpl<Vector<T>> for Size<T> {
    open spec fn obeys_from_spec() -> bool {
        true
    }

    open spec fn from_spec(v: Vector<T>) -> Size<T> {
        Size { width: v.x, height: v.y }
    }
}

impl<T> From<(T, T)> for Size<T> {
    fn from(src: (T, T)) -> Size<T> {
        Size { width: src.0, height: src.1 }
    }
}

impl<T> vstd::std_specs::convert::FromSpecImpl<(T, T)> for Size<T> {
    open spec fn obeys_from_spec() -> bool {
        true
    }

    open spec fn from_spec(v: (T, T)) -> Size<T> {
        Size { width: v.0, height: v.1 }
    }
}

impl Size<i32> {
    pub fn add(self, rhs: Size<i32>) -> (r: Size<i32>)
        requires
            i32::MIN <= self.width + rhs.width <= i32::MAX,
            i32::MIN <= self.height + rhs.height <= i32::MAX,
        ensures
            r.width == self.width + rhs.width,
            r.height == self.height + rhs.height,
    {
        Size { width: self.width + rhs.width, height: self.height + rhs.height }
    }

    pub fn sub(self, rhs: Size<i32>) -> (r: Size<i32>)
        requires
            i32::MIN <= self.width - rhs.width <= i32::MAX,
            i32::MIN <= self.height - rhs.height <= i32::MAX,
        ensures
            r.width == self.width - rhs.width,
            r.height == self.height - rhs.height,
    {
        Size { width: self.width - rhs.width, height: self.height - rhs.height }
    }

    pub fn mul(self, rhs: i32) -> (r: Size<i32>)
        requires
            i32::MIN <= self.width * rhs <= i32::MAX,
            i32::MIN <= self.height * rhs <= i32::MAX,
        ensures
            r.width == self.width * rhs,
            r.height == self.height * rhs,
    {
        Size { width: self.width * rhs, height: self.height * rhs }
    }

    pub fn div(self, rhs: i32) -> (r: Size<i32>)
        requires
            rhs > 0,
        ensures
            r.width == crate::scalar::div_trunc(self.width as int, rhs as int),
            r.height == crate::scalar::div_trunc(self.height as int, rhs as int),
    {
        Size { width: self.width / rhs, height: self.height / rhs }
    }

    pub fn add_assign(&mut self, rhs: Size<i32>)
        requires
            i32::MIN <= old(self).width + rhs.width <= i32::MAX,
            i32::MIN <= old(self).height + rhs.height <= i32::MAX,
        ensures
            final(self).width == old(self).width + rhs.width,
            final(self).height == old(self).height + rhs.height,
    {
        self.width = self.width + rhs.width;
        self.height = self.height + rhs.height;
    }

    pub fn sub_assign(&mut self, rhs: Size<i32>)
        requires
            i32::MIN <= old(self).width - rhs.width <= i32::MAX,
            i32::MIN <= old(self).height - rhs.height <= i32::MAX,
        ensures
            final(self).width == old(self).width - rhs.width,
            final(self).height == old(self).height - rhs.height,
    {
        self.width = self.width - rhs.width;
        self.height = self.height - rhs.height;
    }

    pub fn mul_assign(&mut self, rhs: i32)
        requires
            i32::MIN <= old(self).width * rhs <= i32::MAX,
            i32::MIN <= old(self).height * rhs <= i32::MAX,
        ensures
            final(self).width == old(self).width * rhs,
            final(self).height == old(self).height * rhs,
    {
        self.width = self.width * rhs;
        self.height = self.height * rhs;
    }

    pub fn div_assign(&mut self, rhs: i32)
        requires
            rhs > 0,
        ensures
            final(self).width == crate::scalar::div_trunc(old(self).width as int, rhs as int),
            final(self).height == crate::scalar::div_trunc(old(self).height as int, rhs as int),
    {
        self.width = self.width / rhs;
        self.height = self.height / rhs;
    }
}

impl Size<i64> {
    /// Checked conversion of each extent into the `i32` range.
    pub fn cast(self) -> (r: Option<Size<i32>>)
        ensures
            r is Some <==> (i32::MIN <= self.width <= i32::MAX && i32::MIN <= self.height
                <= i32::MAX),
            r matches Some(s) ==> s.width == self.width && s.height == self.height,
    {
        let width = crate::cast::narrow_i64_to_i32(self.width);
        let height = crate::cast::narrow_i64_to_i32(self.height);
        match (width, height) {
            (Some(width), Some(height)) => Some(Size { width, height }),
            _ => None,
        }
    }
}

/// Builds the size with the given `width` and `height`.
pub fn size<T>(width: T, height: T) -> (r: Size<T>)
    ensures
        r.width == width,
        r.height == height,
{
    Size::new(width, height)
}

} // verus!
