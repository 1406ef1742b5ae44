use vstd::prelude::*;

verus! {

/// Splits a packed `0xRRGGBB` value and an alpha into the four components of
/// an [`Rgba`] color over the implementing scalar.
pub trait Values: Sized {
    /// The color that `values` builds from `value` and `alpha`.
    spec fn values_spec(value: u32, alpha: Self) -> Rgba<Self>;

    fn values(value: u32, alpha: Self) -> (r: Rgba<Self>)
        ensures
            r == Self::values_spec(value, alpha),
    ;
}

impl Values for u8 {
    open spec fn values_spec(value: u32, alpha: u8) -> Rgba<u8> {
        Rgba {
            r: ((value >> 16u32) & 0xffu32) as u8,
            g: ((value >> 8u32) & 0xffu32) as u8,
            b: (value & 0xffu32) as u8,
            a: alpha,
        }
    }

    fn values(value: u32, alpha: u8) -> (r: Rgba<u8>) {
        proof {
            assert(((value >> 16u32) & 0xffu32) < 256 && ((value >> 8u32) & 0xffu32) < 256 && (
            value & 0xffu32) < 256) by (bit_vector);
        }
        Rgba {
            r: ((value >> 16u32) & 0xffu32) as u8,
            g: ((value >> 8u32) & 0xffu32) as u8,
            b: (value & 0xffu32) as u8,
            a: alpha,
        }
    }
}

/// A color of four components: red, green, blue and alpha.
#[derive(Clone, Copy, PartialEq, Eq, Structural, Debug)]
pub struct Rgba<T> {
    pub r: T,
    pub g: T,
    pub b: T,
    pub a: T,
}

impl<T> Rgba<T> {
    pub fn new(r: T, g: T, b: T, a: T) -> (c: Self)
        ensures
            c.r == r,
            c.g == g,
            c.b == b,
            c.a == a,
    {
        Rgba { r, g, b, a }
    }

    pub fn map<R, F: Fn(T) -> R>(self, f: F) -> (c: Rgba<R>)
        requires
            call_requires(f, (self.r,)),
            call_requires(f, (self.g,)),
            call_requires(f, (self.b,)),
            call_requires(f, (self.a,)),
        ensures
            call_ensures(f, (self.r,), c.r),
            call_ensures(f, (self.g,), c.g),
            call_ensures(f, (self.b,), c.b),
            call_ensures(f, (self.a,), c.a),
    {
        let r = f(self.r);
        let g = f(self.g);
        let b = f(self.b);
        let a = f(self.a);
        Rgba { r, g, b, a }
    }
}

impl<T: Values> Rgba<T> {
    /// The color packed in a `0xRRGGBB` value, with the given alpha.
    pub fn values(value: u32, alpha: T) -> (c: Rgba<T>)
        ensures
            c == T::values_spec(value, alpha),
    {
        T::values(value, alpha)
    }
}

impl<T> From<(T, T, T, T)> for Rgba<T> {
    fn from(src: (T, T, T, T)) -> Rgba<T> {
        Rgba { r: src.0, g: src.1, b: src.2, a: src.3 }
    }
}

impl<T> vstd::std_specs::convert::FromSpecImpl<(T, T, T, T)> for Rgba<T> {
    open spec fn obeys_from_spec() -> bool {
        true
    }

    open spec fn from_spec(v: (T, T, T, T)) -> Rgba<T> {
        Rgba { r: v.0, g: v.1, b: v.2, a: v.3 }
    }
}

impl Rgba<i32> {
    pub fn add(self, rhs: Rgba<i32>) -> (c: Rgba<i32>)
        requires
            i32::MIN <= self.r + rhs.r <= i32::MAX,
            i32::MIN <= self.g + rhs.g <= i32::MAX,
            i32::MIN <= self.b + rhs.b <= i32::MAX,
            i32::MIN <= self.a + rhs.a <= i32::MAX,
        ensures
            c.r == self.r + rhs.r,
            c.g == self.g + rhs.g,
            c.b == self.b + rhs.b,
            c.a == self.a + rhs.a,
    {
        Rgba { r: self.r + rhs.r, g: self.g + rhs.g, b: self.b + rhs.b, a: self.a + rhs.a }
    }

    pub fn sub(self, rhs: Rgba<i32>) -> (c: Rgba<i32>)
        requires
            i32::MIN <= self.r - rhs.r <= i32::MAX,
            i32::MIN <= self.g - rhs.g <= i32::MAX,
            i32::MIN <= self.b - rhs.b <= i32::MAX,
            i32::MIN <= self.a - rhs.a <= i32::MAX,
        ensures
            c.r == self.r - rhs.r,
            c.g == self.g - rhs.g,
            c.b == self.b - rhs.b,
            c.a == self.a - rhs.a,
    {
        Rgba { r: self.r - rhs.r, g: self.g - rhs.g, b: self.b - rhs.b, a: self.a - rhs.a }
    }

    pub fn mul(self, rhs: i32) -> (c: Rgba<i32>)
        requires
            i32::MIN <= self.r * rhs <= i32::MAX,
            i32::MIN <= self.g * rhs <= i32::MAX,
            i32::MIN <= self.b * rhs <= i32::MAX,
            i32::MIN <= self.a * rhs <= i32::MAX,
        ensures
            c.r == self.r * rhs,
            c.g == self.g * rhs,
            c.b == self.b * rhs,
            c.a == self.a * rhs,
    {
        Rgba { r: self.r * rhs, g: self.g * rhs, b: self.b * rhs, a: self.a * rhs }
    }

    pub fn div(self, rhs: i32) -> (c: Rgba<i32>)
        requires
            rhs > 0,
        ensures
            c.r == crate::scalar::div_trunc(self.r as int, rhs as int),
            c.g == crate::scalar::div_trunc(self.g as int, rhs as int),
            c.b == crate::scalar::div_trunc(self.b as int, rhs as int),
            c.a == crate::scalar::div_trunc(self.a as int, rhs as int),
    {
        Rgba { r: self.r / rhs, g: self.g / rhs, b: self.b / rhs, a: self.a / rhs }
    }

    pub fn add_assign(&mut self, rhs: Rgba<i32>)
        requires
            i32::MIN <= old(self).r + rhs.r <= i32::MAX,
            i32::MIN <= old(self).g + rhs.g <= i32::MAX,
            i32::MIN <= old(self).b + rhs.b <= i32::MAX,
            i32::MIN <= old(self).a + rhs.a <= i32::MAX,
        ensures
            final(self).r == old(self).r + rhs.r,
            final(self).g == old(self).g + rhs.g,
            final(self).b == old(self).b + rhs.b,
            final(self).a == old(self).a + rhs.a,
    {
        self.r = self.r + rhs.r;
        self.g = self.g + rhs.g;
        self.b = self.b + rhs.b;
        self.a = self.a + rhs.a;
    }

    pub fn sub_assign(&mut self, rhs: Rgba<i32>)
        requires
            i32::MIN <= old(self).r - rhs.r <= i32::MAX,
            i32::MIN <= old(self).g - rhs.g <= i32::MAX,
            i32::MIN <= old(self).b - rhs.b <= i32::MAX,
            i32::MIN <= old(self).a - rhs.a <= i32::MAX,
        ensures
            final(self).r == old(self).r - rhs.r,
            final(self).g == old(self).g - rhs.g,
            final(self).b == old(self).b - rhs.b,
            final(self).a == old(self).a - rhs.a,
    {
        self.r = self.r - rhs.r;
        self.g = self.g - rhs.g;
        self.b = self.b - rhs.b;
        self.a = self.a - rhs.a;
    }

    pub fn mul_assign(&mut self, rhs: i32)
        requires
            i32::MIN <= old(self).r * rhs <= i32::MAX,
            i32::MIN <= old(self).g * rhs <= i32::MAX,
            i32::MIN <= old(self).b * rhs <= i32::MAX,
            i32::MIN <= old(self).a * rhs <= i32::MAX,
        ensures
            final(self).r == old(self).r * rhs,
            final(self).g == old(self).g * rhs,
            final(self).b == old(self).b * rhs,
            final(self).a == old(self).a * rhs,
    {
        self.r = self.r * rhs;
        self.g = self.g * rhs;
        self.b = self.b * rhs;
        self.a = self.a * rhs;
    }

    pub fn div_assign(&mut self, rhs: i32)
        requires
            rhs > 0,
        ensures
            final(self).r == crate::scalar::div_trunc(old(self).r as int, rhs as int),
            final(self).g == crate::scalar::div_trunc(old(self).g as int, rhs as int),
            final(self).b == crate::scalar::div_trunc(old(self).b as int, rhs as int),
            final(self).a == crate::scalar::div_trunc(old(self).a as int, rhs as int),
    {
        self.r = self.r / rhs;
        self.g = self.g / rhs;
        self.b = self.b / rhs;
        self.a = self.a / rhs;
    }
}

impl Rgba<i64> {
    /// Checked conversion of each component into the `i32` range.
    pub fn cast(self) -> (c: Option<Rgba<i32>>)
        ensures
            c is Some <==> {
                &&& i32::MIN <= self.r <= i32::MAX
                &&& i32::MIN <= self.g <= i32::MAX
                &&& i32::MIN <= self.b <= i32::MAX
                &&& i32::MIN <= self.a <= i32::MAX
            },
            c matches Some(v) ==> {
                &&& v.r == self.r
                &&& v.g == self.g
                &&& v.b == self.b
                &&& v.a == self.a
            },
    {
        let r = crate::cast::narrow_i64_to_i32(self.r);
        let g = crate::cast::narrow_i64_to_i32(self.g);
        let b = crate::cast::narrow_i64_to_i32(self.b);
        let a = crate::cast::narrow_i64_to_i32(self.a);
        match (r, g, b, a) {
            (Some(r), Some(g), Some(b), Some(a)) => Some(Rgba { r, g, b, a }),
            _ => None,
        }
    }
}

/// Builds the color with the given components.
pub fn rgba<T>(r: T, g: T, b: T, a: T) -> (c: Rgba<T>)
    ensures
        c.r == r,
        c.g == g,
        c.b == b,
        c.a == a,
{
    Rgba::new(r, g, b, a)
}

} // verus!
