use vstd::prelude::*;

use crate::circle::Circle;
use crate::point::Point;
use crate::rect::Rect;

verus! {

// ---------------------------------------------------------------------------
// The mathematical model: each predicate written over unbounded integers.
// ---------------------------------------------------------------------------

/// The square of `x`.
pub open spec fn sq(x: int) -> int {
    x * x
}

/// The point `(px, py)` lies within or on the boundary of `c`: the squared
/// distance from the center is at most the squared radius.
pub open spec fn in_circle(c: Circle<i32>, px: int, py: int) -> bool {
    sq(c.center.x - px) + sq(c.center.y - py) <= sq(c.radius as int)
}

/// A circle and a point cross iff the point lies within or on the circle.
pub open spec fn circle_point_crossing(c: Circle<i32>, p: Point<i32>) -> bool {
    in_circle(c, p.x as int, p.y as int)
}

/// Two circles cross iff the squared distance between their centers is at
/// most the square of the sum of their radii (touching counts).
pub open spec fn circle_circle_crossing(a: Circle<i32>, b: Circle<i32>) -> bool {
    sq(a.center.x - b.center.x) + sq(a.center.y - b.center.y) <= sq(a.radius + b.radius)
}

/// `outer` contains `inner` iff the squared distance between their centers is
/// at most the square of the difference of their radii.
pub open spec fn circle_circle_contains(outer: Circle<i32>, inner: Circle<i32>) -> bool {
    sq(outer.center.x - inner.center.x) + sq(outer.center.y - inner.center.y) <= sq(
        outer.radius - inner.radius,
    )
}

/// A point and a rectangle cross iff the point lies within the rectangle's
/// span on both axes, boundary included.
pub open spec fn point_rect_crossing(p: Point<i32>, r: Rect<i32>) -> bool {
    &&& r.origin.x <= p.x <= r.endpoint_x()
    &&& r.origin.y <= p.y <= r.endpoint_y()
}

/// Two rectangles cross iff their spans overlap on both axes, touching
/// edges included: neither lies entirely past the other.
pub open spec fn rect_rect_crossing(a: Rect<i32>, b: Rect<i32>) -> bool {
    &&& a.origin.x <= b.endpoint_x()
    &&& a.origin.y <= b.endpoint_y()
    &&& a.endpoint_x() >= b.origin.x
    &&& a.endpoint_y() >= b.origin.y
}

/// `outer` contains `inner` iff `inner`'s span lies within `outer`'s span on
/// both axes.
pub open spec fn rect_rect_contains(outer: Rect<i32>, inner: Rect<i32>) -> bool {
    &&& outer.origin.x <= inner.origin.x
    &&& outer.origin.y <= inner.origin.y
    &&& outer.endpoint_x() >= inner.endpoint_x()
    &&& outer.endpoint_y() >= inner.endpoint_y()
}

/// A rectangle and a circle cross iff the center lies in the rectangle
/// inflated by the radius on all sides, and the center does not lie strictly
/// in one of the four corner regions at squared distance at least the squared
/// radius from that corner. Exact tangency at a corner does not count as
/// crossing, while tangency at an edge does.
pub open spec fn rect_circle_crossing(r: Rect<i32>, c: Circle<i32>) -> bool {
    let rad = c.radius as int;
    let cx = c.center.x as int;
    let cy = c.center.y as int;
    let ox = r.origin.x as int;
    let oy = r.origin.y as int;
    let ex = r.endpoint_x();
    let ey = r.endpoint_y();
    &&& ox - rad <= cx
    &&& oy - rad <= cy
    &&& cx <= ex + rad
    &&& cy <= ey + rad
    &&& !(ox > cx && oy > cy && sq(ox - cx) + sq(oy - cy) >= sq(rad))
    &&& !(ex < cx && oy > cy && sq(ex - cx) + sq(oy - cy) >= sq(rad))
    &&& !(ox > cx && ey < cy && sq(ox - cx) + sq(ey - cy) >= sq(rad))
    &&& !(ex < cx && ey < cy && sq(ex - cx) + sq(ey - cy) >= sq(rad))
}

/// `v` clamped into the interval `[lo, hi]`.
pub open spec fn clamp(v: int, lo: int, hi: int) -> int {
    if v < lo {
        lo
    } else if v > hi {
        hi
    } else {
        v
    }
}

/// The squared distance from the circle's center to the point of the
/// rectangle (boundary and interior) nearest to it.
pub open spec fn nearest_sq_dist(r: Rect<i32>, c: Circle<i32>) -> int {
    sq(c.center.x - clamp(c.center.x as int, r.origin.x as int, r.endpoint_x())) + sq(
    c.center.y - clamp(c.center.y as int, r.origin.y as int, r.endpoint_y()))
}

/// The circle's center lies strictly beyond the rectangle's span on both
/// axes: the nearest rectangle feature is a corner point.
pub open spec fn in_corner_region(r: Rect<i32>, c: Circle<i32>) -> bool {
    &&& (c.center.x < r.origin.x || c.center.x > r.endpoint_x())
    &&& (c.center.y < r.origin.y || c.center.y > r.endpoint_y())
}

/// A rectangle contains a circle iff the circle's bounding box lies within
/// the rectangle's span on both axes.
pub open spec fn rect_circle_contains(outer: Rect<i32>, inner: Circle<i32>) -> bool {
    let rad = inner.radius as int;
    let cx = inner.center.x as int;
    let cy = inner.center.y as int;
    &&& cx - rad >= outer.origin.x
    &&& cx + rad <= outer.endpoint_x()
    &&& cy - rad >= outer.origin.y
    &&& cy + rad <= outer.endpoint_y()
}

/// A circle contains a rectangle iff both the origin corner and the endpoint
/// corner lie within the circle.
pub open spec fn circle_rect_contains(outer: Circle<i32>, inner: Rect<i32>) -> bool {
    &&& in_circle(outer, inner.origin.x as int, inner.origin.y as int)
    &&& in_circle(outer, inner.endpoint_x(), inner.endpoint_y())
}

// ---------------------------------------------------------------------------
// Arithmetic bounds used to rule out overflow in the executable predicates.
// ---------------------------------------------------------------------------

proof fn lemma_sq_bound(x: int, b: int) by (nonlinear_arith)
    requires
        -b <= x <= b,
    ensures
        0 <= x * x <= b * b,
{
}

proof fn lemma_sq_nonneg(x: int) by (nonlinear_arith)
    ensures
        x * x >= 0,
{
}

proof fn lemma_sq_swap(x: int, y: int) by (nonlinear_arith)
    ensures
        (x - y) * (x - y) == (y - x) * (y - x),
{
}

proof fn lemma_sq_strict_mono(a: int, b: int) by (nonlinear_arith)
    requires
        0 <= a < b,
    ensures
        a * a < b * b,
{
}

proof fn lemma_sq_le_iff(a: int, b: int) by (nonlinear_arith)
    requires
        a >= 0,
        b >= 0,
    ensures
        (a * a <= b * b) == (a <= b),
        (a * a < b * b) == (a < b),
{
}

proof fn lemma_abs_le_of_sq_le(x: int, r: int) by (nonlinear_arith)
    requires
        r >= 0,
        x * x <= r * r,
    ensures
        -r <= x <= r,
{
}

// ---------------------------------------------------------------------------
// The pairwise capability: one contract per ordered pair of shape kinds.
// ---------------------------------------------------------------------------

/// The pairwise relationship tests between two shapes. `is_crossing` is
/// boundary-inclusive overlap; `contains` asks whether every point of the
/// argument lies within or on the boundary of `self`.
pub trait Collision<T> {
    /// What `is_crossing` decides for this pair.
    spec fn crossing_spec(&self, rhs: &T) -> bool;

    /// What `contains` decides for this pair.
    spec fn contains_spec(&self, other: &T) -> bool;

    fn is_crossing(&self, rhs: &T) -> (r: bool)
        ensures
            r == self.crossing_spec(rhs),
    ;

    fn contains(&self, other: &T) -> (r: bool)
        ensures
            r == self.contains_spec(other),
    ;
}

/// True iff the boundaries or interiors of `lhs` and `rhs` share at least one
/// point (touching counts).
pub fn is_crossing<T: Collision<U>, U>(lhs: &T, rhs: &U) -> (r: bool)
    ensures
        r == lhs.crossing_spec(rhs),
{
    lhs.is_crossing(rhs)
}

/// True iff every point of `inner` lies within or on the boundary of `outer`.
pub fn contains<T: Collision<U>, U>(outer: &T, inner: &U) -> (r: bool)
    ensures
        r == outer.contains_spec(inner),
{
    outer.contains(inner)
}

impl Collision<Point<i32>> for Circle<i32> {
    open spec fn crossing_spec(&self, rhs: &Point<i32>) -> bool {
        circle_point_crossing(*self, *rhs)
    }

    open spec fn contains_spec(&self, other: &Point<i32>) -> bool {
        circle_point_crossing(*self, *other)
    }

    fn is_crossing(&self, rhs: &Point<i32>) -> (r: bool) {
        let dx = self.center.x as i64 - rhs.x as i64;
        let dy = self.center.y as i64 - rhs.y as i64;
        let rad = self.radius as i64;
        proof {
            lemma_sq_bound(dx as int, 0x1_0000_0000);
            lemma_sq_bound(dy as int, 0x1_0000_0000);
            lemma_sq_bound(rad as int, 0x8000_0000);
        }
        let d2 = (dx as i128) * (dx as i128) + (dy as i128) * (dy as i128);
        d2 <= (rad as i128) * (rad as i128)
    }

    fn contains(&self, other: &Point<i32>) -> (r: bool) {
        self.is_crossing(other)
    }
}

impl Collision<Circle<i32>> for Point<i32> {
    open spec fn crossing_spec(&self, rhs: &Circle<i32>) -> bool {
        circle_point_crossing(*rhs, *self)
    }

    open spec fn contains_spec(&self, other: &Circle<i32>) -> bool {
        false
    }

    fn is_crossing(&self, rhs: &Circle<i32>) -> (r: bool) {
        rhs.is_crossing(self)
    }

    fn contains(&self, other: &Circle<i32>) -> (r: bool) {
        false
    }
}

impl Collision<Circle<i32>> for Circle<i32> {
    open spec fn crossing_spec(&self, rhs: &Circle<i32>) -> bool {
        circle_circle_crossing(*self, *rhs)
    }

    open spec fn contains_spec(&self, other: &Circle<i32>) -> bool {
        circle_circle_contains(*self, *other)
    }

    fn is_crossing(&self, rhs: &Circle<i32>) -> (r: bool) {
        let dx = self.center.x as i64 - rhs.center.x as i64;
        let dy = self.center.y as i64 - rhs.center.y as i64;
        let rad = self.radius as i64 + rhs.radius as i64;
        proof {
            lemma_sq_bound(dx as int, 0x1_0000_0000);
            lemma_sq_bound(dy as int, 0x1_0000_0000);
            lemma_sq_bound(rad as int, 0x1_0000_0000);
        }
        let d2 = (dx as i128) * (dx as i128) + (dy as i128) * (dy as i128);
        d2 <= (rad as i128) * (rad as i128)
    }

    fn contains(&self, other: &Circle<i32>) -> (r: bool) {
        let dx = self.center.x as i64 - other.center.x as i64;
        let dy = self.center.y as i64 - other.center.y as i64;
        let rad = self.radius as i64 - other.radius as i64;
        proof {
            lemma_sq_bound(dx as int, 0x1_0000_0000);
            lemma_sq_bound(dy as int, 0x1_0000_0000);
            lemma_sq_bound(rad as int, 0x1_0000_0000);
        }
        let d2 = (dx as i128) * (dx as i128) + (dy as i128) * (dy as i128);
        d2 <= (rad as i128) * (rad as i128)
    }
}

impl Collision<Rect<i32>> for Point<i32> {
    open spec fn crossing_spec(&self, rhs: &Rect<i32>) -> bool {
        point_rect_crossing(*self, *rhs)
    }

    open spec fn contains_spec(&self, other: &Rect<i32>) -> bool {
        false
    }

    fn is_crossing(&self, rhs: &Rect<i32>) -> (r: bool) {
        let x = self.x as i64;
        let y = self.y as i64;
        let ex = rhs.origin.x as i64 + rhs.size.width as i64;
        let ey = rhs.origin.y as i64 + rhs.size.height as i64;
        x >= rhs.origin.x as i64 && x <= ex && y >= rhs.origin.y as i64 && y <= ey
    }

    fn contains(&self, other: &Rect<i32>) -> (r: bool) {
        false
    }
}

impl Collision<Point<i32>> for Rect<i32> {
    open spec fn crossing_spec(&self, rhs: &Point<i32>) -> bool {
        point_rect_crossing(*rhs, *self)
    }

    open spec fn contains_spec(&self, other: &Point<i32>) -> bool {
        point_rect_crossing(*other, *self)
    }

    fn is_crossing(&self, rhs: &Point<i32>) -> (r: bool) {
        rhs.is_crossing(self)
    }

    fn contains(&self, other: &Point<i32>) -> (r: bool) {
        self.is_crossing(other)
    }
}

impl Collision<Rect<i32>> for Rect<i32> {
    open spec fn crossing_spec(&self, rhs: &Rect<i32>) -> bool {
        rect_rect_crossing(*self, *rhs)
    }

    open spec fn contains_spec(&self, other: &Rect<i32>) -> bool {
        rect_rect_contains(*self, *other)
    }

    fn is_crossing(&self, rhs: &Rect<i32>) -> (r: bool) {
        let self_ex = self.origin.x as i64 + self.size.width as i64;
        let self_ey = self.origin.y as i64 + self.size.height as i64;
        let rhs_ex = rhs.origin.x as i64 + rhs.size.width as i64;
        let rhs_ey = rhs.origin.y as i64 + rhs.size.height as i64;
        self.origin.x as i64 <= rhs_ex && self.origin.y as i64 <= rhs_ey && self_ex
            >= rhs.origin.x as i64 && self_ey >= rhs.origin.y as i64
    }

    fn contains(&self, other: &Rect<i32>) -> (r: bool) {
        let self_ex = self.origin.x as i64 + self.size.width as i64;
        let self_ey = self.origin.y as i64 + self.size.height as i64;
        let other_ex = other.origin.x as i64 + other.size.width as i64;
        let other_ey = other.origin.y as i64 + other.size.height as i64;
        self.origin.x <= other.origin.x && self.origin.y <= other.origin.y && self_ex >= other_ex
            && self_ey >= other_ey
    }
}

impl Collision<Circle<i32>> for Rect<i32> {
    open spec fn crossing_spec(&self, rhs: &Circle<i32>) -> bool {
        rect_circle_crossing(*self, *rhs)
    }

    open spec fn contains_spec(&self, other: &Circle<i32>) -> bool {
        rect_circle_contains(*self, *other)
    }

    fn is_crossing(&self, rhs: &Circle<i32>) -> (r: bool) {
        let rad = rhs.radius as i64;
        let cx = rhs.center.x as i64;
        let cy = rhs.center.y as i64;
        let ox = self.origin.x as i64;
        let oy = self.origin.y as i64;
        let ex = ox + self.size.width as i64;
        let ey = oy + self.size.height as i64;
        if ox - rad > cx || oy - rad > cy || ex + rad < cx || ey + rad < cy {
            return false;
        }
        proof {
            lemma_sq_bound(rad as int, 0x8000_0000);
            lemma_sq_bound((ox - cx) as int, 0x1_0000_0000);
            lemma_sq_bound((oy - cy) as int, 0x1_0000_0000);
            lemma_sq_bound((ex - cx) as int, 0x2_0000_0000);
            lemma_sq_bound((ey - cy) as int, 0x2_0000_0000);
        }
        let rr = (rad as i128) * (rad as i128);
        let dx = (ox - cx) as i128;
        let dy = (oy - cy) as i128;
        if ox > cx && oy > cy && dx * dx + dy * dy >= rr {
            return false;
        }
        let dx = (ex - cx) as i128;
        if ex < cx && oy > cy && dx * dx + dy * dy >= rr {
            return false;
        }
        let dx = (ox - cx) as i128;
        let dy = (ey - cy) as i128;
        if ox > cx && ey < cy && dx * dx + dy * dy >= rr {
            return false;
        }
        let dx = (ex - cx) as i128;
        if ex < cx && ey < cy && dx * dx + dy * dy >= rr {
            return false;
        }
        true
    }

    fn contains(&self, other: &Circle<i32>) -> (r: bool) {
        let rad = other.radius as i64;
        let cx = other.center.x as i64;
        let cy = other.center.y as i64;
        let ex = self.origin.x as i64 + self.size.width as i64;
        let ey = self.origin.y as i64 + self.size.height as i64;
        cx - rad >= self.origin.x as i64 && cx + rad <= ex && cy - rad >= self.origin.y as i64
            && cy + rad <= ey
    }
}

impl Collision<Rect<i32>> for Circle<i32> {
    open spec fn crossing_spec(&self, rhs: &Rect<i32>) -> bool {
        rect_circle_crossing(*rhs, *self)
    }

    open spec fn contains_spec(&self, other: &Rect<i32>) -> bool {
        circle_rect_contains(*self, *other)
    }

    fn is_crossing(&self, rhs: &Rect<i32>) -> (r: bool) {
        rhs.is_crossing(self)
    }

    fn contains(&self, other: &Rect<i32>) -> (r: bool) {
        let ex = other.origin.x as i64 + other.size.width as i64;
        let ey = other.origin.y as i64 + other.size.height as i64;
        let dx = self.center.x as i64 - ex;
        let dy = self.center.y as i64 - ey;
        let rad = self.radius as i64;
        proof {
            lemma_sq_bound(dx as int, 0x2_0000_0000);
            lemma_sq_bound(dy as int, 0x2_0000_0000);
            lemma_sq_bound(rad as int, 0x8000_0000);
        }
        let d2 = (dx as i128) * (dx as i128) + (dy as i128) * (dy as i128);
        self.is_crossing(&other.origin) && d2 <= (rad as i128) * (rad as i128)
    }
}

// ---------------------------------------------------------------------------
// Laws of the collision predicates.
// ---------------------------------------------------------------------------

/// `is_crossing` is symmetric between a circle and a point: both orders
/// decide the same crossing.
pub proof fn lemma_crossing_symmetric_circle_point(c: Circle<i32>, p: Point<i32>)
    ensures
        c.crossing_spec(&p) == p.crossing_spec(&c),
{
}

/// `is_crossing` is symmetric between two circles: both orders decide the
/// same crossing.
pub proof fn lemma_crossing_symmetric_circle_circle(a: Circle<i32>, b: Circle<i32>)
    ensures
        a.crossing_spec(&b) == b.crossing_spec(&a),
{
    lemma_sq_swap(a.center.x as int, b.center.x as int);
    lemma_sq_swap(a.center.y as int, b.center.y as int);
}

/// `is_crossing` is symmetric between a point and a rectangle: both orders
/// decide the same crossing.
pub proof fn lemma_crossing_symmetric_point_rect(p: Point<i32>, r: Rect<i32>)
    ensures
        p.crossing_spec(&r) == r.crossing_spec(&p),
{
}

/// `is_crossing` is symmetric between two rectangles: both orders decide the
/// same crossing.
pub proof fn lemma_crossing_symmetric_rect_rect(a: Rect<i32>, b: Rect<i32>)
    ensures
        a.crossing_spec(&b) == b.crossing_spec(&a),
{
}

/// `is_crossing` is symmetric between a rectangle and a circle: both orders
/// decide the same crossing.
pub proof fn lemma_crossing_symmetric_rect_circle(r: Rect<i32>, c: Circle<i32>)
    ensures
        r.crossing_spec(&c) == c.crossing_spec(&r),
{
}

/// Every circle crosses itself.
pub proof fn lemma_crossing_reflexive_circle(c: Circle<i32>)
    ensures
        c.crossing_spec(&c),
{
    lemma_sq_nonneg(c.radius + c.radius);
}

/// Every rectangle of non-negative extent crosses itself. (An inverted
/// rectangle, whose endpoint lies before its origin, does not.)
pub proof fn lemma_crossing_reflexive_rect(r: Rect<i32>)
    requires
        r.size.width >= 0,
        r.size.height >= 0,
    ensures
        r.crossing_spec(&r),
{
}

/// A circle that contains a point crosses it: for a point the two predicates
/// coincide.
pub proof fn lemma_contains_implies_crossing_circle_point(c: Circle<i32>, p: Point<i32>)
    requires
        c.contains_spec(&p),
    ensures
        c.crossing_spec(&p),
{
}

/// A rectangle that contains a point crosses it: for a point the two
/// predicates coincide.
pub proof fn lemma_contains_implies_crossing_rect_point(r: Rect<i32>, p: Point<i32>)
    requires
        r.contains_spec(&p),
    ensures
        r.crossing_spec(&p),
{
}

/// A circle of non-negative radius that contains a circle of non-negative
/// radius also crosses it.
pub proof fn lemma_contains_implies_crossing_circle_circle(outer: Circle<i32>, inner: Circle<i32>)
    requires
        outer.radius >= 0,
        inner.radius >= 0,
        outer.contains_spec(&inner),
    ensures
        outer.crossing_spec(&inner),
{
    assert((outer.radius - inner.radius) * (outer.radius - inner.radius) <= (outer.radius
        + inner.radius) * (outer.radius + inner.radius)) by (nonlinear_arith)
        requires
            outer.radius >= 0,
            inner.radius >= 0,
    ;
}

/// A rectangle that contains a rectangle of non-negative extent also crosses
/// it.
pub proof fn lemma_contains_implies_crossing_rect_rect(outer: Rect<i32>, inner: Rect<i32>)
    requires
        inner.size.width >= 0,
        inner.size.height >= 0,
        outer.contains_spec(&inner),
    ensures
        outer.crossing_spec(&inner),
{
}

/// A rectangle that contains a circle of non-negative radius also crosses
/// it.
pub proof fn lemma_contains_implies_crossing_rect_circle(outer: Rect<i32>, inner: Circle<i32>)
    requires
        inner.radius >= 0,
        outer.contains_spec(&inner),
    ensures
        outer.crossing_spec(&inner),
{
}

/// A circle of non-negative radius that contains a rectangle of non-negative
/// extent, positive on at least one axis, also crosses it. (A rectangle of
/// zero extent on both axes, collapsed onto a tangency corner of the circle,
/// is contained yet does not cross: the corner-region test counts exact
/// corner tangency as non-crossing.)
pub proof fn lemma_contains_implies_crossing_circle_rect(outer: Circle<i32>, inner: Rect<i32>)
    requires
        outer.radius >= 0,
        inner.size.width >= 0,
        inner.size.height >= 0,
        inner.size.width > 0 || inner.size.height > 0,
        outer.contains_spec(&inner),
    ensures
        outer.crossing_spec(&inner),
{
    let rad = outer.radius as int;
    let cx = outer.center.x as int;
    let cy = outer.center.y as int;
    let ox = inner.origin.x as int;
    let oy = inner.origin.y as int;
    let ex = inner.endpoint_x();
    let ey = inner.endpoint_y();
    lemma_sq_nonneg(cx - ox);
    lemma_sq_nonneg(cy - oy);
    lemma_sq_nonneg(cx - ex);
    lemma_sq_nonneg(cy - ey);
    lemma_sq_swap(cx, ox);
    lemma_sq_swap(cy, oy);
    lemma_sq_swap(cx, ex);
    lemma_sq_swap(cy, ey);
    lemma_abs_le_of_sq_le(cx - ox, rad);
    lemma_abs_le_of_sq_le(cy - oy, rad);
    lemma_abs_le_of_sq_le(cx - ex, rad);
    lemma_abs_le_of_sq_le(cy - ey, rad);
    if ox > cx && oy > cy {
        if inner.size.width > 0 {
            lemma_sq_strict_mono(ox - cx, ex - cx);
            lemma_sq_le_iff(oy - cy, ey - cy);
        } else {
            lemma_sq_le_iff(ox - cx, ex - cx);
            lemma_sq_strict_mono(oy - cy, ey - cy);
        }
    }
    if ex < cx && oy > cy {
        if inner.size.width > 0 {
            lemma_sq_strict_mono(cx - ex, cx - ox);
        } else {
            lemma_sq_strict_mono(oy - cy, ey - cy);
        }
    }
    if ox > cx && ey < cy {
        if inner.size.height > 0 {
            lemma_sq_strict_mono(cy - ey, cy - oy);
        } else {
            lemma_sq_strict_mono(ox - cx, ex - cx);
        }
    }
    if ex < cx && ey < cy {
        if inner.size.width > 0 {
            lemma_sq_strict_mono(cx - ex, cx - ox);
            lemma_sq_le_iff(cy - ey, cy - oy);
        } else {
            lemma_sq_le_iff(cx - ex, cx - ox);
            lemma_sq_strict_mono(cy - ey, cy - oy);
        }
    }
}

/// The corner-region crossing test agrees with the nearest-point test: a
/// rectangle of non-negative extent and a circle of non-negative radius cross
/// iff the squared distance from the center to the nearest point of the
/// rectangle is within the squared radius — strictly within where the center
/// lies in a corner region, boundary included everywhere else.
pub proof fn lemma_rect_circle_crossing_nearest_point(r: Rect<i32>, c: Circle<i32>)
    requires
        r.size.width >= 0,
        r.size.height >= 0,
        c.radius >= 0,
    ensures
        rect_circle_crossing(r, c) == if in_corner_region(r, c) {
            nearest_sq_dist(r, c) < sq(c.radius as int)
        } else {
            nearest_sq_dist(r, c) <= sq(c.radius as int)
        },
{
    let rad = c.radius as int;
    let cx = c.center.x as int;
    let cy = c.center.y as int;
    let ox = r.origin.x as int;
    let oy = r.origin.y as int;
    let ex = r.endpoint_x();
    let ey = r.endpoint_y();
    lemma_sq_nonneg(rad);
    lemma_sq_nonneg(ox - cx);
    lemma_sq_nonneg(ex - cx);
    lemma_sq_nonneg(oy - cy);
    lemma_sq_nonneg(ey - cy);
    lemma_sq_swap(cx, ox);
    lemma_sq_swap(cx, ex);
    lemma_sq_swap(cy, oy);
    lemma_sq_swap(cy, ey);
    assert(sq(0) == 0);
    if cx < ox {
        lemma_sq_le_iff(ox - cx, rad);
    }
    if cx > ex {
        lemma_sq_le_iff(cx - ex, rad);
    }
    if cy < oy {
        lemma_sq_le_iff(oy - cy, rad);
    }
    if cy > ey {
        lemma_sq_le_iff(cy - ey, rad);
    }
}

/// A point at squared distance exactly the squared radius — on the
/// circumference — crosses the circle: the boundary is included.
pub proof fn lemma_boundary_point_on_circle(c: Circle<i32>, p: Point<i32>)
    requires
        sq(c.center.x - p.x) + sq(c.center.y - p.y) == sq(c.radius as int),
    ensures
        c.crossing_spec(&p),
{
}

/// A point exactly on an edge of a rectangle of non-negative extent crosses
/// the rectangle and is contained in it: the boundary is included.
pub proof fn lemma_boundary_point_on_rect(r: Rect<i32>, p: Point<i32>)
    requires
        r.size.width >= 0,
        r.size.height >= 0,
        ({
            ||| (p.x == r.origin.x || p.x == r.endpoint_x()) && r.origin.y <= p.y
                <= r.endpoint_y()
            ||| (p.y == r.origin.y || p.y == r.endpoint_y()) && r.origin.x <= p.x
                <= r.endpoint_x()
        }),
    ensures
        r.crossing_spec(&p),
        r.contains_spec(&p),
{
}

} // verus!
