//! Axis-aligned bounding boxes in the plane.
use crate::point2::{distance2_squared, distance_squared_value, Point2};
use crate::scalar::{quotient, HasNaN, Int, Max, Min, One, Scalar, Zero};
use crate::scalar_laws;
use crate::utils;
use crate::vector2::Vector2;
use core::ops::Index;
use vstd::prelude::*;
use vstd::std_specs::ops::{AddSpec, DivSpec, SubSpec};

verus! {

/// An axis-aligned box, given by its two extreme corners.
///
/// A box made by `from_pts`, or grown from the empty box by `union_point`,
/// is valid: on each axis `p_min` is not beyond `p_max`. The empty box is not
/// valid; it holds the largest scalar in `p_min` and the smallest in `p_max`,
/// so that the first point united into it becomes both corners.
#[derive(Debug)]
pub struct Bounds2<T: Scalar> {
    pub p_min: Point2<T>,
    pub p_max: Point2<T>,
}

/// A box with integer corners.
pub type Bounds2i = Bounds2<Int>;

/// The first scalar if it is strictly less than the second, else the second.
pub open spec fn min_of<T: Scalar>(a: T, b: T) -> T {
    if a.value() < b.value() {
        a
    } else {
        b
    }
}

/// The first scalar if it is strictly greater than the second, else the
/// second.
pub open spec fn max_of<T: Scalar>(a: T, b: T) -> T {
    if a.value() > b.value() {
        a
    } else {
        b
    }
}

impl<T: Scalar> Bounds2<T> {
    /// No corner holds NaN, and on each axis `p_min` is not beyond `p_max`.
    pub open spec fn valid(self) -> bool {
        &&& !self.has_nan_spec()
        &&& self.p_min.x.value() <= self.p_max.x.value()
        &&& self.p_min.y.value() <= self.p_max.y.value()
    }

    /// Some corner holds NaN.
    pub open spec fn has_nan_spec(self) -> bool {
        self.p_min.has_nan_spec() || self.p_max.has_nan_spec()
    }

    /// The extent along the x axis, as an integer.
    pub open spec fn width(self) -> int {
        self.p_max.x.value() - self.p_min.x.value()
    }

    /// The extent along the y axis, as an integer.
    pub open spec fn height(self) -> int {
        self.p_max.y.value() - self.p_min.y.value()
    }

    /// The empty box.
    pub open spec fn empty_spec() -> Self {
        Bounds2 {
            p_min: Point2 { x: T::max_value_spec(), y: T::max_value_spec() },
            p_max: Point2 { x: T::min_value_spec(), y: T::min_value_spec() },
        }
    }

    /// The box that `from_pts` gives.
    pub open spec fn from_pts_spec(p1: Point2<T>, p2: Point2<T>) -> Self {
        Bounds2 {
            p_min: Point2 { x: min_of(p1.x, p2.x), y: min_of(p1.y, p2.y) },
            p_max: Point2 { x: max_of(p1.x, p2.x), y: max_of(p1.y, p2.y) },
        }
    }

    /// The box that `union_point` gives.
    pub open spec fn union_point_spec(self, p: Point2<T>) -> Self {
        Bounds2 {
            p_min: Point2 { x: min_of(self.p_min.x, p.x), y: min_of(self.p_min.y, p.y) },
            p_max: Point2 { x: max_of(self.p_max.x, p.x), y: max_of(self.p_max.y, p.y) },
        }
    }

    /// Whether the point lies in the box, both borders included.
    pub open spec fn inside_spec(p: Point2<T>, b: Self) -> bool {
        &&& b.p_min.x.value() <= p.x.value() <= b.p_max.x.value()
        &&& b.p_min.y.value() <= p.y.value() <= b.p_max.y.value()
    }

    /// Whether the point lies in the box, the lower border included and the
    /// upper border excluded.
    pub open spec fn inside_exclusive_spec(p: Point2<T>, b: Self) -> bool {
        &&& b.p_min.x.value() <= p.x.value() < b.p_max.x.value()
        &&& b.p_min.y.value() <= p.y.value() < b.p_max.y.value()
    }

    /// The scalar two, as the sum of one and one.
    pub open spec fn two_spec() -> T {
        T::one_spec().add_spec(T::one_spec())
    }

    /// The midpoint of the two corners, each coordinate rounded toward zero.
    pub open spec fn center_spec(self) -> Point2<T> {
        self.p_min.add_spec(self.p_max).div_spec(Self::two_spec())
    }

    /// The empty box: `p_min` holds the largest scalar and `p_max` the
    /// smallest, on both axes.
    pub fn new() -> (r: Self)
        ensures
            r == Self::empty_spec(),
            !r.has_nan_spec(),
    {
        proof {
            T::lemma_constants();
        }
        Self {
            p_min: Point2::<T>::new(T::max_value(), T::max_value()),
            p_max: Point2::<T>::new(T::min_value(), T::min_value()),
        }
    }

    /// The smallest box that holds both points, whatever their order.
    pub fn from_pts(p1: Point2<T>, p2: Point2<T>) -> (r: Self)
        requires
            !p1.has_nan_spec(),
            !p2.has_nan_spec(),
        ensures
            r == Self::from_pts_spec(p1, p2),
            r.valid(),
            Self::inside_spec(p1, r),
            Self::inside_spec(p2, r),
    {
        proof {
            T::lemma_order(p1.x, p2.x);
            T::lemma_order(p1.y, p2.y);
        }
        Self {
            p_min: Point2::<T>::new(T::min(p1.x, p2.x), T::min(p1.y, p2.y)),
            p_max: Point2::<T>::new(T::max(p1.x, p2.x), T::max(p1.y, p2.y)),
        }
    }

    /// The smallest box that holds this box and the point.
    pub fn union_point(&self, p: &Point2<T>) -> (r: Self)
        requires
            !self.has_nan_spec(),
            !p.has_nan_spec(),
        ensures
            r == self.union_point_spec(*p),
            !r.has_nan_spec(),
            Self::inside_spec(*p, r),
            self.valid() ==> r.valid(),
    {
        proof {
            T::lemma_order(self.p_min.x, p.x);
            T::lemma_order(self.p_min.y, p.y);
            T::lemma_order(self.p_max.x, p.x);
            T::lemma_order(self.p_max.y, p.y);
        }
        Self {
            p_min: Point2::<T>::new(T::min(self.p_min.x, p.x), T::min(self.p_min.y, p.y)),
            p_max: Point2::<T>::new(T::max(self.p_max.x, p.x), T::max(self.p_max.y, p.y)),
        }
    }

    /// The vector from `p_min` to `p_max`.
    pub fn diagonal(&self) -> (r: Vector2<T>)
        requires
            self.p_max.sub_req(self.p_min),
        ensures
            r == self.p_max.sub_spec(self.p_min),
            !r.has_nan_spec(),
            r.x.value() == self.width(),
            r.y.value() == self.height(),
    {
        self.p_max - self.p_min
    }

    /// The area: width times height.
    pub fn area(&self) -> (r: T)
        requires
            self.p_max.sub_req(self.p_min),
            T::representable(self.width() * self.height()),
        ensures
            !r.has_nan_spec(),
            r.value() == self.width() * self.height(),
    {
        let d = self.p_max - self.p_min;
        proof {
            T::lemma_mul(d.x, d.y);
        }
        d.x * d.y
    }

    /// The axis along which the box is longest: 0 for x, 1 for y, and 0 when
    /// both extents are equal.
    pub fn maximum_extent(&self) -> (r: Int)
        requires
            self.p_max.sub_req(self.p_min),
        ensures
            r == (if self.width() >= self.height() {
                0i32
            } else {
                1i32
            }),
    {
        let diagonal = self.diagonal();
        proof {
            T::lemma_order(diagonal.x, diagonal.y);
        }
        if diagonal.x >= diagonal.y {
            0
        } else {
            1
        }
    }

    /// When `lerp` may be called: each axis may be interpolated.
    pub open spec fn lerp_req(self, t: Point2<T>) -> bool {
        &&& utils::lerp_req(t.x, self.p_min.x, self.p_max.x)
        &&& utils::lerp_req(t.y, self.p_min.y, self.p_max.y)
    }

    /// The point of the box at the relative position `t`: `p_min` where `t`
    /// is zero and `p_max` where it is one, on each axis by itself.
    pub fn lerp(&self, t: &Point2<T>) -> (r: Point2<T>)
        requires
            self.lerp_req(*t),
        ensures
            r.x == utils::lerp_spec(t.x, self.p_min.x, self.p_max.x),
            r.y == utils::lerp_spec(t.y, self.p_min.y, self.p_max.y),
            !r.has_nan_spec(),
            r.x.value() == utils::lerp_value(
                t.x.value(),
                self.p_min.x.value(),
                self.p_max.x.value(),
            ),
            r.y.value() == utils::lerp_value(
                t.y.value(),
                self.p_min.y.value(),
                self.p_max.y.value(),
            ),
    {
        Point2::<T>::new(
            utils::lerp(t.x, self.p_min.x, self.p_max.x),
            utils::lerp(t.y, self.p_min.y, self.p_max.y),
        )
    }

    /// One coordinate of `offset`: the distance from the lower border,
    /// divided by the extent where the extent is positive.
    pub open spec fn offset_value(p: int, lo: int, hi: int) -> int {
        if hi > lo {
            quotient(p - lo, hi - lo)
        } else {
            p - lo
        }
    }

    /// When `offset` may be called: nothing is NaN, the point's distance
    /// from `p_min` is representable, and so is each positive extent.
    pub open spec fn offset_req(self, p: Point2<T>) -> bool {
        &&& !self.has_nan_spec()
        &&& p.sub_req(self.p_min)
        &&& self.width() > 0 ==> T::representable(self.width())
        &&& self.height() > 0 ==> T::representable(self.height())
    }

    /// The position of the point relative to the box. On an axis with a
    /// positive extent the distance from `p_min` is divided by the extent;
    /// on an axis without one the distance is handed back as it is, and
    /// nothing is divided.
    pub fn offset(&self, p: &Point2<T>) -> (r: Vector2<T>)
        requires
            self.offset_req(*p),
        ensures
            !r.has_nan_spec(),
            r.x.value() == Self::offset_value(
                p.x.value(),
                self.p_min.x.value(),
                self.p_max.x.value(),
            ),
            r.y.value() == Self::offset_value(
                p.y.value(),
                self.p_min.y.value(),
                self.p_max.y.value(),
            ),
    {
        let mut o = *p - self.p_min;
        proof {
            T::lemma_order(self.p_max.x, self.p_min.x);
            T::lemma_order(self.p_max.y, self.p_min.y);
            T::lemma_sub(self.p_max.x, self.p_min.x);
            T::lemma_sub(self.p_max.y, self.p_min.y);
        }
        if self.p_max.x > self.p_min.x {
            let extent = self.p_max.x - self.p_min.x;
            proof {
                scalar_laws::lemma_div_by_positive(o.x, extent);
            }
            o.x = o.x / extent;
        }
        if self.p_max.y > self.p_min.y {
            let extent = self.p_max.y - self.p_min.y;
            proof {
                scalar_laws::lemma_div_by_positive(o.y, extent);
            }
            o.y = o.y / extent;
        }
        o
    }

    /// Whether the point lies in the box, both borders included.
    pub fn inside(p: &Point2<T>, b: &Bounds2<T>) -> (r: bool)
        requires
            !p.has_nan_spec(),
            !b.has_nan_spec(),
        ensures
            r == Self::inside_spec(*p, *b),
    {
        proof {
            T::lemma_order(p.x, b.p_min.x);
            T::lemma_order(p.x, b.p_max.x);
            T::lemma_order(p.y, b.p_min.y);
            T::lemma_order(p.y, b.p_max.y);
        }
        p.x >= b.p_min.x && p.x <= b.p_max.x && p.y >= b.p_min.y && p.y <= b.p_max.y
    }

    /// Whether the point lies in the box, the lower border included and the
    /// upper border excluded.
    pub fn inside_exclusive(p: &Point2<T>, b: &Bounds2<T>) -> (r: bool)
        requires
            !p.has_nan_spec(),
            !b.has_nan_spec(),
        ensures
            r == Self::inside_exclusive_spec(*p, *b),
    {
        proof {
            T::lemma_order(p.x, b.p_min.x);
            T::lemma_order(p.x, b.p_max.x);
            T::lemma_order(p.y, b.p_min.y);
            T::lemma_order(p.y, b.p_max.y);
        }
        p.x >= b.p_min.x && p.x < b.p_max.x && p.y >= b.p_min.y && p.y < b.p_max.y
    }

    /// When `bounding_sphere` may be called: nothing is NaN, two and the sum
    /// of the corners are representable, and where the center lies in the
    /// box its squared distance from `p_max` can be computed.
    pub open spec fn bounding_sphere_req(self) -> bool {
        &&& T::representable(2)
        &&& self.p_min.add_req(self.p_max)
        &&& Self::inside_spec(self.center_spec(), self) ==> {
            &&& self.center_spec().sub_req(self.p_max)
            &&& T::representable(distance_squared_value(self.center_spec(), self.p_max))
        }
    }

    /// The center and the squared radius of a circle around the box. The
    /// center is the midpoint of the corners. The squared radius is the
    /// squared distance from the center to `p_max` where the center lies in
    /// the box, and zero where it does not.
    pub fn bounding_sphere(&self, c: &mut Point2<T>, rad_squared: &mut T)
        requires
            self.bounding_sphere_req(),
        ensures
            *final(c) == self.center_spec(),
            !final(c).has_nan_spec(),
            final(c).x.value() == quotient(self.p_min.x.value() + self.p_max.x.value(), 2),
            final(c).y.value() == quotient(self.p_min.y.value() + self.p_max.y.value(), 2),
            !final(rad_squared).has_nan_spec(),
            final(rad_squared).value() == (if Self::inside_spec(self.center_spec(), *self) {
                distance_squared_value(self.center_spec(), self.p_max)
            } else {
                0
            }),
    {
        proof {
            T::lemma_constants();
            T::lemma_add(T::one_spec(), T::one_spec());
        }
        let two = T::one() + T::one();
        let sum = self.p_min + self.p_max;
        proof {
            scalar_laws::lemma_div_by_positive(sum.x, two);
            scalar_laws::lemma_div_by_positive(sum.y, two);
        }
        *c = sum / two;
        if Self::inside(c, self) {
            proof {
                T::lemma_sub(c.x, self.p_max.x);
                T::lemma_sub(c.y, self.p_max.y);
            }
            *rad_squared = distance2_squared(c, &self.p_max);
        } else {
            *rad_squared = T::zero();
        }
    }

    /// The box made of two points does not depend on their order.
    pub proof fn lemma_from_pts_symmetric(p1: Point2<T>, p2: Point2<T>)
        requires
            !p1.has_nan_spec(),
            !p2.has_nan_spec(),
        ensures
            Self::from_pts_spec(p1, p2) == Self::from_pts_spec(p2, p1),
    {
        T::lemma_value(p1.x, p2.x);
        T::lemma_value(p1.y, p2.y);
    }

    /// Uniting a point into the empty box gives the box whose two corners
    /// are that point.
    pub proof fn lemma_union_into_empty(p: Point2<T>)
        requires
            !p.has_nan_spec(),
        ensures
            Self::empty_spec().union_point_spec(p) == (Bounds2 { p_min: p, p_max: p }),
            Self::empty_spec().union_point_spec(p).valid(),
    {
        T::lemma_constants();
        T::lemma_value(p.x, T::max_value_spec());
        T::lemma_value(p.y, T::min_value_spec());
        T::lemma_representable(p.x.value());
        T::lemma_representable(p.y.value());
    }
}

impl<T: Scalar> Clone for Bounds2<T> {
    /// A copy of the box.
    fn clone(&self) -> (r: Self)
        ensures
            r == *self,
    {
        *self
    }
}

impl<T: Scalar> Copy for Bounds2<T> {

}

impl<T: Scalar> Default for Bounds2<T> {
    /// The empty box.
    fn default() -> (r: Self)
        ensures
            r == Self::empty_spec(),
    {
        Self::new()
    }
}

impl<T: Scalar> vstd::std_specs::core::IndexSpecImpl<Int> for Bounds2<T> {
    open spec fn index_req(&self, idx: &Int) -> bool {
        0 <= *idx <= 1
    }
}

impl<T: Scalar> Index<Int> for Bounds2<T> {
    type Output = Point2<T>;

    /// Corner 0 is `p_min` and corner 1 is `p_max`. Any other index is
    /// outside the contract, and stops the program.
    fn index(&self, idx: Int) -> (r: &Point2<T>)
        ensures
            *r == (if idx == 0 {
                self.p_min
            } else {
                self.p_max
            }),
    {
        match idx {
            0 => &self.p_min,
            1 => &self.p_max,
            _ => vstd::pervasive::unreached(),
        }
    }
}

} // verus!
