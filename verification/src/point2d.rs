//! The point of the plane, its arithmetic and its equality.

use crate::model::IntPoint;
use crate::operations::dot_computable;
use crate::operations::Area;
use crate::operations::GeometryOperations;
use crate::point::representable;
use crate::point::Point;
use crate::scalar::quotient_toward_zero;
use crate::scalar::PointType;
use crate::text::is_pair_text;
use crate::text::join_pair;
use crate::text::write_integer;
use vstd::prelude::*;
use vstd::std_specs::cmp::PartialEqSpec;
use vstd::std_specs::ops::AddSpec;
use vstd::std_specs::ops::DivSpec;
use vstd::std_specs::ops::MulSpec;
use vstd::std_specs::ops::SubSpec;

verus! {

/// A point of the plane, or a vector: two coordinates of one scalar type.
#[derive(Copy, Debug)]
pub struct Point2D<T: PointType> {
    pub x: T,
    pub y: T,
}

impl<T: PointType> Clone for Point2D<T> {
    fn clone(&self) -> (copy: Point2D<T>)
        ensures
            copy == *self,
    {
        *self
    }
}

impl<T: PointType> View for Point2D<T> {
    type V = IntPoint;

    /// The point of the integer lattice that the coordinates stand for. The
    /// plane is the part of space where `z` is zero.
    open spec fn view(&self) -> IntPoint {
        IntPoint { x: self.x.value(), y: self.y.value(), z: 0 }
    }
}

impl<T: PointType> DeepView for Point2D<T> {
    type V = IntPoint;

    open spec fn deep_view(&self) -> IntPoint {
        self@
    }
}

impl<T: PointType> Point2D<T> {
    /// The point with the given coordinates.
    pub fn new(x: T, y: T) -> (p: Point2D<T>)
        ensures
            p == (Point2D { x, y }),
    {
        Point2D { x, y }
    }

    /// The same point as a point of space, where its `z` is zero.
    pub fn in_space(self) -> (p: Point<T>)
        ensures
            p@ == self@,
            p.x == self.x,
            p.y == self.y,
    {
        Point::new(self.x, self.y, T::zero())
    }

    /// The point as text: the two coordinates as `Display` writes them,
    /// between parentheses and with a comma between them.
    pub fn to_string(&self) -> (text: String)
        ensures
            is_pair_text(self@.x, self@.y, text@),
    {
        let x = write_integer(self.x.widen());
        let y = write_integer(self.y.widen());
        join_pair(x.as_str(), y.as_str())
    }

    /// The coordinates of a point are representable, and two points with the
    /// same integer coordinates are the same point.
    pub proof fn lemma_view(self, other: Point2D<T>)
        ensures
            representable::<T>(self@),
            self@ == other@ <==> self == other,
    {
        T::lemma_value(self.x, other.x);
        T::lemma_value(self.y, other.y);
    }

    /// Where the sum can be computed, it stands for the sum of the vectors.
    pub proof fn lemma_sum(self, rhs: Point2D<T>)
        requires
            self.add_req(rhs),
        ensures
            self.add_spec(rhs)@ == self@.plus(rhs@),
    {
        T::lemma_add(self.x, rhs.x);
        T::lemma_add(self.y, rhs.y);
    }

    /// Where the difference can be computed, it stands for the difference of
    /// the vectors.
    pub proof fn lemma_difference(self, rhs: Point2D<T>)
        requires
            self.sub_req(rhs),
        ensures
            self.sub_spec(rhs)@ == self@.minus(rhs@),
    {
        T::lemma_sub(self.x, rhs.x);
        T::lemma_sub(self.y, rhs.y);
    }

    /// Where the multiple can be computed, it stands for the scaled vector.
    pub proof fn lemma_multiple(self, rhs: T)
        requires
            self.mul_req(rhs),
        ensures
            self.mul_spec(rhs)@ == self@.scaled(rhs.value()),
    {
        T::lemma_mul(self.x, rhs);
        T::lemma_mul(self.y, rhs);
    }
}

/// Zero divided by any number but zero is zero.
proof fn lemma_zero_divided(k: int)
    requires
        k != 0,
    ensures
        quotient_toward_zero(0, k) == 0,
{
    assert(0int / k == 0) by (nonlinear_arith)
        requires
            k != 0,
    ;
}

impl<T: PointType> core::default::Default for Point2D<T> {
    /// The origin.
    fn default() -> (origin: Point2D<T>)
        ensures
            origin@ == (IntPoint { x: 0, y: 0, z: 0 }),
    {
        Point2D::new(T::zero(), T::zero())
    }
}

impl<T: PointType> vstd::std_specs::ops::AddSpecImpl<Point2D<T>> for Point2D<T> {
    open spec fn obeys_add_spec() -> bool {
        true
    }

    /// The sum must be representable.
    open spec fn add_req(self, rhs: Point2D<T>) -> bool {
        representable::<T>(self@.plus(rhs@))
    }

    open spec fn add_spec(self, rhs: Point2D<T>) -> Point2D<T> {
        Point2D { x: self.x.add_spec(rhs.x), y: self.y.add_spec(rhs.y) }
    }
}

impl<T: PointType> core::ops::Add<Point2D<T>> for Point2D<T> {
    type Output = Point2D<T>;

    /// The sum of two vectors, coordinate by coordinate.
    fn add(self, rhs: Point2D<T>) -> (r: Point2D<T>)
        ensures
            r@ == self@.plus(rhs@),
    {
        proof {
            T::lemma_add(self.x, rhs.x);
            T::lemma_add(self.y, rhs.y);
        }
        Point2D::new(self.x + rhs.x, self.y + rhs.y)
    }
}

impl<T: PointType> vstd::std_specs::ops::SubSpecImpl<Point2D<T>> for Point2D<T> {
    open spec fn obeys_sub_spec() -> bool {
        true
    }

    /// The difference must be representable.
    open spec fn sub_req(self, rhs: Point2D<T>) -> bool {
        representable::<T>(self@.minus(rhs@))
    }

    open spec fn sub_spec(self, rhs: Point2D<T>) -> Point2D<T> {
        Point2D { x: self.x.sub_spec(rhs.x), y: self.y.sub_spec(rhs.y) }
    }
}

impl<T: PointType> core::ops::Sub<Point2D<T>> for Point2D<T> {
    type Output = Point2D<T>;

    /// The difference of two vectors, coordinate by coordinate.
    fn sub(self, rhs: Point2D<T>) -> (r: Point2D<T>)
        ensures
            r@ == self@.minus(rhs@),
    {
        proof {
            T::lemma_sub(self.x, rhs.x);
            T::lemma_sub(self.y, rhs.y);
        }
        Point2D::new(self.x - rhs.x, self.y - rhs.y)
    }
}

impl<T: PointType> vstd::std_specs::ops::MulSpecImpl<T> for Point2D<T> {
    open spec fn obeys_mul_spec() -> bool {
        true
    }

    /// Each product must be representable.
    open spec fn mul_req(self, rhs: T) -> bool {
        representable::<T>(self@.scaled(rhs.value()))
    }

    open spec fn mul_spec(self, rhs: T) -> Point2D<T> {
        Point2D { x: self.x.mul_spec(rhs), y: self.y.mul_spec(rhs) }
    }
}

impl<T: PointType> core::ops::Mul<T> for Point2D<T> {
    type Output = Point2D<T>;

    /// The vector with each coordinate multiplied by the scalar.
    fn mul(self, rhs: T) -> (r: Point2D<T>)
        ensures
            r@ == self@.scaled(rhs.value()),
    {
        proof {
            T::lemma_mul(self.x, rhs);
            T::lemma_mul(self.y, rhs);
        }
        Point2D::new(self.x * rhs, self.y * rhs)
    }
}

impl<T: PointType> vstd::std_specs::ops::DivSpecImpl<T> for Point2D<T> {
    open spec fn obeys_div_spec() -> bool {
        true
    }

    /// The scalar must not be zero, and each quotient must be representable.
    open spec fn div_req(self, rhs: T) -> bool {
        rhs.value() != 0 && representable::<T>(self@.divided(rhs.value()))
    }

    open spec fn div_spec(self, rhs: T) -> Point2D<T> {
        Point2D { x: self.x.div_spec(rhs), y: self.y.div_spec(rhs) }
    }
}

impl<T: PointType> core::ops::Div<T> for Point2D<T> {
    type Output = Point2D<T>;

    /// The vector with each coordinate divided by the scalar, rounded toward zero.
    fn div(self, rhs: T) -> (r: Point2D<T>)
        ensures
            r@ == self@.divided(rhs.value()),
    {
        proof {
            T::lemma_div(self.x, rhs);
            T::lemma_div(self.y, rhs);
            lemma_zero_divided(rhs.value());
        }
        Point2D::new(self.x / rhs, self.y / rhs)
    }
}

impl<T: PointType> core::ops::AddAssign<Point2D<T>> for Point2D<T> {
    /// Replaces the vector by its sum with `rhs`.
    fn add_assign(&mut self, rhs: Point2D<T>)
        requires
            old(self).add_req(rhs),
        ensures
            *final(self) == old(self).add_spec(rhs),
            final(self)@ == old(self)@.plus(rhs@),
    {
        *self = *self + rhs
    }
}

impl<T: PointType> core::ops::SubAssign<Point2D<T>> for Point2D<T> {
    /// Replaces the vector by its difference with `rhs`.
    fn sub_assign(&mut self, rhs: Point2D<T>)
        requires
            old(self).sub_req(rhs),
        ensures
            *final(self) == old(self).sub_spec(rhs),
            final(self)@ == old(self)@.minus(rhs@),
    {
        *self = *self - rhs
    }
}

impl<T: PointType> core::ops::MulAssign<T> for Point2D<T> {
    /// Replaces the vector by its multiple by `rhs`.
    fn mul_assign(&mut self, rhs: T)
        requires
            old(self).mul_req(rhs),
        ensures
            *final(self) == old(self).mul_spec(rhs),
            final(self)@ == old(self)@.scaled(rhs.value()),
    {
        *self = *self * rhs
    }
}

impl<T: PointType> core::ops::DivAssign<T> for Point2D<T> {
    /// Replaces the vector by its quotient by `rhs`.
    fn div_assign(&mut self, rhs: T)
        requires
            old(self).div_req(rhs),
        ensures
            *final(self) == old(self).div_spec(rhs),
            final(self)@ == old(self)@.divided(rhs.value()),
    {
        *self = *self / rhs
    }
}

impl<T: PointType> vstd::std_specs::cmp::PartialEqSpecImpl for Point2D<T> {
    open spec fn obeys_eq_spec() -> bool {
        true
    }

    /// Equality is exact and coordinate by coordinate.
    open spec fn eq_spec(&self, other: &Point2D<T>) -> bool {
        self@ == other@
    }
}

impl<T: PointType> core::cmp::PartialEq for Point2D<T> {
    /// Whether the two points have the same coordinates.
    fn eq(&self, other: &Point2D<T>) -> (equal: bool)
        ensures
            equal <==> *self == *other,
    {
        proof {
            T::lemma_eq(self.x, other.x);
            T::lemma_eq(self.y, other.y);
            self.lemma_view(*other);
        }
        self.x == other.x && self.y == other.y
    }
}

/// The dot product of two vectors of the plane: the sum of the products of
/// their coordinates.
pub fn dot<T: PointType>(a: &Point2D<T>, b: &Point2D<T>) -> (product: T)
    requires
        dot_computable::<T>(a@, b@),
    ensures
        product.value() == a@.dot(b@),
{
    proof {
        T::lemma_mul(a.x, b.x);
        T::lemma_mul(a.y, b.y);
    }
    let xx = a.x * b.x;
    let yy = a.y * b.y;
    proof {
        T::lemma_add(xx, yy);
    }
    xx + yy
}

impl<T: PointType> GeometryOperations<T> for Point2D<T> {
    fn signed_area_of_parallelogram(a: Point2D<T>, b: Point2D<T>, c: Point2D<T>) -> (area: i128) {
        Point::signed_area_of_parallelogram(a.in_space(), b.in_space(), c.in_space())
    }

    fn area_of_polygon(points: Vec<Point2D<T>>) -> (area: Area) {
        let n = points.len();
        let mut corners: Vec<Point<T>> = Vec::with_capacity(n);
        for i in 0..n
            invariant
                n == points.len(),
                corners.len() == i,
                forall|j: int| 0 <= j < i ==> corners[j]@ == #[trigger] points[j]@,
        {
            corners.push(points[i].in_space());
        }
        assert(corners.deep_view() =~= points.deep_view());
        Point::area_of_polygon(corners)
    }
}

} // verus!
