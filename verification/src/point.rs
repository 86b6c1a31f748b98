//! The point type, its arithmetic, its equality and its order.

use crate::model::IntPoint;
use crate::scalar::PointType;
use crate::text::is_triple_text;
use crate::text::join_triple;
use crate::text::write_integer;
use core::cmp::Ordering;
use vstd::prelude::*;
use vstd::std_specs::cmp::PartialEqSpec;
use vstd::std_specs::cmp::PartialOrdIs;
use vstd::std_specs::cmp::PartialOrdSpec;
use vstd::std_specs::ops::AddSpec;
use vstd::std_specs::ops::DivSpec;
use vstd::std_specs::ops::MulSpec;
use vstd::std_specs::ops::SubSpec;

verus! {

/// A point of space, or a vector: three coordinates of one scalar type.
#[derive(Copy, Debug)]
pub struct Point<T: PointType> {
    pub x: T,
    pub y: T,
    pub z: T,
}

impl<T: PointType> Clone for Point<T> {
    fn clone(&self) -> (copy: Point<T>)
        ensures
            copy == *self,
    {
        *self
    }
}

impl<T: PointType> View for Point<T> {
    type V = IntPoint;

    /// The point of the integer lattice that the coordinates stand for.
    open spec fn view(&self) -> IntPoint {
        IntPoint { x: self.x.value(), y: self.y.value(), z: self.z.value() }
    }
}

impl<T: PointType> DeepView for Point<T> {
    type V = IntPoint;

    open spec fn deep_view(&self) -> IntPoint {
        self@
    }
}

/// Whether each coordinate of `p` can be held by the scalar `T`.
pub open spec fn representable<T: PointType>(p: IntPoint) -> bool {
    T::fits(p.x) && T::fits(p.y) && T::fits(p.z)
}

impl<T: PointType> Point<T> {
    /// The point with the given coordinates.
    pub fn new(x: T, y: T, z: T) -> (p: Point<T>)
        ensures
            p == (Point { x, y, z }),
    {
        Point { x, y, z }
    }

    /// The point as text: the three coordinates as `Display` writes them,
    /// between parentheses and with commas between them.
    pub fn to_string(&self) -> (text: String)
        ensures
            is_triple_text(self@.x, self@.y, self@.z, text@),
    {
        let x = write_integer(self.x.widen());
        let y = write_integer(self.y.widen());
        let z = write_integer(self.z.widen());
        join_triple(x.as_str(), y.as_str(), z.as_str())
    }

    /// The coordinates of a point are representable, and two points with the
    /// same integer coordinates are the same point.
    pub proof fn lemma_view(self, other: Point<T>)
        ensures
            representable::<T>(self@),
            self@ == other@ <==> self == other,
    {
        T::lemma_value(self.x, other.x);
        T::lemma_value(self.y, other.y);
        T::lemma_value(self.z, other.z);
    }
}

impl<T: PointType> Point<T> {
    /// Where the sum can be computed, it stands for the sum of the vectors.
    pub proof fn lemma_sum(self, rhs: Point<T>)
        requires
            self.add_req(rhs),
        ensures
            self.add_spec(rhs)@ == self@.plus(rhs@),
    {
        T::lemma_add(self.x, rhs.x);
        T::lemma_add(self.y, rhs.y);
        T::lemma_add(self.z, rhs.z);
    }

    /// Where the difference can be computed, it stands for the difference of
    /// the vectors.
    pub proof fn lemma_difference(self, rhs: Point<T>)
        requires
            self.sub_req(rhs),
        ensures
            self.sub_spec(rhs)@ == self@.minus(rhs@),
    {
        T::lemma_sub(self.x, rhs.x);
        T::lemma_sub(self.y, rhs.y);
        T::lemma_sub(self.z, rhs.z);
    }

    /// Where the multiple can be computed, it stands for the scaled vector.
    pub proof fn lemma_multiple(self, rhs: T)
        requires
            self.mul_req(rhs),
        ensures
            self.mul_spec(rhs)@ == self@.scaled(rhs.value()),
    {
        T::lemma_mul(self.x, rhs);
        T::lemma_mul(self.y, rhs);
        T::lemma_mul(self.z, rhs);
    }
}

impl<T: PointType> core::default::Default for Point<T> {
    /// The origin.
    fn default() -> (origin: Point<T>)
        ensures
            origin@ == (IntPoint { x: 0, y: 0, z: 0 }),
    {
        Point::new(T::zero(), T::zero(), T::zero())
    }
}

impl<T: PointType> vstd::std_specs::ops::AddSpecImpl<Point<T>> for Point<T> {
    open spec fn obeys_add_spec() -> bool {
        true
    }

    /// The sum must be representable.
    open spec fn add_req(self, rhs: Point<T>) -> bool {
        representable::<T>(self@.plus(rhs@))
    }

    open spec fn add_spec(self, rhs: Point<T>) -> Point<T> {
        Point {
            x: self.x.add_spec(rhs.x),
            y: self.y.add_spec(rhs.y),
            z: self.z.add_spec(rhs.z),
        }
    }
}

impl<T: PointType> core::ops::Add<Point<T>> for Point<T> {
    type Output = Point<T>;

    /// The sum of two vectors, coordinate by coordinate.
    fn add(self, rhs: Point<T>) -> (r: Point<T>)
        ensures
            r@ == self@.plus(rhs@),
    {
        proof {
            T::lemma_add(self.x, rhs.x);
            T::lemma_add(self.y, rhs.y);
            T::lemma_add(self.z, rhs.z);
        }
        Point::new(self.x + rhs.x, self.y + rhs.y, self.z + rhs.z)
    }
}

impl<'a, 'b, T: PointType> vstd::std_specs::ops::AddSpecImpl<&'b Point<T>> for &'a Point<T> {
    open spec fn obeys_add_spec() -> bool {
        true
    }

    /// The sum must be representable.
    open spec fn add_req(self, other: &'b Point<T>) -> bool {
        representable::<T>(self@.plus(other@))
    }

    open spec fn add_spec(self, other: &'b Point<T>) -> Point<T> {
        Point {
            x: self.x.add_spec(other.x),
            y: self.y.add_spec(other.y),
            z: self.z.add_spec(other.z),
        }
    }
}

impl<'a, 'b, T: PointType> core::ops::Add<&'b Point<T>> for &'a Point<T> {
    type Output = Point<T>;

    /// The sum of two vectors behind references.
    fn add(self, other: &'b Point<T>) -> (r: Point<T>)
        ensures
            r@ == self@.plus(other@),
    {
        proof {
            T::lemma_add(self.x, other.x);
            T::lemma_add(self.y, other.y);
            T::lemma_add(self.z, other.z);
        }
        Point { x: self.x + other.x, y: self.y + other.y, z: self.z + other.z }
    }
}

impl<T: PointType> vstd::std_specs::ops::SubSpecImpl<Point<T>> for Point<T> {
    open spec fn obeys_sub_spec() -> bool {
        true
    }

    /// The difference must be representable.
    open spec fn sub_req(self, rhs: Point<T>) -> bool {
        representable::<T>(self@.minus(rhs@))
    }

    open spec fn sub_spec(self, rhs: Point<T>) -> Point<T> {
        Point {
            x: self.x.sub_spec(rhs.x),
            y: self.y.sub_spec(rhs.y),
            z: self.z.sub_spec(rhs.z),
        }
    }
}

impl<T: PointType> core::ops::Sub<Point<T>> for Point<T> {
    type Output = Point<T>;

    /// The difference of two vectors, coordinate by coordinate.
    fn sub(self, rhs: Point<T>) -> (r: Point<T>)
        ensures
            r@ == self@.minus(rhs@),
    {
        proof {
            T::lemma_sub(self.x, rhs.x);
            T::lemma_sub(self.y, rhs.y);
            T::lemma_sub(self.z, rhs.z);
        }
        Point::new(self.x - rhs.x, self.y - rhs.y, self.z - rhs.z)
    }
}

impl<'a, 'b, T: PointType> vstd::std_specs::ops::SubSpecImpl<&'b Point<T>> for &'a Point<T> {
    open spec fn obeys_sub_spec() -> bool {
        true
    }

    /// The difference must be representable.
    open spec fn sub_req(self, other: &'b Point<T>) -> bool {
        representable::<T>(self@.minus(other@))
    }

    open spec fn sub_spec(self, other: &'b Point<T>) -> Point<T> {
        Point {
            x: self.x.sub_spec(other.x),
            y: self.y.sub_spec(other.y),
            z: self.z.sub_spec(other.z),
        }
    }
}

impl<'a, 'b, T: PointType> core::ops::Sub<&'b Point<T>> for &'a Point<T> {
    type Output = Point<T>;

    /// The difference of two vectors behind references.
    fn sub(self, other: &'b Point<T>) -> (r: Point<T>)
        ensures
            r@ == self@.minus(other@),
    {
        proof {
            T::lemma_sub(self.x, other.x);
            T::lemma_sub(self.y, other.y);
            T::lemma_sub(self.z, other.z);
        }
        Point { x: self.x - other.x, y: self.y - other.y, z: self.z - other.z }
    }
}

impl<T: PointType> vstd::std_specs::ops::MulSpecImpl<T> for Point<T> {
    open spec fn obeys_mul_spec() -> bool {
        true
    }

    /// Each product must be representable.
    open spec fn mul_req(self, rhs: T) -> bool {
        representable::<T>(self@.scaled(rhs.value()))
    }

    open spec fn mul_spec(self, rhs: T) -> Point<T> {
        Point { x: self.x.mul_spec(rhs), y: self.y.mul_spec(rhs), z: self.z.mul_spec(rhs) }
    }
}

impl<T: PointType> core::ops::Mul<T> for Point<T> {
    type Output = Point<T>;

    /// The vector with each coordinate multiplied by the scalar.
    fn mul(self, rhs: T) -> (r: Point<T>)
        ensures
            r@ == self@.scaled(rhs.value()),
    {
        proof {
            T::lemma_mul(self.x, rhs);
            T::lemma_mul(self.y, rhs);
            T::lemma_mul(self.z, rhs);
        }
        Point::new(self.x * rhs, self.y * rhs, self.z * rhs)
    }
}

impl<T: PointType> vstd::std_specs::ops::DivSpecImpl<T> for Point<T> {
    open spec fn obeys_div_spec() -> bool {
        true
    }

    /// The scalar must not be zero, and each quotient must be representable.
    open spec fn div_req(self, rhs: T) -> bool {
        rhs.value() != 0 && representable::<T>(self@.divided(rhs.value()))
    }

    open spec fn div_spec(self, rhs: T) -> Point<T> {
        Point { x: self.x.div_spec(rhs), y: self.y.div_spec(rhs), z: self.z.div_spec(rhs) }
    }
}

impl<T: PointType> core::ops::Div<T> for Point<T> {
    type Output = Point<T>;

    /// The vector with each coordinate divided by the scalar, rounded toward zero.
    fn div(self, rhs: T) -> (r: Point<T>)
        ensures
            r@ == self@.divided(rhs.value()),
    {
        proof {
            T::lemma_div(self.x, rhs);
            T::lemma_div(self.y, rhs);
            T::lemma_div(self.z, rhs);
        }
        Point::new(self.x / rhs, self.y / rhs, self.z / rhs)
    }
}

impl<T: PointType> core::ops::AddAssign<Point<T>> for Point<T> {
    /// Replaces the vector by its sum with `rhs`.
    fn add_assign(&mut self, rhs: Point<T>)
        requires
            old(self).add_req(rhs),
        ensures
            *final(self) == old(self).add_spec(rhs),
            final(self)@ == old(self)@.plus(rhs@),
    {
        *self = *self + rhs
    }
}

impl<T: PointType> core::ops::SubAssign<Point<T>> for Point<T> {
    /// Replaces the vector by its difference with `rhs`.
    fn sub_assign(&mut self, rhs: Point<T>)
        requires
            old(self).sub_req(rhs),
        ensures
            *final(self) == old(self).sub_spec(rhs),
            final(self)@ == old(self)@.minus(rhs@),
    {
        *self = *self - rhs
    }
}

impl<T: PointType> core::ops::MulAssign<T> for Point<T> {
    /// Replaces the vector by its multiple by `rhs`.
    fn mul_assign(&mut self, rhs: T)
        requires
            old(self).mul_req(rhs),
        ensures
            *final(self) == old(self).mul_spec(rhs),
            final(self)@ == old(self)@.scaled(rhs.value()),
    {
        *self = *self * rhs
    }
}

impl<T: PointType> core::ops::DivAssign<T> for Point<T> {
    /// Replaces the vector by its quotient by `rhs`.
    fn div_assign(&mut self, rhs: T)
        requires
            old(self).div_req(rhs),
        ensures
            *final(self) == old(self).div_spec(rhs),
            final(self)@ == old(self)@.divided(rhs.value()),
    {
        *self = *self / rhs
    }
}

impl<T: PointType> vstd::std_specs::cmp::PartialEqSpecImpl for Point<T> {
    open spec fn obeys_eq_spec() -> bool {
        true
    }

    /// Equality is exact and coordinate by coordinate.
    open spec fn eq_spec(&self, other: &Point<T>) -> bool {
        self@ == other@
    }
}

impl<T: PointType> core::cmp::PartialEq for Point<T> {
    /// Whether the two points have the same coordinates.
    fn eq(&self, other: &Point<T>) -> (equal: bool)
        ensures
            equal <==> *self == *other,
    {
        proof {
            T::lemma_eq(self.x, other.x);
            T::lemma_eq(self.y, other.y);
            T::lemma_eq(self.z, other.z);
            self.lemma_view(*other);
        }
        self.x == other.x && self.y == other.y && self.z == other.z
    }
}

impl<T: PointType> vstd::std_specs::cmp::PartialOrdSpecImpl for Point<T> {
    open spec fn obeys_partial_cmp_spec() -> bool {
        true
    }

    /// Any two points compare: lexicographically, by `x`, then `y`, then `z`.
    open spec fn partial_cmp_spec(&self, other: &Point<T>) -> Option<Ordering> {
        if self@ == other@ {
            Some(Ordering::Equal)
        } else if self@.precedes(other@) {
            Some(Ordering::Less)
        } else {
            Some(Ordering::Greater)
        }
    }
}

impl<T: PointType> core::cmp::PartialOrd for Point<T> {
    /// The place of `self` against `other` in the lexicographic order. Any two
    /// points compare.
    fn partial_cmp(&self, other: &Point<T>) -> (order: Option<Ordering>)
        ensures
            order is Some,
            order == Some(Ordering::Less) <==> self@.precedes(other@),
            order == Some(Ordering::Equal) <==> self@ == other@,
            order == Some(Ordering::Greater) <==> other@.precedes(self@),
    {
        if self == other {
            Some(Ordering::Equal)
        } else if self.lt(other) {
            Some(Ordering::Less)
        } else {
            // Neither equal nor less: what is left is greater, and only that.
            assert(!self@.precedes(other@) && other@.precedes(self@));
            Some(Ordering::Greater)
        }
    }

    /// Whether `self` comes before `rhs`: by `x`, then by `y`, then by `z`.
    fn lt(&self, rhs: &Point<T>) -> (less: bool)
        ensures
            less <==> self@.precedes(rhs@),
    {
        proof {
            T::lemma_eq(self.x, rhs.x);
            T::lemma_eq(self.y, rhs.y);
            T::lemma_lt(self.x, rhs.x);
            T::lemma_lt(self.y, rhs.y);
            T::lemma_lt(self.z, rhs.z);
        }
        if self.x == rhs.x {
            if self.y == rhs.y {
                return self.z < rhs.z;
            }
            return self.y < rhs.y;
        }
        self.x < rhs.x
    }
}

} // verus!
