//! Laws of the arithmetic, of the products, of the orientation and of the order.

use crate::model::sign_of;
use crate::model::IntPoint;
use crate::operations::dot_computable;
use crate::operations::lemma_product_of_differences;
use crate::operations::signed_area;
use crate::point::Point;
use crate::point2d::Point2D;
use crate::scalar::PointType;
use vstd::prelude::*;
use vstd::std_specs::cmp::PartialEqSpec;
use vstd::std_specs::cmp::PartialOrdIs;
use vstd::std_specs::ops::AddSpec;
use vstd::std_specs::ops::MulSpec;
use vstd::std_specs::ops::SubSpec;

verus! {

/// Taking away what was added gives the first vector back: where `a + b` can
/// be computed, so can `(a + b) - b`, and it is `a`.
pub proof fn lemma_add_then_sub<T: PointType>(a: Point<T>, b: Point<T>)
    requires
        a.add_req(b),
    ensures
        a.add_spec(b).sub_req(b),
        a.add_spec(b).sub_spec(b) == a,
{
    let sum = a.add_spec(b);
    a.lemma_sum(b);
    a.lemma_view(a);
    assert(sum@.minus(b@) == a@);
    sum.lemma_difference(b);
    sum.sub_spec(b).lemma_view(a);
}

/// Addition commutes: where `a + b` can be computed, so can `b + a`, and the
/// two are the same point.
pub proof fn lemma_add_commutes<T: PointType>(a: Point<T>, b: Point<T>)
    requires
        a.add_req(b),
    ensures
        b.add_req(a),
        a.add_spec(b) == b.add_spec(a),
{
    assert(b@.plus(a@) == a@.plus(b@));
    a.lemma_sum(b);
    b.lemma_sum(a);
    a.add_spec(b).lemma_view(b.add_spec(a));
}

/// Addition is associative: where both `(a + b) + c` and `a + (b + c)` can be
/// computed, the two are the same point.
pub proof fn lemma_add_associates<T: PointType>(a: Point<T>, b: Point<T>, c: Point<T>)
    requires
        a.add_req(b),
        a.add_spec(b).add_req(c),
        b.add_req(c),
        a.add_req(b.add_spec(c)),
    ensures
        a.add_spec(b).add_spec(c) == a.add_spec(b.add_spec(c)),
{
    a.lemma_sum(b);
    a.add_spec(b).lemma_sum(c);
    b.lemma_sum(c);
    a.lemma_sum(b.add_spec(c));
    assert(a@.plus(b@).plus(c@) == a@.plus(b@.plus(c@)));
    a.add_spec(b).add_spec(c).lemma_view(a.add_spec(b.add_spec(c)));
}

/// Scaling distributes over subtraction: where both `a * k - b * k` and
/// `(a - b) * k` can be computed, the two are the same point.
pub proof fn lemma_mul_distributes_over_sub<T: PointType>(a: Point<T>, b: Point<T>, k: T)
    requires
        a.mul_req(k),
        b.mul_req(k),
        a.mul_spec(k).sub_req(b.mul_spec(k)),
        a.sub_req(b),
        a.sub_spec(b).mul_req(k),
    ensures
        a.mul_spec(k).sub_spec(b.mul_spec(k)) == a.sub_spec(b).mul_spec(k),
{
    a.lemma_multiple(k);
    b.lemma_multiple(k);
    a.mul_spec(k).lemma_difference(b.mul_spec(k));
    a.lemma_difference(b);
    a.sub_spec(b).lemma_multiple(k);
    let kv = k.value();
    assert(a@.scaled(kv).minus(b@.scaled(kv)) == a@.minus(b@).scaled(kv)) by {
        assert(a@.x * kv - b@.x * kv == (a@.x - b@.x) * kv) by (nonlinear_arith);
        assert(a@.y * kv - b@.y * kv == (a@.y - b@.y) * kv) by (nonlinear_arith);
        assert(a@.z * kv - b@.z * kv == (a@.z - b@.z) * kv) by (nonlinear_arith);
    }
    a.mul_spec(k).sub_spec(b.mul_spec(k)).lemma_view(a.sub_spec(b).mul_spec(k));
}

/// On the plane too, taking away what was added gives the first vector back: where `a + b` can
/// be computed, so can `(a + b) - b`, and it is `a`.
pub proof fn lemma_add_then_sub_2d<T: PointType>(a: Point2D<T>, b: Point2D<T>)
    requires
        a.add_req(b),
    ensures
        a.add_spec(b).sub_req(b),
        a.add_spec(b).sub_spec(b) == a,
{
    let sum = a.add_spec(b);
    a.lemma_sum(b);
    a.lemma_view(a);
    assert(sum@.minus(b@) == a@);
    sum.lemma_difference(b);
    sum.sub_spec(b).lemma_view(a);
}

/// On the plane too, addition commutes: where `a + b` can be computed, so can `b + a`, and the
/// two are the same point.
pub proof fn lemma_add_commutes_2d<T: PointType>(a: Point2D<T>, b: Point2D<T>)
    requires
        a.add_req(b),
    ensures
        b.add_req(a),
        a.add_spec(b) == b.add_spec(a),
{
    assert(b@.plus(a@) == a@.plus(b@));
    a.lemma_sum(b);
    b.lemma_sum(a);
    a.add_spec(b).lemma_view(b.add_spec(a));
}

/// On the plane too, addition is associative: where both `(a + b) + c` and `a + (b + c)` can be
/// computed, the two are the same point.
pub proof fn lemma_add_associates_2d<T: PointType>(a: Point2D<T>, b: Point2D<T>, c: Point2D<T>)
    requires
        a.add_req(b),
        a.add_spec(b).add_req(c),
        b.add_req(c),
        a.add_req(b.add_spec(c)),
    ensures
        a.add_spec(b).add_spec(c) == a.add_spec(b.add_spec(c)),
{
    a.lemma_sum(b);
    a.add_spec(b).lemma_sum(c);
    b.lemma_sum(c);
    a.lemma_sum(b.add_spec(c));
    assert(a@.plus(b@).plus(c@) == a@.plus(b@.plus(c@)));
    a.add_spec(b).add_spec(c).lemma_view(a.add_spec(b.add_spec(c)));
}

/// On the plane too, scaling distributes over subtraction: where both `a * k - b * k` and
/// `(a - b) * k` can be computed, the two are the same point.
pub proof fn lemma_mul_distributes_over_sub_2d<T: PointType>(a: Point2D<T>, b: Point2D<T>, k: T)
    requires
        a.mul_req(k),
        b.mul_req(k),
        a.mul_spec(k).sub_req(b.mul_spec(k)),
        a.sub_req(b),
        a.sub_spec(b).mul_req(k),
    ensures
        a.mul_spec(k).sub_spec(b.mul_spec(k)) == a.sub_spec(b).mul_spec(k),
{
    a.lemma_multiple(k);
    b.lemma_multiple(k);
    a.mul_spec(k).lemma_difference(b.mul_spec(k));
    a.lemma_difference(b);
    a.sub_spec(b).lemma_multiple(k);
    let kv = k.value();
    assert(a@.scaled(kv).minus(b@.scaled(kv)) == a@.minus(b@).scaled(kv)) by {
        assert(a@.x * kv - b@.x * kv == (a@.x - b@.x) * kv) by (nonlinear_arith);
        assert(a@.y * kv - b@.y * kv == (a@.y - b@.y) * kv) by (nonlinear_arith);
    }
    a.mul_spec(k).sub_spec(b.mul_spec(k)).lemma_view(a.sub_spec(b).mul_spec(k));
}

/// The dot product is symmetric: where that of `a` and `b` can be computed
/// in the scalar `T`, so can that of `b` and `a`, and the two are the same
/// number.
pub proof fn lemma_dot_symmetric<T: PointType>(a: IntPoint, b: IntPoint)
    requires
        dot_computable::<T>(a, b),
    ensures
        dot_computable::<T>(b, a),
        b.dot(a) == a.dot(b),
{
    assert(b.x * a.x == a.x * b.x) by (nonlinear_arith);
    assert(b.y * a.y == a.y * b.y) by (nonlinear_arith);
    assert(b.z * a.z == a.z * b.z) by (nonlinear_arith);
}

/// The cross product is anti-commutative: that of `p` and `q` is that of `q`
/// and `p` with each coordinate negated.
pub proof fn lemma_cross_anticommutes(p: IntPoint, q: IntPoint)
    ensures
        p.cross(q) == q.cross(p).negated(),
{
    assert(p.y * q.z - p.z * q.y == -(q.y * p.z - q.z * p.y)) by (nonlinear_arith);
    assert(p.z * q.x - p.x * q.z == -(q.z * p.x - q.x * p.z)) by (nonlinear_arith);
    assert(p.x * q.y - p.y * q.x == -(q.x * p.y - q.y * p.x)) by (nonlinear_arith);
}

/// Whether the vectors `u` and `v` are multiples of one vector, by the
/// integers `s` and `t`, not both zero: `s u = t v`.
pub open spec fn dependent_by(u: IntPoint, v: IntPoint, s: int, t: int) -> bool {
    (s != 0 || t != 0) && u.scaled(s) == v.scaled(t)
}

/// Whether three points lie on one line: `b - a` and `c - a` are multiples
/// of one vector.
pub open spec fn collinear(a: IntPoint, b: IntPoint, c: IntPoint) -> bool {
    exists|s: int, t: int| #[trigger] dependent_by(b.minus(a), c.minus(a), s, t)
}

/// Three points on one line make no turn: their direction is `0`.
pub proof fn lemma_direction_of_collinear(a: IntPoint, b: IntPoint, c: IntPoint)
    requires
        collinear(a, b, c),
    ensures
        sign_of(signed_area(a, b, c)) == 0,
{
    let (s, t) = choose|s: int, t: int| #[trigger] dependent_by(b.minus(a), c.minus(a), s, t);
    let u = b.minus(a);
    let w = c.minus(a);
    let area = signed_area(a, b, c);
    lemma_product_of_differences(b.x, a.x, c.y, b.y);
    lemma_product_of_differences(b.y, a.y, c.x, b.x);
    assert(area == u.x * w.y - u.y * w.x) by (nonlinear_arith)
        requires
            area == (b.x - a.x) * (c.y - b.y) - (b.y - a.y) * (c.x - b.x),
            u.x == b.x - a.x,
            u.y == b.y - a.y,
            w.x == c.x - a.x,
            w.y == c.y - a.y,
    ;
    assert(area == 0) by (nonlinear_arith)
        requires
            area == u.x * w.y - u.y * w.x,
            u.x * s == w.x * t,
            u.y * s == w.y * t,
            s != 0 || t != 0,
    ;
}

/// Swapping any two of three points turns their direction round: `1`
/// becomes `-1`, `-1` becomes `1`, and `0` stays.
pub proof fn lemma_direction_flips(p: IntPoint, q: IntPoint, r: IntPoint)
    ensures
        sign_of(signed_area(q, p, r)) == -sign_of(signed_area(p, q, r)),
        sign_of(signed_area(p, r, q)) == -sign_of(signed_area(p, q, r)),
        sign_of(signed_area(r, q, p)) == -sign_of(signed_area(p, q, r)),
{
    assert(signed_area(q, p, r) == -signed_area(p, q, r)) by (nonlinear_arith);
    assert(signed_area(p, r, q) == -signed_area(p, q, r)) by (nonlinear_arith);
    assert(signed_area(r, q, p) == -signed_area(p, q, r)) by (nonlinear_arith);
}

/// The order is total and strict: of `p < q`, `p == q` and `p > q` exactly
/// one holds, `p > q` says that `q < p`, `p < q` is the lexicographic order of
/// the coordinates, and a point equals itself.
pub proof fn lemma_order_total<T: PointType>(p: Point<T>, q: Point<T>)
    ensures
        p.is_lt(&q) || p.eq_spec(&q) || p.is_gt(&q),
        !(p.is_lt(&q) && p.eq_spec(&q)),
        !(p.is_lt(&q) && p.is_gt(&q)),
        !(p.eq_spec(&q) && p.is_gt(&q)),
        p.is_gt(&q) <==> q.is_lt(&p),
        p.is_lt(&q) <==> p@.precedes(q@),
        p.eq_spec(&q) <==> p == q,
        p.eq_spec(&p),
{
    p.lemma_view(q);
}

/// The order is transitive.
pub proof fn lemma_order_transitive<T: PointType>(p: Point<T>, q: Point<T>, r: Point<T>)
    requires
        p.is_lt(&q),
        q.is_lt(&r),
    ensures
        p.is_lt(&r),
{
}

} // verus!
