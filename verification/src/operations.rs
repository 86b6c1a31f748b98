//! Products, areas and the orientation predicate.

use crate::model::magnitude;
use crate::model::sign_of;
use crate::model::IntPoint;
use crate::point::Point;
use crate::point::representable;
use crate::scalar::PointType;
use crate::sign::signum;
use vstd::prelude::*;
use vstd::std_specs::ops::AddSpec;
use vstd::std_specs::ops::MulSpec;
use vstd::std_specs::ops::SubSpec;

verus! {

/// The sum `a + b`, where the scalar `T` can hold it.
fn held_sum<T: PointType>(a: i128, b: i128) -> (sum: Option<i128>)
    ensures
        sum is Some <==> T::fits(a + b),
        sum is Some ==> sum.unwrap() == a + b,
{
    proof {
        T::lemma_fits(a + b);
    }
    match a.checked_add(b) {
        Some(v) => if T::holds(v) {
            Some(v)
        } else {
            None
        },
        None => None,
    }
}

/// The difference `a - b`, where the scalar `T` can hold it.
fn held_difference<T: PointType>(a: i128, b: i128) -> (difference: Option<i128>)
    ensures
        difference is Some <==> T::fits(a - b),
        difference is Some ==> difference.unwrap() == a - b,
{
    proof {
        T::lemma_fits(a - b);
    }
    match a.checked_sub(b) {
        Some(v) => if T::holds(v) {
            Some(v)
        } else {
            None
        },
        None => None,
    }
}

/// The product `a * b`, where the scalar `T` can hold it.
fn held_product<T: PointType>(a: i128, b: i128) -> (product: Option<i128>)
    ensures
        product is Some <==> T::fits(a * b),
        product is Some ==> product.unwrap() == a * b,
{
    proof {
        T::lemma_fits(a * b);
    }
    match a.checked_mul(b) {
        Some(v) => if T::holds(v) {
            Some(v)
        } else {
            None
        },
        None => None,
    }
}

/// Whether the dot product of `a` and `b` can be computed in the scalar `T`:
/// the three products fit, and so does the sum as it grows from the left.
pub open spec fn dot_computable<T: PointType>(a: IntPoint, b: IntPoint) -> bool {
    &&& T::fits(a.x * b.x)
    &&& T::fits(a.y * b.y)
    &&& T::fits(a.z * b.z)
    &&& T::fits(a.x * b.x + a.y * b.y)
    &&& T::fits(a.dot(b))
}

/// The dot product of two vectors: the sum of the products of their coordinates.
pub fn dot<T: PointType>(a: &Point<T>, b: &Point<T>) -> (product: T)
    requires
        dot_computable::<T>(a@, b@),
    ensures
        product.value() == a@.dot(b@),
{
    proof {
        T::lemma_mul(a.x, b.x);
        T::lemma_mul(a.y, b.y);
        T::lemma_mul(a.z, b.z);
    }
    let xx = a.x * b.x;
    let yy = a.y * b.y;
    let zz = a.z * b.z;
    proof {
        T::lemma_add(xx, yy);
    }
    let xy = xx + yy;
    proof {
        T::lemma_add(xy, zz);
    }
    xy + zz
}

/// Tests whether `dot` can be called on `a` and `b`.
pub fn dot_is_computable<T: PointType>(a: &Point<T>, b: &Point<T>) -> (computable: bool)
    ensures
        computable == dot_computable::<T>(a@, b@),
{
    let xx = held_product::<T>(a.x.widen(), b.x.widen());
    let yy = held_product::<T>(a.y.widen(), b.y.widen());
    let zz = held_product::<T>(a.z.widen(), b.z.widen());
    match (xx, yy, zz) {
        (Some(xx), Some(yy), Some(zz)) => match held_sum::<T>(xx, yy) {
            Some(xy) => held_sum::<T>(xy, zz).is_some(),
            None => false,
        },
        _ => false,
    }
}

/// Whether the cross product of `a` and `b` can be computed in the scalar `T`:
/// the six products fit, and so do the three differences.
pub open spec fn cross_computable<T: PointType>(a: IntPoint, b: IntPoint) -> bool {
    &&& T::fits(a.y * b.z)
    &&& T::fits(a.z * b.y)
    &&& T::fits(a.z * b.x)
    &&& T::fits(a.x * b.z)
    &&& T::fits(a.x * b.y)
    &&& T::fits(a.y * b.x)
    &&& representable::<T>(a.cross(b))
}

/// Tests whether `cross` can be called on `a` and `b`.
pub fn cross_is_computable<T: PointType>(a: &Point<T>, b: &Point<T>) -> (computable: bool)
    ensures
        computable == cross_computable::<T>(a@, b@),
{
    let (ax, ay, az) = (a.x.widen(), a.y.widen(), a.z.widen());
    let (bx, by, bz) = (b.x.widen(), b.y.widen(), b.z.widen());
    let x = match (held_product::<T>(ay, bz), held_product::<T>(az, by)) {
        (Some(first), Some(second)) => held_difference::<T>(first, second).is_some(),
        _ => false,
    };
    let y = match (held_product::<T>(az, bx), held_product::<T>(ax, bz)) {
        (Some(first), Some(second)) => held_difference::<T>(first, second).is_some(),
        _ => false,
    };
    let z = match (held_product::<T>(ax, by), held_product::<T>(ay, bx)) {
        (Some(first), Some(second)) => held_difference::<T>(first, second).is_some(),
        _ => false,
    };
    x && y && z
}

/// The cross product of two vectors: the normal
/// `(ay bz - az by, az bx - ax bz, ax by - ay bx)`.
pub fn cross<T: PointType>(a: Point<T>, b: Point<T>) -> (normal: Point<T>)
    requires
        cross_computable::<T>(a@, b@),
    ensures
        normal@ == a@.cross(b@),
{
    let x0: T = a.x;
    let y0: T = a.y;
    let z0: T = a.z;
    let x1: T = b.x;
    let y1: T = b.y;
    let z1: T = b.z;
    proof {
        T::lemma_mul(y0, z1);
        T::lemma_mul(z0, y1);
        T::lemma_mul(z0, x1);
        T::lemma_mul(x0, z1);
        T::lemma_mul(x0, y1);
        T::lemma_mul(y0, x1);
        T::lemma_sub(y0.mul_spec(z1), z0.mul_spec(y1));
        T::lemma_sub(z0.mul_spec(x1), x0.mul_spec(z1));
        T::lemma_sub(x0.mul_spec(y1), y0.mul_spec(x1));
    }
    Point::new(y0 * z1 - z0 * y1, z0 * x1 - x0 * z1, x0 * y1 - y0 * x1)
}

/// The product `(p - q) * (r - s)`, multiplied out into products of the four
/// numbers themselves: the form in which it can be evaluated on given numbers
/// without a proof.
pub open spec fn product_of_differences(p: int, q: int, r: int, s: int) -> int {
    p * r - p * s - q * r + q * s
}

/// `product_of_differences` is the product of the two differences.
pub proof fn lemma_product_of_differences(p: int, q: int, r: int, s: int)
    ensures
        product_of_differences(p, q, r, s) == (p - q) * (r - s),
{
    assert(p * r - p * s - q * r + q * s == (p - q) * (r - s)) by (nonlinear_arith);
}

/// Twice the signed area of the triangle `a`, `b`, `c` as it lies on the
/// xy-plane: the z-coordinate of the cross product of `b - a` and `c - b`,
/// which is `(bx - ax) (cy - by) - (by - ay) (cx - bx)`. It is positive where
/// the turn from `a` over `b` to `c` goes counter-clockwise, negative where it
/// goes clockwise.
pub open spec fn signed_area(a: IntPoint, b: IntPoint, c: IntPoint) -> int {
    product_of_differences(b.x, a.x, c.y, b.y) - product_of_differences(b.y, a.y, c.x, b.x)
}

/// `signed_area` is the z-coordinate of the cross product of `b - a` and `c - b`.
pub proof fn lemma_signed_area_is_cross(a: IntPoint, b: IntPoint, c: IntPoint)
    ensures
        signed_area(a, b, c) == b.minus(a).cross(c.minus(b)).z,
{
    lemma_product_of_differences(b.x, a.x, c.y, b.y);
    lemma_product_of_differences(b.y, a.y, c.x, b.x);
}

/// Whether `signed_area` of the three points can be computed in the scalar
/// `T`: the four differences of coordinates fit, their two products fit, and
/// the difference of the products fits.
pub open spec fn signed_area_computable<T: PointType>(
    a: IntPoint,
    b: IntPoint,
    c: IntPoint,
) -> bool {
    &&& T::fits(b.x - a.x)
    &&& T::fits(b.y - a.y)
    &&& T::fits(c.x - b.x)
    &&& T::fits(c.y - b.y)
    &&& T::fits(product_of_differences(b.x, a.x, c.y, b.y))
    &&& T::fits(product_of_differences(b.y, a.y, c.x, b.x))
    &&& T::fits(signed_area(a, b, c))
}

/// Tests whether the signed area of the triangle `a`, `b`, `c` can be
/// computed in the scalar `T`.
pub fn signed_area_is_computable<T: PointType>(
    a: &Point<T>,
    b: &Point<T>,
    c: &Point<T>,
) -> (computable: bool)
    ensures
        computable == signed_area_computable::<T>(a@, b@, c@),
{
    proof {
        lemma_product_of_differences(b@.x, a@.x, c@.y, b@.y);
        lemma_product_of_differences(b@.y, a@.y, c@.x, b@.x);
    }
    let ux = held_difference::<T>(b.x.widen(), a.x.widen());
    let uy = held_difference::<T>(b.y.widen(), a.y.widen());
    let vx = held_difference::<T>(c.x.widen(), b.x.widen());
    let vy = held_difference::<T>(c.y.widen(), b.y.widen());
    match (ux, uy, vx, vy) {
        (Some(ux), Some(uy), Some(vx), Some(vy)) => match (
            held_product::<T>(ux, vy),
            held_product::<T>(uy, vx),
        ) {
            (Some(first), Some(second)) => held_difference::<T>(first, second).is_some(),
            _ => false,
        },
        _ => false,
    }
}

/// One term of the shoelace sum, for the edge from `p` to `q`:
/// `(qx - px) (qy + py)`, multiplied out.
pub open spec fn shoelace_term(p: IntPoint, q: IntPoint) -> int {
    q.x * q.y + q.x * p.y - p.x * q.y - p.x * p.y
}

/// `shoelace_term` is the product of the difference of the x-coordinates and
/// the sum of the y-coordinates.
pub proof fn lemma_shoelace_term(p: IntPoint, q: IntPoint)
    ensures
        shoelace_term(p, q) == (q.x - p.x) * (q.y + p.y),
{
    assert(q.x * q.y + q.x * p.y - p.x * q.y - p.x * p.y == (q.x - p.x) * (q.y + p.y))
        by (nonlinear_arith);
}

/// The corner at which the edge that leaves corner `i` of the closed polygon
/// `points` ends: the next one, and the first one after the last.
pub open spec fn next_corner(points: Seq<IntPoint>, i: int) -> IntPoint {
    if i + 1 == points.len() {
        points[0]
    } else {
        points[i + 1]
    }
}

/// The shoelace sum over the first `k` edges of the closed polygon `points`.
/// Over all the edges it is minus twice the area, taken with the sign of the
/// sense in which the corners go round.
pub open spec fn shoelace_sum(points: Seq<IntPoint>, k: nat) -> int
    decreases k,
{
    if k == 0 {
        0
    } else {
        shoelace_sum(points, (k - 1) as nat) + shoelace_term(
            points[k - 1],
            next_corner(points, k - 1),
        )
    }
}

/// Whether the shoelace term of the edge from `p` to `q` can be computed in
/// the scalar `T`: the difference, the sum and their product fit.
pub open spec fn shoelace_term_computable<T: PointType>(p: IntPoint, q: IntPoint) -> bool {
    &&& T::fits(q.x - p.x)
    &&& T::fits(q.y + p.y)
    &&& T::fits(shoelace_term(p, q))
}

/// Tests whether `edge_term` can be called on `p` and `q`.
pub fn edge_term_is_computable<T: PointType>(p: &Point<T>, q: &Point<T>) -> (computable: bool)
    ensures
        computable == shoelace_term_computable::<T>(p@, q@),
{
    proof {
        lemma_shoelace_term(p@, q@);
    }
    let width = held_difference::<T>(q.x.widen(), p.x.widen());
    let height = held_sum::<T>(q.y.widen(), p.y.widen());
    match (width, height) {
        (Some(width), Some(height)) => held_product::<T>(width, height).is_some(),
        _ => false,
    }
}

/// The shoelace term of the edge from `p` to `q`: the difference of the
/// x-coordinates times the sum of the y-coordinates.
pub fn edge_term<T: PointType>(p: &Point<T>, q: &Point<T>) -> (term: T)
    requires
        shoelace_term_computable::<T>(p@, q@),
    ensures
        term.value() == shoelace_term(p@, q@),
{
    proof {
        lemma_shoelace_term(p@, q@);
        T::lemma_sub(q.x, p.x);
        T::lemma_add(q.y, p.y);
        T::lemma_mul(q.x.sub_spec(p.x), q.y.add_spec(p.y));
    }
    (q.x - p.x) * (q.y + p.y)
}

/// Whether the shoelace sum over the first `k` edges of the closed polygon
/// `points` can be computed: each term in the scalar `T`, and the running
/// total, which is taken away term by term from zero, in an `i128`.
pub open spec fn edges_computable<T: PointType>(points: Seq<IntPoint>, k: nat) -> bool
    decreases k,
{
    k == 0 || {
        &&& edges_computable::<T>(points, (k - 1) as nat)
        &&& shoelace_term_computable::<T>(points[k - 1], next_corner(points, k - 1))
        &&& i128::MIN <= -shoelace_sum(points, k) <= i128::MAX
    }
}

/// Whether the area of the closed polygon `points` can be computed. For `n`
/// given corners, `reveal_with_fuel` with `n + 1` unfolds this and
/// `shoelace_sum` down to the coordinates.
pub open spec fn polygon_computable<T: PointType>(points: Seq<IntPoint>) -> bool {
    edges_computable::<T>(points, points.len())
}

/// What `edges_computable` says of each edge before the `k`-th.
proof fn lemma_edges_computable<T: PointType>(points: Seq<IntPoint>, k: nat, i: nat)
    requires
        edges_computable::<T>(points, k),
        i < k,
    ensures
        shoelace_term_computable::<T>(points[i as int], next_corner(points, i as int)),
        i128::MIN <= -shoelace_sum(points, (i + 1) as nat) <= i128::MAX,
    decreases k,
{
    if i + 1 < k {
        lemma_edges_computable::<T>(points, (k - 1) as nat, i);
    }
}

/// Tests whether `area_of_polygon` can be called on `points`.
pub fn polygon_is_computable<T: PointType>(points: &Vec<Point<T>>) -> (computable: bool)
    ensures
        computable == polygon_computable::<T>(points.deep_view()),
{
    let n = points.len();
    let ghost corners = points.deep_view();
    let mut total: i128 = 0;
    for i in 0..n
        invariant
            n == points.len(),
            corners == points.deep_view(),
            edges_computable::<T>(corners, i as nat),
            total == -shoelace_sum(corners, i as nat),
    {
        let next = (i + 1) % n;
        let p = &points[i];
        let q = &points[next];
        proof {
            if i + 1 == n {
                vstd::arithmetic::div_mod::lemma_mod_self_0(n as int);
            } else {
                vstd::arithmetic::div_mod::lemma_small_mod((i + 1) as nat, n as nat);
            }
            assert(corners[i as int] == p@);
            assert(next_corner(corners, i as int) == q@);
            if polygon_computable::<T>(corners) {
                lemma_edges_computable::<T>(corners, n as nat, i as nat);
            }
        }
        if !edge_term_is_computable(p, q) {
            return false;
        }
        match total.checked_sub(edge_term(p, q).widen()) {
            Some(less) => {
                total = less;
            },
            None => {
                return false;
            },
        }
    }
    true
}

/// An area in exact form. Areas of lattice polygons are whole or half
/// numbers, so the area is held doubled.
#[derive(Clone, Copy, Debug, PartialEq, Eq, Structural)]
pub struct Area {
    /// Twice the area.
    pub doubled: u128,
}

/// The distance of `v` from zero.
fn distance_from_zero(v: i128) -> (d: u128)
    ensures
        d == magnitude(v as int),
{
    if v >= 0 {
        v as u128
    } else {
        (-(v + 1)) as u128 + 1
    }
}

/// A polygon with fewer than three corners has a shoelace sum of zero.
pub proof fn lemma_shoelace_sum_degenerate(points: Seq<IntPoint>)
    requires
        points.len() < 3,
    ensures
        shoelace_sum(points, points.len()) == 0,
{
    reveal_with_fuel(shoelace_sum, 3);
    if points.len() == 2 {
        let p = points[0];
        let q = points[1];
        assert(shoelace_term(p, q) + shoelace_term(q, p) == 0) by (nonlinear_arith);
    } else if points.len() == 1 {
        let p = points[0];
        assert(shoelace_term(p, p) == 0) by (nonlinear_arith);
    }
}

/// The shoelace sum of a triangle is its signed area, with the other sign.
pub proof fn lemma_shoelace_sum_of_triangle(a: IntPoint, b: IntPoint, c: IntPoint)
    ensures
        shoelace_sum(seq![a, b, c], 3) == -signed_area(a, b, c),
{
    let corners = seq![a, b, c];
    reveal_with_fuel(shoelace_sum, 4);
    assert(corners[0] == a && corners[1] == b && corners[2] == c);
    assert(shoelace_term(a, b) + shoelace_term(b, c) + shoelace_term(c, a) == -signed_area(a, b, c))
        by (nonlinear_arith);
}

/// The geometric queries on the points of one type over the scalar `T`. The
/// points are taken on the xy-plane.
pub trait GeometryOperations<T: PointType>: Sized + View<V = IntPoint> + DeepView<V = IntPoint> {
    /// Twice the signed area of the triangle `a`, `b`, `c`, in the widest
    /// machine integer.
    fn signed_area_of_parallelogram(a: Self, b: Self, c: Self) -> (area: i128)
        requires
            signed_area_computable::<T>(a@, b@, c@),
        ensures
            area == signed_area(a@, b@, c@),
    ;

    /// The area of the triangle `a`, `b`, `c`: half the distance of the
    /// signed area from zero.
    fn area_of_triangle(a: Self, b: Self, c: Self) -> (area: Area)
        requires
            signed_area_computable::<T>(a@, b@, c@),
        ensures
            area.doubled == magnitude(signed_area(a@, b@, c@)),
    {
        Area { doubled: distance_from_zero(Self::signed_area_of_parallelogram(a, b, c)) }
    }

    /// The turn from `a` over `b` to `c`: `1` counter-clockwise, `-1`
    /// clockwise, `0` where the three lie on one line.
    fn direction(a: Self, b: Self, c: Self) -> (turn: i8)
        requires
            signed_area_computable::<T>(a@, b@, c@),
        ensures
            turn == sign_of(signed_area(a@, b@, c@)),
    {
        signum(Self::signed_area_of_parallelogram(a, b, c)) as i8
    }

    /// The area of the closed polygon with the corners `points` in order, by
    /// the shoelace formula. With fewer than three corners it is zero.
    fn area_of_polygon(points: Vec<Self>) -> (area: Area)
        requires
            polygon_computable::<T>(points.deep_view()),
        ensures
            area.doubled == magnitude(shoelace_sum(points.deep_view(), points.len() as nat)),
            points.len() < 3 ==> area.doubled == 0,
    ;
}

impl<T: PointType> GeometryOperations<T> for Point<T> {
    fn signed_area_of_parallelogram(a: Point<T>, b: Point<T>, c: Point<T>) -> (area: i128) {
        proof {
            T::lemma_sub(b.x, a.x);
            T::lemma_sub(b.y, a.y);
            T::lemma_sub(c.x, b.x);
            T::lemma_sub(c.y, b.y);
        }
        let ux = b.x - a.x;
        let uy = b.y - a.y;
        let vx = c.x - b.x;
        let vy = c.y - b.y;
        proof {
            lemma_product_of_differences(b@.x, a@.x, c@.y, b@.y);
            lemma_product_of_differences(b@.y, a@.y, c@.x, b@.x);
            T::lemma_mul(ux, vy);
            T::lemma_mul(uy, vx);
            T::lemma_sub(ux.mul_spec(vy), uy.mul_spec(vx));
        }
        (ux * vy - uy * vx).widen()
    }

    fn area_of_polygon(points: Vec<Point<T>>) -> (area: Area) {
        let n = points.len();
        let ghost corners = points.deep_view();
        let mut total: i128 = 0;
        for i in 0..n
            invariant
                n == points.len(),
                corners == points.deep_view(),
                polygon_computable::<T>(corners),
                total == -shoelace_sum(corners, i as nat),
        {
            let next = (i + 1) % n;
            let p = points[i];
            let q = points[next];
            proof {
                if i + 1 == n {
                    vstd::arithmetic::div_mod::lemma_mod_self_0(n as int);
                } else {
                    vstd::arithmetic::div_mod::lemma_small_mod((i + 1) as nat, n as nat);
                }
                assert(corners[i as int] == p@);
                assert(next_corner(corners, i as int) == q@);
                lemma_edges_computable::<T>(corners, n as nat, i as nat);
                assert(shoelace_sum(corners, (i + 1) as nat) == shoelace_sum(corners, i as nat)
                    + shoelace_term(p@, q@));
            }
            total = total - edge_term(&p, &q).widen();
        }
        proof {
            if n < 3 {
                lemma_shoelace_sum_degenerate(corners);
            }
        }
        Area { doubled: distance_from_zero(total) }
    }
}

} // verus!
