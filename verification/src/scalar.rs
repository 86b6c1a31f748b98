//! The scalars that may back a point.

use vstd::prelude::*;
use vstd::std_specs::cmp::PartialEqSpec;
use vstd::std_specs::cmp::PartialOrdIs;
use vstd::std_specs::cmp::PartialOrdSpec;
use vstd::std_specs::ops::AddSpec;
use vstd::std_specs::ops::DivSpec;
use vstd::std_specs::ops::MulSpec;
use vstd::std_specs::ops::SubSpec;

verus! {

/// The quotient of `a` by `b`, rounded toward zero as the machine rounds it.
///
/// In a contract `/` is Euclidean division, whose remainder is never
/// negative. The two agree where the dividend is not negative, so a negative
/// dividend is divided by way of its opposite.
pub open spec fn quotient_toward_zero(a: int, b: int) -> int
    recommends
        b != 0,
{
    if a >= 0 {
        a / b
    } else {
        -((-a) / b)
    }
}

/// How far a quotient rounded toward zero can lie from zero: no further than
/// the dividend, and as far only when the divisor is `1` or `-1`.
pub proof fn lemma_quotient_toward_zero_range(a: int, b: int)
    requires
        b != 0,
    ensures
        a >= 0 ==> -a <= quotient_toward_zero(a, b) <= a,
        a < 0 ==> a <= quotient_toward_zero(a, b) <= -a,
        b == -1 ==> quotient_toward_zero(a, b) == -a,
        a < 0 && b != -1 ==> quotient_toward_zero(a, b) < -a,
{
    let m = if a >= 0 {
        a
    } else {
        -a
    };
    assert(b > 0 ==> 0 <= m / b <= m) by (nonlinear_arith)
        requires
            m >= 0,
            b != 0,
    ;
    assert(b < 0 ==> -m <= m / b <= 0) by (nonlinear_arith)
        requires
            m >= 0,
            b != 0,
    ;
    assert(b == -1 ==> m / b == -m) by (nonlinear_arith)
        requires
            m >= 0,
    ;
    assert(b < -1 && m > 0 ==> -m < m / b) by (nonlinear_arith)
        requires
            m >= 0,
    ;
}

/// A scalar that can be a coordinate: a machine integer with its arithmetic,
/// its equality and its order.
///
/// The set of scalars is closed: `i32`, `i64` and `i128`. Each scalar stands
/// for the integer `value()`, and the lemmas tie what `+`, `-`, `*`, `/`, `==`
/// and `<` do on the scalar to that integer.
pub trait PointType: Sized
    + core::ops::Add<Self, Output = Self>
    + core::ops::Sub<Self, Output = Self>
    + core::ops::Mul<Self, Output = Self>
    + core::ops::Div<Self, Output = Self>
    + core::cmp::PartialEq
    + core::cmp::PartialOrd
    + Copy
{
    /// The integer that the scalar stands for.
    spec fn value(self) -> int;

    /// Whether the scalar type can hold the integer `v`.
    spec fn fits(v: int) -> bool;

    /// The additive identity.
    fn zero() -> (z: Self)
        ensures
            z.value() == 0,
    ;

    /// The scalar as the widest machine integer.
    fn widen(self) -> (w: i128)
        ensures
            w == self.value(),
    ;

    /// Whether the scalar type can hold `v`.
    fn holds(v: i128) -> (held: bool)
        ensures
            held == Self::fits(v as int),
    ;

    /// What a scalar type can hold, an `i128` can hold.
    proof fn lemma_fits(v: int)
        ensures
            Self::fits(v) ==> i128::MIN <= v <= i128::MAX,
    ;

    /// A scalar holds an integer of its range, and no two scalars hold the
    /// same. Zero is in the range.
    proof fn lemma_value(a: Self, b: Self)
        ensures
            Self::fits(0),
            Self::fits(a.value()),
            a.value() == b.value() ==> a == b,
    ;

    /// `a + b` is allowed exactly when the sum fits, and is then the sum.
    proof fn lemma_add(a: Self, b: Self)
        ensures
            Self::obeys_add_spec(),
            a.add_req(b) <==> Self::fits(a.value() + b.value()),
            a.add_req(b) ==> a.add_spec(b).value() == a.value() + b.value(),
    ;

    /// `a - b` is allowed exactly when the difference fits, and is then the difference.
    proof fn lemma_sub(a: Self, b: Self)
        ensures
            Self::obeys_sub_spec(),
            a.sub_req(b) <==> Self::fits(a.value() - b.value()),
            a.sub_req(b) ==> a.sub_spec(b).value() == a.value() - b.value(),
    ;

    /// `a * b` is allowed exactly when the product fits, and is then the product.
    proof fn lemma_mul(a: Self, b: Self)
        ensures
            Self::obeys_mul_spec(),
            a.mul_req(b) <==> Self::fits(a.value() * b.value()),
            a.mul_req(b) ==> a.mul_spec(b).value() == a.value() * b.value(),
    ;

    /// `a / b` is allowed exactly when `b` is not zero and the quotient fits,
    /// and is then the quotient rounded toward zero.
    proof fn lemma_div(a: Self, b: Self)
        ensures
            Self::obeys_div_spec(),
            a.div_req(b) <==> b.value() != 0 && Self::fits(
                quotient_toward_zero(a.value(), b.value()),
            ),
            a.div_req(b) ==> a.div_spec(b).value() == quotient_toward_zero(a.value(), b.value()),
    ;

    /// `a == b` compares the integers.
    proof fn lemma_eq(a: Self, b: Self)
        ensures
            Self::obeys_eq_spec(),
            a.eq_spec(&b) <==> a.value() == b.value(),
    ;

    /// `a < b` compares the integers.
    proof fn lemma_lt(a: Self, b: Self)
        ensures
            Self::obeys_partial_cmp_spec(),
            a.is_lt(&b) <==> a.value() < b.value(),
    ;
}

impl PointType for i32 {
    open spec fn value(self) -> int {
        self as int
    }

    open spec fn fits(v: int) -> bool {
        i32::MIN <= v <= i32::MAX
    }

    fn zero() -> (z: i32) {
        0
    }

    fn widen(self) -> (w: i128) {
        self as i128
    }

    fn holds(v: i128) -> (held: bool) {
        i32::MIN as i128 <= v && v <= i32::MAX as i128
    }

    proof fn lemma_fits(v: int) {
    }

    proof fn lemma_value(a: i32, b: i32) {
    }

    proof fn lemma_add(a: i32, b: i32) {
    }

    proof fn lemma_sub(a: i32, b: i32) {
    }

    proof fn lemma_mul(a: i32, b: i32) {
    }

    proof fn lemma_div(a: i32, b: i32) {
        if b != 0 {
            lemma_quotient_toward_zero_range(a as int, b as int);
        }
    }

    proof fn lemma_eq(a: i32, b: i32) {
    }

    proof fn lemma_lt(a: i32, b: i32) {
    }
}

impl PointType for i64 {
    open spec fn value(self) -> int {
        self as int
    }

    open spec fn fits(v: int) -> bool {
        i64::MIN <= v <= i64::MAX
    }

    fn zero() -> (z: i64) {
        0
    }

    fn widen(self) -> (w: i128) {
        self as i128
    }

    fn holds(v: i128) -> (held: bool) {
        i64::MIN as i128 <= v && v <= i64::MAX as i128
    }

    proof fn lemma_fits(v: int) {
    }

    proof fn lemma_value(a: i64, b: i64) {
    }

    proof fn lemma_add(a: i64, b: i64) {
    }

    proof fn lemma_sub(a: i64, b: i64) {
    }

    proof fn lemma_mul(a: i64, b: i64) {
    }

    proof fn lemma_div(a: i64, b: i64) {
        if b != 0 {
            lemma_quotient_toward_zero_range(a as int, b as int);
        }
    }

    proof fn lemma_eq(a: i64, b: i64) {
    }

    proof fn lemma_lt(a: i64, b: i64) {
    }
}

impl PointType for i128 {
    open spec fn value(self) -> int {
        self as int
    }

    open spec fn fits(v: int) -> bool {
        i128::MIN <= v <= i128::MAX
    }

    fn zero() -> (z: i128) {
        0
    }

    fn widen(self) -> (w: i128) {
        self
    }

    fn holds(v: i128) -> (held: bool) {
        true
    }

    proof fn lemma_fits(v: int) {
    }

    proof fn lemma_value(a: i128, b: i128) {
    }

    proof fn lemma_add(a: i128, b: i128) {
    }

    proof fn lemma_sub(a: i128, b: i128) {
    }

    proof fn lemma_mul(a: i128, b: i128) {
    }

    proof fn lemma_div(a: i128, b: i128) {
        if b != 0 {
            lemma_quotient_toward_zero_range(a as int, b as int);
        }
    }

    proof fn lemma_eq(a: i128, b: i128) {
    }

    proof fn lemma_lt(a: i128, b: i128) {
    }
}

} // verus!
