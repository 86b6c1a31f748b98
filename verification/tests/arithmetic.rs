use geometry::point::Point;
use geometry::scalar::PointType;
use geometry::text::join_pair;
use geometry::text::join_triple;
use geometry::text::write_integer;

fn samples() -> Vec<Point<i64>> {
    vec![
        Point::new(0, 0, 0),
        Point::new(1, -2, 3),
        Point::new(20, 12, 30),
        Point::new(45, -100, -55),
        Point::new(-7, 7, -1),
        Point::new(1_000_000_007, -999_999_937, 123_456_789),
    ]
}

#[test]
fn scenario_sum_and_difference() {
    let p: Point<i64> = Point::new(20, 12, 30);
    let q: Point<i64> = Point::new(45, -100, -55);
    assert_eq!(p + q, Point::new(65, -88, -25));
    assert_eq!(p - q, Point::new(-25, 112, 85));
}

#[test]
fn adding_then_subtracting_gives_the_first_point_back() {
    for a in samples() {
        for b in samples() {
            assert_eq!((a + b) - b, a);
        }
    }
}

#[test]
fn addition_commutes() {
    for a in samples() {
        for b in samples() {
            assert_eq!(a + b, b + a);
        }
    }
}

#[test]
fn addition_is_associative() {
    for a in samples() {
        for b in samples() {
            for c in samples() {
                assert_eq!((a + b) + c, a + (b + c));
            }
        }
    }
}

#[test]
fn scaling_distributes_over_subtraction() {
    for a in samples() {
        for b in samples() {
            for k in [-3i64, -1, 0, 1, 2, 17] {
                assert_eq!(a * k - b * k, (a - b) * k);
            }
        }
    }
}

#[test]
fn sums_and_differences_behind_references() {
    let p: Point<i32> = Point::new(20, 12, 30);
    let q: Point<i32> = Point::new(45, -100, -55);
    assert_eq!(&p + &q, Point::new(65, -88, -25));
    assert_eq!(&p - &q, Point::new(-25, 112, 85));
    assert_eq!(&p + &q, p + q);
    assert_eq!(&p - &q, p - q);
}

#[test]
fn scaling_multiplies_each_coordinate() {
    let p: Point<i128> = Point::new(20, -12, 0);
    assert_eq!(p * 3, Point::new(60, -36, 0));
    assert_eq!(p * -1, Point::new(-20, 12, 0));
    assert_eq!(p * 0, Point::new(0, 0, 0));
}

#[test]
fn division_rounds_toward_zero() {
    let p: Point<i64> = Point::new(-7, 7, -1);
    assert_eq!(p / 2, Point::new(-3, 3, 0));
    assert_eq!(p / -2, Point::new(3, -3, 0));
    let q: Point<i32> = Point::new(45, -100, -55);
    assert_eq!(q / 3, Point::new(15, -33, -18));
    assert_eq!(q / 1, q);
}

#[test]
fn compound_assignment_is_the_operation_and_the_assignment() {
    let start: Point<i64> = Point::new(20, 12, 30);
    let step: Point<i64> = Point::new(45, -100, -55);
    let mut moving = start;
    moving += step;
    assert_eq!(moving, start + step);
    assert_eq!(moving, Point::new(65, -88, -25));
    moving -= step;
    assert_eq!(moving, start);
    moving *= 4;
    assert_eq!(moving, Point::new(80, 48, 120));
    moving /= 8;
    assert_eq!(moving, Point::new(10, 6, 15));
}

#[test]
fn default_is_the_origin() {
    assert_eq!(Point::<i32>::default(), Point::new(0, 0, 0));
    assert_eq!(Point::<i64>::default(), Point::new(0, 0, 0));
    assert_eq!(Point::<i128>::default(), Point::new(0, 0, 0));
    let p: Point<i64> = Point::new(3, -4, 5);
    assert_eq!(p + Point::default(), p);
}

#[test]
fn zero_is_the_additive_identity_of_each_scalar() {
    assert_eq!(<i32 as PointType>::zero(), 0);
    assert_eq!(<i64 as PointType>::zero(), 0);
    assert_eq!(<i128 as PointType>::zero(), 0);
    assert_eq!(17i64 + <i64 as PointType>::zero(), 17);
}

#[test]
fn widening_keeps_the_number() {
    assert_eq!(PointType::widen(i32::MIN), -2147483648i128);
    assert_eq!(PointType::widen(i64::MAX), 9223372036854775807i128);
    assert_eq!(PointType::widen(-5i128), -5i128);
}

#[test]
fn new_keeps_the_coordinates() {
    let p: Point<i64> = Point::new(1, -2, 3);
    assert_eq!(p.x, 1);
    assert_eq!(p.y, -2);
    assert_eq!(p.z, 3);
    let q = p.clone();
    assert_eq!(q, p);
}

#[test]
fn equality_is_exact_in_each_coordinate() {
    let p: Point<i64> = Point::new(1, 2, 3);
    assert!(p == Point::new(1, 2, 3));
    assert!(p != Point::new(0, 2, 3));
    assert!(p != Point::new(1, 0, 3));
    assert!(p != Point::new(1, 2, 0));
    assert!(p == p);
}

#[test]
fn text_is_the_coordinates_in_parentheses() {
    let p: Point<i64> = Point::new(1, -2, 3);
    assert_eq!(p.to_string(), "(1,-2,3)");
    let q: Point<i128> = Point::new(0, 170141183460469231731687303715884105727, -1);
    assert_eq!(q.to_string(), "(0,170141183460469231731687303715884105727,-1)");
    assert_eq!(Point::<i32>::default().to_string(), "(0,0,0)");
}

#[test]
fn texts_are_joined_with_commas() {
    assert_eq!(join_triple("a", "bc", ""), "(a,bc,)");
    assert_eq!(join_pair("12", "-3"), "(12,-3)");
    assert_eq!(write_integer(-40), "-40");
    assert_eq!(write_integer(0), "0");
}

#[test]
fn each_scalar_knows_what_it_holds() {
    assert!(<i32 as PointType>::holds(2147483647));
    assert!(!<i32 as PointType>::holds(2147483648));
    assert!(<i32 as PointType>::holds(-2147483648));
    assert!(!<i32 as PointType>::holds(-2147483649));
    assert!(<i64 as PointType>::holds(9223372036854775807));
    assert!(!<i64 as PointType>::holds(9223372036854775808));
    assert!(<i64 as PointType>::holds(-9223372036854775808));
    assert!(!<i64 as PointType>::holds(-9223372036854775809));
    assert!(<i128 as PointType>::holds(i128::MAX));
    assert!(<i128 as PointType>::holds(i128::MIN));
}
