use geometry::operations::edge_term;
use geometry::operations::edge_term_is_computable;
use geometry::operations::polygon_is_computable;
use geometry::operations::signed_area_is_computable;
use geometry::operations::Area;
use geometry::operations::GeometryOperations;
use geometry::point::Point;

fn in_units(area: Area) -> f64 {
    area.doubled as f64 / 2.0
}

#[test]
fn scenario_triangle() {
    let a: Point<i64> = Point::new(0, 0, 0);
    let b: Point<i64> = Point::new(4, 0, 0);
    let c: Point<i64> = Point::new(0, 3, 0);
    assert_eq!(in_units(Point::area_of_triangle(a, b, c)), 6.0);
    assert_eq!(Point::area_of_triangle(a, b, c), Area { doubled: 12 });
    assert_eq!(Point::direction(a, b, c), 1);
    assert_eq!(Point::direction(a, c, b), -1);
}

#[test]
fn signed_area_is_twice_the_area_with_the_sign_of_the_turn() {
    let a: Point<i64> = Point::new(0, 0, 0);
    let b: Point<i64> = Point::new(4, 0, 0);
    let c: Point<i64> = Point::new(0, 3, 0);
    assert_eq!(Point::signed_area_of_parallelogram(a, b, c), 12);
    assert_eq!(Point::signed_area_of_parallelogram(a, c, b), -12);
    let p: Point<i32> = Point::new(1, 2, 0);
    let q: Point<i32> = Point::new(4, 7, 0);
    let r: Point<i32> = Point::new(9, 3, 0);
    assert_eq!(Point::signed_area_of_parallelogram(p, q, r), -37);
    assert_eq!(Point::area_of_triangle(p, q, r), Area { doubled: 37 });
    assert_eq!(in_units(Point::area_of_triangle(p, q, r)), 18.5);
    assert_eq!(Point::direction(p, q, r), -1);
}

#[test]
fn the_third_coordinate_plays_no_part_in_the_turn() {
    let a: Point<i128> = Point::new(0, 0, 5);
    let b: Point<i128> = Point::new(4, 0, -9);
    let c: Point<i128> = Point::new(0, 3, 1000);
    assert_eq!(Point::signed_area_of_parallelogram(a, b, c), 12);
    assert_eq!(Point::direction(a, b, c), 1);
}

#[test]
fn direction_of_three_points_on_a_line_is_zero() {
    let a: Point<i64> = Point::new(1, 1, 0);
    let b: Point<i64> = Point::new(3, 2, 0);
    let c: Point<i64> = Point::new(7, 4, 0);
    assert_eq!(Point::direction(a, b, c), 0);
    assert_eq!(Point::direction(c, a, b), 0);
    assert_eq!(Point::direction(a, a, b), 0);
    assert_eq!(Point::direction(a, a, a), 0);
    assert_eq!(Point::area_of_triangle(a, b, c), Area { doubled: 0 });
}

#[test]
fn direction_flips_when_two_points_are_swapped() {
    let points: Vec<Point<i64>> = vec![
        Point::new(0, 0, 0),
        Point::new(4, 0, 1),
        Point::new(0, 3, 2),
        Point::new(-5, 2, 3),
        Point::new(8, 6, 4),
        Point::new(2, 0, 5),
    ];
    for a in points.iter() {
        for b in points.iter() {
            for c in points.iter() {
                let turn = Point::direction(*a, *b, *c);
                assert!(turn == -1 || turn == 0 || turn == 1);
                assert_eq!(Point::direction(*b, *a, *c), -turn);
                assert_eq!(Point::direction(*a, *c, *b), -turn);
                assert_eq!(Point::direction(*c, *b, *a), -turn);
            }
        }
    }
}

#[test]
fn direction_is_a_sign_however_large_the_area() {
    let a: Point<i64> = Point::new(0, 0, 0);
    let b: Point<i64> = Point::new(1_000_000_000, 0, 0);
    let c: Point<i64> = Point::new(0, 1_000_000_000, 0);
    assert_eq!(Point::signed_area_of_parallelogram(a, b, c), 1_000_000_000_000_000_000);
    assert_eq!(Point::direction(a, b, c), 1);
    assert_eq!(Point::direction(a, c, b), -1);
}

#[test]
fn area_of_the_unit_square() {
    let square: Vec<Point<i64>> = vec![
        Point::new(0, 0, 0),
        Point::new(1, 0, 0),
        Point::new(1, 1, 0),
        Point::new(0, 1, 0),
    ];
    assert_eq!(in_units(Point::area_of_polygon(square.clone())), 1.0);
    assert_eq!(Point::area_of_polygon(square), Area { doubled: 2 });
}

#[test]
fn area_of_a_polygon_with_fewer_than_three_points_is_zero() {
    let none: Vec<Point<i64>> = Vec::new();
    assert_eq!(in_units(Point::area_of_polygon(none)), 0.0);
    let one: Vec<Point<i64>> = vec![Point::new(5, 7, 0)];
    assert_eq!(in_units(Point::area_of_polygon(one)), 0.0);
    let two: Vec<Point<i64>> = vec![Point::new(5, 7, 0), Point::new(1, 9, 0)];
    assert_eq!(in_units(Point::area_of_polygon(two)), 0.0);
}

#[test]
fn area_of_a_polygon_does_not_depend_on_its_sense() {
    let clockwise: Vec<Point<i32>> = vec![
        Point::new(0, 1, 0),
        Point::new(1, 1, 0),
        Point::new(1, 0, 0),
        Point::new(0, 0, 0),
    ];
    assert_eq!(Point::area_of_polygon(clockwise), Area { doubled: 2 });
}

#[test]
fn area_of_a_polygon_that_is_not_convex() {
    let corner: Vec<Point<i128>> = vec![
        Point::new(0, 0, 0),
        Point::new(2, 0, 0),
        Point::new(2, 1, 0),
        Point::new(1, 1, 0),
        Point::new(1, 2, 0),
        Point::new(0, 2, 0),
    ];
    assert_eq!(Point::area_of_polygon(corner), Area { doubled: 6 });
}

#[test]
fn area_of_a_triangle_as_a_polygon() {
    let a: Point<i64> = Point::new(-3, -1, 0);
    let b: Point<i64> = Point::new(4, 0, 0);
    let c: Point<i64> = Point::new(0, 3, 0);
    assert_eq!(Point::area_of_polygon(vec![a, b, c]), Point::area_of_triangle(a, b, c));
    assert_eq!(Point::area_of_triangle(a, b, c), Area { doubled: 25 });
    assert_eq!(in_units(Point::area_of_triangle(a, b, c)), 12.5);
}

#[test]
fn area_of_half_a_unit_square() {
    let a: Point<i32> = Point::new(0, 0, 0);
    let b: Point<i32> = Point::new(1, 0, 0);
    let c: Point<i32> = Point::new(0, 1, 0);
    assert_eq!(in_units(Point::area_of_triangle(a, b, c)), 0.5);
    assert_eq!(in_units(Point::area_of_polygon(vec![a, b, c])), 0.5);
}

#[test]
fn signed_area_can_be_tested_before_it_is_computed() {
    let a: Point<i32> = Point::new(0, 0, 0);
    let b: Point<i32> = Point::new(40000, 0, 0);
    let c: Point<i32> = Point::new(40000, 50000, 0);
    assert!(signed_area_is_computable(&a, &b, &c));
    assert_eq!(Point::signed_area_of_parallelogram(a, b, c), 2_000_000_000);
    let d: Point<i32> = Point::new(40000, 60000, 0);
    assert!(!signed_area_is_computable(&a, &b, &d));
    let low: Point<i32> = Point::new(i32::MIN, 0, 0);
    let high: Point<i32> = Point::new(1, 0, 0);
    assert!(!signed_area_is_computable(&low, &high, &a));
    let far: Point<i32> = Point::new(0, 0, i32::MAX);
    assert!(signed_area_is_computable(&far, &b, &c));
}

#[test]
fn edge_terms_add_up_to_the_shoelace_sum() {
    let p: Point<i64> = Point::new(1, 1, 0);
    let q: Point<i64> = Point::new(0, 1, 0);
    assert!(edge_term_is_computable(&p, &q));
    assert_eq!(edge_term(&p, &q), -2);
    assert_eq!(edge_term(&q, &p), 2);
    assert_eq!(edge_term(&p, &p), 0);
    let r: Point<i64> = Point::new(7, -3, 0);
    assert_eq!(edge_term(&p, &r), -12);
    let edge: Point<i64> = Point::new(0, i64::MAX, 0);
    assert!(!edge_term_is_computable(&edge, &edge));
    assert!(!edge_term_is_computable(&Point::new(i64::MIN, 0, 0), &Point::new(1, 0, 0)));
}

#[test]
fn polygon_can_be_tested_before_its_area_is_computed() {
    let square: Vec<Point<i32>> = vec![
        Point::new(0, 0, 0),
        Point::new(1, 0, 0),
        Point::new(1, 1, 0),
        Point::new(0, 1, 0),
    ];
    assert!(polygon_is_computable(&square));
    let none: Vec<Point<i32>> = Vec::new();
    assert!(polygon_is_computable(&none));
    let wide: Vec<Point<i32>> = vec![Point::new(0, 0, 0), Point::new(50000, 50000, 0)];
    assert!(!polygon_is_computable(&wide));
    let alone: Vec<Point<i64>> = vec![Point::new(0, i64::MAX, 0)];
    assert!(!polygon_is_computable(&alone));
}

#[test]
fn polygon_whose_running_total_leaves_the_widest_integer_cannot_be_computed() {
    let a: i128 = 1 << 62;
    let mut stairs: Vec<Point<i128>> = vec![Point::new(0, 1, 0)];
    for step in 1..=4 {
        stairs.push(Point::new(step * a, a, 0));
    }
    assert!(polygon_is_computable(&stairs));
    stairs.push(Point::new(5 * a, a, 0));
    for corner in 0..5 {
        assert!(edge_term_is_computable(&stairs[corner], &stairs[corner + 1]));
    }
    assert!(!polygon_is_computable(&stairs));
}
