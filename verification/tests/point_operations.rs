use geometry::operations::cross;
use geometry::operations::dot;
use geometry::point::Point;

#[test]
fn check_point_operations() {
    let x1 = 20;
    let x2 = 45;
    let y1 = 12;
    let y2 = -100;
    let z1 = 30;
    let z2 = -55;
    let p: Point<i64> = Point::new(x1, y1, z1);
    let q: Point<i64> = Point::new(x2, y2, z2);
    assert_eq!(p + q, Point::new(x1 + x2, y1 + y2, z1 + z2));
    assert_eq!(p - q, Point::new(x1 - x2, y1 - y2, z1 - z2));
    assert_eq!(
        p * 2 - q * 3,
        Point::new(2 * x1 - 3 * x2, 2 * y1 - 3 * y2, 2 * z1 - 3 * z2)
    );
    assert_eq!(p / 2, Point::new(x1 / 2, y1 / 2, z1 / 2));
    assert_eq!(
        p / 2 - q / 3,
        Point::new(x1 / 2 - x2 / 3, y1 / 2 - y2 / 3, z1 / 2 - z2 / 3)
    );
    assert_eq!(dot(&p, &q), x1 * x2 + y1 * y2 + z1 * z2);
    assert_eq!(
        cross(p, q),
        Point::new(y1 * z2 - z1 * y2, z1 * x2 - x1 * z2, x1 * y2 - y1 * x2)
    )
}
