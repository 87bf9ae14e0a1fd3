#![allow(dead_code)]

use rust_tracer::primitives::arithmetic::Op;
use rust_tracer::primitives::Scalar;
use rust_tracer::primitives::{Point, Vector};

fn s(v: f64) -> Scalar {
    Scalar::from_bits(v.to_bits())
}

fn f(v: Scalar) -> f64 {
    f64::from_bits(v.to_bits())
}

fn ieee(op: Op, a: Scalar, b: Scalar) -> Scalar {
    let (x, y) = (f(a), f(b));
    s(match op {
        Op::Add => x + y,
        Op::Sub => x - y,
        Op::Mul => x * y,
        Op::Div => x / y,
        Op::Sqrt => x.sqrt(),
        Op::Pow => x.powf(y),
        Op::Sin => x.sin(),
        Op::Cos => x.cos(),
        Op::Tan => x.tan(),
        Op::Count => a.to_bits() as f64,
    })
}

fn pt(x: f64, y: f64, z: f64) -> Point {
    Point::new(s(x), s(y), s(z))
}

fn vc(x: f64, y: f64, z: f64) -> Vector {
    Vector::new(s(x), s(y), s(z))
}

#[test]
fn point_tests_new_correctly_assigns_values() {
    let expected_x = 1.23;
    let expected_y = -5.55;
    let expected_z = 16.;

    let point = pt(expected_x, expected_y, expected_z);

    assert_eq!(expected_x, f(point.x));
    assert_eq!(expected_y, f(point.y));
    assert_eq!(expected_z, f(point.z));
}

#[test]
fn point_tests_get_x_returns_correct_value() {
    let point = pt(1.23, -5.55, 16.);
    assert_eq!(1.23, f(point.get_x()));
}

#[test]
fn point_tests_get_y_returns_correct_value() {
    let point = pt(1.23, -5.55, 16.);
    assert_eq!(-5.55, f(point.get_y()));
}

#[test]
fn point_tests_get_z_returns_correct_value() {
    let point = pt(1.23, -5.55, 16.);
    assert_eq!(16., f(point.get_z()));
}

#[test]
fn adding_point_and_vector_returns_summed_vector() {
    let (x1, x2, y1, y2, z1, z2) = (1., -2., 5., 16., -100., 54.);

    let point = pt(x2, y2, z2);
    let vector = vc(x1, y1, z1);

    let result = vector.add_point(&point, &ieee);

    assert_eq!(x1 + x2, f(result.get_x()));
    assert_eq!(y1 + y2, f(result.get_y()));
    assert_eq!(z1 + z2, f(result.get_z()));
}

#[test]
fn subtracting_two_points_yields_difference_vector() {
    let (x1, x2, y1, y2, z1, z2) = (1., -2., 5., 16., -100., 54.);

    let point1 = pt(x1, y1, z1);
    let point2 = pt(x2, y2, z2);

    let result: Vector = point1.sub(&point2, &ieee);

    assert_eq!(x1 - x2, f(result.get_x()));
    assert_eq!(y1 - y2, f(result.get_y()));
    assert_eq!(z1 - z2, f(result.get_z()));
}

#[test]
fn subtracting_vector_from_point_yields_difference_point() {
    let (x1, x2, y1, y2, z1, z2) = (1., -2., 5., 16., -100., 54.);

    let point = pt(x1, y1, z1);
    let vector = vc(x2, y2, z2);

    let result: Point = point.sub_vector(&vector, &ieee);

    assert_eq!(x1 - x2, f(result.get_x()));
    assert_eq!(y1 - y2, f(result.get_y()));
    assert_eq!(z1 - z2, f(result.get_z()));
}

#[test]
fn negating_point_yields_negative_point() {
    let (x, y, z) = (1., -2., -200.);

    let point = pt(x, y, z).neg();

    assert_eq!(-x, f(point.x));
    assert_eq!(-y, f(point.y));
    assert_eq!(-z, f(point.z));
}

#[test]
fn multiplying_point_by_scalar_yields_scaled_point() {
    let (x, y, z) = (1., -2., 20.);
    let scalar = 5.;

    let point = pt(x, y, z).mul(s(scalar), &ieee);

    assert_eq!(x * scalar, f(point.x));
    assert_eq!(y * scalar, f(point.y));
    assert_eq!(z * scalar, f(point.z))
}

#[test]
fn dividing_point_by_scalar_yields_scaled_point() {
    let (x, y, z) = (1., -2., 20.);
    let scalar = 2.;

    let point = pt(x, y, z).div(s(scalar), &ieee);

    assert_eq!(x / scalar, f(point.x));
    assert_eq!(y / scalar, f(point.y));
    assert_eq!(z / scalar, f(point.z))
}

#[test]
fn point_index_reads_one_as_fourth_coordinate() {
    let point = pt(1.5, -2., 3.);
    assert_eq!(1.5, f(point.index(0)));
    assert_eq!(-2., f(point.index(1)));
    assert_eq!(3., f(point.index(2)));
    assert_eq!(1., f(point.index(3)));
    assert_eq!(1., f(point.index(17)));
}

#[test]
fn point_equality_is_approximate() {
    let point = pt(1., 2., 3.);
    assert!(point.eq(&pt(1.0000001, 2., 2.9999999), &ieee));
    assert!(!point.eq(&pt(1.00001, 2., 3.), &ieee));
}

#[test]
fn translating_a_point_shifts_it() {
    let moved = pt(1., 2., 3.).translate(s(1.5), s(-2.), s(5.), &ieee);
    assert!(moved.eq(&pt(2.5, 0., 8.), &ieee));
}
