#![allow(dead_code)]

use rust_tracer::primitives::arithmetic::Op;
use rust_tracer::primitives::Scalar;
use rust_tracer::primitives::{Point, Ray, SquareMatrix, Vector};
use std::f64::consts::PI;

fn s(v: f64) -> Scalar {
    Scalar::from_bits(v.to_bits())
}

fn f(v: Scalar) -> f64 {
    f64::from_bits(v.to_bits())
}

fn ieee(op: Op, a: Scalar, b: Scalar) -> Scalar {
    let (x, y) = (f(a), f(b));
    s(match op {
        Op::Add => x + y,
        Op::Sub => x - y,
        Op::Mul => x * y,
        Op::Div => x / y,
        Op::Sqrt => x.sqrt(),
        Op::Pow => x.powf(y),
        Op::Sin => x.sin(),
        Op::Cos => x.cos(),
        Op::Tan => x.tan(),
        Op::Count => a.to_bits() as f64,
    })
}

fn pt(x: f64, y: f64, z: f64) -> Point {
    Point::new(s(x), s(y), s(z))
}

fn vc(x: f64, y: f64, z: f64) -> Vector {
    Vector::new(s(x), s(y), s(z))
}

#[test]
fn ray_tests_constructor_operates_correctly() {
    let origin = pt(1., -2., 0.5);
    let direction = vc(5., 3., 2.);

    let ray = Ray::new(origin.clone(), direction.clone());

    assert_eq!(ray.get_direction(), &direction);
    assert_eq!(ray.get_origin(), &origin);
}

#[test]
fn at_computes_correctly() {
    let ray = Ray::new(pt(2., 3., 4.), vc(1., 0., 0.));

    assert!(ray.at(s(0.), &ieee).eq(&pt(2., 3., 4.), &ieee));
    assert!(ray.at(s(1.), &ieee).eq(&pt(3., 3., 4.), &ieee));
    assert!(ray.at(s(-1.), &ieee).eq(&pt(1., 3., 4.), &ieee));
    assert!(ray.at(s(2.5), &ieee).eq(&pt(4.5, 3., 4.), &ieee));
}

#[test]
fn translating_a_ray_moves_its_origin_only() {
    let ray = Ray::new(pt(1., 2., 3.), vc(0., 1., 0.));
    let moved = ray.translate(s(3.), s(4.), s(5.), &ieee);
    assert!(moved.get_origin().eq(&pt(4., 6., 8.), &ieee));
    assert!(moved.get_direction().eq(&vc(0., 1., 0.), &ieee));
}

#[test]
fn scaling_a_ray_scales_origin_and_direction() {
    let ray = Ray::new(pt(1., 2., 3.), vc(0., 1., 0.));
    let scaled = ray.scale(s(2.), s(3.), s(4.), &ieee);
    assert!(scaled.get_origin().eq(&pt(2., 6., 12.), &ieee));
    assert!(scaled.get_direction().eq(&vc(0., 3., 0.), &ieee));
    let again = ray.transform(&SquareMatrix::scaling(s(2.), s(3.), s(4.)), &ieee);
    assert_eq!(scaled, again);
}

#[test]
fn rotating_and_shearing_a_ray() {
    let ray = Ray::new(pt(0., 1., 0.), vc(0., 0., 1.));
    let turned = ray.rotate_x(s(PI / 2.), &ieee);
    assert!(turned.get_origin().eq(&pt(0., 0., 1.), &ieee));
    assert!(turned.get_direction().eq(&vc(0., -1., 0.), &ieee));
    let turned = ray.rotate_y(s(PI / 2.), &ieee);
    assert!(turned.get_direction().eq(&vc(1., 0., 0.), &ieee));
    let turned = ray.rotate_z(s(PI / 2.), &ieee);
    assert!(turned.get_origin().eq(&pt(-1., 0., 0.), &ieee));
    let sheared = ray.shear(s(1.), s(0.), s(0.), s(0.), s(0.), s(0.), &ieee);
    assert!(sheared.get_origin().eq(&pt(1., 1., 0.), &ieee));
}
