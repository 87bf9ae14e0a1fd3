#![allow(dead_code)]

use rust_tracer::primitives::arithmetic::Op;
use rust_tracer::primitives::Scalar;
use rust_tracer::objects::{Hittable, Sphere};
use rust_tracer::primitives::square_matrix::TransformError;
use rust_tracer::primitives::{Hit, HitRecord, Point, Ray, SquareMatrix, Vector};
use std::f64::consts::PI;

fn s(v: f64) -> Scalar {
    Scalar::from_bits(v.to_bits())
}

fn f(v: Scalar) -> f64 {
    f64::from_bits(v.to_bits())
}

fn ieee(op: Op, a: Scalar, b: Scalar) -> Scalar {
    let (x, y) = (f(a), f(b));
    s(match op {
        Op::Add => x + y,
        Op::Sub => x - y,
        Op::Mul => x * y,
        Op::Div => x / y,
        Op::Sqrt => x.sqrt(),
        Op::Pow => x.powf(y),
        Op::Sin => x.sin(),
        Op::Cos => x.cos(),
        Op::Tan => x.tan(),
        Op::Count => a.to_bits() as f64,
    })
}

fn pt(x: f64, y: f64, z: f64) -> Point {
    Point::new(s(x), s(y), s(z))
}

fn vc(x: f64, y: f64, z: f64) -> Vector {
    Vector::new(s(x), s(y), s(z))
}

fn same_sphere(a: &Sphere, b: &Sphere) -> bool {
    std::ptr::eq(a, b)
}

#[test]
fn get_hits_returns_two_hit_points() {
    let sphere = Sphere::identity();
    let ray = Ray::new(pt(0., 0., -5.), vc(0., 0., 1.));

    let hits = sphere.get_hits(&ray, &ieee);

    assert_eq!(2, hits.len());
    assert_eq!(f(hits[0].get_t()), 4.0);
    assert!(same_sphere(hits[0].get_object(), &sphere));
    assert_eq!(f(hits[1].get_t()), 6.0);
    assert!(same_sphere(hits[1].get_object(), &sphere));
}

#[test]
fn get_hits_at_tanget_returns_one_point() {
    let sphere = Sphere::identity();
    let ray = Ray::new(pt(0., 1., -5.), vc(0., 0., 1.));

    let hits = sphere.get_hits(&ray, &ieee);

    assert_eq!(1, hits.len());
    assert_eq!(f(hits[0].get_t()), 5.0);
    assert!(same_sphere(hits[0].get_object(), &sphere));
}

#[test]
fn get_hits_misses_sphere() {
    let sphere = Sphere::identity();
    let ray = Ray::new(pt(0., 1.25, -5.), vc(0., 0., 1.));

    let hits = sphere.get_hits(&ray, &ieee);

    assert_eq!(0, hits.len());
}

#[test]
fn get_hits_computes_on_transformed_sphere() {
    let sphere = Sphere::with_transform(SquareMatrix::scaling(s(2.), s(2.), s(2.)), &ieee).unwrap();
    let ray = Ray::new(pt(0., 0., -5.), vc(0., 0., 1.));

    let hits = sphere.get_hits(&ray, &ieee);

    assert_eq!(2, hits.len());
    assert_eq!(f(hits[0].get_t()), 3.0);
    assert_eq!(f(hits[1].get_t()), 7.0);
    assert!(same_sphere(hits[1].get_object(), &sphere));
}

#[test]
fn normal_on_x_axis_computes_correctly() {
    let sphere = Sphere::identity();
    let point = pt(1.0, 0.0, 0.0);
    let normal = sphere.get_normal(&point, &ieee);

    assert!(normal.eq(&vc(1.0, 0.0, 0.0), &ieee));
}

#[test]
fn normal_on_y_axis_computes_correctly() {
    let sphere = Sphere::identity();
    let point = pt(0.0, 1.0, 0.0);
    let normal = sphere.get_normal(&point, &ieee);

    assert!(normal.eq(&vc(0.0, 1.0, 0.0), &ieee));
}

#[test]
fn normal_on_z_axis_computes_correctly() {
    let sphere = Sphere::identity();
    let point = pt(0.0, 0.0, 1.0);
    let normal = sphere.get_normal(&point, &ieee);

    assert!(normal.eq(&vc(0.0, 0.0, 1.0), &ieee));
}

#[test]
fn normal_on_arbitrary_point_computes_correctly() {
    let sphere = Sphere::identity();
    let v = 3.0f64.sqrt() / 3.0;
    let point = pt(v, v, v);
    let normal = sphere.get_normal(&point, &ieee);

    assert!(normal.eq(&vc(v, v, v), &ieee));
}

#[test]
fn normal_on_translated_sphere_computes_correctly() {
    let sphere =
        Sphere::with_transform(SquareMatrix::translation(s(0.0), s(1.0), s(0.0)), &ieee).unwrap();
    let normal = sphere.get_normal(&pt(0.0, 1.70711, -0.70711), &ieee);

    assert!(normal.eq(&vc(0.0, 0.7071067, -0.7071067), &ieee));
}

#[test]
fn normal_on_transformed_sphere_computes_correctly() {
    let transform = SquareMatrix::scaling(s(1.0), s(0.5), s(1.0))
        .mul(&SquareMatrix::rotation_z(s(PI / 5.0), &ieee), &ieee);
    let sphere = Sphere::with_transform(transform, &ieee).unwrap();
    let sqrt2over2 = 2.0f64.sqrt() / 2.0;
    let normal = sphere.get_normal(&pt(0.0, sqrt2over2, -sqrt2over2), &ieee);
    assert!(normal.eq(&vc(0.0, 0.9701425, -0.242535), &ieee));
}

#[test]
fn normal_on_transformed_sphere_is_normalized() {}

#[test]
fn get_hits_from_inside_returns_the_negative_root_first() {
    let sphere = Sphere::identity();
    let ray = Ray::new(pt(0., 0., 0.), vc(0., 0., 1.));
    let hits = sphere.get_hits(&ray, &ieee);
    assert_eq!(2, hits.len());
    assert_eq!(f(hits[0].get_t()), -1.0);
    assert_eq!(f(hits[1].get_t()), 1.0);
}

#[test]
fn get_hits_behind_the_ray_returns_two_negative_roots_in_order() {
    let sphere = Sphere::identity();
    let ray = Ray::new(pt(0., 0., 5.), vc(0., 0., 1.));
    let hits = sphere.get_hits(&ray, &ieee);
    assert_eq!(2, hits.len());
    assert_eq!(f(hits[0].get_t()), -6.0);
    assert_eq!(f(hits[1].get_t()), -4.0);
}

#[test]
fn sphere_new_places_and_sizes_the_unit_sphere() {
    let sphere = Sphere::new(pt(0., 0., 10.), s(2.), &ieee).unwrap();
    let ray = Ray::new(pt(0., 0., 0.), vc(0., 0., 1.));
    let hits = sphere.get_hits(&ray, &ieee);
    assert_eq!(2, hits.len());
    assert_eq!(f(hits[0].get_t()), 8.0);
    assert_eq!(f(hits[1].get_t()), 12.0);
}

#[test]
fn sphere_with_a_singular_transform_is_refused() {
    let flat = SquareMatrix::scaling(s(1.), s(0.), s(1.));
    assert_eq!(
        Sphere::with_transform(flat.duplicate(), &ieee).err(),
        Some(TransformError::Degenerate)
    );
    assert!(Sphere::new(pt(0., 0., 0.), s(0.), &ieee).is_err());
    let mut sphere = Sphere::identity();
    assert_eq!(sphere.set_transform(flat, &ieee), Err(TransformError::Degenerate));
    assert!(sphere.get_transform().eq(&SquareMatrix::identity(4), &ieee));
    assert!(sphere.get_transform_inverted().eq(&SquareMatrix::identity(4), &ieee));
}

#[test]
fn set_transform_keeps_the_inverse_in_step() {
    let mut sphere = Sphere::identity();
    sphere.set_transform(SquareMatrix::translation(s(1.), s(2.), s(3.)), &ieee).unwrap();
    let expected = SquareMatrix::translation(s(-1.), s(-2.), s(-3.));
    assert!(sphere.get_transform_inverted().eq(&expected, &ieee));
    let copy = sphere.duplicate();
    assert!(copy.get_transform().eq(sphere.get_transform(), &ieee));
    assert_eq!(copy.get_material(), sphere.get_material());
}

#[test]
fn hit_record_faces_the_eye_outside_and_inside() {
    let sphere = Sphere::identity();
    let ray = Ray::new(pt(0., 0., -5.), vc(0., 0., 1.));
    let outside = Hit::new(s(4.), &sphere).get_hit_record(&ray, &ieee);
    assert!(!outside.get_is_inside());
    assert!(!outside.get_is_in_shadow());
    assert_eq!(f(outside.get_t()), 4.);
    assert!(outside.get_hit_point().eq(&pt(0., 0., -1.), &ieee));
    assert!(outside.get_eye_vector().eq(&vc(0., 0., -1.), &ieee));
    assert!(outside.get_normal().eq(&vc(0., 0., -1.), &ieee));
    assert!(same_sphere(outside.get_object(), &sphere));

    let ray = Ray::new(pt(0., 0., 0.), vc(0., 0., 1.));
    let hit = Hit::new(s(1.), &sphere);
    let inside = HitRecord::new(&hit, &ray, &ieee);
    assert!(inside.get_is_inside());
    assert!(inside.get_hit_point().eq(&pt(0., 0., 1.), &ieee));
    assert!(inside.get_normal().eq(&vc(0., 0., -1.), &ieee));
}

fn nearest_through<T: Hittable>(surface: &T, ray: &Ray) -> Option<f64> {
    Hittable::get_hits(surface, ray, &ieee).first().map(|hit| f(hit.get_t()))
}

#[test]
fn sphere_answers_as_a_surface() {
    let mut sphere = Sphere::identity();
    let ray = Ray::new(pt(0., 0., -5.), vc(0., 0., 1.));
    assert_eq!(nearest_through(&sphere, &ray), Some(4.));
    let doubled = SquareMatrix::scaling(s(2.), s(2.), s(2.));
    Hittable::set_transform(&mut sphere, doubled.duplicate(), &ieee).unwrap();
    assert_eq!(nearest_through(&sphere, &ray), Some(3.));
    assert!(Hittable::get_transform(&sphere).eq(&doubled, &ieee));
    assert!(Hittable::get_transform_inverted(&sphere)
        .eq(&SquareMatrix::scaling(s(0.5), s(0.5), s(0.5)), &ieee));
    let normal = Hittable::get_normal(&sphere, &pt(2., 0., 0.), &ieee);
    assert!(normal.eq(&vc(1., 0., 0.), &ieee));
    let mut material = *Hittable::get_material(&sphere);
    material.set_shininess(s(10.));
    Hittable::set_material(&mut sphere, material);
    assert_eq!(f(sphere.get_material().get_shininess()), 10.);
}
