#![allow(dead_code)]

use rust_tracer::primitives::arithmetic::Op;
use rust_tracer::primitives::Scalar;
use rust_tracer::lighting::PointLight;
use rust_tracer::objects::Sphere;
use rust_tracer::primitives::{Hit, HitRecord, Point, Ray, RgbColor, Vector};
use rust_tracer::shading::Material;

fn s(v: f64) -> Scalar {
    Scalar::from_bits(v.to_bits())
}

fn f(v: Scalar) -> f64 {
    f64::from_bits(v.to_bits())
}

fn ieee(op: Op, a: Scalar, b: Scalar) -> Scalar {
    let (x, y) = (f(a), f(b));
    s(match op {
        Op::Add => x + y,
        Op::Sub => x - y,
        Op::Mul => x * y,
        Op::Div => x / y,
        Op::Sqrt => x.sqrt(),
        Op::Pow => x.powf(y),
        Op::Sin => x.sin(),
        Op::Cos => x.cos(),
        Op::Tan => x.tan(),
        Op::Count => a.to_bits() as f64,
    })
}

fn pt(x: f64, y: f64, z: f64) -> Point {
    Point::new(s(x), s(y), s(z))
}

fn vc(x: f64, y: f64, z: f64) -> Vector {
    Vector::new(s(x), s(y), s(z))
}

fn rgb(r: f64, g: f64, b: f64) -> RgbColor {
    RgbColor::new(s(r), s(g), s(b))
}

fn record_on<'a>(sphere: &'a Sphere, point: Point, eye: Vector, normal: Vector) -> HitRecord<'a> {
    HitRecord {
        t: s(1.),
        object: sphere,
        hit_point: point,
        eye_vector: eye,
        normal_vector: normal,
        is_inside: false,
        is_in_shadow: false,
    }
}

#[test]
fn point_light_tests_constructor_operates_correctly() {
    let location = pt(1., -2., 3.);
    let intensity = rgb(0.5, 0.6, 0.7);
    let light = PointLight::new(location.clone(), intensity.clone());

    assert_eq!(location, light.location);
    assert_eq!(intensity, light.intensity);
}

#[test]
fn get_location_returns_correct_value() {
    let location = pt(1., -2., 3.);
    let intensity = rgb(0.5, 0.6, 0.7);
    let light = PointLight::new(location.clone(), intensity);

    assert_eq!(&location, light.get_location());
}

#[test]
fn get_intensity_returns_correct_value() {
    let location = pt(1., -2., 3.);
    let intensity = rgb(0.5, 0.6, 0.7);
    let light = PointLight::new(location, intensity.clone());
    assert_eq!(&intensity, light.get_intensity());
}

#[test]
fn shading_with_the_eye_between_light_and_surface_is_fully_lit() {
    let mut sphere = Sphere::identity();
    let mut material = Material::default();
    material.set_ambient(s(0.1));
    material.set_diffuse(s(0.9));
    material.set_specular(s(0.9));
    material.set_shininess(s(200.));
    sphere.set_material(material);
    let light = PointLight::new(pt(0., 0., -10.), rgb(1., 1., 1.));
    let record = record_on(&sphere, pt(0., 0., 0.), vc(0., 0., -1.), vc(0., 0., -1.));
    let color = light.shade(&record, &ieee);
    assert!(color.eq(&rgb(1.9, 1.9, 1.9), &ieee));
}

#[test]
fn shading_with_default_material_adds_ambient_diffuse_and_specular() {
    let sphere = Sphere::identity();
    let light = PointLight::new(pt(0., 0., -10.), rgb(1., 1., 1.));
    let record = record_on(&sphere, pt(0., 0., 0.), vc(0., 0., -1.), vc(0., 0., -1.));
    let color = light.shade(&record, &ieee);
    assert!(color.eq(&rgb(1.9, 1.9, 1.9), &ieee));
    for channel in [color.get_red(), color.get_green(), color.get_blue()] {
        assert!((f(channel) - 1.9).abs() < 1e-6);
    }
}

#[test]
fn shading_the_hit_of_a_ray_on_the_default_sphere_is_fully_lit() {
    let sphere = Sphere::identity();
    let ray = Ray::new(pt(0., 0., -5.), vc(0., 0., 1.));
    let record = Hit::new(s(4.0), &sphere).get_hit_record(&ray, &ieee);
    let light = PointLight::new(pt(0., 0., -10.), rgb(1., 1., 1.));
    let color = light.shade(&record, &ieee);
    for channel in [color.get_red(), color.get_green(), color.get_blue()] {
        assert!((f(channel) - 1.9).abs() < 1e-6);
    }
}

#[test]
fn shading_in_shadow_gives_ambient_only() {
    let sphere = Sphere::identity();
    let light = PointLight::new(pt(0., 0., -10.), rgb(1., 1., 1.));
    let mut record = record_on(&sphere, pt(0., 0., 0.), vc(0., 0., -1.), vc(0., 0., -1.));
    record.set_is_in_shadow(true);
    assert!(record.get_is_in_shadow());
    let color = light.shade(&record, &ieee);
    assert_eq!(color, rgb(0.1, 0.1, 0.1));
}

#[test]
fn shading_with_the_light_behind_the_surface_gives_ambient_only() {
    let sphere = Sphere::identity();
    let light = PointLight::new(pt(0., 0., 10.), rgb(1., 1., 1.));
    let record = record_on(&sphere, pt(0., 0., 0.), vc(0., 0., -1.), vc(0., 0., -1.));
    let color = light.shade(&record, &ieee);
    assert!(color.eq(&rgb(0.1, 0.1, 0.1), &ieee));
}

#[test]
fn shading_with_the_eye_off_the_reflection_has_no_specular() {
    let sphere = Sphere::identity();
    let light = PointLight::new(pt(0., 10., -10.), rgb(1., 1., 1.));
    let record = record_on(&sphere, pt(0., 0., 0.), vc(0., 0., -1.), vc(0., 0., -1.));
    let color = light.shade(&record, &ieee);
    let expected = 0.1 + 0.9 * (2f64.sqrt() / 2.);
    assert!(color.eq(&rgb(expected, expected, expected), &ieee));
}

#[test]
fn default_material_has_the_documented_coefficients() {
    let material = Material::default();
    assert_eq!(*material.get_color(), rgb(1., 1., 1.));
    assert_eq!(f(material.get_ambient()), 0.1);
    assert_eq!(f(material.get_diffuse()), 0.9);
    assert_eq!(f(material.get_specular()), 0.9);
    assert_eq!(f(material.get_shininess()), 300.0);
    let sum = f(material.get_ambient()) + f(material.get_diffuse()) + f(material.get_specular());
    assert!((sum - 1.9).abs() < 1e-6);
}

#[test]
fn material_setters_change_one_field() {
    let mut material = Material::default();
    material.set_color(rgb(0.1, 1., 0.5));
    material.set_diffuse(s(0.7));
    assert_eq!(*material.get_color(), rgb(0.1, 1., 0.5));
    assert_eq!(f(material.get_diffuse()), 0.7);
    assert_eq!(f(material.get_ambient()), 0.1);
}
