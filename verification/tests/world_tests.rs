#![allow(dead_code)]

use rust_tracer::primitives::arithmetic::Op;
use rust_tracer::primitives::Scalar;
use rust_tracer::cameras::Camera;
use rust_tracer::lighting::PointLight;
use rust_tracer::objects::Sphere;
use rust_tracer::primitives::square_matrix::TransformError;
use rust_tracer::primitives::{Canvas, Hit, Point, Ray, RgbColor, SquareMatrix, Vector, World};
use rust_tracer::shading::Material;
use rust_tracer::tracing::tracer::{LIGHT_PARAMETER_BITS, SHADOW_OFFSET_BITS};
use rust_tracer::tracing::Tracer;
use std::cmp::Ordering;
use std::f64::consts::PI;

fn s(v: f64) -> Scalar {
    Scalar::from_bits(v.to_bits())
}

fn f(v: Scalar) -> f64 {
    f64::from_bits(v.to_bits())
}

fn ieee(op: Op, a: Scalar, b: Scalar) -> Scalar {
    let (x, y) = (f(a), f(b));
    s(match op {
        Op::Add => x + y,
        Op::Sub => x - y,
        Op::Mul => x * y,
        Op::Div => x / y,
        Op::Sqrt => x.sqrt(),
        Op::Pow => x.powf(y),
        Op::Sin => x.sin(),
        Op::Cos => x.cos(),
        Op::Tan => x.tan(),
        Op::Count => a.to_bits() as f64,
    })
}

fn pt(x: f64, y: f64, z: f64) -> Point {
    Point::new(s(x), s(y), s(z))
}

fn vc(x: f64, y: f64, z: f64) -> Vector {
    Vector::new(s(x), s(y), s(z))
}

fn rgb(r: f64, g: f64, b: f64) -> RgbColor {
    RgbColor::new(s(r), s(g), s(b))
}

fn two_spheres() -> World {
    let mut world = World::new();
    world.add_light(PointLight::new(pt(-10., 10., -10.), rgb(1., 1., 1.)));
    world.add_object(Sphere::identity());
    world.add_object(
        Sphere::with_transform(SquareMatrix::scaling(s(0.5), s(0.5), s(0.5)), &ieee).unwrap(),
    );
    world
}

#[test]
fn new_world_is_empty() {
    let world = World::new();
    assert_eq!(world.get_lights().len(), 0);
    assert_eq!(world.get_objects().len(), 0);
    let ray = Ray::new(pt(0., 0., -5.), vc(0., 0., 1.));
    let hits = world.get_hits(&ray, &ieee);
    assert!(hits.is_empty());
    assert!(World::get_first_visible_hit(&hits).is_none());
}

#[test]
fn world_hits_come_in_ascending_order() {
    let world = two_spheres();
    assert_eq!(world.get_lights().len(), 1);
    assert_eq!(world.get_objects().len(), 2);
    let ray = Ray::new(pt(0., 0., -5.), vc(0., 0., 1.));
    let hits = world.get_hits(&ray, &ieee);
    let ts: Vec<f64> = hits.iter().map(|h| f(h.get_t())).collect();
    assert_eq!(ts, vec![4., 4.5, 5.5, 6.]);
    assert!(std::ptr::eq(hits[0].get_object(), &world.get_objects()[0]));
    assert!(std::ptr::eq(hits[1].get_object(), &world.get_objects()[1]));
    assert!(std::ptr::eq(hits[2].get_object(), &world.get_objects()[1]));
    assert!(std::ptr::eq(hits[3].get_object(), &world.get_objects()[0]));
}

#[test]
fn first_visible_hit_skips_what_lies_behind() {
    let world = two_spheres();
    let ray = Ray::new(pt(0., 0., 0.), vc(0., 0., 1.));
    let hits = world.get_hits(&ray, &ieee);
    let ts: Vec<f64> = hits.iter().map(|h| f(h.get_t())).collect();
    assert_eq!(ts, vec![-1., -0.5, 0.5, 1.]);
    let first = World::get_first_visible_hit(&hits).unwrap();
    assert_eq!(f(first.get_t()), 0.5);
    assert!(std::ptr::eq(first.get_object(), &world.get_objects()[1]));
}

#[test]
fn first_visible_hit_leaves_out_zero_and_negatives() {
    let sphere = Sphere::identity();
    let hits = vec![Hit::new(s(-2.), &sphere), Hit::new(s(-0.), &sphere), Hit::new(s(0.), &sphere)];
    assert!(World::get_first_visible_hit(&hits).is_none());
    let hits = vec![Hit::new(s(0.), &sphere), Hit::new(s(1e-9), &sphere), Hit::new(s(3.), &sphere)];
    assert_eq!(f(World::get_first_visible_hit(&hits).unwrap().get_t()), 1e-9);
    let hits = vec![Hit::new(s(f64::NAN), &sphere), Hit::new(s(2.), &sphere)];
    assert_eq!(f(World::get_first_visible_hit(&hits).unwrap().get_t()), 2.);
}

#[test]
fn hits_compare_by_parameter_with_nan_last() {
    let sphere = Sphere::identity();
    let hit = |t: f64| Hit::new(s(t), &sphere);
    assert_eq!(hit(1.).cmp_ignore_nan(&hit(2.)), Ordering::Less);
    assert_eq!(hit(2.).cmp_ignore_nan(&hit(1.)), Ordering::Greater);
    assert_eq!(hit(-3.).cmp_ignore_nan(&hit(-3.)), Ordering::Equal);
    assert_eq!(hit(-0.).cmp_ignore_nan(&hit(0.)), Ordering::Equal);
    assert_eq!(hit(f64::NAN).cmp_ignore_nan(&hit(f64::NAN)), Ordering::Equal);
    assert_eq!(hit(f64::NAN).cmp_ignore_nan(&hit(f64::INFINITY)), Ordering::Greater);
    assert_eq!(hit(f64::NEG_INFINITY).cmp_ignore_nan(&hit(f64::NAN)), Ordering::Less);
    assert_eq!(hit(1.).partial_cmp(&hit(2.)), Some(Ordering::Less));
    assert_eq!(hit(2.).partial_cmp(&hit(-2.)), Some(Ordering::Greater));
    assert_eq!(hit(0.).partial_cmp(&hit(-0.)), Some(Ordering::Equal));
    assert_eq!(hit(f64::NAN).partial_cmp(&hit(1.)), None);
    assert_eq!(hit(1.).partial_cmp(&hit(f64::NAN)), None);
}

#[test]
fn shadow_test_finds_what_stands_before_the_light() {
    let world = two_spheres();
    let light = pt(-10., 10., -10.);
    let to_light = |from: Point| Ray::new(from, light.sub(&from, &ieee));
    assert!(Tracer::check_in_shadow(&world, &to_light(pt(10., -10., 10.)), &ieee));
    assert!(!Tracer::check_in_shadow(&world, &to_light(pt(-20., 20., -20.)), &ieee));
    assert!(!Tracer::check_in_shadow(&world, &to_light(pt(-2., 2., -2.)), &ieee));
    assert!(!Tracer::check_in_shadow(&world, &to_light(pt(0., 10., 0.)), &ieee));
}

fn shadow_scene(with_occluder: bool) -> (World, Camera) {
    let mut world = World::new();
    world.add_light(PointLight::new(pt(0., 0., -10.), rgb(1., 1., 1.)));
    world.add_object(
        Sphere::with_transform(SquareMatrix::translation(s(0.), s(0.), s(5.)), &ieee).unwrap(),
    );
    if with_occluder {
        world.add_object(Sphere::identity());
    }
    let canvas = Canvas::new(1, 1, None);
    let mut camera = Camera::new(&canvas, s(PI / 3.), &ieee);
    camera.set_position(&pt(3., 0., 1.), &pt(0., 0., 4.), &vc(0., 1., 0.), &ieee).unwrap();
    (world, camera)
}

#[test]
fn occluded_point_receives_ambient_only() {
    let (world, camera) = shadow_scene(true);
    let color = Tracer::trace_pixel(&world, &camera, 0, 0, &ieee).unwrap();
    assert!(color.eq(&rgb(0.1, 0.1, 0.1), &ieee));

    let (world, camera) = shadow_scene(false);
    let color = Tracer::trace_pixel(&world, &camera, 0, 0, &ieee).unwrap();
    assert!(f(color.get_red()) > 0.9999 && f(color.get_red()) < 1.0001);
}

#[test]
fn trace_world_corrects_the_colour_it_found() {
    let (world, camera) = shadow_scene(true);
    let mut canvas = Canvas::new(1, 1, None);
    Tracer::trace_world(&world, &camera, &mut canvas, &ieee);
    let expected = 0.1f64.powf(1. / 1.3);
    assert!(canvas.get_pixel(0, 0).eq(&rgb(expected, expected, expected), &ieee));

    let (world, camera) = shadow_scene(false);
    let mut canvas = Canvas::new(1, 1, None);
    Tracer::trace_world(&world, &camera, &mut canvas, &ieee);
    assert!(canvas.get_pixel(0, 0).eq(&rgb(1., 1., 1.), &ieee));
}

fn small_scene() -> (World, Camera, Canvas) {
    let mut world = World::new();
    world.add_light(PointLight::new(pt(-10., 6., -10.), rgb(0.5, 0.5, 0.5)));
    world.add_light(PointLight::new(pt(13., 2.5, -10.), rgb(0.5, 0.5, 0.5)));
    let mut floor = Sphere::identity();
    floor.set_transform(SquareMatrix::scaling(s(10.), s(0.01), s(10.)), &ieee).unwrap();
    world.add_object(floor);
    let mut ball = Sphere::new(pt(-0.5, 1., 0.5), s(1.), &ieee).unwrap();
    let mut material = Material::default();
    material.set_color(rgb(0.1, 1., 0.5));
    ball.set_material(material);
    world.add_object(ball);
    let canvas = Canvas::new(9, 7, Some(rgb(0.25, 0.5, 0.75)));
    let mut camera = Camera::new(&canvas, s(PI / 2.5), &ieee);
    camera.set_position(&pt(0., 1.5, -5.), &pt(0., 1., 0.), &vc(0., 1., 0.), &ieee).unwrap();
    (world, camera, canvas)
}

#[test]
fn rendering_twice_gives_identical_buffers() {
    let (world, camera, mut first) = small_scene();
    let (_, _, mut second) = small_scene();
    Tracer::trace_world(&world, &camera, &mut first, &ieee);
    Tracer::trace_world(&world, &camera, &mut second, &ieee);
    let mut lit = 0;
    let background = {
        let mut c = rgb(0.25, 0.5, 0.75);
        c.gamma_correct(&ieee);
        c.clamp(&ieee);
        c
    };
    for row in 0..first.get_height() {
        for col in 0..first.get_width() {
            assert_eq!(first.get_pixel(row, col), second.get_pixel(row, col));
            assert!(!(f(first.get_pixel(row, col).max_channel()) > 1.));
            if first.get_pixel(row, col) != background {
                lit += 1;
            }
        }
    }
    assert!(lit > 0);
    assert_eq!(first.get_pixel(0, 0), background);
    assert_eq!(first.build_contents(&ieee), second.build_contents(&ieee));
}

#[test]
fn empty_scene_keeps_the_background() {
    let world = World::new();
    let mut canvas = Canvas::new(3, 2, Some(rgb(0.5, 0.25, 2.)));
    let camera = Camera::new(&canvas, s(PI / 2.), &ieee);
    Tracer::trace_world(&world, &camera, &mut canvas, &ieee);
    let g = 1. / 1.3;
    let top = 2f64.powf(g);
    let expected = rgb(0.5f64.powf(g) / top, 0.25f64.powf(g) / top, top / top);
    for row in 0..2 {
        for col in 0..3 {
            assert_eq!(canvas.get_pixel(row, col), expected);
        }
    }
}

#[test]
fn camera_frames_a_wide_and_a_tall_canvas() {
    let camera = Camera::new(&Canvas::new(200, 125, None), s(PI / 2.), &ieee);
    assert!((f(camera.pixel_size) - 0.01).abs() < 1e-9);
    assert_eq!(camera.width, 200);
    assert_eq!(camera.height, 125);
    let camera = Camera::new(&Canvas::new(125, 200, None), s(PI / 2.), &ieee);
    assert!((f(camera.pixel_size) - 0.01).abs() < 1e-9);
    assert!((f(camera.half_height) - 1.).abs() < 1e-9);
    assert!((f(camera.half_width) - 0.625).abs() < 1e-9);
}

#[test]
fn camera_rays_run_through_the_pixels() {
    let camera = Camera::new(&Canvas::new(201, 101, None), s(PI / 2.), &ieee);
    let ray = camera.get_ray(100, 50, &ieee);
    assert!(ray.get_origin().eq(&pt(0., 0., 0.), &ieee));
    assert!(ray.get_direction().eq(&vc(0., 0., -1.), &ieee));
    let ray = camera.get_ray(0, 0, &ieee);
    let direction = ray.get_direction();
    assert!((f(direction.get_x()) - 0.66519).abs() < 1e-5);
    assert!((f(direction.get_y()) - 0.33259).abs() < 1e-5);
    assert!((f(direction.get_z()) + 0.66851).abs() < 1e-5);

    let mut camera = Camera::new(&Canvas::new(201, 101, None), s(PI / 2.), &ieee);
    camera.set_position(&pt(0., 0., 5.), &pt(0., 0., 0.), &vc(0., 1., 0.), &ieee).unwrap();
    let ray = camera.get_ray(100, 50, &ieee);
    assert!(ray.get_origin().eq(&pt(0., 0., 5.), &ieee));
    assert!(ray.get_direction().eq(&vc(0., 0., -1.), &ieee));
}

#[test]
fn camera_looking_along_its_up_vector_is_refused() {
    let mut camera = Camera::new(&Canvas::new(4, 4, None), s(PI / 2.), &ieee);
    let refused = camera.set_position(&pt(0., 0., 0.), &pt(0., 1., 0.), &vc(0., 1., 0.), &ieee);
    assert_eq!(refused, Err(TransformError::Degenerate));
    assert!(camera.transform.eq(&SquareMatrix::identity(4), &ieee));
}

#[test]
fn shadow_constants_keep_their_values() {
    assert_eq!(SHADOW_OFFSET_BITS, 1e-6f64.to_bits());
    assert_eq!(LIGHT_PARAMETER_BITS, 1f64.to_bits());
}
