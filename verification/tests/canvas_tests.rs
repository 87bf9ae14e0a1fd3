#![allow(dead_code)]

use rust_tracer::primitives::arithmetic::Op;
use rust_tracer::primitives::Scalar;
use rust_tracer::primitives::{Canvas, RgbColor};

fn s(v: f64) -> Scalar {
    Scalar::from_bits(v.to_bits())
}

fn f(v: Scalar) -> f64 {
    f64::from_bits(v.to_bits())
}

fn ieee(op: Op, a: Scalar, b: Scalar) -> Scalar {
    let (x, y) = (f(a), f(b));
    s(match op {
        Op::Add => x + y,
        Op::Sub => x - y,
        Op::Mul => x * y,
        Op::Div => x / y,
        Op::Sqrt => x.sqrt(),
        Op::Pow => x.powf(y),
        Op::Sin => x.sin(),
        Op::Cos => x.cos(),
        Op::Tan => x.tan(),
        Op::Count => a.to_bits() as f64,
    })
}

fn rgb(r: f64, g: f64, b: f64) -> RgbColor {
    RgbColor::new(s(r), s(g), s(b))
}

#[test]
fn new_canvas_creates_with_proper_size() {
    let height = 25;
    let width = 20;
    let canvas = Canvas::new(width, height, None);

    assert_eq!(canvas.get_height(), height);
    assert_eq!(canvas.get_width(), width);
}

#[test]
fn new_canvas_has_minimum_size_of_1x1() {
    let canvas = Canvas::new(0, 0, None);
    assert_eq!(1, canvas.get_height());
    assert_eq!(1, canvas.get_width());
}

#[test]
fn new_canvas_creates_correct_pixel_color() {
    let color = rgb(1., 1., 0.);

    let canvas = Canvas::new(10, 10, Some(color.clone()));

    assert_eq!(color, canvas.get_pixel(5, 5));
}

#[test]
fn set_pixel_updates_correctly() {
    let color = rgb(1., 1., 0.);
    let mut canvas = Canvas::new(10, 10, None);

    canvas.set_pixel(5, 5, color.clone());

    assert_eq!(color, canvas.get_pixel(5, 5));
    assert_eq!(rgb(0., 0., 0.), canvas.get_pixel(5, 4));
}

#[test]
fn new_canvas_is_black_by_default() {
    let canvas = Canvas::new(3, 2, None);
    assert_eq!(rgb(0., 0., 0.), canvas.get_pixel(1, 2));
}

#[test]
fn build_contents_writes_a_plain_pixmap() {
    let mut canvas = Canvas::new(2, 2, None);
    canvas.set_pixel(0, 0, rgb(1., 0., 0.));
    canvas.set_pixel(0, 1, rgb(0., 0.5, 0.));
    canvas.set_pixel(1, 1, rgb(0.1, 0.2, 2.));
    let text = String::from_utf8(canvas.build_contents(&ieee)).unwrap();
    assert_eq!(text, "P3\n2 2\n255\n255 0 0 0 127 0\n0 0 0 25 51 255\n");
}

#[test]
fn build_contents_writes_sizes_of_several_digits() {
    let canvas = Canvas::new(12, 1, Some(rgb(1., 1., 1.)));
    let text = String::from_utf8(canvas.build_contents(&ieee)).unwrap();
    assert!(text.starts_with("P3\n12 1\n255\n255 255 255 255 255 255"));
    assert!(text.ends_with("255 255 255\n"));
    assert_eq!(text.len(), 12 + 12 * 12);
}

#[test]
fn correct_colors_applies_gamma_then_clamps() {
    let mut canvas = Canvas::new(2, 1, Some(rgb(4., 1., 0.)));
    canvas.set_pixel(0, 1, rgb(0.5, 0.25, 0.));
    canvas.correct_colors(&ieee);
    let g = 1.0 / 1.3;
    let top = 4f64.powf(g);
    assert_eq!(canvas.get_pixel(0, 0), rgb(top / top, 1. / top, 0. / top));
    assert_eq!(canvas.get_pixel(0, 1), rgb(0.5f64.powf(g), 0.25f64.powf(g), 0.));
}
