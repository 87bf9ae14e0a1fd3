//! The render loop: one ray per pixel, one shadow ray per light.

use vstd::prelude::*;
use crate::cameras::camera::Camera;
use crate::lighting::point_light::PointLight;
use crate::primitives::arithmetic::Unit;
use crate::primitives::arithmetic::sound;
use crate::primitives::arithmetic::shrinking;
use crate::primitives::arithmetic::difference;
use crate::primitives::arithmetic::minus;
use crate::primitives::canvas::Canvas;
use crate::primitives::canvas::corrected_grid;
use crate::primitives::hit_record::HitRecord;
use crate::primitives::point::Point;
use crate::primitives::ray::Ray;
use crate::primitives::rgb_color::RgbColor;
use crate::primitives::scalar::Scalar;
use crate::primitives::world::World;
use crate::primitives::world::first_visible;

verus! {

/// The pattern of a millionth: how far before a hit, along the ray that
/// found it, the shadow rays start.
pub const SHADOW_OFFSET_BITS: u64 = 0x3EB0_C6F7_A0B5_ED8D;

/// The pattern of one: the parameter at which a shadow ray reaches its
/// light, below which a hit casts a shadow.
pub const LIGHT_PARAMETER_BITS: u64 = 0x3FF0_0000_0000_0000;

/// The renderer: it holds no state of its own.
pub struct Tracer;

/// The ray from a point to a light: its direction spans the whole way, so
/// the light stands at parameter one.
pub open spec fn shadow_ray<F: Unit>(unit: &F, light: PointLight, origin: Point) -> Ray {
    Ray { origin, direction: light.location.offset_from(unit, origin) }
}

/// Something stands between a ray's origin and the light at parameter
/// one: the nearest visible hit lies below one.
pub open spec fn occluded<F: Unit>(unit: &F, world: &World, ray: Ray) -> bool {
    match first_visible(world.hits_along(unit, ray)) {
        Some(hit) => hit.t.less(Scalar { bits: LIGHT_PARAMETER_BITS }),
        None => false,
    }
}

/// What one light gives to a record seen from `origin`, the shadow test
/// included.
pub open spec fn light_share<F: Unit>(
    unit: &F,
    world: &World,
    light: PointLight,
    record: HitRecord,
    origin: Point,
) -> RgbColor {
    light.shaded(
        unit,
        HitRecord {
            is_in_shadow: occluded(unit, world, shadow_ray(unit, light, origin)),
            ..record
        },
    )
}

/// The shares of the first `k` lights, added to black in their order.
pub open spec fn lit<F: Unit>(
    unit: &F,
    world: &World,
    record: HitRecord,
    origin: Point,
    k: nat,
) -> RgbColor
    decreases k,
{
    if k == 0 {
        RgbColor::dark()
    } else {
        lit(unit, world, record, origin, (k - 1) as nat).mixed(
            unit,
            light_share(unit, world, world.lights@[k - 1], record, origin),
        )
    }
}

/// The colour that a pixel's ray finds, or none where it meets nothing
/// ahead of the eye. Shadow rays start a little before the hit, so that
/// the surface hit does not shade itself.
pub open spec fn pixel_color<F: Unit>(
    unit: &F,
    world: &World,
    camera: &Camera,
    x: usize,
    y: usize,
) -> Option<RgbColor> {
    let ray = camera.ray_through(unit, x, y);
    match first_visible(world.hits_along(unit, ray)) {
        None => None,
        Some(hit) => {
            let record = HitRecord::derived(unit, hit, ray);
            let origin = ray.position(
                unit,
                difference(unit, record.t, Scalar { bits: SHADOW_OFFSET_BITS }),
            );
            Some(lit(unit, world, record, origin, world.lights@.len()))
        },
    }
}

/// The pixel at (x, y) after tracing: the colour found, or what was there.
pub open spec fn traced_pixel<F: Unit>(
    unit: &F,
    world: &World,
    camera: &Camera,
    before: Seq<Seq<RgbColor>>,
    x: int,
    y: int,
) -> RgbColor {
    match pixel_color(unit, world, camera, x as usize, y as usize) {
        Some(color) => color,
        None => before[y][x],
    }
}

/// The canvas after tracing, before the colours are corrected.
pub open spec fn traced<F: Unit>(
    unit: &F,
    world: &World,
    camera: &Camera,
    before: Seq<Seq<RgbColor>>,
) -> Seq<Seq<RgbColor>> {
    Seq::new(
        before.len(),
        |y: int|
            Seq::new(before[y].len(), |x: int| traced_pixel(unit, world, camera, before, x, y)),
    )
}

/// The finished picture: every pixel traced, then gamma-corrected and
/// clamped.
pub open spec fn rendered<F: Unit>(
    unit: &F,
    world: &World,
    camera: &Camera,
    before: Seq<Seq<RgbColor>>,
) -> Seq<Seq<RgbColor>> {
    corrected_grid(unit, traced(unit, world, camera, before))
}

impl Tracer {
    /// Fills the canvas with the picture of the world that the camera sees.
    /// A pixel whose ray meets nothing keeps its colour; all are corrected
    /// at the end, so that under a unit whose division shrinks no pixel is
    /// left with a channel above one.
    pub fn trace_world<F: Unit>(world: &World, camera: &Camera, canvas: &mut Canvas, unit: &F)
        requires
            world.wf(),
            camera.inverted.wf(),
            old(canvas).wf(),
            sound(unit),
        ensures
            final(canvas).wf(),
            final(canvas)@ =~~= rendered(unit, world, camera, old(canvas)@),
            shrinking(unit) ==> final(canvas).fits(),
    {
        let height: usize = canvas.get_height();
        let width: usize = canvas.get_width();
        let mut y: usize = 0;
        while y < height
            invariant
                y <= height,
                world.wf(),
                camera.inverted.wf(),
                sound(unit),
                canvas.wf(),
                canvas@.len() == height,
                old(canvas)@.len() == height,
                old(canvas).wf(),
                canvas@[0].len() == width,
                old(canvas)@[0].len() == width,
                forall|r: int, c: int|
                    0 <= r < height && 0 <= c < width ==> canvas@[r][c] == if r < y {
                        traced_pixel(unit, world, camera, old(canvas)@, c, r)
                    } else {
                        old(canvas)@[r][c]
                    },
            decreases height - y,
        {
            let mut x: usize = 0;
            while x < width
                invariant
                    x <= width,
                    y < height,
                    world.wf(),
                    camera.inverted.wf(),
                    sound(unit),
                    canvas.wf(),
                    canvas@.len() == height,
                    old(canvas)@.len() == height,
                    old(canvas).wf(),
                    canvas@[0].len() == width,
                    old(canvas)@[0].len() == width,
                    forall|r: int, c: int|
                        0 <= r < height && 0 <= c < width ==> canvas@[r][c] == if r < y || (r == y
                            && c < x) {
                            traced_pixel(unit, world, camera, old(canvas)@, c, r)
                        } else {
                            old(canvas)@[r][c]
                        },
                decreases width - x,
            {
                match Self::trace_pixel(world, camera, x, y, unit) {
                    Some(color) => {
                        canvas.set_pixel(y, x, color);
                    },
                    None => {},
                }
                x += 1;
            }
            y += 1;
        }
        canvas.correct_colors(unit);
    }

    /// The colour that the ray through one pixel finds, if it finds any.
    pub fn trace_pixel<F: Unit>(
        world: &World,
        camera: &Camera,
        x: usize,
        y: usize,
        unit: &F,
    ) -> (color: Option<RgbColor>)
        requires
            world.wf(),
            camera.inverted.wf(),
            sound(unit),
        ensures
            color == pixel_color(unit, world, camera, x, y),
    {
        let ray = camera.get_ray(x, y, unit);
        let all_hits = world.get_hits(&ray, unit);
        match World::get_first_visible_hit(&all_hits) {
            None => None,
            Some(hit) => {
                let record = hit.get_hit_record(&ray, unit);
                let mut color = RgbColor::black();
                let origin = ray.at(
                    minus(unit, record.get_t(), Scalar::from_bits(SHADOW_OFFSET_BITS)),
                    unit,
                );
                let lights = world.get_lights();
                let mut k: usize = 0;
                while k < lights.len()
                    invariant
                        k <= lights@.len(),
                        *lights == world.lights,
                        world.wf(),
                        sound(unit),
                        color == lit(unit, world, record, origin, k as nat),
                    decreases lights@.len() - k,
                {
                    let light = &lights[k];
                    let vec = light.get_location().sub(&origin, unit);
                    let ray_to_light = Ray::new(origin, vec);
                    let mut seen = record;
                    seen.set_is_in_shadow(Self::check_in_shadow(world, &ray_to_light, unit));
                    color = color.add(&light.shade(&seen, unit), unit);
                    k += 1;
                }
                Some(color)
            },
        }
    }

    /// Whether anything stands between a shadow ray's origin and its light.
    pub fn check_in_shadow<F: Unit>(world: &World, ray: &Ray, unit: &F) -> (shadowed: bool)
        requires
            world.wf(),
            sound(unit),
        ensures
            shadowed == occluded(unit, world, *ray),
    {
        let hits = world.get_hits(ray, unit);
        match World::get_first_visible_hit(&hits) {
            Some(hit) => hit.get_t().lt(Scalar::from_bits(LIGHT_PARAMETER_BITS)),
            None => false,
        }
    }
}

/// A point with something between it and a light gets the ambient part
/// of that light and nothing else.
pub proof fn occluded_point_gets_ambient_only<F: Unit>(
    unit: &F,
    world: &World,
    light: PointLight,
    record: HitRecord,
    origin: Point,
)
    requires
        occluded(unit, world, shadow_ray(unit, light, origin)),
    ensures
        light_share(unit, world, light, record, origin) == light.ambient(unit, record),
{
}

/// The picture is a function of the scene, the camera and the canvas it
/// is painted on: equal canvases give equal pictures.
pub proof fn rendering_twice_gives_the_same_picture<F: Unit>(
    unit: &F,
    world: &World,
    camera: &Camera,
    first: Canvas,
    second: Canvas,
)
    requires
        first@ == second@,
    ensures
        rendered(unit, world, camera, first@) == rendered(unit, world, camera, second@),
{
}

} // verus!
