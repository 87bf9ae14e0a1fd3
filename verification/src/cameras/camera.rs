//! The eye: where it stands, what it looks at and how wide it sees.

use vstd::prelude::*;
use crate::primitives::arithmetic::Unit;
use crate::primitives::arithmetic::sound;
use crate::primitives::arithmetic::sum;
use crate::primitives::arithmetic::difference;
use crate::primitives::arithmetic::product;
use crate::primitives::arithmetic::quotient;
use crate::primitives::arithmetic::tangent;
use crate::primitives::arithmetic::counted;
use crate::primitives::arithmetic::plus;
use crate::primitives::arithmetic::minus;
use crate::primitives::arithmetic::times;
use crate::primitives::arithmetic::over;
use crate::primitives::arithmetic::tan;
use crate::primitives::arithmetic::from_count;
use crate::primitives::canvas::Canvas;
use crate::primitives::point::Point;
use crate::primitives::ray::Ray;
use crate::primitives::scalar::Scalar;
use crate::primitives::scalar::TWO_BITS;
use crate::primitives::scalar::HALF_BITS;
use crate::primitives::square_matrix::SquareMatrix;
use crate::primitives::square_matrix::TransformError;
use crate::primitives::square_matrix::det;
use crate::primitives::square_matrix::grid4;
use crate::primitives::square_matrix::identity_grid;
use crate::primitives::square_matrix::inverse_grid;
use crate::primitives::square_matrix::multiplied;
use crate::primitives::square_matrix::translation_grid;
use crate::primitives::square_matrix::zero;
use crate::primitives::square_matrix::one;
use crate::primitives::vector::Vector;

verus! {

#[derive(Debug)]
pub struct Camera {
    pub height: usize,
    pub width: usize,
    pub fov_in_radians: Scalar,
    pub transform: SquareMatrix,
    pub inverted: SquareMatrix,
    pub half_width: Scalar,
    pub half_height: Scalar,
    pub pixel_size: Scalar,
}

/// Half the width and half the height of the image plane at distance one,
/// and the size of a pixel on it: the longer side spans the field of view,
/// the shorter one follows the aspect ratio.
pub open spec fn frame<F: Unit>(unit: &F, width: usize, height: usize, fov: Scalar) -> (
    Scalar,
    Scalar,
    Scalar,
) {
    let half_view = tangent(unit, quotient(unit, fov, Scalar { bits: TWO_BITS }));
    let aspect = quotient(unit, counted(unit, width), counted(unit, height));
    let half_width = if one().less(aspect) || one().same(aspect) {
        half_view
    } else {
        product(unit, half_view, aspect)
    };
    let half_height = if one().less(aspect) || one().same(aspect) {
        quotient(unit, half_view, aspect)
    } else {
        half_view
    };
    (
        half_width,
        half_height,
        quotient(
            unit,
            product(unit, half_width, Scalar { bits: TWO_BITS }),
            counted(unit, width),
        ),
    )
}

/// The transform from world space to the space of an eye at `from` that
/// looks at `look_at`, with `up_vector` pointing up: the rows are left, up
/// and backward, applied after moving `from` to the origin.
pub open spec fn view_grid<F: Unit>(
    unit: &F,
    from: Point,
    look_at: Point,
    up_vector: Vector,
) -> Seq<Seq<Scalar>> {
    let forward = look_at.offset_from(unit, from).unit_length(unit);
    let left = forward.crossed(unit, up_vector.unit_length(unit));
    let up = left.crossed(unit, forward);
    let backward = forward.negated();
    multiplied(
        unit,
        grid4(
            (left.x, left.y, left.z, zero()),
            (up.x, up.y, up.z, zero()),
            (backward.x, backward.y, backward.z, zero()),
            (zero(), zero(), zero(), one()),
        ),
        translation_grid(from.x.negated(), from.y.negated(), from.z.negated()),
    )
}

/// The smaller of a pixel index and a bound.
pub open spec fn held(index: usize, bound: usize) -> usize {
    if index > bound {
        bound
    } else {
        index
    }
}

impl Camera {
    /// Both matrices are square.
    pub open spec fn wf(&self) -> bool {
        self.transform.wf() && self.inverted.wf()
    }

    /// The ray from the eye through the middle of pixel (x, y): the pixel's
    /// place on the image plane at z = -1 and the origin, both taken to
    /// world space, give the direction, at unit length.
    pub open spec fn ray_through<F: Unit>(&self, unit: &F, x: usize, y: usize) -> Ray {
        let half = Scalar { bits: HALF_BITS };
        let x_offset = product(
            unit,
            sum(unit, counted(unit, held(x, self.width)), half),
            self.pixel_size,
        );
        let y_offset = product(
            unit,
            sum(unit, counted(unit, held(y, self.height)), half),
            self.pixel_size,
        );
        let on_plane = Point {
            x: difference(unit, self.half_width, x_offset),
            y: difference(unit, self.half_height, y_offset),
            z: one().negated(),
        };
        let pixel = on_plane.mapped(unit, self.inverted@);
        let origin = (Point { x: zero(), y: zero(), z: zero() }).mapped(unit, self.inverted@);
        Ray { origin, direction: pixel.offset_from(unit, origin).unit_length(unit) }
    }

    pub fn new<F: Unit>(canvas: &Canvas, fov_in_radians: Scalar, unit: &F) -> (c: Camera)
        requires
            canvas.wf(),
            sound(unit),
        ensures
            c.wf(),
            c.width == canvas.width(),
            c.height == canvas.height(),
            c.fov_in_radians == fov_in_radians,
            c.transform@ == identity_grid(4),
            c.inverted@ == identity_grid(4),
            (c.half_width, c.half_height, c.pixel_size) == frame(
                unit,
                c.width,
                c.height,
                fov_in_radians,
            ),
    {
        let two = Scalar::from_bits(TWO_BITS);
        let half_view = tan(unit, over(unit, fov_in_radians, two));
        let width = from_count(unit, canvas.get_width());
        let aspect = over(unit, width, from_count(unit, canvas.get_height()));
        let half_width;
        let half_height;
        if Scalar::one().le(aspect) {
            half_width = half_view;
            half_height = over(unit, half_view, aspect);
        } else {
            half_width = times(unit, half_view, aspect);
            half_height = half_view;
        }
        let pixel_size = over(unit, times(unit, half_width, two), width);
        Camera {
            height: canvas.get_height(),
            width: canvas.get_width(),
            fov_in_radians,
            transform: SquareMatrix::identity(4),
            inverted: SquareMatrix::identity(4),
            half_height,
            half_width,
            pixel_size,
        }
    }

    /// Puts the eye at `from`, looking at `look_at`; where the resulting
    /// transform cannot be inverted the camera stays as it was.
    pub fn set_position<F: Unit>(
        &mut self,
        from: &Point,
        look_at: &Point,
        up_vector: &Vector,
        unit: &F,
    ) -> (r: Result<(), TransformError>)
        requires
            sound(unit),
        ensures
            r.is_err() <==> det(unit, view_grid(unit, *from, *look_at, *up_vector)).same(zero()),
            r.is_err() ==> *final(self) == *old(self),
            r.is_ok() ==> final(self).transform@ == view_grid(unit, *from, *look_at, *up_vector)
                && final(self).inverted@ == inverse_grid(unit, final(self).transform@)
                && final(self).transform.wf() && final(self).inverted.wf(),
            final(self).width == old(self).width,
            final(self).height == old(self).height,
            final(self).fov_in_radians == old(self).fov_in_radians,
            final(self).half_width == old(self).half_width,
            final(self).half_height == old(self).half_height,
            final(self).pixel_size == old(self).pixel_size,
    {
        let mut forward = look_at.sub(from, unit).get_normal(unit);
        let mut up = up_vector.get_normal(unit);
        let left = forward.cross(&up, unit);
        up = left.cross(&forward, unit);
        let mut transform = SquareMatrix::identity(4);
        forward = forward.neg();
        transform.set(0, 0, left.get_x());
        transform.set(0, 1, left.get_y());
        transform.set(0, 2, left.get_z());
        transform.set(1, 0, up.get_x());
        transform.set(1, 1, up.get_y());
        transform.set(1, 2, up.get_z());
        transform.set(2, 0, forward.get_x());
        transform.set(2, 1, forward.get_y());
        transform.set(2, 2, forward.get_z());
        assert(transform@ =~~= grid4(
            (left.x, left.y, left.z, zero()),
            (up.x, up.y, up.z, zero()),
            (forward.x, forward.y, forward.z, zero()),
            (zero(), zero(), zero(), one()),
        ));
        let moved = SquareMatrix::translation(
            from.get_x().neg(),
            from.get_y().neg(),
            from.get_z().neg(),
        );
        let view = transform.mul(&moved, unit);
        match view.invert(unit) {
            Ok(inverted) => {
                self.transform = view;
                self.inverted = inverted;
                Ok(())
            },
            Err(e) => Err(e),
        }
    }

    pub fn get_ray<F: Unit>(&self, x: usize, y: usize, unit: &F) -> (ray: Ray)
        requires
            self.inverted.wf(),
            sound(unit),
        ensures
            ray == self.ray_through(unit, x, y),
    {
        let x: usize = if x > self.width {
            self.width
        } else {
            x
        };
        let y: usize = if y > self.height {
            self.height
        } else {
            y
        };
        let half = Scalar::from_bits(HALF_BITS);
        let x_offset = times(unit, plus(unit, from_count(unit, x), half), self.pixel_size);
        let y_offset = times(unit, plus(unit, from_count(unit, y), half), self.pixel_size);
        let world_x = minus(unit, self.half_width, x_offset);
        let world_y = minus(unit, self.half_height, y_offset);
        let on_plane = Point::new(world_x, world_y, Scalar::one().neg());
        let pixel = self.inverted.mul_point(&on_plane, unit);
        let origin = self.inverted.mul_point(
            &Point::new(Scalar::zero(), Scalar::zero(), Scalar::zero()),
            unit,
        );
        let direction = pixel.sub(&origin, unit).get_normal(unit);
        Ray::new(origin, direction)
    }
}

} // verus!
