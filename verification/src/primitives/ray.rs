//! A half-line: where it starts and the direction it runs in.

use vstd::prelude::*;
use crate::primitives::arithmetic::Unit;
use crate::primitives::arithmetic::sound;
use crate::primitives::arithmetic::neutral;
use crate::primitives::point::translation_shifts_a_point;
use crate::primitives::vector::translation_leaves_a_vector_unchanged;
use crate::primitives::arithmetic::cosine;
use crate::primitives::arithmetic::sine;
use crate::primitives::point::Point;
use crate::primitives::scalar::Scalar;
use crate::primitives::square_matrix::SquareMatrix;
use crate::primitives::square_matrix::translation_grid;
use crate::primitives::square_matrix::scaling_grid;
use crate::primitives::square_matrix::shearing_grid;
use crate::primitives::square_matrix::rotation_x_grid;
use crate::primitives::square_matrix::rotation_y_grid;
use crate::primitives::square_matrix::rotation_z_grid;
use crate::primitives::vector::Vector;

verus! {

#[derive(Clone, Copy, Debug, PartialEq, Eq, Structural)]
pub struct Ray {
    pub origin: Point,
    pub direction: Vector,
}

impl Ray {
    /// The point at parameter `t`: the origin moved by `t` directions.
    pub open spec fn position<F: Unit>(self, unit: &F, t: Scalar) -> Point {
        self.origin.moved_by(unit, self.direction.scaled_by(unit, t))
    }

    /// The ray under a transform: origin and direction each mapped.
    pub open spec fn mapped<F: Unit>(self, unit: &F, grid: Seq<Seq<Scalar>>) -> Ray {
        Ray {
            origin: self.origin.mapped(unit, grid),
            direction: self.direction.mapped(unit, grid),
        }
    }

    pub fn new(origin: Point, direction: Vector) -> (r: Ray)
        ensures
            r.origin == origin,
            r.direction == direction,
    {
        Ray { origin, direction }
    }

    pub fn get_origin(&self) -> (p: &Point)
        ensures
            *p == self.origin,
    {
        &self.origin
    }

    pub fn get_direction(&self) -> (v: &Vector)
        ensures
            *v == self.direction,
    {
        &self.direction
    }

    pub fn at<F: Unit>(&self, t: Scalar, unit: &F) -> (p: Point)
        requires
            sound(unit),
        ensures
            p == self.position(unit, t),
    {
        let step = self.direction.mul(t, unit);
        self.origin.add(&step, unit)
    }

    pub fn transform<F: Unit>(&self, matrix: &SquareMatrix, unit: &F) -> (r: Ray)
        requires
            matrix.wf(),
            sound(unit),
        ensures
            r == self.mapped(unit, matrix@),
    {
        Ray {
            origin: matrix.mul_point(&self.origin, unit),
            direction: matrix.mul_vector(&self.direction, unit),
        }
    }

    /// The ray under a translation: under a unit that treats zero and one
    /// as the numbers do, and for finite coordinates and offsets, the
    /// origin is shifted and the direction keeps its values.
    pub fn translate<F: Unit>(&self, x: Scalar, y: Scalar, z: Scalar, unit: &F) -> (r: Ray)
        requires
            sound(unit),
        ensures
            r == self.mapped(unit, translation_grid(x, y, z)),
            neutral(unit) && self.origin.finite() && x.finite() && y.finite() && z.finite()
                ==> r.origin.same(self.origin.moved_by(unit, (Vector { x, y, z }))),
            neutral(unit) && self.direction.finite() && x.finite() && y.finite() && z.finite()
                ==> r.direction.same(self.direction),
    {
        proof {
            if neutral(unit) && x.finite() && y.finite() && z.finite() {
                if self.origin.finite() {
                    translation_shifts_a_point(unit, self.origin, x, y, z);
                }
                if self.direction.finite() {
                    translation_leaves_a_vector_unchanged(unit, self.direction, x, y, z);
                }
            }
        }
        self.transform(&SquareMatrix::translation(x, y, z), unit)
    }

    pub fn rotate_x<F: Unit>(&self, radians: Scalar, unit: &F) -> (r: Ray)
        requires
            sound(unit),
        ensures
            r == self.mapped(unit, rotation_x_grid(cosine(unit, radians), sine(unit, radians))),
    {
        self.transform(&SquareMatrix::rotation_x(radians, unit), unit)
    }

    pub fn rotate_y<F: Unit>(&self, radians: Scalar, unit: &F) -> (r: Ray)
        requires
            sound(unit),
        ensures
            r == self.mapped(unit, rotation_y_grid(cosine(unit, radians), sine(unit, radians))),
    {
        self.transform(&SquareMatrix::rotation_y(radians, unit), unit)
    }

    pub fn rotate_z<F: Unit>(&self, radians: Scalar, unit: &F) -> (r: Ray)
        requires
            sound(unit),
        ensures
            r == self.mapped(unit, rotation_z_grid(cosine(unit, radians), sine(unit, radians))),
    {
        self.transform(&SquareMatrix::rotation_z(radians, unit), unit)
    }

    pub fn scale<F: Unit>(&self, x: Scalar, y: Scalar, z: Scalar, unit: &F) -> (r: Ray)
        requires
            sound(unit),
        ensures
            r == self.mapped(unit, scaling_grid(x, y, z)),
    {
        self.transform(&SquareMatrix::scaling(x, y, z), unit)
    }

    pub fn shear<F: Unit>(
        &self,
        xy: Scalar,
        xz: Scalar,
        yx: Scalar,
        yz: Scalar,
        zx: Scalar,
        zy: Scalar,
        unit: &F,
    ) -> (r: Ray)
        requires
            sound(unit),
        ensures
            r == self.mapped(unit, shearing_grid(xy, xz, yx, yz, zx, zy)),
    {
        self.transform(&SquareMatrix::shearing(xy, xz, yx, yz, zx, zy), unit)
    }
}

} // verus!
