//! A position in space: three coordinates and an implied fourth of one.

use vstd::prelude::*;
use crate::primitives::arithmetic::Unit;
use crate::primitives::arithmetic::sound;
use crate::primitives::arithmetic::neutral;
use crate::primitives::arithmetic::sum;
use crate::primitives::arithmetic::difference;
use crate::primitives::arithmetic::product;
use crate::primitives::arithmetic::quotient;
use crate::primitives::arithmetic::cosine;
use crate::primitives::arithmetic::sine;
use crate::primitives::arithmetic::near;
use crate::primitives::arithmetic::plus;
use crate::primitives::arithmetic::minus;
use crate::primitives::arithmetic::times;
use crate::primitives::arithmetic::over;
use crate::primitives::arithmetic::approx_eq;
use crate::primitives::scalar::Scalar;
use crate::primitives::scalar::ONE_BITS;
use crate::primitives::vector::Vector;
use crate::primitives::square_matrix::SquareMatrix;
use crate::primitives::square_matrix::translation_grid;
use crate::primitives::square_matrix::scaling_grid;
use crate::primitives::square_matrix::shearing_grid;
use crate::primitives::square_matrix::rotation_x_grid;
use crate::primitives::square_matrix::rotation_y_grid;
use crate::primitives::square_matrix::rotation_z_grid;
use crate::primitives::square_matrix::applied;
use crate::primitives::square_matrix::row_applied;

verus! {

#[derive(Clone, Copy, Debug, PartialEq, Eq, Structural)]
pub struct Point {
    pub x: Scalar,
    pub y: Scalar,
    pub z: Scalar,
}

impl Point {
    /// The homogeneous coordinate at `index`: x, y, z, and one from there on.
    pub open spec fn coordinate(self, index: int) -> Scalar {
        if index == 0 {
            self.x
        } else if index == 1 {
            self.y
        } else if index == 2 {
            self.z
        } else {
            Scalar { bits: ONE_BITS }
        }
    }

    /// The three coordinates in a row.
    pub open spec fn coordinates(self) -> (Scalar, Scalar, Scalar) {
        (self.x, self.y, self.z)
    }

    /// Every coordinate is a number that is not infinite.
    pub open spec fn finite(self) -> bool {
        self.x.finite() && self.y.finite() && self.z.finite()
    }

    /// Every coordinate has the value of its counterpart.
    pub open spec fn same(self, other: Point) -> bool {
        self.x.same(other.x) && self.y.same(other.y) && self.z.same(other.z)
    }

    /// Each coordinate with its sign bit flipped.
    pub open spec fn negated(self) -> Point {
        Point { x: self.x.negated(), y: self.y.negated(), z: self.z.negated() }
    }

    /// Each coordinate multiplied by `k`.
    pub open spec fn scaled_by<F: Unit>(self, unit: &F, k: Scalar) -> Point {
        Point {
            x: product(unit, self.x, k),
            y: product(unit, self.y, k),
            z: product(unit, self.z, k),
        }
    }

    /// Each coordinate divided by `k`.
    pub open spec fn divided_by<F: Unit>(self, unit: &F, k: Scalar) -> Point {
        Point {
            x: quotient(unit, self.x, k),
            y: quotient(unit, self.y, k),
            z: quotient(unit, self.z, k),
        }
    }

    /// Every coordinate is within the tolerance of its counterpart.
    pub open spec fn close_to<F: Unit>(self, unit: &F, other: Point) -> bool {
        near(unit, self.x, other.x) && near(unit, self.y, other.y) && near(unit, self.z, other.z)
    }

    /// The image under a transform of four rows, the fourth coordinate
    /// taken as one.
    pub open spec fn mapped<F: Unit>(self, unit: &F, grid: Seq<Seq<Scalar>>) -> Point {
        let image = applied(unit, grid, self.coordinates(), Scalar { bits: ONE_BITS });
        Point { x: image.0, y: image.1, z: image.2 }
    }

    /// The point moved along a vector.
    pub open spec fn moved_by<F: Unit>(self, unit: &F, v: Vector) -> Point {
        Point { x: sum(unit, self.x, v.x), y: sum(unit, self.y, v.y), z: sum(unit, self.z, v.z) }
    }

    /// The point moved against a vector.
    pub open spec fn moved_back_by<F: Unit>(self, unit: &F, v: Vector) -> Point {
        Point {
            x: difference(unit, self.x, v.x),
            y: difference(unit, self.y, v.y),
            z: difference(unit, self.z, v.z),
        }
    }

    /// The vector that leads from `from` to this point.
    pub open spec fn offset_from<F: Unit>(self, unit: &F, from: Point) -> Vector {
        Vector {
            x: difference(unit, self.x, from.x),
            y: difference(unit, self.y, from.y),
            z: difference(unit, self.z, from.z),
        }
    }

    pub fn new(x: Scalar, y: Scalar, z: Scalar) -> (p: Point)
        ensures
            p.x == x,
            p.y == y,
            p.z == z,
    {
        Point { x, y, z }
    }

    pub fn get_x(&self) -> (v: Scalar)
        ensures
            v == self.x,
    {
        self.x
    }

    pub fn get_y(&self) -> (v: Scalar)
        ensures
            v == self.y,
    {
        self.y
    }

    pub fn get_z(&self) -> (v: Scalar)
        ensures
            v == self.z,
    {
        self.z
    }

    pub fn index(&self, index: usize) -> (v: Scalar)
        ensures
            v == self.coordinate(index as int),
    {
        if index == 0 {
            self.x
        } else if index == 1 {
            self.y
        } else if index == 2 {
            self.z
        } else {
            Scalar::from_bits(ONE_BITS)
        }
    }

    pub fn neg(&self) -> (p: Point)
        ensures
            p == self.negated(),
    {
        Point { x: self.x.neg(), y: self.y.neg(), z: self.z.neg() }
    }

    pub fn mul<F: Unit>(&self, rhs: Scalar, unit: &F) -> (p: Point)
        requires
            sound(unit),
        ensures
            p == self.scaled_by(unit, rhs),
    {
        Point {
            x: times(unit, self.x, rhs),
            y: times(unit, self.y, rhs),
            z: times(unit, self.z, rhs),
        }
    }

    pub fn div<F: Unit>(&self, rhs: Scalar, unit: &F) -> (p: Point)
        requires
            sound(unit),
        ensures
            p == self.divided_by(unit, rhs),
    {
        Point {
            x: over(unit, self.x, rhs),
            y: over(unit, self.y, rhs),
            z: over(unit, self.z, rhs),
        }
    }

    /// Equality within the tolerance, coordinate by coordinate.
    pub fn eq<F: Unit>(&self, other: &Point, unit: &F) -> (b: bool)
        requires
            sound(unit),
        ensures
            b == self.close_to(unit, *other),
    {
        approx_eq(unit, self.x, other.x) && approx_eq(unit, self.y, other.y) && approx_eq(
            unit,
            self.z,
            other.z,
        )
    }

    /// The image under a translation. A position is shifted by the
    /// offsets: under a unit that treats zero and one as the numbers do,
    /// finite coordinates take the values of their sums with finite offsets.
    pub fn translate<F: Unit>(&self, x: Scalar, y: Scalar, z: Scalar, unit: &F) -> (p: Point)
        requires
            sound(unit),
        ensures
            p == self.mapped(unit, translation_grid(x, y, z)),
            neutral(unit) && self.finite() && x.finite() && y.finite() && z.finite() ==> p.same(
                self.moved_by(unit, (Vector { x, y, z })),
            ),
    {
        proof {
            if neutral(unit) && self.finite() && x.finite() && y.finite() && z.finite() {
                translation_shifts_a_point(unit, *self, x, y, z);
            }
        }
        SquareMatrix::translation(x, y, z).mul_point(self, unit)
    }

    pub fn rotate_x<F: Unit>(&self, radians: Scalar, unit: &F) -> (p: Point)
        requires
            sound(unit),
        ensures
            p == self.mapped(
                unit,
                rotation_x_grid(cosine(unit, radians), sine(unit, radians)),
            ),
    {
        SquareMatrix::rotation_x(radians, unit).mul_point(self, unit)
    }

    pub fn rotate_y<F: Unit>(&self, radians: Scalar, unit: &F) -> (p: Point)
        requires
            sound(unit),
        ensures
            p == self.mapped(
                unit,
                rotation_y_grid(cosine(unit, radians), sine(unit, radians)),
            ),
    {
        SquareMatrix::rotation_y(radians, unit).mul_point(self, unit)
    }

    pub fn rotate_z<F: Unit>(&self, radians: Scalar, unit: &F) -> (p: Point)
        requires
            sound(unit),
        ensures
            p == self.mapped(
                unit,
                rotation_z_grid(cosine(unit, radians), sine(unit, radians)),
            ),
    {
        SquareMatrix::rotation_z(radians, unit).mul_point(self, unit)
    }

    pub fn scale<F: Unit>(&self, x: Scalar, y: Scalar, z: Scalar, unit: &F) -> (p: Point)
        requires
            sound(unit),
        ensures
            p == self.mapped(unit, scaling_grid(x, y, z)),
    {
        SquareMatrix::scaling(x, y, z).mul_point(self, unit)
    }

    pub fn shear<F: Unit>(
        &self,
        xy: Scalar,
        xz: Scalar,
        yx: Scalar,
        yz: Scalar,
        zx: Scalar,
        zy: Scalar,
        unit: &F,
    ) -> (p: Point)
        requires
            sound(unit),
        ensures
            p == self.mapped(unit, shearing_grid(xy, xz, yx, yz, zx, zy)),
    {
        SquareMatrix::shearing(xy, xz, yx, yz, zx, zy).mul_point(self, unit)
    }

    pub fn add<F: Unit>(&self, rhs: &Vector, unit: &F) -> (p: Point)
        requires
            sound(unit),
        ensures
            p == self.moved_by(unit, *rhs),
    {
        Point {
            x: plus(unit, self.x, rhs.x),
            y: plus(unit, self.y, rhs.y),
            z: plus(unit, self.z, rhs.z),
        }
    }

    /// The vector from `rhs` to this point.
    pub fn sub<F: Unit>(&self, rhs: &Point, unit: &F) -> (v: Vector)
        requires
            sound(unit),
        ensures
            v == self.offset_from(unit, *rhs),
    {
        Vector {
            x: minus(unit, self.x, rhs.x),
            y: minus(unit, self.y, rhs.y),
            z: minus(unit, self.z, rhs.z),
        }
    }

    pub fn sub_vector<F: Unit>(&self, rhs: &Vector, unit: &F) -> (p: Point)
        requires
            sound(unit),
        ensures
            p == self.moved_back_by(unit, *rhs),
    {
        Point {
            x: minus(unit, self.x, rhs.x),
            y: minus(unit, self.y, rhs.y),
            z: minus(unit, self.z, rhs.z),
        }
    }
}

/// Translating a position shifts it by the offsets: under a unit that
/// treats zero and one as the numbers do, the image of a position with
/// finite coordinates under a translation by finite offsets has the values
/// of the coordinates with the offsets added.
pub proof fn translation_shifts_a_point<F: Unit>(
    unit: &F,
    p: Point,
    x: Scalar,
    y: Scalar,
    z: Scalar,
)
    requires
        neutral(unit),
        p.finite(),
        x.finite() && y.finite() && z.finite(),
    ensures
        p.mapped(unit, translation_grid(x, y, z)).same(p.moved_by(unit, (Vector { x, y, z }))),
{
    reveal_with_fuel(row_applied, 5);
}

} // verus!
