//! A direction in space: three coordinates and an implied fourth of zero.

use vstd::prelude::*;
use crate::primitives::arithmetic::Unit;
use crate::primitives::arithmetic::sound;
use crate::primitives::arithmetic::neutral;
use crate::primitives::arithmetic::sum;
use crate::primitives::arithmetic::difference;
use crate::primitives::arithmetic::product;
use crate::primitives::arithmetic::quotient;
use crate::primitives::arithmetic::root;
use crate::primitives::arithmetic::cosine;
use crate::primitives::arithmetic::sine;
use crate::primitives::arithmetic::near;
use crate::primitives::arithmetic::plus;
use crate::primitives::arithmetic::minus;
use crate::primitives::arithmetic::times;
use crate::primitives::arithmetic::over;
use crate::primitives::arithmetic::sqrt;
use crate::primitives::arithmetic::approx_eq;
use crate::primitives::scalar::Scalar;
use crate::primitives::scalar::TWO_BITS;
use crate::primitives::point::Point;
use crate::primitives::square_matrix::SquareMatrix;
use crate::primitives::square_matrix::translation_grid;
use crate::primitives::square_matrix::scaling_grid;
use crate::primitives::square_matrix::shearing_grid;
use crate::primitives::square_matrix::rotation_x_grid;
use crate::primitives::square_matrix::rotation_y_grid;
use crate::primitives::square_matrix::rotation_z_grid;
use crate::primitives::square_matrix::applied;
use crate::primitives::square_matrix::row_applied;

verus! {

#[derive(Clone, Copy, Debug, PartialEq, Eq, Structural)]
pub struct Vector {
    pub x: Scalar,
    pub y: Scalar,
    pub z: Scalar,
}

impl Vector {
    /// The homogeneous coordinate at `index`: x, y, z, and zero from there on.
    pub open spec fn coordinate(self, index: int) -> Scalar {
        if index == 0 {
            self.x
        } else if index == 1 {
            self.y
        } else if index == 2 {
            self.z
        } else {
            Scalar { bits: 0 }
        }
    }

    /// The three coordinates in a row.
    pub open spec fn coordinates(self) -> (Scalar, Scalar, Scalar) {
        (self.x, self.y, self.z)
    }

    /// Every coordinate is a number that is not infinite.
    pub open spec fn finite(self) -> bool {
        self.x.finite() && self.y.finite() && self.z.finite()
    }

    /// Every coordinate has the value of its counterpart.
    pub open spec fn same(self, other: Vector) -> bool {
        self.x.same(other.x) && self.y.same(other.y) && self.z.same(other.z)
    }

    /// Each coordinate with its sign bit flipped.
    pub open spec fn negated(self) -> Vector {
        Vector { x: self.x.negated(), y: self.y.negated(), z: self.z.negated() }
    }

    /// Each coordinate multiplied by `k`.
    pub open spec fn scaled_by<F: Unit>(self, unit: &F, k: Scalar) -> Vector {
        Vector {
            x: product(unit, self.x, k),
            y: product(unit, self.y, k),
            z: product(unit, self.z, k),
        }
    }

    /// Each coordinate divided by `k`.
    pub open spec fn divided_by<F: Unit>(self, unit: &F, k: Scalar) -> Vector {
        Vector {
            x: quotient(unit, self.x, k),
            y: quotient(unit, self.y, k),
            z: quotient(unit, self.z, k),
        }
    }

    /// Every coordinate is within the tolerance of its counterpart.
    pub open spec fn close_to<F: Unit>(self, unit: &F, other: Vector) -> bool {
        near(unit, self.x, other.x) && near(unit, self.y, other.y) && near(unit, self.z, other.z)
    }

    /// The image under a transform of four rows, the fourth coordinate
    /// taken as zero.
    pub open spec fn mapped<F: Unit>(self, unit: &F, grid: Seq<Seq<Scalar>>) -> Vector {
        let image = applied(unit, grid, self.coordinates(), Scalar { bits: 0 });
        Vector { x: image.0, y: image.1, z: image.2 }
    }

    /// The sum, coordinate by coordinate.
    pub open spec fn joined<F: Unit>(self, unit: &F, v: Vector) -> Vector {
        Vector { x: sum(unit, self.x, v.x), y: sum(unit, self.y, v.y), z: sum(unit, self.z, v.z) }
    }

    /// The difference, coordinate by coordinate.
    pub open spec fn less_by<F: Unit>(self, unit: &F, v: Vector) -> Vector {
        Vector {
            x: difference(unit, self.x, v.x),
            y: difference(unit, self.y, v.y),
            z: difference(unit, self.z, v.z),
        }
    }

    /// The inner product: the products of the coordinates, added from x on.
    pub open spec fn inner<F: Unit>(self, unit: &F, v: Vector) -> Scalar {
        sum(
            unit,
            sum(unit, product(unit, self.x, v.x), product(unit, self.y, v.y)),
            product(unit, self.z, v.z),
        )
    }

    /// The cross product.
    pub open spec fn crossed<F: Unit>(self, unit: &F, v: Vector) -> Vector {
        Vector {
            x: difference(unit, product(unit, self.y, v.z), product(unit, self.z, v.y)),
            y: difference(unit, product(unit, self.z, v.x), product(unit, self.x, v.z)),
            z: difference(unit, product(unit, self.x, v.y), product(unit, self.y, v.x)),
        }
    }

    /// The length: the root of the inner product with itself.
    pub open spec fn length<F: Unit>(self, unit: &F) -> Scalar {
        root(unit, self.inner(unit, self))
    }

    /// The vector divided by its length.
    pub open spec fn unit_length<F: Unit>(self, unit: &F) -> Vector {
        self.divided_by(unit, self.length(unit))
    }

    /// The vector mirrored at the plane with the given normal: the vector
    /// less the normal times twice the inner product of the two.
    pub open spec fn mirrored<F: Unit>(self, unit: &F, normal: Vector) -> Vector {
        self.less_by(
            unit,
            normal.scaled_by(
                unit,
                product(unit, self.inner(unit, normal), Scalar { bits: TWO_BITS }),
            ),
        )
    }

    pub fn new(x: Scalar, y: Scalar, z: Scalar) -> (p: Vector)
        ensures
            p.x == x,
            p.y == y,
            p.z == z,
    {
        Vector { x, y, z }
    }

    pub fn get_x(&self) -> (v: Scalar)
        ensures
            v == self.x,
    {
        self.x
    }

    pub fn get_y(&self) -> (v: Scalar)
        ensures
            v == self.y,
    {
        self.y
    }

    pub fn get_z(&self) -> (v: Scalar)
        ensures
            v == self.z,
    {
        self.z
    }

    pub fn index(&self, index: usize) -> (v: Scalar)
        ensures
            v == self.coordinate(index as int),
    {
        if index == 0 {
            self.x
        } else if index == 1 {
            self.y
        } else if index == 2 {
            self.z
        } else {
            Scalar::from_bits(0)
        }
    }

    pub fn neg(&self) -> (p: Vector)
        ensures
            p == self.negated(),
    {
        Vector { x: self.x.neg(), y: self.y.neg(), z: self.z.neg() }
    }

    pub fn mul<F: Unit>(&self, rhs: Scalar, unit: &F) -> (p: Vector)
        requires
            sound(unit),
        ensures
            p == self.scaled_by(unit, rhs),
    {
        Vector {
            x: times(unit, self.x, rhs),
            y: times(unit, self.y, rhs),
            z: times(unit, self.z, rhs),
        }
    }

    pub fn div<F: Unit>(&self, rhs: Scalar, unit: &F) -> (p: Vector)
        requires
            sound(unit),
        ensures
            p == self.divided_by(unit, rhs),
    {
        Vector {
            x: over(unit, self.x, rhs),
            y: over(unit, self.y, rhs),
            z: over(unit, self.z, rhs),
        }
    }

    /// Equality within the tolerance, coordinate by coordinate.
    pub fn eq<F: Unit>(&self, other: &Vector, unit: &F) -> (b: bool)
        requires
            sound(unit),
        ensures
            b == self.close_to(unit, *other),
    {
        approx_eq(unit, self.x, other.x) && approx_eq(unit, self.y, other.y) && approx_eq(
            unit,
            self.z,
            other.z,
        )
    }

    /// The image under a translation. A direction does not take part in a
    /// translation: under a unit that treats zero and one as the numbers
    /// do, finite coordinates keep their values under finite offsets.
    pub fn translate<F: Unit>(&self, x: Scalar, y: Scalar, z: Scalar, unit: &F) -> (p: Vector)
        requires
            sound(unit),
        ensures
            p == self.mapped(unit, translation_grid(x, y, z)),
            neutral(unit) && self.finite() && x.finite() && y.finite() && z.finite() ==> p.same(
                *self,
            ),
    {
        proof {
            if neutral(unit) && self.finite() && x.finite() && y.finite() && z.finite() {
                translation_leaves_a_vector_unchanged(unit, *self, x, y, z);
            }
        }
        SquareMatrix::translation(x, y, z).mul_vector(self, unit)
    }

    pub fn rotate_x<F: Unit>(&self, radians: Scalar, unit: &F) -> (p: Vector)
        requires
            sound(unit),
        ensures
            p == self.mapped(
                unit,
                rotation_x_grid(cosine(unit, radians), sine(unit, radians)),
            ),
    {
        SquareMatrix::rotation_x(radians, unit).mul_vector(self, unit)
    }

    pub fn rotate_y<F: Unit>(&self, radians: Scalar, unit: &F) -> (p: Vector)
        requires
            sound(unit),
        ensures
            p == self.mapped(
                unit,
                rotation_y_grid(cosine(unit, radians), sine(unit, radians)),
            ),
    {
        SquareMatrix::rotation_y(radians, unit).mul_vector(self, unit)
    }

    pub fn rotate_z<F: Unit>(&self, radians: Scalar, unit: &F) -> (p: Vector)
        requires
            sound(unit),
        ensures
            p == self.mapped(
                unit,
                rotation_z_grid(cosine(unit, radians), sine(unit, radians)),
            ),
    {
        SquareMatrix::rotation_z(radians, unit).mul_vector(self, unit)
    }

    pub fn scale<F: Unit>(&self, x: Scalar, y: Scalar, z: Scalar, unit: &F) -> (p: Vector)
        requires
            sound(unit),
        ensures
            p == self.mapped(unit, scaling_grid(x, y, z)),
    {
        SquareMatrix::scaling(x, y, z).mul_vector(self, unit)
    }

    pub fn shear<F: Unit>(
        &self,
        xy: Scalar,
        xz: Scalar,
        yx: Scalar,
        yz: Scalar,
        zx: Scalar,
        zy: Scalar,
        unit: &F,
    ) -> (p: Vector)
        requires
            sound(unit),
        ensures
            p == self.mapped(unit, shearing_grid(xy, xz, yx, yz, zx, zy)),
    {
        SquareMatrix::shearing(xy, xz, yx, yz, zx, zy).mul_vector(self, unit)
    }

    pub fn add<F: Unit>(&self, rhs: &Vector, unit: &F) -> (v: Vector)
        requires
            sound(unit),
        ensures
            v == self.joined(unit, *rhs),
    {
        Vector {
            x: plus(unit, self.x, rhs.x),
            y: plus(unit, self.y, rhs.y),
            z: plus(unit, self.z, rhs.z),
        }
    }

    /// The sum with a position's coordinates, as a direction.
    pub fn add_point<F: Unit>(&self, rhs: &Point, unit: &F) -> (v: Vector)
        requires
            sound(unit),
        ensures
            v == self.joined(unit, (Vector { x: rhs.x, y: rhs.y, z: rhs.z })),
    {
        Vector {
            x: plus(unit, self.x, rhs.x),
            y: plus(unit, self.y, rhs.y),
            z: plus(unit, self.z, rhs.z),
        }
    }

    pub fn sub<F: Unit>(&self, rhs: &Vector, unit: &F) -> (v: Vector)
        requires
            sound(unit),
        ensures
            v == self.less_by(unit, *rhs),
    {
        Vector {
            x: minus(unit, self.x, rhs.x),
            y: minus(unit, self.y, rhs.y),
            z: minus(unit, self.z, rhs.z),
        }
    }

    pub fn dot<F: Unit>(&self, rhs: &Vector, unit: &F) -> (d: Scalar)
        requires
            sound(unit),
        ensures
            d == self.inner(unit, *rhs),
    {
        let xx = times(unit, self.x, rhs.x);
        let yy = times(unit, self.y, rhs.y);
        let zz = times(unit, self.z, rhs.z);
        plus(unit, plus(unit, xx, yy), zz)
    }

    pub fn cross<F: Unit>(&self, rhs: &Vector, unit: &F) -> (v: Vector)
        requires
            sound(unit),
        ensures
            v == self.crossed(unit, *rhs),
    {
        Vector {
            x: minus(unit, times(unit, self.y, rhs.z), times(unit, self.z, rhs.y)),
            y: minus(unit, times(unit, self.z, rhs.x), times(unit, self.x, rhs.z)),
            z: minus(unit, times(unit, self.x, rhs.y), times(unit, self.y, rhs.x)),
        }
    }

    pub fn len<F: Unit>(&self, unit: &F) -> (l: Scalar)
        requires
            sound(unit),
        ensures
            l == self.length(unit),
    {
        sqrt(unit, self.dot(self, unit))
    }

    pub fn get_normal<F: Unit>(&self, unit: &F) -> (v: Vector)
        requires
            sound(unit),
        ensures
            v == self.unit_length(unit),
    {
        let len = self.len(unit);
        self.div(len, unit)
    }

    pub fn normalize<F: Unit>(&mut self, unit: &F)
        requires
            sound(unit),
        ensures
            *final(self) == old(self).unit_length(unit),
    {
        let len = self.len(unit);
        self.x = over(unit, self.x, len);
        self.y = over(unit, self.y, len);
        self.z = over(unit, self.z, len);
    }

    pub fn reflect<F: Unit>(&self, normal: &Vector, unit: &F) -> (v: Vector)
        requires
            sound(unit),
        ensures
            v == self.mirrored(unit, *normal),
    {
        let twice = times(unit, self.dot(normal, unit), Scalar::from_bits(TWO_BITS));
        let right_side = normal.mul(twice, unit);
        self.sub(&right_side, unit)
    }
}

/// Translating a direction leaves it unchanged: under a unit that treats
/// zero and one as the numbers do, the image of a direction with finite
/// coordinates under a translation by finite offsets has the values of
/// the direction's own coordinates.
pub proof fn translation_leaves_a_vector_unchanged<F: Unit>(
    unit: &F,
    v: Vector,
    x: Scalar,
    y: Scalar,
    z: Scalar,
)
    requires
        neutral(unit),
        v.finite(),
        x.finite() && y.finite() && z.finite(),
    ensures
        v.mapped(unit, translation_grid(x, y, z)).same(v),
{
    reveal_with_fuel(row_applied, 5);
}

} // verus!
