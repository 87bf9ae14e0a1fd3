//! The unit sphere under a transform.

use vstd::prelude::*;
use crate::primitives::arithmetic::Unit;
use crate::primitives::arithmetic::sound;
use crate::primitives::arithmetic::sum;
use crate::primitives::arithmetic::difference;
use crate::primitives::arithmetic::product;
use crate::primitives::arithmetic::quotient;
use crate::primitives::arithmetic::root;
use crate::primitives::arithmetic::plus;
use crate::primitives::arithmetic::minus;
use crate::primitives::arithmetic::times;
use crate::primitives::arithmetic::over;
use crate::primitives::arithmetic::sqrt;
use crate::primitives::hit::Hit;
use crate::primitives::point::Point;
use crate::primitives::ray::Ray;
use crate::primitives::scalar::Scalar;
use crate::primitives::scalar::ONE_BITS;
use crate::primitives::scalar::TWO_BITS;
use crate::primitives::scalar::FOUR_BITS;
use crate::primitives::square_matrix::SquareMatrix;
use crate::primitives::square_matrix::TransformError;
use crate::primitives::square_matrix::det;
use crate::primitives::square_matrix::identity_grid;
use crate::primitives::square_matrix::inverse_grid;
use crate::primitives::square_matrix::multiplied;
use crate::primitives::square_matrix::scaling_grid;
use crate::primitives::square_matrix::translation_grid;
use crate::primitives::square_matrix::transposed;
use crate::primitives::square_matrix::zero;
use crate::primitives::vector::Vector;
use crate::primitives::world::ascending;
use crate::shading::material::Material;

verus! {

#[derive(Debug)]
pub struct Sphere {
    pub transform: SquareMatrix,
    pub inverted: SquareMatrix,
    pub material: Material,
}

/// The centre of every sphere in its own space.
pub open spec fn centre() -> Point {
    Point { x: zero(), y: zero(), z: zero() }
}

/// The discriminant of a ray, given in the sphere's own space, against the
/// unit sphere, with the two coefficients that the roots need: twice the
/// squared direction and the negated linear term.
pub open spec fn quadratic<F: Unit>(unit: &F, local: Ray) -> (Scalar, Scalar, Scalar) {
    let sphere_to_ray = local.origin.offset_from(unit, centre());
    let a = local.direction.inner(unit, local.direction);
    let b = product(unit, local.direction.inner(unit, sphere_to_ray), Scalar { bits: TWO_BITS });
    let c = difference(unit, sphere_to_ray.inner(unit, sphere_to_ray), Scalar { bits: ONE_BITS });
    let discriminant = difference(
        unit,
        product(unit, b, b),
        product(unit, product(unit, Scalar { bits: FOUR_BITS }, a), c),
    );
    (discriminant, product(unit, a, Scalar { bits: TWO_BITS }), b.negated())
}

/// The parameters at which a ray, given in the sphere's own space, meets
/// the unit sphere: none under a negative discriminant, two under a
/// positive one, the smaller first and a NaN last, and one otherwise.
pub open spec fn crossings<F: Unit>(unit: &F, local: Ray) -> Seq<Scalar> {
    let (discriminant, twice_a, minus_b) = quadratic(unit, local);
    if discriminant.less(zero()) {
        Seq::empty()
    } else {
        let spread = root(unit, discriminant);
        let near = quotient(unit, difference(unit, minus_b, spread), twice_a);
        if zero().less(spread) {
            let far = quotient(unit, sum(unit, minus_b, spread), twice_a);
            if far.rank() < near.rank() {
                seq![far, near]
            } else {
                seq![near, far]
            }
        } else {
            seq![near]
        }
    }
}

impl Sphere {
    /// Both matrices are square.
    pub open spec fn wf(&self) -> bool {
        self.transform.wf() && self.inverted.wf()
    }

    /// The parameters at which a ray in world space meets the sphere.
    pub open spec fn crossings_of<F: Unit>(&self, unit: &F, ray: Ray) -> Seq<Scalar> {
        crossings(unit, ray.mapped(unit, self.inverted@))
    }

    /// The hits of a ray on this sphere, nearest first.
    pub open spec fn hits_of<F: Unit>(&self, unit: &F, ray: Ray) -> Seq<Hit> {
        Seq::new(
            self.crossings_of(unit, ray).len(),
            |i: int| Hit { t: self.crossings_of(unit, ray)[i], object: self },
        )
    }

    /// The outward direction at a point of the surface, in world space: the
    /// point taken into the sphere's space, its offset from the centre taken
    /// back by the transpose of the inverse, at unit length.
    pub open spec fn normal_at<F: Unit>(&self, unit: &F, point: Point) -> Vector {
        point.mapped(unit, self.inverted@).offset_from(unit, centre()).mapped(
            unit,
            transposed(self.inverted@),
        ).unit_length(unit)
    }

    pub fn identity() -> (s: Sphere)
        ensures
            s.wf(),
            s.transform@ == identity_grid(4),
            s.inverted@ == identity_grid(4),
            s.material == Material::standard(),
    {
        Sphere {
            transform: SquareMatrix::identity(4),
            inverted: SquareMatrix::identity(4),
            material: Material::default(),
        }
    }

    /// The sphere with the given centre and radius, or the error where the
    /// transform that places it cannot be inverted.
    pub fn new<F: Unit>(
        center: Point,
        radius: Scalar,
        unit: &F,
    ) -> (r: Result<Sphere, TransformError>)
        requires
            sound(unit),
        ensures
            r.is_ok() ==> r.unwrap().wf() && r.unwrap().transform@ == multiplied(
                unit,
                translation_grid(center.x, center.y, center.z),
                scaling_grid(radius, radius, radius),
            ) && r.unwrap().inverted@ == inverse_grid(unit, r.unwrap().transform@)
                && r.unwrap().material == Material::standard(),
            r.is_err() <==> det(
                unit,
                multiplied(
                    unit,
                    translation_grid(center.x, center.y, center.z),
                    scaling_grid(radius, radius, radius),
                ),
            ).same(zero()),
    {
        let translation = SquareMatrix::translation(center.get_x(), center.get_y(), center.get_z());
        let transform = translation.mul(&SquareMatrix::scaling(radius, radius, radius), unit);
        Sphere::with_transform(transform, unit)
    }

    /// The sphere under a transform, or the error where the transform cannot
    /// be inverted.
    pub fn with_transform<F: Unit>(
        transform: SquareMatrix,
        unit: &F,
    ) -> (r: Result<Sphere, TransformError>)
        requires
            transform.wf(),
            sound(unit),
        ensures
            r.is_ok() ==> r.unwrap().wf() && r.unwrap().transform@ == transform@
                && r.unwrap().inverted@ == inverse_grid(unit, transform@) && r.unwrap().material
                == Material::standard(),
            r.is_err() <==> det(unit, transform@).same(zero()),
    {
        match transform.invert(unit) {
            Ok(inverted) => Ok(Sphere { inverted, transform, material: Material::default() }),
            Err(e) => Err(e),
        }
    }

    pub fn get_material(&self) -> (m: &Material)
        ensures
            *m == self.material,
    {
        &self.material
    }

    pub fn set_material(&mut self, material: Material)
        ensures
            final(self).material == material,
            final(self).transform == old(self).transform,
            final(self).inverted == old(self).inverted,
    {
        self.material = material;
    }

    pub fn get_transform(&self) -> (m: &SquareMatrix)
        ensures
            *m == self.transform,
    {
        &self.transform
    }

    pub fn get_transform_inverted(&self) -> (m: &SquareMatrix)
        ensures
            *m == self.inverted,
    {
        &self.inverted
    }

    /// Replaces the transform and its inverse; where the new transform
    /// cannot be inverted the sphere stays as it was.
    pub fn set_transform<F: Unit>(
        &mut self,
        transform: SquareMatrix,
        unit: &F,
    ) -> (r: Result<(), TransformError>)
        requires
            transform.wf(),
            sound(unit),
        ensures
            r.is_err() <==> det(unit, transform@).same(zero()),
            r.is_err() ==> *final(self) == *old(self),
            r.is_ok() ==> final(self).transform@ == transform@ && final(self).inverted@
                == inverse_grid(unit, transform@) && final(self).material == old(self).material
                && final(self).transform.wf() && final(self).inverted.wf(),
    {
        match transform.invert(unit) {
            Ok(inverted) => {
                self.inverted = inverted;
                self.transform = transform;
                Ok(())
            },
            Err(e) => Err(e),
        }
    }

    pub fn get_hits<F: Unit>(&self, ray: &Ray, unit: &F) -> (hits: Vec<Hit<'_>>)
        requires
            self.wf(),
            sound(unit),
        ensures
            hits@ =~= self.hits_of(unit, *ray),
            hits@.len() <= 2,
            ascending(hits@),
    {
        let mut result: Vec<Hit<'_>> = Vec::new();
        let ray = ray.transform(&self.inverted, unit);
        let centre = Point::new(Scalar::zero(), Scalar::zero(), Scalar::zero());
        let sphere_to_ray = ray.origin.sub(&centre, unit);
        let two = Scalar::from_bits(TWO_BITS);
        let a = ray.direction.dot(&ray.direction, unit);
        let b = times(unit, ray.direction.dot(&sphere_to_ray, unit), two);
        let c = minus(unit, sphere_to_ray.dot(&sphere_to_ray, unit), Scalar::one());
        let discriminant = minus(
            unit,
            times(unit, b, b),
            times(unit, times(unit, Scalar::from_bits(FOUR_BITS), a), c),
        );
        if discriminant.lt(Scalar::zero()) {
            return result;
        }
        let spread = sqrt(unit, discriminant);
        let twice_a = times(unit, a, two);
        let minus_b = b.neg();
        let near = over(unit, minus(unit, minus_b, spread), twice_a);
        if Scalar::zero().lt(spread) {
            let far = over(unit, plus(unit, minus_b, spread), twice_a);
            if far.ranks_below(near) {
                result.push(Hit::new(far, self));
                result.push(Hit::new(near, self));
            } else {
                result.push(Hit::new(near, self));
                result.push(Hit::new(far, self));
            }
        } else {
            result.push(Hit::new(near, self));
        }
        result
    }

    pub fn get_normal<F: Unit>(&self, point: &Point, unit: &F) -> (n: Vector)
        requires
            self.wf(),
            sound(unit),
        ensures
            n == self.normal_at(unit, *point),
    {
        let object_point = self.inverted.mul_point(point, unit);
        let object_normal = object_point.sub(
            &Point::new(Scalar::zero(), Scalar::zero(), Scalar::zero()),
            unit,
        );
        let world_normal = self.inverted.transpose().mul_vector(&object_normal, unit);
        world_normal.get_normal(unit)
    }

    /// A copy: the same transform, inverse and material.
    pub fn duplicate(&self) -> (s: Sphere)
        ensures
            s.transform@ == self.transform@,
            s.inverted@ == self.inverted@,
            s.material == self.material,
    {
        Sphere {
            transform: self.transform.duplicate(),
            inverted: self.inverted.duplicate(),
            material: self.material,
        }
    }
}

} // verus!
