//! What a surface has to offer to be part of a scene.

use vstd::prelude::*;
use crate::objects::sphere::Sphere;
use crate::primitives::arithmetic::Unit;
use crate::primitives::arithmetic::sound;
use crate::primitives::hit::Hit;
use crate::primitives::point::Point;
use crate::primitives::ray::Ray;
use crate::primitives::scalar::Scalar;
use crate::primitives::square_matrix::SquareMatrix;
use crate::primitives::square_matrix::TransformError;
use crate::primitives::square_matrix::det;
use crate::primitives::square_matrix::inverse_grid;
use crate::primitives::square_matrix::zero;
use crate::primitives::vector::Vector;
use crate::primitives::world::ascending;
use crate::shading::material::Material;

verus! {

pub trait Hittable {
    /// The surface can be asked for hits and normals.
    spec fn ready(&self) -> bool;

    /// The transform from the surface's own space to world space.
    spec fn placement(&self) -> Seq<Seq<Scalar>>;

    /// The transform back from world space.
    spec fn placement_inverted(&self) -> Seq<Seq<Scalar>>;

    /// How the surface answers light.
    spec fn finish(&self) -> Material;

    /// The hits of a ray on the surface, nearest first.
    fn get_hits<F: Unit>(&self, ray: &Ray, unit: &F) -> (hits: Vec<Hit<'_>>)
        requires
            self.ready(),
            sound(unit),
        ensures
            ascending(hits@),
    ;

    /// The outward direction at a point of the surface.
    fn get_normal<F: Unit>(&self, hit_point: &Point, unit: &F) -> (n: Vector)
        requires
            self.ready(),
            sound(unit),
    ;

    fn get_material(&self) -> (m: &Material)
        ensures
            *m == self.finish(),
    ;

    fn set_material(&mut self, material: Material)
        ensures
            final(self).finish() == material,
            final(self).placement() == old(self).placement(),
            final(self).placement_inverted() == old(self).placement_inverted(),
            old(self).ready() ==> final(self).ready(),
    ;

    fn get_transform(&self) -> (m: &SquareMatrix)
        ensures
            m@ == self.placement(),
    ;

    fn get_transform_inverted(&self) -> (m: &SquareMatrix)
        ensures
            m@ == self.placement_inverted(),
    ;

    /// Replaces the transform and its inverse; where the new transform
    /// cannot be inverted the surface stays as it was.
    fn set_transform<F: Unit>(
        &mut self,
        transform: SquareMatrix,
        unit: &F,
    ) -> (r: Result<(), TransformError>)
        requires
            transform.wf(),
            sound(unit),
        ensures
            r.is_err() <==> det(unit, transform@).same(zero()),
            r.is_err() ==> final(self).placement() == old(self).placement(),
            r.is_err() ==> final(self).placement_inverted() == old(self).placement_inverted(),
            r.is_err() ==> final(self).finish() == old(self).finish(),
            r.is_ok() ==> final(self).placement() == transform@ && final(self).placement_inverted()
                == inverse_grid(unit, transform@) && final(self).finish() == old(self).finish()
                && final(self).ready(),
    ;
}

impl Hittable for Sphere {
    open spec fn ready(&self) -> bool {
        self.wf()
    }

    open spec fn placement(&self) -> Seq<Seq<Scalar>> {
        self.transform@
    }

    open spec fn placement_inverted(&self) -> Seq<Seq<Scalar>> {
        self.inverted@
    }

    open spec fn finish(&self) -> Material {
        self.material
    }

    fn get_hits<F: Unit>(&self, ray: &Ray, unit: &F) -> (hits: Vec<Hit<'_>>)
        ensures
            hits@ =~= self.hits_of(unit, *ray),
    {
        Sphere::get_hits(self, ray, unit)
    }

    fn get_normal<F: Unit>(&self, hit_point: &Point, unit: &F) -> (n: Vector)
        ensures
            n == self.normal_at(unit, *hit_point),
    {
        Sphere::get_normal(self, hit_point, unit)
    }

    fn get_material(&self) -> (m: &Material) {
        Sphere::get_material(self)
    }

    fn set_material(&mut self, material: Material) {
        Sphere::set_material(self, material)
    }

    fn get_transform(&self) -> (m: &SquareMatrix) {
        Sphere::get_transform(self)
    }

    fn get_transform_inverted(&self) -> (m: &SquareMatrix) {
        Sphere::get_transform_inverted(self)
    }

    fn set_transform<F: Unit>(
        &mut self,
        transform: SquareMatrix,
        unit: &F,
    ) -> (r: Result<(), TransformError>) {
        Sphere::set_transform(self, transform, unit)
    }
}

} // verus!
