//! What shading needs to know of a hit.

use vstd::prelude::*;
use crate::objects::sphere::Sphere;
use crate::primitives::arithmetic::Unit;
use crate::primitives::arithmetic::sound;
use crate::primitives::arithmetic::symmetric;
use crate::primitives::arithmetic::sum;
use crate::primitives::arithmetic::product;
use crate::primitives::hit::Hit;
use crate::primitives::point::Point;
use crate::primitives::ray::Ray;
use crate::primitives::scalar::Scalar;
use crate::primitives::vector::Vector;

verus! {

#[derive(Clone, Copy, Debug)]
pub struct HitRecord<'a> {
    pub t: Scalar,
    pub object: &'a Sphere,
    pub hit_point: Point,
    pub eye_vector: Vector,
    pub normal_vector: Vector,
    pub is_inside: bool,
    pub is_in_shadow: bool,
}

impl<'a> HitRecord<'a> {
    /// The record of a hit on a ray: the point hit, the direction back to
    /// the eye, and the surface normal turned towards the eye, with a note
    /// of whether it had to be turned. No shadow is assumed.
    pub open spec fn derived<F: Unit>(unit: &F, hit: Hit<'a>, ray: Ray) -> HitRecord<'a> {
        let hit_point = ray.position(unit, hit.t);
        let eye_vector = ray.direction.negated();
        let normal = hit.object.normal_at(unit, hit_point);
        let is_inside = normal.inner(unit, eye_vector).less(Scalar { bits: 0 });
        HitRecord {
            t: hit.t,
            object: hit.object,
            hit_point,
            eye_vector,
            normal_vector: if is_inside {
                normal.negated()
            } else {
                normal
            },
            is_inside,
            is_in_shadow: false,
        }
    }

    /// The normal does not point away from the eye: its inner product
    /// with the eye vector is not below zero.
    pub open spec fn faces_the_eye<F: Unit>(self, unit: &F) -> bool {
        !self.normal_vector.inner(unit, self.eye_vector).less(Scalar { bits: 0 })
    }

    /// The record of a hit on a ray. Under a unit through whose sums and
    /// products negation goes, the recorded normal faces the eye.
    pub fn new<F: Unit>(hit: &Hit<'a>, ray: &Ray, unit: &F) -> (record: HitRecord<'a>)
        requires
            hit.object.wf(),
            sound(unit),
        ensures
            record == HitRecord::derived(unit, *hit, *ray),
            symmetric(unit) ==> record.faces_the_eye(unit),
    {
        proof {
            if symmetric(unit) {
                recorded_normal_faces_the_eye(unit, *hit, *ray);
            }
        }
        let t = hit.get_t();
        let hit_point = ray.at(t, unit);
        let eye_vector = ray.direction.neg();
        let mut normal_vector = hit.get_object().get_normal(&hit_point, unit);
        let is_inside = normal_vector.dot(&eye_vector, unit).lt(Scalar::zero());
        if is_inside {
            normal_vector = normal_vector.neg();
        }
        HitRecord {
            t,
            object: hit.get_object(),
            normal_vector,
            hit_point,
            eye_vector,
            is_inside,
            is_in_shadow: false,
        }
    }

    pub fn get_t(&self) -> (t: Scalar)
        ensures
            t == self.t,
    {
        self.t
    }

    pub fn get_object(&self) -> (object: &'a Sphere)
        ensures
            object == self.object,
    {
        self.object
    }

    pub fn get_hit_point(&self) -> (p: &Point)
        ensures
            *p == self.hit_point,
    {
        &self.hit_point
    }

    pub fn get_eye_vector(&self) -> (v: &Vector)
        ensures
            *v == self.eye_vector,
    {
        &self.eye_vector
    }

    pub fn get_normal(&self) -> (v: &Vector)
        ensures
            *v == self.normal_vector,
    {
        &self.normal_vector
    }

    pub fn get_is_inside(&self) -> (b: bool)
        ensures
            b == self.is_inside,
    {
        self.is_inside
    }

    pub fn get_is_in_shadow(&self) -> (b: bool)
        ensures
            b == self.is_in_shadow,
    {
        self.is_in_shadow
    }

    pub fn set_is_in_shadow(&mut self, is_in_shadow: bool)
        ensures
            *final(self) == (HitRecord { is_in_shadow, ..*old(self) }),
    {
        self.is_in_shadow = is_in_shadow;
    }
}

/// The recorded normal faces the eye: under a unit through whose sums and
/// products negation goes, the inner product of a record's normal and its
/// eye vector is never below zero.
pub proof fn recorded_normal_faces_the_eye<F: Unit>(unit: &F, hit: Hit, ray: Ray)
    requires
        symmetric(unit),
    ensures
        HitRecord::derived(unit, hit, ray).faces_the_eye(unit),
{
    let record = HitRecord::derived(unit, hit, ray);
    let eye = record.eye_vector;
    let normal = hit.object.normal_at(unit, record.hit_point);
    let facing = normal.inner(unit, eye);
    if facing.less(Scalar { bits: 0 }) {
        let p1 = product(unit, normal.x, eye.x);
        let p2 = product(unit, normal.y, eye.y);
        let p3 = product(unit, normal.z, eye.z);
        let s1 = sum(unit, p1, p2);
        assert(facing == sum(unit, s1, p3));
        assert(!s1.nan() && !p3.nan());
        assert(!p1.nan() && !p2.nan());
        let q1 = product(unit, normal.x.negated(), eye.x);
        let q2 = product(unit, normal.y.negated(), eye.y);
        let q3 = product(unit, normal.z.negated(), eye.z);
        assert(q1.same(p1.negated()) && q2.same(p2.negated()) && q3.same(p3.negated()));
        let m1 = sum(unit, p1.negated(), p2.negated());
        assert(m1.same(s1.negated()));
        let t1 = sum(unit, q1, q2);
        assert(m1.same(t1));
        let m2 = sum(unit, s1.negated(), p3.negated());
        assert(m2.same(facing.negated()));
        let turned = sum(unit, t1, q3);
        assert(m2.same(turned));
        assert(record.normal_vector.inner(unit, eye) == turned);
    }
}

} // verus!
