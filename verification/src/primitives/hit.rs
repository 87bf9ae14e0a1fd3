//! A crossing of a ray and a surface.

use std::cmp::Ordering;
use vstd::prelude::*;
use crate::objects::sphere::Sphere;
use crate::primitives::arithmetic::Unit;
use crate::primitives::arithmetic::sound;
use crate::primitives::arithmetic::symmetric;
use crate::primitives::hit_record::HitRecord;
use crate::primitives::ray::Ray;
use crate::primitives::scalar::Scalar;

verus! {

/// The parameter of a crossing along its ray, and the surface crossed.
#[derive(Clone, Copy, Debug)]
pub struct Hit<'a> {
    pub t: Scalar,
    pub object: &'a Sphere,
}

impl<'a> Hit<'a> {
    pub fn new(t: Scalar, object: &'a Sphere) -> (h: Hit<'a>)
        ensures
            h.t == t,
            h.object == object,
    {
        Hit { t, object }
    }

    pub fn get_t(&self) -> (t: Scalar)
        ensures
            t == self.t,
    {
        self.t
    }

    pub fn get_object(&self) -> (object: &'a Sphere)
        ensures
            object == self.object,
    {
        self.object
    }

    /// The order of two hits along the ray: by parameter, a NaN after every
    /// number and level with every NaN.
    pub fn cmp_ignore_nan(&self, other: &Hit<'a>) -> (o: Ordering)
        ensures
            o == Ordering::Less <==> self.t.rank() < other.t.rank(),
            o == Ordering::Equal <==> self.t.rank() == other.t.rank(),
            o == Ordering::Greater <==> self.t.rank() > other.t.rank(),
    {
        if self.t.ranks_below(other.t) {
            Ordering::Less
        } else if other.t.ranks_below(self.t) {
            Ordering::Greater
        } else {
            Ordering::Equal
        }
    }

    /// The order of two hits whose parameters are numbers, and none where
    /// either is a NaN.
    pub fn partial_cmp(&self, other: &Hit<'a>) -> (o: Option<Ordering>)
        ensures
            o.is_none() <==> self.t.nan() || other.t.nan(),
            o == Some(Ordering::Less) <==> self.t.less(other.t),
            o == Some(Ordering::Equal) <==> self.t.same(other.t),
            o == Some(Ordering::Greater) <==> other.t.less(self.t),
    {
        if self.t.is_nan() || other.t.is_nan() {
            None
        } else if self.t.lt(other.t) {
            Some(Ordering::Less)
        } else if other.t.lt(self.t) {
            Some(Ordering::Greater)
        } else {
            Some(Ordering::Equal)
        }
    }

    pub fn get_hit_record<F: Unit>(&self, ray: &Ray, unit: &F) -> (record: HitRecord<'a>)
        requires
            self.object.wf(),
            sound(unit),
        ensures
            record == HitRecord::derived(unit, *self, *ray),
            symmetric(unit) ==> record.faces_the_eye(unit),
    {
        HitRecord::new(self, ray, unit)
    }
}

} // verus!
