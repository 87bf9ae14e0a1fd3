//! A light without extent, and the colour it gives to a point of a surface.

use vstd::prelude::*;
use crate::primitives::arithmetic::Unit;
use crate::primitives::arithmetic::sound;
use crate::primitives::arithmetic::product;
use crate::primitives::arithmetic::power;
use crate::primitives::arithmetic::times;
use crate::primitives::arithmetic::powf;
use crate::primitives::hit_record::HitRecord;
use crate::primitives::point::Point;
use crate::primitives::rgb_color::RgbColor;
use crate::primitives::scalar::Scalar;

verus! {

#[derive(Clone, Copy, Debug, PartialEq, Eq, Structural)]
pub struct PointLight {
    pub location: Point,
    pub intensity: RgbColor,
}

impl PointLight {
    /// The part of the colour that reaches a point whatever lies between it
    /// and the light: the surface colour under the light, times the
    /// material's ambient share.
    pub open spec fn ambient<F: Unit>(self, unit: &F, record: HitRecord) -> RgbColor {
        let material = record.object.material;
        material.color.filtered(unit, self.intensity).scaled_by(unit, material.ambient)
    }

    /// The colour that this light gives to the point of a record: the
    /// ambient part alone in shadow; otherwise ambient, diffuse and
    /// specular parts added in that order, the last two dark where the
    /// light stands behind the surface, and the specular part dark where
    /// the mirrored light does not run towards the eye.
    pub open spec fn shaded<F: Unit>(self, unit: &F, record: HitRecord) -> RgbColor {
        let material = record.object.material;
        let effective_color = material.color.filtered(unit, self.intensity);
        let ambient = self.ambient(unit, record);
        if record.is_in_shadow {
            ambient
        } else {
            let lightv = self.location.offset_from(unit, record.hit_point).unit_length(unit);
            let light_dot_normal = lightv.inner(unit, record.normal_vector);
            if light_dot_normal.less(Scalar { bits: 0 }) {
                ambient.mixed(unit, RgbColor::dark()).mixed(unit, RgbColor::dark())
            } else {
                let diffuse = effective_color.scaled_by(
                    unit,
                    product(unit, material.diffuse, light_dot_normal),
                );
                let reflect_dot_eye = lightv.negated().mirrored(unit, record.normal_vector).inner(
                    unit,
                    record.eye_vector,
                );
                let specular = if reflect_dot_eye.less(Scalar { bits: 0 }) || reflect_dot_eye.same(
                    Scalar { bits: 0 },
                ) {
                    RgbColor::dark()
                } else {
                    self.intensity.scaled_by(
                        unit,
                        product(
                            unit,
                            material.specular,
                            power(unit, reflect_dot_eye, material.shininess),
                        ),
                    )
                };
                ambient.mixed(unit, diffuse).mixed(unit, specular)
            }
        }
    }

    pub fn new(location: Point, intensity: RgbColor) -> (l: PointLight)
        ensures
            l.location == location,
            l.intensity == intensity,
    {
        PointLight { location, intensity }
    }

    pub fn get_location(&self) -> (p: &Point)
        ensures
            *p == self.location,
    {
        &self.location
    }

    pub fn get_intensity(&self) -> (c: &RgbColor)
        ensures
            *c == self.intensity,
    {
        &self.intensity
    }

    pub fn shade<F: Unit>(&self, record: &HitRecord, unit: &F) -> (c: RgbColor)
        requires
            sound(unit),
        ensures
            c == self.shaded(unit, *record),
    {
        let material = record.get_object().get_material();
        let effective_color = material.get_color().mul_color(&self.intensity, unit);
        let ambient = effective_color.mul(material.get_ambient(), unit);
        if record.get_is_in_shadow() {
            return ambient;
        }
        let lightv = self.location.sub(record.get_hit_point(), unit).get_normal(unit);
        let light_dot_normal = lightv.dot(record.get_normal(), unit);
        let diffuse: RgbColor;
        let specular: RgbColor;
        if light_dot_normal.lt(Scalar::zero()) {
            diffuse = RgbColor::black();
            specular = RgbColor::black();
        } else {
            let share = times(unit, material.get_diffuse(), light_dot_normal);
            diffuse = effective_color.mul(share, unit);
            let reflectv = lightv.neg().reflect(record.get_normal(), unit);
            let reflect_dot_eye = reflectv.dot(record.get_eye_vector(), unit);
            if reflect_dot_eye.le(Scalar::zero()) {
                specular = RgbColor::black();
            } else {
                let factor = powf(unit, reflect_dot_eye, material.get_shininess());
                specular = self.intensity.mul(times(unit, material.get_specular(), factor), unit);
            }
        }
        ambient.add(&diffuse, unit).add(&specular, unit)
    }
}

/// A point in shadow gets the ambient part of a light and nothing else,
/// wherever the light and the eye stand.
pub proof fn shadowed_point_gets_ambient_only<F: Unit>(
    unit: &F,
    light: PointLight,
    record: HitRecord,
)
    requires
        record.is_in_shadow,
    ensures
        light.shaded(unit, record) == light.ambient(unit, record),
{
}

} // verus!
