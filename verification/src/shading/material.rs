//! How a surface answers light.

use vstd::prelude::*;
use crate::primitives::rgb_color::RgbColor;
use crate::primitives::scalar::Scalar;

verus! {

/// The bit patterns of the default coefficients: 0.1, 0.9, 0.9 and 300.
pub const DEFAULT_AMBIENT: u64 = 0x3FB9_9999_9999_999A;
pub const DEFAULT_DIFFUSE: u64 = 0x3FEC_CCCC_CCCC_CCCD;
pub const DEFAULT_SPECULAR: u64 = 0x3FEC_CCCC_CCCC_CCCD;
pub const DEFAULT_SHININESS: u64 = 0x4072_C000_0000_0000;

#[derive(Clone, Copy, Debug, PartialEq, Eq, Structural)]
pub struct Material {
    pub color: RgbColor,
    pub ambient: Scalar,
    pub diffuse: Scalar,
    pub specular: Scalar,
    pub shininess: Scalar,
}

impl Material {
    /// White, with the default coefficients.
    pub open spec fn standard() -> Material {
        Material {
            color: RgbColor {
                red: Scalar { bits: 0x3FF0_0000_0000_0000 },
                green: Scalar { bits: 0x3FF0_0000_0000_0000 },
                blue: Scalar { bits: 0x3FF0_0000_0000_0000 },
            },
            ambient: Scalar { bits: DEFAULT_AMBIENT },
            diffuse: Scalar { bits: DEFAULT_DIFFUSE },
            specular: Scalar { bits: DEFAULT_SPECULAR },
            shininess: Scalar { bits: DEFAULT_SHININESS },
        }
    }

    pub fn get_color(&self) -> (c: &RgbColor)
        ensures
            *c == self.color,
    {
        &self.color
    }

    pub fn set_color(&mut self, color: RgbColor)
        ensures
            *final(self) == (Material { color, ..*old(self) }),
    {
        self.color = color;
    }

    pub fn get_ambient(&self) -> (v: Scalar)
        ensures
            v == self.ambient,
    {
        self.ambient
    }

    pub fn set_ambient(&mut self, ambient: Scalar)
        ensures
            *final(self) == (Material { ambient, ..*old(self) }),
    {
        self.ambient = ambient;
    }

    pub fn get_diffuse(&self) -> (v: Scalar)
        ensures
            v == self.diffuse,
    {
        self.diffuse
    }

    pub fn set_diffuse(&mut self, diffuse: Scalar)
        ensures
            *final(self) == (Material { diffuse, ..*old(self) }),
    {
        self.diffuse = diffuse;
    }

    pub fn get_specular(&self) -> (v: Scalar)
        ensures
            v == self.specular,
    {
        self.specular
    }

    pub fn set_specular(&mut self, specular: Scalar)
        ensures
            *final(self) == (Material { specular, ..*old(self) }),
    {
        self.specular = specular;
    }

    pub fn get_shininess(&self) -> (v: Scalar)
        ensures
            v == self.shininess,
    {
        self.shininess
    }

    pub fn set_shininess(&mut self, shininess: Scalar)
        ensures
            *final(self) == (Material { shininess, ..*old(self) }),
    {
        self.shininess = shininess;
    }
}

impl Default for Material {
    fn default() -> (m: Material)
        ensures
            m == Material::standard(),
    {
        Material {
            color: RgbColor::new(Scalar::one(), Scalar::one(), Scalar::one()),
            ambient: Scalar::from_bits(DEFAULT_AMBIENT),
            diffuse: Scalar::from_bits(DEFAULT_DIFFUSE),
            specular: Scalar::from_bits(DEFAULT_SPECULAR),
            shininess: Scalar::from_bits(DEFAULT_SHININESS),
        }
    }
}

} // verus!
