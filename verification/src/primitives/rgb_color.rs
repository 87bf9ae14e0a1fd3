//! A colour: three channels, not held to any range until it is clamped.

use vstd::prelude::*;
use crate::primitives::arithmetic::Unit;
use crate::primitives::arithmetic::sound;
use crate::primitives::arithmetic::shrinking;
use crate::primitives::arithmetic::sum;
use crate::primitives::arithmetic::difference;
use crate::primitives::arithmetic::product;
use crate::primitives::arithmetic::quotient;
use crate::primitives::arithmetic::power;
use crate::primitives::arithmetic::near;
use crate::primitives::arithmetic::plus;
use crate::primitives::arithmetic::minus;
use crate::primitives::arithmetic::times;
use crate::primitives::arithmetic::over;
use crate::primitives::arithmetic::powf;
use crate::primitives::arithmetic::approx_eq;
use crate::primitives::scalar::Scalar;
use crate::primitives::scalar::ONE_BITS;
use crate::primitives::scalar::GAMMA_BITS;
use crate::primitives::scalar::BYTE_SCALE_BITS;

verus! {

#[derive(Clone, Copy, Debug, PartialEq, Eq, Structural)]
pub struct RgbColor {
    pub red: Scalar,
    pub green: Scalar,
    pub blue: Scalar,
}

/// The larger of two values: a NaN gives way to the other, and of two level
/// values the first is kept.
pub open spec fn larger(a: Scalar, b: Scalar) -> Scalar {
    if a.nan() || a.less(b) {
        b
    } else {
        a
    }
}

/// The exponent of gamma correction: one over the display gamma.
pub open spec fn inverse_gamma<F: Unit>(unit: &F) -> Scalar {
    quotient(unit, Scalar { bits: ONE_BITS }, Scalar { bits: GAMMA_BITS })
}

impl RgbColor {
    /// No light at all.
    pub open spec fn dark() -> RgbColor {
        RgbColor { red: Scalar { bits: 0 }, green: Scalar { bits: 0 }, blue: Scalar { bits: 0 } }
    }

    /// The strongest channel: red against the larger of green and blue.
    pub open spec fn strongest(self) -> Scalar {
        larger(self.red, larger(self.green, self.blue))
    }

    /// The strongest channel is above one.
    pub open spec fn overflows(self) -> bool {
        (Scalar { bits: ONE_BITS }).less(self.strongest())
    }

    /// The sum, channel by channel.
    pub open spec fn mixed<F: Unit>(self, unit: &F, other: RgbColor) -> RgbColor {
        RgbColor {
            red: sum(unit, self.red, other.red),
            green: sum(unit, self.green, other.green),
            blue: sum(unit, self.blue, other.blue),
        }
    }

    /// The difference, channel by channel.
    pub open spec fn reduced<F: Unit>(self, unit: &F, other: RgbColor) -> RgbColor {
        RgbColor {
            red: difference(unit, self.red, other.red),
            green: difference(unit, self.green, other.green),
            blue: difference(unit, self.blue, other.blue),
        }
    }

    /// Each channel multiplied by `k`.
    pub open spec fn scaled_by<F: Unit>(self, unit: &F, k: Scalar) -> RgbColor {
        RgbColor {
            red: product(unit, self.red, k),
            green: product(unit, self.green, k),
            blue: product(unit, self.blue, k),
        }
    }

    /// Each channel divided by `k`.
    pub open spec fn divided_by<F: Unit>(self, unit: &F, k: Scalar) -> RgbColor {
        RgbColor {
            red: quotient(unit, self.red, k),
            green: quotient(unit, self.green, k),
            blue: quotient(unit, self.blue, k),
        }
    }

    /// The product, channel by channel.
    pub open spec fn filtered<F: Unit>(self, unit: &F, other: RgbColor) -> RgbColor {
        RgbColor {
            red: product(unit, self.red, other.red),
            green: product(unit, self.green, other.green),
            blue: product(unit, self.blue, other.blue),
        }
    }

    /// The colour held within range: divided by its strongest channel where
    /// that is above one, and unchanged otherwise, so that the hue stays.
    pub open spec fn clamped<F: Unit>(self, unit: &F) -> RgbColor {
        if self.overflows() {
            self.divided_by(unit, self.strongest())
        } else {
            self
        }
    }

    /// Each channel raised to one over the display gamma.
    pub open spec fn gamma_corrected<F: Unit>(self, unit: &F) -> RgbColor {
        RgbColor {
            red: power(unit, self.red, inverse_gamma(unit)),
            green: power(unit, self.green, inverse_gamma(unit)),
            blue: power(unit, self.blue, inverse_gamma(unit)),
        }
    }

    /// The colour as it is shown: gamma-corrected, then clamped.
    pub open spec fn corrected<F: Unit>(self, unit: &F) -> RgbColor {
        self.gamma_corrected(unit).clamped(unit)
    }

    /// The three channels as bytes: each scaled to the byte range, cut
    /// towards zero and held within 0..=255.
    pub open spec fn bytes<F: Unit>(self, unit: &F) -> (int, int, int) {
        let scaled = self.scaled_by(unit, Scalar { bits: BYTE_SCALE_BITS });
        (scaled.red.truncated(), scaled.green.truncated(), scaled.blue.truncated())
    }

    /// Every channel is within the tolerance of its counterpart.
    pub open spec fn close_to<F: Unit>(self, unit: &F, other: RgbColor) -> bool {
        near(unit, self.red, other.red) && near(unit, self.green, other.green) && near(
            unit,
            self.blue,
            other.blue,
        )
    }

    pub fn new(red: Scalar, green: Scalar, blue: Scalar) -> (c: RgbColor)
        ensures
            c.red == red,
            c.green == green,
            c.blue == blue,
    {
        RgbColor { red, green, blue }
    }

    pub fn black() -> (c: RgbColor)
        ensures
            c == RgbColor::dark(),
    {
        RgbColor { red: Scalar::zero(), green: Scalar::zero(), blue: Scalar::zero() }
    }

    pub fn get_red(&self) -> (v: Scalar)
        ensures
            v == self.red,
    {
        self.red
    }

    pub fn get_green(&self) -> (v: Scalar)
        ensures
            v == self.green,
    {
        self.green
    }

    pub fn get_blue(&self) -> (v: Scalar)
        ensures
            v == self.blue,
    {
        self.blue
    }

    pub fn add<F: Unit>(&self, rhs: &RgbColor, unit: &F) -> (c: RgbColor)
        requires
            sound(unit),
        ensures
            c == self.mixed(unit, *rhs),
    {
        RgbColor {
            red: plus(unit, self.red, rhs.red),
            green: plus(unit, self.green, rhs.green),
            blue: plus(unit, self.blue, rhs.blue),
        }
    }

    pub fn sub<F: Unit>(&self, rhs: &RgbColor, unit: &F) -> (c: RgbColor)
        requires
            sound(unit),
        ensures
            c == self.reduced(unit, *rhs),
    {
        RgbColor {
            red: minus(unit, self.red, rhs.red),
            green: minus(unit, self.green, rhs.green),
            blue: minus(unit, self.blue, rhs.blue),
        }
    }

    pub fn mul<F: Unit>(&self, rhs: Scalar, unit: &F) -> (c: RgbColor)
        requires
            sound(unit),
        ensures
            c == self.scaled_by(unit, rhs),
    {
        RgbColor {
            red: times(unit, self.red, rhs),
            green: times(unit, self.green, rhs),
            blue: times(unit, self.blue, rhs),
        }
    }

    pub fn mul_color<F: Unit>(&self, rhs: &RgbColor, unit: &F) -> (c: RgbColor)
        requires
            sound(unit),
        ensures
            c == self.filtered(unit, *rhs),
    {
        RgbColor {
            red: times(unit, self.red, rhs.red),
            green: times(unit, self.green, rhs.green),
            blue: times(unit, self.blue, rhs.blue),
        }
    }

    /// Equality within the tolerance, channel by channel.
    pub fn eq<F: Unit>(&self, other: &RgbColor, unit: &F) -> (b: bool)
        requires
            sound(unit),
        ensures
            b == self.close_to(unit, *other),
    {
        approx_eq(unit, self.red, other.red) && approx_eq(unit, self.green, other.green)
            && approx_eq(unit, self.blue, other.blue)
    }

    pub fn max_channel(&self) -> (m: Scalar)
        ensures
            m == self.strongest(),
            m == self.red || m == self.green || m == self.blue,
            !m.less(self.red) && !m.less(self.green) && !m.less(self.blue),
    {
        self.red.max(self.green.max(self.blue))
    }

    /// Holds the colour within range: where the strongest channel is above
    /// one, every channel is divided by it. Under a unit whose division
    /// shrinks, no channel is above one afterwards.
    pub fn clamp<F: Unit>(&mut self, unit: &F)
        requires
            sound(unit),
        ensures
            *final(self) == old(self).clamped(unit),
            shrinking(unit) ==> !final(self).overflows(),
    {
        proof {
            if shrinking(unit) {
                clamped_colour_fits(unit, *old(self));
            }
        }
        let max = self.max_channel();
        if Scalar::one().lt(max) {
            self.red = over(unit, self.red, max);
            self.green = over(unit, self.green, max);
            self.blue = over(unit, self.blue, max);
        }
    }

    pub fn gamma_correct<F: Unit>(&mut self, unit: &F)
        requires
            sound(unit),
        ensures
            *final(self) == old(self).gamma_corrected(unit),
    {
        let inv_gamma = over(unit, Scalar::one(), Scalar::from_bits(GAMMA_BITS));
        self.red = powf(unit, self.red, inv_gamma);
        self.green = powf(unit, self.green, inv_gamma);
        self.blue = powf(unit, self.blue, inv_gamma);
    }

    pub fn to_u8_tuple<F: Unit>(&self, unit: &F) -> (bytes: (u8, u8, u8))
        requires
            sound(unit),
        ensures
            (bytes.0 as int, bytes.1 as int, bytes.2 as int) == self.bytes(unit),
    {
        let mult = Scalar::from_bits(BYTE_SCALE_BITS);
        (
            times(unit, self.red, mult).to_u8(),
            times(unit, self.green, mult).to_u8(),
            times(unit, self.blue, mult).to_u8(),
        )
    }
}

/// Clamping leaves a colour as it is unless its strongest channel is above one.
pub proof fn clamping_keeps_a_fitting_colour<F: Unit>(unit: &F, c: RgbColor)
    requires
        !c.overflows(),
    ensures
        c.clamped(unit) == c,
{
}

/// A clamped colour fits: under a unit whose division shrinks, no channel
/// of a clamped colour is above one.
pub proof fn clamped_colour_fits<F: Unit>(unit: &F, c: RgbColor)
    requires
        shrinking(unit),
    ensures
        !c.clamped(unit).overflows(),
        !(Scalar { bits: ONE_BITS }).less(c.clamped(unit).red),
        !(Scalar { bits: ONE_BITS }).less(c.clamped(unit).green),
        !(Scalar { bits: ONE_BITS }).less(c.clamped(unit).blue),
{
}

} // verus!
