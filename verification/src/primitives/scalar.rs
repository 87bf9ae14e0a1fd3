//! A binary64 number carried by its bit pattern: sign, order and truncation
//! are read off the bits with integer arithmetic alone.

use vstd::prelude::*;
use vstd::arithmetic::power2::pow2;
use vstd::arithmetic::power2::lemma2_to64;
use vstd::arithmetic::power2::lemma2_to64_rest;

verus! {

/// The sign bit of a binary64 pattern.
pub const SIGN_BIT: u64 = 0x8000_0000_0000_0000;

/// The pattern of positive infinity; every larger magnitude is a NaN.
pub const INFINITY_BITS: u64 = 0x7FF0_0000_0000_0000;

/// The pattern of the number one.
pub const ONE_BITS: u64 = 0x3FF0_0000_0000_0000;

/// The pattern of the number two.
pub const TWO_BITS: u64 = 0x4000_0000_0000_0000;

/// The pattern of the number four.
pub const FOUR_BITS: u64 = 0x4010_0000_0000_0000;

/// The pattern of one half.
pub const HALF_BITS: u64 = 0x3FE0_0000_0000_0000;

/// The pattern of the tolerance of approximate equality, a millionth.
pub const EPSILON_BITS: u64 = 0x3EB0_C6F7_A0B5_ED8D;

/// The pattern of 255, the top of the byte range.
pub const BYTE_SCALE_BITS: u64 = 0x406F_E000_0000_0000;

/// The pattern of the display gamma, 1.3.
pub const GAMMA_BITS: u64 = 0x3FF4_CCCC_CCCC_CCCD;

/// Two to the power 52: the weight of the lowest exponent bit.
pub const FRACTION_SPAN: u64 = 0x0010_0000_0000_0000;

/// The rank given to a NaN: above the key of every number.
pub const NAN_RANK: u64 = 0x8000_0000_0000_0000;

/// A binary64 value, held as its 64 bits.
#[derive(Clone, Copy, Debug, PartialEq, Eq, Structural)]
pub struct Scalar {
    pub bits: u64,
}

impl Scalar {
    /// The sign bit is set.
    pub open spec fn sign(self) -> bool {
        self.bits >= SIGN_BIT
    }

    /// The pattern without its sign bit.
    pub open spec fn magnitude(self) -> int {
        if self.sign() {
            self.bits - SIGN_BIT
        } else {
            self.bits as int
        }
    }

    /// The pattern stands for no number.
    pub open spec fn nan(self) -> bool {
        self.magnitude() > INFINITY_BITS
    }

    /// An integer that orders the numbers as their values do: the magnitude,
    /// negated under a set sign bit. Both zeroes have key 0.
    pub open spec fn key(self) -> int {
        if self.sign() {
            -self.magnitude()
        } else {
            self.magnitude()
        }
    }

    /// The pattern stands for a number that is not infinite.
    pub open spec fn finite(self) -> bool {
        self.magnitude() < INFINITY_BITS
    }

    /// `self < other` as numbers: false whenever either is a NaN.
    pub open spec fn less(self, other: Scalar) -> bool {
        !self.nan() && !other.nan() && self.key() < other.key()
    }

    /// `self == other` as numbers: false whenever either is a NaN.
    pub open spec fn same(self, other: Scalar) -> bool {
        !self.nan() && !other.nan() && self.key() == other.key()
    }

    /// The place of a value in an order that puts every NaN last and level
    /// with every other NaN.
    pub open spec fn rank(self) -> int {
        if self.nan() {
            NAN_RANK as int
        } else {
            self.key()
        }
    }

    /// A bound that no rank exceeds.
    pub open spec fn rank_ceiling() -> int {
        NAN_RANK as int
    }

    /// The value with the opposite sign bit.
    pub open spec fn negated(self) -> Scalar {
        if self.sign() {
            Scalar { bits: (self.bits - SIGN_BIT) as u64 }
        } else {
            Scalar { bits: (self.bits + SIGN_BIT) as u64 }
        }
    }

    /// The value with a clear sign bit.
    pub open spec fn unsigned(self) -> Scalar {
        Scalar { bits: self.magnitude() as u64 }
    }

    /// The biased exponent field.
    pub open spec fn exponent(self) -> int {
        self.magnitude() / (FRACTION_SPAN as int)
    }

    /// The significand of a normal number, with its leading one.
    pub open spec fn significand(self) -> int {
        FRACTION_SPAN + self.magnitude() % (FRACTION_SPAN as int)
    }

    /// The value cut to a whole number and held within 0..=255: a NaN and
    /// every number below one give 0, every number from 256 on gives 255.
    pub open spec fn truncated(self) -> int {
        if self.nan() || self.sign() || self.exponent() < 1023 {
            0
        } else if self.exponent() > 1030 {
            255
        } else {
            self.significand() / (pow2((1075 - self.exponent()) as nat) as int)
        }
    }

    pub fn from_bits(bits: u64) -> (s: Scalar)
        ensures
            s.bits == bits,
    {
        Scalar { bits }
    }

    pub fn to_bits(self) -> (bits: u64)
        ensures
            bits == self.bits,
    {
        self.bits
    }

    pub fn zero() -> (s: Scalar)
        ensures
            s.bits == 0,
            s.key() == 0,
            !s.nan(),
    {
        Scalar { bits: 0 }
    }

    pub fn one() -> (s: Scalar)
        ensures
            s.bits == ONE_BITS,
            s.key() == ONE_BITS,
            !s.nan(),
    {
        Scalar { bits: ONE_BITS }
    }

    pub fn has_sign(self) -> (b: bool)
        ensures
            b == self.sign(),
    {
        self.bits >= SIGN_BIT
    }

    pub fn abs_bits(self) -> (m: u64)
        ensures
            m == self.magnitude(),
            m < SIGN_BIT,
    {
        if self.bits >= SIGN_BIT {
            self.bits - SIGN_BIT
        } else {
            self.bits
        }
    }

    pub fn is_nan(self) -> (b: bool)
        ensures
            b == self.nan(),
    {
        self.abs_bits() > INFINITY_BITS
    }

    pub fn neg(self) -> (r: Scalar)
        ensures
            r == self.negated(),
            r.sign() == !self.sign(),
            r.magnitude() == self.magnitude(),
            r.nan() == self.nan(),
            r.key() == -self.key(),
    {
        if self.bits >= SIGN_BIT {
            Scalar { bits: self.bits - SIGN_BIT }
        } else {
            Scalar { bits: self.bits + SIGN_BIT }
        }
    }

    pub fn abs(self) -> (r: Scalar)
        ensures
            r == self.unsigned(),
            !r.sign(),
            r.nan() == self.nan(),
    {
        Scalar { bits: self.abs_bits() }
    }

    pub fn lt(self, other: Scalar) -> (b: bool)
        ensures
            b == self.less(other),
    {
        if self.is_nan() || other.is_nan() {
            return false;
        }
        let a: u64 = self.abs_bits();
        let b: u64 = other.abs_bits();
        if self.has_sign() {
            if other.has_sign() {
                a > b
            } else {
                a > 0 || b > 0
            }
        } else {
            !other.has_sign() && a < b
        }
    }

    pub fn gt(self, other: Scalar) -> (b: bool)
        ensures
            b == other.less(self),
    {
        other.lt(self)
    }

    pub fn eq_value(self, other: Scalar) -> (b: bool)
        ensures
            b == self.same(other),
    {
        if self.is_nan() || other.is_nan() {
            return false;
        }
        let a: u64 = self.abs_bits();
        let b: u64 = other.abs_bits();
        if self.has_sign() == other.has_sign() {
            a == b
        } else {
            a == 0 && b == 0
        }
    }

    pub fn le(self, other: Scalar) -> (b: bool)
        ensures
            b == (self.less(other) || self.same(other)),
    {
        self.lt(other) || self.eq_value(other)
    }

    /// Whether `self` stands before `other` where every NaN comes last.
    pub fn ranks_below(self, other: Scalar) -> (b: bool)
        ensures
            b == (self.rank() < other.rank()),
    {
        if self.is_nan() {
            false
        } else if other.is_nan() {
            true
        } else {
            self.lt(other)
        }
    }

    pub fn is_positive(self) -> (b: bool)
        ensures
            b == (!self.nan() && self.key() > 0),
            b == (Scalar { bits: 0 }).less(self),
    {
        !self.is_nan() && !self.has_sign() && self.bits > 0
    }

    pub fn is_negative(self) -> (b: bool)
        ensures
            b == (!self.nan() && self.key() < 0),
            b == self.less((Scalar { bits: 0 })),
    {
        !self.is_nan() && self.has_sign() && self.abs_bits() > 0
    }

    pub fn is_zero(self) -> (b: bool)
        ensures
            b == (self.magnitude() == 0),
            b == self.same((Scalar { bits: 0 })),
    {
        self.abs_bits() == 0
    }

    /// The larger of two values; a NaN gives way to the other value, and of
    /// two level values the first is kept.
    pub fn max(self, other: Scalar) -> (r: Scalar)
        ensures
            r == if self.nan() || self.less(other) { other } else { self },
            !r.less(self) && !r.less(other),
            r.nan() ==> self.nan() && other.nan(),
    {
        if self.is_nan() || self.lt(other) {
            other
        } else {
            self
        }
    }

    /// The value as a colour byte: cut towards zero and held within 0..=255.
    pub fn to_u8(self) -> (byte: u8)
        ensures
            byte == self.truncated(),
    {
        if self.is_nan() || self.has_sign() {
            return 0;
        }
        let exponent: u64 = self.bits / FRACTION_SPAN;
        let significand: u64 = FRACTION_SPAN + self.bits % FRACTION_SPAN;
        if exponent < 1023 {
            return 0;
        }
        if exponent > 1030 {
            return 255;
        }
        proof {
            lemma2_to64();
            lemma2_to64_rest();
        }
        let divisor: u64 = if exponent == 1023 {
            0x0010_0000_0000_0000
        } else if exponent == 1024 {
            0x0008_0000_0000_0000
        } else if exponent == 1025 {
            0x0004_0000_0000_0000
        } else if exponent == 1026 {
            0x0002_0000_0000_0000
        } else if exponent == 1027 {
            0x0001_0000_0000_0000
        } else if exponent == 1028 {
            0x0000_8000_0000_0000
        } else if exponent == 1029 {
            0x0000_4000_0000_0000
        } else {
            0x0000_2000_0000_0000
        };
        let whole: u64 = significand / divisor;
        whole as u8
    }
}

/// Of two numbers exactly one holds: the first is less, they are the same,
/// or the second is less.
pub proof fn numbers_are_totally_ordered(a: Scalar, b: Scalar)
    requires
        !a.nan(),
        !b.nan(),
    ensures
        a.less(b) || a.same(b) || b.less(a),
        !(a.less(b) && a.same(b)),
        !(a.less(b) && b.less(a)),
        !(b.less(a) && a.same(b)),
{
}

/// A NaN is neither less than, nor the same as, nor greater than anything,
/// and ranks level with every NaN and above every number.
pub proof fn nan_is_unordered_and_ranks_last(a: Scalar, b: Scalar)
    requires
        a.nan(),
    ensures
        !a.less(b),
        !b.less(a),
        !a.same(b),
        b.nan() ==> a.rank() == b.rank(),
        !b.nan() ==> b.rank() < a.rank(),
{
}

/// The whole part of a number between one and 256, by its exponent.
pub open spec fn whole_part(a: Scalar) -> int {
    let e = a.exponent();
    let m = a.significand();
    if e == 1023 {
        m / 0x10000000000000
    } else if e == 1024 {
        m / 0x8000000000000
    } else if e == 1025 {
        m / 0x4000000000000
    } else if e == 1026 {
        m / 0x2000000000000
    } else if e == 1027 {
        m / 0x1000000000000
    } else if e == 1028 {
        m / 0x800000000000
    } else if e == 1029 {
        m / 0x400000000000
    } else {
        m / 0x200000000000
    }
}

/// Between one and 256 truncation gives the whole part.
pub proof fn truncation_gives_the_whole_part(a: Scalar)
    requires
        !a.nan(),
        !a.sign(),
        1023 <= a.exponent() <= 1030,
    ensures
        a.truncated() == whole_part(a),
{
    lemma2_to64();
    lemma2_to64_rest();
    let e = a.exponent();
    if e == 1023 {
        assert(pow2(52) == 0x10000000000000);
        assert(a.truncated() == a.significand() / 0x10000000000000);
    } else if e == 1024 {
        assert(pow2(51) == 0x8000000000000);
        assert(a.truncated() == a.significand() / 0x8000000000000);
    } else if e == 1025 {
        assert(pow2(50) == 0x4000000000000);
        assert(a.truncated() == a.significand() / 0x4000000000000);
    } else if e == 1026 {
        assert(pow2(49) == 0x2000000000000);
        assert(a.truncated() == a.significand() / 0x2000000000000);
    } else if e == 1027 {
        assert(pow2(48) == 0x1000000000000);
        assert(a.truncated() == a.significand() / 0x1000000000000);
    } else if e == 1028 {
        assert(pow2(47) == 0x800000000000);
        assert(a.truncated() == a.significand() / 0x800000000000);
    } else if e == 1029 {
        assert(pow2(46) == 0x400000000000);
        assert(a.truncated() == a.significand() / 0x400000000000);
    } else if e == 1030 {
        assert(pow2(45) == 0x200000000000);
        assert(a.truncated() == a.significand() / 0x200000000000);
    }
}

/// Truncation gives a byte.
pub proof fn truncation_is_a_byte(a: Scalar)
    ensures
        0 <= a.truncated() <= 255,
{
    if !a.nan() && !a.sign() && 1023 <= a.exponent() <= 1030 {
        truncation_gives_the_whole_part(a);
    }
}

/// Truncation keeps the order: a number that is not above another is not
/// cut to a larger byte.
pub proof fn truncation_is_monotone(a: Scalar, b: Scalar)
    requires
        a.less(b) || a.same(b),
    ensures
        a.truncated() <= b.truncated(),
{
    truncation_is_a_byte(a);
    truncation_is_a_byte(b);
    if !a.sign() && a.exponent() >= 1023 && b.exponent() <= 1030 {
        assert(!b.sign());
        assert(a.magnitude() <= b.magnitude());
        assert(a.exponent() <= b.exponent());
        truncation_gives_the_whole_part(a);
        truncation_gives_the_whole_part(b);
    }
}

} // verus!
