//! Rounded arithmetic as a parameter: the operations that the library asks
//! of its caller, and what it assumes of the unit that carries them out.
//!
//! The library compares, negates and truncates numbers itself, on their bit
//! patterns. Whatever rounds is asked of a unit, a function from an operation
//! and two scalars to a scalar, and every contract that speaks of a rounded
//! result names it as what that unit answers.

use vstd::prelude::*;
use crate::primitives::scalar::Scalar;

verus! {

/// An operation on one or two scalars. An operation of one operand is asked
/// with zero as the second.
#[derive(Clone, Copy, Debug, PartialEq, Eq, Structural)]
pub enum Op {
    Add,
    Sub,
    Mul,
    Div,
    Sqrt,
    Pow,
    Sin,
    Cos,
    Tan,
    /// The number nearest to the count that the first operand's bits spell.
    Count,
}

/// An arithmetic unit: a function from an operation and two scalars to a
/// scalar.
pub trait Unit: Fn(Op, Scalar, Scalar) -> Scalar {

}

impl<F: Fn(Op, Scalar, Scalar) -> Scalar> Unit for F {

}

/// The unit answers every question.
pub open spec fn total<F: Unit>(unit: &F) -> bool {
    forall|op: Op, a: Scalar, b: Scalar| call_requires(*unit, (op, a, b))
}

/// The unit answers one question in one way only.
pub open spec fn single_valued<F: Unit>(unit: &F) -> bool {
    forall|op: Op, a: Scalar, b: Scalar, r1: Scalar, r2: Scalar|
        call_ensures(*unit, (op, a, b), r1) && call_ensures(*unit, (op, a, b), r2) ==> r1 == r2
}

/// The unit can be used: it is total and single-valued.
pub open spec fn sound<F: Unit>(unit: &F) -> bool {
    total(unit) && single_valued(unit)
}

/// What the unit answers to `op` on `a` and `b`.
pub open spec fn computed<F: Unit>(
    unit: &F,
    op: Op,
    a: Scalar,
    b: Scalar,
) -> Scalar {
    choose|r: Scalar| call_ensures(*unit, (op, a, b), r)
}

pub open spec fn sum<F: Unit>(unit: &F, a: Scalar, b: Scalar) -> Scalar {
    computed(unit, Op::Add, a, b)
}

pub open spec fn difference<F: Unit>(
    unit: &F,
    a: Scalar,
    b: Scalar,
) -> Scalar {
    computed(unit, Op::Sub, a, b)
}

pub open spec fn product<F: Unit>(
    unit: &F,
    a: Scalar,
    b: Scalar,
) -> Scalar {
    computed(unit, Op::Mul, a, b)
}

pub open spec fn quotient<F: Unit>(
    unit: &F,
    a: Scalar,
    b: Scalar,
) -> Scalar {
    computed(unit, Op::Div, a, b)
}

pub open spec fn root<F: Unit>(unit: &F, a: Scalar) -> Scalar {
    computed(unit, Op::Sqrt, a, Scalar { bits: 0 })
}

pub open spec fn power<F: Unit>(
    unit: &F,
    a: Scalar,
    b: Scalar,
) -> Scalar {
    computed(unit, Op::Pow, a, b)
}

pub open spec fn sine<F: Unit>(unit: &F, a: Scalar) -> Scalar {
    computed(unit, Op::Sin, a, Scalar { bits: 0 })
}

pub open spec fn cosine<F: Unit>(unit: &F, a: Scalar) -> Scalar {
    computed(unit, Op::Cos, a, Scalar { bits: 0 })
}

pub open spec fn tangent<F: Unit>(unit: &F, a: Scalar) -> Scalar {
    computed(unit, Op::Tan, a, Scalar { bits: 0 })
}

/// The number that stands for a count.
pub open spec fn counted<F: Unit>(unit: &F, n: usize) -> Scalar {
    computed(unit, Op::Count, Scalar { bits: n as u64 }, Scalar { bits: 0 })
}

/// The unit treats zero and one as the numbers do, on finite operands: a
/// sum with a zero has the value of the other operand, a product with a
/// zero is a zero, a product with one has the value of the other factor,
/// and sums of equal values are equal values. Correctly rounded binary64
/// arithmetic is of this kind.
pub open spec fn neutral<F: Unit>(unit: &F) -> bool {
    &&& forall|a: Scalar, b: Scalar|
        a.finite() && b.magnitude() == 0 ==> (#[trigger] sum(unit, a, b)).same(a)
    &&& forall|a: Scalar, b: Scalar|
        a.magnitude() == 0 && b.finite() ==> (#[trigger] sum(unit, a, b)).same(b)
    &&& forall|a: Scalar, b: Scalar|
        a.finite() && b.finite() && (a.magnitude() == 0 || b.magnitude() == 0) ==> (
        #[trigger] product(unit, a, b)).magnitude() == 0
    &&& forall|a: Scalar, b: Scalar|
        a.bits == crate::primitives::scalar::ONE_BITS && b.finite() ==> (#[trigger] product(
            unit,
            a,
            b,
        )).same(b)
    &&& forall|a: Scalar, b: Scalar|
        a.finite() && b.bits == crate::primitives::scalar::ONE_BITS ==> (#[trigger] product(
            unit,
            a,
            b,
        )).same(a)
    &&& forall|a: Scalar, b: Scalar, c: Scalar, d: Scalar|
        a.finite() && b.finite() && a.same(c) && b.same(d) ==> (#[trigger] sum(unit, a, b)).same(
            #[trigger] sum(unit, c, d),
        )
}

/// Dividing by a number above one that is no smaller than the dividend
/// gives nothing above one. Correctly rounded binary64 division is of this
/// kind.
pub open spec fn shrinking<F: Unit>(unit: &F) -> bool {
    forall|a: Scalar, m: Scalar|
        (Scalar { bits: crate::primitives::scalar::ONE_BITS }).less(m) && !m.less(a) ==> !(Scalar {
            bits: crate::primitives::scalar::ONE_BITS,
        }).less(#[trigger] quotient(unit, a, m))
}

/// Negation goes through the unit's sums and products: a NaN operand gives
/// a NaN, a product with a negated factor has the value of the negated
/// product, the sum of two negated operands has the value of the negated
/// sum, and sums of equal values are equal values. Correctly rounded
/// binary64 arithmetic is of this kind.
pub open spec fn symmetric<F: Unit>(unit: &F) -> bool {
    &&& forall|a: Scalar, b: Scalar| a.nan() || b.nan() ==> (#[trigger] sum(unit, a, b)).nan()
    &&& forall|a: Scalar, b: Scalar| a.nan() || b.nan() ==> (#[trigger] product(unit, a, b)).nan()
    &&& forall|a: Scalar, b: Scalar|
        !product(unit, a, b).nan() ==> (#[trigger] product(unit, a.negated(), b)).same(
            product(unit, a, b).negated(),
        )
    &&& forall|a: Scalar, b: Scalar|
        !sum(unit, a, b).nan() ==> (#[trigger] sum(unit, a.negated(), b.negated())).same(
            sum(unit, a, b).negated(),
        )
    &&& forall|a: Scalar, b: Scalar, c: Scalar, d: Scalar|
        a.same(c) && b.same(d) && !sum(unit, a, b).nan() ==> (#[trigger] sum(unit, a, b)).same(
            #[trigger] sum(unit, c, d),
        )
}

/// Asks the unit.
pub fn apply<F: Unit>(unit: &F, op: Op, a: Scalar, b: Scalar) -> (r: Scalar)
    requires
        sound(unit),
    ensures
        r == computed(unit, op, a, b),
        call_ensures(*unit, (op, a, b), r),
{
    unit(op, a, b)
}

pub fn plus<F: Unit>(unit: &F, a: Scalar, b: Scalar) -> (r: Scalar)
    requires
        sound(unit),
    ensures
        r == sum(unit, a, b),
        call_ensures(*unit, (Op::Add, a, b), r),
{
    apply(unit, Op::Add, a, b)
}

pub fn minus<F: Unit>(unit: &F, a: Scalar, b: Scalar) -> (r: Scalar)
    requires
        sound(unit),
    ensures
        r == difference(unit, a, b),
        call_ensures(*unit, (Op::Sub, a, b), r),
{
    apply(unit, Op::Sub, a, b)
}

pub fn times<F: Unit>(unit: &F, a: Scalar, b: Scalar) -> (r: Scalar)
    requires
        sound(unit),
    ensures
        r == product(unit, a, b),
        call_ensures(*unit, (Op::Mul, a, b), r),
{
    apply(unit, Op::Mul, a, b)
}

pub fn over<F: Unit>(unit: &F, a: Scalar, b: Scalar) -> (r: Scalar)
    requires
        sound(unit),
    ensures
        r == quotient(unit, a, b),
        call_ensures(*unit, (Op::Div, a, b), r),
{
    apply(unit, Op::Div, a, b)
}

pub fn sqrt<F: Unit>(unit: &F, a: Scalar) -> (r: Scalar)
    requires
        sound(unit),
    ensures
        r == root(unit, a),
        call_ensures(*unit, (Op::Sqrt, a, Scalar { bits: 0 }), r),
{
    apply(unit, Op::Sqrt, a, Scalar::zero())
}

pub fn powf<F: Unit>(unit: &F, a: Scalar, b: Scalar) -> (r: Scalar)
    requires
        sound(unit),
    ensures
        r == power(unit, a, b),
        call_ensures(*unit, (Op::Pow, a, b), r),
{
    apply(unit, Op::Pow, a, b)
}

pub fn sin<F: Unit>(unit: &F, a: Scalar) -> (r: Scalar)
    requires
        sound(unit),
    ensures
        r == sine(unit, a),
        call_ensures(*unit, (Op::Sin, a, Scalar { bits: 0 }), r),
{
    apply(unit, Op::Sin, a, Scalar::zero())
}

pub fn cos<F: Unit>(unit: &F, a: Scalar) -> (r: Scalar)
    requires
        sound(unit),
    ensures
        r == cosine(unit, a),
        call_ensures(*unit, (Op::Cos, a, Scalar { bits: 0 }), r),
{
    apply(unit, Op::Cos, a, Scalar::zero())
}

pub fn tan<F: Unit>(unit: &F, a: Scalar) -> (r: Scalar)
    requires
        sound(unit),
    ensures
        r == tangent(unit, a),
        call_ensures(*unit, (Op::Tan, a, Scalar { bits: 0 }), r),
{
    apply(unit, Op::Tan, a, Scalar::zero())
}

pub fn from_count<F: Unit>(unit: &F, n: usize) -> (r: Scalar)
    requires
        sound(unit),
    ensures
        r == counted(unit, n),
        call_ensures(*unit, (Op::Count, Scalar { bits: n as u64 }, Scalar { bits: 0 }), r),
{
    apply(unit, Op::Count, Scalar::from_bits(n as u64), Scalar::zero())
}

/// The distance between two numbers is below the tolerance.
pub open spec fn near<F: Unit>(unit: &F, a: Scalar, b: Scalar) -> bool {
    difference(unit, a, b).unsigned().less(Scalar { bits: crate::primitives::scalar::EPSILON_BITS })
}

/// Whether two numbers are equal within the tolerance.
pub fn approx_eq<F: Unit>(unit: &F, one: Scalar, two: Scalar) -> (b: bool)
    requires
        sound(unit),
    ensures
        b == near(unit, one, two),
{
    minus(unit, one, two).abs().lt(Scalar::from_bits(crate::primitives::scalar::EPSILON_BITS))
}

} // verus!
