//! An offline ray tracer for scenes of spheres lit by point lights, with its
//! logic verified: transform algebra, ray and sphere intersection, the
//! shading and shadow model, scene composition and the render loop.
//!
//! Every number is a binary64 value carried by its bit pattern (`Scalar`).
//! What can be read off the bits is computed here and proved against an
//! integer model: sign, negation, order, the place of a NaN, truncation to
//! a byte. What rounds (sums, products, quotients, roots, powers, the
//! trigonometric functions) is asked of an arithmetic unit that the caller
//! hands in, and every contract states its result over what that unit
//! answers, in the order in which the operations are carried out. Nothing
//! is assumed of the unit but that it answers every question, and each
//! question in one way.

pub mod cameras;
pub mod lighting;
pub mod objects;
pub mod primitives;
pub mod shading;
pub mod tracing;
