//! The scalar abstraction used by the surface generators.

use vstd::prelude::*;

verus! {

/// The arithmetic a surface generator needs from its coordinate scalar.
///
/// The library fixes no scalar representation: callers supply a type
/// (typically a thin wrapper around a machine real number) together with
/// these operations. The generators are verified for every implementation;
/// their contracts state grid shapes and validation outcomes, which do not
/// depend on how the operations round or approximate.
pub trait Scalar: Sized + Copy {
    /// The sum of the two scalars.
    fn plus(self, other: Self) -> Self;

    /// The difference of the two scalars.
    fn minus(self, other: Self) -> Self;

    /// The product of the two scalars.
    fn times(self, other: Self) -> Self;

    /// The quotient of the two scalars.
    fn divided_by(self, other: Self) -> Self;

    /// The scalar with its sign flipped.
    fn negated(self) -> Self;

    /// The cosine of the scalar, read as an angle in radians.
    fn cos(self) -> Self;

    /// The sine of the scalar, read as an angle in radians.
    fn sin(self) -> Self;

    /// The sign-preserving power of the cosine of this angle:
    /// the sign of the cosine times the absolute cosine raised to `exponent`.
    fn suq_cos(self, exponent: Self) -> Self;

    /// The sign-preserving power of the sine of this angle:
    /// the sign of the sine times the absolute sine raised to `exponent`.
    fn suq_sin(self, exponent: Self) -> Self;

    /// This scalar, read as an angle in degrees, converted to radians.
    fn degrees_to_radians(self) -> Self;

    /// A quarter turn in radians.
    fn half_pi() -> Self;

    /// The scalar representing the given small integer.
    fn from_i32(value: i32) -> Self;

    /// The scalar representing the given count.
    fn from_usize(value: usize) -> Self;

    /// Whether the scalar is strictly below zero.
    fn is_negative(self) -> bool;

    /// Whether the scalar is negligibly close to zero; the plane generator
    /// rejects a normal whose z-component satisfies this test.
    fn is_near_zero(self) -> bool;
}

} // verus!
