//! The number type that coordinates, angles and lengths are made of.
//!
//! The shapes of this crate are generic in their scalar. The library moves
//! scalars around and combines them through the operations of [`Scalar`], and
//! never looks inside one. What an operation returns is the implementation's
//! business: the contracts of this crate name each result through the
//! relations below, which say "`r` is a value that the operation may return on
//! these operands", and so hold for every implementation, rounding or exact.
use vstd::prelude::*;

verus! {

/// A real-like number with the arithmetic that mesh building needs.
///
/// Every operation is total: an implementation with rounding and special
/// values (infinities, not-a-number) returns one of those where the exact
/// result does not exist.
pub trait Scalar: Copy {
    /// The scalar for the fraction `num / den`.
    fn from_ratio(num: i32, den: i32) -> Self;

    /// The scalar for a number of items.
    fn from_count(n: usize) -> Self;

    /// `self + rhs`.
    fn add(self, rhs: Self) -> Self;

    /// `self - rhs`.
    fn sub(self, rhs: Self) -> Self;

    /// `self * rhs`.
    fn mul(self, rhs: Self) -> Self;

    /// `self / rhs`.
    fn div(self, rhs: Self) -> Self;

    /// `-self`.
    fn neg(self) -> Self;

    /// The square root of `self`.
    fn sqrt(self) -> Self;

    /// The sine of `self`, an angle in radians.
    fn sin(self) -> Self;

    /// The cosine of `self`, an angle in radians.
    fn cos(self) -> Self;

    /// The arcsine of `self`, in radians.
    fn asin(self) -> Self;

    /// `self`, an angle in degrees, in radians.
    fn to_radians(self) -> Self;

    /// The largest whole number that is not above `self`.
    fn floor(self) -> Self;

    /// `self` as a byte: its fraction cut off, and kept within 0 and 255.
    fn to_u8(self) -> u8;
}

/// `r` is a value of `S::from_ratio(num, den)`.
pub open spec fn is_ratio<S: Scalar>(num: i32, den: i32, r: S) -> bool {
    call_ensures(S::from_ratio, (num, den), r)
}

/// `r` is a value of `S::from_count(n)`.
pub open spec fn is_count<S: Scalar>(n: usize, r: S) -> bool {
    call_ensures(S::from_count, (n,), r)
}

/// `r` is a value of `a + b`.
pub open spec fn is_sum<S: Scalar>(a: S, b: S, r: S) -> bool {
    call_ensures(S::add, (a, b), r)
}

/// `r` is a value of `a - b`.
pub open spec fn is_difference<S: Scalar>(a: S, b: S, r: S) -> bool {
    call_ensures(S::sub, (a, b), r)
}

/// `r` is a value of `a * b`.
pub open spec fn is_product<S: Scalar>(a: S, b: S, r: S) -> bool {
    call_ensures(S::mul, (a, b), r)
}

/// `r` is a value of `a / b`.
pub open spec fn is_quotient<S: Scalar>(a: S, b: S, r: S) -> bool {
    call_ensures(S::div, (a, b), r)
}

/// `r` is a value of `-a`.
pub open spec fn is_negation<S: Scalar>(a: S, r: S) -> bool {
    call_ensures(S::neg, (a,), r)
}

/// `r` is a value of the square root of `a`.
pub open spec fn is_sqrt<S: Scalar>(a: S, r: S) -> bool {
    call_ensures(S::sqrt, (a,), r)
}

/// `r` is a value of the sine of `a`.
pub open spec fn is_sin<S: Scalar>(a: S, r: S) -> bool {
    call_ensures(S::sin, (a,), r)
}

/// `r` is a value of the cosine of `a`.
pub open spec fn is_cos<S: Scalar>(a: S, r: S) -> bool {
    call_ensures(S::cos, (a,), r)
}

/// `r` is a value of the arcsine of `a`.
pub open spec fn is_asin<S: Scalar>(a: S, r: S) -> bool {
    call_ensures(S::asin, (a,), r)
}

/// `r` is a value of `a` degrees in radians.
pub open spec fn is_radians<S: Scalar>(a: S, r: S) -> bool {
    call_ensures(S::to_radians, (a,), r)
}

/// `r` is a value of the floor of `a`.
pub open spec fn is_floor<S: Scalar>(a: S, r: S) -> bool {
    call_ensures(S::floor, (a,), r)
}

/// `r` is a value of `a` as a byte.
pub open spec fn is_byte<S: Scalar>(a: S, r: u8) -> bool {
    call_ensures(S::to_u8, (a,), r)
}

} // verus!
