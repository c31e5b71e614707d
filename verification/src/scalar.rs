//! The number type that the geometry, animation and style code computes with.
//!
//! Every numeric routine of this crate is generic over a type `T: Scalar`.
//! In an application this is an IEEE float wrapped in a type of the caller's
//! own; the operations below are exactly the ones that the routines use.

use vstd::prelude::*;

verus! {

/// A real-like number type.
///
/// Each executable operation returns the value of its spec counterpart, so
/// that the contracts of this crate can say exactly which arithmetic
/// expression a routine evaluates. Nothing is assumed about the algebra of
/// these operations: where a property of a routine needs an algebraic fact
/// (such as `x * 1 == x`), the proof function that states it takes that fact
/// as a hypothesis.
pub trait Scalar: Copy + Sized {
    /// The additive identity.
    spec fn spec_zero() -> Self;

    /// The multiplicative identity.
    spec fn spec_one() -> Self;

    /// The number that the given integer stands for.
    spec fn spec_from_int(n: i32) -> Self;

    /// The constant pi.
    spec fn spec_pi() -> Self;

    spec fn spec_add(self, other: Self) -> Self;

    spec fn spec_sub(self, other: Self) -> Self;

    spec fn spec_mul(self, other: Self) -> Self;

    spec fn spec_div(self, other: Self) -> Self;

    spec fn spec_neg(self) -> Self;

    spec fn spec_recip(self) -> Self;

    spec fn spec_abs(self) -> Self;

    spec fn spec_sqrt(self) -> Self;

    spec fn spec_sin(self) -> Self;

    spec fn spec_cos(self) -> Self;

    spec fn spec_tan(self) -> Self;

    spec fn spec_acos(self) -> Self;

    spec fn spec_exp(self) -> Self;

    spec fn spec_sinh(self) -> Self;

    spec fn spec_cosh(self) -> Self;

    spec fn spec_min(self, other: Self) -> Self;

    spec fn spec_max(self, other: Self) -> Self;

    /// Strict order (`<`).
    spec fn spec_lt(self, other: Self) -> bool;

    /// Non-strict order (`<=`).
    spec fn spec_le(self, other: Self) -> bool;

    /// Numeric equality (`==` on the number, which need not be the identity
    /// of its representation).
    spec fn spec_num_eq(self, other: Self) -> bool;

    fn zero() -> (r: Self)
        ensures
            r == Self::spec_zero(),
    ;

    fn one() -> (r: Self)
        ensures
            r == Self::spec_one(),
    ;

    fn from_int(n: i32) -> (r: Self)
        ensures
            r == Self::spec_from_int(n),
    ;

    fn pi() -> (r: Self)
        ensures
            r == Self::spec_pi(),
    ;

    fn add(self, other: Self) -> (r: Self)
        ensures
            r == self.spec_add(other),
    ;

    fn sub(self, other: Self) -> (r: Self)
        ensures
            r == self.spec_sub(other),
    ;

    fn mul(self, other: Self) -> (r: Self)
        ensures
            r == self.spec_mul(other),
    ;

    fn div(self, other: Self) -> (r: Self)
        ensures
            r == self.spec_div(other),
    ;

    fn neg(self) -> (r: Self)
        ensures
            r == self.spec_neg(),
    ;

    fn recip(self) -> (r: Self)
        ensures
            r == self.spec_recip(),
    ;

    fn abs(self) -> (r: Self)
        ensures
            r == self.spec_abs(),
    ;

    fn sqrt(self) -> (r: Self)
        ensures
            r == self.spec_sqrt(),
    ;

    fn sin(self) -> (r: Self)
        ensures
            r == self.spec_sin(),
    ;

    fn cos(self) -> (r: Self)
        ensures
            r == self.spec_cos(),
    ;

    fn tan(self) -> (r: Self)
        ensures
            r == self.spec_tan(),
    ;

    fn acos(self) -> (r: Self)
        ensures
            r == self.spec_acos(),
    ;

    fn exp(self) -> (r: Self)
        ensures
            r == self.spec_exp(),
    ;

    fn sinh(self) -> (r: Self)
        ensures
            r == self.spec_sinh(),
    ;

    fn cosh(self) -> (r: Self)
        ensures
            r == self.spec_cosh(),
    ;

    fn min(self, other: Self) -> (r: Self)
        ensures
            r == self.spec_min(other),
    ;

    fn max(self, other: Self) -> (r: Self)
        ensures
            r == self.spec_max(other),
    ;

    fn lt(self, other: Self) -> (r: bool)
        ensures
            r == self.spec_lt(other),
    ;

    fn le(self, other: Self) -> (r: bool)
        ensures
            r == self.spec_le(other),
    ;

    fn num_eq(self, other: Self) -> (r: bool)
        ensures
            r == self.spec_num_eq(other),
    ;
}

/// `x` is numerically zero.
pub open spec fn is_zero<T: Scalar>(x: T) -> bool {
    x.spec_num_eq(T::spec_zero())
}

/// `x` is numerically one.
pub open spec fn is_one<T: Scalar>(x: T) -> bool {
    x.spec_num_eq(T::spec_one())
}

/// The identities of `0` and `1` under `+`, `-`, `*` and `/` that the
/// algebraic properties of this crate rest on, with exact equality. An IEEE
/// float misses some of them on signed zeros (`-0.0 + 0.0` is `0.0`).
pub open spec fn unit_laws<T: Scalar>() -> bool {
    &&& forall|x: T| #[trigger] x.spec_mul(T::spec_one()) == x
    &&& forall|x: T| #[trigger] T::spec_one().spec_mul(x) == x
    &&& forall|x: T| #[trigger] x.spec_mul(T::spec_zero()) == T::spec_zero()
    &&& forall|x: T| #[trigger] T::spec_zero().spec_mul(x) == T::spec_zero()
    &&& forall|x: T| #[trigger] x.spec_add(T::spec_zero()) == x
    &&& forall|x: T| #[trigger] T::spec_zero().spec_add(x) == x
    &&& forall|x: T| #[trigger] x.spec_sub(T::spec_zero()) == x
    &&& forall|x: T| #[trigger] x.spec_div(T::spec_one()) == x
}

/// Returns whether `x` is numerically zero.
pub fn scalar_is_zero<T: Scalar>(x: T) -> (r: bool)
    ensures
        r == is_zero(x),
{
    x.num_eq(T::zero())
}

/// Returns whether `x` is numerically one.
pub fn scalar_is_one<T: Scalar>(x: T) -> (r: bool)
    ensures
        r == is_one(x),
{
    x.num_eq(T::one())
}

/// The number two, computed as `1 + 1`, as the routines of this crate
/// compute it.
pub open spec fn two<T: Scalar>() -> T {
    T::spec_one().spec_add(T::spec_one())
}

} // verus!
