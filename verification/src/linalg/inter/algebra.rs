//! Vector operations on three- and four-component arrays.

use vstd::prelude::*;
use crate::scalar::Scalar;

verus! {

/// Inner product.
pub trait Dot {
    /// The type of the inner product.
    type Output;

    /// Returns the inner product of `self` and `other`.
    fn dot(&self, other: &Self) -> Self::Output;
}

/// Cross product.
pub trait Cross: Sized {
    /// Returns the cross product of `self` and `other`.
    fn cross(&self, other: &Self) -> Self;
}

/// Length and normalization.
pub trait Vector<T>: Sized {
    /// Returns the Euclidean length.
    fn length(&self) -> T;

    /// Returns this vector divided by its length.
    fn normalize(&self) -> Self;
}

/// Linear combination.
pub trait Combine<T>: Sized {
    /// Returns `self * alpha + other * beta`.
    fn combine(&self, alpha: T, other: &Self, beta: T) -> Self;
}

/// The inner product of two three-component vectors.
pub open spec fn dot3<T: Scalar>(a: [T; 3], b: [T; 3]) -> T {
    a[0].spec_mul(b[0]).spec_add(a[1].spec_mul(b[1])).spec_add(a[2].spec_mul(b[2]))
}

/// The inner product of two four-component vectors.
pub open spec fn dot4<T: Scalar>(a: [T; 4], b: [T; 4]) -> T {
    a[0].spec_mul(b[0]).spec_add(a[1].spec_mul(b[1])).spec_add(a[2].spec_mul(b[2])).spec_add(
        a[3].spec_mul(b[3]),
    )
}

/// The cross product of two three-component vectors.
pub open spec fn cross3<T: Scalar>(a: [T; 3], b: [T; 3]) -> [T; 3] {
    [
        a[1].spec_mul(b[2]).spec_sub(a[2].spec_mul(b[1])),
        a[2].spec_mul(b[0]).spec_sub(a[0].spec_mul(b[2])),
        a[0].spec_mul(b[1]).spec_sub(a[1].spec_mul(b[0])),
    ]
}

/// The Euclidean length of a three-component vector.
pub open spec fn length3<T: Scalar>(a: [T; 3]) -> T {
    dot3(a, a).spec_sqrt()
}

/// A three-component vector divided by its length.
pub open spec fn normalize3<T: Scalar>(a: [T; 3]) -> [T; 3] {
    let l = length3(a);
    [a[0].spec_div(l), a[1].spec_div(l), a[2].spec_div(l)]
}

/// `a * alpha + b * beta` for three-component vectors.
pub open spec fn combine3<T: Scalar>(a: [T; 3], alpha: T, b: [T; 3], beta: T) -> [T; 3] {
    [
        a[0].spec_mul(alpha).spec_add(b[0].spec_mul(beta)),
        a[1].spec_mul(alpha).spec_add(b[1].spec_mul(beta)),
        a[2].spec_mul(alpha).spec_add(b[2].spec_mul(beta)),
    ]
}

/// `a * alpha + b * beta` for four-component vectors.
pub open spec fn combine4<T: Scalar>(a: [T; 4], alpha: T, b: [T; 4], beta: T) -> [T; 4] {
    [
        a[0].spec_mul(alpha).spec_add(b[0].spec_mul(beta)),
        a[1].spec_mul(alpha).spec_add(b[1].spec_mul(beta)),
        a[2].spec_mul(alpha).spec_add(b[2].spec_mul(beta)),
        a[3].spec_mul(alpha).spec_add(b[3].spec_mul(beta)),
    ]
}

impl<T: Scalar> Dot for [T; 3] {
    type Output = T;

    fn dot(&self, other: &Self) -> (r: T)
        ensures
            r == dot3(*self, *other),
    {
        self[0].mul(other[0]).add(self[1].mul(other[1])).add(self[2].mul(other[2]))
    }
}

impl<T: Scalar> Dot for [T; 4] {
    type Output = T;

    fn dot(&self, other: &Self) -> (r: T)
        ensures
            r == dot4(*self, *other),
    {
        self[0].mul(other[0]).add(self[1].mul(other[1])).add(self[2].mul(other[2])).add(
            self[3].mul(other[3]),
        )
    }
}

impl<T: Scalar> Cross for [T; 3] {
    fn cross(&self, other: &Self) -> (r: Self)
        ensures
            r == cross3(*self, *other),
    {
        [
            self[1].mul(other[2]).sub(self[2].mul(other[1])),
            self[2].mul(other[0]).sub(self[0].mul(other[2])),
            self[0].mul(other[1]).sub(self[1].mul(other[0])),
        ]
    }
}

impl<T: Scalar> Vector<T> for [T; 3] {
    fn length(&self) -> (r: T)
        ensures
            r == length3(*self),
    {
        self.dot(self).sqrt()
    }

    fn normalize(&self) -> (r: Self)
        ensures
            r == normalize3(*self),
    {
        let length = self.length();
        [self[0].div(length), self[1].div(length), self[2].div(length)]
    }
}

impl<T: Scalar> Combine<T> for [T; 3] {
    fn combine(&self, alpha: T, other: &Self, beta: T) -> (r: Self)
        ensures
            r == combine3(*self, alpha, *other, beta),
    {
        [
            self[0].mul(alpha).add(other[0].mul(beta)),
            self[1].mul(alpha).add(other[1].mul(beta)),
            self[2].mul(alpha).add(other[2].mul(beta)),
        ]
    }
}

impl<T: Scalar> Combine<T> for [T; 4] {
    fn combine(&self, alpha: T, other: &Self, beta: T) -> (r: Self)
        ensures
            r == combine4(*self, alpha, *other, beta),
    {
        [
            self[0].mul(alpha).add(other[0].mul(beta)),
            self[1].mul(alpha).add(other[1].mul(beta)),
            self[2].mul(alpha).add(other[2].mul(beta)),
            self[3].mul(alpha).add(other[3].mul(beta)),
        ]
    }
}

} // verus!
