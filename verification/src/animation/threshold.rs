//! Threshold traits and types that are used to stop a pending animation.

use vstd::prelude::*;
use crate::scalar::Scalar;
use super::curve::Approximation;

verus! {

/// Implemented by types that can evaluate an approximation and determine if it
/// is resting.
pub trait Threshold: Sized {
    /// The type of value that this threshold applies to.
    type Value;

    /// The type of velocity that this threshold applies to.
    type Velocity;

    /// Whether this threshold, in its current state, considers the given
    /// approximation resting.
    spec fn spec_evaluate(&self, approximation: Approximation<Self::Value, Self::Velocity>) -> bool;

    /// The state of this threshold after it has evaluated the given
    /// approximation.
    spec fn spec_after(&self, approximation: Approximation<Self::Value, Self::Velocity>) -> Self;

    /// This function should evaluate the given approximate and return a boolean
    /// that indicates if the threshold for resting is met.
    fn evaluate(&mut self, approximation: &Approximation<Self::Value, Self::Velocity>) -> (r: bool)
        ensures
            r == old(self).spec_evaluate(*approximation),
            *final(self) == old(self).spec_after(*approximation),
    ;
}

/// This threshold evaluates to true if both of the given thresholds evaluate to
/// true.
pub struct And<A, B>(pub A, pub B);

impl<A, B> Threshold for And<A, B> where
    A: Threshold,
    B: Threshold<Value = A::Value, Velocity = A::Velocity>,
 {
    type Value = A::Value;

    type Velocity = A::Velocity;

    open spec fn spec_evaluate(&self, approximation: Approximation<A::Value, A::Velocity>) -> bool {
        self.0.spec_evaluate(approximation) && self.1.spec_evaluate(approximation)
    }

    /// The first threshold evaluates the approximation; the second one does
    /// only where the first is met.
    open spec fn spec_after(&self, approximation: Approximation<A::Value, A::Velocity>) -> Self {
        And(
            self.0.spec_after(approximation),
            if self.0.spec_evaluate(approximation) {
                self.1.spec_after(approximation)
            } else {
                self.1
            },
        )
    }

    fn evaluate(&mut self, approximation: &Approximation<A::Value, A::Velocity>) -> (r: bool) {
        self.0.evaluate(approximation) && self.1.evaluate(approximation)
    }
}

/// This threshold evaluates to true if the displacement of a running animation
/// drops below the given threshold value.
pub struct DisplacementThreshold<T> {
    /// This is the target value of an animation.
    pub target: T,
    /// This is the sensitivity of this threshold.
    pub sensitivity: T,
}

impl<T: Scalar> Threshold for DisplacementThreshold<T> {
    type Value = T;

    type Velocity = T;

    /// The distance to the target is at most the sensitivity.
    open spec fn spec_evaluate(&self, approximation: Approximation<T, T>) -> bool {
        approximation.value.spec_sub(self.target).spec_abs().spec_le(self.sensitivity)
    }

    /// Evaluating keeps the threshold as it is.
    open spec fn spec_after(&self, approximation: Approximation<T, T>) -> Self {
        *self
    }

    fn evaluate(&mut self, approximation: &Approximation<T, T>) -> (r: bool) {
        let displacement = approximation.value.sub(self.target);
        displacement.abs().le(self.sensitivity)
    }
}

/// This threshold evaluates to true if the absolute velocity of a running
/// animation drops below the given threshold value.
pub struct VelocityThreshold<T>(pub T);

impl<T: Scalar> Threshold for VelocityThreshold<T> {
    type Value = T;

    type Velocity = T;

    /// The absolute velocity is at most the threshold.
    open spec fn spec_evaluate(&self, approximation: Approximation<T, T>) -> bool {
        approximation.velocity.spec_abs().spec_le(self.0)
    }

    /// Evaluating keeps the threshold as it is.
    open spec fn spec_after(&self, approximation: Approximation<T, T>) -> Self {
        *self
    }

    fn evaluate(&mut self, approximation: &Approximation<T, T>) -> (r: bool) {
        approximation.velocity.abs().le(self.0)
    }
}

} // verus!
