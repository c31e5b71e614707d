//! Curves and their approximations.

use vstd::prelude::*;

verus! {

/// Approximation of the value (y-coordinate) and velocity of a curve at the
/// given (unnormalized) time (x-coordinate).
#[derive(Copy, Clone, Debug, Eq, PartialEq)]
pub struct Approximation<T, V = T> {
    /// This is the y-coordinate of an approximation.
    pub value: T,
    /// This is the y-coordinate of the derivative at the x-coordinate of this
    /// approximation.
    pub velocity: V,
}

/// Curves provide the mathematical foundation for animation. A curve has a
/// closed-form approximation and a closed-form derivative at every time `S`,
/// so that animations can be paused and resumed at arbitrary time steps.
pub trait Curve<S> {
    /// This is the type that this curve operates on.
    type Value;

    /// This is the type of velocity that this curve works with.
    type Velocity;

    /// The value and velocity of this curve at the given time.
    spec fn spec_approximate(&self, time: S) -> Approximation<Self::Value, Self::Velocity>;

    /// The target value of this curve.
    spec fn spec_target(&self) -> Self::Value;

    /// The parameters of this curve are admissible (for example, a spring
    /// needs a positive mass).
    spec fn well_formed(&self) -> bool;

    /// This should return a single approximation for the given time.
    fn approximate(&self, time: S) -> (r: Approximation<Self::Value, Self::Velocity>)
        requires
            self.well_formed(),
        ensures
            r == self.spec_approximate(time),
    ;

    /// This should return the target value of this curve.
    fn target(&self) -> (r: Self::Value)
        ensures
            r == self.spec_target(),
    ;
}

} // verus!
