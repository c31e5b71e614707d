//! Instantaneous movement after a delay.

use vstd::prelude::*;
use crate::scalar::Scalar;
use super::curve::{Approximation, Curve};

verus! {

/// Instantaneous movement after a delay.
#[derive(Copy, Clone, Debug)]
pub struct Delay<T> {
    /// Start value of the animation.
    pub from_value: T,
    /// Target value of the animation.
    pub to_value: T,
    /// The amount of time to wait before movement.
    pub duration: T,
}

impl<T: Scalar> Curve<T> for Delay<T> {
    type Value = T;

    type Velocity = T;

    /// The start value before the delay has passed, the target value from
    /// then on; the velocity is zero throughout.
    open spec fn spec_approximate(&self, time: T) -> Approximation<T, T> {
        if time.spec_lt(self.duration) {
            Approximation { value: self.from_value, velocity: T::spec_zero() }
        } else {
            Approximation { value: self.to_value, velocity: T::spec_zero() }
        }
    }

    open spec fn spec_target(&self) -> T {
        self.to_value
    }

    open spec fn well_formed(&self) -> bool {
        true
    }

    fn approximate(&self, time: T) -> (r: Approximation<T, T>) {
        if time.lt(self.duration) {
            Approximation { value: self.from_value, velocity: T::zero() }
        } else {
            Approximation { value: self.to_value, velocity: T::zero() }
        }
    }

    fn target(&self) -> (r: T) {
        self.to_value
    }
}

} // verus!
