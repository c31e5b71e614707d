//! Deceleration towards a target.

use vstd::prelude::*;
use crate::scalar::Scalar;
use super::curve::{Approximation, Curve};

verus! {

/// Decay curve that starts at a given value and decelerates to a given target
/// value.
#[derive(Copy, Clone, Debug)]
pub struct Decay<T> {
    /// Start value of the animation.
    pub from_value: T,
    /// Target value of the animation.
    pub to_value: T,
    /// Adjusting the time constant will change the duration of the deceleration,
    /// thereby affecting its feel.
    pub time_constant: T,
}

impl<T: Scalar> Decay<T> {
    /// The ideal target `y_0 + p * v` of a decay from `y_0` with power `p`
    /// and velocity `v`.
    pub open spec fn spec_ideal_target(from_value: T, power: T, velocity: T) -> T {
        from_value.spec_add(power.spec_mul(velocity))
    }

    /// Computes the ideal target of the decay.
    pub fn ideal_target(from_value: T, power: T, velocity: T) -> (r: T)
        ensures
            r == Self::spec_ideal_target(from_value, power, velocity),
    {
        from_value.add(power.mul(velocity))
    }
}

impl<T: Scalar> Curve<T> for Decay<T> {
    type Value = T;

    type Velocity = T;

    /// `to - (to - from) * exp(-time / time_constant)`, with zero velocity.
    open spec fn spec_approximate(&self, time: T) -> Approximation<T, T> {
        let amplitude = self.to_value.spec_sub(self.from_value);
        let multiplier = time.spec_neg().spec_div(self.time_constant).spec_exp();
        let delta = amplitude.spec_neg().spec_mul(multiplier);
        Approximation { value: self.to_value.spec_add(delta), velocity: T::spec_zero() }
    }

    open spec fn spec_target(&self) -> T {
        self.to_value
    }

    open spec fn well_formed(&self) -> bool {
        true
    }

    fn approximate(&self, time: T) -> (r: Approximation<T, T>) {
        let amplitude = self.to_value.sub(self.from_value);
        let multiplier = time.neg().div(self.time_constant).exp();
        let delta = amplitude.neg().mul(multiplier);
        Approximation { value: self.to_value.add(delta), velocity: T::zero() }
    }

    fn target(&self) -> (r: T) {
        self.to_value
    }
}

/// The facts of real arithmetic that the decay law rests on:
/// `x - (x + y) = -y`, `(-x) * y = -(x * y)`, `--x = x`, and
/// `(x * c) / c = x` for a nonzero `c`.
pub open spec fn decay_laws<T: Scalar>() -> bool {
    &&& forall|x: T, y: T| #[trigger] x.spec_sub(x.spec_add(y)) == y.spec_neg()
    &&& forall|x: T, y: T| #[trigger] x.spec_neg().spec_mul(y) == x.spec_mul(y).spec_neg()
    &&& forall|x: T| #[trigger] x.spec_neg().spec_neg() == x
    &&& forall|x: T, c: T| c != T::spec_zero() ==> #[trigger] x.spec_mul(c).spec_div(c) == x
}

/// After `s` time constants a decay has `exp(-s)` of its distance left:
/// `to - value == (to - from) * exp(-s)` at time `s * time_constant`, for
/// every nonzero time constant. After one time constant it has covered
/// `1 - 1/e` of the distance, and a larger time constant decays more slowly.
pub proof fn decay_after_time_constants<T: Scalar>(decay: Decay<T>, s: T)
    requires
        decay_laws::<T>(),
        decay.time_constant != T::spec_zero(),
    ensures
        decay.to_value.spec_sub(decay.spec_approximate(s.spec_mul(decay.time_constant)).value)
            == decay.to_value.spec_sub(decay.from_value).spec_mul(s.spec_neg().spec_exp()),
        decay.spec_approximate(s.spec_mul(decay.time_constant)).velocity == T::spec_zero(),
{
    let c = decay.time_constant;
    let x0 = decay.to_value.spec_sub(decay.from_value);
    assert(s.spec_mul(c).spec_neg() == s.spec_neg().spec_mul(c));
    assert(s.spec_neg().spec_mul(c).spec_div(c) == s.spec_neg());
    let m = s.spec_neg().spec_exp();
    assert(x0.spec_neg().spec_mul(m) == x0.spec_mul(m).spec_neg());
    assert(decay.to_value.spec_sub(decay.to_value.spec_add(x0.spec_neg().spec_mul(m))) == x0.spec_neg().spec_mul(m).spec_neg());
}

} // verus!
