//! Stepping through a curve at a fixed sample rate until it rests.

use vstd::prelude::*;
use crate::scalar::Scalar;
use super::curve::{Approximation, Curve};
use super::threshold::{And, DisplacementThreshold, Threshold, VelocityThreshold};

verus! {

/// Sampling iterator over curves that generates approximations at a fixed
/// sample rate, until the threshold says that the curve rests.
pub struct Sampler<'a, S, C, H> {
    curve: &'a C,
    sample_rate: S,
    threshold: H,
    time: S,
    exhausted: bool,
}

impl<'a, S: Scalar, C, H> Sampler<'a, S, C, H> where
    C: Curve<S>,
    H: Threshold<Value = C::Value, Velocity = C::Velocity>,
 {
    /// The curve that is sampled.
    pub closed spec fn spec_curve(&self) -> C {
        *self.curve
    }

    /// The number of samples per unit of time.
    pub closed spec fn spec_sample_rate(&self) -> S {
        self.sample_rate
    }

    /// The threshold in its current state.
    pub closed spec fn spec_threshold(&self) -> H {
        self.threshold
    }

    /// The time of the next sample.
    pub closed spec fn spec_time(&self) -> S {
        self.time
    }

    /// The curve has come to rest: no further samples are produced.
    pub closed spec fn spec_exhausted(&self) -> bool {
        self.exhausted
    }

    /// The sample that the next call produces (when not exhausted): the
    /// curve's approximation at the current time, with its value replaced by
    /// the target when the threshold is met.
    pub open spec fn spec_sample(&self) -> Approximation<C::Value, C::Velocity> {
        let a = self.spec_curve().spec_approximate(self.spec_time());
        if self.spec_threshold().spec_evaluate(a) {
            Approximation { value: self.spec_curve().spec_target(), velocity: a.velocity }
        } else {
            a
        }
    }

    /// This function creates a new sampler of the given curve with the given
    /// sample rate (the number of samples per unit of time) and threshold.
    pub fn with_threshold(curve: &'a C, sample_rate: S, threshold: H) -> (r: Sampler<'a, S, C, H>)
        ensures
            r.spec_curve() == *curve,
            r.spec_sample_rate() == sample_rate,
            r.spec_threshold() == threshold,
            r.spec_time() == S::spec_zero(),
            !r.spec_exhausted(),
    {
        Sampler { curve, sample_rate, threshold, time: S::zero(), exhausted: false }
    }

    /// Turns this sampler into a keyed iterator, which returns the timestamps
    /// along with the approximations.
    pub fn keyed(self) -> (r: KeyedIter<'a, S, C, H>)
        ensures
            r.0 == self,
    {
        KeyedIter(self)
    }

    /// Returns the next approximation, or `None` once the curve rests. The
    /// sample at which the threshold is first met is still returned (with
    /// its value set to the curve's target), and no samples follow it.
    pub fn next(&mut self) -> (r: Option<Approximation<C::Value, C::Velocity>>)
        requires
            old(self).spec_curve().well_formed(),
        ensures
            old(self).spec_exhausted() ==> r is None && *final(self) == *old(self),
            !old(self).spec_exhausted() ==> {
                &&& r == Some(old(self).spec_sample())
                &&& final(self).spec_exhausted() == old(self).spec_threshold().spec_evaluate(
                    old(self).spec_curve().spec_approximate(old(self).spec_time()),
                )
                &&& final(self).spec_time() == old(self).spec_time().spec_add(
                    S::spec_one().spec_div(old(self).spec_sample_rate()),
                )
                &&& final(self).spec_threshold() == old(self).spec_threshold().spec_after(
                    old(self).spec_curve().spec_approximate(old(self).spec_time()),
                )
            },
            final(self).spec_curve() == old(self).spec_curve(),
            final(self).spec_sample_rate() == old(self).spec_sample_rate(),
    {
        if self.exhausted {
            return None;
        }
        let mut approx = self.curve.approximate(self.time);
        self.time = self.time.add(S::one().div(self.sample_rate));
        if self.threshold.evaluate(&approx) {
            self.exhausted = true;
            approx.value = self.curve.target();
        }
        Some(approx)
    }
}

impl<'a, S: Scalar, T: Scalar, C> Sampler<'a, S, C, And<VelocityThreshold<T>, DisplacementThreshold<T>>> where
    C: Curve<S, Value = T, Velocity = T>,
 {
    /// This function creates a new sampler of the given curve with the given
    /// sample rate. The sample rate is the number of samples per unit of time.
    /// This will use the default thresholds of `1e-3`.
    pub fn new(curve: &'a C, sample_rate: S) -> (r: Sampler<
        'a,
        S,
        C,
        And<VelocityThreshold<T>, DisplacementThreshold<T>>,
    >)
        ensures
            r.spec_curve() == *curve,
            r.spec_sample_rate() == sample_rate,
            r.spec_threshold() == And(
                VelocityThreshold(T::spec_one().spec_div(T::spec_from_int(1000))),
                DisplacementThreshold {
                    target: curve.spec_target(),
                    sensitivity: T::spec_one().spec_div(T::spec_from_int(1000)),
                },
            ),
            r.spec_time() == S::spec_zero(),
            !r.spec_exhausted(),
    {
        let thousandth = T::one().div(T::from_int(1000));
        Self::with_thresholds(curve, sample_rate, thousandth, thousandth)
    }

    /// This function creates a new sampler of the given curve with the given
    /// sample rate and thresholds. Both thresholds must be met in order for
    /// the sampler to rest. The velocity threshold applies to the absolute
    /// velocity at a given time. The displacement threshold applies to the
    /// absolute distance between the current value at a given time and the
    /// target value.
    pub fn with_thresholds(
        curve: &'a C,
        sample_rate: S,
        rest_velocity_threshold: T,
        rest_displacement_threshold: T,
    ) -> (r: Sampler<'a, S, C, And<VelocityThreshold<T>, DisplacementThreshold<T>>>)
        ensures
            r.spec_curve() == *curve,
            r.spec_sample_rate() == sample_rate,
            r.spec_threshold() == And(
                VelocityThreshold(rest_velocity_threshold),
                DisplacementThreshold {
                    target: curve.spec_target(),
                    sensitivity: rest_displacement_threshold,
                },
            ),
            r.spec_time() == S::spec_zero(),
            !r.spec_exhausted(),
    {
        Sampler::with_threshold(
            curve,
            sample_rate,
            And(
                VelocityThreshold(rest_velocity_threshold),
                DisplacementThreshold {
                    target: curve.target(),
                    sensitivity: rest_displacement_threshold,
                },
            ),
        )
    }
}

/// Iterator that yields both the timestamps of each approximation as the
/// approximation itself.
pub struct KeyedIter<'a, S, C, H>(pub Sampler<'a, S, C, H>);

impl<'a, S: Scalar, C, H> KeyedIter<'a, S, C, H> where
    C: Curve<S>,
    H: Threshold<Value = C::Value, Velocity = C::Velocity>,
 {
    /// Returns the time of the next sample together with the sample, or
    /// `None` once the curve rests.
    pub fn next(&mut self) -> (r: Option<(S, Approximation<C::Value, C::Velocity>)>)
        requires
            old(self).0.spec_curve().well_formed(),
        ensures
            old(self).0.spec_exhausted() ==> r is None && *final(self) == *old(self),
            !old(self).0.spec_exhausted() ==> {
                &&& r == Some((old(self).0.spec_time(), old(self).0.spec_sample()))
                &&& final(self).0.spec_exhausted() == old(self).0.spec_threshold().spec_evaluate(
                    old(self).0.spec_curve().spec_approximate(old(self).0.spec_time()),
                )
                &&& final(self).0.spec_time() == old(self).0.spec_time().spec_add(
                    S::spec_one().spec_div(old(self).0.spec_sample_rate()),
                )
                &&& final(self).0.spec_threshold() == old(self).0.spec_threshold().spec_after(
                    old(self).0.spec_curve().spec_approximate(old(self).0.spec_time()),
                )
            },
            final(self).0.spec_curve() == old(self).0.spec_curve(),
            final(self).0.spec_sample_rate() == old(self).0.spec_sample_rate(),
    {
        let time = self.0.time;
        match self.0.next() {
            Some(approx) => Some((time, approx)),
            None => None,
        }
    }
}

} // verus!
