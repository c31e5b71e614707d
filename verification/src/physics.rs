//! Primitives for a few physics-based types (velocity, angles).

use vstd::prelude::*;
use std::time::Duration;
use crate::scalar::Scalar;
use vstd::std_specs::ops::{AddSpecImpl, SubSpecImpl};

verus! {

/// Represents dy/dt. This type is mostly used for events that involve movement,
/// such as scroll events.
pub struct Velocity<T> {
    delta: T,
    time: Duration,
}

impl<T> Velocity<T> {
    /// The change in value of this sample.
    pub closed spec fn spec_delta(&self) -> T {
        self.delta
    }

    /// The timeframe of this sample.
    pub closed spec fn spec_time(&self) -> Duration {
        self.time
    }

    /// Returns a new velocity with the given delta within the given timeframe.
    pub fn new(delta: T, time: Duration) -> (r: Velocity<T>)
        ensures
            r.spec_delta() == delta,
            r.spec_time() == time,
    {
        Velocity { delta, time }
    }

    /// Returns the change in value of this sample.
    pub fn delta(&self) -> (r: &T)
        ensures
            *r == self.spec_delta(),
    {
        &self.delta
    }

    /// Returns the timeframe of this sample.
    pub fn time(&self) -> (r: Duration)
        ensures
            r == self.spec_time(),
    {
        self.time
    }
}

/// Type-safe representation for angles.
#[derive(Copy, Clone, Debug, Default, Eq, PartialEq)]
pub struct Angle<T> {
    radians: T,
}

impl<T: Scalar> Angle<T> {
    /// The size of this angle in radians.
    pub closed spec fn spec_radians(self) -> T {
        self.radians
    }

    /// The angle of the given radians.
    pub closed spec fn spec_from_radians(radians: T) -> Angle<T> {
        Angle { radians }
    }

    /// The radians of an angle of the given degrees.
    pub open spec fn degrees_to_radians(degrees: T) -> T {
        degrees.spec_div(T::spec_from_int(180)).spec_mul(T::spec_pi())
    }

    /// The degrees of an angle of the given radians.
    pub open spec fn radians_to_degrees(radians: T) -> T {
        radians.spec_div(T::spec_pi()).spec_mul(T::spec_from_int(180))
    }

    /// Returns a new angle with the given radians.
    pub fn with_radians(radians: T) -> (r: Angle<T>)
        ensures
            r == Self::spec_from_radians(radians),
            r.spec_radians() == radians,
    {
        Angle { radians }
    }

    /// Converts the given angle to radians.
    pub fn to_radians(&self) -> (r: T)
        ensures
            r == self.spec_radians(),
    {
        self.radians
    }

    /// Returns a new angle with the given degrees.
    pub fn with_degrees(degrees: T) -> (r: Angle<T>)
        ensures
            r == Self::spec_from_radians(Self::degrees_to_radians(degrees)),
            r.spec_radians() == Self::degrees_to_radians(degrees),
    {
        Angle { radians: degrees.div(T::from_int(180)).mul(T::pi()) }
    }

    /// Converts the given angle to degrees.
    pub fn to_degrees(&self) -> (r: T)
        ensures
            r == Self::radians_to_degrees(self.spec_radians()),
    {
        self.radians.div(T::pi()).mul(T::from_int(180))
    }

    /// Returns the sum of this angle and the given angle.
    pub fn plus(&self, rhs: &Angle<T>) -> (r: Angle<T>)
        ensures
            r == Self::spec_from_radians(self.spec_radians().spec_add(rhs.spec_radians())),
            r.spec_radians() == self.spec_radians().spec_add(rhs.spec_radians()),
    {
        Angle { radians: self.radians.add(rhs.radians) }
    }

    /// Returns the difference of this angle and the given angle.
    pub fn minus(&self, rhs: &Angle<T>) -> (r: Angle<T>)
        ensures
            r == Self::spec_from_radians(self.spec_radians().spec_sub(rhs.spec_radians())),
            r.spec_radians() == self.spec_radians().spec_sub(rhs.spec_radians()),
    {
        Angle { radians: self.radians.sub(rhs.radians) }
    }
}

impl<'a, T: Scalar> std::ops::Add for &'a Angle<T> {
    type Output = Angle<T>;

    fn add(self, rhs: &'a Angle<T>) -> (r: Angle<T>) {
        self.plus(rhs)
    }
}

impl<'a, T: Scalar> AddSpecImpl for &'a Angle<T> {
    open spec fn obeys_add_spec() -> bool {
        true
    }

    open spec fn add_req(self, rhs: &'a Angle<T>) -> bool {
        true
    }

    open spec fn add_spec(self, rhs: &'a Angle<T>) -> Angle<T> {
        Angle::spec_from_radians(self.spec_radians().spec_add(rhs.spec_radians()))
    }
}

impl<'a, T: Scalar> SubSpecImpl for &'a Angle<T> {
    open spec fn obeys_sub_spec() -> bool {
        true
    }

    open spec fn sub_req(self, rhs: &'a Angle<T>) -> bool {
        true
    }

    open spec fn sub_spec(self, rhs: &'a Angle<T>) -> Angle<T> {
        Angle::spec_from_radians(self.spec_radians().spec_sub(rhs.spec_radians()))
    }
}

impl<'a, T: Scalar> std::ops::Sub for &'a Angle<T> {
    type Output = Angle<T>;

    fn sub(self, rhs: &'a Angle<T>) -> (r: Angle<T>) {
        self.minus(rhs)
    }
}

/// The facts of real division that converting angles rests on, for a
/// nonzero divisor `y`: `(x * y) / y = x`, `(x / y) * y = x` and `y / y = 1`,
/// and `1 * x = x`. An exact number type meets them; an IEEE float only up
/// to rounding.
pub open spec fn quotient_laws<T: Scalar>() -> bool {
    &&& forall|x: T, y: T| y != T::spec_zero() ==> #[trigger] x.spec_mul(y).spec_div(y) == x
    &&& forall|x: T, y: T| y != T::spec_zero() ==> #[trigger] x.spec_div(y).spec_mul(y) == x
    &&& forall|y: T| y != T::spec_zero() ==> #[trigger] y.spec_div(y) == T::spec_one()
    &&& forall|x: T| #[trigger] T::spec_one().spec_mul(x) == x
}

/// Degrees converted to an angle and back are the same degrees, and the
/// angle of pi radians has 180 degrees.
pub proof fn degrees_round_trip<T: Scalar>(degrees: T)
    requires
        quotient_laws::<T>(),
        T::spec_pi() != T::spec_zero(),
        T::spec_from_int(180) != T::spec_zero(),
    ensures
        Angle::<T>::radians_to_degrees(Angle::<T>::degrees_to_radians(degrees)) == degrees,
        Angle::<T>::radians_to_degrees(T::spec_pi()) == T::spec_from_int(180),
{
    let x = degrees.spec_div(T::spec_from_int(180));
    assert(x.spec_mul(T::spec_pi()).spec_div(T::spec_pi()) == x);
    assert(x.spec_mul(T::spec_from_int(180)) == degrees);
    assert(T::spec_pi().spec_div(T::spec_pi()) == T::spec_one());
}

} // verus!
