//! Damped harmonic oscillator (DHO) suitable for animation. Time is measured
//! in seconds.

use vstd::prelude::*;
use crate::scalar::{Scalar, two, unit_laws};
use super::curve::{Approximation, Curve};
use crate::linalg::laws::ring_laws;

verus! {

/// This is a spring whose oscillation and velocity we can efficiently
/// approximate.
#[derive(Copy, Clone, Debug)]
pub struct Spring<T> {
    /// Starting value of the animation.
    pub from_value: T,
    /// Ending value of the animation.
    pub to_value: T,
    /// The spring stiffness coefficient.
    pub stiffness: T,
    /// Defines how the spring's motion should be damped due to the forces of
    /// friction.
    pub damping: T,
    /// The mass of the object attached to the end of the spring.
    pub mass: T,
    /// The initial velocity (in units/ms) of the object attached to the spring.
    pub initial_velocity: T,
    /// Whether or not the spring allows "overdamping" (a damping ratio > 1).
    pub allows_overdamping: bool,
    /// False when overshooting is allowed, true when it is not.
    pub overshoot_clamping: bool,
}

impl<T: Scalar> Spring<T> {
    /// One thousand: the number of milliseconds in a second.
    pub open spec fn thousand() -> T {
        T::spec_from_int(1000)
    }

    /// The damping ratio `c / (2 * sqrt(k * m))`.
    pub open spec fn damping_ratio(self) -> T {
        self.damping.spec_div(two::<T>().spec_mul(self.stiffness.spec_mul(self.mass).spec_sqrt()))
    }

    /// The undamped angular frequency `sqrt(k / m) / 1000` (rad/ms).
    pub open spec fn omega0(self) -> T {
        self.stiffness.spec_div(self.mass).spec_sqrt().spec_div(Self::thousand())
    }

    /// `omega0 * sqrt(1 - zeta^2)`, with the unclamped damping ratio.
    pub open spec fn omega1(self) -> T {
        let zeta = self.damping_ratio();
        self.omega0().spec_mul(T::spec_one().spec_sub(zeta.spec_mul(zeta)).spec_sqrt())
    }

    /// `omega0 * sqrt(zeta^2 - 1)`, with the unclamped damping ratio.
    pub open spec fn omega2(self) -> T {
        let zeta = self.damping_ratio();
        self.omega0().spec_mul(zeta.spec_mul(zeta).spec_sub(T::spec_one()).spec_sqrt())
    }

    /// The damping ratio, clamped to one unless overdamping is allowed.
    pub open spec fn effective_ratio(self) -> T {
        let zeta = self.damping_ratio();
        if T::spec_one().spec_lt(zeta) && !self.allows_overdamping {
            T::spec_one()
        } else {
            zeta
        }
    }

    /// `v0 + zeta * omega0 * x0`.
    pub open spec fn weighted_start(self, zeta: T) -> T {
        let v0 = self.initial_velocity.spec_neg();
        let x0 = self.to_value.spec_sub(self.from_value);
        v0.spec_add(zeta.spec_mul(self.omega0()).spec_mul(x0))
    }

    /// The value and velocity of an underdamped spring at time `t` (ms): the
    /// displacement `x0` decays by the envelope `exp(-zeta * omega0 * t)`
    /// while it oscillates at `omega1`, and the velocity is the derivative
    /// of the value.
    pub open spec fn under_damped(self, zeta: T, t: T) -> Approximation<T, T> {
        let omega0 = self.omega0();
        let omega1 = self.omega1();
        let x0 = self.to_value.spec_sub(self.from_value);
        let a = self.weighted_start(zeta);
        let envelope = zeta.spec_neg().spec_mul(omega0).spec_mul(t).spec_exp();
        let sin1 = omega1.spec_mul(t).spec_sin();
        let cos1 = omega1.spec_mul(t).spec_cos();
        let value = self.to_value.spec_sub(
            envelope.spec_mul(a.spec_div(omega1).spec_mul(sin1).spec_add(x0.spec_mul(cos1))),
        );
        let velocity = zeta.spec_mul(omega0).spec_mul(envelope).spec_mul(
            sin1.spec_mul(a).spec_div(omega1).spec_add(x0.spec_mul(cos1)),
        ).spec_sub(envelope.spec_mul(cos1.spec_mul(a).spec_sub(omega1.spec_mul(x0).spec_mul(sin1))));
        Approximation { value, velocity }
    }

    /// The value and velocity of a critically damped spring at time `t` (ms).
    pub open spec fn critically_damped(self, t: T) -> Approximation<T, T> {
        let omega0 = self.omega0();
        let v0 = self.initial_velocity.spec_neg();
        let x0 = self.to_value.spec_sub(self.from_value);
        let envelope = omega0.spec_neg().spec_mul(t).spec_exp();
        let value = self.to_value.spec_sub(
            envelope.spec_mul(x0.spec_add(v0.spec_add(omega0.spec_mul(x0)).spec_mul(t))),
        );
        let velocity = envelope.spec_mul(
            v0.spec_mul(t.spec_mul(omega0).spec_sub(T::spec_one())).spec_add(
                t.spec_mul(x0).spec_mul(omega0.spec_mul(omega0)),
            ),
        );
        Approximation { value, velocity }
    }

    /// The value and velocity of an overdamped spring at time `t` (ms).
    pub open spec fn over_damped(self, zeta: T, t: T) -> Approximation<T, T> {
        let omega0 = self.omega0();
        let omega2 = self.omega2();
        let x0 = self.to_value.spec_sub(self.from_value);
        let a = self.weighted_start(zeta);
        let envelope = zeta.spec_neg().spec_mul(omega0).spec_mul(t).spec_exp();
        let sinh2 = omega2.spec_mul(t).spec_sinh();
        let cosh2 = omega2.spec_mul(t).spec_cosh();
        let value = self.to_value.spec_sub(
            envelope.spec_mul(a.spec_mul(sinh2).spec_add(omega2.spec_mul(x0).spec_mul(cosh2))).spec_div(
                omega2,
            ),
        );
        let velocity = envelope.spec_mul(zeta).spec_mul(omega0).spec_mul(
            sinh2.spec_mul(a).spec_add(x0.spec_mul(omega2).spec_mul(cosh2)),
        ).spec_div(omega2).spec_sub(
            envelope.spec_mul(
                omega2.spec_mul(cosh2).spec_mul(a).spec_add(
                    omega2.spec_mul(omega2).spec_mul(x0).spec_mul(sinh2),
                ),
            ).spec_div(omega2),
        );
        Approximation { value, velocity }
    }

    /// The closed-form oscillation and its derivative at `time` seconds:
    /// underdamped below a damping ratio of one, critically damped at one and
    /// overdamped above one.
    pub open spec fn oscillation(self, time: T) -> Approximation<T, T> {
        let t = time.spec_mul(Self::thousand());
        let zeta = self.effective_ratio();
        if zeta.spec_lt(T::spec_one()) {
            self.under_damped(zeta, t)
        } else if zeta.spec_num_eq(T::spec_one()) {
            self.critically_damped(t)
        } else {
            self.over_damped(zeta, t)
        }
    }

    /// Whether `value` lies beyond `to_value`, seen from `from_value`.
    pub open spec fn overshoots(self, value: T) -> bool {
        ||| self.from_value.spec_lt(self.to_value) && self.to_value.spec_lt(value)
        ||| self.to_value.spec_lt(self.from_value) && value.spec_lt(self.to_value)
    }

    /// With `overshoot_clamping`, an approximation beyond `to_value` becomes
    /// `to_value` at rest; otherwise the approximation is kept.
    pub open spec fn clamp(self, a: Approximation<T, T>) -> Approximation<T, T> {
        if self.overshoot_clamping && self.overshoots(a.value) {
            Approximation { value: self.to_value, velocity: T::spec_zero() }
        } else {
            a
        }
    }

    fn clamp_exec(&self, a: Approximation<T, T>) -> (r: Approximation<T, T>)
        ensures
            r == self.clamp(a),
    {
        if self.overshoot_clamping {
            let beyond = (self.from_value.lt(self.to_value) && self.to_value.lt(a.value))
                || (self.to_value.lt(self.from_value) && a.value.lt(self.to_value));
            if beyond {
                return Approximation { value: self.to_value, velocity: T::zero() };
            }
        }
        a
    }

    fn weighted_start_exec(&self, zeta: T, omega0: T) -> (r: T)
        requires
            omega0 == self.omega0(),
        ensures
            r == self.weighted_start(zeta),
    {
        let v0 = self.initial_velocity.neg();
        let x0 = self.to_value.sub(self.from_value);
        v0.add(zeta.mul(omega0).mul(x0))
    }

    fn under_damped_exec(&self, zeta: T, t: T, omega0: T, omega1: T) -> (r: Approximation<T, T>)
        requires
            omega0 == self.omega0(),
            omega1 == self.omega1(),
        ensures
            r == self.under_damped(zeta, t),
    {
        let x0 = self.to_value.sub(self.from_value);
        let a = self.weighted_start_exec(zeta, omega0);
        let envelope = zeta.neg().mul(omega0).mul(t).exp();
        let sin1 = omega1.mul(t).sin();
        let cos1 = omega1.mul(t).cos();
        let value = self.to_value.sub(envelope.mul(a.div(omega1).mul(sin1).add(x0.mul(cos1))));
        let velocity = zeta.mul(omega0).mul(envelope).mul(sin1.mul(a).div(omega1).add(x0.mul(cos1))).sub(
            envelope.mul(cos1.mul(a).sub(omega1.mul(x0).mul(sin1))),
        );
        Approximation { value, velocity }
    }

    fn critically_damped_exec(&self, t: T, omega0: T) -> (r: Approximation<T, T>)
        requires
            omega0 == self.omega0(),
        ensures
            r == self.critically_damped(t),
    {
        let v0 = self.initial_velocity.neg();
        let x0 = self.to_value.sub(self.from_value);
        let envelope = omega0.neg().mul(t).exp();
        let value = self.to_value.sub(envelope.mul(x0.add(v0.add(omega0.mul(x0)).mul(t))));
        let velocity = envelope.mul(
            v0.mul(t.mul(omega0).sub(T::one())).add(t.mul(x0).mul(omega0.mul(omega0))),
        );
        Approximation { value, velocity }
    }

    fn over_damped_exec(&self, zeta: T, t: T, omega0: T, omega2: T) -> (r: Approximation<T, T>)
        requires
            omega0 == self.omega0(),
            omega2 == self.omega2(),
        ensures
            r == self.over_damped(zeta, t),
    {
        let x0 = self.to_value.sub(self.from_value);
        let a = self.weighted_start_exec(zeta, omega0);
        let envelope = zeta.neg().mul(omega0).mul(t).exp();
        let sinh2 = omega2.mul(t).sinh();
        let cosh2 = omega2.mul(t).cosh();
        let value = self.to_value.sub(
            envelope.mul(a.mul(sinh2).add(omega2.mul(x0).mul(cosh2))).div(omega2),
        );
        let velocity = envelope.mul(zeta).mul(omega0).mul(
            sinh2.mul(a).add(x0.mul(omega2).mul(cosh2)),
        ).div(omega2).sub(
            envelope.mul(omega2.mul(cosh2).mul(a).add(omega2.mul(omega2).mul(x0).mul(sinh2))).div(
                omega2,
            ),
        );
        Approximation { value, velocity }
    }
}

impl<T: Scalar> Curve<T> for Spring<T> {
    type Value = T;

    type Velocity = T;

    /// The oscillation at `time` seconds (see `oscillation`). When `overshoot_clamping` is set and the oscillation has passed
    /// `to_value`, the spring rests at `to_value` with zero velocity.
    open spec fn spec_approximate(&self, time: T) -> Approximation<T, T> {
        self.clamp(self.oscillation(time))
    }

    open spec fn spec_target(&self) -> T {
        self.to_value
    }

    /// The mass, stiffness and damping are positive.
    open spec fn well_formed(&self) -> bool {
        &&& T::spec_zero().spec_lt(self.mass)
        &&& T::spec_zero().spec_lt(self.stiffness)
        &&& T::spec_zero().spec_lt(self.damping)
    }

    /// This function approximates a spring's oscillation and velocity at the
    /// given timestamp.
    fn approximate(&self, time: T) -> (r: Approximation<T, T>) {
        let thousand = T::from_int(1000);
        let time = time.mul(thousand);
        let c = self.damping;
        let m = self.mass;
        let k = self.stiffness;
        let one = T::one();
        let two = one.add(one);
        let mut zeta = c.div(two.mul(k.mul(m).sqrt()));
        let omega0 = k.div(m).sqrt().div(thousand);
        let omega1 = omega0.mul(one.sub(zeta.mul(zeta)).sqrt());
        let omega2 = omega0.mul(zeta.mul(zeta).sub(one).sqrt());
        if one.lt(zeta) && !self.allows_overdamping {
            zeta = one;
        }
        let oscillation = if zeta.lt(one) {
            self.under_damped_exec(zeta, time, omega0, omega1)
        } else if zeta.num_eq(one) {
            self.critically_damped_exec(time, omega0)
        } else {
            self.over_damped_exec(zeta, time, omega0, omega2)
        };
        self.clamp_exec(oscillation)
    }

    fn target(&self) -> (r: T) {
        self.to_value
    }
}

impl<T: Scalar> Default for Spring<T> {
    /// A spring from zero to zero with stiffness 100, damping 10, mass 1 and
    /// initial velocity 1.
    fn default() -> (r: Self)
        ensures
            r == (Spring {
                from_value: T::spec_zero(),
                to_value: T::spec_zero(),
                stiffness: T::spec_from_int(100),
                damping: T::spec_from_int(10),
                mass: T::spec_from_int(1),
                initial_velocity: T::spec_from_int(1),
                allows_overdamping: false,
                overshoot_clamping: false,
            }),
    {
        Spring {
            from_value: T::zero(),
            to_value: T::zero(),
            stiffness: T::from_int(100),
            damping: T::from_int(10),
            mass: T::from_int(1),
            initial_velocity: T::from_int(1),
            allows_overdamping: false,
            overshoot_clamping: false,
        }
    }
}

/// With overshoot clamping, a spring never lies beyond its target: at every
/// time its value is not past `to_value` as seen from `from_value`. This
/// holds of every number type whose `<` is irreflexive at `to_value`.
pub proof fn clamped_spring_never_overshoots<T: Scalar>(spring: Spring<T>, time: T)
    requires
        spring.overshoot_clamping,
        !spring.to_value.spec_lt(spring.to_value),
    ensures
        !spring.overshoots(spring.spec_approximate(time).value),
{
}

/// The facts of real arithmetic and of the functions at zero that the start
/// of a spring rests on: `exp 0 = 1`, `sin 0 = sinh 0 = 0`,
/// `cos 0 = cosh 0 = 1`, `x - (x - y) = y`, `y - (x + y) = -x`,
/// `0 - x = -x`, `x * -1 = -x`, `--x = x`, and the cancellations of a
/// nonzero divisor `0 / y = 0`, `(y * x) / y = x`, `(x * (y * z)) / z = x * y`.
/// An exact number type meets them; an IEEE float misses some of them on
/// some values (rounding, signed zeros).
pub open spec fn start_laws<T: Scalar>() -> bool {
    &&& unit_laws::<T>()
    &&& T::spec_zero().spec_exp() == T::spec_one()
    &&& T::spec_zero().spec_sin() == T::spec_zero()
    &&& T::spec_zero().spec_cos() == T::spec_one()
    &&& T::spec_zero().spec_sinh() == T::spec_zero()
    &&& T::spec_zero().spec_cosh() == T::spec_one()
    &&& forall|x: T, y: T| #[trigger] x.spec_sub(x.spec_sub(y)) == y
    &&& forall|x: T, y: T| #[trigger] y.spec_sub(x.spec_add(y)) == x.spec_neg()
    &&& forall|x: T| #[trigger] T::spec_zero().spec_sub(x) == x.spec_neg()
    &&& forall|x: T| #[trigger] x.spec_mul(T::spec_one().spec_neg()) == x.spec_neg()
    &&& forall|x: T| #[trigger] x.spec_neg().spec_neg() == x
    &&& forall|y: T| y != T::spec_zero() ==> #[trigger] T::spec_zero().spec_div(y) == T::spec_zero()
    &&& forall|x: T, y: T| y != T::spec_zero() ==> #[trigger] y.spec_mul(x).spec_div(y) == x
    &&& forall|x: T, y: T, z: T| z != T::spec_zero() ==> #[trigger] x.spec_mul(y.spec_mul(z)).spec_div(z) == x.spec_mul(y)
}

/// A spring starts where it is released, as fast as it is released: at time
/// zero its value is `from_value` and its velocity `initial_velocity`. The
/// frequency of the regime that the damping ratio selects must be nonzero,
/// and `<` must not hold both ways between the two ends (so that the start
/// is not taken for an overshoot).
pub proof fn spring_starts_at_its_initial_state<T: Scalar>(spring: Spring<T>)
    requires
        start_laws::<T>(),
        spring.effective_ratio().spec_lt(T::spec_one()) ==> spring.omega1() != T::spec_zero(),
        !spring.effective_ratio().spec_lt(T::spec_one()) && !spring.effective_ratio().spec_num_eq(T::spec_one())
            ==> spring.omega2() != T::spec_zero(),
        !(spring.from_value.spec_lt(spring.to_value) && spring.to_value.spec_lt(spring.from_value)),
    ensures
        spring.spec_approximate(T::spec_zero()).value == spring.from_value,
        spring.spec_approximate(T::spec_zero()).velocity == spring.initial_velocity,
{
    let zero = T::spec_zero();
    let one = T::spec_one();
    let t = zero.spec_mul(Spring::<T>::thousand());
    assert(t == zero);
    let zeta = spring.effective_ratio();
    let omega0 = spring.omega0();
    let x0 = spring.to_value.spec_sub(spring.from_value);
    let v0 = spring.initial_velocity.spec_neg();
    let c = zeta.spec_mul(omega0);
    let a = spring.weighted_start(zeta);
    assert(a == v0.spec_add(c.spec_mul(x0)));
    assert(spring.to_value.spec_sub(x0) == spring.from_value);
    assert(c.spec_mul(x0).spec_sub(a) == v0.spec_neg());
    assert(v0.spec_neg() == spring.initial_velocity);
    if zeta.spec_lt(one) {
        let omega1 = spring.omega1();
        assert(zeta.spec_neg().spec_mul(omega0).spec_mul(t) == zero);
        assert(omega1.spec_mul(t) == zero);
        let r = spring.under_damped(zeta, t);
        assert(a.spec_div(omega1).spec_mul(zero) == zero);
        assert(x0.spec_mul(one) == x0);
        assert(zero.spec_add(x0) == x0);
        assert(r.value == spring.from_value);
        assert(zero.spec_mul(a) == zero);
        assert(zero.spec_div(omega1) == zero);
        assert(c.spec_mul(one) == c);
        assert(r.velocity == spring.initial_velocity);
    } else if zeta.spec_num_eq(one) {
        assert(omega0.spec_neg().spec_mul(t) == zero);
        let r = spring.critically_damped(t);
        assert(r.value == spring.from_value);
        assert(t.spec_mul(omega0) == zero);
        assert(zero.spec_sub(one) == one.spec_neg());
        assert(v0.spec_mul(one.spec_neg()) == v0.spec_neg());
        assert(r.velocity == spring.initial_velocity);
    } else {
        let omega2 = spring.omega2();
        assert(zeta.spec_neg().spec_mul(omega0).spec_mul(t) == zero);
        assert(omega2.spec_mul(t) == zero);
        let r = spring.over_damped(zeta, t);
        assert(a.spec_mul(zero) == zero);
        assert(omega2.spec_mul(x0).spec_div(omega2) == x0);
        assert(r.value == spring.from_value);
        assert(one.spec_mul(zeta) == zeta);
        assert(c.spec_mul(x0.spec_mul(omega2)).spec_div(omega2) == c.spec_mul(x0));
        assert(omega2.spec_mul(a).spec_div(omega2) == a);
        assert(r.velocity == spring.initial_velocity);
    }
}

/// The facts of ordered real arithmetic and of `exp` that the settling of a
/// spring rests on: the laws of a commutative ring (`ring_laws`) and
/// `unit_laws`; `-0 = 0`, `(-a) * b = -(a * b)`, `x - (x - y) = y`,
/// `x - x = 0`; sums, products and quotients of nonnegative numbers are
/// nonnegative, and multiplying by a nonnegative number keeps `<=`;
/// `0 <= 0`, `0 <= 1`, `0 <= 1000`, `0 <= sqrt(x)`; and
/// `1 + u <= exp(u)`, `exp(-u) * exp(u) = 1`, `0 <= exp(u)`.
#[verifier::opaque]
pub open spec fn settling_laws<T: Scalar>() -> bool {
    let o = T::spec_zero();
    let i = T::spec_one();
    &&& ring_laws::<T>()
    &&& unit_laws::<T>()
    &&& o.spec_neg() == o
    &&& forall|a: T, b: T| #[trigger] a.spec_neg().spec_mul(b) == a.spec_mul(b).spec_neg()
    &&& forall|x: T, y: T| #[trigger] x.spec_sub(x.spec_sub(y)) == y
    &&& forall|x: T| #[trigger] x.spec_sub(x) == o
    &&& forall|a: T, b: T| o.spec_le(a) && o.spec_le(b) ==> o.spec_le(#[trigger] a.spec_mul(b))
    &&& forall|a: T, b: T| o.spec_le(a) && o.spec_le(b) ==> o.spec_le(#[trigger] a.spec_add(b))
    &&& forall|a: T, b: T| o.spec_le(a) && o.spec_le(b) ==> o.spec_le(#[trigger] a.spec_div(b))
    &&& forall|a: T, b: T, c: T| a.spec_le(b) && o.spec_le(c) ==> #[trigger] c.spec_mul(a).spec_le(
        #[trigger] c.spec_mul(b),
    )
    &&& o.spec_le(o)
    &&& o.spec_le(i)
    &&& o.spec_le(T::spec_from_int(1000))
    &&& forall|x: T| o.spec_le(#[trigger] x.spec_sqrt())
    &&& forall|u: T| #[trigger] i.spec_add(u).spec_le(u.spec_exp())
    &&& forall|u: T| #[trigger] u.spec_neg().spec_exp().spec_mul(u.spec_exp()) == i
    &&& forall|u: T| o.spec_le(#[trigger] u.spec_exp())
}

/// The fraction of the initial distance that a critically damped spring
/// released at rest still has to go after `u = omega0 * t`.
pub open spec fn settling_fraction<T: Scalar>(u: T) -> T {
    u.spec_neg().spec_exp().spec_mul(T::spec_one().spec_add(u))
}

proof fn lemma_mul_comm<T: Scalar>(x: T, y: T)
    requires
        settling_laws::<T>(),
    ensures
        x.spec_mul(y) == y.spec_mul(x),
{
    reveal(settling_laws);
    reveal(ring_laws);
}

proof fn lemma_mul_assoc<T: Scalar>(x: T, y: T, z: T)
    requires
        settling_laws::<T>(),
    ensures
        x.spec_mul(y).spec_mul(z) == x.spec_mul(y.spec_mul(z)),
{
    reveal(settling_laws);
    reveal(ring_laws);
}

proof fn lemma_distribute<T: Scalar>(x: T, y: T, z: T)
    requires
        settling_laws::<T>(),
    ensures
        x.spec_mul(y.spec_add(z)) == x.spec_mul(y).spec_add(x.spec_mul(z)),
{
    reveal(settling_laws);
    reveal(ring_laws);
}

proof fn lemma_settling_facts<T: Scalar>(x: T, y: T, a: T, b: T)
    requires
        settling_laws::<T>(),
    ensures
        T::spec_zero().spec_neg() == T::spec_zero(),
        T::spec_zero().spec_add(x) == x,
        x.spec_mul(T::spec_one()) == x,
        a.spec_neg().spec_mul(b) == a.spec_mul(b).spec_neg(),
        x.spec_sub(x.spec_sub(y)) == y,
        x.spec_sub(x) == T::spec_zero(),
        x.spec_mul(T::spec_zero()) == T::spec_zero(),
{
    reveal(settling_laws);
}

proof fn lemma_settling_distance<T: Scalar>(spring: Spring<T>, t: T)
    requires
        settling_laws::<T>(),
        spring.initial_velocity == T::spec_zero(),
    ensures
        spring.to_value.spec_sub(spring.critically_damped(t).value) == spring.to_value.spec_sub(
            spring.from_value,
        ).spec_mul(settling_fraction(spring.omega0().spec_mul(t))),
{
    let i = T::spec_one();
    let x0 = spring.to_value.spec_sub(spring.from_value);
    let omega0 = spring.omega0();
    let u = omega0.spec_mul(t);
    let w = i.spec_add(u);
    let env = omega0.spec_neg().spec_mul(t).spec_exp();
    let e = env.spec_mul(x0.spec_add(spring.initial_velocity.spec_neg().spec_add(omega0.spec_mul(x0)).spec_mul(t)));
    lemma_settling_facts(omega0.spec_mul(x0), x0, omega0, t);
    lemma_mul_comm(omega0, x0);
    lemma_mul_assoc(x0, omega0, t);
    lemma_distribute(x0, i, u);
    lemma_settling_facts(x0, x0, omega0, t);
    assert(x0.spec_add(omega0.spec_mul(x0).spec_mul(t)) == x0.spec_mul(w));
    assert(env == u.spec_neg().spec_exp());
    lemma_mul_assoc(env, x0, w);
    lemma_mul_comm(env, x0);
    lemma_mul_assoc(x0, env, w);
    assert(e == x0.spec_mul(env.spec_mul(w)));
    lemma_settling_facts(spring.to_value, e, omega0, t);
}

proof fn lemma_settling_fraction_bounds<T: Scalar>(spring: Spring<T>, time: T)
    requires
        settling_laws::<T>(),
        T::spec_zero().spec_le(time),
    ensures
        T::spec_zero().spec_le(settling_fraction(spring.omega0().spec_mul(time.spec_mul(Spring::<T>::thousand())))),
        settling_fraction(spring.omega0().spec_mul(time.spec_mul(Spring::<T>::thousand()))).spec_le(T::spec_one()),
{
    reveal(settling_laws);
    let o = T::spec_zero();
    let i = T::spec_one();
    let t = time.spec_mul(Spring::<T>::thousand());
    let omega0 = spring.omega0();
    let u = omega0.spec_mul(t);
    assert(o.spec_le(t));
    assert(o.spec_le(spring.stiffness.spec_div(spring.mass).spec_sqrt()));
    assert(o.spec_le(omega0));
    assert(o.spec_le(u));
    assert(o.spec_le(i.spec_add(u)));
    assert(o.spec_le(u.spec_neg().spec_exp()));
    assert(i.spec_add(u).spec_le(u.spec_exp()));
    assert(u.spec_neg().spec_exp().spec_mul(i.spec_add(u)).spec_le(u.spec_neg().spec_exp().spec_mul(u.spec_exp())));
}

/// A critically damped spring released at rest (zero initial velocity)
/// settles towards its target without passing it and without moving back
/// past its start: at every time `t >= 0` the distance still to go is the
/// initial distance times a fraction between zero and one.
pub proof fn critically_damped_spring_settles<T: Scalar>(spring: Spring<T>, time: T)
    requires
        settling_laws::<T>(),
        spring.effective_ratio().spec_num_eq(T::spec_one()),
        !spring.effective_ratio().spec_lt(T::spec_one()),
        spring.initial_velocity == T::spec_zero(),
        T::spec_zero().spec_le(time),
    ensures
        exists|g: T|
            T::spec_zero().spec_le(g) && g.spec_le(T::spec_one()) && #[trigger] spring.to_value.spec_sub(
                spring.spec_approximate(time).value,
            ) == spring.to_value.spec_sub(spring.from_value).spec_mul(g),
{
    let o = T::spec_zero();
    let i = T::spec_one();
    let x0 = spring.to_value.spec_sub(spring.from_value);
    let t = time.spec_mul(Spring::<T>::thousand());
    let g = settling_fraction(spring.omega0().spec_mul(t));
    lemma_settling_distance(spring, t);
    lemma_settling_fraction_bounds(spring, time);
    let c = spring.critically_damped(t);
    let r = spring.spec_approximate(time);
    assert(spring.oscillation(time) == c);
    if r.value == spring.to_value {
        lemma_settling_facts(x0, x0, x0, x0);
        lemma_settling_facts(spring.to_value, x0, x0, x0);
        assert(o.spec_le(o) && o.spec_le(i)) by {
            reveal(settling_laws);
        }
        assert(o.spec_le(o) && o.spec_le(i) && spring.to_value.spec_sub(r.value) == x0.spec_mul(o));
    } else {
        assert(r == c);
        assert(o.spec_le(g) && g.spec_le(i) && spring.to_value.spec_sub(r.value) == x0.spec_mul(g));
    }
}

} // verus!
