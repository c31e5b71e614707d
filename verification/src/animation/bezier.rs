//! Cubic Bezier curves suitable for animation.

use vstd::prelude::*;
use super::curve::Approximation;
use crate::scalar::{Scalar, two};

verus! {

/// Cubic Bezier curve that is scaled to the given domain and range.
#[derive(Copy, Debug)]
pub struct Bezier<T> {
    /// This is the start coordinate of the range of the Bezier curve.
    pub from_value: T,
    /// This is the end coordinate of the range of the Bezier curve.
    pub to_value: T,
    /// This is the scale of the domain of the Bezier curve.
    pub duration: T,
    /// These are the two dynamic control points (`P_1` and `P_2`). The first and
    /// last control points (`P_0` and `P_3`) are fixed to `(0, 0)` and `(1, 1)`
    /// respectively.
    pub control_points: [(T, T); 2],
}

impl<T: Copy> Clone for Bezier<T> {
    fn clone(&self) -> (r: Self)
        ensures
            r == *self,
    {
        *self
    }
}

/// Polynomial coefficients of a 2D cubic Bezier curve.
///
/// In general, a cubic Bezier curve can be represented by
/// `x = a * t^3 + b * t^2 + c * t` (where `x`, `a`, `b` and `c` are vectors).
pub struct BezierCoefficients<T> {
    /// This is the third and last coefficient (excluding the constant).
    pub c: (T, T),
    /// This is the second coefficient.
    pub b: (T, T),
    /// This is the first coefficient.
    pub a: (T, T),
}

/// Three, computed as `1 + (1 + 1)`.
pub open spec fn three<T: Scalar>() -> T {
    T::spec_one().spec_add(two::<T>())
}

/// `v` clamped to `[0.001, 0.999]` (first raised to the lower bound, then
/// lowered to the upper bound).
pub open spec fn clamp_control<T: Scalar>(v: T) -> T {
    let alpha = T::spec_one().spec_div(T::spec_from_int(1000));
    let beta = T::spec_one().spec_sub(alpha);
    v.spec_max(alpha).spec_min(beta)
}

/// `((a * t + b) * t + c) * t`.
pub open spec fn cubic<T: Scalar>(a: T, b: T, c: T, t: T) -> T {
    a.spec_mul(t).spec_add(b).spec_mul(t).spec_add(c).spec_mul(t)
}

/// `(3 * a * t + 2 * b) * t + c`, the derivative of `cubic`.
pub open spec fn cubic_derivative<T: Scalar>(a: T, b: T, c: T, t: T) -> T {
    three::<T>().spec_mul(a).spec_mul(t).spec_add(two::<T>().spec_mul(b)).spec_mul(t).spec_add(c)
}

impl<T: Scalar> BezierCoefficients<T> {
    /// The coefficients of the curve through `(0, 0)`, the given control
    /// points (each coordinate clamped to `[0.001, 0.999]`) and `(1, 1)`.
    pub open spec fn spec_new(points: [(T, T); 2]) -> (T, T, T, T, T, T) {
        let one = T::spec_one();
        let p0 = (clamp_control(points[0].0), clamp_control(points[0].1));
        let p1 = (clamp_control(points[1].0), clamp_control(points[1].1));
        let c = (three::<T>().spec_mul(p0.0), three::<T>().spec_mul(p0.1));
        let b = (
            three::<T>().spec_mul(p1.0.spec_sub(p0.0)).spec_sub(c.0),
            three::<T>().spec_mul(p1.1.spec_sub(p0.1)).spec_sub(c.1),
        );
        let a = (one.spec_sub(c.0).spec_sub(b.0), one.spec_sub(c.1).spec_sub(b.1));
        (a.0, a.1, b.0, b.1, c.0, c.1)
    }

    /// The coefficients as `(a.0, a.1, b.0, b.1, c.0, c.1)`.
    pub open spec fn flat(self) -> (T, T, T, T, T, T) {
        (self.a.0, self.a.1, self.b.0, self.b.1, self.c.0, self.c.1)
    }

    /// This function precomputes the coefficients of a 3rd degree polynomial
    /// for a cubic Bezier curve. The control point coordinates are first
    /// moved into `[0.001, 0.999]` so that the derivative of `x` with respect
    /// to `t` is positive.
    pub fn new(points: [(T, T); 2]) -> (r: BezierCoefficients<T>)
        ensures
            r.flat() == Self::spec_new(points),
    {
        let one = T::one();
        let two = one.add(one);
        let three = one.add(two);
        let alpha = one.div(T::from_int(1000));
        let beta = one.sub(alpha);
        let p0 = (points[0].0.max(alpha).min(beta), points[0].1.max(alpha).min(beta));
        let p1 = (points[1].0.max(alpha).min(beta), points[1].1.max(alpha).min(beta));
        let c = (three.mul(p0.0), three.mul(p0.1));
        let b = (three.mul(p1.0.sub(p0.0)).sub(c.0), three.mul(p1.1.sub(p0.1)).sub(c.1));
        let a = (one.sub(c.0).sub(b.0), one.sub(c.1).sub(b.1));
        BezierCoefficients { c, b, a }
    }

    /// This function computes the `x` coordinate for a given `t` argument.
    pub fn sample_x(&self, t: T) -> (r: T)
        ensures
            r == cubic(self.a.0, self.b.0, self.c.0, t),
    {
        self.a.0.mul(t).add(self.b.0).mul(t).add(self.c.0).mul(t)
    }

    /// This function computes the `y` coordinate for a given `t` argument.
    pub fn sample_y(&self, t: T) -> (r: T)
        ensures
            r == cubic(self.a.1, self.b.1, self.c.1, t),
    {
        self.a.1.mul(t).add(self.b.1).mul(t).add(self.c.1).mul(t)
    }

    /// This function computes the derivative of the `x` coordinate with respect
    /// to `t` for a given `t` argument.
    pub fn sample_dxdt(&self, t: T) -> (r: T)
        ensures
            r == cubic_derivative(self.a.0, self.b.0, self.c.0, t),
    {
        let one = T::one();
        let two = one.add(one);
        let three = one.add(two);
        three.mul(self.a.0).mul(t).add(two.mul(self.b.0)).mul(t).add(self.c.0)
    }

    /// This function computes the derivative of the `y` coordinate with respect
    /// to `t` for a given `t` argument.
    pub fn sample_dydt(&self, t: T) -> (r: T)
        ensures
            r == cubic_derivative(self.a.1, self.b.1, self.c.1, t),
    {
        let one = T::one();
        let two = one.add(one);
        let three = one.add(two);
        three.mul(self.a.1).mul(t).add(two.mul(self.b.1)).mul(t).add(self.c.1)
    }

    /// This function computes the derivative of the `y` coordinate with respect
    /// to `x` for a given `t` argument.
    pub fn sample_dydx(&self, t: T) -> (r: T)
        ensures
            r == cubic_derivative(self.a.1, self.b.1, self.c.1, t).spec_div(
                cubic_derivative(self.a.0, self.b.0, self.c.0, t),
            ),
    {
        let dxdt = self.sample_dxdt(t);
        self.sample_dydt(t).div(dxdt)
    }
}

impl<T: Scalar> Bezier<T> {
    /// This function returns the 3rd degree polynomial coefficients for this
    /// cubic Bezier curve.
    pub fn coefficients(&self) -> (r: BezierCoefficients<T>)
        ensures
            r.flat() == BezierCoefficients::<T>::spec_new(self.control_points),
    {
        BezierCoefficients::new(self.control_points)
    }

    /// The fraction of the duration that has passed at `time`, clamped to
    /// `[0, 1]`.
    pub open spec fn spec_progress(self, time: T) -> T {
        time.spec_div(self.duration).spec_max(T::spec_zero()).spec_min(T::spec_one())
    }

    /// The value and velocity of this easing at the progress `x`, given the
    /// parameter `t` at which the curve reaches `x`: the `y` coordinate
    /// scaled to the change of value, and its slope scaled the same way
    /// (zero once the easing has ended).
    pub open spec fn spec_approximation_at(self, coefficients: BezierCoefficients<T>, x: T, t: T) -> Approximation<T, T> {
        let delta = self.to_value.spec_sub(self.from_value);
        Approximation {
            value: cubic(coefficients.a.1, coefficients.b.1, coefficients.c.1, t).spec_mul(delta).spec_add(
                self.from_value,
            ),
            velocity: if x.spec_num_eq(T::spec_one()) {
                T::spec_zero()
            } else {
                cubic_derivative(coefficients.a.1, coefficients.b.1, coefficients.c.1, t).spec_div(
                    cubic_derivative(coefficients.a.0, coefficients.b.0, coefficients.c.0, t),
                ).spec_mul(delta)
            },
        }
    }

    /// Returns the fraction of the duration that has passed at `time`,
    /// clamped to `[0, 1]`.
    pub fn progress(&self, time: T) -> (r: T)
        ensures
            r == self.spec_progress(time),
    {
        time.div(self.duration).max(T::zero()).min(T::one())
    }

    /// Returns the value and velocity of this easing at the progress `x`,
    /// given the parameter `t` at which the curve reaches `x`.
    pub fn approximation_at(&self, coefficients: &BezierCoefficients<T>, x: T, t: T) -> (r: Approximation<T, T>)
        ensures
            r == self.spec_approximation_at(*coefficients, x, t),
    {
        let delta = self.to_value.sub(self.from_value);
        Approximation {
            value: coefficients.sample_y(t).mul(delta).add(self.from_value),
            velocity: if x.num_eq(T::one()) {
                T::zero()
            } else {
                coefficients.sample_dydx(t).mul(delta)
            },
        }
    }

    /// This function returns the target value of this curve.
    pub fn target(&self) -> (r: T)
        ensures
            r == self.to_value,
    {
        self.to_value
    }
}

/// The facts of real arithmetic that the ends of a Bezier easing rest on:
/// `unit_laws` and `(x - y) + y = x`.
pub open spec fn endpoint_laws<T: Scalar>() -> bool {
    &&& crate::scalar::unit_laws::<T>()
    &&& forall|x: T, y: T| #[trigger] x.spec_sub(y).spec_add(y) == x
}

/// Every cubic Bezier easing starts at `(0, 0)` and ends at `(1, 1)`,
/// whatever its control points, so an easing starts at `from_value` and
/// ends at `to_value`.
pub proof fn bezier_easing_ends_at_its_ends<T: Scalar>(bezier: Bezier<T>)
    requires
        endpoint_laws::<T>(),
    ensures
        ({
            let (ax, ay, bx, by, cx, cy) = BezierCoefficients::<T>::spec_new(bezier.control_points);
            &&& cubic(ax, bx, cx, T::spec_zero()) == T::spec_zero()
            &&& cubic(ay, by, cy, T::spec_zero()) == T::spec_zero()
            &&& cubic(ax, bx, cx, T::spec_one()) == T::spec_one()
            &&& cubic(ay, by, cy, T::spec_one()) == T::spec_one()
            &&& bezier.spec_approximation_at(
                BezierCoefficients { a: (ax, ay), b: (bx, by), c: (cx, cy) },
                T::spec_zero(),
                T::spec_zero(),
            ).value == bezier.from_value
            &&& bezier.spec_approximation_at(
                BezierCoefficients { a: (ax, ay), b: (bx, by), c: (cx, cy) },
                T::spec_one(),
                T::spec_one(),
            ).value == bezier.to_value
        }),
{
    let (ax, ay, bx, by, cx, cy) = BezierCoefficients::<T>::spec_new(bezier.control_points);
    let one = T::spec_one();
    assert(one.spec_sub(cx).spec_sub(bx).spec_add(bx) == one.spec_sub(cx));
    assert(one.spec_sub(cx).spec_add(cx) == one);
    assert(one.spec_sub(cy).spec_sub(by).spec_add(by) == one.spec_sub(cy));
    assert(one.spec_sub(cy).spec_add(cy) == one);
    let delta = bezier.to_value.spec_sub(bezier.from_value);
    assert(delta.spec_add(bezier.from_value) == bezier.to_value);
}

} // verus!
