use polyhorn::linalg::inter::Decomposition3D;
use polyhorn::linalg::{Point3D, Quaternion3D, Transform3D};
use polyhorn::scalar::Scalar;
use polyhorn::animation::delay::Delay;
use polyhorn::animation::decay::Decay;
use polyhorn::animation::threshold::{And, DisplacementThreshold, VelocityThreshold};
use polyhorn::animation::{Approximation, Curve, Sampler, Threshold};
use polyhorn::physics::{Angle, Velocity};
use std::time::Duration;

#[derive(Copy, Clone, Debug, PartialEq, PartialOrd)]
struct F64(f64);

impl Scalar for F64 {
    fn zero() -> Self { F64(0.0) }
    fn one() -> Self { F64(1.0) }
    fn from_int(n: i32) -> Self { F64(n as f64) }
    fn pi() -> Self { F64(std::f64::consts::PI) }
    fn add(self, o: Self) -> Self { F64(self.0 + o.0) }
    fn sub(self, o: Self) -> Self { F64(self.0 - o.0) }
    fn mul(self, o: Self) -> Self { F64(self.0 * o.0) }
    fn div(self, o: Self) -> Self { F64(self.0 / o.0) }
    fn neg(self) -> Self { F64(-self.0) }
    fn recip(self) -> Self { F64(self.0.recip()) }
    fn abs(self) -> Self { F64(self.0.abs()) }
    fn sqrt(self) -> Self { F64(self.0.sqrt()) }
    fn sin(self) -> Self { F64(self.0.sin()) }
    fn cos(self) -> Self { F64(self.0.cos()) }
    fn tan(self) -> Self { F64(self.0.tan()) }
    fn acos(self) -> Self { F64(self.0.acos()) }
    fn exp(self) -> Self { F64(self.0.exp()) }
    fn sinh(self) -> Self { F64(self.0.sinh()) }
    fn cosh(self) -> Self { F64(self.0.cosh()) }
    fn min(self, o: Self) -> Self { F64(self.0.min(o.0)) }
    fn max(self, o: Self) -> Self { F64(self.0.max(o.0)) }
    fn lt(self, o: Self) -> bool { self.0 < o.0 }
    fn le(self, o: Self) -> bool { self.0 <= o.0 }
    fn num_eq(self, o: Self) -> bool { self.0 == o.0 }
    fn spec_zero() -> Self { Self::zero() }
    fn spec_one() -> Self { Self::one() }
    fn spec_from_int(n: i32) -> Self { Self::from_int(n) }
    fn spec_pi() -> Self { Self::pi() }
    fn spec_add(self, o: Self) -> Self { self.add(o) }
    fn spec_sub(self, o: Self) -> Self { self.sub(o) }
    fn spec_mul(self, o: Self) -> Self { self.mul(o) }
    fn spec_div(self, o: Self) -> Self { self.div(o) }
    fn spec_neg(self) -> Self { self.neg() }
    fn spec_recip(self) -> Self { self.recip() }
    fn spec_abs(self) -> Self { self.abs() }
    fn spec_sqrt(self) -> Self { self.sqrt() }
    fn spec_sin(self) -> Self { self.sin() }
    fn spec_cos(self) -> Self { self.cos() }
    fn spec_tan(self) -> Self { self.tan() }
    fn spec_acos(self) -> Self { self.acos() }
    fn spec_exp(self) -> Self { self.exp() }
    fn spec_sinh(self) -> Self { self.sinh() }
    fn spec_cosh(self) -> Self { self.cosh() }
    fn spec_min(self, o: Self) -> Self { self.min(o) }
    fn spec_max(self, o: Self) -> Self { self.max(o) }
    fn spec_lt(self, o: Self) -> bool { self.lt(o) }
    fn spec_le(self, o: Self) -> bool { self.le(o) }
    fn spec_num_eq(self, o: Self) -> bool { self.num_eq(o) }
}

#[derive(Copy, Clone, Debug, PartialEq, PartialOrd)]
struct F32(f32);

impl Scalar for F32 {
    fn zero() -> Self { F32(0.0) }
    fn one() -> Self { F32(1.0) }
    fn from_int(n: i32) -> Self { F32(n as f32) }
    fn pi() -> Self { F32(std::f32::consts::PI) }
    fn add(self, o: Self) -> Self { F32(self.0 + o.0) }
    fn sub(self, o: Self) -> Self { F32(self.0 - o.0) }
    fn mul(self, o: Self) -> Self { F32(self.0 * o.0) }
    fn div(self, o: Self) -> Self { F32(self.0 / o.0) }
    fn neg(self) -> Self { F32(-self.0) }
    fn recip(self) -> Self { F32(self.0.recip()) }
    fn abs(self) -> Self { F32(self.0.abs()) }
    fn sqrt(self) -> Self { F32(self.0.sqrt()) }
    fn sin(self) -> Self { F32(self.0.sin()) }
    fn cos(self) -> Self { F32(self.0.cos()) }
    fn tan(self) -> Self { F32(self.0.tan()) }
    fn acos(self) -> Self { F32(self.0.acos()) }
    fn exp(self) -> Self { F32(self.0.exp()) }
    fn sinh(self) -> Self { F32(self.0.sinh()) }
    fn cosh(self) -> Self { F32(self.0.cosh()) }
    fn min(self, o: Self) -> Self { F32(self.0.min(o.0)) }
    fn max(self, o: Self) -> Self { F32(self.0.max(o.0)) }
    fn lt(self, o: Self) -> bool { self.0 < o.0 }
    fn le(self, o: Self) -> bool { self.0 <= o.0 }
    fn num_eq(self, o: Self) -> bool { self.0 == o.0 }
    fn spec_zero() -> Self { Self::zero() }
    fn spec_one() -> Self { Self::one() }
    fn spec_from_int(n: i32) -> Self { Self::from_int(n) }
    fn spec_pi() -> Self { Self::pi() }
    fn spec_add(self, o: Self) -> Self { self.add(o) }
    fn spec_sub(self, o: Self) -> Self { self.sub(o) }
    fn spec_mul(self, o: Self) -> Self { self.mul(o) }
    fn spec_div(self, o: Self) -> Self { self.div(o) }
    fn spec_neg(self) -> Self { self.neg() }
    fn spec_recip(self) -> Self { self.recip() }
    fn spec_abs(self) -> Self { self.abs() }
    fn spec_sqrt(self) -> Self { self.sqrt() }
    fn spec_sin(self) -> Self { self.sin() }
    fn spec_cos(self) -> Self { self.cos() }
    fn spec_tan(self) -> Self { self.tan() }
    fn spec_acos(self) -> Self { self.acos() }
    fn spec_exp(self) -> Self { self.exp() }
    fn spec_sinh(self) -> Self { self.sinh() }
    fn spec_cosh(self) -> Self { self.cosh() }
    fn spec_min(self, o: Self) -> Self { self.min(o) }
    fn spec_max(self, o: Self) -> Self { self.max(o) }
    fn spec_lt(self, o: Self) -> bool { self.lt(o) }
    fn spec_le(self, o: Self) -> bool { self.le(o) }
    fn spec_num_eq(self, o: Self) -> bool { self.num_eq(o) }
}

fn d(v: f64) -> F64 {
    F64(v)
}

fn m64(c: [[f64; 4]; 4]) -> Transform3D<F64> {
    Transform3D::new(c).map(F64)
}

fn s(v: f32) -> F32 {
    F32(v)
}

const PI64: f64 = std::f64::consts::PI;
const PI32: f32 = std::f32::consts::PI;

fn q64(angle: f64, x: f64, y: f64, z: f64) -> Quaternion3D<F64> {
    Quaternion3D::with_angle(d(angle), d(x), d(y), d(z))
}

fn q32(angle: f32, x: f32, y: f32, z: f32) -> Quaternion3D<F32> {
    Quaternion3D::with_angle(s(angle), s(x), s(y), s(z))
}

fn interpolate(a: Transform3D<F32>, b: Transform3D<F32>, t: F32) -> Transform3D<F32> {
    let ad = Decomposition3D::decompose(a).unwrap();
    let bd = Decomposition3D::decompose(b).unwrap();
    let cd = ad.interpolate(&bd, t);
    cd.recompose()
}

#[test]
fn test_transform3d_concat() {
    assert_eq!(
        Transform3D::with_scale(d(2.0), d(3.0), d(1.0)).translate(d(42.0), d(8.0), d(0.0)),
        m64([
            [2.0, 0.0, 0.0, 0.0],
            [0.0, 3.0, 0.0, 0.0],
            [0.0, 0.0, 1.0, 0.0],
            [84.0, 24.0, 0.0, 1.0]
        ])
    );

    assert_eq!(
        Transform3D::with_translation(d(42.0), d(8.0), d(0.0))
            .rotate(q64(90.0 / 180.0 * PI64, 0.0, 0.0, 1.0)),
        m64([
            [0.0, 1.0, 0.0, 0.0],
            [-1.0, 0.0, 0.0, 0.0],
            [0.0, 0.0, 1.0, 0.0],
            [42.0, 8.0, 0.0, 1.0]
        ])
    );

    assert_eq!(
        Transform3D::with_rotation(q64(90.0 / 180.0 * PI64, 0.0, 0.0, 1.0))
            .translate(d(42.0), d(8.0), d(0.0)),
        m64([
            [0.0, 1.0, 0.0, 0.0],
            [-1.0, 0.0, 0.0, 0.0],
            [0.0, 0.0, 1.0, 0.0],
            [-8.0, 42.0, 0.0, 1.0]
        ])
    );
}

#[test]
fn test_transform3d_rotate() {
    let transform = Transform3D::with_rotation(q64(90.0 / 180.0 * PI64, 0.0, 0.0, 1.0));
    assert_eq!(
        transform,
        m64([
            [0.0, 1.0, 0.0, 0.0],
            [-1.0, 0.0, 0.0, 0.0],
            [0.0, 0.0, 1.0, 0.0],
            [0.0, 0.0, 0.0, 1.0]
        ])
    );

    let transform = Transform3D::with_rotation(q64(180.0 / 180.0 * PI64, 0.0, 0.0, 1.0));
    assert_eq!(
        transform,
        m64([
            [-1.0, 0.0, 0.0, 0.0],
            [0.0, -1.0, 0.0, 0.0],
            [0.0, 0.0, 1.0, 0.0],
            [0.0, 0.0, 0.0, 1.0]
        ])
    );

    let transform = Transform3D::with_rotation(q64(90.0 / 180.0 * PI64, 0.0, 0.0, 2.0));
    assert_eq!(
        transform,
        m64([
            [-1.0, 0.0, 0.0, 0.0],
            [0.0, -1.0, 0.0, 0.0],
            [0.0, 0.0, 1.0, 0.0],
            [0.0, 0.0, 0.0, 1.0]
        ])
    );

    let transform = Transform3D::with_rotation(q64(45.0 / 180.0 * PI64, 0.0, 0.0, 1.0));
    let transform = transform.rotate(q64(135.0 / 180.0 * PI64, 0.0, 0.0, 1.0));
    assert_eq!(
        transform,
        m64([
            [-1.0, 0.0, 0.0, 0.0],
            [0.0, -1.0, 0.0, 0.0],
            [0.0, 0.0, 1.0, 0.0],
            [0.0, 0.0, 0.0, 1.0]
        ])
    );

    let transform = Transform3D::with_rotation(q64(180.0 / 180.0 * PI64, 0.0, 0.0, 0.3));
    let transform = transform.rotate(q64(180.0 / 180.0 * PI64, 0.0, 0.0, 0.7));
    assert_eq!(
        transform,
        m64([
            [-1.0, 0.0, 0.0, 0.0],
            [0.0, -1.0, 0.0, 0.0],
            [0.0, 0.0, 1.0, 0.0],
            [0.0, 0.0, 0.0, 1.0]
        ])
    );
}

#[test]
fn test_transform3d_apply() {
    let transform = Transform3D::with_translation(d(0.0), d(100.0), d(0.0));
    assert_eq!(
        transform.apply(Point3D::new(d(42.0), d(3.0), d(0.0))),
        Point3D::new(d(42.0), d(103.0), d(0.0))
    );

    let transform = Transform3D::identity()
        .translate(d(0.0), d(100.0), d(0.0))
        .scale(d(2.0), d(2.0), d(1.0));

    assert_eq!(
        transform.apply(Point3D::new(d(42.0), d(3.0), d(0.0))),
        Point3D::new(d(84.0), d(106.0), d(0.0))
    );
}

#[test]
fn test_halfway_rotation() {
    assert_eq!(
        interpolate(
            Transform3D::identity(),
            Transform3D::with_rotation(q32(90.0 / 180.0 * PI32, 0.0, 0.0, 1.0)),
            s(0.0)
        ),
        Transform3D::with_rotation(q32(0.0 / 180.0 * PI32, 0.0, 0.0, 1.0))
    );

    assert_eq!(
        interpolate(
            Transform3D::identity(),
            Transform3D::with_rotation(q32(90.0 / 180.0 * PI32, 0.0, 0.0, 1.0)),
            s(1.0)
        ),
        Transform3D::with_rotation(q32(90.0 / 180.0 * PI32, 0.0, 0.0, 1.0))
    );
}

#[test]
fn test_halfway_rotation_nonunit() {
    assert_eq!(
        interpolate(
            Transform3D::identity(),
            Transform3D::with_rotation(q32(90.0 / 180.0 * PI32, 0.5, 0.3, 0.8)),
            s(0.5)
        ),
        Transform3D::with_rotation(q32(45.0 / 180.0 * PI32, 0.5, 0.3, 0.8))
    );
}

#[test]
fn test_halfway_translation() {
    assert_eq!(
        interpolate(
            Transform3D::identity(),
            Transform3D::with_translation(s(160.0), s(20.0), s(10.0)),
            s(0.5)
        ),
        Transform3D::with_translation(s(80.0), s(10.0), s(5.0))
    );

    assert_eq!(
        interpolate(
            Transform3D::with_translation(s(160.0), s(20.0), s(10.0)),
            Transform3D::identity(),
            s(0.5)
        ),
        Transform3D::with_translation(s(80.0), s(10.0), s(5.0))
    );

    assert_eq!(
        interpolate(
            Transform3D::identity(),
            Transform3D::with_translation(s(-160.0), s(-20.0), s(10.0)),
            s(0.5)
        ),
        Transform3D::with_translation(s(-80.0), s(-10.0), s(5.0))
    );

    assert_eq!(
        interpolate(
            Transform3D::with_translation(s(-160.0), s(-20.0), s(10.0)),
            Transform3D::identity(),
            s(0.5)
        ),
        Transform3D::with_translation(s(-80.0), s(-10.0), s(5.0))
    );
}

#[test]
fn test_decomposition_1() {
    let transform = Transform3D::with_translation(s(160.0), s(20.0), s(10.0))
        .rotate(q32(90.0 / 180.0 * PI32, 0.0, 0.0, 1.0));

    let decomposition = Decomposition3D::decompose(transform).unwrap();

    let distance = decomposition
        .quaternion
        .subtract(&q32(90.0 / 180.0 * PI32, 0.0, 0.0, 1.0));

    assert!(distance.dot(&distance).0 <= 0.001);
}

#[test]
fn test_decomposition_2() {
    let transform = Transform3D::with_translation(s(160.0), s(20.0), s(10.0))
        .rotate(q32(90.0 / 180.0 * PI32, 0.0, 0.0, 1.0));

    let decomposition = Decomposition3D::decompose(transform).unwrap();

    assert_eq!(decomposition.translation, [s(160.0), s(20.0), s(10.0)]);

    let distance = decomposition
        .quaternion
        .subtract(&q32(90.0 / 180.0 * PI32, 0.0, 0.0, 1.0));

    assert!(distance.dot(&distance).0 <= 0.001);
}

#[test]
fn test_interpolation() {
    let start = Transform3D::identity();
    let end = Transform3D::with_translation(s(160.0), s(20.0), s(10.0))
        .rotate(q32(90.0 / 180.0 * PI32, 0.0, 0.0, 1.0));

    let start = Decomposition3D::decompose(start).unwrap();
    let end = Decomposition3D::decompose(end).unwrap();

    let mid = start.interpolate(&end, s(0.5));

    assert_eq!(mid.translation, [s(80.0), s(10.0), s(5.0)]);

    let distance = mid
        .quaternion
        .subtract(&q32(45.0 / 180.0 * PI32, 0.0, 0.0, 1.0));

    assert!(distance.dot(&distance).0 <= 0.001);
}

#[test]
fn test_complex() {
    assert_eq!(
        interpolate(
            Transform3D::identity(),
            Transform3D::with_translation(s(160.0), s(20.0), s(10.0))
                .rotate(q32(90.0 / 180.0 * PI32, 0.0, 0.0, 1.0)),
            s(0.5)
        ),
        Transform3D::with_translation(s(80.0), s(10.0), s(5.0))
            .rotate(q32(45.0 / 180.0 * PI32, 0.0, 0.0, 1.0))
    );
}

#[test]
fn identity_is_neutral_on_both_sides() {
    let m = m64([[1.0, 2.0, 3.0, 4.0], [5.0, 6.0, 7.0, 8.0], [9.0, 10.0, 11.0, 12.0], [13.0, 14.0, 15.0, 16.0]]);
    assert_eq!(Transform3D::identity().multiply(m).columns, m.columns);
    assert_eq!(m.multiply(Transform3D::identity()).columns, m.columns);
    assert_eq!(m.pre_multiply(Transform3D::identity()).columns, m.columns);
}

#[test]
fn translations_and_scales_compose() {
    let t = Transform3D::with_translation(d(1.0), d(2.0), d(3.0)).translate(d(10.0), d(20.0), d(30.0));
    assert_eq!(t.columns, Transform3D::with_translation(d(11.0), d(22.0), d(33.0)).columns);
    let s2 = Transform3D::with_scale(d(2.0), d(3.0), d(4.0)).scale(d(5.0), d(6.0), d(7.0));
    assert_eq!(s2.columns, Transform3D::with_scale(d(10.0), d(18.0), d(28.0)).columns);
}

#[test]
fn points_move_as_matrices_say() {
    let p = Point3D::new(d(1.0), d(2.0), d(3.0));
    assert_eq!(Transform3D::identity().apply(p), p);
    assert_eq!(
        Transform3D::with_translation(d(1.0), d(-2.0), d(0.5)).apply(p),
        Point3D::new(d(2.0), d(0.0), d(3.5))
    );
    assert_eq!(
        Transform3D::with_scale(d(2.0), d(3.0), d(4.0)).apply(p),
        Point3D::new(d(2.0), d(6.0), d(12.0))
    );
    let perspective = Transform3D::with_perspective(d(4.0)).apply(Point3D::new(d(2.0), d(2.0), d(4.0)));
    assert_eq!(perspective, Point3D::new(d(1.0), d(1.0), d(2.0)));
}

#[test]
fn mixing_quaternions_at_the_ends() {
    let a = q64(0.5, 1.0, 0.0, 0.0);
    let b = q64(1.5, 0.0, 1.0, 0.0);
    assert_eq!(a.mix(d(1.0), b), a);
    let towards = a.mix(d(0.0), b).subtract(&b);
    assert!(towards.dot(&towards).0 < 1e-12);
    let back = a.addition(&b).subtract(&b).subtract(&a);
    assert!(back.dot(&back).0 < 1e-24);
}

#[test]
fn interpolating_decompositions_at_the_ends() {
    let a = Decomposition3D::decompose(Transform3D::with_translation(d(10.0), d(0.0), d(0.0))).unwrap();
    let b = Decomposition3D::decompose(Transform3D::with_scale(d(2.0), d(2.0), d(2.0))).unwrap();
    assert_eq!(a.interpolate(&b, d(0.0)), a);
    assert_eq!(a.interpolate(&b, d(1.0)), b);
}

#[test]
fn singular_matrices_do_not_decompose() {
    assert!(Decomposition3D::decompose(Transform3D::with_scale(d(0.0), d(1.0), d(1.0))).is_none());
    let mut m = Transform3D::<F64>::identity();
    m.columns[3][3] = d(0.0);
    assert!(Decomposition3D::decompose(m).is_none());
}

#[test]
fn point_norms() {
    let p = Point3D::new(d(3.0), d(4.0), d(0.0));
    assert_eq!(p.l2_norm(), d(5.0));
    assert_eq!(p.normalize(), Point3D::new(d(0.6), d(0.8), d(0.0)));
}

#[test]
fn angles_convert_between_units() {
    let a = Angle::with_degrees(d(90.0));
    assert!((a.to_radians().0 - PI64 / 2.0).abs() < 1e-12);
    assert!((a.to_degrees().0 - 90.0).abs() < 1e-12);
    let b = Angle::with_radians(d(1.0));
    assert_eq!(a.plus(&b).to_radians(), d(PI64 / 2.0 + 1.0));
    assert_eq!(a.minus(&b).to_radians(), d(PI64 / 2.0 - 1.0));
    let v = Velocity::new(d(3.0), Duration::from_millis(500));
    assert_eq!(*v.delta(), d(3.0));
    assert_eq!(v.time(), Duration::from_millis(500));
}

#[test]
fn delays_and_decays() {
    let delay = Delay { from_value: d(1.0), to_value: d(5.0), duration: d(2.0) };
    assert_eq!(delay.approximate(d(1.0)), Approximation { value: d(1.0), velocity: d(0.0) });
    assert_eq!(delay.approximate(d(2.0)), Approximation { value: d(5.0), velocity: d(0.0) });
    let decay = Decay { from_value: d(0.0), to_value: d(10.0), time_constant: d(1.0) };
    assert_eq!(decay.approximate(d(0.0)).value, d(0.0));
    assert!((decay.approximate(d(1.0)).value.0 - 10.0 * (1.0 - (-1.0f64).exp())).abs() < 1e-12);
    assert_eq!(decay.target(), d(10.0));
}

#[test]
fn thresholds_need_both_parts() {
    let mut both = And(
        VelocityThreshold(d(0.1)),
        DisplacementThreshold { target: d(10.0), sensitivity: d(0.5) },
    );
    assert!(both.evaluate(&Approximation { value: d(9.8), velocity: d(0.05) }));
    assert!(!both.evaluate(&Approximation { value: d(9.0), velocity: d(0.05) }));
    assert!(!both.evaluate(&Approximation { value: d(9.8), velocity: d(1.0) }));
}

#[test]
fn a_sampler_ends_at_the_target() {
    let delay = Delay { from_value: d(1.0), to_value: d(5.0), duration: d(0.5) };
    let mut keyed = Sampler::new(&delay, d(4.0)).keyed();
    let mut samples = vec![];
    while let Some(sample) = keyed.next() {
        samples.push(sample);
    }
    assert_eq!(samples.len(), 3);
    assert_eq!(samples[0].0, d(0.0));
    assert_eq!(samples[1].0, d(0.25));
    assert_eq!(samples[2], (d(0.5), Approximation { value: d(5.0), velocity: d(0.0) }));
}

#[test]
fn mixing_parallel_quaternions_keeps_the_first_but_at_zero() {
    let a = Quaternion3D { x: d(0.0), y: d(0.0), z: d(0.0), w: d(1.0) };
    let b = Quaternion3D { x: d(0.0), y: d(0.0), z: d(0.0), w: d(-1.0) };
    assert_eq!(a.mix(d(0.0), b), b);
    assert_eq!(a.mix(d(0.25), b), a);
    assert_eq!(a.mix(d(0.5), b), a);
    assert_eq!(a.mix(d(1.0), b), a);
}

#[test]
fn adjugate_of_a_shear_in_the_last_row() {
    let mut m = Transform3D::<F64>::identity();
    m.columns[0][3] = d(1.0);
    let adjugate = polyhorn::linalg::inter::LaplaceExpansion3D::new(&m).adjugate();
    assert_eq!(adjugate.columns[0], [d(1.0), d(0.0), d(0.0), d(-1.0)]);
    assert_eq!(adjugate.columns[1], [d(0.0), d(1.0), d(0.0), d(0.0)]);
    assert_eq!(adjugate.columns[2], [d(0.0), d(0.0), d(1.0), d(0.0)]);
    assert_eq!(adjugate.columns[3], [d(0.0), d(0.0), d(0.0), d(1.0)]);
}

#[test]
fn matrix_times_adjugate_is_determinant_times_identity() {
    let mut m = Transform3D::<F64>::identity();
    let values = [
        [2.0, -1.0, 0.5, 3.0],
        [0.0, 1.5, -2.0, 1.0],
        [4.0, 0.25, 1.0, -1.0],
        [1.0, 2.0, 3.0, 0.5],
    ];
    for c in 0..4 {
        for r in 0..4 {
            m.columns[c][r] = d(values[c][r]);
        }
    }
    let expansion = polyhorn::linalg::inter::LaplaceExpansion3D::new(&m);
    let adjugate = expansion.adjugate();
    let det = expansion.determinant().0;
    for r in 0..4 {
        for c in 0..4 {
            let mut sum = 0.0;
            for k in 0..4 {
                sum += m.columns[k][r].0 * adjugate.columns[c][k].0;
            }
            let expected = if r == c { det } else { 0.0 };
            assert!((sum - expected).abs() < 1e-9, "entry ({}, {}): {} against {}", r, c, sum, expected);
        }
    }
}

fn close_points(a: Point3D<F64>, b: Point3D<F64>) -> bool {
    (a.x.0 - b.x.0).abs() < 1e-9 && (a.y.0 - b.y.0).abs() < 1e-9 && (a.z.0 - b.z.0).abs() < 1e-9
}

#[test]
fn concatenation_composes_moves() {
    let a = Transform3D::with_rotation(q64(0.7, 0.0, 0.0, 1.0)).translate(d(3.0), d(-2.0), d(5.0));
    let b = Transform3D::with_scale(d(2.0), d(0.5), d(3.0)).translate(d(1.0), d(1.0), d(-4.0));
    let p = Point3D::new(d(1.5), d(-2.5), d(4.0));
    assert!(close_points(a.multiply(b).apply(p), a.apply(b.apply(p))));
    assert!(close_points(a.pre_multiply(b).apply(p), b.apply(a.apply(p))));
}

#[test]
fn a_spring_starts_at_its_initial_state() {
    for damping in [10.0, 20.0, 40.0] {
        for allows_overdamping in [false, true] {
            let spring = polyhorn::animation::spring::Spring {
                from_value: d(0.0),
                to_value: d(320.0),
                stiffness: d(100.0),
                damping: d(damping),
                mass: d(1.0),
                initial_velocity: d(2.5),
                overshoot_clamping: false,
                allows_overdamping,
            };
            let start = spring.approximate(d(0.0));
            assert!(start.value.0.abs() < 1e-9);
            assert!((start.velocity.0 - 2.5).abs() < 1e-9);
        }
    }
}

#[test]
fn scaling_the_rotation_axis_scales_the_angle() {
    let scaled = q64(0.5, 0.0, 0.0, 2.0);
    let plain = q64(1.0, 0.0, 0.0, 1.0);
    let difference = scaled.subtract(&plain);
    assert!(difference.dot(&difference).0 < 1e-24);
    let scaled = q64(0.3, 3.0, 6.0, 9.0);
    let plain = q64(0.9, 1.0, 2.0, 3.0);
    let difference = scaled.subtract(&plain);
    assert!(difference.dot(&difference).0 < 1e-24);
}

#[test]
fn recomposing_a_decomposition_gives_the_matrix_back() {
    let m = Transform3D::with_translation(d(3.0), d(-2.0), d(5.0))
        .rotate(q64(0.7, 1.0, 2.0, 3.0))
        .scale(d(2.0), d(0.5), d(3.0));
    let back = Decomposition3D::decompose(m).unwrap().recompose();
    for c in 0..4 {
        for r in 0..4 {
            assert!((back.columns[c][r].0 - m.columns[c][r].0).abs() < 1e-9, "entry ({}, {})", c, r);
        }
    }
}

#[test]
fn degrees_round_trip() {
    for degrees in [-720.0, -45.0, 0.0, 30.0, 90.0, 360.0] {
        assert!((Angle::with_degrees(d(degrees)).to_degrees().0 - degrees).abs() < 1e-9);
    }
    assert!((Angle::with_radians(d(PI64)).to_degrees().0 - 180.0).abs() < 1e-12);
}
