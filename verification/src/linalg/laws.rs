//! Algebraic properties of 3D transforms.
//!
//! Each property takes the arithmetic facts it rests on as hypotheses
//! (`unit_laws`, `ring_laws`, `scaling_laws`, `zero_angle_laws`, `arc_laws`),
//! stated with exact equality.
//! A number type that computes exactly meets them; an IEEE float does not
//! (`-0.0 + 0.0` is `0.0`, `-1 * 0` is `-0.0`, and the trigonometric
//! identities hold only up to rounding), so for floats these properties hold
//! up to rounding and are not proved.

use vstd::prelude::*;
use crate::scalar::{Scalar, is_zero, two, unit_laws};
use super::geometry::{Point3D, Quaternion3D};
use super::inter::compose::{Decomposition3D, half_root};
use super::inter::algebra::{cross3, dot3, length3, normalize3, combine3};
use super::inter::laplace::{spec_blue, spec_determinant, spec_red};
use super::transform::matrix;
use super::transform::Transform3D;

verus! {

/// The identity matrix is a left identity of concatenation.
pub proof fn identity_is_left_neutral<T: Scalar>(m: Transform3D<T>)
    requires
        unit_laws::<T>(),
    ensures
        Transform3D::spec_multiply(Transform3D::spec_identity(), m) == m,
{
    let r = Transform3D::spec_multiply(Transform3D::spec_identity(), m);
    assert(r.columns[0] =~= m.columns[0]);
    assert(r.columns[1] =~= m.columns[1]);
    assert(r.columns[2] =~= m.columns[2]);
    assert(r.columns[3] =~= m.columns[3]);
    assert(r.columns =~= m.columns);
}

/// The identity matrix is a right identity of concatenation.
pub proof fn identity_is_right_neutral<T: Scalar>(m: Transform3D<T>)
    requires
        unit_laws::<T>(),
    ensures
        Transform3D::spec_multiply(m, Transform3D::spec_identity()) == m,
{
    let r = Transform3D::spec_multiply(m, Transform3D::spec_identity());
    assert(r.columns[0] =~= m.columns[0]);
    assert(r.columns[1] =~= m.columns[1]);
    assert(r.columns[2] =~= m.columns[2]);
    assert(r.columns[3] =~= m.columns[3]);
    assert(r.columns =~= m.columns);
}

/// Concatenating two translations translates by the sum of their offsets
/// (the offsets of the matrix that applies first are added first).
pub proof fn translations_compose<T: Scalar>(ax: T, ay: T, az: T, bx: T, by: T, bz: T)
    requires
        unit_laws::<T>(),
    ensures
        Transform3D::spec_multiply(
            Transform3D::spec_with_translation(ax, ay, az),
            Transform3D::spec_with_translation(bx, by, bz),
        ) == Transform3D::spec_with_translation(bx.spec_add(ax), by.spec_add(ay), bz.spec_add(az)),
{
    let r = Transform3D::spec_multiply(
        Transform3D::spec_with_translation(ax, ay, az),
        Transform3D::spec_with_translation(bx, by, bz),
    );
    let e = Transform3D::spec_with_translation(bx.spec_add(ax), by.spec_add(ay), bz.spec_add(az));
    assert(r.columns[0] =~= e.columns[0]);
    assert(r.columns[1] =~= e.columns[1]);
    assert(r.columns[2] =~= e.columns[2]);
    assert(r.columns[3] =~= e.columns[3]);
    assert(r.columns =~= e.columns);
}

/// Concatenating two scales scales by the products of their factors
/// (the factors of the matrix that applies first come first).
pub proof fn scales_compose<T: Scalar>(ax: T, ay: T, az: T, bx: T, by: T, bz: T)
    requires
        unit_laws::<T>(),
    ensures
        Transform3D::spec_multiply(
            Transform3D::spec_with_scale(ax, ay, az),
            Transform3D::spec_with_scale(bx, by, bz),
        ) == Transform3D::spec_with_scale(bx.spec_mul(ax), by.spec_mul(ay), bz.spec_mul(az)),
{
    let r = Transform3D::spec_multiply(
        Transform3D::spec_with_scale(ax, ay, az),
        Transform3D::spec_with_scale(bx, by, bz),
    );
    let e = Transform3D::spec_with_scale(bx.spec_mul(ax), by.spec_mul(ay), bz.spec_mul(az));
    assert(r.columns[0] =~= e.columns[0]);
    assert(r.columns[1] =~= e.columns[1]);
    assert(r.columns[2] =~= e.columns[2]);
    assert(r.columns[3] =~= e.columns[3]);
    assert(r.columns =~= e.columns);
}

/// The identity matrix maps every point to itself.
pub proof fn identity_fixes_points<T: Scalar>(p: Point3D<T>)
    requires
        unit_laws::<T>(),
    ensures
        Transform3D::<T>::spec_identity().spec_apply(p) == p,
{
}

/// A translation matrix moves every point by its offsets.
pub proof fn translation_moves_points<T: Scalar>(tx: T, ty: T, tz: T, p: Point3D<T>)
    requires
        unit_laws::<T>(),
    ensures
        Transform3D::spec_with_translation(tx, ty, tz).spec_apply(p) == (Point3D {
            x: p.x.spec_add(tx),
            y: p.y.spec_add(ty),
            z: p.z.spec_add(tz),
        }),
{
}

/// A scale matrix multiplies the coordinates of every point by its factors.
pub proof fn scale_stretches_points<T: Scalar>(sx: T, sy: T, sz: T, p: Point3D<T>)
    requires
        unit_laws::<T>(),
    ensures
        Transform3D::spec_with_scale(sx, sy, sz).spec_apply(p) == (Point3D {
            x: sx.spec_mul(p.x),
            y: sy.spec_mul(p.y),
            z: sz.spec_mul(p.z),
        }),
{
}

/// The trigonometric values at zero, and `1 - 1 == 0`.
pub open spec fn zero_angle_laws<T: Scalar>() -> bool {
    &&& T::spec_zero().spec_sin() == T::spec_zero()
    &&& T::spec_zero().spec_cos() == T::spec_one()
    &&& T::spec_one().spec_sub(T::spec_one()) == T::spec_zero()
}

/// The identities of the spherical interpolation at the clamped inner
/// product `p`: `sin(acos p) / sqrt(1 - p^2) == 1`, `cos(acos p) == p` and
/// `p - p == 0`.
pub open spec fn arc_laws<T: Scalar>(p: T) -> bool {
    &&& p.spec_acos().spec_sin().spec_mul(
        T::spec_one().spec_sub(p.spec_mul(p)).spec_sqrt().spec_recip(),
    ) == T::spec_one()
    &&& p.spec_acos().spec_cos() == p
    &&& p.spec_sub(p) == T::spec_zero()
}

/// Mixing with weight one gives the first quaternion.
pub proof fn mix_at_one_is_first<T: Scalar>(q: Quaternion3D<T>, other: Quaternion3D<T>)
    requires
        unit_laws::<T>(),
        zero_angle_laws::<T>(),
        !is_zero(T::spec_one()),
    ensures
        q.spec_mix(T::spec_one(), other) == q,
{
    let p = q.spec_mix_product(other);
    let theta = p.spec_acos();
    assert(T::spec_zero().spec_mul(theta) == T::spec_zero());
}

/// Mixing with weight zero gives the second quaternion.
pub proof fn mix_at_zero_is_second<T: Scalar>(q: Quaternion3D<T>, other: Quaternion3D<T>)
    requires
        unit_laws::<T>(),
        is_zero(T::spec_zero()),
        arc_laws(q.spec_mix_product(other)),
    ensures
        q.spec_mix(T::spec_zero(), other) == other,
{
    let p = q.spec_mix_product(other);
    let theta = p.spec_acos();
    assert(T::spec_one().spec_sub(T::spec_zero()) == T::spec_one());
    assert(T::spec_one().spec_mul(theta) == theta);
}

/// Interpolating with progress zero gives the first decomposition.
pub proof fn interpolate_at_zero_is_first<T: Scalar>(a: Decomposition3D<T>, b: Decomposition3D<T>)
    requires
        unit_laws::<T>(),
        zero_angle_laws::<T>(),
        !is_zero(T::spec_one()),
    ensures
        a.spec_interpolate(b, T::spec_zero()) == a,
{
    mix_at_one_is_first(a.quaternion, b.quaternion);
    let r = a.spec_interpolate(b, T::spec_zero());
    assert(T::spec_one().spec_sub(T::spec_zero()) == T::spec_one());
    assert(r.translation =~= a.translation);
    assert(r.scale =~= a.scale);
    assert(r.skew =~= a.skew);
    assert(r.perspective =~= a.perspective);
}

/// Interpolating with progress one gives the second decomposition.
pub proof fn interpolate_at_one_is_second<T: Scalar>(a: Decomposition3D<T>, b: Decomposition3D<T>)
    requires
        unit_laws::<T>(),
        zero_angle_laws::<T>(),
        is_zero(T::spec_zero()),
        arc_laws(a.quaternion.spec_mix_product(b.quaternion)),
    ensures
        a.spec_interpolate(b, T::spec_one()) == b,
{
    mix_at_zero_is_second(a.quaternion, b.quaternion);
    let r = a.spec_interpolate(b, T::spec_one());
    assert(r.translation =~= b.translation);
    assert(r.scale =~= b.scale);
    assert(r.skew =~= b.skew);
    assert(r.perspective =~= b.perspective);
}

/// The laws of a commutative ring for `+` and `*`, besides `unit_laws`.
#[verifier::opaque]
pub open spec fn ring_laws<T: Scalar>() -> bool {
    &&& unit_laws::<T>()
    &&& forall|x: T, y: T| #[trigger] x.spec_add(y) == y.spec_add(x)
    &&& forall|x: T, y: T, z: T| #[trigger] x.spec_add(y).spec_add(z) == x.spec_add(y.spec_add(z))
    &&& forall|x: T, y: T| #[trigger] x.spec_mul(y) == y.spec_mul(x)
    &&& forall|x: T, y: T, z: T| #[trigger] x.spec_mul(y).spec_mul(z) == x.spec_mul(y.spec_mul(z))
    &&& forall|x: T, y: T, z: T| #[trigger] x.spec_mul(y.spec_add(z)) == x.spec_mul(y).spec_add(x.spec_mul(z))
}

/// The matrix is affine: its last column is `(0, 0, 0, 1)`.
pub open spec fn is_affine<T: Scalar>(m: Transform3D<T>) -> bool {
    &&& m.columns[0][3] == T::spec_zero()
    &&& m.columns[1][3] == T::spec_zero()
    &&& m.columns[2][3] == T::spec_zero()
    &&& m.columns[3][3] == T::spec_one()
}

/// The sum `((v0 + v1) + v2) + v3`.
pub open spec fn sum4<T: Scalar>(v0: T, v1: T, v2: T, v3: T) -> T {
    v0.spec_add(v1).spec_add(v2).spec_add(v3)
}

proof fn lemma_unit<T: Scalar>()
    requires
        ring_laws::<T>(),
    ensures
        unit_laws::<T>(),
{
    reveal(ring_laws);
}

proof fn lemma_add_assoc<T: Scalar>(x: T, y: T, z: T)
    requires
        ring_laws::<T>(),
    ensures
        x.spec_add(y).spec_add(z) == x.spec_add(y.spec_add(z)),
{
    reveal(ring_laws);
}

proof fn lemma_add_comm<T: Scalar>(x: T, y: T)
    requires
        ring_laws::<T>(),
    ensures
        x.spec_add(y) == y.spec_add(x),
{
    reveal(ring_laws);
}

proof fn lemma_distribute<T: Scalar>(x: T, y: T, z: T)
    requires
        ring_laws::<T>(),
    ensures
        x.spec_mul(y.spec_add(z)) == x.spec_mul(y).spec_add(x.spec_mul(z)),
{
    reveal(ring_laws);
}

/// `(b * a) * p == a * (b * p)`.
proof fn lemma_reorder<T: Scalar>(b: T, a: T, p: T)
    requires
        ring_laws::<T>(),
    ensures
        b.spec_mul(a).spec_mul(p) == a.spec_mul(b.spec_mul(p)),
{
    reveal(ring_laws);
    assert(a.spec_mul(b).spec_mul(p) == a.spec_mul(b.spec_mul(p)));
    assert(b.spec_mul(a) == a.spec_mul(b));
}

/// `(a + b) + (c + d) == (a + c) + (b + d)`.
proof fn lemma_swap_middle<T: Scalar>(a: T, b: T, c: T, d: T)
    requires
        ring_laws::<T>(),
    ensures
        a.spec_add(b).spec_add(c.spec_add(d)) == a.spec_add(c).spec_add(b.spec_add(d)),
{
    lemma_add_assoc(a, b, c.spec_add(d));
    lemma_add_assoc(b, c, d);
    lemma_add_comm(b, c);
    lemma_add_assoc(c, b, d);
    lemma_add_assoc(a, c, b.spec_add(d));
}

/// A sum of four is the sum of its two halves.
proof fn lemma_halves<T: Scalar>(v0: T, v1: T, v2: T, v3: T)
    requires
        ring_laws::<T>(),
    ensures
        sum4(v0, v1, v2, v3) == v0.spec_add(v1).spec_add(v2.spec_add(v3)),
{
    lemma_add_assoc(v0.spec_add(v1), v2, v3);
}

/// The sum of the sums of the rows of a 4x4 grid is the sum of the sums of
/// its columns.
proof fn lemma_transpose<T: Scalar>(g: [[T; 4]; 4])
    requires
        ring_laws::<T>(),
    ensures
        sum4(
            sum4(g[0][0], g[0][1], g[0][2], g[0][3]),
            sum4(g[1][0], g[1][1], g[1][2], g[1][3]),
            sum4(g[2][0], g[2][1], g[2][2], g[2][3]),
            sum4(g[3][0], g[3][1], g[3][2], g[3][3]),
        ) == sum4(
            sum4(g[0][0], g[1][0], g[2][0], g[3][0]),
            sum4(g[0][1], g[1][1], g[2][1], g[3][1]),
            sum4(g[0][2], g[1][2], g[2][2], g[3][2]),
            sum4(g[0][3], g[1][3], g[2][3], g[3][3]),
        ),
{
    let h = |i: int, j: int| g[i][j].spec_add(g[i][j + 1]);
    let v = |i: int, j: int| g[i][j].spec_add(g[i + 1][j]);
    // rows as pairs of pairs
    lemma_halves(g[0][0], g[0][1], g[0][2], g[0][3]);
    lemma_halves(g[1][0], g[1][1], g[1][2], g[1][3]);
    lemma_halves(g[2][0], g[2][1], g[2][2], g[2][3]);
    lemma_halves(g[3][0], g[3][1], g[3][2], g[3][3]);
    let r0 = h(0, 0).spec_add(h(0, 2));
    let r1 = h(1, 0).spec_add(h(1, 2));
    let r2 = h(2, 0).spec_add(h(2, 2));
    let r3 = h(3, 0).spec_add(h(3, 2));
    lemma_halves(r0, r1, r2, r3);
    // rows 0 and 1
    lemma_swap_middle(h(0, 0), h(0, 2), h(1, 0), h(1, 2));
    lemma_swap_middle(g[0][0], g[0][1], g[1][0], g[1][1]);
    lemma_swap_middle(g[0][2], g[0][3], g[1][2], g[1][3]);
    let p01 = v(0, 0).spec_add(v(0, 1));
    let q01 = v(0, 2).spec_add(v(0, 3));
    assert(r0.spec_add(r1) == p01.spec_add(q01));
    // rows 2 and 3
    lemma_swap_middle(h(2, 0), h(2, 2), h(3, 0), h(3, 2));
    lemma_swap_middle(g[2][0], g[2][1], g[3][0], g[3][1]);
    lemma_swap_middle(g[2][2], g[2][3], g[3][2], g[3][3]);
    let p23 = v(2, 0).spec_add(v(2, 1));
    let q23 = v(2, 2).spec_add(v(2, 3));
    assert(r2.spec_add(r3) == p23.spec_add(q23));
    // the two halves
    lemma_swap_middle(p01, q01, p23, q23);
    lemma_swap_middle(v(0, 0), v(0, 1), v(2, 0), v(2, 1));
    lemma_swap_middle(v(0, 2), v(0, 3), v(2, 2), v(2, 3));
    let c0 = v(0, 0).spec_add(v(2, 0));
    let c1 = v(0, 1).spec_add(v(2, 1));
    let c2 = v(0, 2).spec_add(v(2, 2));
    let c3 = v(0, 3).spec_add(v(2, 3));
    assert(p01.spec_add(p23) == c0.spec_add(c1));
    assert(q01.spec_add(q23) == c2.spec_add(c3));
    // columns as pairs of pairs
    lemma_halves(g[0][0], g[1][0], g[2][0], g[3][0]);
    lemma_halves(g[0][1], g[1][1], g[2][1], g[3][1]);
    lemma_halves(g[0][2], g[1][2], g[2][2], g[3][2]);
    lemma_halves(g[0][3], g[1][3], g[2][3], g[3][3]);
    lemma_halves(c0, c1, c2, c3);
}

/// `c * (((v0 + v1) + v2) + v3)` is the sum of the products.
proof fn lemma_distribute4<T: Scalar>(c: T, v0: T, v1: T, v2: T, v3: T)
    requires
        ring_laws::<T>(),
    ensures
        c.spec_mul(sum4(v0, v1, v2, v3)) == sum4(c.spec_mul(v0), c.spec_mul(v1), c.spec_mul(v2), c.spec_mul(v3)),
{
    lemma_distribute(c, v0.spec_add(v1).spec_add(v2), v3);
    lemma_distribute(c, v0.spec_add(v1), v2);
    lemma_distribute(c, v0, v1);
}

proof fn lemma_mul_comm<T: Scalar>(x: T, y: T)
    requires
        ring_laws::<T>(),
    ensures
        x.spec_mul(y) == y.spec_mul(x),
{
    reveal(ring_laws);
}

/// Column `i < 3` of the grid of the concatenated row: the entry of the
/// concatenation times the coordinate.
proof fn lemma_concatenated_column<T: Scalar>(a: Transform3D<T>, b: Transform3D<T>, pi: T, i: int, j: int)
    requires
        ring_laws::<T>(),
        is_affine(b),
        0 <= i < 3,
        0 <= j < 4,
    ensures
        Transform3D::product_entry(b, a, i, j).spec_mul(pi) == sum4(
            a.at(0, j).spec_mul(b.at(i, 0).spec_mul(pi)),
            a.at(1, j).spec_mul(b.at(i, 1).spec_mul(pi)),
            a.at(2, j).spec_mul(b.at(i, 2).spec_mul(pi)),
            T::spec_zero(),
        ),
{
    lemma_unit::<T>();
    let m = Transform3D::product_entry(b, a, i, j);
    assert(b.at(i, 3) == T::spec_zero());
    assert(b.at(i, 3).spec_mul(a.at(3, j)) == T::spec_zero());
    lemma_mul_comm(m, pi);
    lemma_distribute4(
        pi,
        b.at(i, 0).spec_mul(a.at(0, j)),
        b.at(i, 1).spec_mul(a.at(1, j)),
        b.at(i, 2).spec_mul(a.at(2, j)),
        T::spec_zero(),
    );
    lemma_mul_comm(pi, b.at(i, 0).spec_mul(a.at(0, j)));
    lemma_mul_comm(pi, b.at(i, 1).spec_mul(a.at(1, j)));
    lemma_mul_comm(pi, b.at(i, 2).spec_mul(a.at(2, j)));
    lemma_reorder(b.at(i, 0), a.at(0, j), pi);
    lemma_reorder(b.at(i, 1), a.at(1, j), pi);
    lemma_reorder(b.at(i, 2), a.at(2, j), pi);
}

/// Row `j < 3` of the image of `p` under the concatenation is row `j` of
/// the image under `a` of the image under `b`.
proof fn lemma_concatenated_row<T: Scalar>(a: Transform3D<T>, b: Transform3D<T>, p: Point3D<T>, j: int)
    requires
        ring_laws::<T>(),
        is_affine(b),
        0 <= j < 4,
    ensures
        Transform3D::spec_multiply(a, b).apply_row(p, j) == a.apply_row(
            Point3D { x: b.apply_row(p, 0), y: b.apply_row(p, 1), z: b.apply_row(p, 2) },
            j,
        ),
{
    lemma_unit::<T>();
    let zero = T::spec_zero();
    let pc = [p.x, p.y, p.z];
    let aa = [a.at(0, j), a.at(1, j), a.at(2, j), a.at(3, j)];
    let g: [[T; 4]; 4] = [
        [
            aa[0].spec_mul(b.at(0, 0).spec_mul(pc[0])),
            aa[0].spec_mul(b.at(1, 0).spec_mul(pc[1])),
            aa[0].spec_mul(b.at(2, 0).spec_mul(pc[2])),
            aa[0].spec_mul(b.at(3, 0)),
        ],
        [
            aa[1].spec_mul(b.at(0, 1).spec_mul(pc[0])),
            aa[1].spec_mul(b.at(1, 1).spec_mul(pc[1])),
            aa[1].spec_mul(b.at(2, 1).spec_mul(pc[2])),
            aa[1].spec_mul(b.at(3, 1)),
        ],
        [
            aa[2].spec_mul(b.at(0, 2).spec_mul(pc[0])),
            aa[2].spec_mul(b.at(1, 2).spec_mul(pc[1])),
            aa[2].spec_mul(b.at(2, 2).spec_mul(pc[2])),
            aa[2].spec_mul(b.at(3, 2)),
        ],
        [zero, zero, zero, aa[3]],
    ];
    lemma_transpose(g);
    // the rows of the grid are the terms of the image under `a`
    let q = Point3D { x: b.apply_row(p, 0), y: b.apply_row(p, 1), z: b.apply_row(p, 2) };
    lemma_distribute4(aa[0], b.at(0, 0).spec_mul(p.x), b.at(1, 0).spec_mul(p.y), b.at(2, 0).spec_mul(p.z), b.at(3, 0));
    lemma_distribute4(aa[1], b.at(0, 1).spec_mul(p.x), b.at(1, 1).spec_mul(p.y), b.at(2, 1).spec_mul(p.z), b.at(3, 1));
    lemma_distribute4(aa[2], b.at(0, 2).spec_mul(p.x), b.at(1, 2).spec_mul(p.y), b.at(2, 2).spec_mul(p.z), b.at(3, 2));
    assert(sum4(g[3][0], g[3][1], g[3][2], g[3][3]) == aa[3]);
    assert(a.apply_row(q, j) == sum4(
        sum4(g[0][0], g[0][1], g[0][2], g[0][3]),
        sum4(g[1][0], g[1][1], g[1][2], g[1][3]),
        sum4(g[2][0], g[2][1], g[2][2], g[2][3]),
        sum4(g[3][0], g[3][1], g[3][2], g[3][3]),
    ));
    // the columns of the grid are the terms of the image under the concatenation
    let m = Transform3D::spec_multiply(a, b);
    lemma_concatenated_column(a, b, p.x, 0, j);
    lemma_concatenated_column(a, b, p.y, 1, j);
    lemma_concatenated_column(a, b, p.z, 2, j);
    assert(m.at(0, j) == Transform3D::product_entry(b, a, 0, j));
    assert(m.at(1, j) == Transform3D::product_entry(b, a, 1, j));
    assert(m.at(2, j) == Transform3D::product_entry(b, a, 2, j));
    assert(m.at(3, j) == Transform3D::product_entry(b, a, 3, j));
    assert(b.at(3, 3).spec_mul(aa[3]) == aa[3]);
    lemma_mul_comm(b.at(3, 0), aa[0]);
    lemma_mul_comm(b.at(3, 1), aa[1]);
    lemma_mul_comm(b.at(3, 2), aa[2]);
    assert(m.at(3, j) == sum4(g[0][3], g[1][3], g[2][3], g[3][3]));
    assert(m.apply_row(p, j) == sum4(
        sum4(g[0][0], g[1][0], g[2][0], g[3][0]),
        sum4(g[0][1], g[1][1], g[2][1], g[3][1]),
        sum4(g[0][2], g[1][2], g[2][2], g[3][2]),
        sum4(g[0][3], g[1][3], g[2][3], g[3][3]),
    ));
}

/// An affine matrix maps a point to the first three rows of its image,
/// undivided.
proof fn lemma_affine_apply<T: Scalar>(b: Transform3D<T>, p: Point3D<T>)
    requires
        ring_laws::<T>(),
        is_affine(b),
    ensures
        b.spec_apply(p) == (Point3D { x: b.apply_row(p, 0), y: b.apply_row(p, 1), z: b.apply_row(p, 2) }),
{
    lemma_unit::<T>();
    assert(b.apply_row(p, 3) == T::spec_one());
}

/// Concatenation composes the moves: where the matrix that applies first is
/// affine, `a.multiply(b)` moves every point to where `b` and then `a` move
/// it.
pub proof fn multiply_composes<T: Scalar>(a: Transform3D<T>, b: Transform3D<T>, p: Point3D<T>)
    requires
        ring_laws::<T>(),
        is_affine(b),
    ensures
        Transform3D::spec_multiply(a, b).spec_apply(p) == a.spec_apply(b.spec_apply(p)),
{
    lemma_affine_apply(b, p);
    lemma_concatenated_row(a, b, p, 0);
    lemma_concatenated_row(a, b, p, 1);
    lemma_concatenated_row(a, b, p, 2);
    lemma_concatenated_row(a, b, p, 3);
}

/// Pre-multiplication applies the receiver first: where it is affine,
/// `a.pre_multiply(b)` moves every point to where `a` and then `b` move it.
pub proof fn pre_multiply_composes<T: Scalar>(a: Transform3D<T>, b: Transform3D<T>, p: Point3D<T>)
    requires
        ring_laws::<T>(),
        is_affine(a),
    ensures
        Transform3D::spec_multiply(b, a).spec_apply(p) == b.spec_apply(a.spec_apply(p)),
{
    multiply_composes(b, a, p);
}

/// The facts of real arithmetic that scaling the axis of a rotation rests
/// on, besides `ring_laws`: squares and sums of nonnegative numbers are
/// nonnegative, `sqrt((k * k) * s) = k * sqrt(s)` for `k > 0` and `s >= 0`,
/// a common nonzero factor cancels from a quotient, and a product of nonzero
/// numbers is nonzero.
pub open spec fn scaling_laws<T: Scalar>() -> bool {
    &&& forall|x: T| T::spec_zero().spec_le(#[trigger] x.spec_mul(x))
    &&& forall|x: T, y: T| T::spec_zero().spec_le(x) && T::spec_zero().spec_le(y) ==> T::spec_zero().spec_le(
        #[trigger] x.spec_add(y),
    )
    &&& forall|k: T, s: T| T::spec_zero().spec_lt(k) && T::spec_zero().spec_le(s) ==> #[trigger] k.spec_mul(
        k,
    ).spec_mul(s).spec_sqrt() == k.spec_mul(s.spec_sqrt())
    &&& forall|x: T, k: T, n: T| k != T::spec_zero() && n != T::spec_zero() ==> #[trigger] k.spec_mul(x).spec_div(
        k.spec_mul(n),
    ) == x.spec_div(n)
    &&& forall|k: T, n: T| k != T::spec_zero() && n != T::spec_zero() ==> #[trigger] k.spec_mul(n) != T::spec_zero()
    &&& forall|k: T| T::spec_zero().spec_lt(k) ==> k != T::spec_zero()
}

/// `(k * x) * (k * x) == (k * k) * (x * x)`.
proof fn lemma_square_of_product<T: Scalar>(k: T, x: T)
    requires
        ring_laws::<T>(),
    ensures
        k.spec_mul(x).spec_mul(k.spec_mul(x)) == k.spec_mul(k).spec_mul(x.spec_mul(x)),
{
    reveal(ring_laws);
    assert(k.spec_mul(x).spec_mul(k.spec_mul(x)) == k.spec_mul(x.spec_mul(k.spec_mul(x))));
    assert(x.spec_mul(k.spec_mul(x)) == x.spec_mul(k).spec_mul(x));
    assert(x.spec_mul(k) == k.spec_mul(x));
    assert(k.spec_mul(x).spec_mul(x) == k.spec_mul(x.spec_mul(x)));
    assert(k.spec_mul(k.spec_mul(x.spec_mul(x))) == k.spec_mul(k).spec_mul(x.spec_mul(x)));
}

/// The length of a scaled axis is the scaled length, for a positive scale.
proof fn lemma_scaled_norm<T: Scalar>(k: T, r: Point3D<T>)
    requires
        ring_laws::<T>(),
        scaling_laws::<T>(),
        T::spec_zero().spec_lt(k),
    ensures
        (Point3D { x: k.spec_mul(r.x), y: k.spec_mul(r.y), z: k.spec_mul(r.z) }).spec_l2_norm() == k.spec_mul(
            r.spec_l2_norm(),
        ),
{
    let kk = k.spec_mul(k);
    let (a, b, c) = (r.x.spec_mul(r.x), r.y.spec_mul(r.y), r.z.spec_mul(r.z));
    lemma_square_of_product(k, r.x);
    lemma_square_of_product(k, r.y);
    lemma_square_of_product(k, r.z);
    lemma_distribute(kk, a.spec_add(b), c);
    lemma_distribute(kk, a, b);
    let sum = a.spec_add(b).spec_add(c);
    assert(T::spec_zero().spec_le(a.spec_add(b)));
    assert(T::spec_zero().spec_le(sum));
    assert(kk.spec_mul(sum).spec_sqrt() == k.spec_mul(sum.spec_sqrt()));
}

/// Scaling the axis of a rotation by a positive factor scales its angle by
/// that factor: `with_angle(a, k * r)` is `with_angle(k * a, r)` for an axis
/// `r` of nonzero length.
pub proof fn scaling_the_axis_scales_the_angle<T: Scalar>(angle: T, k: T, rx: T, ry: T, rz: T)
    requires
        ring_laws::<T>(),
        scaling_laws::<T>(),
        T::spec_zero().spec_lt(k),
        (Point3D { x: rx, y: ry, z: rz }).spec_l2_norm() != T::spec_zero(),
    ensures
        Quaternion3D::spec_with_angle(angle, k.spec_mul(rx), k.spec_mul(ry), k.spec_mul(rz))
            == Quaternion3D::spec_with_angle(k.spec_mul(angle), rx, ry, rz),
{
    let r = Point3D { x: rx, y: ry, z: rz };
    let n = r.spec_l2_norm();
    lemma_scaled_norm(k, r);
    assert(k != T::spec_zero());
    assert(angle.spec_mul(k.spec_mul(n)) == k.spec_mul(angle).spec_mul(n)) by {
        reveal(ring_laws);
        assert(angle.spec_mul(k.spec_mul(n)) == angle.spec_mul(k).spec_mul(n));
        assert(angle.spec_mul(k) == k.spec_mul(angle));
    }
    assert(k.spec_mul(rx).spec_div(k.spec_mul(n)) == rx.spec_div(n));
    assert(k.spec_mul(ry).spec_div(k.spec_mul(n)) == ry.spec_div(n));
    assert(k.spec_mul(rz).spec_div(k.spec_mul(n)) == rz.spec_div(n));
}

/// A horizontal skew by the angle `a` moves every point horizontally by
/// `tan(a)` times its height: `(x, y, z)` goes to `(x + tan(a) * y, y, z)`.
pub proof fn skew_x_moves_points_horizontally<T: Scalar>(a: T, p: Point3D<T>)
    requires
        unit_laws::<T>(),
    ensures
        Transform3D::spec_with_skew_x(a).spec_apply(p) == (Point3D {
            x: p.x.spec_add(a.spec_tan().spec_mul(p.y)),
            y: p.y,
            z: p.z,
        }),
{
}

/// A vertical skew by the angle `a` moves every point vertically by
/// `tan(a)` times its horizontal coordinate: `(x, y, z)` goes to
/// `(x, tan(a) * x + y, z)`.
pub proof fn skew_y_moves_points_vertically<T: Scalar>(a: T, p: Point3D<T>)
    requires
        unit_laws::<T>(),
    ensures
        Transform3D::spec_with_skew_y(a).spec_apply(p) == (Point3D {
            x: p.x,
            y: a.spec_tan().spec_mul(p.x).spec_add(p.y),
            z: p.z,
        }),
{
}

/// A number that is numerically zero is zero itself.
pub open spec fn exact_zero<T: Scalar>() -> bool {
    forall|x: T| #[trigger] is_zero(x) ==> x == T::spec_zero()
}

/// The point scaled by the factors of each axis.
pub open spec fn scale_point<T: Scalar>(s: [T; 3], p: Point3D<T>) -> Point3D<T> {
    Point3D { x: s[0].spec_mul(p.x), y: s[1].spec_mul(p.y), z: s[2].spec_mul(p.z) }
}

/// The point sheared along x by `k` times its y coordinate.
pub open spec fn shear_xy<T: Scalar>(k: T, p: Point3D<T>) -> Point3D<T> {
    Point3D { x: p.x.spec_add(k.spec_mul(p.y)), y: p.y, z: p.z }
}

/// The point sheared along x by `k` times its z coordinate.
pub open spec fn shear_xz<T: Scalar>(k: T, p: Point3D<T>) -> Point3D<T> {
    Point3D { x: p.x.spec_add(k.spec_mul(p.z)), y: p.y, z: p.z }
}

/// The point sheared along y by `k` times its z coordinate.
pub open spec fn shear_yz<T: Scalar>(k: T, p: Point3D<T>) -> Point3D<T> {
    Point3D { x: p.x, y: p.y.spec_add(k.spec_mul(p.z)), z: p.z }
}

/// The point moved by the offsets.
pub open spec fn translate_point<T: Scalar>(t: [T; 3], p: Point3D<T>) -> Point3D<T> {
    Point3D { x: p.x.spec_add(t[0]), y: p.y.spec_add(t[1]), z: p.z.spec_add(t[2]) }
}

proof fn lemma_skewed_apply<T: Scalar>(m: Transform3D<T>, k: T, s: Transform3D<T>, q: Point3D<T>, r: Point3D<T>)
    requires
        ring_laws::<T>(),
        exact_zero::<T>(),
        is_affine(s),
        s.spec_apply(q) == r,
        is_zero(k) ==> r == q,
    ensures
        Decomposition3D::skewed(m, k, s).spec_apply(q) == m.spec_apply(r),
{
    if !is_zero(k) {
        multiply_composes(m, s, q);
    }
}

proof fn lemma_scaled_apply<T: Scalar>(m: Transform3D<T>, s: [T; 3], p: Point3D<T>)
    requires
        ring_laws::<T>(),
    ensures
        Decomposition3D::scaled(m, s).spec_apply(p) == m.spec_apply(scale_point(s, p)),
{
    reveal(ring_laws);
    let n = Decomposition3D::scaled(m, s);
    let q = scale_point(s, p);
    assert forall|j: int| 0 <= j < 4 implies #[trigger] n.apply_row(p, j) == m.apply_row(q, j) by {
        assert(m.at(0, j).spec_mul(s[0]).spec_mul(p.x) == m.at(0, j).spec_mul(s[0].spec_mul(p.x)));
        assert(m.at(1, j).spec_mul(s[1]).spec_mul(p.y) == m.at(1, j).spec_mul(s[1].spec_mul(p.y)));
        assert(m.at(2, j).spec_mul(s[2]).spec_mul(p.z) == m.at(2, j).spec_mul(s[2].spec_mul(p.z)));
    }
    assert(n.apply_row(p, 0) == m.apply_row(q, 0));
    assert(n.apply_row(p, 1) == m.apply_row(q, 1));
    assert(n.apply_row(p, 2) == m.apply_row(q, 2));
    assert(n.apply_row(p, 3) == m.apply_row(q, 3));
}

/// Recomposing a decomposition (without perspective, as `decompose` gives
/// it) builds the matrix that scales a point, shears it (x by y, x by z,
/// then y by z), rotates it by the quaternion and translates it: a point
/// goes where these moves take it, in this order.
pub proof fn recompose_moves_points<T: Scalar>(d: Decomposition3D<T>, p: Point3D<T>)
    requires
        ring_laws::<T>(),
        exact_zero::<T>(),
        d.perspective == [T::spec_zero(), T::spec_zero(), T::spec_zero(), T::spec_one()],
    ensures
        d.spec_recompose().spec_apply(p) == translate_point(
            d.translation,
            Transform3D::spec_with_rotation(d.quaternion).spec_apply(
                shear_yz(d.skew[2], shear_xz(d.skew[1], shear_xy(d.skew[0], scale_point(d.scale, p)))),
            ),
        ),
{
    lemma_unit::<T>();
    let q0 = scale_point(d.scale, p);
    let q1 = shear_xy(d.skew[0], q0);
    let q2 = shear_xz(d.skew[1], q1);
    let q3 = shear_yz(d.skew[2], q2);
    let rot = Transform3D::spec_with_rotation(d.quaternion);
    let tp = d.translated_perspective();
    let t = d.translation;
    assert(tp == Transform3D::spec_with_translation(t[0], t[1], t[2])) by {
        assert(tp.columns[0] =~= Transform3D::<T>::spec_with_translation(t[0], t[1], t[2]).columns[0]);
        assert(tp.columns[1] =~= Transform3D::<T>::spec_with_translation(t[0], t[1], t[2]).columns[1]);
        assert(tp.columns[2] =~= Transform3D::<T>::spec_with_translation(t[0], t[1], t[2]).columns[2]);
        assert(tp.columns[3] =~= Transform3D::<T>::spec_with_translation(t[0], t[1], t[2]).columns[3]);
        assert(tp.columns =~= Transform3D::<T>::spec_with_translation(t[0], t[1], t[2]).columns);
    }
    let m0 = Transform3D::spec_multiply(tp, rot);
    multiply_composes(tp, rot, q3);
    translation_moves_points(t[0], t[1], t[2], rot.spec_apply(q3));
    let m1 = Decomposition3D::skewed(m0, d.skew[2], Decomposition3D::skew_yz(d.skew[2]));
    lemma_skewed_apply(m0, d.skew[2], Decomposition3D::skew_yz(d.skew[2]), q2, q3);
    let m2 = Decomposition3D::skewed(m1, d.skew[1], Decomposition3D::skew_xz(d.skew[1]));
    lemma_skewed_apply(m1, d.skew[1], Decomposition3D::skew_xz(d.skew[1]), q1, q2);
    let m3 = Decomposition3D::skewed(m2, d.skew[0], Decomposition3D::skew_xy(d.skew[0]));
    lemma_skewed_apply(m2, d.skew[0], Decomposition3D::skew_xy(d.skew[0]), q0, q1);
    lemma_scaled_apply(m3, d.scale, p);
}

/// The facts of real arithmetic and trigonometry that rotations by an
/// angle about an axis rest on: `unit_laws`; `-0 = 0`, `0 - x = -x`,
/// `a * (-b) = -(a * b)`, `(-a) * b = -(a * b)`, `--x = x`; `sqrt(1) = 1`;
/// and the half-angle identities `1 - 2 sin²(a/2) = cos(a)`,
/// `2 sin(a/2) cos(a/2) = sin(a)`.
pub open spec fn rotation_laws<T: Scalar>() -> bool {
    let i = T::spec_one();
    let o = T::spec_zero();
    &&& unit_laws::<T>()
    &&& o.spec_neg() == o
    &&& forall|x: T| #[trigger] o.spec_sub(x) == x.spec_neg()
    &&& forall|a: T, b: T| #[trigger] a.spec_mul(b.spec_neg()) == a.spec_mul(b).spec_neg()
    &&& forall|a: T, b: T| #[trigger] a.spec_neg().spec_mul(b) == a.spec_mul(b).spec_neg()
    &&& forall|x: T| #[trigger] x.spec_neg().spec_neg() == x
    &&& i.spec_sqrt() == i
    &&& forall|a: T| #[trigger] i.spec_sub(two::<T>().spec_mul(
        a.spec_div(two::<T>()).spec_sin().spec_mul(a.spec_div(two::<T>()).spec_sin()),
    )) == a.spec_cos()
    &&& forall|a: T| #[trigger] two::<T>().spec_mul(
        a.spec_div(two::<T>()).spec_sin().spec_mul(a.spec_div(two::<T>()).spec_cos()),
    ) == a.spec_sin()
}

/// A rotation by the angle `a` about the z axis turns x towards y:
/// `(x, y, z)` goes to `(cos(a) x - sin(a) y, sin(a) x + cos(a) y, z)`.
pub proof fn z_rotation_turns_points<T: Scalar>(a: T, p: Point3D<T>)
    requires
        rotation_laws::<T>(),
    ensures
        Transform3D::spec_with_rotation(Quaternion3D::spec_with_angle(a, T::spec_zero(), T::spec_zero(), T::spec_one()))
            .spec_apply(p) == (Point3D {
            x: a.spec_cos().spec_mul(p.x).spec_add(a.spec_sin().spec_neg().spec_mul(p.y)),
            y: a.spec_sin().spec_mul(p.x).spec_add(a.spec_cos().spec_mul(p.y)),
            z: p.z,
        }),
{
    let o = T::spec_zero();
    let i = T::spec_one();
    let r = Point3D { x: o, y: o, z: i };
    assert(r.spec_l2_norm() == i);
    let h = a.spec_div(two::<T>());
    let q = Quaternion3D::<T>::spec_with_angle(a, o, o, i);
    assert(q == Quaternion3D { x: o, y: o, z: h.spec_sin(), w: h.spec_cos() });
    let m = Transform3D::<T>::spec_with_rotation(q);
    let sc = h.spec_sin().spec_mul(h.spec_cos());
    assert(o.spec_sub(sc) == sc.spec_neg());
    assert(two::<T>().spec_mul(sc.spec_neg()) == two::<T>().spec_mul(sc).spec_neg());
    assert(m.at(0, 0) == a.spec_cos());
    assert(m.at(1, 0) == a.spec_sin().spec_neg());
    assert(m.at(0, 1) == a.spec_sin());
    assert(m.at(1, 1) == a.spec_cos());
}

/// A rotation by the angle `a` about the negative x axis turns y towards
/// `z`'s opposite: `(x, y, z)` goes to
/// `(x, cos(a) y + sin(a) z, -sin(a) y + cos(a) z)`.
pub proof fn negative_x_rotation_turns_points<T: Scalar>(a: T, p: Point3D<T>)
    requires
        rotation_laws::<T>(),
    ensures
        Transform3D::spec_with_rotation(
            Quaternion3D::spec_with_angle(a, T::spec_one().spec_neg(), T::spec_zero(), T::spec_zero()),
        ).spec_apply(p) == (Point3D {
            x: p.x,
            y: a.spec_cos().spec_mul(p.y).spec_add(a.spec_sin().spec_mul(p.z)),
            z: a.spec_sin().spec_neg().spec_mul(p.y).spec_add(a.spec_cos().spec_mul(p.z)),
        }),
{
    let o = T::spec_zero();
    let i = T::spec_one();
    let n = i.spec_neg();
    assert(n.spec_mul(n) == i) by {
        assert(n.spec_mul(n) == i.spec_mul(n).spec_neg());
        assert(i.spec_mul(n) == n);
    }
    let r = Point3D { x: n, y: o, z: o };
    assert(r.spec_l2_norm() == i);
    let h = a.spec_div(two::<T>());
    let s = h.spec_sin();
    let c = h.spec_cos();
    assert(s.spec_mul(n) == s.spec_neg()) by {
        assert(s.spec_mul(n) == s.spec_mul(i).spec_neg());
    }
    let q = Quaternion3D::<T>::spec_with_angle(a, n, o, o);
    assert(q == Quaternion3D { x: s.spec_neg(), y: o, z: o, w: c });
    assert(s.spec_neg().spec_mul(s.spec_neg()) == s.spec_mul(s)) by {
        assert(s.spec_neg().spec_mul(s.spec_neg()) == s.spec_neg().spec_mul(s).spec_neg());
        assert(s.spec_neg().spec_mul(s) == s.spec_mul(s).spec_neg());
    }
    let m = Transform3D::<T>::spec_with_rotation(q);
    let sc = s.spec_mul(c);
    assert(s.spec_neg().spec_mul(c) == sc.spec_neg());
    assert(o.spec_sub(sc.spec_neg()) == sc);
    assert(two::<T>().spec_mul(sc.spec_neg()) == two::<T>().spec_mul(sc).spec_neg());
    assert(m.at(1, 1) == a.spec_cos());
    assert(m.at(2, 1) == a.spec_sin());
    assert(m.at(1, 2) == a.spec_sin().spec_neg());
    assert(m.at(2, 2) == a.spec_cos());
}

/// A rotation by the angle `a` about the negative y axis turns z towards
/// x: `(x, y, z)` goes to `(cos(a) x - sin(a) z, y, sin(a) x + cos(a) z)`.
pub proof fn negative_y_rotation_turns_points<T: Scalar>(a: T, p: Point3D<T>)
    requires
        rotation_laws::<T>(),
    ensures
        Transform3D::spec_with_rotation(
            Quaternion3D::spec_with_angle(a, T::spec_zero(), T::spec_one().spec_neg(), T::spec_zero()),
        ).spec_apply(p) == (Point3D {
            x: a.spec_cos().spec_mul(p.x).spec_add(a.spec_sin().spec_neg().spec_mul(p.z)),
            y: p.y,
            z: a.spec_sin().spec_mul(p.x).spec_add(a.spec_cos().spec_mul(p.z)),
        }),
{
    let o = T::spec_zero();
    let i = T::spec_one();
    let n = i.spec_neg();
    assert(n.spec_mul(n) == i) by {
        assert(n.spec_mul(n) == i.spec_mul(n).spec_neg());
        assert(i.spec_mul(n) == n);
    }
    let r = Point3D { x: o, y: n, z: o };
    assert(r.spec_l2_norm() == i);
    let h = a.spec_div(two::<T>());
    let s = h.spec_sin();
    let c = h.spec_cos();
    assert(s.spec_mul(n) == s.spec_neg()) by {
        assert(s.spec_mul(n) == s.spec_mul(i).spec_neg());
    }
    let q = Quaternion3D::<T>::spec_with_angle(a, o, n, o);
    assert(q == Quaternion3D { x: o, y: s.spec_neg(), z: o, w: c });
    assert(s.spec_neg().spec_mul(s.spec_neg()) == s.spec_mul(s)) by {
        assert(s.spec_neg().spec_mul(s.spec_neg()) == s.spec_neg().spec_mul(s).spec_neg());
        assert(s.spec_neg().spec_mul(s) == s.spec_mul(s).spec_neg());
    }
    let m = Transform3D::<T>::spec_with_rotation(q);
    let sc = s.spec_mul(c);
    assert(s.spec_neg().spec_mul(c) == sc.spec_neg());
    assert(o.spec_sub(sc.spec_neg()) == sc);
    assert(two::<T>().spec_mul(sc.spec_neg()) == two::<T>().spec_mul(sc).spec_neg());
    assert(m.at(0, 0) == a.spec_cos());
    assert(m.at(2, 0) == a.spec_sin().spec_neg());
    assert(m.at(0, 2) == a.spec_sin());
    assert(m.at(2, 2) == a.spec_cos());
}

/// The facts of real arithmetic that decomposing a scale and translation
/// rests on: `unit_laws`; `-0 = 0`; `0` is numerically zero and `1` is
/// not, nor is a product of positive numbers; `0 < 0` and `1 < 0` fail;
/// `(x + y) - y = x`, `(x - y) + y = x`, `x - x = 0`, `0 / x = 0` and
/// `x / x = 1` for `x != 0`; a positive number is not zero, and `sqrt` of a
/// positive number's square is that number; `sqrt(0) = 0`,
/// `sqrt(4) = 2`, `max(0, 0) = 0`, `max(4, 0) = 4` and `(1/2) * 2 = 1`.
pub open spec fn decompose_laws<T: Scalar>() -> bool {
    let o = T::spec_zero();
    let i = T::spec_one();
    let t = two::<T>();
    let four = i.spec_add(i).spec_add(i).spec_add(i);
    &&& unit_laws::<T>()
    &&& o.spec_neg() == o
    &&& is_zero(o)
    &&& !is_zero(i)
    &&& forall|a: T, b: T| o.spec_lt(a) && o.spec_lt(b) ==> #[trigger] o.spec_lt(a.spec_mul(b))
    &&& forall|a: T| o.spec_lt(a) ==> !is_zero(a)
    &&& !o.spec_lt(o)
    &&& !i.spec_lt(o)
    &&& forall|x: T, y: T| #[trigger] x.spec_add(y).spec_sub(y) == x
    &&& forall|x: T, y: T| #[trigger] x.spec_sub(y).spec_add(y) == x
    &&& forall|x: T| #[trigger] x.spec_sub(x) == o
    &&& forall|x: T| x != o ==> #[trigger] o.spec_div(x) == o
    &&& forall|x: T| x != o ==> #[trigger] x.spec_div(x) == i
    &&& forall|x: T| o.spec_lt(x) ==> x != o
    &&& forall|x: T| o.spec_lt(x) ==> #[trigger] x.spec_mul(x).spec_sqrt() == x
    &&& o.spec_sqrt() == o
    &&& four.spec_sqrt() == t
    &&& o.spec_max(o) == o
    &&& four.spec_max(o) == four
    &&& i.spec_div(t).spec_mul(t) == i
}

/// The matrix that scales by `(a, b, c)` and then translates by
/// `(tx, ty, tz)`.
pub open spec fn scale_then_translate<T: Scalar>(a: T, b: T, c: T, tx: T, ty: T, tz: T) -> Transform3D<T> {
    let o = T::spec_zero();
    let i = T::spec_one();
    matrix([a, o, o, o], [o, b, o, o], [o, o, c, o], [tx, ty, tz, i])
}

/// Decomposing a positive scale followed by a translation gives back the
/// translation and the scale, with no skew, no perspective and no rotation.
pub proof fn decompose_recovers_scale_and_translation<T: Scalar>(a: T, b: T, c: T, tx: T, ty: T, tz: T)
    requires
        decompose_laws::<T>(),
        T::spec_zero().spec_lt(a),
        T::spec_zero().spec_lt(b),
        T::spec_zero().spec_lt(c),
    ensures
        Decomposition3D::spec_decompose(scale_then_translate(a, b, c, tx, ty, tz)) == Some(Decomposition3D {
            translation: [tx, ty, tz],
            scale: [a, b, c],
            skew: [T::spec_zero(), T::spec_zero(), T::spec_zero()],
            perspective: [T::spec_zero(), T::spec_zero(), T::spec_zero(), T::spec_one()],
            quaternion: Quaternion3D { x: T::spec_zero(), y: T::spec_zero(), z: T::spec_zero(), w: T::spec_one() },
        }),
{
    let o = T::spec_zero();
    let i = T::spec_one();
    let m = scale_then_translate(a, b, c, tx, ty, tz);
    // normalizing divides by one
    let n = Decomposition3D::normalized(m);
    assert(n.columns =~= m.columns) by {
        assert(n.columns[0] =~= m.columns[0]);
        assert(n.columns[1] =~= m.columns[1]);
        assert(n.columns[2] =~= m.columns[2]);
        assert(n.columns[3] =~= m.columns[3]);
    }
    assert(n == m);
    // the determinant is `(a * b) * c`
    let pm = Decomposition3D::perspective_matrix(n);
    assert(pm.columns =~= m.columns) by {
        assert(pm.columns[0] =~= m.columns[0]);
        assert(pm.columns[1] =~= m.columns[1]);
        assert(pm.columns[2] =~= m.columns[2]);
        assert(pm.columns[3] =~= m.columns[3]);
    }
    let bl = spec_blue(pm);
    let rd = spec_red(pm);
    assert(bl[0] == a.spec_mul(b));
    assert(rd[5] == c);
    assert(spec_determinant(bl, rd) == a.spec_mul(b).spec_mul(c));
    assert(o.spec_lt(a.spec_mul(b).spec_mul(c)));
    assert(!Decomposition3D::singular(m));
    // Gram-Schmidt on the rows
    let sh = Decomposition3D::shear(n);
    assert(a != o && b != o && c != o);
    assert(length3([a, o, o]) == a) by {
        assert(dot3([a, o, o], [a, o, o]) == a.spec_mul(a));
    }
    assert(normalize3([a, o, o]) == [i, o, o]);
    let e0 = [i, o, o];
    assert(dot3(e0, [o, b, o]) == o);
    assert(combine3([o, b, o], i, e0, o.spec_neg()) =~= [o, b, o]);
    assert(length3([o, b, o]) == b) by {
        assert(dot3([o, b, o], [o, b, o]) == b.spec_mul(b));
    }
    assert(normalize3([o, b, o]) =~= [o, i, o]);
    let e1 = [o, i, o];
    assert(dot3(e0, [o, o, c]) == o);
    assert(combine3([o, o, c], i, e0, o.spec_neg()) =~= [o, o, c]);
    assert(dot3(e1, [o, o, c]) == o);
    assert(combine3([o, o, c], i, e1, o.spec_neg()) =~= [o, o, c]);
    assert(length3([o, o, c]) == c) by {
        assert(dot3([o, o, c], [o, o, c]) == c.spec_mul(c));
    }
    assert(normalize3([o, o, c]) =~= [o, o, i]);
    let e2 = [o, o, i];
    assert(sh.scale =~= [a, b, c]);
    assert(sh.skew =~= [o, o, o]);
    assert(sh.row0 =~= e0);
    assert(sh.row1 =~= e1);
    assert(sh.row2 =~= e2);
    // the rows are right-handed
    assert(cross3(e1, e2) =~= e0);
    assert(dot3(e0, e0) == i);
    assert(!Decomposition3D::flipped(sh));
    let osh = Decomposition3D::oriented(sh);
    assert(osh == sh);
    // and make no rotation
    let four = i.spec_add(i).spec_add(i).spec_add(i);
    assert(half_root(o) == o) by {
        assert(i.spec_div(two::<T>()).spec_mul(o) == o);
    }
    assert(half_root(four) == i);
    assert(i.spec_add(i).spec_sub(i).spec_sub(i) == o);
    assert(i.spec_sub(i).spec_add(i).spec_sub(i) == o);
    assert(i.spec_sub(i).spec_sub(i).spec_add(i) == o) by {
        assert(o.spec_sub(i).spec_add(i) == o);
    }
    assert(Decomposition3D::rotation_of(e0, e1, e2) == Quaternion3D { x: o, y: o, z: o, w: i });
}

} // verus!
