//! Decomposition of 3D transformation matrices into translation, scale, skew,
//! perspective and rotation, their interpolation and their recomposition.

use vstd::prelude::*;
use crate::scalar::{Scalar, is_zero, scalar_is_zero, two};
use crate::linalg::geometry::Quaternion3D;
use crate::linalg::transform::{Transform3D, matrix};
use super::algebra::{
    Combine, Cross, Dot, Vector, combine3, combine4, cross3, dot3, length3, normalize3,
};
use super::laplace::{LaplaceExpansion3D, spec_blue, spec_determinant, spec_red};

verus! {

/// This represents the decomposition of a 3D transformation matrix into
/// three-component translation, scale and skew vectors, a four-component
/// perspective vector and a rotation quaternion.
#[derive(Copy, Clone, Debug, Default, PartialEq)]
pub struct Decomposition3D<T> {
    /// This is the three-component translation vector of this decomposition.
    pub translation: [T; 3],
    /// This is the three-component scale vector of this decomposition.
    pub scale: [T; 3],
    /// This is the three-component skew vector of this decomposition.
    pub skew: [T; 3],
    /// This is the four-component perspective vector of this decomposition.
    pub perspective: [T; 4],
    /// This is the rotation quaternion of this decomposition.
    pub quaternion: Quaternion3D<T>,
}

impl<T> Decomposition3D<T> {
    /// Returns a new transformation matrix decomposition with the given
    /// translation, scale, skew, perspective and rotation quaternion.
    pub fn new(
        translation: [T; 3],
        scale: [T; 3],
        skew: [T; 3],
        perspective: [T; 4],
        quaternion: Quaternion3D<T>,
    ) -> (r: Decomposition3D<T>)
        ensures
            r == (Decomposition3D { translation, scale, skew, perspective, quaternion }),
    {
        Decomposition3D { translation, scale, skew, perspective, quaternion }
    }

    /// Returns a new decomposition with references to all elements of the
    /// previous composition.
    pub fn as_ref(&self) -> (r: Decomposition3D<&T>)
        ensures
            forall|i: int| 0 <= i < 3 ==> *#[trigger] r.translation[i] == self.translation[i],
            forall|i: int| 0 <= i < 3 ==> *#[trigger] r.scale[i] == self.scale[i],
            forall|i: int| 0 <= i < 3 ==> *#[trigger] r.skew[i] == self.skew[i],
            forall|i: int| 0 <= i < 4 ==> *#[trigger] r.perspective[i] == self.perspective[i],
            *r.quaternion.x == self.quaternion.x,
            *r.quaternion.y == self.quaternion.y,
            *r.quaternion.z == self.quaternion.z,
            *r.quaternion.w == self.quaternion.w,
    {
        Decomposition3D {
            translation: [&self.translation[0], &self.translation[1], &self.translation[2]],
            scale: [&self.scale[0], &self.scale[1], &self.scale[2]],
            skew: [&self.skew[0], &self.skew[1], &self.skew[2]],
            perspective: [
                &self.perspective[0],
                &self.perspective[1],
                &self.perspective[2],
                &self.perspective[3],
            ],
            quaternion: self.quaternion.as_ref(),
        }
    }
}

impl<T: Copy> Decomposition3D<T> {
    /// Applies the given operation to each element in this decomposition and
    /// returns the result. The operation may return a value of different type
    /// than the decomposition's previous value type.
    pub fn map<F, O>(self, op: F) -> (r: Decomposition3D<O>)
        where
            F: Fn(T) -> O,
        requires
            forall|i: int| 0 <= i < 3 ==> call_requires(op, (#[trigger] self.translation[i],)),
            forall|i: int| 0 <= i < 3 ==> call_requires(op, (#[trigger] self.scale[i],)),
            forall|i: int| 0 <= i < 3 ==> call_requires(op, (#[trigger] self.skew[i],)),
            forall|i: int| 0 <= i < 4 ==> call_requires(op, (#[trigger] self.perspective[i],)),
            call_requires(op, (self.quaternion.x,)),
            call_requires(op, (self.quaternion.y,)),
            call_requires(op, (self.quaternion.z,)),
            call_requires(op, (self.quaternion.w,)),
        ensures
            forall|i: int|
                0 <= i < 3 ==> call_ensures(op, (#[trigger] self.translation[i],), r.translation[i]),
            forall|i: int| 0 <= i < 3 ==> call_ensures(op, (#[trigger] self.scale[i],), r.scale[i]),
            forall|i: int| 0 <= i < 3 ==> call_ensures(op, (#[trigger] self.skew[i],), r.skew[i]),
            forall|i: int|
                0 <= i < 4 ==> call_ensures(op, (#[trigger] self.perspective[i],), r.perspective[i]),
            call_ensures(op, (self.quaternion.x,), r.quaternion.x),
            call_ensures(op, (self.quaternion.y,), r.quaternion.y),
            call_ensures(op, (self.quaternion.z,), r.quaternion.z),
            call_ensures(op, (self.quaternion.w,), r.quaternion.w),
    {
        let t = self.translation;
        let s = self.scale;
        let k = self.skew;
        let p = self.perspective;
        Decomposition3D {
            translation: [op(t[0]), op(t[1]), op(t[2])],
            scale: [op(s[0]), op(s[1]), op(s[2])],
            skew: [op(k[0]), op(k[1]), op(k[2])],
            perspective: [op(p[0]), op(p[1]), op(p[2]), op(p[3])],
            quaternion: self.quaternion.map(op),
        }
    }
}

/// The entry-wise negation of a three-component vector.
pub open spec fn neg3<T: Scalar>(a: [T; 3]) -> [T; 3] {
    [a[0].spec_neg(), a[1].spec_neg(), a[2].spec_neg()]
}

fn neg3_exec<T: Scalar>(a: [T; 3]) -> (r: [T; 3])
    ensures
        r == neg3(a),
{
    [a[0].neg(), a[1].neg(), a[2].neg()]
}

/// `(1 + a + b + c).max(0).sqrt() / 2` with the signs given: the magnitude
/// of a quaternion element recovered from the diagonal of a rotation.
pub open spec fn half_root<T: Scalar>(s: T) -> T {
    T::spec_one().spec_div(two::<T>()).spec_mul(s.spec_max(T::spec_zero()).spec_sqrt())
}

/// The scale, skew and orthonormal rows that Gram-Schmidt orthogonalization
/// extracts from the upper 3x3 block of a normalized matrix (before the
/// coordinate system flip).
pub struct Shear<T> {
    /// Length of each row after removing the components along earlier rows.
    pub scale: [T; 3],
    /// XY, XZ and YZ shear factors.
    pub skew: [T; 3],
    /// The orthonormalized rows.
    pub row0: [T; 3],
    /// The orthonormalized rows.
    pub row1: [T; 3],
    /// The orthonormalized rows.
    pub row2: [T; 3],
}

impl<T: Scalar> Decomposition3D<T> {
    /// Every entry divided by the bottom-right entry.
    pub open spec fn normalized(m: Transform3D<T>) -> Transform3D<T> {
        let c = m.columns;
        let d = c[3][3];
        matrix(
            [c[0][0].spec_div(d), c[0][1].spec_div(d), c[0][2].spec_div(d), c[0][3].spec_div(d)],
            [c[1][0].spec_div(d), c[1][1].spec_div(d), c[1][2].spec_div(d), c[1][3].spec_div(d)],
            [c[2][0].spec_div(d), c[2][1].spec_div(d), c[2][2].spec_div(d), c[2][3].spec_div(d)],
            [c[3][0].spec_div(d), c[3][1].spec_div(d), c[3][2].spec_div(d), c[3][3].spec_div(d)],
        )
    }

    /// The normalized matrix without its perspective part.
    pub open spec fn perspective_matrix(n: Transform3D<T>) -> Transform3D<T> {
        let c = n.columns;
        let o = T::spec_zero();
        matrix(
            [c[0][0], c[0][1], c[0][2], o],
            [c[1][0], c[1][1], c[1][2], o],
            [c[2][0], c[2][1], c[2][2], o],
            [c[3][0], c[3][1], c[3][2], T::spec_one()],
        )
    }

    /// The matrix cannot be decomposed: its bottom-right entry is zero, or its
    /// normalized upper 3x3 part (with the translation) is singular.
    pub open spec fn singular(m: Transform3D<T>) -> bool {
        let p = Self::perspective_matrix(Self::normalized(m));
        is_zero(m.columns[3][3]) || is_zero(spec_determinant(spec_blue(p), spec_red(p)))
    }

    /// The normalized matrix has a perspective part (which decomposition does
    /// not support).
    pub open spec fn has_perspective(m: Transform3D<T>) -> bool {
        let n = Self::normalized(m).columns;
        !is_zero(n[0][3]) || !is_zero(n[1][3]) || !is_zero(n[2][3])
    }

    /// Gram-Schmidt orthogonalization of the rows of the upper 3x3 block:
    /// the scale is the length of each row after the components along the
    /// earlier rows are removed, the skews are those components (divided by
    /// the scales), and the rows end up orthonormal, the last one flipped
    /// with the scales where the block mirrors.
    pub open spec fn shear(n: Transform3D<T>) -> Shear<T> {
        let c = n.columns;
        let one = T::spec_one();
        let r0 = [c[0][0], c[0][1], c[0][2]];
        let r1 = [c[1][0], c[1][1], c[1][2]];
        let r2 = [c[2][0], c[2][1], c[2][2]];
        let sc0 = length3(r0);
        let r0 = normalize3(r0);
        let k0 = dot3(r0, r1);
        let r1 = combine3(r1, one, r0, k0.spec_neg());
        let sc1 = length3(r1);
        let r1 = normalize3(r1);
        let k0 = k0.spec_div(sc1);
        let k1 = dot3(r0, r2);
        let r2 = combine3(r2, one, r0, k1.spec_neg());
        let k2 = dot3(r1, r2);
        let r2 = combine3(r2, one, r1, k2.spec_neg());
        let sc2 = length3(r2);
        let r2 = normalize3(r2);
        let k1 = k1.spec_div(sc2);
        let k2 = k2.spec_div(sc2);
        Shear { scale: [sc0, sc1, sc2], skew: [k0, k1, k2], row0: r0, row1: r1, row2: r2 }
    }

    /// The rows span a left-handed system (their triple product is negative).
    pub open spec fn flipped(s: Shear<T>) -> bool {
        dot3(s.row0, cross3(s.row1, s.row2)).spec_lt(T::spec_zero())
    }

    /// The shear with the scale and rows negated when the system is flipped.
    pub open spec fn oriented(s: Shear<T>) -> Shear<T> {
        if Self::flipped(s) {
            Shear {
                scale: neg3(s.scale),
                skew: s.skew,
                row0: neg3(s.row0),
                row1: neg3(s.row1),
                row2: neg3(s.row2),
            }
        } else {
            s
        }
    }

    /// The rotation quaternion of an orthonormal right-handed system of rows:
    /// each element's magnitude is half the square root of one plus or minus
    /// the diagonal entries (the trace identities of a rotation matrix), and
    /// its sign follows the antisymmetric part of the matrix.
    pub open spec fn rotation_of(r0: [T; 3], r1: [T; 3], r2: [T; 3]) -> Quaternion3D<T> {
        let one = T::spec_one();
        let x = half_root(one.spec_add(r0[0]).spec_sub(r1[1]).spec_sub(r2[2]));
        let y = half_root(one.spec_sub(r0[0]).spec_add(r1[1]).spec_sub(r2[2]));
        let z = half_root(one.spec_sub(r0[0]).spec_sub(r1[1]).spec_add(r2[2]));
        let w = half_root(one.spec_add(r0[0]).spec_add(r1[1]).spec_add(r2[2]));
        Quaternion3D {
            x: if r1[2].spec_lt(r2[1]) {
                x.spec_neg()
            } else {
                x
            },
            y: if r2[0].spec_lt(r0[2]) {
                y.spec_neg()
            } else {
                y
            },
            z: if r0[1].spec_lt(r1[0]) {
                z.spec_neg()
            } else {
                z
            },
            w,
        }
    }

    /// The decomposition of a matrix, if it is not singular.
    pub open spec fn spec_decompose(m: Transform3D<T>) -> Option<Decomposition3D<T>> {
        if Self::singular(m) {
            None
        } else {
            let n = Self::normalized(m);
            let s = Self::oriented(Self::shear(n));
            let o = T::spec_zero();
            Some(
                Decomposition3D {
                    translation: [n.columns[3][0], n.columns[3][1], n.columns[3][2]],
                    scale: s.scale,
                    skew: s.skew,
                    perspective: [o, o, o, T::spec_one()],
                    quaternion: Self::rotation_of(s.row0, s.row1, s.row2),
                },
            )
        }
    }

    fn normalize_exec(m: Transform3D<T>) -> (r: Transform3D<T>)
        ensures
            r == Self::normalized(m),
    {
        let c = m.columns;
        let d = c[3][3];
        Transform3D {
            columns: [
                [c[0][0].div(d), c[0][1].div(d), c[0][2].div(d), c[0][3].div(d)],
                [c[1][0].div(d), c[1][1].div(d), c[1][2].div(d), c[1][3].div(d)],
                [c[2][0].div(d), c[2][1].div(d), c[2][2].div(d), c[2][3].div(d)],
                [c[3][0].div(d), c[3][1].div(d), c[3][2].div(d), c[3][3].div(d)],
            ],
        }
    }

    fn shear_exec(n: &Transform3D<T>) -> (r: Shear<T>)
        ensures
            r == Self::shear(*n),
    {
        let c = n.columns;
        let one = T::one();
        let r0 = [c[0][0], c[0][1], c[0][2]];
        let r1 = [c[1][0], c[1][1], c[1][2]];
        let r2 = [c[2][0], c[2][1], c[2][2]];
        let sc0 = r0.length();
        let r0 = r0.normalize();
        let k0 = r0.dot(&r1);
        let r1 = r1.combine(one, &r0, k0.neg());
        let sc1 = r1.length();
        let r1 = r1.normalize();
        let k0 = k0.div(sc1);
        let k1 = r0.dot(&r2);
        let r2 = r2.combine(one, &r0, k1.neg());
        let k2 = r1.dot(&r2);
        let r2 = r2.combine(one, &r1, k2.neg());
        let sc2 = r2.length();
        let r2 = r2.normalize();
        let k1 = k1.div(sc2);
        let k2 = k2.div(sc2);
        Shear { scale: [sc0, sc1, sc2], skew: [k0, k1, k2], row0: r0, row1: r1, row2: r2 }
    }

    fn half_root_exec(s: T) -> (r: T)
        ensures
            r == half_root(s),
    {
        let one = T::one();
        one.div(one.add(one)).mul(s.max(T::zero()).sqrt())
    }

    fn rotation_of_exec(r0: [T; 3], r1: [T; 3], r2: [T; 3]) -> (q: Quaternion3D<T>)
        ensures
            q == Self::rotation_of(r0, r1, r2),
    {
        let one = T::one();
        let mut x = Self::half_root_exec(one.add(r0[0]).sub(r1[1]).sub(r2[2]));
        let mut y = Self::half_root_exec(one.sub(r0[0]).add(r1[1]).sub(r2[2]));
        let mut z = Self::half_root_exec(one.sub(r0[0]).sub(r1[1]).add(r2[2]));
        let w = Self::half_root_exec(one.add(r0[0]).add(r1[1]).add(r2[2]));
        if r1[2].lt(r2[1]) {
            x = x.neg();
        }
        if r2[0].lt(r0[2]) {
            y = y.neg();
        }
        if r0[1].lt(r1[0]) {
            z = z.neg();
        }
        Quaternion3D { x, y, z, w }
    }

    /// Decomposes a 3D transformation matrix into its three-component
    /// translation, scale and skew vectors, its four-component perspective
    /// vector and its rotation quaternion. Returns `None` if the bottom-right
    /// entry is zero or if the normalized matrix is singular. Matrices with a
    /// perspective part are not supported.
    pub fn decompose(matrix: Transform3D<T>) -> (r: Option<Decomposition3D<T>>)
        requires
            Self::singular(matrix) || !Self::has_perspective(matrix),
        ensures
            r == Self::spec_decompose(matrix),
    {
        if scalar_is_zero(matrix.columns[3][3]) {
            return None;
        }
        let n = Self::normalize_exec(matrix);
        let c = n.columns;
        let o = T::zero();
        let perspective_matrix = Transform3D {
            columns: [
                [c[0][0], c[0][1], c[0][2], o],
                [c[1][0], c[1][1], c[1][2], o],
                [c[2][0], c[2][1], c[2][2], o],
                [c[3][0], c[3][1], c[3][2], T::one()],
            ],
        };
        let expansion = LaplaceExpansion3D::new(&perspective_matrix);
        if scalar_is_zero(expansion.determinant()) {
            return None;
        }
        let perspective = [o, o, o, T::one()];
        let translation = [c[3][0], c[3][1], c[3][2]];
        let s = Self::shear_exec(&n);
        let pdum3 = s.row1.cross(&s.row2);
        let s = if s.row0.dot(&pdum3).lt(T::zero()) {
            Shear {
                scale: neg3_exec(s.scale),
                skew: s.skew,
                row0: neg3_exec(s.row0),
                row1: neg3_exec(s.row1),
                row2: neg3_exec(s.row2),
            }
        } else {
            s
        };
        let quaternion = Self::rotation_of_exec(s.row0, s.row1, s.row2);
        Some(Decomposition3D { translation, scale: s.scale, skew: s.skew, perspective, quaternion })
    }
}

impl<T: Scalar> Decomposition3D<T> {
    /// The interpolation at `progress` between `self` (at zero) and `other`
    /// (at one).
    pub open spec fn spec_interpolate(self, other: Decomposition3D<T>, progress: T) -> Decomposition3D<T> {
        let alpha = T::spec_one().spec_sub(progress);
        let beta = progress;
        Decomposition3D {
            translation: combine3(self.translation, alpha, other.translation, beta),
            scale: combine3(self.scale, alpha, other.scale, beta),
            skew: combine3(self.skew, alpha, other.skew, beta),
            perspective: combine4(self.perspective, alpha, other.perspective, beta),
            quaternion: self.quaternion.spec_mix(alpha, other.quaternion),
        }
    }

    /// The identity with the perspective vector as last row, translated by
    /// the translation vector.
    pub open spec fn translated_perspective(self) -> Transform3D<T> {
        let p = self.perspective;
        let t = self.translation;
        let i = T::spec_one();
        let o = T::spec_zero();
        matrix(
            [i, o, o, p[0]],
            [o, i, o, p[1]],
            [o, o, i, p[2]],
            [
                o.spec_add(t[0].spec_mul(i)).spec_add(t[1].spec_mul(o)).spec_add(t[2].spec_mul(o)),
                o.spec_add(t[0].spec_mul(o)).spec_add(t[1].spec_mul(i)).spec_add(t[2].spec_mul(o)),
                o.spec_add(t[0].spec_mul(o)).spec_add(t[1].spec_mul(o)).spec_add(t[2].spec_mul(i)),
                p[3].spec_add(t[0].spec_mul(p[0])).spec_add(t[1].spec_mul(p[1])).spec_add(
                    t[2].spec_mul(p[2]),
                ),
            ],
        )
    }

    /// The identity with `k` in column `2`, row `1` (YZ shear).
    pub open spec fn skew_yz(k: T) -> Transform3D<T> {
        let i = T::spec_one();
        let o = T::spec_zero();
        matrix([i, o, o, o], [o, i, o, o], [o, k, i, o], [o, o, o, i])
    }

    /// The identity with `k` in column `2`, row `0` (XZ shear).
    pub open spec fn skew_xz(k: T) -> Transform3D<T> {
        let i = T::spec_one();
        let o = T::spec_zero();
        matrix([i, o, o, o], [o, i, o, o], [k, o, i, o], [o, o, o, i])
    }

    /// The identity with `k` in column `1`, row `0` (XY shear).
    pub open spec fn skew_xy(k: T) -> Transform3D<T> {
        let i = T::spec_one();
        let o = T::spec_zero();
        matrix([i, o, o, o], [k, i, o, o], [o, o, i, o], [o, o, o, i])
    }

    /// `m` concatenated with `s` unless `k` is zero.
    pub open spec fn skewed(m: Transform3D<T>, k: T, s: Transform3D<T>) -> Transform3D<T> {
        if is_zero(k) {
            m
        } else {
            Transform3D::spec_multiply(m, s)
        }
    }

    /// The first three columns multiplied by the scale factors.
    pub open spec fn scaled(m: Transform3D<T>, s: [T; 3]) -> Transform3D<T> {
        let c = m.columns;
        matrix(
            [c[0][0].spec_mul(s[0]), c[0][1].spec_mul(s[0]), c[0][2].spec_mul(s[0]), c[0][3].spec_mul(s[0])],
            [c[1][0].spec_mul(s[1]), c[1][1].spec_mul(s[1]), c[1][2].spec_mul(s[1]), c[1][3].spec_mul(s[1])],
            [c[2][0].spec_mul(s[2]), c[2][1].spec_mul(s[2]), c[2][2].spec_mul(s[2]), c[2][3].spec_mul(s[2])],
            c[3],
        )
    }

    /// The matrix that this decomposition describes.
    pub open spec fn spec_recompose(self) -> Transform3D<T> {
        let m = Transform3D::spec_multiply(
            self.translated_perspective(),
            Transform3D::spec_with_rotation(self.quaternion),
        );
        let m = Self::skewed(m, self.skew[2], Self::skew_yz(self.skew[2]));
        let m = Self::skewed(m, self.skew[1], Self::skew_xz(self.skew[1]));
        let m = Self::skewed(m, self.skew[0], Self::skew_xy(self.skew[0]));
        Self::scaled(m, self.scale)
    }

    /// This function interpolates between this decomposition and the other
    /// given decomposition with the given progress value. If the progress value
    /// is zero, it will return this decomposition. If the progress value is
    /// one, it will return the other decomposition.
    pub fn interpolate(&self, other: &Self, progress: T) -> (r: Self)
        ensures
            r == self.spec_interpolate(*other, progress),
    {
        let mut result = *self;
        let alpha = T::one().sub(progress);
        let beta = progress;
        result.translation = result.translation.combine(alpha, &other.translation, beta);
        result.scale = result.scale.combine(alpha, &other.scale, beta);
        result.skew = result.skew.combine(alpha, &other.skew, beta);
        result.perspective = result.perspective.combine(alpha, &other.perspective, beta);
        result.quaternion = self.quaternion.mix(alpha, other.quaternion);
        result
    }

    /// Reconstructs the 3D transformation matrix from this decomposition.
    pub fn recompose(&self) -> (r: Transform3D<T>)
        ensures
            r == self.spec_recompose(),
    {
        let p = self.perspective;
        let t = self.translation;
        let i = T::one();
        let o = T::zero();
        let mut result = Transform3D {
            columns: [
                [i, o, o, p[0]],
                [o, i, o, p[1]],
                [o, o, i, p[2]],
                [
                    o.add(t[0].mul(i)).add(t[1].mul(o)).add(t[2].mul(o)),
                    o.add(t[0].mul(o)).add(t[1].mul(i)).add(t[2].mul(o)),
                    o.add(t[0].mul(o)).add(t[1].mul(o)).add(t[2].mul(i)),
                    p[3].add(t[0].mul(p[0])).add(t[1].mul(p[1])).add(t[2].mul(p[2])),
                ],
            ],
        };
        result = result.rotate(self.quaternion);
        if !scalar_is_zero(self.skew[2]) {
            let k = self.skew[2];
            let temp = Transform3D { columns: [[i, o, o, o], [o, i, o, o], [o, k, i, o], [o, o, o, i]] };
            result = result.concat(temp);
        }
        if !scalar_is_zero(self.skew[1]) {
            let k = self.skew[1];
            let temp = Transform3D { columns: [[i, o, o, o], [o, i, o, o], [k, o, i, o], [o, o, o, i]] };
            result = result.concat(temp);
        }
        if !scalar_is_zero(self.skew[0]) {
            let k = self.skew[0];
            let temp = Transform3D { columns: [[i, o, o, o], [k, i, o, o], [o, o, i, o], [o, o, o, i]] };
            result = result.concat(temp);
        }
        let c = result.columns;
        let s = self.scale;
        Transform3D {
            columns: [
                [c[0][0].mul(s[0]), c[0][1].mul(s[0]), c[0][2].mul(s[0]), c[0][3].mul(s[0])],
                [c[1][0].mul(s[1]), c[1][1].mul(s[1]), c[1][2].mul(s[1]), c[1][3].mul(s[1])],
                [c[2][0].mul(s[2]), c[2][1].mul(s[2]), c[2][2].mul(s[2]), c[2][3].mul(s[2])],
                c[3],
            ],
        }
    }
}

} // verus!
