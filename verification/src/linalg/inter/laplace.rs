//! Determinant, adjugate and inverse of a 4x4 matrix by Laplace expansion.

use vstd::prelude::*;
use crate::scalar::{Scalar, is_zero, scalar_is_zero};
use crate::linalg::transform::{Transform3D, matrix};

verus! {

/// Container that memoizes the results of laplace expansion that is used to
/// compute the determinant, adjugate and (as a result) the inverse of a 3D
/// transformation matrix.
#[derive(Copy, Clone, Debug)]
pub struct LaplaceExpansion3D<'a, T> {
    /// Reference to the original transformation matrices that we will need to
    /// compute the adjugate matrix.
    pub transform: &'a Transform3D<T>,
    /// Coefficients of the _blue_ areas.
    pub blue: [T; 6],
    /// Coefficients of the _red_ areas.
    pub red: [T; 6],
}

/// Entry in row `r` and column `c` (the matrix stores columns).
pub open spec fn a<T>(m: Transform3D<T>, r: int, c: int) -> T {
    m.columns[c][r]
}

/// The 2x2 minor `a(r0, c0) * a(r1, c1) - a(r0, c1) * a(r1, c0)`.
pub open spec fn minor<T: Scalar>(m: Transform3D<T>, r0: int, r1: int, c0: int, c1: int) -> T {
    a(m, r0, c0).spec_mul(a(m, r1, c1)).spec_sub(a(m, r0, c1).spec_mul(a(m, r1, c0)))
}

/// The minors of the top two rows.
pub open spec fn spec_blue<T: Scalar>(m: Transform3D<T>) -> [T; 6] {
    [
        minor(m, 0, 1, 0, 1),
        minor(m, 0, 1, 0, 2),
        minor(m, 0, 1, 0, 3),
        minor(m, 0, 1, 1, 2),
        minor(m, 0, 1, 1, 3),
        minor(m, 0, 1, 2, 3),
    ]
}

/// The minors of the bottom two rows.
pub open spec fn spec_red<T: Scalar>(m: Transform3D<T>) -> [T; 6] {
    [
        minor(m, 2, 3, 0, 1),
        minor(m, 2, 3, 0, 2),
        minor(m, 2, 3, 0, 3),
        minor(m, 2, 3, 1, 2),
        minor(m, 2, 3, 1, 3),
        minor(m, 2, 3, 2, 3),
    ]
}

/// The determinant from the blue and red minors.
pub open spec fn spec_determinant<T: Scalar>(s: [T; 6], c: [T; 6]) -> T {
    s[0].spec_mul(c[5]).spec_sub(s[1].spec_mul(c[4])).spec_add(s[2].spec_mul(c[3])).spec_add(
        s[3].spec_mul(c[2]),
    ).spec_sub(s[4].spec_mul(c[1])).spec_add(s[5].spec_mul(c[0]))
}

/// `x * p - y * q + z * r`, the shape of each adjugate entry.
pub open spec fn tri<T: Scalar>(x: T, p: T, y: T, q: T, z: T, r: T) -> T {
    x.spec_mul(p).spec_sub(y.spec_mul(q)).spec_add(z.spec_mul(r))
}

/// `-x * p + y * q - z * r`.
pub open spec fn tri_n<T: Scalar>(x: T, p: T, y: T, q: T, z: T, r: T) -> T {
    x.spec_neg().spec_mul(p).spec_add(y.spec_mul(q)).spec_sub(z.spec_mul(r))
}

/// The adjugate matrix from the matrix and its minors.
pub open spec fn spec_adjugate<T: Scalar>(m: Transform3D<T>, s: [T; 6], c: [T; 6]) -> Transform3D<T> {
    let a00 = a(m, 0, 0); let a10 = a(m, 1, 0); let a20 = a(m, 2, 0); let a30 = a(m, 3, 0);
    let a01 = a(m, 0, 1); let a11 = a(m, 1, 1); let a21 = a(m, 2, 1); let a31 = a(m, 3, 1);
    let a02 = a(m, 0, 2); let a12 = a(m, 1, 2); let a22 = a(m, 2, 2); let a32 = a(m, 3, 2);
    let a03 = a(m, 0, 3); let a13 = a(m, 1, 3); let a23 = a(m, 2, 3); let a33 = a(m, 3, 3);
    matrix(
        [
            tri(a11, c[5], a12, c[4], a13, c[3]),
            tri_n(a10, c[5], a12, c[2], a13, c[1]),
            tri(a10, c[4], a11, c[2], a13, c[0]),
            tri_n(a10, c[3], a11, c[1], a12, c[0]),
        ],
        [
            tri_n(a01, c[5], a02, c[4], a03, c[3]),
            tri(a00, c[5], a02, c[2], a03, c[1]),
            tri_n(a00, c[4], a01, c[2], a03, c[0]),
            tri(a00, c[3], a01, c[1], a02, c[0]),
        ],
        [
            tri(a31, s[5], a32, s[4], a33, s[3]),
            tri_n(a30, s[5], a32, s[2], a33, s[1]),
            tri(a30, s[4], a31, s[2], a33, s[0]),
            tri_n(a30, s[3], a31, s[1], a32, s[0]),
        ],
        [
            tri_n(a21, s[5], a22, s[4], a23, s[3]),
            tri(a20, s[5], a22, s[2], a23, s[1]),
            tri_n(a20, s[4], a21, s[2], a23, s[0]),
            tri(a20, s[3], a21, s[1], a22, s[0]),
        ],
    )
}

fn minor_exec<T: Scalar>(m: &Transform3D<T>, r0: usize, r1: usize, c0: usize, c1: usize) -> (r: T)
    requires
        r0 < 4,
        r1 < 4,
        c0 < 4,
        c1 < 4,
    ensures
        r == minor(*m, r0 as int, r1 as int, c0 as int, c1 as int),
{
    m.columns[c0][r0].mul(m.columns[c1][r1]).sub(m.columns[c1][r0].mul(m.columns[c0][r1]))
}

fn tri_exec<T: Scalar>(x: T, p: T, y: T, q: T, z: T, r: T) -> (o: T)
    ensures
        o == tri(x, p, y, q, z, r),
{
    x.mul(p).sub(y.mul(q)).add(z.mul(r))
}

fn tri_n_exec<T: Scalar>(x: T, p: T, y: T, q: T, z: T, r: T) -> (o: T)
    ensures
        o == tri_n(x, p, y, q, z, r),
{
    x.neg().mul(p).add(y.mul(q)).sub(z.mul(r))
}

impl<'a, T: Scalar> LaplaceExpansion3D<'a, T> {
    /// Returns a new laplace expansion of the given transformation matrix.
    pub fn new(transform: &'a Transform3D<T>) -> (r: LaplaceExpansion3D<'a, T>)
        ensures
            *r.transform == *transform,
            r.blue == spec_blue(*transform),
            r.red == spec_red(*transform),
    {
        let m = transform;
        let blue = [
            minor_exec(m, 0, 1, 0, 1),
            minor_exec(m, 0, 1, 0, 2),
            minor_exec(m, 0, 1, 0, 3),
            minor_exec(m, 0, 1, 1, 2),
            minor_exec(m, 0, 1, 1, 3),
            minor_exec(m, 0, 1, 2, 3),
        ];
        let red = [
            minor_exec(m, 2, 3, 0, 1),
            minor_exec(m, 2, 3, 0, 2),
            minor_exec(m, 2, 3, 0, 3),
            minor_exec(m, 2, 3, 1, 2),
            minor_exec(m, 2, 3, 1, 3),
            minor_exec(m, 2, 3, 2, 3),
        ];
        LaplaceExpansion3D { transform, blue, red }
    }

    /// Returns the determinant of this transformation matrix.
    pub fn determinant(&self) -> (r: T)
        ensures
            r == spec_determinant(self.blue, self.red),
    {
        let s = self.blue;
        let c = self.red;
        s[0].mul(c[5]).sub(s[1].mul(c[4])).add(s[2].mul(c[3])).add(s[3].mul(c[2])).sub(
            s[4].mul(c[1]),
        ).add(s[5].mul(c[0]))
    }

    /// Returns the adjugate of this transformation matrix.
    pub fn adjugate(&self) -> (r: Transform3D<T>)
        ensures
            r == spec_adjugate(*self.transform, self.blue, self.red),
    {
        let s = self.blue;
        let c = self.red;
        let m = self.transform.columns;
        let a00 = m[0][0]; let a10 = m[0][1]; let a20 = m[0][2]; let a30 = m[0][3];
        let a01 = m[1][0]; let a11 = m[1][1]; let a21 = m[1][2]; let a31 = m[1][3];
        let a02 = m[2][0]; let a12 = m[2][1]; let a22 = m[2][2]; let a32 = m[2][3];
        let a03 = m[3][0]; let a13 = m[3][1]; let a23 = m[3][2]; let a33 = m[3][3];
        Transform3D {
            columns: [
                [
                    tri_exec(a11, c[5], a12, c[4], a13, c[3]),
                    tri_n_exec(a10, c[5], a12, c[2], a13, c[1]),
                    tri_exec(a10, c[4], a11, c[2], a13, c[0]),
                    tri_n_exec(a10, c[3], a11, c[1], a12, c[0]),
                ],
                [
                    tri_n_exec(a01, c[5], a02, c[4], a03, c[3]),
                    tri_exec(a00, c[5], a02, c[2], a03, c[1]),
                    tri_n_exec(a00, c[4], a01, c[2], a03, c[0]),
                    tri_exec(a00, c[3], a01, c[1], a02, c[0]),
                ],
                [
                    tri_exec(a31, s[5], a32, s[4], a33, s[3]),
                    tri_n_exec(a30, s[5], a32, s[2], a33, s[1]),
                    tri_exec(a30, s[4], a31, s[2], a33, s[0]),
                    tri_n_exec(a30, s[3], a31, s[1], a32, s[0]),
                ],
                [
                    tri_n_exec(a21, s[5], a22, s[4], a23, s[3]),
                    tri_exec(a20, s[5], a22, s[2], a23, s[1]),
                    tri_n_exec(a20, s[4], a21, s[2], a23, s[0]),
                    tri_exec(a20, s[3], a21, s[1], a22, s[0]),
                ],
            ],
        }
    }

    /// Returns the inverse of this transformation matrix (if it exists) using
    /// the determinant and adjugate. If the determinant is zero, this function
    /// returns `None`.
    pub fn inverse(&self) -> (r: Option<Transform3D<T>>)
        ensures
            is_zero(spec_determinant(self.blue, self.red)) ==> r is None,
            !is_zero(spec_determinant(self.blue, self.red)) ==> r == Some(
                spec_adjugate(*self.transform, self.blue, self.red).spec_multiply_scalar(
                    spec_determinant(self.blue, self.red).spec_recip(),
                ),
            ),
    {
        let det = self.determinant();
        if scalar_is_zero(det) {
            None
        } else {
            Some(self.adjugate().multiply_scalar(det.recip()))
        }
    }
}

} // verus!
