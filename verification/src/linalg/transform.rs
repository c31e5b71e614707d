//! Rank 4 transformation matrices for 3D objects.

use vstd::prelude::*;
use crate::scalar::{Scalar, two};
use super::geometry::{Point3D, Quaternion3D};
use vstd::std_specs::cmp::PartialEqSpecImpl;

verus! {

/// Rank 4 row-major transformation matrix for 3D objects.
#[derive(Copy, Clone, Debug)]
pub struct Transform3D<T> {
    /// This field contains the entries of this matrix in column-major order.
    pub columns: [[T; 4]; 4],
}

/// Builds a matrix from its sixteen entries, column by column.
pub open spec fn matrix<T>(
    c0: [T; 4],
    c1: [T; 4],
    c2: [T; 4],
    c3: [T; 4],
) -> Transform3D<T> {
    Transform3D { columns: [c0, c1, c2, c3] }
}

impl<T> Transform3D<T> {
    /// The entry in column `i`, row `j`.
    pub open spec fn at(self, i: int, j: int) -> T {
        self.columns[i][j]
    }

    /// Returns a new transformation matrix with the given entries. This
    /// function does not perform any kind of validation on the given entries.
    pub fn new(columns: [[T; 4]; 4]) -> (r: Transform3D<T>)
        ensures
            r == (Transform3D { columns }),
    {
        Transform3D { columns }
    }
}

impl<T: Copy> Transform3D<T> {
    /// Applies the given transformation to each entry in the transformation
    /// matrix individually.
    pub fn map<F, O>(self, op: F) -> (r: Transform3D<O>)
        where
            F: Fn(T) -> O,
        requires
            forall|i: int, j: int|
                0 <= i < 4 && 0 <= j < 4 ==> call_requires(op, (#[trigger] self.columns[i][j],)),
        ensures
            forall|i: int, j: int|
                0 <= i < 4 && 0 <= j < 4 ==> call_ensures(
                    op,
                    (#[trigger] self.columns[i][j],),
                    r.columns[i][j],
                ),
    {
        let c = self.columns;
        let r = Transform3D {
            columns: [
                [op(c[0][0]), op(c[0][1]), op(c[0][2]), op(c[0][3])],
                [op(c[1][0]), op(c[1][1]), op(c[1][2]), op(c[1][3])],
                [op(c[2][0]), op(c[2][1]), op(c[2][2]), op(c[2][3])],
                [op(c[3][0]), op(c[3][1]), op(c[3][2]), op(c[3][3])],
            ],
        };
        r
    }
}

impl<T: Scalar> Transform3D<T> {
    /// The identity matrix.
    pub open spec fn spec_identity() -> Transform3D<T> {
        let i = T::spec_one();
        let o = T::spec_zero();
        matrix([i, o, o, o], [o, i, o, o], [o, o, i, o], [o, o, o, i])
    }

    /// Returns a new identity matrix, i.e. a matrix of zeros with ones on the
    /// diagonal.
    pub fn identity() -> (r: Transform3D<T>)
        ensures
            r == Self::spec_identity(),
    {
        let i = T::one();
        let o = T::zero();
        Transform3D { columns: [[i, o, o, o], [o, i, o, o], [o, o, i, o], [o, o, o, i]] }
    }

    /// The perspective matrix with the given depth.
    pub open spec fn spec_with_perspective(d: T) -> Transform3D<T> {
        let i = T::spec_one();
        let o = T::spec_zero();
        matrix([i, o, o, o], [o, i, o, o], [o, o, i, d.spec_recip()], [o, o, o, i])
    }

    /// The translation matrix with the given offsets.
    pub open spec fn spec_with_translation(tx: T, ty: T, tz: T) -> Transform3D<T> {
        let i = T::spec_one();
        let o = T::spec_zero();
        matrix([i, o, o, o], [o, i, o, o], [o, o, i, o], [tx, ty, tz, i])
    }

    /// The scale matrix with the given factors.
    pub open spec fn spec_with_scale(sx: T, sy: T, sz: T) -> Transform3D<T> {
        let i = T::spec_one();
        let o = T::spec_zero();
        matrix([sx, o, o, o], [o, sy, o, o], [o, o, sz, o], [o, o, o, i])
    }

    /// The horizontal skew matrix with the given angle radians.
    pub open spec fn spec_with_skew_x(sx: T) -> Transform3D<T> {
        let i = T::spec_one();
        let o = T::spec_zero();
        matrix([i, o, o, o], [sx.spec_tan(), i, o, o], [o, o, i, o], [o, o, o, i])
    }

    /// The vertical skew matrix with the given angle radians.
    pub open spec fn spec_with_skew_y(sy: T) -> Transform3D<T> {
        let i = T::spec_one();
        let o = T::spec_zero();
        matrix([i, sy.spec_tan(), o, o], [o, i, o, o], [o, o, i, o], [o, o, o, i])
    }

    /// The rotation matrix of the given quaternion.
    pub open spec fn spec_with_rotation(q: Quaternion3D<T>) -> Transform3D<T> {
        let x = q.x;
        let y = q.y;
        let z = q.z;
        let w = q.w;
        let i = T::spec_one();
        let o = T::spec_zero();
        let t = two::<T>();
        matrix(
            [
                i.spec_sub(t.spec_mul(y.spec_mul(y).spec_add(z.spec_mul(z)))),
                t.spec_mul(x.spec_mul(y).spec_add(z.spec_mul(w))),
                t.spec_mul(x.spec_mul(z).spec_sub(y.spec_mul(w))),
                o,
            ],
            [
                t.spec_mul(x.spec_mul(y).spec_sub(z.spec_mul(w))),
                i.spec_sub(t.spec_mul(x.spec_mul(x).spec_add(z.spec_mul(z)))),
                t.spec_mul(y.spec_mul(z).spec_add(x.spec_mul(w))),
                o,
            ],
            [
                t.spec_mul(x.spec_mul(z).spec_add(y.spec_mul(w))),
                t.spec_mul(y.spec_mul(z).spec_sub(x.spec_mul(w))),
                i.spec_sub(t.spec_mul(x.spec_mul(x).spec_add(y.spec_mul(y)))),
                o,
            ],
            [o, o, o, i],
        )
    }

    /// Entry `(i, j)` of the matrix product `a · b`, with `columns[i]` read
    /// as row `i`.
    pub open spec fn product_entry(a: Transform3D<T>, b: Transform3D<T>, i: int, j: int) -> T {
        a.at(i, 0).spec_mul(b.at(0, j)).spec_add(a.at(i, 1).spec_mul(b.at(1, j))).spec_add(
            a.at(i, 2).spec_mul(b.at(2, j)),
        ).spec_add(a.at(i, 3).spec_mul(b.at(3, j)))
    }

    /// The concatenation of `a` and `b` (as computed by `a.multiply(b)`): the
    /// product `b · a`, so that a point is first moved by `b` and then by `a`.
    pub open spec fn spec_multiply(a: Transform3D<T>, b: Transform3D<T>) -> Transform3D<T> {
        matrix(
            [
                Self::product_entry(b, a, 0, 0),
                Self::product_entry(b, a, 0, 1),
                Self::product_entry(b, a, 0, 2),
                Self::product_entry(b, a, 0, 3),
            ],
            [
                Self::product_entry(b, a, 1, 0),
                Self::product_entry(b, a, 1, 1),
                Self::product_entry(b, a, 1, 2),
                Self::product_entry(b, a, 1, 3),
            ],
            [
                Self::product_entry(b, a, 2, 0),
                Self::product_entry(b, a, 2, 1),
                Self::product_entry(b, a, 2, 2),
                Self::product_entry(b, a, 2, 3),
            ],
            [
                Self::product_entry(b, a, 3, 0),
                Self::product_entry(b, a, 3, 1),
                Self::product_entry(b, a, 3, 2),
                Self::product_entry(b, a, 3, 3),
            ],
        )
    }

    /// Row `j` of the homogeneous image of `p` (before the division by the
    /// last coordinate).
    pub open spec fn apply_row(self, p: Point3D<T>, j: int) -> T {
        self.at(0, j).spec_mul(p.x).spec_add(self.at(1, j).spec_mul(p.y)).spec_add(
            self.at(2, j).spec_mul(p.z),
        ).spec_add(self.at(3, j))
    }

    /// The image of the point `p` under this matrix.
    pub open spec fn spec_apply(self, p: Point3D<T>) -> Point3D<T> {
        let q = self.apply_row(p, 3);
        Point3D {
            x: self.apply_row(p, 0).spec_div(q),
            y: self.apply_row(p, 1).spec_div(q),
            z: self.apply_row(p, 2).spec_div(q),
        }
    }

    /// Every entry multiplied by `s`.
    pub open spec fn spec_multiply_scalar(self, s: T) -> Transform3D<T> {
        let c = self.columns;
        matrix(
            [c[0][0].spec_mul(s), c[0][1].spec_mul(s), c[0][2].spec_mul(s), c[0][3].spec_mul(s)],
            [c[1][0].spec_mul(s), c[1][1].spec_mul(s), c[1][2].spec_mul(s), c[1][3].spec_mul(s)],
            [c[2][0].spec_mul(s), c[2][1].spec_mul(s), c[2][2].spec_mul(s), c[2][3].spec_mul(s)],
            [c[3][0].spec_mul(s), c[3][1].spec_mul(s), c[3][2].spec_mul(s), c[3][3].spec_mul(s)],
        )
    }

    /// Entry-wise difference.
    pub open spec fn spec_subtract(self, other: Transform3D<T>) -> Transform3D<T> {
        let a = self.columns;
        let b = other.columns;
        matrix(
            [a[0][0].spec_sub(b[0][0]), a[0][1].spec_sub(b[0][1]), a[0][2].spec_sub(b[0][2]), a[0][3].spec_sub(b[0][3])],
            [a[1][0].spec_sub(b[1][0]), a[1][1].spec_sub(b[1][1]), a[1][2].spec_sub(b[1][2]), a[1][3].spec_sub(b[1][3])],
            [a[2][0].spec_sub(b[2][0]), a[2][1].spec_sub(b[2][1]), a[2][2].spec_sub(b[2][2]), a[2][3].spec_sub(b[2][3])],
            [a[3][0].spec_sub(b[3][0]), a[3][1].spec_sub(b[3][1]), a[3][2].spec_sub(b[3][2]), a[3][3].spec_sub(b[3][3])],
        )
    }

    /// The first `n` squared entries of column `c`, summed from zero.
    pub open spec fn partial_column(c: [T; 4], n: int) -> T
        decreases n,
    {
        if n <= 0 {
            T::spec_zero()
        } else {
            Self::partial_column(c, n - 1).spec_add(c[n - 1].spec_mul(c[n - 1]))
        }
    }

    /// The sums of squares of the first `n` columns, summed from zero.
    pub open spec fn partial_l2(m: Transform3D<T>, n: int) -> T
        decreases n,
    {
        if n <= 0 {
            T::spec_zero()
        } else {
            Self::partial_l2(m, n - 1).spec_add(Self::partial_column(m.columns[n - 1], 4))
        }
    }

    /// The sum of the squared entries, column by column, starting from zero
    /// (the square root is not taken).
    pub open spec fn spec_l2_norm(self) -> T {
        Self::partial_l2(self, 4)
    }

    /// The tolerance of the approximate equality: one thousandth.
    pub open spec fn tolerance() -> T {
        T::spec_one().spec_div(T::spec_from_int(1000))
    }

    /// The approximate equality that `==` implements: the entry-wise
    /// difference has a sum of squares below one thousandth.
    pub open spec fn approx_eq(self, other: Transform3D<T>) -> bool {
        self.spec_subtract(other).spec_l2_norm().spec_lt(Self::tolerance())
    }

    /// Returns a new transformation matrix for a perspective with the given
    /// depth.
    pub fn with_perspective(d: T) -> (r: Transform3D<T>)
        ensures
            r == Self::spec_with_perspective(d),
    {
        let i = T::one();
        let o = T::zero();
        Transform3D { columns: [[i, o, o, o], [o, i, o, o], [o, o, i, d.recip()], [o, o, o, i]] }
    }

    /// Returns a new transformation matrix for a translation with the given
    /// offsets.
    pub fn with_translation(tx: T, ty: T, tz: T) -> (r: Transform3D<T>)
        ensures
            r == Self::spec_with_translation(tx, ty, tz),
    {
        let i = T::one();
        let o = T::zero();
        Transform3D { columns: [[i, o, o, o], [o, i, o, o], [o, o, i, o], [tx, ty, tz, i]] }
    }

    /// Returns a new transformation matrix for a scale with the given factors.
    pub fn with_scale(sx: T, sy: T, sz: T) -> (r: Transform3D<T>)
        ensures
            r == Self::spec_with_scale(sx, sy, sz),
    {
        let i = T::one();
        let o = T::zero();
        Transform3D { columns: [[sx, o, o, o], [o, sy, o, o], [o, o, sz, o], [o, o, o, i]] }
    }

    /// Returns a new transformation matrix for a horizontal skew with the
    /// given angle radians.
    pub fn with_skew_x(sx: T) -> (r: Transform3D<T>)
        ensures
            r == Self::spec_with_skew_x(sx),
    {
        let i = T::one();
        let o = T::zero();
        Transform3D { columns: [[i, o, o, o], [sx.tan(), i, o, o], [o, o, i, o], [o, o, o, i]] }
    }

    /// Returns a new transformation matrix for a vertical skew with the given
    /// angle radians.
    pub fn with_skew_y(sy: T) -> (r: Transform3D<T>)
        ensures
            r == Self::spec_with_skew_y(sy),
    {
        let i = T::one();
        let o = T::zero();
        Transform3D { columns: [[i, sy.tan(), o, o], [o, i, o, o], [o, o, i, o], [o, o, o, i]] }
    }

    /// Returns a new transformation matrix for the counter-clockwise rotation
    /// that the given quaternion describes.
    pub fn with_rotation(q: Quaternion3D<T>) -> (r: Transform3D<T>)
        ensures
            r == Self::spec_with_rotation(q),
    {
        let Quaternion3D { x, y, z, w } = q;
        let one = T::one();
        let two = one.add(one);
        let o = T::zero();
        let c00 = one.sub(two.mul(y.mul(y).add(z.mul(z))));
        let c01 = two.mul(x.mul(y).add(z.mul(w)));
        let c02 = two.mul(x.mul(z).sub(y.mul(w)));
        let c10 = two.mul(x.mul(y).sub(z.mul(w)));
        let c11 = one.sub(two.mul(x.mul(x).add(z.mul(z))));
        let c12 = two.mul(y.mul(z).add(x.mul(w)));
        let c20 = two.mul(x.mul(z).add(y.mul(w)));
        let c21 = two.mul(y.mul(z).sub(x.mul(w)));
        let c22 = one.sub(two.mul(x.mul(x).add(y.mul(y))));
        Transform3D {
            columns: [[c00, c01, c02, o], [c10, c11, c12, o], [c20, c21, c22, o], [o, o, o, one]],
        }
    }

    /// Translates the given transformation matrix with the given offsets by
    /// concatenating the given matrix to a new translation matrix.
    pub fn pre_translate(self, tx: T, ty: T, tz: T) -> (r: Transform3D<T>)
        ensures
            r == Self::spec_multiply(Self::spec_with_translation(tx, ty, tz), self),
    {
        self.pre_multiply(Self::with_translation(tx, ty, tz))
    }

    /// Scales the given transformation matrix with the given factors by
    /// concatenating the given matrix to a new scale matrix.
    pub fn pre_scale(self, sx: T, sy: T, sz: T) -> (r: Transform3D<T>)
        ensures
            r == Self::spec_multiply(Self::spec_with_scale(sx, sy, sz), self),
    {
        self.pre_multiply(Self::with_scale(sx, sy, sz))
    }

    /// Rotates the given transformation matrix by the rotation of the given
    /// quaternion by concatenating the given matrix to a new rotation matrix.
    pub fn pre_rotate(self, q: Quaternion3D<T>) -> (r: Transform3D<T>)
        ensures
            r == Self::spec_multiply(Self::spec_with_rotation(q), self),
    {
        self.pre_multiply(Self::with_rotation(q))
    }

    /// Translates the given transformation matrix with the given offsets by
    /// concatenating a new translation matrix to the given matrix.
    pub fn translate(self, tx: T, ty: T, tz: T) -> (r: Transform3D<T>)
        ensures
            r == Self::spec_multiply(self, Self::spec_with_translation(tx, ty, tz)),
    {
        self.multiply(Self::with_translation(tx, ty, tz))
    }

    /// Scales the given transformation matrix with the given factors by
    /// concatenating a new scale matrix to the given matrix.
    pub fn scale(self, sx: T, sy: T, sz: T) -> (r: Transform3D<T>)
        ensures
            r == Self::spec_multiply(self, Self::spec_with_scale(sx, sy, sz)),
    {
        self.multiply(Self::with_scale(sx, sy, sz))
    }

    /// Rotates the given transformation matrix by the rotation of the given
    /// quaternion by concatenating a new rotation matrix to the given matrix.
    pub fn rotate(self, q: Quaternion3D<T>) -> (r: Transform3D<T>)
        ensures
            r == Self::spec_multiply(self, Self::spec_with_rotation(q)),
    {
        self.multiply(Self::with_rotation(q))
    }

    fn product_entry_exec(a: &Transform3D<T>, b: &Transform3D<T>, i: usize, j: usize) -> (r: T)
        requires
            i < 4,
            j < 4,
        ensures
            r == Self::product_entry(*a, *b, i as int, j as int),
    {
        a.columns[i][0].mul(b.columns[0][j]).add(a.columns[i][1].mul(b.columns[1][j])).add(
            a.columns[i][2].mul(b.columns[2][j]),
        ).add(a.columns[i][3].mul(b.columns[3][j]))
    }

    /// Concatenates the given transformation matrix to the current
    /// transformation matrix.
    pub fn multiply(self, other: Transform3D<T>) -> (r: Transform3D<T>)
        ensures
            r == Self::spec_multiply(self, other),
    {
        let a = &self;
        let b = &other;
        Transform3D {
            columns: [
                [
                    Self::product_entry_exec(b, a, 0, 0),
                    Self::product_entry_exec(b, a, 0, 1),
                    Self::product_entry_exec(b, a, 0, 2),
                    Self::product_entry_exec(b, a, 0, 3),
                ],
                [
                    Self::product_entry_exec(b, a, 1, 0),
                    Self::product_entry_exec(b, a, 1, 1),
                    Self::product_entry_exec(b, a, 1, 2),
                    Self::product_entry_exec(b, a, 1, 3),
                ],
                [
                    Self::product_entry_exec(b, a, 2, 0),
                    Self::product_entry_exec(b, a, 2, 1),
                    Self::product_entry_exec(b, a, 2, 2),
                    Self::product_entry_exec(b, a, 2, 3),
                ],
                [
                    Self::product_entry_exec(b, a, 3, 0),
                    Self::product_entry_exec(b, a, 3, 1),
                    Self::product_entry_exec(b, a, 3, 2),
                    Self::product_entry_exec(b, a, 3, 3),
                ],
            ],
        }
    }

    /// Concatenates the given transformation matrix to the current
    /// transformation matrix (the same as `multiply`).
    pub fn concat(self, other: Transform3D<T>) -> (r: Transform3D<T>)
        ensures
            r == Self::spec_multiply(self, other),
    {
        self.multiply(other)
    }

    /// Short hand to multiply matrices in reverse order (which is called
    /// pre-multiplication in the graphics industry).
    pub fn pre_multiply(self, other: Transform3D<T>) -> (r: Transform3D<T>)
        ensures
            r == Self::spec_multiply(other, self),
    {
        other.multiply(self)
    }

    fn apply_row_exec(&self, p: Point3D<T>, j: usize) -> (r: T)
        requires
            j < 4,
        ensures
            r == self.apply_row(p, j as int),
    {
        self.columns[0][j].mul(p.x).add(self.columns[1][j].mul(p.y)).add(
            self.columns[2][j].mul(p.z),
        ).add(self.columns[3][j])
    }

    /// Applies the given transformation matrix to a point.
    pub fn apply(self, point: Point3D<T>) -> (r: Point3D<T>)
        ensures
            r == self.spec_apply(point),
    {
        let x = self.apply_row_exec(point, 0);
        let y = self.apply_row_exec(point, 1);
        let z = self.apply_row_exec(point, 2);
        let q = self.apply_row_exec(point, 3);
        Point3D { x: x.div(q), y: y.div(q), z: z.div(q) }
    }

    /// Multiplies every element of this transformation with the given scalar
    /// and returns the result.
    pub fn multiply_scalar(self, scalar: T) -> (r: Transform3D<T>)
        ensures
            r == self.spec_multiply_scalar(scalar),
    {
        let c = self.columns;
        let s = scalar;
        Transform3D {
            columns: [
                [c[0][0].mul(s), c[0][1].mul(s), c[0][2].mul(s), c[0][3].mul(s)],
                [c[1][0].mul(s), c[1][1].mul(s), c[1][2].mul(s), c[1][3].mul(s)],
                [c[2][0].mul(s), c[2][1].mul(s), c[2][2].mul(s), c[2][3].mul(s)],
                [c[3][0].mul(s), c[3][1].mul(s), c[3][2].mul(s), c[3][3].mul(s)],
            ],
        }
    }

    /// Returns the entry-wise difference of this matrix and the given matrix.
    pub fn subtract(self, other: Transform3D<T>) -> (r: Transform3D<T>)
        ensures
            r == self.spec_subtract(other),
    {
        let a = self.columns;
        let b = other.columns;
        Transform3D {
            columns: [
                [a[0][0].sub(b[0][0]), a[0][1].sub(b[0][1]), a[0][2].sub(b[0][2]), a[0][3].sub(b[0][3])],
                [a[1][0].sub(b[1][0]), a[1][1].sub(b[1][1]), a[1][2].sub(b[1][2]), a[1][3].sub(b[1][3])],
                [a[2][0].sub(b[2][0]), a[2][1].sub(b[2][1]), a[2][2].sub(b[2][2]), a[2][3].sub(b[2][3])],
                [a[3][0].sub(b[3][0]), a[3][1].sub(b[3][1]), a[3][2].sub(b[3][2]), a[3][3].sub(b[3][3])],
            ],
        }
    }

    /// Returns the sum of the squared entries (without the square root).
    pub fn l2_norm(self) -> (r: T)
        ensures
            r == self.spec_l2_norm(),
    {
        let mut acc = T::zero();
        let mut i: usize = 0;
        while i < 4
            invariant
                i <= 4,
                acc == Self::partial_l2(self, i as int),
            decreases 4 - i,
        {
            let c = self.columns[i];
            let mut inner = T::zero();
            let mut j: usize = 0;
            while j < 4
                invariant
                    j <= 4,
                    inner == Self::partial_column(c, j as int),
                decreases 4 - j,
            {
                inner = inner.add(c[j].mul(c[j]));
                j = j + 1;
            }
            acc = acc.add(inner);
            i = i + 1;
        }
        acc
    }

    /// Returns whether this matrix and the given matrix are approximately
    /// equal (the entry-wise difference has a sum of squares below one
    /// thousandth).
    pub fn approx_equals(&self, other: &Transform3D<T>) -> (r: bool)
        ensures
            r == self.approx_eq(*other),
    {
        let tolerance = T::one().div(T::from_int(1000));
        self.subtract(*other).l2_norm().lt(tolerance)
    }
}

impl<T: Scalar> Default for Transform3D<T> {
    /// The identity matrix.
    fn default() -> (r: Self)
        ensures
            r == Self::spec_identity(),
    {
        Self::identity()
    }
}

impl<T: Scalar> PartialEq for Transform3D<T> {
    /// Approximate equality: the entry-wise difference has a sum of squares
    /// below one thousandth.
    fn eq(&self, other: &Self) -> (r: bool) {
        self.approx_equals(other)
    }
}

impl<T: Scalar> PartialEqSpecImpl for Transform3D<T> {
    open spec fn obeys_eq_spec() -> bool {
        true
    }

    open spec fn eq_spec(&self, other: &Self) -> bool {
        self.approx_eq(*other)
    }
}

impl<T: Scalar> Eq for Transform3D<T> {

}

} // verus!
