//! CSS transforms: a constant 3D matrix with a relative 2D translation, and a
//! builder that compresses a sequence of them.

use vstd::prelude::*;
use crate::scalar::{Scalar, is_zero, scalar_is_zero, unit_laws};
use crate::linalg::laws::identity_is_right_neutral;
use crate::geometry::{Dimension, Size};
use crate::linalg::{Quaternion3D, Transform3D};
use crate::linalg::transform::matrix;
use crate::physics::Angle;

verus! {

/// Decomposition of a CSS transform into a constant 3D transform and a relative
/// 2D translation (i.e. CSS percentage).
#[derive(Copy, Debug, PartialEq)]
pub struct Transform<T: Scalar> {
    /// This is the underlying, layout-independent 3D affine transformation
    /// matrix.
    pub matrix: Transform3D<T>,
    /// This is the underlying, layout-dependent relative translation (measured
    /// in percentage points). This translation should be applied after the
    /// layout-independent 3D affine transformation matrix.
    pub relative_translation: (T, T),
}

impl<T: Scalar> Transform<T> {
    /// The identity transform without relative translation.
    pub open spec fn spec_default() -> Transform<T> {
        Transform {
            matrix: Transform3D::spec_identity(),
            relative_translation: (T::spec_zero(), T::spec_zero()),
        }
    }

    /// The homogeneous 2D transform with coefficients `[a, b, c, d, tx, ty]`.
    pub open spec fn spec_with_matrix(c: [T; 6]) -> Transform<T> {
        Transform {
            matrix: matrix(
                [c[0], c[1], T::spec_zero(), T::spec_zero()],
                [c[2], c[3], T::spec_zero(), T::spec_zero()],
                [T::spec_zero(), T::spec_zero(), T::spec_one(), T::spec_zero()],
                [c[4], c[5], T::spec_zero(), T::spec_one()],
            ),
            ..Self::spec_default()
        }
    }

    /// The homogeneous 3D transform with the given sixteen coefficients,
    /// column by column.
    pub open spec fn spec_with_matrix3d(m: [T; 16]) -> Transform<T> {
        Transform {
            matrix: matrix(
                [m[0], m[1], m[2], m[3]],
                [m[4], m[5], m[6], m[7]],
                [m[8], m[9], m[10], m[11]],
                [m[12], m[13], m[14], m[15]],
            ),
            ..Self::spec_default()
        }
    }

    /// The perspective transform with depth `d`.
    pub open spec fn spec_with_perspective(d: T) -> Transform<T> {
        Transform { matrix: Transform3D::spec_with_perspective(d), ..Self::spec_default() }
    }

    /// The rotation by `angle` around the axis `(-rx, -ry, rz)`.
    pub open spec fn spec_with_rotation(rx: T, ry: T, rz: T, angle: Angle<T>) -> Transform<T> {
        Transform {
            matrix: Transform3D::spec_with_rotation(
                Quaternion3D::spec_with_angle(angle.spec_radians(), rx.spec_neg(), ry.spec_neg(), rz),
            ),
            ..Self::spec_default()
        }
    }

    /// The scale by the given factors.
    pub open spec fn spec_with_scale(sx: T, sy: T, sz: T) -> Transform<T> {
        Transform { matrix: Transform3D::spec_with_scale(sx, sy, sz), ..Self::spec_default() }
    }

    /// The horizontal skew by the given angle.
    pub open spec fn spec_with_skew_x(sx: Angle<T>) -> Transform<T> {
        Transform { matrix: Transform3D::spec_with_skew_x(sx.spec_radians()), ..Self::spec_default() }
    }

    /// The vertical skew by the given angle.
    pub open spec fn spec_with_skew_y(sy: Angle<T>) -> Transform<T> {
        Transform { matrix: Transform3D::spec_with_skew_y(sy.spec_radians()), ..Self::spec_default() }
    }

    /// The translation by the given dimensions: points go into the matrix,
    /// percentages into the relative translation.
    pub open spec fn spec_with_translation(tx: Dimension<T>, ty: Dimension<T>, tz: T) -> Transform<T> {
        Transform {
            matrix: Transform3D::spec_with_translation(
                Self::split_dimension(tx).0,
                Self::split_dimension(ty).0,
                tz,
            ),
            relative_translation: (Self::split_dimension(tx).1, Self::split_dimension(ty).1),
        }
    }

    /// The transform does not depend on the size of its container.
    pub open spec fn spec_is_resolved(self) -> bool {
        is_zero(self.relative_translation.0) && is_zero(self.relative_translation.1)
    }

    /// The constant matrix followed by the relative translation scaled to the
    /// given size.
    pub open spec fn spec_resolve(self, size: Size<T>) -> Transform3D<T> {
        Transform3D::spec_multiply(
            self.matrix,
            Transform3D::spec_with_translation(
                self.relative_translation.0.spec_mul(size.width),
                self.relative_translation.1.spec_mul(size.height),
                T::spec_zero(),
            ),
        )
    }

    /// The compression of `self` followed by `other` into one transform, which
    /// exists only if `self` is resolved.
    pub open spec fn spec_concat(self, other: Transform<T>) -> Option<Transform<T>> {
        if self.spec_is_resolved() {
            Some(
                Transform {
                    matrix: Transform3D::spec_multiply(self.matrix, other.matrix),
                    relative_translation: other.relative_translation,
                },
            )
        } else {
            None
        }
    }

    /// The first `n` transforms, each resolved with `size`, concatenated to
    /// the identity in order.
    pub open spec fn squash_prefix(transforms: [Transform<T>; 8], size: Size<T>, n: int) -> Transform3D<T>
        decreases n,
    {
        if n <= 0 {
            Transform3D::spec_identity()
        } else {
            Transform3D::spec_multiply(
                Self::squash_prefix(transforms, size, n - 1),
                transforms[n - 1].spec_resolve(size),
            )
        }
    }

    /// This function creates a new transform with the given coefficients.
    pub fn with_transform(matrix: Transform3D<T>) -> (r: Transform<T>)
        ensures
            r == (Transform { matrix, ..Self::spec_default() }),
    {
        Transform { matrix, relative_translation: (T::zero(), T::zero()) }
    }

    /// This function creates a new homogeneous transform from the given
    /// coefficients `[a, b, c, d, tx, ty]`.
    pub fn with_matrix(coefficients: [T; 6]) -> (r: Transform<T>)
        ensures
            r == Self::spec_with_matrix(coefficients),
    {
        let mut transform = Self::default();
        transform.matrix.columns[0][0] = coefficients[0];
        transform.matrix.columns[0][1] = coefficients[1];
        transform.matrix.columns[1][0] = coefficients[2];
        transform.matrix.columns[1][1] = coefficients[3];
        transform.matrix.columns[3][0] = coefficients[4];
        transform.matrix.columns[3][1] = coefficients[5];
        proof {
            assert(transform.matrix.columns[0] =~= [coefficients[0], coefficients[1], T::spec_zero(), T::spec_zero()]);
            assert(transform.matrix.columns[1] =~= [coefficients[2], coefficients[3], T::spec_zero(), T::spec_zero()]);
            assert(transform.matrix.columns[3] =~= [coefficients[4], coefficients[5], T::spec_zero(), T::spec_one()]);
            assert(transform.matrix.columns =~= matrix(
                [coefficients[0], coefficients[1], T::spec_zero(), T::spec_zero()],
                [coefficients[2], coefficients[3], T::spec_zero(), T::spec_zero()],
                [T::spec_zero(), T::spec_zero(), T::spec_one(), T::spec_zero()],
                [coefficients[4], coefficients[5], T::spec_zero(), T::spec_one()],
            ).columns);
        }
        transform
    }

    /// This function creates a new homogeneous transform from the given
    /// sixteen coefficients, column by column.
    pub fn with_matrix3d(m: [T; 16]) -> (r: Transform<T>)
        ensures
            r == Self::spec_with_matrix3d(m),
    {
        Transform {
            matrix: Transform3D {
                columns: [
                    [m[0], m[1], m[2], m[3]],
                    [m[4], m[5], m[6], m[7]],
                    [m[8], m[9], m[10], m[11]],
                    [m[12], m[13], m[14], m[15]],
                ],
            },
            relative_translation: (T::zero(), T::zero()),
        }
    }

    /// This function creates a new perspective transform with the given
    /// parameters.
    pub fn with_perspective(d: T) -> (r: Transform<T>)
        ensures
            r == Self::spec_with_perspective(d),
    {
        Transform {
            matrix: Transform3D::with_perspective(d),
            relative_translation: (T::zero(), T::zero()),
        }
    }

    /// This function creates a new rotation transform around the axis
    /// `(rx, ry, rz)` (whose x and y components are negated to match the
    /// screen's coordinate system).
    pub fn with_rotation(rx: T, ry: T, rz: T, angle: Angle<T>) -> (r: Transform<T>)
        ensures
            r == Self::spec_with_rotation(rx, ry, rz, angle),
    {
        let q = Quaternion3D::with_angle(angle.to_radians(), rx.neg(), ry.neg(), rz);
        Transform {
            matrix: Transform3D::with_rotation(q),
            relative_translation: (T::zero(), T::zero()),
        }
    }

    /// This function creates a new scale transform with the given parameters.
    pub fn with_scale(sx: T, sy: T, sz: T) -> (r: Transform<T>)
        ensures
            r == Self::spec_with_scale(sx, sy, sz),
    {
        Transform {
            matrix: Transform3D::with_scale(sx, sy, sz),
            relative_translation: (T::zero(), T::zero()),
        }
    }

    /// This function creates a new horizontal skew transform with the given
    /// angle.
    pub fn with_skew_x(sx: Angle<T>) -> (r: Transform<T>)
        ensures
            r == Self::spec_with_skew_x(sx),
    {
        Transform {
            matrix: Transform3D::with_skew_x(sx.to_radians()),
            relative_translation: (T::zero(), T::zero()),
        }
    }

    /// This function creates a new vertical skew transform with the given
    /// angle.
    pub fn with_skew_y(sy: Angle<T>) -> (r: Transform<T>)
        ensures
            r == Self::spec_with_skew_y(sy),
    {
        Transform {
            matrix: Transform3D::with_skew_y(sy.to_radians()),
            relative_translation: (T::zero(), T::zero()),
        }
    }

    /// The constant part and the relative part of a translation along one
    /// axis.
    pub open spec fn split_dimension(d: Dimension<T>) -> (T, T) {
        match d {
            Dimension::Percentage(r) => (T::spec_zero(), r),
            Dimension::Points(t) => (t, T::spec_zero()),
            _ => (T::spec_zero(), T::spec_zero()),
        }
    }

    fn split_dimension_exec(d: Dimension<T>) -> (r: (T, T))
        ensures
            r == Self::split_dimension(d),
    {
        match d {
            Dimension::Percentage(r) => (T::zero(), r),
            Dimension::Points(t) => (t, T::zero()),
            _ => (T::zero(), T::zero()),
        }
    }

    /// This function creates a new translation transform with the given
    /// parameters. If one of the horizontal or vertical dimensions is relative
    /// (i.e. a percentage), this transform will need to be resolved before it
    /// can be applied.
    pub fn with_translation(tx: Dimension<T>, ty: Dimension<T>, tz: T) -> (r: Transform<T>)
        ensures
            r == Self::spec_with_translation(tx, ty, tz),
    {
        let (tx, rx) = Self::split_dimension_exec(tx);
        let (ty, ry) = Self::split_dimension_exec(ty);
        Transform {
            matrix: Transform3D::with_translation(tx, ty, tz),
            relative_translation: (rx, ry),
        }
    }

    /// This function returns a boolean that indicates if this transform is
    /// resolved, i.e. its relative translation is zero in both dimensions.
    pub fn is_resolved(&self) -> (r: bool)
        ensures
            r == self.spec_is_resolved(),
    {
        let (tx, ty) = self.relative_translation;
        scalar_is_zero(tx) && scalar_is_zero(ty)
    }

    /// This function resolves a transform using the given size.
    pub fn resolve(&self, size: Size<T>) -> (r: Transform3D<T>)
        ensures
            r == self.spec_resolve(size),
    {
        let (rtx, rty) = self.relative_translation;
        self.matrix.translate(rtx.mul(size.width), rty.mul(size.height), T::zero())
    }

    /// This function attempts to compress this transform and the given
    /// transform into a single transform, which will only work if the
    /// original transform is resolved (i.e. not relative to the unknown
    /// container size).
    pub fn concat(&self, other: Transform<T>) -> (r: Option<Transform<T>>)
        ensures
            r == self.spec_concat(other),
    {
        if self.is_resolved() {
            Some(
                Transform {
                    matrix: self.matrix.concat(other.matrix),
                    relative_translation: other.relative_translation,
                },
            )
        } else {
            None
        }
    }

    /// This function folds the given transforms after resolving each with the
    /// given size.
    pub fn squash(transforms: [Transform<T>; 8], size: Size<T>) -> (r: Transform3D<T>)
        ensures
            r == Self::squash_prefix(transforms, size, 8),
    {
        let mut current = Transform3D::identity();
        let mut i: usize = 0;
        while i < 8
            invariant
                i <= 8,
                current == Self::squash_prefix(transforms, size, i as int),
            decreases 8 - i,
        {
            current = current.concat(transforms[i].resolve(size));
            i = i + 1;
        }
        current
    }
}

impl<T: Scalar> Clone for Transform<T> {
    fn clone(&self) -> (r: Self)
        ensures
            r == *self,
    {
        *self
    }
}

impl<T: Scalar> Default for Transform<T> {
    fn default() -> (r: Self)
        ensures
            r == Self::spec_default(),
    {
        Transform {
            matrix: Transform3D::identity(),
            relative_translation: (T::zero(), T::zero()),
        }
    }
}

/// Pushing `t` onto a builder whose eight slots are `slots` and which tracks
/// `n` transforms fails: the builder is full and its last transform is not
/// resolved.
pub open spec fn builder_push_fails<T: Scalar>(slots: Seq<Transform<T>>, n: nat, t: Transform<T>) -> bool {
    n == 8 && slots[n - 1].spec_concat(t) is None
}

/// The slots after pushing `t`: the first push fills slot zero; later pushes
/// compress `t` into the last tracked transform when that one is resolved,
/// and else occupy the next slot.
pub open spec fn builder_push_slots<T: Scalar>(slots: Seq<Transform<T>>, n: nat, t: Transform<T>) -> Seq<Transform<T>> {
    if n == 0 {
        slots.update(0, t)
    } else {
        match slots[n - 1].spec_concat(t) {
            Some(c) => slots.update(n - 1, c),
            None => slots.update(n as int, t),
        }
    }
}

/// The number of tracked transforms after pushing `t`.
pub open spec fn builder_push_len<T: Scalar>(slots: Seq<Transform<T>>, n: nat, t: Transform<T>) -> nat {
    if n == 0 {
        1
    } else if slots[n - 1].spec_concat(t) is Some {
        n
    } else {
        n + 1
    }
}

/// Concatenation of matrices is associative (as it is for exact numbers,
/// though not for floats, whose products round).
#[verifier::opaque]
pub open spec fn concatenation_associative<T: Scalar>() -> bool {
    forall|a: Transform3D<T>, b: Transform3D<T>, c: Transform3D<T>|
        #[trigger] Transform3D::spec_multiply(Transform3D::spec_multiply(a, b), c)
            == Transform3D::spec_multiply(a, Transform3D::spec_multiply(b, c))
}

/// A number that is numerically zero makes every product zero.
pub open spec fn numeric_zero_absorbs<T: Scalar>() -> bool {
    forall|x: T, y: T| is_zero(x) ==> #[trigger] x.spec_mul(y) == T::spec_zero()
}

/// The first `n` transforms of `s`, each resolved with `size`, concatenated
/// to the identity in order.
pub open spec fn spec_compose<T: Scalar>(s: Seq<Transform<T>>, size: Size<T>, n: int) -> Transform3D<T>
    decreases n,
{
    if n <= 0 {
        Transform3D::spec_identity()
    } else {
        Transform3D::spec_multiply(spec_compose(s, size, n - 1), s[n - 1].spec_resolve(size))
    }
}

/// The composition of the first `m` transforms does not see a change at or
/// after position `m`.
proof fn lemma_compose_update<T: Scalar>(s: Seq<Transform<T>>, k: int, x: Transform<T>, size: Size<T>, m: int)
    requires
        0 <= m <= k < s.len(),
    ensures
        spec_compose(s.update(k, x), size, m) == spec_compose(s, size, m),
    decreases m,
{
    if m > 0 {
        lemma_compose_update(s, k, x, size, m - 1);
    }
}

/// The squash of the first `n` transforms is their composition.
pub proof fn squash_is_composition<T: Scalar>(transforms: [Transform<T>; 8], size: Size<T>, n: int)
    requires
        n <= 8,
    ensures
        Transform::squash_prefix(transforms, size, n) == spec_compose(transforms@, size, n),
    decreases n,
{
    if n > 0 {
        squash_is_composition(transforms, size, n - 1);
    }
}

/// Regrouping a concatenation of four matrices.
proof fn lemma_regroup<T: Scalar>(p: Transform3D<T>, l: Transform3D<T>, m: Transform3D<T>, x: Transform3D<T>)
    requires
        concatenation_associative::<T>(),
    ensures
        Transform3D::spec_multiply(p, Transform3D::spec_multiply(Transform3D::spec_multiply(l, m), x))
            == Transform3D::spec_multiply(Transform3D::spec_multiply(p, l), Transform3D::spec_multiply(m, x)),
{
    reveal(concatenation_associative);
    assert(Transform3D::spec_multiply(Transform3D::spec_multiply(l, m), x) == Transform3D::spec_multiply(l, Transform3D::spec_multiply(m, x)));
    assert(Transform3D::spec_multiply(Transform3D::spec_multiply(p, l), Transform3D::spec_multiply(m, x))
        == Transform3D::spec_multiply(p, Transform3D::spec_multiply(l, Transform3D::spec_multiply(m, x))));
}

/// A resolved transform resolves to its matrix.
proof fn lemma_resolved_is_matrix<T: Scalar>(last: Transform<T>, size: Size<T>)
    requires
        unit_laws::<T>(),
        numeric_zero_absorbs::<T>(),
        last.spec_is_resolved(),
    ensures
        last.spec_resolve(size) == last.matrix,
{
    assert(last.relative_translation.0.spec_mul(size.width) == T::spec_zero());
    assert(last.relative_translation.1.spec_mul(size.height) == T::spec_zero());
    assert(Transform3D::spec_with_translation(T::spec_zero(), T::spec_zero(), T::spec_zero())
        == Transform3D::<T>::spec_identity());
    identity_is_right_neutral(last.matrix);
}

/// Compressing `t` into the last of the first `n` transforms, which is
/// resolved to its own matrix, keeps their composition followed by `t`.
proof fn lemma_compressed<T: Scalar>(slots: Seq<Transform<T>>, n: int, t: Transform<T>, c: Transform<T>, size: Size<T>)
    requires
        concatenation_associative::<T>(),
        0 < n <= slots.len(),
        slots[n - 1].spec_concat(t) == Some(c),
        slots[n - 1].spec_resolve(size) == slots[n - 1].matrix,
    ensures
        spec_compose(slots.update(n - 1, c), size, n)
            == Transform3D::spec_multiply(spec_compose(slots, size, n), t.spec_resolve(size)),
{
    let last = slots[n - 1];
    let p = spec_compose(slots, size, n - 1);
    let tt = Transform3D::spec_with_translation(
        t.relative_translation.0.spec_mul(size.width),
        t.relative_translation.1.spec_mul(size.height),
        T::spec_zero(),
    );
    lemma_compose_update(slots, n - 1, c, size, n - 1);
    lemma_regroup(p, last.matrix, t.matrix, tt);
    assert(slots.update(n - 1, c)[n - 1] == c);
}

/// Pushing a transform onto a builder composes it after the transforms that
/// the builder tracks: compressing it into the last one (when that one is
/// resolved) changes nothing of the composition, for every number type
/// whose units behave as identities, whose numeric zero absorbs products and
/// whose matrix concatenation is associative.
pub proof fn pushing_composes<T: Scalar>(slots: Seq<Transform<T>>, n: nat, t: Transform<T>, size: Size<T>)
    requires
        unit_laws::<T>(),
        numeric_zero_absorbs::<T>(),
        concatenation_associative::<T>(),
        slots.len() == 8,
        n <= 8,
        !builder_push_fails(slots, n, t),
    ensures
        spec_compose(builder_push_slots(slots, n, t), size, builder_push_len(slots, n, t) as int)
            == Transform3D::spec_multiply(spec_compose(slots, size, n as int), t.spec_resolve(size)),
{
    let pushed = builder_push_slots(slots, n, t);
    if n == 0 {
        assert(pushed[0] == t);
        assert(builder_push_len(slots, n, t) == 1);
        assert(spec_compose(pushed, size, 1) == Transform3D::spec_multiply(spec_compose(pushed, size, 0), pushed[0].spec_resolve(size)));
    } else if slots[n - 1].spec_concat(t) is Some {
        let c = slots[n - 1].spec_concat(t)->0;
        assert(pushed == slots.update(n - 1, c));
        assert(builder_push_len(slots, n, t) == n);
        lemma_resolved_is_matrix(slots[n - 1], size);
        lemma_compressed(slots, n as int, t, c, size);
    } else {
        assert(pushed == slots.update(n as int, t));
        assert(builder_push_len(slots, n, t) == n + 1);
        lemma_compose_update(slots, n as int, t, size, n as int);
        assert(pushed[n as int] == t);
        assert(spec_compose(pushed, size, n as int + 1) == Transform3D::spec_multiply(spec_compose(pushed, size, n as int), pushed[n as int].spec_resolve(size)));
    }
}

/// Builder that can be used to efficiently create a transform consisting of
/// multiple individual operations.
///
/// The builder optimistically compresses the sequence of operations by
/// attempting to concatenate each operation to the previous operation, which
/// will succeed if the previous operation does not need to be resolved (i.e. is
/// non-relative). After compression, the builder can hold at most 8 transforms.
#[derive(Copy, Debug, PartialEq)]
pub struct TransformBuilder<T: Scalar> {
    transforms: [Transform<T>; 8],
    index: usize,
}

impl<T: Scalar> TransformBuilder<T> {
    #[verifier::type_invariant]
    spec fn inv(self) -> bool {
        self.index <= 8
    }

    /// The eight slots of this builder (those at or after `spec_len()` hold
    /// default transforms or stale values).
    pub closed spec fn spec_transforms(self) -> [Transform<T>; 8] {
        self.transforms
    }

    /// The number of transforms tracked by this builder.
    pub closed spec fn spec_len(self) -> nat {
        self.index as nat
    }

    /// Pushing `t` fails: the builder is full and its last transform is not
    /// resolved.
    pub open spec fn spec_push_fails(self, t: Transform<T>) -> bool {
        builder_push_fails(self.spec_transforms()@, self.spec_len(), t)
    }

    /// The slots after pushing `t`.
    pub open spec fn spec_push_slots(self, t: Transform<T>) -> Seq<Transform<T>> {
        builder_push_slots(self.spec_transforms()@, self.spec_len(), t)
    }

    /// The length after pushing `t`.
    pub open spec fn spec_push_len(self, t: Transform<T>) -> nat {
        builder_push_len(self.spec_transforms()@, self.spec_len(), t)
    }

    /// Returns a new builder that can be used to efficiently create a transform
    /// consisting of multiple individual operations.
    pub fn new() -> (r: TransformBuilder<T>)
        ensures
            r.spec_len() == 0,
            forall|i: int| 0 <= i < 8 ==> #[trigger] r.spec_transforms()[i] == Transform::<T>::spec_default(),
    {
        let d = Transform::default();
        TransformBuilder { transforms: [d, d, d, d, d, d, d, d], index: 0 }
    }

    /// Consumes the builder and returns a new builder after adding the given
    /// transform and recompression. Returns an error (holding the unchanged
    /// builder) if the given transform cannot be concatenated to the last
    /// transform tracked by the builder and there are no slots remaining in
    /// the builder.
    pub fn push(self, transform: Transform<T>) -> (r: Result<TransformBuilder<T>, TransformBuilder<T>>)
        ensures
            self.spec_push_fails(transform) ==> r == Err::<TransformBuilder<T>, TransformBuilder<T>>(self),
            !self.spec_push_fails(transform) ==> (r matches Ok(b) && b.spec_transforms()@
                == self.spec_push_slots(transform) && b.spec_len() == self.spec_push_len(transform)),
    {
        proof {
            use_type_invariant(&self);
        }
        let mut builder = self;
        let n = builder.index;
        if n == 0 {
            builder.transforms[0] = transform;
        } else {
            match builder.transforms[n - 1].concat(transform) {
                Some(c) => {
                    builder.transforms[n - 1] = c;
                    return Ok(builder);
                },
                None => {
                    if n == 8 {
                        return Err(builder);
                    }
                    builder.transforms[n] = transform;
                },
            }
        }
        builder.index = n + 1;
        Ok(builder)
    }

    /// Returns the number of transforms currently tracked by the builder.
    pub fn len(&self) -> (r: usize)
        ensures
            r == self.spec_len(),
            r <= 8,
    {
        proof {
            use_type_invariant(self);
        }
        self.index
    }

    /// Consumes the builder and returns all of its transforms.
    pub fn into_transforms(self) -> (r: [Transform<T>; 8])
        ensures
            r == self.spec_transforms(),
    {
        self.transforms
    }
}

impl<T: Scalar> Clone for TransformBuilder<T> {
    fn clone(&self) -> (r: Self)
        ensures
            r == *self,
    {
        *self
    }
}

impl<T: Scalar> Default for TransformBuilder<T> {
    fn default() -> (r: Self)
        ensures
            r.spec_len() == 0,
            forall|i: int| 0 <= i < 8 ==> #[trigger] r.spec_transforms()[i] == Transform::<T>::spec_default(),
    {
        Self::new()
    }
}

} // verus!

