//! Points and rotation quaternions in a 3D space.

use vstd::prelude::*;
use crate::scalar::{Scalar, is_one, is_zero, scalar_is_one, scalar_is_zero, two};

verus! {

/// A point in a 3D space.
#[derive(Copy, Clone, Debug, Default, Eq, PartialEq)]
pub struct Point3D<T> {
    /// The x-coordinate of this point.
    pub x: T,
    /// The y-coordinate of this point.
    pub y: T,
    /// The z-coordinate of this point.
    pub z: T,
}

impl<T> Point3D<T> {
    /// Returns a new point in a 3D space with the given coordinates.
    pub fn new(x: T, y: T, z: T) -> (r: Point3D<T>)
        ensures
            r == (Point3D { x, y, z }),
    {
        Point3D { x, y, z }
    }
}

impl<T: Scalar> Point3D<T> {
    /// The square root of the sum of the squared coordinates.
    pub open spec fn spec_l2_norm(self) -> T {
        self.x.spec_mul(self.x).spec_add(self.y.spec_mul(self.y)).spec_add(
            self.z.spec_mul(self.z),
        ).spec_sqrt()
    }

    /// Each coordinate divided by the L2 norm.
    pub open spec fn spec_normalize(self) -> Point3D<T> {
        let n = self.spec_l2_norm();
        Point3D { x: self.x.spec_div(n), y: self.y.spec_div(n), z: self.z.spec_div(n) }
    }

    /// Returns the L2 norm of this vector (incl. the square root).
    pub fn l2_norm(self) -> (r: T)
        ensures
            r == self.spec_l2_norm(),
    {
        self.x.mul(self.x).add(self.y.mul(self.y)).add(self.z.mul(self.z)).sqrt()
    }

    /// Returns a normalized vector by dividing each component by the L2 norm
    /// of this vector.
    pub fn normalize(self) -> (r: Point3D<T>)
        ensures
            r == self.spec_normalize(),
    {
        let norm = self.l2_norm();
        Point3D::new(self.x.div(norm), self.y.div(norm), self.z.div(norm))
    }
}

/// A 3D rotation quaternion.
#[derive(Copy, Clone, Debug, Default, Eq, PartialEq)]
pub struct Quaternion3D<T> {
    /// The x-element of this quaternion.
    pub x: T,
    /// The y-element of this quaternion.
    pub y: T,
    /// The z-element of this quaternion.
    pub z: T,
    /// The w-element of this quaternion.
    pub w: T,
}

impl<T> Quaternion3D<T> {
    /// The element at position `i` (0: x, 1: y, 2: z, 3: w).
    pub open spec fn component(self, i: int) -> T
        recommends
            0 <= i < 4,
    {
        if i == 0 {
            self.x
        } else if i == 1 {
            self.y
        } else if i == 2 {
            self.z
        } else {
            self.w
        }
    }

    /// This quaternion with the element at position `i` replaced by `v`.
    pub open spec fn with_component(self, i: int, v: T) -> Quaternion3D<T>
        recommends
            0 <= i < 4,
    {
        if i == 0 {
            Quaternion3D { x: v, ..self }
        } else if i == 1 {
            Quaternion3D { y: v, ..self }
        } else if i == 2 {
            Quaternion3D { z: v, ..self }
        } else {
            Quaternion3D { w: v, ..self }
        }
    }

    proof fn lemma_with_component(q: Quaternion3D<T>, i: int, v: T)
        requires
            0 <= i < 4,
        ensures
            forall|j: int|
                0 <= j < 4 ==> #[trigger] q.with_component(i, v).component(j) == if j == i {
                    v
                } else {
                    q.component(j)
                },
    {
    }

    /// Returns a new quaternion with the given elements.
    pub fn new(x: T, y: T, z: T, w: T) -> (r: Quaternion3D<T>)
        ensures
            r == (Quaternion3D { x, y, z, w }),
    {
        Quaternion3D { x, y, z, w }
    }

    /// Applies the given transformation to each element of the given quaternion
    /// and returns the result.
    pub fn map<F, O>(self, op: F) -> (r: Quaternion3D<O>)
        where
            F: Fn(T) -> O,
        requires
            call_requires(op, (self.x,)),
            call_requires(op, (self.y,)),
            call_requires(op, (self.z,)),
            call_requires(op, (self.w,)),
        ensures
            call_ensures(op, (self.x,), r.x),
            call_ensures(op, (self.y,), r.y),
            call_ensures(op, (self.z,), r.z),
            call_ensures(op, (self.w,), r.w),
    {
        Quaternion3D { x: op(self.x), y: op(self.y), z: op(self.z), w: op(self.w) }
    }

    /// Returns a new quaternion with references to each of the original
    /// elements.
    pub fn as_ref(&self) -> (r: Quaternion3D<&T>)
        ensures
            *r.x == self.x,
            *r.y == self.y,
            *r.z == self.z,
            *r.w == self.w,
    {
        Quaternion3D { x: &self.x, y: &self.y, z: &self.z, w: &self.w }
    }

    /// Returns a reference to the element at the given position (0: x, 1: y,
    /// 2: z, 3: w).
    pub fn index(&self, index: usize) -> (r: &T)
        requires
            index < 4,
        ensures
            *r == self.component(index as int),
    {
        match index {
            0 => &self.x,
            1 => &self.y,
            2 => &self.z,
            _ => &self.w,
        }
    }

    /// Replaces the element at the given position (0: x, 1: y, 2: z, 3: w).
    pub fn set(&mut self, index: usize, value: T)
        requires
            index < 4,
        ensures
            *final(self) == old(self).with_component(index as int, value),
    {
        match index {
            0 => self.x = value,
            1 => self.y = value,
            2 => self.z = value,
            _ => self.w = value,
        }
    }
}

impl<T: Scalar> Quaternion3D<T> {
    /// The quaternion of a rotation by `angle` radians (scaled by the length
    /// of the axis) around the axis `(rx, ry, rz)`.
    pub open spec fn spec_with_angle(angle: T, rx: T, ry: T, rz: T) -> Quaternion3D<T> {
        let r = Point3D { x: rx, y: ry, z: rz };
        let u = r.spec_normalize();
        let half = angle.spec_mul(r.spec_l2_norm()).spec_div(two::<T>());
        Quaternion3D {
            x: half.spec_sin().spec_mul(u.x),
            y: half.spec_sin().spec_mul(u.y),
            z: half.spec_sin().spec_mul(u.z),
            w: half.spec_cos(),
        }
    }

    /// The inner product of two quaternions.
    pub open spec fn spec_dot(self, other: Quaternion3D<T>) -> T {
        self.x.spec_mul(other.x).spec_add(self.y.spec_mul(other.y)).spec_add(
            self.z.spec_mul(other.z),
        ).spec_add(self.w.spec_mul(other.w))
    }

    /// The inner product, clamped to `[-1, 1]`.
    pub open spec fn spec_mix_product(self, other: Quaternion3D<T>) -> T {
        self.spec_dot(other).spec_min(T::spec_one()).spec_max(T::spec_one().spec_neg())
    }

    /// The weight of `other` in the spherical interpolation.
    pub open spec fn spec_mix_other_weight(self, weight: T, other: Quaternion3D<T>) -> T {
        let product = self.spec_mix_product(other);
        let theta = product.spec_acos();
        T::spec_one().spec_sub(weight).spec_mul(theta).spec_sin().spec_mul(
            T::spec_one().spec_sub(product.spec_mul(product)).spec_sqrt().spec_recip(),
        )
    }

    /// The weight of `self` in the spherical interpolation.
    pub open spec fn spec_mix_self_weight(self, weight: T, other: Quaternion3D<T>) -> T {
        let product = self.spec_mix_product(other);
        let theta = product.spec_acos();
        T::spec_one().spec_sub(weight).spec_mul(theta).spec_cos().spec_sub(
            product.spec_mul(self.spec_mix_other_weight(weight, other)),
        )
    }

    /// One element of the spherical interpolation.
    pub open spec fn spec_mix_element(a: T, b: T, sw: T, ow: T) -> T {
        a.spec_mul(sw).spec_add(b.spec_mul(ow))
    }

    /// The spherical interpolation between `self` (weight one) and `other`
    /// (weight zero). Where the two are parallel (the clamped inner product
    /// is one or minus one) there is no arc between them: `other` is
    /// returned at weight zero and `self` at every other weight.
    pub open spec fn spec_mix(self, weight: T, other: Quaternion3D<T>) -> Quaternion3D<T> {
        if is_one(self.spec_mix_product(other).spec_abs()) {
            if is_zero(weight) {
                other
            } else {
                self
            }
        } else {
            let sw = self.spec_mix_self_weight(weight, other);
            let ow = self.spec_mix_other_weight(weight, other);
            Quaternion3D {
                x: Self::spec_mix_element(self.x, other.x, sw, ow),
                y: Self::spec_mix_element(self.y, other.y, sw, ow),
                z: Self::spec_mix_element(self.z, other.z, sw, ow),
                w: Self::spec_mix_element(self.w, other.w, sw, ow),
            }
        }
    }

    /// Element-wise sum.
    pub open spec fn spec_addition(self, other: Quaternion3D<T>) -> Quaternion3D<T> {
        Quaternion3D {
            x: self.x.spec_add(other.x),
            y: self.y.spec_add(other.y),
            z: self.z.spec_add(other.z),
            w: self.w.spec_add(other.w),
        }
    }

    /// Element-wise difference.
    pub open spec fn spec_subtract(self, other: Quaternion3D<T>) -> Quaternion3D<T> {
        Quaternion3D {
            x: self.x.spec_sub(other.x),
            y: self.y.spec_sub(other.y),
            z: self.z.spec_sub(other.z),
            w: self.w.spec_sub(other.w),
        }
    }

    /// Converts the rotation with the given angle radians around a vector with
    /// the given coordinates, into a quaternion with the corresponding
    /// elements.
    pub fn with_angle(angle: T, rx: T, ry: T, rz: T) -> (r: Quaternion3D<T>)
        ensures
            r == Self::spec_with_angle(angle, rx, ry, rz),
    {
        let r = Point3D::new(rx, ry, rz);
        let u = r.normalize();
        let angle = angle.mul(r.l2_norm());
        let one = T::one();
        let two = one.add(one);
        let x = angle.div(two).sin().mul(u.x);
        let y = angle.div(two).sin().mul(u.y);
        let z = angle.div(two).sin().mul(u.z);
        let w = angle.div(two).cos();
        Quaternion3D { x, y, z, w }
    }

    /// Computes the inner product of this quaternion and the given quaternion.
    pub fn dot(&self, other: &Self) -> (r: T)
        ensures
            r == self.spec_dot(*other),
    {
        self.x.mul(other.x).add(self.y.mul(other.y)).add(self.z.mul(other.z)).add(
            self.w.mul(other.w),
        )
    }

    /// Interpolates between the given quaternions with the given weight. If the
    /// weight is one, `self` is returned. If the weight is zero, `other` is
    /// returned. Parallel quaternions give `self` at every weight but zero.
    pub fn mix(self, weight: T, other: Quaternion3D<T>) -> (r: Quaternion3D<T>)
        ensures
            r == self.spec_mix(weight, other),
    {
        let mut product = self.dot(&other);
        product = product.min(T::one());
        product = product.max(T::one().neg());
        if scalar_is_one(product.abs()) {
            if scalar_is_zero(weight) {
                return other;
            }
            return self;
        }
        let theta = product.acos();
        let w = T::one().sub(weight).mul(theta).sin().mul(
            T::one().sub(product.mul(product)).sqrt().recip(),
        );
        let sw = T::one().sub(weight).mul(theta).cos().sub(product.mul(w));
        let mut result = self;
        let mut i: usize = 0;
        while i < 4
            invariant
                0 <= i <= 4,
                forall|j: int|
                    0 <= j < i ==> #[trigger] result.component(j) == Self::spec_mix_element(
                        self.component(j),
                        other.component(j),
                        sw,
                        w,
                    ),
                forall|j: int| i <= j < 4 ==> #[trigger] result.component(j) == self.component(j),
            decreases 4 - i,
        {
            let a = self.index(i).mul(sw);
            let b = other.index(i).mul(w);
            let ghost before = result;
            result.set(i, a.add(b));
            proof {
                Self::lemma_with_component(before, i as int, a.spec_add(b));
            }
            i = i + 1;
        }
        assert(result.x == result.component(0));
        assert(result.y == result.component(1));
        assert(result.z == result.component(2));
        assert(result.w == result.component(3));
        result
    }

    /// Returns the element-wise addition of this quaternion and the given
    /// quaternion.
    pub fn addition(&self, other: &Quaternion3D<T>) -> (r: Quaternion3D<T>)
        ensures
            r == self.spec_addition(*other),
    {
        Quaternion3D {
            x: self.x.add(other.x),
            y: self.y.add(other.y),
            z: self.z.add(other.z),
            w: self.w.add(other.w),
        }
    }

    /// Returns the element-wise subtraction of this quaternion and the given
    /// quaternion.
    pub fn subtract(&self, other: &Quaternion3D<T>) -> (r: Quaternion3D<T>)
        ensures
            r == self.spec_subtract(*other),
    {
        Quaternion3D {
            x: self.x.sub(other.x),
            y: self.y.sub(other.y),
            z: self.z.sub(other.z),
            w: self.w.sub(other.w),
        }
    }
}

} // verus!
