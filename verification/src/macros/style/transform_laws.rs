//! What each transform function of the `transform` property does to a
//! point, stated over the arguments it is written with.

use vstd::prelude::*;
use crate::scalar::{Scalar, unit_laws};
use crate::geometry::Dimension;
use crate::linalg::geometry::Point3D;
use crate::linalg::laws::{
    negative_x_rotation_turns_points, negative_y_rotation_turns_points, rotation_laws,
    z_rotation_turns_points, scale_stretches_points, skew_x_moves_points_horizontally, skew_y_moves_points_vertically,
    translation_moves_points,
};
use super::parser::{
    Token, TransformFunction, arg, spec_angle, spec_dimension, spec_number, spec_transform_arguments,
};

verus! {

/// The number that argument `k` holds.
pub open spec fn number_arg<T: Scalar>(s: Seq<Token<T>>, k: int) -> T {
    spec_number(arg(s, k))->0
}

/// The radians of the angle that argument `k` holds.
pub open spec fn angle_arg<T: Scalar>(s: Seq<Token<T>>, k: int) -> T {
    spec_angle(arg(s, k))->0.spec_radians()
}

/// The dimension that argument `k` holds.
pub open spec fn dimension_arg<T: Scalar>(s: Seq<Token<T>>, k: int) -> Dimension<T> {
    spec_dimension(arg(s, k))->0
}

/// The offset in points of a translation by the dimension: its points, or
/// zero for any other dimension.
pub open spec fn points_offset<T: Scalar>(d: Dimension<T>) -> T {
    match d {
        Dimension::Points(v) => v,
        _ => T::spec_zero(),
    }
}

/// The offset relative to the container of a translation by the dimension:
/// its fraction, or zero for any other dimension.
pub open spec fn relative_offset<T: Scalar>(d: Dimension<T>) -> T {
    match d {
        Dimension::Percentage(r) => r,
        _ => T::spec_zero(),
    }
}

/// The point moved by the offsets.
pub open spec fn moved<T: Scalar>(p: Point3D<T>, dx: T, dy: T, dz: T) -> Point3D<T> {
    Point3D { x: p.x.spec_add(dx), y: p.y.spec_add(dy), z: p.z.spec_add(dz) }
}

/// The point with each coordinate divided by `w`.
pub open spec fn divided<T: Scalar>(x: T, y: T, z: T, w: T) -> Point3D<T> {
    Point3D { x: x.spec_div(w), y: y.spec_div(w), z: z.spec_div(w) }
}

/// What the transform that a function parses to does to the point `p`, and
/// the offset it keeps relative to the size of its container (zero but for
/// percentages in a translation):
/// - `scaleX(v)`, `scaleY(v)`, `scaleZ(v)` scale one axis by `v`;
///   `scale(a, b)` scales x by `a` and y by `b`; `scale3d(a, b, c)` all
///   three axes;
/// - `skewX(a)` moves x by `tan(a) * y`; `skewY(a)` moves y by `tan(a) * x`;
/// - `translateX(d)`, `translateY(d)`, `translate(dx, dy)` move by the
///   points of the dimensions (percentages become the relative offset),
///   `translateZ(v)` and the third argument of `translate3d` move z;
/// - `matrix(a, b, c, d, e, f)` maps `(x, y)` to
///   `(a x + c y + e, b x + d y + f)` and keeps z;
/// - `matrix3d(m0, .., m15)` takes its arguments column by column: the
///   image is `(m0 x + m4 y + m8 z + m12, ..)` divided by
///   `m3 x + m7 y + m11 z + m15`;
/// - `perspective(d)` divides the point by `z / d + 1`.
pub open spec fn moves_point_as_written<T: Scalar>(f: TransformFunction, s: Seq<Token<T>>, p: Point3D<T>) -> bool {
    let t = spec_transform_arguments(f, s)->0;
    let o = T::spec_zero();
    let image = t.matrix.spec_apply(p);
    let unresolved = t.relative_translation;
    match f {
        TransformFunction::ScaleX => image == (Point3D { x: number_arg(s, 0).spec_mul(p.x), y: p.y, z: p.z })
            && unresolved == (o, o),
        TransformFunction::ScaleY => image == (Point3D { x: p.x, y: number_arg(s, 0).spec_mul(p.y), z: p.z })
            && unresolved == (o, o),
        TransformFunction::ScaleZ => image == (Point3D { x: p.x, y: p.y, z: number_arg(s, 0).spec_mul(p.z) })
            && unresolved == (o, o),
        TransformFunction::Scale => image == (Point3D {
            x: number_arg(s, 0).spec_mul(p.x),
            y: number_arg(s, 1).spec_mul(p.y),
            z: p.z,
        }) && unresolved == (o, o),
        TransformFunction::Scale3d => image == (Point3D {
            x: number_arg(s, 0).spec_mul(p.x),
            y: number_arg(s, 1).spec_mul(p.y),
            z: number_arg(s, 2).spec_mul(p.z),
        }) && unresolved == (o, o),
        TransformFunction::SkewX => image == (Point3D {
            x: p.x.spec_add(angle_arg(s, 0).spec_tan().spec_mul(p.y)),
            y: p.y,
            z: p.z,
        }) && unresolved == (o, o),
        TransformFunction::SkewY => image == (Point3D {
            x: p.x,
            y: angle_arg(s, 0).spec_tan().spec_mul(p.x).spec_add(p.y),
            z: p.z,
        }) && unresolved == (o, o),
        TransformFunction::TranslateX => image == moved(p, points_offset(dimension_arg(s, 0)), o, o)
            && unresolved == (relative_offset(dimension_arg(s, 0)), o),
        TransformFunction::TranslateY => image == moved(p, o, points_offset(dimension_arg(s, 0)), o)
            && unresolved == (o, relative_offset(dimension_arg(s, 0))),
        TransformFunction::TranslateZ => image == moved(p, o, o, number_arg(s, 0)) && unresolved == (o, o),
        TransformFunction::Translate => image == moved(
            p,
            points_offset(dimension_arg(s, 0)),
            points_offset(dimension_arg(s, 1)),
            o,
        ) && unresolved == (relative_offset(dimension_arg(s, 0)), relative_offset(dimension_arg(s, 1))),
        TransformFunction::Translate3d => image == moved(
            p,
            points_offset(dimension_arg(s, 0)),
            points_offset(dimension_arg(s, 1)),
            number_arg(s, 2),
        ) && unresolved == (relative_offset(dimension_arg(s, 0)), relative_offset(dimension_arg(s, 1))),
        TransformFunction::Matrix => image == (Point3D {
            x: number_arg(s, 0).spec_mul(p.x).spec_add(number_arg(s, 2).spec_mul(p.y)).spec_add(number_arg(s, 4)),
            y: number_arg(s, 1).spec_mul(p.x).spec_add(number_arg(s, 3).spec_mul(p.y)).spec_add(number_arg(s, 5)),
            z: p.z,
        }) && unresolved == (o, o),
        TransformFunction::Matrix3d => {
            let m = |k: int| number_arg(s, k);
            let row = |j: int| m(j).spec_mul(p.x).spec_add(m(4 + j).spec_mul(p.y)).spec_add(
                m(8 + j).spec_mul(p.z),
            ).spec_add(m(12 + j));
            image == divided(row(0), row(1), row(2), row(3)) && unresolved == (o, o)
        },
        TransformFunction::Perspective => {
            let d = points_offset(dimension_arg(s, 0));
            image == divided(p.x, p.y, p.z, d.spec_recip().spec_mul(p.z).spec_add(T::spec_one()))
                && unresolved == (o, o)
        },
        _ => true,
    }
}

/// Each transform function that parses moves points as it is written (see
/// `moves_point_as_written`).
pub proof fn parsed_transforms_move_points_as_written<T: Scalar>(
    f: TransformFunction,
    s: Seq<Token<T>>,
    p: Point3D<T>,
)
    requires
        unit_laws::<T>(),
        spec_transform_arguments(f, s) is Some,
    ensures
        moves_point_as_written(f, s, p),
{
    let t = spec_transform_arguments(f, s)->0;
    match f {
        TransformFunction::ScaleX => {
            scale_stretches_points(number_arg(s, 0), T::spec_one(), T::spec_one(), p);
        },
        TransformFunction::ScaleY => {
            scale_stretches_points(T::spec_one(), number_arg(s, 0), T::spec_one(), p);
        },
        TransformFunction::ScaleZ => {
            scale_stretches_points(T::spec_one(), T::spec_one(), number_arg(s, 0), p);
        },
        TransformFunction::Scale => {
            scale_stretches_points(number_arg(s, 0), number_arg(s, 1), T::spec_one(), p);
        },
        TransformFunction::Scale3d => {
            scale_stretches_points(number_arg(s, 0), number_arg(s, 1), number_arg(s, 2), p);
        },
        TransformFunction::SkewX => {
            skew_x_moves_points_horizontally(angle_arg(s, 0), p);
        },
        TransformFunction::SkewY => {
            skew_y_moves_points_vertically(angle_arg(s, 0), p);
        },
        TransformFunction::TranslateX => {
            translation_moves_points(points_offset(dimension_arg(s, 0)), T::spec_zero(), T::spec_zero(), p);
        },
        TransformFunction::TranslateY => {
            translation_moves_points(T::spec_zero(), points_offset(dimension_arg(s, 0)), T::spec_zero(), p);
        },
        TransformFunction::TranslateZ => {
            translation_moves_points(T::spec_zero(), T::spec_zero(), number_arg(s, 0), p);
        },
        TransformFunction::Translate => {
            translation_moves_points(
                points_offset(dimension_arg(s, 0)),
                points_offset(dimension_arg(s, 1)),
                T::spec_zero(),
                p,
            );
        },
        TransformFunction::Translate3d => {
            translation_moves_points(
                points_offset(dimension_arg(s, 0)),
                points_offset(dimension_arg(s, 1)),
                number_arg(s, 2),
                p,
            );
        },
        _ => {},
    }
}

/// What a rotation function parses to does to the point `p`, by the angle
/// `a` of its argument: `rotate(a)` (and `rotateZ(a)`) turns x towards y,
/// `(cos a x - sin a y, sin a x + cos a y, z)`; `rotateX(a)` gives
/// `(x, cos a y + sin a z, -sin a y + cos a z)`; `rotateY(a)` gives
/// `(cos a x - sin a z, y, sin a x + cos a z)`. None of them keeps an
/// offset relative to the container.
pub open spec fn turns_point_as_written<T: Scalar>(f: TransformFunction, s: Seq<Token<T>>, p: Point3D<T>) -> bool {
    let t = spec_transform_arguments(f, s)->0;
    let o = T::spec_zero();
    let a = angle_arg(s, 0);
    let image = t.matrix.spec_apply(p);
    match f {
        TransformFunction::Rotate => image == (Point3D {
            x: a.spec_cos().spec_mul(p.x).spec_add(a.spec_sin().spec_neg().spec_mul(p.y)),
            y: a.spec_sin().spec_mul(p.x).spec_add(a.spec_cos().spec_mul(p.y)),
            z: p.z,
        }) && t.relative_translation == (o, o),
        TransformFunction::RotateX => image == (Point3D {
            x: p.x,
            y: a.spec_cos().spec_mul(p.y).spec_add(a.spec_sin().spec_mul(p.z)),
            z: a.spec_sin().spec_neg().spec_mul(p.y).spec_add(a.spec_cos().spec_mul(p.z)),
        }) && t.relative_translation == (o, o),
        TransformFunction::RotateY => image == (Point3D {
            x: a.spec_cos().spec_mul(p.x).spec_add(a.spec_sin().spec_neg().spec_mul(p.z)),
            y: p.y,
            z: a.spec_sin().spec_mul(p.x).spec_add(a.spec_cos().spec_mul(p.z)),
        }) && t.relative_translation == (o, o),
        _ => true,
    }
}

/// Each rotation function that parses turns points as it is written (see
/// `turns_point_as_written`).
pub proof fn parsed_rotations_turn_points_as_written<T: Scalar>(
    f: TransformFunction,
    s: Seq<Token<T>>,
    p: Point3D<T>,
)
    requires
        rotation_laws::<T>(),
        spec_transform_arguments(f, s) is Some,
    ensures
        turns_point_as_written(f, s, p),
{
    match f {
        TransformFunction::Rotate => {
            z_rotation_turns_points(angle_arg(s, 0), p);
        },
        TransformFunction::RotateX => {
            negative_x_rotation_turns_points(angle_arg(s, 0), p);
        },
        TransformFunction::RotateY => {
            negative_y_rotation_turns_points(angle_arg(s, 0), p);
        },
        _ => {},
    }
}

} // verus!
