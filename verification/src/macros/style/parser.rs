//! Parsing of property values from the tokens of a style sheet.
//!
//! A property value reaches the parser as a slice of [`Token`]s. Errors point
//! at tokens by their index in the slice that the parse function was given.

use std::marker::PhantomData;
use vstd::prelude::*;
use crate::scalar::{Scalar, is_zero, scalar_is_zero};
use crate::text::str_eq;
use crate::geometry::Dimension;
use crate::layout::{ByCorner, ByEdge, LayoutAxisX, LayoutAxisY};
use crate::physics::Angle;
use crate::styles::ParseValue;
use crate::styles::transform::{
    Transform, TransformBuilder, builder_push_fails, builder_push_len, builder_push_slots,
};

verus! {

/// One token tree of a property value.
#[derive(Debug)]
pub enum Token<T> {
    /// A name. Dashed names such as `ease-in-out` form a single token.
    Ident(String),
    /// A punctuation character, such as `,` or `-`.
    Punct(char),
    /// A number with its unit suffix, which is empty when there is none:
    /// `45deg` is `Number(45, "deg")`.
    Number(T, String),
    /// A string literal, with its escapes resolved.
    Literal(String),
    /// A group of tokens between a pair of delimiters.
    Group(Delimiter, Vec<Token<T>>),
}

/// The pair of characters that encloses a group of tokens.
#[derive(Copy, Clone, Debug, PartialEq, Eq, Structural)]
pub enum Delimiter {
    /// `( ... )`
    Parenthesis,
    /// `[ ... ]`
    Bracket,
    /// `{ ... }`
    Brace,
}

/// This is an error that is emitted while parsing the domain-specific property
/// value types. Positions are indices into the parsed slice of tokens; a span
/// is a half-open range of such indices.
#[derive(Copy, Clone, Debug, PartialEq, Eq, Structural)]
pub enum ParseError {
    /// This error is emitted when the parser encounters a construct that has
    /// been deprecated (`skew`: it has been deprecated due to ambiguous
    /// behavior).
    Deprecated(usize, usize),
    /// This error is emitted when the parser encounters an unexpected token.
    UnexpectedToken(usize),
    /// This error is emitted when parsing an enum if the given variant does not
    /// exist.
    UnknownVariant(usize, usize),
    /// This error is emitted when the parser encounters a unit it doesn't
    /// recognize. For example, 1vw is currently not yet supported.
    UnrecognizedUnit(usize),
    /// This error is emitted when the parser encounters too few arguments for
    /// multi-part properties (3 instead of 2 or 4 for margin or padding).
    TooFewArguments(usize, usize),
    /// This error is emitted when the parser encounters too many arguments for
    /// multi-part properties (5 instead of 2 or 4 for margin or padding).
    TooManyArguments(usize, usize),
}

impl ParseError {
    /// The message that reports this error.
    pub open spec fn spec_message(self) -> Seq<char> {
        match self {
            ParseError::Deprecated(_, _) => "Skew has been deprecated due to ambiguous behavior."@,
            ParseError::UnexpectedToken(_) => "Unexpected token."@,
            ParseError::UnknownVariant(_, _) => "Unknown variant."@,
            ParseError::UnrecognizedUnit(_) => "Unrecognized CSS unit. Only `px` and `%` are supported at this moment."@,
            ParseError::TooFewArguments(_, _) => "Too few arguments."@,
            ParseError::TooManyArguments(_, _) => "Too many arguments."@,
        }
    }

    /// Returns the message that reports this error.
    pub fn message(&self) -> (r: &'static str)
        ensures
            r@ == self.spec_message(),
    {
        match self {
            ParseError::Deprecated(_, _) => "Skew has been deprecated due to ambiguous behavior.",
            ParseError::UnexpectedToken(_) => "Unexpected token.",
            ParseError::UnknownVariant(_, _) => "Unknown variant.",
            ParseError::UnrecognizedUnit(_) => "Unrecognized CSS unit. Only `px` and `%` are supported at this moment.",
            ParseError::TooFewArguments(_, _) => "Too few arguments.",
            ParseError::TooManyArguments(_, _) => "Too many arguments.",
        }
    }
}

/// The token is a comma.
pub open spec fn is_comma<T>(t: Token<T>) -> bool {
    t matches Token::Punct(c) && c == ','
}

/// The number that a unitless number token holds.
pub open spec fn spec_number<T>(t: Token<T>) -> Option<T> {
    match t {
        Token::Number(v, unit) => if unit@.len() == 0 {
            Some(v)
        } else {
            None
        },
        _ => None,
    }
}

/// The dimension that a token denotes: a keyword, a number of `px` or `%`,
/// or a unitless zero.
pub open spec fn spec_dimension<T: Scalar>(t: Token<T>) -> Option<Dimension<T>> {
    match t {
        Token::Ident(name) => Dimension::<T>::spec_parse(name@),
        Token::Number(v, unit) => if unit@ == "%"@ {
            Some(Dimension::Percentage(v))
        } else if unit@ == "px"@ {
            Some(Dimension::Points(v))
        } else if unit@.len() == 0 && is_zero(v) {
            Some(Dimension::Points(T::spec_zero()))
        } else {
            None
        },
        _ => None,
    }
}

/// The angle that a token denotes: a number of `rad` or `deg`, or a unitless
/// zero.
pub open spec fn spec_angle<T: Scalar>(t: Token<T>) -> Option<Angle<T>> {
    match t {
        Token::Number(v, unit) => if unit@ == "rad"@ {
            Some(Angle::spec_from_radians(v))
        } else if unit@ == "deg"@ {
            Some(Angle::spec_from_radians(Angle::degrees_to_radians(v)))
        } else if unit@.len() == 0 && is_zero(v) {
            Some(Angle::spec_from_radians(T::spec_zero()))
        } else {
            None
        },
        _ => None,
    }
}

/// The boolean that a `true` or `false` token denotes.
pub open spec fn spec_boolean<T>(t: Token<T>) -> Option<bool> {
    match t {
        Token::Ident(name) => if name@ == "true"@ {
            Some(true)
        } else if name@ == "false"@ {
            Some(false)
        } else {
            None
        },
        _ => None,
    }
}

/// The tokens are a comma-separated list of single-token arguments.
pub open spec fn spec_is_argument_list<T>(s: Seq<Token<T>>) -> bool {
    &&& s.len() % 2 == 1
    &&& forall|i: int| 0 <= i < s.len() ==> (is_comma(#[trigger] s[i]) <==> i % 2 == 1)
}

/// The number of arguments in an argument list.
pub open spec fn spec_argument_count<T>(s: Seq<Token<T>>) -> int {
    (s.len() + 1) as int / 2
}

/// Argument `k` of an argument list.
pub open spec fn arg<T>(s: Seq<Token<T>>, k: int) -> Token<T> {
    s[2 * k]
}

/// The first `n` arguments are unitless numbers.
pub open spec fn spec_all_numbers<T>(s: Seq<Token<T>>, n: int) -> bool {
    forall|k: int| 0 <= k < n ==> #[trigger] spec_number(arg(s, k)) is Some
}

/// The numbers of the first `n` arguments.
pub open spec fn spec_numbers<T>(s: Seq<Token<T>>, n: int) -> Seq<T> {
    Seq::new(n as nat, |k: int| spec_number(arg(s, k))->0)
}

/// The contents of the parenthesized group at position `j`, if there is one.
pub open spec fn spec_group_at<T>(tokens: Seq<Token<T>>, j: int) -> Option<Seq<Token<T>>> {
    if 0 <= j < tokens.len() {
        match tokens[j] {
            Token::Group(Delimiter::Parenthesis, contents) => Some(contents@),
            _ => None,
        }
    } else {
        None
    }
}

/// Returns the number that the given token holds if it is a unitless number.
pub fn number_of<T: Scalar>(t: &Token<T>) -> (r: Option<T>)
    ensures
        r == spec_number(*t),
{
    match t {
        Token::Number(v, unit) => {
            if unit.as_str().unicode_len() == 0 {
                Some(*v)
            } else {
                None
            }
        },
        _ => None,
    }
}

/// Returns the dimension that the given token denotes, if any.
pub fn dimension_of<T: Scalar>(t: &Token<T>) -> (r: Option<Dimension<T>>)
    ensures
        r == spec_dimension(*t),
{
    match t {
        Token::Ident(name) => Dimension::parse(name.as_str()),
        Token::Number(v, unit) => {
            if str_eq(unit.as_str(), "%") {
                Some(Dimension::Percentage(*v))
            } else if str_eq(unit.as_str(), "px") {
                Some(Dimension::Points(*v))
            } else if unit.as_str().unicode_len() == 0 && scalar_is_zero(*v) {
                Some(Dimension::Points(T::zero()))
            } else {
                None
            }
        },
        _ => None,
    }
}

/// Returns the angle that the given token denotes, if any.
pub fn angle_of<T: Scalar>(t: &Token<T>) -> (r: Option<Angle<T>>)
    ensures
        r == spec_angle(*t),
{
    match t {
        Token::Number(v, unit) => {
            if str_eq(unit.as_str(), "rad") {
                Some(Angle::with_radians(*v))
            } else if str_eq(unit.as_str(), "deg") {
                Some(Angle::with_degrees(*v))
            } else if unit.as_str().unicode_len() == 0 && scalar_is_zero(*v) {
                Some(Angle::with_radians(T::zero()))
            } else {
                None
            }
        },
        _ => None,
    }
}

/// Returns the boolean that the given token denotes, if any.
pub fn boolean_of<T>(t: &Token<T>) -> (r: Option<bool>)
    ensures
        r == spec_boolean(*t),
{
    match t {
        Token::Ident(name) => {
            if str_eq(name.as_str(), "true") {
                Some(true)
            } else if str_eq(name.as_str(), "false") {
                Some(false)
            } else {
                None
            }
        },
        _ => None,
    }
}

/// Returns the number of arguments if the given tokens are a comma-separated
/// list of single-token arguments.
pub fn argument_count<T>(s: &[Token<T>]) -> (r: Option<usize>)
    ensures
        r is Some <==> spec_is_argument_list(s@),
        r matches Some(n) ==> n == spec_argument_count(s@),
{
    let len = s.len();
    if len % 2 == 0 {
        return None;
    }
    let mut i: usize = 0;
    while i < len
        invariant
            i <= len,
            len == s@.len(),
            forall|j: int| 0 <= j < i ==> (is_comma(#[trigger] s@[j]) <==> j % 2 == 1),
        decreases len - i,
    {
        let comma = match &s[i] {
            Token::Punct(c) => *c == ',',
            _ => false,
        };
        if comma != (i % 2 == 1) {
            assert(!(is_comma(s@[i as int]) <==> i % 2 == 1));
            return None;
        }
        i = i + 1;
    }
    Some(len / 2 + 1)
}

/// Returns the numbers of the first `n` arguments of the given argument list
/// if they are all unitless numbers.
pub fn numbers_of<T: Scalar>(s: &[Token<T>], n: usize) -> (r: Option<Vec<T>>)
    requires
        spec_is_argument_list(s@),
        n <= spec_argument_count(s@),
    ensures
        r is Some <==> spec_all_numbers(s@, n as int),
        r matches Some(v) ==> v@ == spec_numbers(s@, n as int),
{
    let mut v: Vec<T> = Vec::new();
    let mut k: usize = 0;
    while k < n
        invariant
            k <= n,
            n <= spec_argument_count(s@),
            s@.len() % 2 == 1,
            v@.len() == k,
            spec_all_numbers(s@, k as int),
            forall|j: int| 0 <= j < k ==> v@[j] == #[trigger] spec_number(arg(s@, j))->0,
        decreases n - k,
    {
        assert(2 * k < s@.len() == s.len());
        match number_of(&s[2 * k]) {
            Some(x) => {
                v.push(x);
            },
            None => {
                assert(spec_number(arg(s@, k as int)) is None);
                return None;
            },
        }
        k = k + 1;
    }
    assert(v@ =~= spec_numbers(s@, n as int));
    Some(v)
}

/// The transform functions of the `transform` property.
#[derive(Copy, Clone, Debug, Eq, PartialEq, Structural)]
pub enum TransformFunction {
    /// `matrix(a, b, c, d, tx, ty)`
    Matrix,
    /// `matrix3d(..)` with sixteen coefficients
    Matrix3d,
    /// `perspective(d)`
    Perspective,
    /// `rotate(angle)` or `rotateZ(angle)`
    Rotate,
    /// `rotate3d(x, y, z, angle)`
    Rotate3d,
    /// `rotateX(angle)`
    RotateX,
    /// `rotateY(angle)`
    RotateY,
    /// `scale(sx, sy)`
    Scale,
    /// `scale3d(sx, sy, sz)`
    Scale3d,
    /// `scaleX(sx)`
    ScaleX,
    /// `scaleY(sy)`
    ScaleY,
    /// `scaleZ(sz)`
    ScaleZ,
    /// `skew(..)`, which is deprecated
    Skew,
    /// `skewX(angle)`
    SkewX,
    /// `skewY(angle)`
    SkewY,
    /// `translate(tx, ty)`
    Translate,
    /// `translate3d(tx, ty, tz)`
    Translate3d,
    /// `translateX(tx)`
    TranslateX,
    /// `translateY(ty)`
    TranslateY,
    /// `translateZ(tz)`
    TranslateZ,
}

/// The transform function with the given name.
pub open spec fn spec_transform_function(name: Seq<char>) -> Option<TransformFunction> {
    if name == "matrix"@ {
        Some(TransformFunction::Matrix)
    } else if name == "matrix3d"@ {
        Some(TransformFunction::Matrix3d)
    } else if name == "perspective"@ {
        Some(TransformFunction::Perspective)
    } else if name == "rotate"@ {
        Some(TransformFunction::Rotate)
    } else if name == "rotateZ"@ {
        Some(TransformFunction::Rotate)
    } else if name == "rotate3d"@ {
        Some(TransformFunction::Rotate3d)
    } else if name == "rotateX"@ {
        Some(TransformFunction::RotateX)
    } else if name == "rotateY"@ {
        Some(TransformFunction::RotateY)
    } else if name == "scale"@ {
        Some(TransformFunction::Scale)
    } else if name == "scale3d"@ {
        Some(TransformFunction::Scale3d)
    } else if name == "scaleX"@ {
        Some(TransformFunction::ScaleX)
    } else if name == "scaleY"@ {
        Some(TransformFunction::ScaleY)
    } else if name == "scaleZ"@ {
        Some(TransformFunction::ScaleZ)
    } else if name == "skew"@ {
        Some(TransformFunction::Skew)
    } else if name == "skewX"@ {
        Some(TransformFunction::SkewX)
    } else if name == "skewY"@ {
        Some(TransformFunction::SkewY)
    } else if name == "translate"@ {
        Some(TransformFunction::Translate)
    } else if name == "translate3d"@ {
        Some(TransformFunction::Translate3d)
    } else if name == "translateX"@ {
        Some(TransformFunction::TranslateX)
    } else if name == "translateY"@ {
        Some(TransformFunction::TranslateY)
    } else if name == "translateZ"@ {
        Some(TransformFunction::TranslateZ)
    } else {
        None
    }
}

/// Returns the transform function with the given name, if any.
pub fn transform_function(name: &str) -> (r: Option<TransformFunction>)
    ensures
        r == spec_transform_function(name@),
{
    if str_eq(name, "matrix") {
        Some(TransformFunction::Matrix)
    } else if str_eq(name, "matrix3d") {
        Some(TransformFunction::Matrix3d)
    } else if str_eq(name, "perspective") {
        Some(TransformFunction::Perspective)
    } else if str_eq(name, "rotate") {
        Some(TransformFunction::Rotate)
    } else if str_eq(name, "rotateZ") {
        Some(TransformFunction::Rotate)
    } else if str_eq(name, "rotate3d") {
        Some(TransformFunction::Rotate3d)
    } else if str_eq(name, "rotateX") {
        Some(TransformFunction::RotateX)
    } else if str_eq(name, "rotateY") {
        Some(TransformFunction::RotateY)
    } else if str_eq(name, "scale") {
        Some(TransformFunction::Scale)
    } else if str_eq(name, "scale3d") {
        Some(TransformFunction::Scale3d)
    } else if str_eq(name, "scaleX") {
        Some(TransformFunction::ScaleX)
    } else if str_eq(name, "scaleY") {
        Some(TransformFunction::ScaleY)
    } else if str_eq(name, "scaleZ") {
        Some(TransformFunction::ScaleZ)
    } else if str_eq(name, "skew") {
        Some(TransformFunction::Skew)
    } else if str_eq(name, "skewX") {
        Some(TransformFunction::SkewX)
    } else if str_eq(name, "skewY") {
        Some(TransformFunction::SkewY)
    } else if str_eq(name, "translate") {
        Some(TransformFunction::Translate)
    } else if str_eq(name, "translate3d") {
        Some(TransformFunction::Translate3d)
    } else if str_eq(name, "translateX") {
        Some(TransformFunction::TranslateX)
    } else if str_eq(name, "translateY") {
        Some(TransformFunction::TranslateY)
    } else if str_eq(name, "translateZ") {
        Some(TransformFunction::TranslateZ)
    } else {
        None
    }
}

/// The transform that the function `f` denotes with the arguments in `s`,
/// the contents of its parenthesized group.
pub open spec fn spec_transform_arguments<T: Scalar>(f: TransformFunction, s: Seq<Token<T>>) -> Option<Transform<T>> {
    let n = spec_argument_count(s);
    let o = T::spec_zero();
    let i = T::spec_one();
    if !spec_is_argument_list(s) {
        None
    } else {
        match f {
            TransformFunction::Matrix => if n == 6 && spec_all_numbers(s, 6) {
                let v = spec_numbers(s, 6);
                Some(Transform::spec_with_matrix([v[0], v[1], v[2], v[3], v[4], v[5]]))
            } else {
                None
            },
            TransformFunction::Matrix3d => if n == 16 && spec_all_numbers(s, 16) {
                let v = spec_numbers(s, 16);
                Some(Transform::spec_with_matrix3d([
                    v[0], v[1], v[2], v[3], v[4], v[5], v[6], v[7],
                    v[8], v[9], v[10], v[11], v[12], v[13], v[14], v[15],
                ]))
            } else {
                None
            },
            TransformFunction::Perspective => if n == 1 {
                match spec_dimension(arg(s, 0)) {
                    Some(Dimension::Points(d)) => Some(Transform::spec_with_perspective(d)),
                    _ => None,
                }
            } else {
                None
            },
            TransformFunction::Rotate => if n == 1 && spec_angle(arg(s, 0)) is Some {
                Some(Transform::spec_with_rotation(o, o, i, spec_angle(arg(s, 0))->0))
            } else {
                None
            },
            TransformFunction::Rotate3d => if n == 4 && spec_all_numbers(s, 3) && spec_angle(arg(s, 3)) is Some {
                let v = spec_numbers(s, 3);
                Some(Transform::spec_with_rotation(v[0], v[1], v[2], spec_angle(arg(s, 3))->0))
            } else {
                None
            },
            TransformFunction::RotateX => if n == 1 && spec_angle(arg(s, 0)) is Some {
                Some(Transform::spec_with_rotation(i, o, o, spec_angle(arg(s, 0))->0))
            } else {
                None
            },
            TransformFunction::RotateY => if n == 1 && spec_angle(arg(s, 0)) is Some {
                Some(Transform::spec_with_rotation(o, i, o, spec_angle(arg(s, 0))->0))
            } else {
                None
            },
            TransformFunction::Scale => if n == 2 && spec_all_numbers(s, 2) {
                let v = spec_numbers(s, 2);
                Some(Transform::spec_with_scale(v[0], v[1], i))
            } else {
                None
            },
            TransformFunction::Scale3d => if n == 3 && spec_all_numbers(s, 3) {
                let v = spec_numbers(s, 3);
                Some(Transform::spec_with_scale(v[0], v[1], v[2]))
            } else {
                None
            },
            TransformFunction::ScaleX => if n == 1 && spec_all_numbers(s, 1) {
                Some(Transform::spec_with_scale(spec_numbers(s, 1)[0], i, i))
            } else {
                None
            },
            TransformFunction::ScaleY => if n == 1 && spec_all_numbers(s, 1) {
                Some(Transform::spec_with_scale(i, spec_numbers(s, 1)[0], i))
            } else {
                None
            },
            TransformFunction::ScaleZ => if n == 1 && spec_all_numbers(s, 1) {
                Some(Transform::spec_with_scale(i, i, spec_numbers(s, 1)[0]))
            } else {
                None
            },
            TransformFunction::Skew => None,
            TransformFunction::SkewX => if n == 1 && spec_angle(arg(s, 0)) is Some {
                Some(Transform::spec_with_skew_x(spec_angle(arg(s, 0))->0))
            } else {
                None
            },
            TransformFunction::SkewY => if n == 1 && spec_angle(arg(s, 0)) is Some {
                Some(Transform::spec_with_skew_y(spec_angle(arg(s, 0))->0))
            } else {
                None
            },
            TransformFunction::Translate => if n == 2 && spec_dimension(arg(s, 0)) is Some
                && spec_dimension(arg(s, 1)) is Some {
                Some(Transform::spec_with_translation(
                    spec_dimension(arg(s, 0))->0,
                    spec_dimension(arg(s, 1))->0,
                    o,
                ))
            } else {
                None
            },
            TransformFunction::Translate3d => if n == 3 && spec_dimension(arg(s, 0)) is Some
                && spec_dimension(arg(s, 1)) is Some && spec_number(arg(s, 2)) is Some {
                Some(Transform::spec_with_translation(
                    spec_dimension(arg(s, 0))->0,
                    spec_dimension(arg(s, 1))->0,
                    spec_number(arg(s, 2))->0,
                ))
            } else {
                None
            },
            TransformFunction::TranslateX => if n == 1 && spec_dimension(arg(s, 0)) is Some {
                Some(Transform::spec_with_translation(spec_dimension(arg(s, 0))->0, Dimension::Undefined, o))
            } else {
                None
            },
            TransformFunction::TranslateY => if n == 1 && spec_dimension(arg(s, 0)) is Some {
                Some(Transform::spec_with_translation(Dimension::Undefined, spec_dimension(arg(s, 0))->0, o))
            } else {
                None
            },
            TransformFunction::TranslateZ => if n == 1 && spec_number(arg(s, 0)) is Some {
                Some(Transform::spec_with_translation(
                    Dimension::Undefined,
                    Dimension::Undefined,
                    spec_number(arg(s, 0))->0,
                ))
            } else {
                None
            },
        }
    }
}

/// Returns the transform that the function `f` denotes with the arguments in
/// `s`, the contents of its parenthesized group, if they fit it.
pub fn transform_arguments<T: Scalar>(f: TransformFunction, s: &[Token<T>]) -> (r: Option<Transform<T>>)
    ensures
        r == spec_transform_arguments(f, s@),
{
    let n = match argument_count(s) {
        Some(n) => n,
        None => return None,
    };
    let o = T::zero();
    let i = T::one();
    proof {
        assert(s@.len() == 2 * n - 1);
    }
    match f {
        TransformFunction::Matrix => {
            if n != 6 {
                return None;
            }
            match numbers_of(s, 6) {
                Some(v) => Some(Transform::with_matrix([v[0], v[1], v[2], v[3], v[4], v[5]])),
                None => None,
            }
        },
        TransformFunction::Matrix3d => {
            if n != 16 {
                return None;
            }
            match numbers_of(s, 16) {
                Some(v) => Some(Transform::with_matrix3d([
                    v[0], v[1], v[2], v[3], v[4], v[5], v[6], v[7],
                    v[8], v[9], v[10], v[11], v[12], v[13], v[14], v[15],
                ])),
                None => None,
            }
        },
        TransformFunction::Perspective => {
            if n != 1 {
                return None;
            }
            match dimension_of(&s[0]) {
                Some(Dimension::Points(d)) => Some(Transform::with_perspective(d)),
                _ => None,
            }
        },
        TransformFunction::Rotate => {
            if n != 1 {
                return None;
            }
            match angle_of(&s[0]) {
                Some(a) => Some(Transform::with_rotation(o, o, i, a)),
                None => None,
            }
        },
        TransformFunction::Rotate3d => {
            if n != 4 {
                return None;
            }
            let v = match numbers_of(s, 3) {
                Some(v) => v,
                None => return None,
            };
            match angle_of(&s[6]) {
                Some(a) => Some(Transform::with_rotation(v[0], v[1], v[2], a)),
                None => None,
            }
        },
        TransformFunction::RotateX => {
            if n != 1 {
                return None;
            }
            match angle_of(&s[0]) {
                Some(a) => Some(Transform::with_rotation(i, o, o, a)),
                None => None,
            }
        },
        TransformFunction::RotateY => {
            if n != 1 {
                return None;
            }
            match angle_of(&s[0]) {
                Some(a) => Some(Transform::with_rotation(o, i, o, a)),
                None => None,
            }
        },
        TransformFunction::Scale => {
            if n != 2 {
                return None;
            }
            match numbers_of(s, 2) {
                Some(v) => Some(Transform::with_scale(v[0], v[1], i)),
                None => None,
            }
        },
        TransformFunction::Scale3d => {
            if n != 3 {
                return None;
            }
            match numbers_of(s, 3) {
                Some(v) => Some(Transform::with_scale(v[0], v[1], v[2])),
                None => None,
            }
        },
        TransformFunction::ScaleX => {
            if n != 1 {
                return None;
            }
            match numbers_of(s, 1) {
                Some(v) => Some(Transform::with_scale(v[0], i, i)),
                None => None,
            }
        },
        TransformFunction::ScaleY => {
            if n != 1 {
                return None;
            }
            match numbers_of(s, 1) {
                Some(v) => Some(Transform::with_scale(i, v[0], i)),
                None => None,
            }
        },
        TransformFunction::ScaleZ => {
            if n != 1 {
                return None;
            }
            match numbers_of(s, 1) {
                Some(v) => Some(Transform::with_scale(i, i, v[0])),
                None => None,
            }
        },
        TransformFunction::Skew => None,
        TransformFunction::SkewX => {
            if n != 1 {
                return None;
            }
            match angle_of(&s[0]) {
                Some(a) => Some(Transform::with_skew_x(a)),
                None => None,
            }
        },
        TransformFunction::SkewY => {
            if n != 1 {
                return None;
            }
            match angle_of(&s[0]) {
                Some(a) => Some(Transform::with_skew_y(a)),
                None => None,
            }
        },
        TransformFunction::Translate => {
            if n != 2 {
                return None;
            }
            match (dimension_of(&s[0]), dimension_of(&s[2])) {
                (Some(tx), Some(ty)) => Some(Transform::with_translation(tx, ty, o)),
                _ => None,
            }
        },
        TransformFunction::Translate3d => {
            if n != 3 {
                return None;
            }
            match (dimension_of(&s[0]), dimension_of(&s[2]), number_of(&s[4])) {
                (Some(tx), Some(ty), Some(tz)) => Some(Transform::with_translation(tx, ty, tz)),
                _ => None,
            }
        },
        TransformFunction::TranslateX => {
            if n != 1 {
                return None;
            }
            match dimension_of(&s[0]) {
                Some(tx) => Some(Transform::with_translation(tx, Dimension::Undefined, o)),
                None => None,
            }
        },
        TransformFunction::TranslateY => {
            if n != 1 {
                return None;
            }
            match dimension_of(&s[0]) {
                Some(ty) => Some(Transform::with_translation(Dimension::Undefined, ty, o)),
                None => None,
            }
        },
        TransformFunction::TranslateZ => {
            if n != 1 {
                return None;
            }
            match number_of(&s[0]) {
                Some(tz) => Some(Transform::with_translation(Dimension::Undefined, Dimension::Undefined, tz)),
                None => None,
            }
        },
    }
}

/// The outcome of reading the transform function that starts at position
/// `i`: `None` where the reading fails on a slice bound (a `skew` as the last
/// token), else the transform or the error.
pub open spec fn spec_transform_at<T: Scalar>(tokens: Seq<Token<T>>, i: int) -> Option<Result<Transform<T>, ParseError>> {
    match tokens[i] {
        Token::Ident(name) => match spec_transform_function(name@) {
            Some(TransformFunction::Skew) => if i + 2 <= tokens.len() {
                Some(Err(ParseError::Deprecated(i as usize, (i + 2) as usize)))
            } else {
                None
            },
            Some(f) => Some(
                match spec_group_at(tokens, i + 1) {
                    Some(contents) => match spec_transform_arguments(f, contents) {
                        Some(t) => Ok(t),
                        None => Err(ParseError::UnexpectedToken(i as usize)),
                    },
                    None => Err(ParseError::UnexpectedToken(i as usize)),
                },
            ),
            None => Some(Err(ParseError::UnexpectedToken(i as usize))),
        },
        _ => Some(Err(ParseError::UnexpectedToken(i as usize))),
    }
}

/// The outcome of reading transform functions from position `i` on into a
/// builder with the given slots and length: `None` where the reading fails
/// on a slice bound or on a full builder, else the slots of the final builder
/// or the first error.
pub open spec fn spec_transforms_from<T: Scalar>(
    tokens: Seq<Token<T>>,
    i: int,
    slots: Seq<Transform<T>>,
    n: nat,
) -> Option<Result<Seq<Transform<T>>, ParseError>>
    decreases tokens.len() + 2 - i,
{
    if i < 0 || i >= tokens.len() {
        Some(Ok(slots))
    } else {
        match spec_transform_at(tokens, i) {
            None => None,
            Some(Err(e)) => Some(Err(e)),
            Some(Ok(t)) => if builder_push_fails(slots, n, t) {
                None
            } else {
                spec_transforms_from(
                    tokens,
                    i + 2,
                    builder_push_slots(slots, n, t),
                    builder_push_len(slots, n, t),
                )
            },
        }
    }
}

/// Eight identity transforms.
pub open spec fn default_transforms<T: Scalar>() -> Seq<Transform<T>> {
    Seq::new(8, |k: int| Transform::<T>::spec_default())
}

/// The outcome of parsing a `transform` value: `none` is eight identity
/// transforms; otherwise a sequence of transform functions, each a name
/// followed by its parenthesized arguments, compressed by a transform builder.
pub open spec fn spec_parse_transform<T: Scalar>(tokens: Seq<Token<T>>) -> Option<Result<Seq<Transform<T>>, ParseError>> {
    if tokens.len() == 1 && (tokens[0] matches Token::Ident(name) && name@ == "none"@) {
        Some(Ok(default_transforms()))
    } else {
        spec_transforms_from(tokens, 0, default_transforms(), 0)
    }
}

/// Returns the transform that the transform function at position `i`
/// denotes, or the error that reading it gives.
fn transform_at<T: Scalar>(tokens: &[Token<T>], i: usize) -> (r: Result<Transform<T>, ParseError>)
    requires
        i < tokens@.len(),
        spec_transform_at(tokens@, i as int) is Some,
    ensures
        spec_transform_at(tokens@, i as int) == Some(r),
{
    match &tokens[i] {
        Token::Ident(name) => match transform_function(name.as_str()) {
            Some(TransformFunction::Skew) => Err(ParseError::Deprecated(i, i + 2)),
            Some(f) => {
                if i + 1 < tokens.len() {
                    match &tokens[i + 1] {
                        Token::Group(Delimiter::Parenthesis, contents) => match transform_arguments(f, contents.as_slice()) {
                            Some(t) => Ok(t),
                            None => Err(ParseError::UnexpectedToken(i)),
                        },
                        _ => Err(ParseError::UnexpectedToken(i)),
                    }
                } else {
                    Err(ParseError::UnexpectedToken(i))
                }
            },
            None => Err(ParseError::UnexpectedToken(i)),
        },
        _ => Err(ParseError::UnexpectedToken(i)),
    }
}

/// The value that the leading name of `tokens` denotes, with the position of
/// the first token after that name: `(None, 0)` if `tokens` does not start
/// with a name.
pub open spec fn spec_take_enum<T, V: ParseValue>(tokens: Seq<Token<T>>) -> (Option<V>, int) {
    if tokens.len() > 0 && tokens[0] is Ident {
        (V::spec_parse(tokens[0]->Ident_0@), 1)
    } else {
        (None, 0)
    }
}

/// The outcome of parsing the tokens as exactly one name of a variant of `V`.
pub open spec fn spec_parse_enum<T, V: ParseValue>(tokens: Seq<Token<T>>) -> Result<V, ParseError> {
    match tokens[0] {
        Token::Ident(name) => if tokens.len() > 1 {
            Err(ParseError::UnexpectedToken(1))
        } else {
            match V::spec_parse(name@) {
                Some(v) => Ok(v),
                None => Err(ParseError::UnknownVariant(0, tokens.len() as usize)),
            }
        },
        _ => Err(ParseError::UnexpectedToken(0)),
    }
}

/// The outcome of parsing the tokens as exactly one unitless number.
pub open spec fn spec_parse_number<T>(tokens: Seq<Token<T>>) -> Result<T, ParseError> {
    match spec_number(tokens[0]) {
        Some(v) => if tokens.len() > 1 {
            Err(ParseError::UnexpectedToken(1))
        } else {
            Ok(v)
        },
        None => Err(ParseError::UnexpectedToken(0)),
    }
}

/// The outcome of parsing the tokens as exactly one dimension: a keyword,
/// points (`px`), a fraction (`%`, divided by a hundred) or a unitless zero.
pub open spec fn spec_parse_dimension<T: Scalar>(tokens: Seq<Token<T>>) -> Result<Dimension<T>, ParseError> {
    match spec_parse_enum::<T, Dimension<T>>(tokens) {
        Ok(d) => Ok(d),
        Err(_) => match tokens[0] {
            Token::Number(v, unit) => if tokens.len() > 1 {
                Err(ParseError::UnexpectedToken(1))
            } else if unit@ == "%"@ {
                Ok(Dimension::Percentage(v.spec_div(T::spec_from_int(100))))
            } else if unit@ == "px"@ {
                Ok(Dimension::Points(v))
            } else if unit@.len() == 0 && is_zero(v) {
                Ok(Dimension::Points(T::spec_zero()))
            } else {
                Err(ParseError::UnrecognizedUnit(0))
            },
            _ => Err(ParseError::UnexpectedToken(0)),
        },
    }
}

/// The outcome of parsing the tokens as exactly one angle.
pub open spec fn spec_parse_angle<T: Scalar>(tokens: Seq<Token<T>>) -> Result<Angle<T>, ParseError> {
    match tokens[0] {
        Token::Number(v, unit) => if tokens.len() > 1 {
            Err(ParseError::UnexpectedToken(1))
        } else {
            match spec_angle(tokens[0]) {
                Some(a) => Ok(a),
                None => Err(ParseError::UnrecognizedUnit(0)),
            }
        },
        _ => Err(ParseError::UnexpectedToken(0)),
    }
}


/// The value for each edge from one, two or four values: one for all edges;
/// vertical then horizontal; or top, right, bottom and left. Three values
/// are too few, none or more than four too many.
pub open spec fn spec_by_edge<V>(parts: Seq<V>, len: usize) -> Result<ByEdge<V>, ParseError> {
    if parts.len() == 4 {
        Ok(ByEdge {
            horizontal: LayoutAxisX::DirectionIndependent { left: parts[3], right: parts[1] },
            vertical: LayoutAxisY { top: parts[0], bottom: parts[2] },
        })
    } else if parts.len() == 3 {
        Err(ParseError::TooFewArguments(0, len))
    } else if parts.len() == 2 {
        Ok(ByEdge {
            horizontal: LayoutAxisX::DirectionIndependent { left: parts[1], right: parts[1] },
            vertical: LayoutAxisY { top: parts[0], bottom: parts[0] },
        })
    } else if parts.len() == 1 {
        Ok(ByEdge {
            horizontal: LayoutAxisX::DirectionIndependent { left: parts[0], right: parts[0] },
            vertical: LayoutAxisY { top: parts[0], bottom: parts[0] },
        })
    } else {
        Err(ParseError::TooManyArguments(0, len))
    }
}

/// The outcome of parsing a dimension for each edge: every token must be a
/// dimension.
pub open spec fn spec_parse_by_edge<T: Scalar>(tokens: Seq<Token<T>>) -> Result<ByEdge<Dimension<T>>, ParseError> {
    if exists|i: int| 0 <= i < tokens.len() && spec_dimension(tokens[i]) is None {
        Err(ParseError::UnexpectedToken(
            (choose|i: int| 0 <= i < tokens.len() && spec_dimension(tokens[i]) is None
                && forall|j: int| 0 <= j < i ==> spec_dimension(tokens[j]) is Some) as usize,
        ))
    } else {
        spec_by_edge(Seq::new(tokens.len(), |i: int| spec_dimension(tokens[i])->0), tokens.len() as usize)
    }
}

/// The value for each corner from the values for each edge: the top row
/// takes the top value on the left and the right value on the right, the
/// bottom row the left value on the left and the bottom value on the right.
pub open spec fn spec_by_corner<V>(edges: ByEdge<V>) -> ByCorner<V> {
    ByCorner {
        all: match edges.horizontal {
            LayoutAxisX::DirectionIndependent { left, right } => LayoutAxisY {
                top: LayoutAxisX::DirectionIndependent { left: edges.vertical.top, right },
                bottom: LayoutAxisX::DirectionIndependent { left, right: edges.vertical.bottom },
            },
            LayoutAxisX::DirectionDependent { leading, trailing } => LayoutAxisY {
                top: LayoutAxisX::DirectionDependent { leading: edges.vertical.top, trailing },
                bottom: LayoutAxisX::DirectionDependent { leading, trailing: edges.vertical.bottom },
            },
        },
    }
}

/// A non-constructible type that provides a generic namespace for the parser
/// functions.
pub struct Parser<T>(PhantomData<T>);

impl<T: Scalar> Parser<T> {
    /// Consumes the name at the start of the given tokens and returns the
    /// variant of `V` that it names, together with the position of the first
    /// remaining token. If there is no name, this returns `None` and position
    /// zero; if the name names no variant, `None` and the position after it.
    pub fn take_enum<V: ParseValue>(tokens: &[Token<T>]) -> (r: (Option<V>, usize))
        ensures
            r.0 == spec_take_enum::<T, V>(tokens@).0,
            r.1 == spec_take_enum::<T, V>(tokens@).1,
    {
        if tokens.len() > 0 {
            if let Token::Ident(name) = &tokens[0] {
                return (V::parse(name.as_str()), 1);
            }
        }
        (None, 0)
    }

    /// Parses the given slice of tokens to a variant of the given enum. This
    /// function returns an error if the given slice of tokens does not match
    /// any variant of the enum or if tokens remain in the slice even after
    /// parsing the enum variant.
    pub fn parse_enum<V: ParseValue>(tokens: &[Token<T>]) -> (r: Result<V, ParseError>)
        requires
            tokens@.len() > 0,
        ensures
            r == spec_parse_enum::<T, V>(tokens@),
    {
        match &tokens[0] {
            Token::Ident(name) => {
                if tokens.len() > 1 {
                    Err(ParseError::UnexpectedToken(1))
                } else {
                    match V::parse(name.as_str()) {
                        Some(v) => Ok(v),
                        None => Err(ParseError::UnknownVariant(0, tokens.len())),
                    }
                }
            },
            _ => Err(ParseError::UnexpectedToken(0)),
        }
    }

    /// Parses a number from the given slice of tokens. Returns an error if the
    /// given slice is malformed or if tokens remain in the slice even after
    /// successfully parsing a number.
    pub fn parse_number(tokens: &[Token<T>]) -> (r: Result<T, ParseError>)
        requires
            tokens@.len() > 0,
        ensures
            r == spec_parse_number(tokens@),
    {
        match number_of(&tokens[0]) {
            Some(v) => {
                if tokens.len() > 1 {
                    Err(ParseError::UnexpectedToken(1))
                } else {
                    Ok(v)
                }
            },
            None => Err(ParseError::UnexpectedToken(0)),
        }
    }

    /// Consumes one token that makes up a dimension from the start of the given
    /// slice, and returns the dimension with the position of the first remaining
    /// token. If no dimension could be consumed, this returns `None` and
    /// position zero.
    pub fn take_dimension(tokens: &[Token<T>]) -> (r: (Option<Dimension<T>>, usize))
        ensures
            tokens@.len() > 0 && spec_dimension(tokens@[0]) is Some ==> r == (spec_dimension(tokens@[0]), 1usize),
            !(tokens@.len() > 0 && spec_dimension(tokens@[0]) is Some) ==> r == (None::<Dimension<T>>, 0usize),
    {
        if tokens.len() > 0 {
            match dimension_of(&tokens[0]) {
                Some(d) => (Some(d), 1),
                None => (None, 0),
            }
        } else {
            (None, 0)
        }
    }

    /// Parses a dimension from the given slice of tokens. Returns an error if
    /// the given slice is malformed or if tokens remain in the slice even after
    /// successfully parsing a dimension.
    pub fn parse_dimension(tokens: &[Token<T>]) -> (r: Result<Dimension<T>, ParseError>)
        requires
            tokens@.len() > 0,
        ensures
            r == spec_parse_dimension(tokens@),
    {
        if let Ok(d) = Self::parse_enum::<Dimension<T>>(tokens) {
            return Ok(d);
        }
        match &tokens[0] {
            Token::Number(v, unit) => {
                if tokens.len() > 1 {
                    Err(ParseError::UnexpectedToken(1))
                } else if str_eq(unit.as_str(), "%") {
                    Ok(Dimension::Percentage(v.div(T::from_int(100))))
                } else if str_eq(unit.as_str(), "px") {
                    Ok(Dimension::Points(*v))
                } else if unit.as_str().unicode_len() == 0 && scalar_is_zero(*v) {
                    Ok(Dimension::Points(T::zero()))
                } else {
                    Err(ParseError::UnrecognizedUnit(0))
                }
            },
            _ => Err(ParseError::UnexpectedToken(0)),
        }
    }

    /// Parses an angle from the given slice of tokens. Returns an error if the
    /// given slice is malformed or if tokens remain in the slice even after
    /// successfully parsing an angle.
    pub fn parse_angle(tokens: &[Token<T>]) -> (r: Result<Angle<T>, ParseError>)
        requires
            tokens@.len() > 0,
        ensures
            r == spec_parse_angle(tokens@),
    {
        match &tokens[0] {
            Token::Number(_, _) => {
                if tokens.len() > 1 {
                    Err(ParseError::UnexpectedToken(1))
                } else {
                    match angle_of(&tokens[0]) {
                        Some(a) => Ok(a),
                        None => Err(ParseError::UnrecognizedUnit(0)),
                    }
                }
            },
            _ => Err(ParseError::UnexpectedToken(0)),
        }
    }

    /// Parses a transform from the given slice of tokens. Returns an error if
    /// the given slice is malformed or if tokens remain in the slice even after
    /// successfully parsing a transform. The tokens may not read as more
    /// transforms than a transform builder holds after compression, nor end
    /// in a `skew`.
    pub fn parse_transform(tokens: &[Token<T>]) -> (r: Result<[Transform<T>; 8], ParseError>)
        requires
            spec_parse_transform(tokens@) is Some,
        ensures
            match r {
                Ok(a) => spec_parse_transform(tokens@) == Some(Ok::<Seq<Transform<T>>, ParseError>(a@)),
                Err(e) => spec_parse_transform(tokens@) == Some(Err::<Seq<Transform<T>>, ParseError>(e)),
            },
    {
        if tokens.len() == 1 {
            if let Token::Ident(name) = &tokens[0] {
                if str_eq(name.as_str(), "none") {
                    let d = Transform::default();
                    let a = [d, d, d, d, d, d, d, d];
                    assert(a@ =~= default_transforms::<T>());
                    return Ok(a);
                }
            }
        }
        let mut builder = TransformBuilder::new();
        assert(builder.spec_transforms()@ =~= default_transforms::<T>());
        let mut i: usize = 0;
        while i < tokens.len()
            invariant
                i <= tokens@.len(),
                spec_transforms_from(tokens@, i as int, builder.spec_transforms()@, builder.spec_len())
                    == spec_parse_transform(tokens@),
                spec_parse_transform(tokens@) is Some,
            decreases tokens@.len() - i,
        {
            let t = match transform_at(tokens, i) {
                Ok(t) => t,
                Err(e) => return Err(e),
            };
            builder = match builder.push(t) {
                Ok(b) => b,
                Err(_) => {
                    assert(false);
                    return Err(ParseError::UnexpectedToken(i));
                },
            };
            i = i + 2;
        }
        let a = builder.into_transforms();
        Ok(a)
    }

    /// Parses a dimension for each edge of a rectangle (as in `margin` and
    /// `padding`). Returns an error if the input slice could not be parsed.
    pub fn parse_by_edge(tokens: &[Token<T>]) -> (r: Result<ByEdge<Dimension<T>>, ParseError>)
        ensures
            r == spec_parse_by_edge(tokens@),
    {
        let mut parts: Vec<Dimension<T>> = Vec::new();
        let mut i: usize = 0;
        while i < tokens.len()
            invariant
                i <= tokens@.len(),
                parts@.len() == i,
                forall|j: int| 0 <= j < i ==> #[trigger] spec_dimension(tokens@[j]) == Some(parts@[j]),
            decreases tokens@.len() - i,
        {
            match dimension_of(&tokens[i]) {
                Some(d) => {
                    parts.push(d);
                },
                None => {
                    proof {
                        let c = choose|c: int| 0 <= c < tokens@.len() && spec_dimension(tokens@[c]) is None
                            && forall|j: int| 0 <= j < c ==> spec_dimension(tokens@[j]) is Some;
                        assert(0 <= i < tokens@.len() && spec_dimension(tokens@[i as int]) is None
                            && forall|j: int| 0 <= j < i ==> spec_dimension(tokens@[j]) is Some);
                        if c < i {
                            assert(spec_dimension(tokens@[c]) is Some);
                        }
                        if c > i {
                            assert(spec_dimension(tokens@[i as int]) is Some);
                        }
                    }
                    return Err(ParseError::UnexpectedToken(i));
                },
            }
            i = i + 1;
        }
        proof {
            assert(parts@ =~= Seq::new(tokens@.len(), |k: int| spec_dimension(tokens@[k])->0));
            assert(!(exists|k: int| 0 <= k < tokens@.len() && spec_dimension(tokens@[k]) is None));
        }
        let n = parts.len();
        if n == 4 {
            Ok(ByEdge {
                horizontal: LayoutAxisX::independent(parts[3], parts[1]),
                vertical: LayoutAxisY { top: parts[0], bottom: parts[2] },
            })
        } else if n == 3 {
            Err(ParseError::TooFewArguments(0, tokens.len()))
        } else if n == 2 {
            Ok(ByEdge {
                horizontal: LayoutAxisX::independent(parts[1], parts[1]),
                vertical: LayoutAxisY { top: parts[0], bottom: parts[0] },
            })
        } else if n == 1 {
            Ok(ByEdge {
                horizontal: LayoutAxisX::independent(parts[0], parts[0]),
                vertical: LayoutAxisY { top: parts[0], bottom: parts[0] },
            })
        } else {
            Err(ParseError::TooManyArguments(0, tokens.len()))
        }
    }

    /// Parses a dimension for each corner of a rectangle. Returns an error if
    /// the input slice could not be parsed.
    pub fn parse_by_corner(tokens: &[Token<T>]) -> (r: Result<ByCorner<Dimension<T>>, ParseError>)
        ensures
            match spec_parse_by_edge(tokens@) {
                Ok(edges) => r == Ok::<ByCorner<Dimension<T>>, ParseError>(spec_by_corner(edges)),
                Err(e) => r == Err::<ByCorner<Dimension<T>>, ParseError>(e),
            },
    {
        let edges = match Self::parse_by_edge(tokens) {
            Ok(edges) => edges,
            Err(e) => return Err(e),
        };
        Ok(ByCorner {
            all: match edges.horizontal {
                LayoutAxisX::DirectionIndependent { left, right } => LayoutAxisY {
                    top: LayoutAxisX::DirectionIndependent { left: edges.vertical.top, right },
                    bottom: LayoutAxisX::DirectionIndependent { left, right: edges.vertical.bottom },
                },
                LayoutAxisX::DirectionDependent { leading, trailing } => LayoutAxisY {
                    top: LayoutAxisX::DirectionDependent { leading: edges.vertical.top, trailing },
                    bottom: LayoutAxisX::DirectionDependent { leading, trailing: edges.vertical.bottom },
                },
            },
        })
    }
}

} // verus!
