//! Typed property values of `style! { ... }` and the parsers of the values
//! that are made of colors, fonts and borders.

use vstd::prelude::*;
use crate::scalar::Scalar;
use crate::text::str_eq;
use crate::geometry::{ByDirection, Dimension};
use crate::layout::{ByCorner, ByEdge, LayoutAxisX, LayoutAxisY, LayoutDirection};
use crate::styles::{
    Align, Border, BorderStyle, Color, FlexDirection, FontFamily, FontSize, FontStyle, FontWeight,
    Inherited, Justify, ObjectFit, Overflow, ParseValue, PositionType, TextAlign, Visibility,
};
use crate::styles::transform::Transform;
use super::parser::{
    ParseError, Parser, Token, spec_by_corner, spec_dimension, spec_parse_by_edge,
    spec_parse_dimension, spec_parse_enum, spec_parse_number, dimension_of,
};

verus! {

/// Represents a typed property value.
#[derive(Clone, Debug, PartialEq)]
pub enum PropertyValue<T: Scalar> {
    /// The alignment of items along the cross axis of the flexbox.
    AlignItems(Align),
    /// The background color of a view.
    BackgroundColor(Color),
    /// The distance of a view to the bottom edge of its ancestor.
    Bottom(Dimension<T>),
    /// The color that fills the text outlines.
    Color(Inherited<Color>),
    /// The direction in which descendant views are layed out.
    Direction(Inherited<LayoutDirection>),
    /// The size of a view along the main axis before flexing.
    FlexBasis(Dimension<T>),
    /// The main axis along which the flexbox algorithm operates.
    FlexDirection(FlexDirection),
    /// The priority of a view when the flexbox can grow.
    FlexGrow(T),
    /// The priority of a view when the flexbox is shrunk.
    FlexShrink(T),
    /// The font family of a text.
    FontFamily(Inherited<FontFamily<String>>),
    /// The font style of a text.
    FontStyle(Inherited<FontStyle>),
    /// The font weight of a text.
    FontWeight(Inherited<FontWeight<T>>),
    /// The font size of a text.
    FontSize(Inherited<FontSize<T>>),
    /// The height of a view.
    Height(Dimension<T>),
    /// How the flexbox justifies content along its main axis.
    JustifyContent(Justify),
    /// The distance of a view to the left edge of its ancestor.
    Left(Dimension<T>),
    /// The maximum height of a view.
    MaxHeight(Dimension<T>),
    /// The maximum width of a view.
    MaxWidth(Dimension<T>),
    /// The minimum height of a view.
    MinHeight(Dimension<T>),
    /// The minimum width of a view.
    MinWidth(Dimension<T>),
    /// How an image that does not match its container is fitted.
    ObjectFit(ObjectFit),
    /// The weight of a view during composition.
    Opacity(T),
    /// How a view is adjusted when its content overflows it.
    Overflow(Overflow),
    /// The margin outside a view.
    Margin(ByEdge<Dimension<T>>),
    /// The border around a view.
    Border(ByEdge<Border<T>>),
    /// The corner radius of a view.
    BorderRadius(ByCorner<ByDirection<Dimension<T>>>),
    /// The padding inside a view.
    Padding(ByEdge<Dimension<T>>),
    /// Whether a view takes part in the layout of its siblings.
    Position(PositionType),
    /// The distance of a view to the right edge of its ancestor.
    Right(Dimension<T>),
    /// The alignment of a text in a larger container.
    TextAlign(Inherited<TextAlign>),
    /// The color that an image is rendered in.
    TintColor(Color),
    /// The distance of a view to the top edge of its ancestor.
    Top(Dimension<T>),
    /// The series of 3D affine transformations of a view.
    Transform([Transform<T>; 8]),
    /// Whether a view is rendered.
    Visibility(Visibility),
    /// The width of a view.
    Width(Dimension<T>),
}

/// An error at a position of a slice that starts `offset` tokens into the
/// slice that was given, moved to the position in the given slice.
pub open spec fn spec_offset(e: ParseError, offset: usize) -> ParseError {
    match e {
        ParseError::Deprecated(a, b) => ParseError::Deprecated(
            (a + offset) as usize,
            (b + offset) as usize,
        ),
        ParseError::UnexpectedToken(a) => ParseError::UnexpectedToken((a + offset) as usize),
        ParseError::UnknownVariant(a, b) => ParseError::UnknownVariant(
            (a + offset) as usize,
            (b + offset) as usize,
        ),
        ParseError::UnrecognizedUnit(a) => ParseError::UnrecognizedUnit((a + offset) as usize),
        ParseError::TooFewArguments(a, b) => ParseError::TooFewArguments(
            (a + offset) as usize,
            (b + offset) as usize,
        ),
        ParseError::TooManyArguments(a, b) => ParseError::TooManyArguments(
            (a + offset) as usize,
            (b + offset) as usize,
        ),
    }
}

/// The outcome of parsing the tokens as `inherit` or a color.
pub open spec fn spec_parse_inherited_color<T>(tokens: Seq<Token<T>>) -> Result<Inherited<Color>, ParseError> {
    if tokens.len() == 1 && (tokens[0] matches Token::Ident(n) && n@ == "inherit"@) {
        Ok(Inherited::Inherited)
    } else {
        match spec_parse_enum::<T, Color>(tokens) {
            Ok(c) => Ok(Inherited::Specified(c)),
            Err(e) => Err(e),
        }
    }
}

/// The outcome of parsing the tokens as a font family: a keyword, or a
/// single string that names the family.
pub open spec fn spec_parse_font_family<T>(tokens: Seq<Token<T>>) -> Result<Inherited<FontFamily<String>>, ParseError> {
    match spec_parse_enum::<T, Inherited<FontFamily<String>>>(tokens) {
        Ok(f) => Ok(f),
        Err(_) => match tokens[0] {
            Token::Literal(name) => if tokens.len() > 1 {
                Err(ParseError::UnexpectedToken(1))
            } else {
                Ok(Inherited::Specified(FontFamily::Named(name)))
            },
            _ => Err(ParseError::UnexpectedToken(0)),
        },
    }
}

/// The outcome of parsing the tokens as a font weight: a keyword or a number.
pub open spec fn spec_parse_font_weight<T>(tokens: Seq<Token<T>>) -> Result<Inherited<FontWeight<T>>, ParseError> {
    match spec_parse_enum::<T, Inherited<FontWeight<T>>>(tokens) {
        Ok(w) => Ok(w),
        Err(_) => match spec_parse_number(tokens) {
            Ok(n) => Ok(Inherited::Specified(FontWeight::Number(n))),
            Err(e) => Err(e),
        },
    }
}

/// The outcome of parsing the tokens as a font size: a keyword or a
/// dimension.
pub open spec fn spec_parse_font_size<T: Scalar>(tokens: Seq<Token<T>>) -> Result<Inherited<FontSize<T>>, ParseError> {
    match spec_parse_enum::<T, Inherited<FontSize<T>>>(tokens) {
        Ok(s) => Ok(s),
        Err(_) => match spec_parse_dimension(tokens) {
            Ok(d) => Ok(Inherited::Specified(FontSize::Dimension(d))),
            Err(e) => Err(e),
        },
    }
}

/// The outcome of parsing the tokens as a border: a width, a style and a
/// color, the same at every edge. `None` where the tokens end before the
/// style or before the color.
pub open spec fn spec_parse_border<T: Scalar>(tokens: Seq<Token<T>>) -> Option<Result<ByEdge<Border<T>>, ParseError>> {
    if tokens.len() == 0 {
        None
    } else {
        match spec_dimension(tokens[0]) {
            None => Some(Err(ParseError::UnexpectedToken(0))),
            Some(width) => if tokens.len() < 2 {
                None
            } else {
                match tokens[1] {
                    Token::Ident(s) => match BorderStyle::spec_parse(s@) {
                        Some(style) => if tokens.len() < 3 {
                            None
                        } else {
                            Some(
                                match spec_parse_enum::<T, Color>(tokens.subrange(2, tokens.len() as int)) {
                                    Ok(color) => Ok(ByEdge::spec_uniform(Border { width, style, color })),
                                    Err(e) => Err(spec_offset(e, 2)),
                                },
                            )
                        },
                        None => Some(Err(ParseError::UnexpectedToken(1))),
                    },
                    _ => Some(Err(ParseError::UnexpectedToken(1))),
                }
            },
        }
    }
}

/// The radius of each corner, the same in both directions.
pub open spec fn spec_radii<T>(corners: ByCorner<Dimension<T>>) -> ByCorner<ByDirection<Dimension<T>>> {
    ByCorner {
        all: LayoutAxisY {
            top: spec_both_x(corners.all.top),
            bottom: spec_both_x(corners.all.bottom),
        },
    }
}

/// The pair of values, each the same in both directions.
pub open spec fn spec_both_x<T>(x: LayoutAxisX<Dimension<T>>) -> LayoutAxisX<ByDirection<Dimension<T>>> {
    match x {
        LayoutAxisX::DirectionDependent { leading, trailing } => LayoutAxisX::DirectionDependent {
            leading: ByDirection { horizontal: leading, vertical: leading },
            trailing: ByDirection { horizontal: trailing, vertical: trailing },
        },
        LayoutAxisX::DirectionIndependent { left, right } => LayoutAxisX::DirectionIndependent {
            left: ByDirection { horizontal: left, vertical: left },
            right: ByDirection { horizontal: right, vertical: right },
        },
    }
}

/// The outcome of parsing the tokens as a radius for each corner.
pub open spec fn spec_parse_border_radius<T: Scalar>(tokens: Seq<Token<T>>) -> Result<ByCorner<ByDirection<Dimension<T>>>, ParseError> {
    match spec_parse_by_edge(tokens) {
        Ok(edges) => Ok(spec_radii(spec_by_corner(edges))),
        Err(e) => Err(e),
    }
}

fn both_x<T: Scalar>(x: LayoutAxisX<Dimension<T>>) -> (r: LayoutAxisX<ByDirection<Dimension<T>>>)
    ensures
        r == spec_both_x(x),
{
    match x {
        LayoutAxisX::DirectionDependent { leading, trailing } => LayoutAxisX::DirectionDependent {
            leading: ByDirection::with_both(leading),
            trailing: ByDirection::with_both(trailing),
        },
        LayoutAxisX::DirectionIndependent { left, right } => LayoutAxisX::DirectionIndependent {
            left: ByDirection::with_both(left),
            right: ByDirection::with_both(right),
        },
    }
}

impl<T: Scalar> Parser<T> {
    /// Parses a color from the given slice of tokens. Returns an error if the
    /// given slice is malformed or if tokens remain in the slice even after
    /// successfully parsing a color.
    pub fn parse_color(tokens: &[Token<T>]) -> (r: Result<Color, ParseError>)
        requires
            tokens@.len() > 0,
        ensures
            r == spec_parse_enum::<T, Color>(tokens@),
    {
        Self::parse_enum::<Color>(tokens)
    }

    /// Parses an inheritable color from the given slice of tokens. Returns an
    /// error if the given slice is malformed or if tokens remain in the slice
    /// even after successfully parsing a color or the `inherit` word.
    pub fn parse_inherited_color(tokens: &[Token<T>]) -> (r: Result<Inherited<Color>, ParseError>)
        requires
            tokens@.len() > 0,
        ensures
            r == spec_parse_inherited_color(tokens@),
    {
        if tokens.len() == 1 {
            if let Token::Ident(n) = &tokens[0] {
                if str_eq(n.as_str(), "inherit") {
                    return Ok(Inherited::Inherited);
                }
            }
        }
        match Self::parse_color(tokens) {
            Ok(c) => Ok(Inherited::Specified(c)),
            Err(e) => Err(e),
        }
    }

    /// Parses a font family from the given slice of tokens. Returns an error
    /// if the given slice is malformed or if tokens remain in the slice even
    /// after successfully parsing a font family.
    pub fn parse_font_family(tokens: &[Token<T>]) -> (r: Result<Inherited<FontFamily<String>>, ParseError>)
        requires
            tokens@.len() > 0,
        ensures
            r == spec_parse_font_family(tokens@),
    {
        if let Ok(f) = Self::parse_enum::<Inherited<FontFamily<String>>>(tokens) {
            return Ok(f);
        }
        match &tokens[0] {
            Token::Literal(name) => {
                if tokens.len() > 1 {
                    Err(ParseError::UnexpectedToken(1))
                } else {
                    Ok(Inherited::Specified(FontFamily::Named(name.clone())))
                }
            },
            _ => Err(ParseError::UnexpectedToken(0)),
        }
    }

    /// Parses a font weight from the given slice of tokens. Returns an error
    /// if the given slice is malformed or if tokens remain in the slice even
    /// after successfully parsing a font weight.
    pub fn parse_font_weight(tokens: &[Token<T>]) -> (r: Result<Inherited<FontWeight<T>>, ParseError>)
        requires
            tokens@.len() > 0,
        ensures
            r == spec_parse_font_weight(tokens@),
    {
        if let Ok(w) = Self::parse_enum::<Inherited<FontWeight<T>>>(tokens) {
            return Ok(w);
        }
        match Self::parse_number(tokens) {
            Ok(n) => Ok(Inherited::Specified(FontWeight::Number(n))),
            Err(e) => Err(e),
        }
    }

    /// Parses a font size from the given slice of tokens. Returns an error if
    /// the given slice is malformed or if tokens remain in the slice even after
    /// successfully parsing a font size.
    pub fn parse_font_size(tokens: &[Token<T>]) -> (r: Result<Inherited<FontSize<T>>, ParseError>)
        requires
            tokens@.len() > 0,
        ensures
            r == spec_parse_font_size(tokens@),
    {
        if let Ok(s) = Self::parse_enum::<Inherited<FontSize<T>>>(tokens) {
            return Ok(s);
        }
        match Self::parse_dimension(tokens) {
            Ok(d) => Ok(Inherited::Specified(FontSize::Dimension(d))),
            Err(e) => Err(e),
        }
    }

    /// Parses a border from the given slice of tokens: a width, a style and
    /// a color, which apply to every edge. Returns an error if the given
    /// slice is malformed or if tokens remain in the slice even after
    /// successfully parsing a border.
    pub fn parse_border(tokens: &[Token<T>]) -> (r: Result<ByEdge<Border<T>>, ParseError>)
        requires
            spec_parse_border(tokens@) is Some,
        ensures
            spec_parse_border(tokens@) == Some(r),
    {
        let width = match dimension_of(&tokens[0]) {
            Some(w) => w,
            None => return Err(ParseError::UnexpectedToken(0)),
        };
        let style = match &tokens[1] {
            Token::Ident(s) => match BorderStyle::parse(s.as_str()) {
                Some(style) => style,
                None => return Err(ParseError::UnexpectedToken(1)),
            },
            _ => return Err(ParseError::UnexpectedToken(1)),
        };
        let ghost rest = tokens@.subrange(2, tokens@.len() as int);
        let n = tokens.len();
        let color = match &tokens[2] {
            Token::Ident(name) => {
                if n > 3 {
                    return Err(ParseError::UnexpectedToken(3));
                }
                match Color::parse(name.as_str()) {
                    Some(c) => c,
                    None => {
                        assert(rest[0] == tokens@[2]);
                        return Err(ParseError::UnknownVariant(2, n));
                    },
                }
            },
            _ => {
                assert(rest[0] == tokens@[2]);
                return Err(ParseError::UnexpectedToken(2));
            },
        };
        assert(rest[0] == tokens@[2]);
        Ok(ByEdge::uniform(Border { width, style, color }))
    }

    /// Parses a border radius from the given slice of tokens: a radius for
    /// each corner, the same in both directions.
    pub fn parse_border_radius(tokens: &[Token<T>]) -> (r: Result<ByCorner<ByDirection<Dimension<T>>>, ParseError>)
        ensures
            r == spec_parse_border_radius(tokens@),
    {
        match Self::parse_by_corner(tokens) {
            Ok(c) => Ok(ByCorner { all: LayoutAxisY { top: both_x(c.all.top), bottom: both_x(c.all.bottom) } }),
            Err(e) => Err(e),
        }
    }
}

} // verus!
