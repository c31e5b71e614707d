//! Reading the properties of `style! { ... }` from their name and value
//! tokens.

use std::marker::PhantomData;
use vstd::prelude::*;
use crate::scalar::Scalar;
use crate::layout::LayoutDirection;
use crate::styles::{
    Align, Color, FlexDirection, FontStyle, Inherited, Justify, ObjectFit, Overflow, PositionType,
    TextAlign, Visibility,
};
use crate::yoyo::driver::transform_array;
use super::infer::PropertyKind;
use super::parser::{
    ParseError, Parser, Token, spec_parse_by_edge, spec_parse_dimension, spec_parse_enum,
    spec_parse_number, spec_parse_transform,
};
use super::value::{
    PropertyValue, spec_parse_border, spec_parse_border_radius, spec_parse_font_family,
    spec_parse_font_size, spec_parse_font_weight, spec_parse_inherited_color,
};

verus! {

/// This represents a single CSS-like property and contains the spans of the
/// name and value in case we need to emit diagnostics later on.
#[derive(Clone, Debug, PartialEq)]
pub struct Property<Sp, T: Scalar> {
    /// This is the span of the name tokens.
    pub name_span: Sp,
    /// This is the span of the value tokens.
    pub value_span: Sp,
    /// This is the interpreted value of this property.
    pub value: PropertyValue<T>,
}

/// This is an error that is emitted while parsing the domain-specific
/// property value types.
#[derive(Copy, Clone, Debug, PartialEq)]
pub enum Error<Sp> {
    /// This error is emitted when the parser encounters an unexpected token;
    /// it holds the token's position among the name tokens followed by the
    /// value tokens.
    UnexpectedToken(usize),
    /// This error is emitted when the parser encounters a property with a name
    /// that it does not recognize; it holds the span of the name.
    UnrecognizedProperty(Sp),
    /// This error is emitted when the parser encounters a rule, which this
    /// macro does not accept; it holds the spans of the preamble and the body.
    UnexpectedRule(Sp, Sp),
    /// Wraps an error that occurred while parsing a property value.
    Parse(ParseError),
}

/// The outcome of parsing the value tokens of a property of the given kind:
/// `None` where the parse reads a token that is not there.
pub open spec fn spec_parse_value<T: Scalar>(kind: PropertyKind, value: Seq<Token<T>>) -> Option<Result<PropertyValue<T>, ParseError>> {
    match kind {
        PropertyKind::AlignItems => if value.len() == 0 {
            None
        } else {
            Some(
                match spec_parse_enum::<T, Align>(value) {
                    Ok(v) => Ok(PropertyValue::AlignItems(v)),
                    Err(e) => Err(e),
                },
            )
        },
        PropertyKind::BackgroundColor => if value.len() == 0 {
            None
        } else {
            Some(
                match spec_parse_enum::<T, Color>(value) {
                    Ok(v) => Ok(PropertyValue::BackgroundColor(v)),
                    Err(e) => Err(e),
                },
            )
        },
        PropertyKind::Border => match spec_parse_border(value) {
            Some(Ok(v)) => Some(Ok(PropertyValue::Border(v))),
            Some(Err(e)) => Some(Err(e)),
            None => None,
        },
        PropertyKind::BorderRadius => Some(
            match spec_parse_border_radius(value) {
                Ok(v) => Ok(PropertyValue::BorderRadius(v)),
                Err(e) => Err(e),
            },
        ),
        PropertyKind::Bottom => if value.len() == 0 {
            None
        } else {
            Some(
                match spec_parse_dimension(value) {
                    Ok(v) => Ok(PropertyValue::Bottom(v)),
                    Err(e) => Err(e),
                },
            )
        },
        PropertyKind::Color => if value.len() == 0 {
            None
        } else {
            Some(
                match spec_parse_inherited_color(value) {
                    Ok(v) => Ok(PropertyValue::Color(v)),
                    Err(e) => Err(e),
                },
            )
        },
        PropertyKind::Direction => if value.len() == 0 {
            None
        } else {
            Some(
                match spec_parse_enum::<T, Inherited<LayoutDirection>>(value) {
                    Ok(v) => Ok(PropertyValue::Direction(v)),
                    Err(e) => Err(e),
                },
            )
        },
        PropertyKind::FlexBasis => if value.len() == 0 {
            None
        } else {
            Some(
                match spec_parse_dimension(value) {
                    Ok(v) => Ok(PropertyValue::FlexBasis(v)),
                    Err(e) => Err(e),
                },
            )
        },
        PropertyKind::FlexDirection => if value.len() == 0 {
            None
        } else {
            Some(
                match spec_parse_enum::<T, FlexDirection>(value) {
                    Ok(v) => Ok(PropertyValue::FlexDirection(v)),
                    Err(e) => Err(e),
                },
            )
        },
        PropertyKind::FlexGrow => if value.len() == 0 {
            None
        } else {
            Some(
                match spec_parse_number(value) {
                    Ok(v) => Ok(PropertyValue::FlexGrow(v)),
                    Err(e) => Err(e),
                },
            )
        },
        PropertyKind::FlexShrink => if value.len() == 0 {
            None
        } else {
            Some(
                match spec_parse_number(value) {
                    Ok(v) => Ok(PropertyValue::FlexShrink(v)),
                    Err(e) => Err(e),
                },
            )
        },
        PropertyKind::FontFamily => if value.len() == 0 {
            None
        } else {
            Some(
                match spec_parse_font_family(value) {
                    Ok(v) => Ok(PropertyValue::FontFamily(v)),
                    Err(e) => Err(e),
                },
            )
        },
        PropertyKind::FontSize => if value.len() == 0 {
            None
        } else {
            Some(
                match spec_parse_font_size(value) {
                    Ok(v) => Ok(PropertyValue::FontSize(v)),
                    Err(e) => Err(e),
                },
            )
        },
        PropertyKind::FontStyle => if value.len() == 0 {
            None
        } else {
            Some(
                match spec_parse_enum::<T, Inherited<FontStyle>>(value) {
                    Ok(v) => Ok(PropertyValue::FontStyle(v)),
                    Err(e) => Err(e),
                },
            )
        },
        PropertyKind::FontWeight => if value.len() == 0 {
            None
        } else {
            Some(
                match spec_parse_font_weight(value) {
                    Ok(v) => Ok(PropertyValue::FontWeight(v)),
                    Err(e) => Err(e),
                },
            )
        },
        PropertyKind::Height => if value.len() == 0 {
            None
        } else {
            Some(
                match spec_parse_dimension(value) {
                    Ok(v) => Ok(PropertyValue::Height(v)),
                    Err(e) => Err(e),
                },
            )
        },
        PropertyKind::JustifyContent => if value.len() == 0 {
            None
        } else {
            Some(
                match spec_parse_enum::<T, Justify>(value) {
                    Ok(v) => Ok(PropertyValue::JustifyContent(v)),
                    Err(e) => Err(e),
                },
            )
        },
        PropertyKind::Left => if value.len() == 0 {
            None
        } else {
            Some(
                match spec_parse_dimension(value) {
                    Ok(v) => Ok(PropertyValue::Left(v)),
                    Err(e) => Err(e),
                },
            )
        },
        PropertyKind::Margin => Some(
            match spec_parse_by_edge(value) {
                Ok(v) => Ok(PropertyValue::Margin(v)),
                Err(e) => Err(e),
            },
        ),
        PropertyKind::MaxHeight => if value.len() == 0 {
            None
        } else {
            Some(
                match spec_parse_dimension(value) {
                    Ok(v) => Ok(PropertyValue::MaxHeight(v)),
                    Err(e) => Err(e),
                },
            )
        },
        PropertyKind::MaxWidth => if value.len() == 0 {
            None
        } else {
            Some(
                match spec_parse_dimension(value) {
                    Ok(v) => Ok(PropertyValue::MaxWidth(v)),
                    Err(e) => Err(e),
                },
            )
        },
        PropertyKind::MinHeight => if value.len() == 0 {
            None
        } else {
            Some(
                match spec_parse_dimension(value) {
                    Ok(v) => Ok(PropertyValue::MinHeight(v)),
                    Err(e) => Err(e),
                },
            )
        },
        PropertyKind::MinWidth => if value.len() == 0 {
            None
        } else {
            Some(
                match spec_parse_dimension(value) {
                    Ok(v) => Ok(PropertyValue::MinWidth(v)),
                    Err(e) => Err(e),
                },
            )
        },
        PropertyKind::ObjectFit => if value.len() == 0 {
            None
        } else {
            Some(
                match spec_parse_enum::<T, ObjectFit>(value) {
                    Ok(v) => Ok(PropertyValue::ObjectFit(v)),
                    Err(e) => Err(e),
                },
            )
        },
        PropertyKind::Opacity => if value.len() == 0 {
            None
        } else {
            Some(
                match spec_parse_number(value) {
                    Ok(v) => Ok(PropertyValue::Opacity(v)),
                    Err(e) => Err(e),
                },
            )
        },
        PropertyKind::Overflow => if value.len() == 0 {
            None
        } else {
            Some(
                match spec_parse_enum::<T, Overflow>(value) {
                    Ok(v) => Ok(PropertyValue::Overflow(v)),
                    Err(e) => Err(e),
                },
            )
        },
        PropertyKind::Padding => Some(
            match spec_parse_by_edge(value) {
                Ok(v) => Ok(PropertyValue::Padding(v)),
                Err(e) => Err(e),
            },
        ),
        PropertyKind::Position => if value.len() == 0 {
            None
        } else {
            Some(
                match spec_parse_enum::<T, PositionType>(value) {
                    Ok(v) => Ok(PropertyValue::Position(v)),
                    Err(e) => Err(e),
                },
            )
        },
        PropertyKind::Right => if value.len() == 0 {
            None
        } else {
            Some(
                match spec_parse_dimension(value) {
                    Ok(v) => Ok(PropertyValue::Right(v)),
                    Err(e) => Err(e),
                },
            )
        },
        PropertyKind::TextAlign => if value.len() == 0 {
            None
        } else {
            Some(
                match spec_parse_enum::<T, Inherited<TextAlign>>(value) {
                    Ok(v) => Ok(PropertyValue::TextAlign(v)),
                    Err(e) => Err(e),
                },
            )
        },
        PropertyKind::TintColor => if value.len() == 0 {
            None
        } else {
            Some(
                match spec_parse_enum::<T, Color>(value) {
                    Ok(v) => Ok(PropertyValue::TintColor(v)),
                    Err(e) => Err(e),
                },
            )
        },
        PropertyKind::Top => if value.len() == 0 {
            None
        } else {
            Some(
                match spec_parse_dimension(value) {
                    Ok(v) => Ok(PropertyValue::Top(v)),
                    Err(e) => Err(e),
                },
            )
        },
        PropertyKind::Transform => match spec_parse_transform(value) {
            Some(Ok(a)) => Some(Ok(PropertyValue::Transform(transform_array(a)))),
            Some(Err(e)) => Some(Err(e)),
            None => None,
        },
        PropertyKind::Visibility => if value.len() == 0 {
            None
        } else {
            Some(
                match spec_parse_enum::<T, Visibility>(value) {
                    Ok(v) => Ok(PropertyValue::Visibility(v)),
                    Err(e) => Err(e),
                },
            )
        },
        PropertyKind::Width => if value.len() == 0 {
            None
        } else {
            Some(
                match spec_parse_dimension(value) {
                    Ok(v) => Ok(PropertyValue::Width(v)),
                    Err(e) => Err(e),
                },
            )
        },
    }
}

/// The outcome of reading a property from its name and value tokens: `None`
/// where reading fails on a missing token (see `spec_parse_value`). Where
/// the name tokens do not start with a name, the first value token is
/// reported.
pub open spec fn spec_parse_property<T: Scalar, Sp>(
    name: Seq<Token<T>>,
    value: Seq<Token<T>>,
    name_span: Sp,
    value_span: Sp,
) -> Option<Result<Property<Sp, T>, Error<Sp>>> {
    if name.len() == 0 || !(name[0] is Ident) {
        if value.len() == 0 {
            None
        } else {
            Some(Err(Error::UnexpectedToken(name.len() as usize)))
        }
    } else if name.len() > 1 {
        Some(Err(Error::UnexpectedToken(1)))
    } else {
        match PropertyKind::spec_from_name(name[0]->Ident_0@) {
            None => Some(Err(Error::UnrecognizedProperty(name_span))),
            Some(kind) => match spec_parse_value(kind, value) {
                Some(Ok(v)) => Some(Ok(Property { name_span, value_span, value: v })),
                Some(Err(e)) => Some(Err(Error::Parse(e))),
                None => None,
            },
        }
    }
}

/// Returns the value of a property of the given kind from its value tokens.
pub fn parse_value<T: Scalar>(kind: PropertyKind, value: &[Token<T>]) -> (r: Result<PropertyValue<T>, ParseError>)
    requires
        spec_parse_value(kind, value@) is Some,
    ensures
        spec_parse_value(kind, value@) == Some(r),
{
    match kind {
            PropertyKind::AlignItems => match Parser::<T>::parse_enum::<Align>(value) {
                Ok(v) => Ok(PropertyValue::AlignItems(v)),
                Err(e) => Err(e),
            },
            PropertyKind::BackgroundColor => match Parser::<T>::parse_color(value) {
                Ok(v) => Ok(PropertyValue::BackgroundColor(v)),
                Err(e) => Err(e),
            },
            PropertyKind::Border => match Parser::<T>::parse_border(value) {
                Ok(v) => Ok(PropertyValue::Border(v)),
                Err(e) => Err(e),
            },
            PropertyKind::BorderRadius => match Parser::<T>::parse_border_radius(value) {
                Ok(v) => Ok(PropertyValue::BorderRadius(v)),
                Err(e) => Err(e),
            },
            PropertyKind::Bottom => match Parser::<T>::parse_dimension(value) {
                Ok(v) => Ok(PropertyValue::Bottom(v)),
                Err(e) => Err(e),
            },
            PropertyKind::Color => match Parser::<T>::parse_inherited_color(value) {
                Ok(v) => Ok(PropertyValue::Color(v)),
                Err(e) => Err(e),
            },
            PropertyKind::Direction => match Parser::<T>::parse_enum::<Inherited<LayoutDirection>>(value) {
                Ok(v) => Ok(PropertyValue::Direction(v)),
                Err(e) => Err(e),
            },
            PropertyKind::FlexBasis => match Parser::<T>::parse_dimension(value) {
                Ok(v) => Ok(PropertyValue::FlexBasis(v)),
                Err(e) => Err(e),
            },
            PropertyKind::FlexDirection => match Parser::<T>::parse_enum::<FlexDirection>(value) {
                Ok(v) => Ok(PropertyValue::FlexDirection(v)),
                Err(e) => Err(e),
            },
            PropertyKind::FlexGrow => match Parser::<T>::parse_number(value) {
                Ok(v) => Ok(PropertyValue::FlexGrow(v)),
                Err(e) => Err(e),
            },
            PropertyKind::FlexShrink => match Parser::<T>::parse_number(value) {
                Ok(v) => Ok(PropertyValue::FlexShrink(v)),
                Err(e) => Err(e),
            },
            PropertyKind::FontFamily => match Parser::<T>::parse_font_family(value) {
                Ok(v) => Ok(PropertyValue::FontFamily(v)),
                Err(e) => Err(e),
            },
            PropertyKind::FontSize => match Parser::<T>::parse_font_size(value) {
                Ok(v) => Ok(PropertyValue::FontSize(v)),
                Err(e) => Err(e),
            },
            PropertyKind::FontStyle => match Parser::<T>::parse_enum::<Inherited<FontStyle>>(value) {
                Ok(v) => Ok(PropertyValue::FontStyle(v)),
                Err(e) => Err(e),
            },
            PropertyKind::FontWeight => match Parser::<T>::parse_font_weight(value) {
                Ok(v) => Ok(PropertyValue::FontWeight(v)),
                Err(e) => Err(e),
            },
            PropertyKind::Height => match Parser::<T>::parse_dimension(value) {
                Ok(v) => Ok(PropertyValue::Height(v)),
                Err(e) => Err(e),
            },
            PropertyKind::JustifyContent => match Parser::<T>::parse_enum::<Justify>(value) {
                Ok(v) => Ok(PropertyValue::JustifyContent(v)),
                Err(e) => Err(e),
            },
            PropertyKind::Left => match Parser::<T>::parse_dimension(value) {
                Ok(v) => Ok(PropertyValue::Left(v)),
                Err(e) => Err(e),
            },
            PropertyKind::Margin => match Parser::<T>::parse_by_edge(value) {
                Ok(v) => Ok(PropertyValue::Margin(v)),
                Err(e) => Err(e),
            },
            PropertyKind::MaxHeight => match Parser::<T>::parse_dimension(value) {
                Ok(v) => Ok(PropertyValue::MaxHeight(v)),
                Err(e) => Err(e),
            },
            PropertyKind::MaxWidth => match Parser::<T>::parse_dimension(value) {
                Ok(v) => Ok(PropertyValue::MaxWidth(v)),
                Err(e) => Err(e),
            },
            PropertyKind::MinHeight => match Parser::<T>::parse_dimension(value) {
                Ok(v) => Ok(PropertyValue::MinHeight(v)),
                Err(e) => Err(e),
            },
            PropertyKind::MinWidth => match Parser::<T>::parse_dimension(value) {
                Ok(v) => Ok(PropertyValue::MinWidth(v)),
                Err(e) => Err(e),
            },
            PropertyKind::ObjectFit => match Parser::<T>::parse_enum::<ObjectFit>(value) {
                Ok(v) => Ok(PropertyValue::ObjectFit(v)),
                Err(e) => Err(e),
            },
            PropertyKind::Opacity => match Parser::<T>::parse_number(value) {
                Ok(v) => Ok(PropertyValue::Opacity(v)),
                Err(e) => Err(e),
            },
            PropertyKind::Overflow => match Parser::<T>::parse_enum::<Overflow>(value) {
                Ok(v) => Ok(PropertyValue::Overflow(v)),
                Err(e) => Err(e),
            },
            PropertyKind::Padding => match Parser::<T>::parse_by_edge(value) {
                Ok(v) => Ok(PropertyValue::Padding(v)),
                Err(e) => Err(e),
            },
            PropertyKind::Position => match Parser::<T>::parse_enum::<PositionType>(value) {
                Ok(v) => Ok(PropertyValue::Position(v)),
                Err(e) => Err(e),
            },
            PropertyKind::Right => match Parser::<T>::parse_dimension(value) {
                Ok(v) => Ok(PropertyValue::Right(v)),
                Err(e) => Err(e),
            },
            PropertyKind::TextAlign => match Parser::<T>::parse_enum::<Inherited<TextAlign>>(value) {
                Ok(v) => Ok(PropertyValue::TextAlign(v)),
                Err(e) => Err(e),
            },
            PropertyKind::TintColor => match Parser::<T>::parse_color(value) {
                Ok(v) => Ok(PropertyValue::TintColor(v)),
                Err(e) => Err(e),
            },
            PropertyKind::Top => match Parser::<T>::parse_dimension(value) {
                Ok(v) => Ok(PropertyValue::Top(v)),
                Err(e) => Err(e),
            },
            PropertyKind::Transform => match Parser::<T>::parse_transform(value) {
                Ok(a) => {
                    assert(a == transform_array(a@));
                    Ok(PropertyValue::Transform(a))
                },
                Err(e) => Err(e),
            },
            PropertyKind::Visibility => match Parser::<T>::parse_enum::<Visibility>(value) {
                Ok(v) => Ok(PropertyValue::Visibility(v)),
                Err(e) => Err(e),
            },
            PropertyKind::Width => match Parser::<T>::parse_dimension(value) {
                Ok(v) => Ok(PropertyValue::Width(v)),
                Err(e) => Err(e),
            },
    }
}

/// This type drives the parsing of the domain-specific CSS properties of a
/// style sheet whose spans have type `Sp` and whose numbers have type `T`.
pub struct Driver<Sp, T>(PhantomData<(Sp, T)>);

impl<Sp, T: Scalar> Driver<Sp, T> {
    /// Returns a new driver.
    pub fn new() -> (r: Driver<Sp, T>) {
        Driver(PhantomData)
    }

    /// Reads a property from its name and value tokens and the spans of
    /// both.
    pub fn parse_property(&self, name: &[Token<T>], value: &[Token<T>], name_span: Sp, value_span: Sp) -> (r: Result<Property<Sp, T>, Error<Sp>>)
        requires
            spec_parse_property(name@, value@, name_span, value_span) is Some,
        ensures
            spec_parse_property(name@, value@, name_span, value_span) == Some(r),
    {
        if name.len() == 0 {
            return Err(Error::UnexpectedToken(0));
        }
        let n = match &name[0] {
            Token::Ident(n) => n,
            _ => return Err(Error::UnexpectedToken(name.len())),
        };
        if name.len() > 1 {
            return Err(Error::UnexpectedToken(1));
        }
        let kind = match PropertyKind::from_name(n.as_str()) {
            Some(kind) => kind,
            None => return Err(Error::UnrecognizedProperty(name_span)),
        };
        match parse_value(kind, value) {
            Ok(v) => Ok(Property { name_span, value_span, value: v }),
            Err(e) => Err(Error::Parse(e)),
        }
    }

    /// Rules are not accepted in this style sheet: returns the error for a
    /// rule with the given spans of its preamble and body.
    pub fn parse_rule(&self, preamble_span: Sp, body_span: Sp) -> (r: Error<Sp>)
        ensures
            r == Error::UnexpectedRule(preamble_span, body_span),
    {
        Error::UnexpectedRule(preamble_span, body_span)
    }
}

} // verus!
