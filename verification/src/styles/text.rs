//! Keyword-valued style properties.

use vstd::prelude::*;
use crate::text::str_eq;
use super::ParseValue;
use super::Inherited;
use super::color::Color;
use super::font::{FontFamily, FontSize, FontStyle, FontWeight};

verus! {

/// Controls the alignment of text in a container that is larger than the text
/// itself.
#[derive(Copy, Clone, Debug, Eq, PartialEq, Structural)]
pub enum TextAlign {
    /// Text is aligned to the left edge of the container.
    Left,
    /// Text is aligned in the center of the container.
    Center,
    /// Text is aligned to the right edge of the container.
    Right,
}

impl ParseValue for TextAlign {
    /// The variant named by its CSS keyword.
    open spec fn spec_parse(s: Seq<char>) -> Option<Self> {
        if s == "left"@ {
            Some(TextAlign::Left)
        } else if s == "center"@ {
            Some(TextAlign::Center)
        } else if s == "right"@ {
            Some(TextAlign::Right)
        } else {
            None
        }
    }

    fn parse(s: &str) -> (r: Option<Self>) {
        if str_eq(s, "left") {
            Some(TextAlign::Left)
        } else if str_eq(s, "center") {
            Some(TextAlign::Center)
        } else if str_eq(s, "right") {
            Some(TextAlign::Right)
        } else {
            None
        }
    }
}

/// Controls the appearance of a Text.
#[derive(Clone, Debug, PartialEq)]
pub struct TextStyle<T> {
    /// This is the color that will be used to fill the text outlines. If not
    /// present, the Text component will inherit the text color of its parent.
    pub color: Inherited<Color>,
    /// This is the font family that will be used to render the text outlines.
    /// If not present, the Text component will inherit its font family from
    /// its parent.
    pub font_family: Inherited<FontFamily<String>>,
    /// This is the font weight that will be used to render the text outlines.
    /// If not present, the Text component will inherit its font weight from
    /// its parent.
    pub font_weight: Inherited<FontWeight<T>>,
    /// This is the font style that will be used to render the text outlines.
    /// If not present, the Text component will inherit its font style from
    /// its parent.
    pub font_style: Inherited<FontStyle>,
    /// This is the font size that will be used to render the text. If not
    /// present, the Text component will inherit its font size from its parent.
    pub font_size: Inherited<FontSize<T>>,
    /// Controls the alignment of text when it is rendered to a container that
    /// is larger than the rendered text.
    pub text_align: Inherited<TextAlign>,
}

impl<T> TextStyle<T> {
    /// Every property inherited.
    pub open spec fn spec_default() -> TextStyle<T> {
        TextStyle {
            color: Inherited::Inherited,
            font_family: Inherited::Inherited,
            font_weight: Inherited::Inherited,
            font_style: Inherited::Inherited,
            font_size: Inherited::Inherited,
            text_align: Inherited::Inherited,
        }
    }
}

impl<T> Default for TextStyle<T> {
    fn default() -> (r: Self)
        ensures
            r == Self::spec_default(),
    {
        TextStyle {
            color: Inherited::Inherited,
            font_family: Inherited::Inherited,
            font_weight: Inherited::Inherited,
            font_style: Inherited::Inherited,
            font_size: Inherited::Inherited,
            text_align: Inherited::Inherited,
        }
    }
}

} // verus!
