//! Fonts of text styles.

use vstd::prelude::*;
use crate::text::str_eq;
use crate::geometry::Dimension;
use super::ParseValue;

verus! {

/// A font family that the system chooses by its kind.
#[derive(Copy, Clone, Debug, PartialEq, Eq, Structural)]
pub enum GenericFontFamily {
    /// A font with serifs.
    Serif,
    /// A font without serifs.
    SansSerif,
    /// A font whose glyphs all have the same width.
    Monospace,
}

/// The font family that text is rendered in.
#[derive(Clone, Debug, PartialEq)]
pub enum FontFamily<S> {
    /// A family chosen by the system by its kind.
    Generic(GenericFontFamily),
    /// A family given by its name.
    Named(S),
}

/// The weight (thickness) of the glyphs of a font.
#[derive(Copy, Clone, Debug, PartialEq)]
pub enum FontWeight<T> {
    /// A weight given by its number (100 is thin, 400 normal, 700 bold).
    Number(T),
    /// Weight 100.
    Thin,
    /// Weight 200.
    ExtraLight,
    /// Weight 300.
    Light,
    /// Weight 400.
    Normal,
    /// Weight 500.
    Medium,
    /// Weight 600.
    SemiBold,
    /// Weight 700.
    Bold,
    /// Weight 800.
    ExtraBold,
    /// Weight 900.
    Black,
}

/// The slant of the glyphs of a font.
#[derive(Copy, Clone, Debug, PartialEq, Eq, Structural)]
pub enum FontStyle {
    /// Upright glyphs.
    Normal,
    /// Glyphs of the italic face of the family.
    Italic,
    /// Upright glyphs that are slanted artificially.
    Oblique,
}

/// The size of the glyphs of a font.
#[derive(Copy, Clone, Debug, PartialEq)]
pub enum FontSize<T> {
    /// A size given as a dimension.
    Dimension(Dimension<T>),
    /// The smallest of the sizes that the system chooses.
    ExtraExtraSmall,
    /// A size smaller than small.
    ExtraSmall,
    /// A small size.
    Small,
    /// The size of body text.
    Medium,
    /// A large size.
    Large,
    /// A size larger than large.
    ExtraLarge,
    /// A size larger than extra large.
    ExtraExtraLarge,
    /// The largest of the sizes that the system chooses.
    ExtraExtraExtraLarge,
}

impl<S> ParseValue for FontFamily<S> {
    /// The generic families, by their CSS keywords.
    open spec fn spec_parse(s: Seq<char>) -> Option<Self> {
        if s == "serif"@ {
            Some(FontFamily::Generic(GenericFontFamily::Serif))
        } else if s == "sans-serif"@ {
            Some(FontFamily::Generic(GenericFontFamily::SansSerif))
        } else if s == "monospace"@ {
            Some(FontFamily::Generic(GenericFontFamily::Monospace))
        } else {
            None
        }
    }

    fn parse(s: &str) -> (r: Option<Self>) {
        if str_eq(s, "serif") {
            Some(FontFamily::Generic(GenericFontFamily::Serif))
        } else if str_eq(s, "sans-serif") {
            Some(FontFamily::Generic(GenericFontFamily::SansSerif))
        } else if str_eq(s, "monospace") {
            Some(FontFamily::Generic(GenericFontFamily::Monospace))
        } else {
            None
        }
    }
}

impl<T> ParseValue for FontWeight<T> {
    /// The named weights.
    open spec fn spec_parse(s: Seq<char>) -> Option<Self> {
        if s == "thin"@ {
            Some(FontWeight::Thin)
        } else if s == "extra-light"@ {
            Some(FontWeight::ExtraLight)
        } else if s == "light"@ {
            Some(FontWeight::Light)
        } else if s == "normal"@ {
            Some(FontWeight::Normal)
        } else if s == "medium"@ {
            Some(FontWeight::Medium)
        } else if s == "semi-bold"@ {
            Some(FontWeight::SemiBold)
        } else if s == "bold"@ {
            Some(FontWeight::Bold)
        } else if s == "extra-bold"@ {
            Some(FontWeight::ExtraBold)
        } else if s == "black"@ {
            Some(FontWeight::Black)
        } else {
            None
        }
    }

    fn parse(s: &str) -> (r: Option<Self>) {
        if str_eq(s, "thin") {
            Some(FontWeight::Thin)
        } else if str_eq(s, "extra-light") {
            Some(FontWeight::ExtraLight)
        } else if str_eq(s, "light") {
            Some(FontWeight::Light)
        } else if str_eq(s, "normal") {
            Some(FontWeight::Normal)
        } else if str_eq(s, "medium") {
            Some(FontWeight::Medium)
        } else if str_eq(s, "semi-bold") {
            Some(FontWeight::SemiBold)
        } else if str_eq(s, "bold") {
            Some(FontWeight::Bold)
        } else if str_eq(s, "extra-bold") {
            Some(FontWeight::ExtraBold)
        } else if str_eq(s, "black") {
            Some(FontWeight::Black)
        } else {
            None
        }
    }
}

impl ParseValue for FontStyle {
    /// The styles by their CSS keywords.
    open spec fn spec_parse(s: Seq<char>) -> Option<Self> {
        if s == "normal"@ {
            Some(FontStyle::Normal)
        } else if s == "italic"@ {
            Some(FontStyle::Italic)
        } else if s == "oblique"@ {
            Some(FontStyle::Oblique)
        } else {
            None
        }
    }

    fn parse(s: &str) -> (r: Option<Self>) {
        if str_eq(s, "normal") {
            Some(FontStyle::Normal)
        } else if str_eq(s, "italic") {
            Some(FontStyle::Italic)
        } else if str_eq(s, "oblique") {
            Some(FontStyle::Oblique)
        } else {
            None
        }
    }
}

impl<T> ParseValue for FontSize<T> {
    /// The named sizes.
    open spec fn spec_parse(s: Seq<char>) -> Option<Self> {
        if s == "extra-extra-small"@ {
            Some(FontSize::ExtraExtraSmall)
        } else if s == "extra-small"@ {
            Some(FontSize::ExtraSmall)
        } else if s == "small"@ {
            Some(FontSize::Small)
        } else if s == "medium"@ {
            Some(FontSize::Medium)
        } else if s == "large"@ {
            Some(FontSize::Large)
        } else if s == "extra-large"@ {
            Some(FontSize::ExtraLarge)
        } else if s == "extra-extra-large"@ {
            Some(FontSize::ExtraExtraLarge)
        } else if s == "extra-extra-extra-large"@ {
            Some(FontSize::ExtraExtraExtraLarge)
        } else {
            None
        }
    }

    fn parse(s: &str) -> (r: Option<Self>) {
        if str_eq(s, "extra-extra-small") {
            Some(FontSize::ExtraExtraSmall)
        } else if str_eq(s, "extra-small") {
            Some(FontSize::ExtraSmall)
        } else if str_eq(s, "small") {
            Some(FontSize::Small)
        } else if str_eq(s, "medium") {
            Some(FontSize::Medium)
        } else if str_eq(s, "large") {
            Some(FontSize::Large)
        } else if str_eq(s, "extra-large") {
            Some(FontSize::ExtraLarge)
        } else if str_eq(s, "extra-extra-large") {
            Some(FontSize::ExtraExtraLarge)
        } else if str_eq(s, "extra-extra-extra-large") {
            Some(FontSize::ExtraExtraExtraLarge)
        } else {
            None
        }
    }
}

} // verus!
