//! Style values of the built-in components.

pub mod color;
pub mod flex;
pub mod font;
pub mod transform;
pub mod image;
pub mod position;
pub mod text;
pub mod view;
pub mod scrollable;

pub use color::Color;
pub use font::{FontFamily, FontSize, FontStyle, FontWeight, GenericFontFamily};
pub use flex::{Align, FlexDirection, Justify};
pub use image::{ImageStyle, ImageViewStyle, ObjectFit};
pub use position::PositionType;
pub use scrollable::{ScrollableStyle, ScrollableViewStyle, ScrollbarColor};
pub use text::{TextAlign, TextStyle};
pub use transform::Transform;
pub use view::{Border, BorderStyle, Overflow, ViewStyle, Visibility};

use vstd::prelude::*;
use crate::text::str_eq;

verus! {

/// Values that are written as a keyword in a style sheet.
pub trait ParseValue: Sized {
    /// The value that the keyword `s` denotes, if any.
    spec fn spec_parse(s: Seq<char>) -> Option<Self>;

    /// Returns the value that the given keyword denotes, or `None` if it
    /// denotes none.
    fn parse(s: &str) -> (r: Option<Self>)
        ensures
            r == Self::spec_parse(s@),
    ;
}

/// Represents a property that can optionally be inherited from a parent
/// element.
#[derive(Copy, Clone, Debug, Eq, PartialEq)]
pub enum Inherited<T> {
    /// If inherited, the value of this property is taken from the parent
    /// element (transitively). If none of the parent elements have specified
    /// a value for this property, the default value is used.
    Inherited,
    /// If specified, this overrides any value from a parent element
    /// (transitively) for the same property.
    Specified(T),
}

impl<T> Default for Inherited<T> {
    fn default() -> (r: Self)
        ensures
            r == Inherited::<T>::Inherited,
    {
        Inherited::Inherited
    }
}

impl<T: ParseValue> ParseValue for Inherited<T> {
    /// `inherit` denotes an inherited value; any other keyword the specified
    /// value that it denotes.
    open spec fn spec_parse(s: Seq<char>) -> Option<Self> {
        if s == "inherit"@ {
            Some(Inherited::Inherited)
        } else {
            match T::spec_parse(s) {
                Some(value) => Some(Inherited::Specified(value)),
                None => None,
            }
        }
    }

    fn parse(s: &str) -> (r: Option<Self>) {
        if str_eq(s, "inherit") {
            Some(Inherited::Inherited)
        } else {
            match T::parse(s) {
                Some(value) => Some(Inherited::Specified(value)),
                None => None,
            }
        }
    }
}

} // verus!
