//! Dimensions and sizes of layout boxes.

use vstd::prelude::*;
use crate::styles::ParseValue;
use crate::text::str_eq;

verus! {

/// A length along one axis of a layout box.
#[derive(Copy, Clone, Debug, PartialEq)]
pub enum Dimension<T> {
    /// No length was given.
    Undefined,
    /// The length is decided by the layout algorithm.
    Auto,
    /// An absolute length in points.
    Points(T),
    /// A length relative to the size of the container.
    Percentage(T),
}

impl<T> ParseValue for Dimension<T> {
    /// The keyword variants: `undefined` and `auto`.
    open spec fn spec_parse(s: Seq<char>) -> Option<Self> {
        if s == "undefined"@ {
            Some(Dimension::Undefined)
        } else if s == "auto"@ {
            Some(Dimension::Auto)
        } else {
            None
        }
    }

    fn parse(s: &str) -> (r: Option<Self>) {
        if str_eq(s, "undefined") {
            Some(Dimension::Undefined)
        } else if str_eq(s, "auto") {
            Some(Dimension::Auto)
        } else {
            None
        }
    }
}

/// The width and height of a layout box.
#[derive(Copy, Clone, Debug, Default, PartialEq)]
pub struct Size<T> {
    /// The horizontal extent.
    pub width: T,
    /// The vertical extent.
    pub height: T,
}

impl<T> Size<T> {
    /// Returns a new size with the given width and height.
    pub fn new(width: T, height: T) -> (r: Size<T>)
        ensures
            r == (Size { width, height }),
    {
        Size { width, height }
    }
}

/// A value for each of the two directions of a corner radius.
#[derive(Copy, Clone, Debug, PartialEq)]
pub struct ByDirection<T> {
    /// The value along the horizontal axis.
    pub horizontal: T,
    /// The value along the vertical axis.
    pub vertical: T,
}

impl<T: Copy> ByDirection<T> {
    /// Returns the same value for both directions.
    pub fn with_both(value: T) -> (r: ByDirection<T>)
        ensures
            r == (ByDirection { horizontal: value, vertical: value }),
    {
        ByDirection { horizontal: value, vertical: value }
    }
}

} // verus!
