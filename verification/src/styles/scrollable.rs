//! Scrollable styles.

use vstd::prelude::*;
use crate::scalar::Scalar;
use crate::geometry::Dimension;
use crate::layout::ByEdge;
use super::view::ViewStyle;

verus! {

/// Color of the scroll bars of a Scrollable.
#[derive(Copy, Clone, Debug, Eq, PartialEq, Structural)]
pub enum ScrollbarColor {
    /// This variant lets the OS decide which color to use.
    Auto,
    /// This is a dark scroll bar. Use this only if the underlying content is
    /// light.
    Dark,
    /// This is a light scroll bar. Use this only if the underlying content is
    /// dark.
    Light,
}

impl Default for ScrollbarColor {
    fn default() -> (r: Self)
        ensures
            r == ScrollbarColor::Auto,
    {
        ScrollbarColor::Auto
    }
}

/// Controls the appearance of a Scrollable.
#[derive(Copy, Clone, Debug, PartialEq)]
pub struct ScrollableStyle<T> {
    /// Controls the distance between the scrollable content and each edge of
    /// a rectangle.
    pub scroll_padding: ByEdge<Dimension<T>>,
    /// This field controls the appearance of scroll bars used in this
    /// Scrollable.
    pub scrollbar_color: ScrollbarColor,
    /// Controls the distance between the scrollbars and each edge of a
    /// rectangle.
    pub scrollbar_padding: ByEdge<Dimension<T>>,
}

/// This is a union style of the Scrollable and View styles.
#[derive(Copy, Clone, Debug, PartialEq)]
pub struct ScrollableViewStyle<T: Scalar> {
    /// This style contains the properties that are only applicable to
    /// Scrollables.
    pub scrollable: ScrollableStyle<T>,
    /// This style contains the properties that are only applicable to Views.
    pub view: ViewStyle<T>,
}

} // verus!
