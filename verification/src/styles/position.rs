//! Positioning of views.

use vstd::prelude::*;
use crate::text::str_eq;
use crate::scalar::Scalar;
use crate::geometry::Dimension;
use crate::layout::ByEdge;
use super::ParseValue;

verus! {

/// Determines whether this view should be included in calculating the layout of
/// descendant views of the ancestor of this view.
#[derive(Copy, Clone, Debug, Eq, PartialEq, Structural)]
pub enum PositionType {
    /// If layed out absolutely, this view does not affect the layout of its
    /// ancestor or siblings.
    Absolute,
    /// If layed out relatively, this view is included in calculating the layout
    /// of its ancestor and siblings.
    Relative,
}

impl ParseValue for PositionType {
    /// The variant named by its CSS keyword.
    open spec fn spec_parse(s: Seq<char>) -> Option<Self> {
        if s == "absolute"@ {
            Some(PositionType::Absolute)
        } else if s == "relative"@ {
            Some(PositionType::Relative)
        } else {
            None
        }
    }

    fn parse(s: &str) -> (r: Option<Self>) {
        if str_eq(s, "absolute") {
            Some(PositionType::Absolute)
        } else if str_eq(s, "relative") {
            Some(PositionType::Relative)
        } else {
            None
        }
    }
}

/// Properties of views that are positioned absolutely.
#[derive(Copy, Clone, Debug, PartialEq)]
pub struct Absolute<T> {
    /// The distances between each edge of the view and the corresponding edge
    /// of its container.
    pub distances: ByEdge<Dimension<T>>,
}

/// Properties of views that are positioned relatively.
#[derive(Copy, Clone, Debug, PartialEq)]
pub struct Relative<T> {
    /// The size of the view along the main axis before flexing.
    pub flex_basis: Dimension<T>,
    /// The share of the remaining space along the main axis that the view
    /// grows into.
    pub flex_grow: T,
    /// The share of the overflow along the main axis by which the view
    /// shrinks.
    pub flex_shrink: T,
}

impl<T: Scalar> Relative<T> {
    /// An undefined basis, no growth and a unit shrink.
    pub open spec fn spec_default() -> Relative<T> {
        Relative { flex_basis: Dimension::Undefined, flex_grow: T::spec_zero(), flex_shrink: T::spec_one() }
    }
}

impl<T: Scalar> Default for Relative<T> {
    fn default() -> (r: Self)
        ensures
            r == Self::spec_default(),
    {
        Relative { flex_basis: Dimension::Undefined, flex_grow: T::zero(), flex_shrink: T::one() }
    }
}

/// The position of a view and the properties that come with it.
#[derive(Copy, Clone, Debug, PartialEq)]
pub enum Position<T> {
    /// The view is positioned absolutely.
    Absolute(Absolute<T>),
    /// The view is positioned relatively.
    Relative(Relative<T>),
}

} // verus!
