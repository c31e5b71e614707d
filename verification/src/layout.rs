//! Values given per side of a layout box.

use vstd::prelude::*;
use crate::text::str_eq;
use crate::styles::ParseValue;

verus! {

/// The horizontal pair of values of a box, either by writing direction
/// (leading and trailing) or fixed (left and right).
#[derive(Copy, Clone, Debug, PartialEq)]
pub enum LayoutAxisX<T> {
    /// Values that follow the writing direction.
    DirectionDependent {
        /// The value at the side where lines start.
        leading: T,
        /// The value at the side where lines end.
        trailing: T,
    },
    /// Values that do not depend on the writing direction.
    DirectionIndependent {
        /// The value at the left side.
        left: T,
        /// The value at the right side.
        right: T,
    },
}

impl<T> LayoutAxisX<T> {
    /// Returns a pair of left and right values.
    pub fn independent(left: T, right: T) -> (r: LayoutAxisX<T>)
        ensures
            r == (LayoutAxisX::DirectionIndependent { left, right }),
    {
        LayoutAxisX::DirectionIndependent { left, right }
    }
}

/// The vertical pair of values of a box.
#[derive(Copy, Clone, Debug, PartialEq)]
pub struct LayoutAxisY<T> {
    /// The value at the top.
    pub top: T,
    /// The value at the bottom.
    pub bottom: T,
}

/// A value for each edge of a box.
#[derive(Copy, Clone, Debug, PartialEq)]
pub struct ByEdge<T> {
    /// The values of the left and right edges.
    pub horizontal: LayoutAxisX<T>,
    /// The values of the top and bottom edges.
    pub vertical: LayoutAxisY<T>,
}

/// A value for each corner of a box, by its row and then its column.
#[derive(Copy, Clone, Debug, PartialEq)]
pub struct ByCorner<T> {
    /// The values of the top and bottom rows of corners.
    pub all: LayoutAxisY<LayoutAxisX<T>>,
}

impl<T: Copy> ByEdge<T> {
    /// The same value at every edge, with left and right fixed.
    pub open spec fn spec_uniform(value: T) -> ByEdge<T> {
        ByEdge {
            horizontal: LayoutAxisX::DirectionIndependent { left: value, right: value },
            vertical: LayoutAxisY { top: value, bottom: value },
        }
    }

    /// Returns the same value at every edge, with left and right fixed.
    pub fn uniform(value: T) -> (r: ByEdge<T>)
        ensures
            r == Self::spec_uniform(value),
    {
        ByEdge {
            horizontal: LayoutAxisX::DirectionIndependent { left: value, right: value },
            vertical: LayoutAxisY { top: value, bottom: value },
        }
    }
}

impl<T: Copy> ByCorner<T> {
    /// The same value at every corner, with left and right fixed.
    pub open spec fn spec_uniform(value: T) -> ByCorner<T> {
        ByCorner {
            all: LayoutAxisY {
                top: LayoutAxisX::DirectionIndependent { left: value, right: value },
                bottom: LayoutAxisX::DirectionIndependent { left: value, right: value },
            },
        }
    }

    /// Returns the same value at every corner, with left and right fixed.
    pub fn uniform(value: T) -> (r: ByCorner<T>)
        ensures
            r == Self::spec_uniform(value),
    {
        ByCorner {
            all: LayoutAxisY {
                top: LayoutAxisX::DirectionIndependent { left: value, right: value },
                bottom: LayoutAxisX::DirectionIndependent { left: value, right: value },
            },
        }
    }
}

/// The direction in which lines of content are written.
#[derive(Copy, Clone, Debug, Eq, PartialEq, Structural)]
pub enum LayoutDirection {
    /// Left to right.
    LTR,
    /// Right to left.
    RTL,
}

impl ParseValue for LayoutDirection {
    /// `ltr` and `rtl`.
    open spec fn spec_parse(s: Seq<char>) -> Option<Self> {
        if s == "ltr"@ {
            Some(LayoutDirection::LTR)
        } else if s == "rtl"@ {
            Some(LayoutDirection::RTL)
        } else {
            None
        }
    }

    fn parse(s: &str) -> (r: Option<Self>) {
        if str_eq(s, "ltr") {
            Some(LayoutDirection::LTR)
        } else if str_eq(s, "rtl") {
            Some(LayoutDirection::RTL)
        } else {
            None
        }
    }
}

} // verus!
