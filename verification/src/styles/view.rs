//! Keyword-valued style properties.

use vstd::prelude::*;
use crate::text::str_eq;
use super::ParseValue;
use super::{Inherited, Align, FlexDirection, Justify};
use super::color::Color;
use super::position::{Position, Relative};
use super::transform::Transform;
use crate::scalar::Scalar;
use crate::geometry::{ByDirection, Dimension, Size};
use crate::layout::{ByCorner, ByEdge, LayoutDirection};

verus! {

/// Controls the style that is used to draw a border.
#[derive(Copy, Clone, Debug, Eq, PartialEq, Structural)]
pub enum BorderStyle {
    /// Draws a solid line.
    Solid,
    /// Draws a dashed line.
    Dashed,
    /// Draws a dotted line.
    Dotted,
}

impl ParseValue for BorderStyle {
    /// The variant named by its CSS keyword.
    open spec fn spec_parse(s: Seq<char>) -> Option<Self> {
        if s == "solid"@ {
            Some(BorderStyle::Solid)
        } else if s == "dashed"@ {
            Some(BorderStyle::Dashed)
        } else if s == "dotted"@ {
            Some(BorderStyle::Dotted)
        } else {
            None
        }
    }

    fn parse(s: &str) -> (r: Option<Self>) {
        if str_eq(s, "solid") {
            Some(BorderStyle::Solid)
        } else if str_eq(s, "dashed") {
            Some(BorderStyle::Dashed)
        } else if str_eq(s, "dotted") {
            Some(BorderStyle::Dotted)
        } else {
            None
        }
    }
}

/// Controls the way dimensions of views are adjusted when their content
/// overflows their original boundaries.
#[derive(Copy, Clone, Debug, Eq, PartialEq, Structural)]
pub enum Overflow {
    /// If overflow is visible, views are adjusted to accommodate the larger
    /// content size.
    Visible,
    /// If overflow is hidden, views are not adjusted.
    Hidden,
    /// If overflow is scroll, the view itself is not adjusted, but its
    /// dimensions are increased internally in the layout algorithm.
    Scroll,
}

impl ParseValue for Overflow {
    /// The variant named by its CSS keyword.
    open spec fn spec_parse(s: Seq<char>) -> Option<Self> {
        if s == "visible"@ {
            Some(Overflow::Visible)
        } else if s == "hidden"@ {
            Some(Overflow::Hidden)
        } else if s == "scroll"@ {
            Some(Overflow::Scroll)
        } else {
            None
        }
    }

    fn parse(s: &str) -> (r: Option<Self>) {
        if str_eq(s, "visible") {
            Some(Overflow::Visible)
        } else if str_eq(s, "hidden") {
            Some(Overflow::Hidden)
        } else if str_eq(s, "scroll") {
            Some(Overflow::Scroll)
        } else {
            None
        }
    }
}

impl Default for Overflow {
    fn default() -> (r: Self)
        ensures
            r == Overflow::Visible,
    {
        Overflow::Visible
    }
}

/// Controls the visibility of a view.
#[derive(Copy, Clone, Debug, Eq, PartialEq, Structural)]
pub enum Visibility {
    /// If visible, the view is both included in layout calculations and
    /// rendered to the screen, even if its opacity is zero.
    Visible,
    /// If hidden, the view is included in layout calculations, but is not
    /// rendered to the screen, regardless of its opacity.
    Hidden,
}

impl ParseValue for Visibility {
    /// The variant named by its CSS keyword.
    open spec fn spec_parse(s: Seq<char>) -> Option<Self> {
        if s == "visible"@ {
            Some(Visibility::Visible)
        } else if s == "hidden"@ {
            Some(Visibility::Hidden)
        } else {
            None
        }
    }

    fn parse(s: &str) -> (r: Option<Self>) {
        if str_eq(s, "visible") {
            Some(Visibility::Visible)
        } else if str_eq(s, "hidden") {
            Some(Visibility::Hidden)
        } else {
            None
        }
    }
}

impl Default for Visibility {
    fn default() -> (r: Self)
        ensures
            r == Visibility::Visible,
    {
        Visibility::Visible
    }
}

/// Controls the appearance of a border shown around the dimensions of a view.
#[derive(Copy, Clone, Debug, PartialEq)]
pub struct Border<T> {
    /// Controls the thickness of a border rendered around a view. If the
    /// dimension resolves to either undefined or auto, no border will be shown.
    /// If the dimension is a percentage, it will be resolved relative to the
    /// width of the view's bounding box.
    pub width: Dimension<T>,
    /// This is the style that is used to draw the border.
    pub style: BorderStyle,
    /// This is the color that is used to draw the border.
    pub color: Color,
}

impl<T> Border<T> {
    /// An undefined width, solid and transparent.
    pub open spec fn spec_default() -> Border<T> {
        Border { width: Dimension::Undefined, style: BorderStyle::Solid, color: Color::spec_transparent() }
    }
}

impl<T> Default for Border<T> {
    fn default() -> (r: Self)
        ensures
            r == Self::spec_default(),
    {
        Border { width: Dimension::Undefined, style: BorderStyle::Solid, color: Color::transparent() }
    }
}

/// Controls the appearance of a View.
#[derive(Copy, Clone, Debug, PartialEq)]
pub struct ViewStyle<T: Scalar> {
    /// This field determines whether this view should be included in
    /// calculating the layout of descendant views of the ancestor of this view.
    pub position: Position<T>,
    /// This field determines the direction in which descendant views are layed
    /// out.
    pub direction: Inherited<LayoutDirection>,
    /// This is the size of this view.
    pub size: Size<Dimension<T>>,
    /// This is the minimum size of this view.
    pub min_size: Size<Dimension<T>>,
    /// This is the maximum size of this view.
    pub max_size: Size<Dimension<T>>,
    /// This is the main axis along which the flexbox algorithm operates.
    pub flex_direction: FlexDirection,
    /// This is the alignment of items along the cross axis of the flexbox.
    pub align_items: Align,
    /// This property controls how the flexbox algorithm justifies content
    /// along the main axis of the flexbox.
    pub justify_content: Justify,
    /// This property controls the margin that is used outside this view.
    pub margin: ByEdge<Dimension<T>>,
    /// This property controls the border that is rendered around this view.
    pub border: ByEdge<Border<T>>,
    /// This property controls the padding that is used inside this view.
    pub padding: ByEdge<Dimension<T>>,
    /// This is the background color of this view. The default color is
    /// transparent.
    pub background_color: Color,
    /// If not zero, this field controls the corner radius of this view.
    pub border_radius: ByCorner<ByDirection<Dimension<T>>>,
    /// The weight of this layer during composition: zero is not composited
    /// at all, one is composited over any underlying layers.
    pub opacity: T,
    /// Applies a transformation to the view during compositing.
    pub transform: [Transform<T>; 8],
    /// Controls the way dimensions of views are adjusted when their content
    /// overflows their original boundaries.
    pub overflow: Overflow,
    /// Controls the visibility of this view.
    pub visibility: Visibility,
}

impl<T: Scalar> ViewStyle<T> {
    /// A relative position with the default flex properties, an inherited
    /// direction, automatic sizes, a column flexbox that stretches its items
    /// and starts its content, undefined margins and paddings, no border, a
    /// transparent background, no corner radius, full opacity, identity
    /// transforms, visible overflow and visible.
    pub open spec fn spec_default() -> ViewStyle<T> {
        ViewStyle {
            position: Position::Relative(Relative::spec_default()),
            direction: Inherited::Inherited,
            size: Size { width: Dimension::Auto, height: Dimension::Auto },
            min_size: Size { width: Dimension::Auto, height: Dimension::Auto },
            max_size: Size { width: Dimension::Auto, height: Dimension::Auto },
            flex_direction: FlexDirection::Column,
            align_items: Align::Stretch,
            justify_content: Justify::FlexStart,
            margin: ByEdge::spec_uniform(Dimension::Undefined),
            border: ByEdge::spec_uniform(Border::spec_default()),
            padding: ByEdge::spec_uniform(Dimension::Undefined),
            background_color: Color::spec_transparent(),
            border_radius: ByCorner::spec_uniform(
                ByDirection { horizontal: Dimension::Undefined, vertical: Dimension::Undefined },
            ),
            opacity: T::spec_one(),
            transform: {
                let t = Transform::spec_default();
                [t, t, t, t, t, t, t, t]
            },
            overflow: Overflow::Visible,
            visibility: Visibility::Visible,
        }
    }
}

impl<T: Scalar> Default for ViewStyle<T> {
    fn default() -> (r: Self)
        ensures
            r == Self::spec_default(),
    {
        let t = Transform::default();
        let r = ViewStyle {
            position: Position::Relative(Relative::default()),
            direction: Inherited::Inherited,
            size: Size::new(Dimension::Auto, Dimension::Auto),
            min_size: Size::new(Dimension::Auto, Dimension::Auto),
            max_size: Size::new(Dimension::Auto, Dimension::Auto),
            flex_direction: FlexDirection::Column,
            align_items: Align::Stretch,
            justify_content: Justify::FlexStart,
            margin: ByEdge::uniform(Dimension::Undefined),
            border: ByEdge::uniform(Border::default()),
            padding: ByEdge::uniform(Dimension::Undefined),
            background_color: Color::transparent(),
            border_radius: ByCorner::uniform(ByDirection::with_both(Dimension::Undefined)),
            opacity: T::one(),
            transform: [t, t, t, t, t, t, t, t],
            overflow: Overflow::Visible,
            visibility: Visibility::Visible,
        };
        r
    }
}

} // verus!
