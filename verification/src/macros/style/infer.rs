//! Inference of the type of style that a set of properties belongs to.

use vstd::prelude::*;
use crate::text::str_eq;

verus! {

/// Type of style that a property belongs to.
#[derive(Copy, Clone, Debug, Eq, PartialEq, Structural)]
pub enum StyleKind {
    /// Refers to properties that belong to `ImageStyle`.
    Image,
    /// Refers to properties that belong to `ScrollableStyle`.
    Scrollable,
    /// Refers to properties that belong to `TextStyle`.
    Text,
    /// Refers to properties that belong to `ViewStyle`.
    View,
}

/// The property that a property value sets (the variant of a property value,
/// without its payload).
#[derive(Copy, Clone, Debug, Eq, PartialEq, Structural)]
pub enum PropertyKind {
    AlignItems,
    BackgroundColor,
    Border,
    BorderRadius,
    Bottom,
    Color,
    Direction,
    FlexBasis,
    FlexDirection,
    FlexGrow,
    FlexShrink,
    FontFamily,
    FontSize,
    FontStyle,
    FontWeight,
    Height,
    JustifyContent,
    Left,
    Margin,
    MaxHeight,
    MaxWidth,
    MinHeight,
    MinWidth,
    ObjectFit,
    Opacity,
    Overflow,
    Padding,
    Position,
    Right,
    TextAlign,
    TintColor,
    Top,
    Transform,
    Visibility,
    Width,
}

impl PropertyKind {
    /// The style kind of each property: text properties belong to text
    /// styles, `object-fit` and `tint-color` to image styles, all others to
    /// view styles.
    pub open spec fn spec_style_kind(self) -> StyleKind {
        match self {
            PropertyKind::Color | PropertyKind::FontFamily | PropertyKind::FontSize
            | PropertyKind::FontStyle | PropertyKind::FontWeight
            | PropertyKind::TextAlign => StyleKind::Text,
            PropertyKind::ObjectFit | PropertyKind::TintColor => StyleKind::Image,
            _ => StyleKind::View,
        }
    }
}

impl StyleKind {
    /// Infers the type of style that a property belongs to based on its value.
    /// This will always succeed because within Polyhorn UI, every property
    /// corresponds to one type of style.
    pub fn infer(property: &PropertyKind) -> (r: StyleKind)
        ensures
            r == property.spec_style_kind(),
    {
        match property {
            PropertyKind::AlignItems => StyleKind::View,
            PropertyKind::BackgroundColor => StyleKind::View,
            PropertyKind::Border => StyleKind::View,
            PropertyKind::BorderRadius => StyleKind::View,
            PropertyKind::Bottom => StyleKind::View,
            PropertyKind::Color => StyleKind::Text,
            PropertyKind::Direction => StyleKind::View,
            PropertyKind::FlexBasis => StyleKind::View,
            PropertyKind::FlexDirection => StyleKind::View,
            PropertyKind::FlexGrow => StyleKind::View,
            PropertyKind::FlexShrink => StyleKind::View,
            PropertyKind::FontFamily => StyleKind::Text,
            PropertyKind::FontSize => StyleKind::Text,
            PropertyKind::FontStyle => StyleKind::Text,
            PropertyKind::FontWeight => StyleKind::Text,
            PropertyKind::Height => StyleKind::View,
            PropertyKind::JustifyContent => StyleKind::View,
            PropertyKind::Left => StyleKind::View,
            PropertyKind::Margin => StyleKind::View,
            PropertyKind::MaxHeight => StyleKind::View,
            PropertyKind::MaxWidth => StyleKind::View,
            PropertyKind::MinHeight => StyleKind::View,
            PropertyKind::MinWidth => StyleKind::View,
            PropertyKind::ObjectFit => StyleKind::Image,
            PropertyKind::Opacity => StyleKind::View,
            PropertyKind::Overflow => StyleKind::View,
            PropertyKind::Padding => StyleKind::View,
            PropertyKind::Position => StyleKind::View,
            PropertyKind::Right => StyleKind::View,
            PropertyKind::TextAlign => StyleKind::Text,
            PropertyKind::TintColor => StyleKind::Image,
            PropertyKind::Top => StyleKind::View,
            PropertyKind::Transform => StyleKind::View,
            PropertyKind::Visibility => StyleKind::View,
            PropertyKind::Width => StyleKind::View,
        }
    }
}

/// Type of compound style that is inferred based on the individual types of
/// styles that each property belongs to.
#[derive(Copy, Clone, Debug, Eq, PartialEq, Structural)]
pub enum StyleCompound {
    /// Refers to properties that belong to `ImageStyle`.
    Image,
    /// Refers to properties that belong to `ImageViewStyle`.
    ImageView,
    /// Refers to properties that belong to `ScrollableStyle`.
    Scrollable,
    /// Refers to properties that belong to `ScrollableViewStyle`.
    ScrollableView,
    /// Refers to properties that belong to `TextStyle`.
    Text,
    /// Refers to properties that belong to `TextViewStyle`.
    TextView,
    /// Refers to properties that belong to `ViewStyle`.
    View,
    /// Refers to properties that belong to no style (i.e. when the set of
    /// individual types of styles is empty).
    Unit,
}

/// All kinds other than `View` in `kinds` are the same.
pub open spec fn specializations_agree(kinds: Seq<StyleKind>) -> bool {
    forall|i: int, j: int|
        0 <= i < kinds.len() && 0 <= j < kinds.len() && kinds[i] != StyleKind::View
            && kinds[j] != StyleKind::View ==> kinds[i] == kinds[j]
}

/// `kinds` holds a kind other than `View`.
pub open spec fn has_specialization(kinds: Seq<StyleKind>) -> bool {
    exists|i: int| 0 <= i < kinds.len() && kinds[i] != StyleKind::View
}

/// The kind other than `View` in `kinds`, or `View` if there is none.
pub open spec fn specialization(kinds: Seq<StyleKind>) -> StyleKind {
    if has_specialization(kinds) {
        kinds[choose|i: int| 0 <= i < kinds.len() && kinds[i] != StyleKind::View]
    } else {
        StyleKind::View
    }
}

/// The compound of a specialization, with or without view properties.
pub open spec fn compound_of(specialization: StyleKind, view: bool) -> StyleCompound {
    match (specialization, view) {
        (StyleKind::Image, false) => StyleCompound::Image,
        (StyleKind::Image, true) => StyleCompound::ImageView,
        (StyleKind::Scrollable, false) => StyleCompound::Scrollable,
        (StyleKind::Scrollable, true) => StyleCompound::ScrollableView,
        (StyleKind::Text, false) => StyleCompound::Text,
        (StyleKind::Text, true) => StyleCompound::TextView,
        (StyleKind::View, false) => StyleCompound::Unit,
        (StyleKind::View, true) => StyleCompound::View,
    }
}

/// The compound style of a sequence of style kinds: `None` if two different
/// kinds other than `View` occur; otherwise the one such kind (or `Unit` /
/// `View` if there is none), combined with `View` when a `View` kind occurs.
pub open spec fn spec_infer(kinds: Seq<StyleKind>) -> Option<StyleCompound> {
    if specializations_agree(kinds) {
        Some(compound_of(specialization(kinds), kinds.contains(StyleKind::View)))
    } else {
        None
    }
}

impl StyleCompound {
    /// Infers the type of compound style that makes up a given set of
    /// individual style kinds. If the individual style kinds are incompatible,
    /// this function will return `None`.
    pub fn infer(kinds: Vec<StyleKind>) -> (r: Option<StyleCompound>)
        ensures
            r == spec_infer(kinds@),
    {
        let mut specialization = StyleKind::View;
        let mut view = false;
        let mut i: usize = 0;
        while i < kinds.len()
            invariant
                i <= kinds.len(),
                specializations_agree(kinds@.take(i as int)),
                specialization == self::specialization(kinds@.take(i as int)),
                view == kinds@.take(i as int).contains(StyleKind::View),
            decreases kinds.len() - i,
        {
            let kind = kinds[i];
            let ghost prefix = kinds@.take(i as int);
            let ghost next = kinds@.take(i + 1);
            assert(next == prefix.push(kind));
            if kind == StyleKind::View {
                view = true;
                assert(next[i as int] == kind);
            } else if specialization == kind {
                proof {
                    if has_specialization(prefix) {
                        let w = choose|j: int| 0 <= j < prefix.len() && prefix[j] != StyleKind::View;
                        assert(next[w] == prefix[w]);
                    }
                    assert(has_specialization(next));
                }
                assert(!next.contains(StyleKind::View) ==> !prefix.contains(StyleKind::View));
                assert(prefix.contains(StyleKind::View) ==> next.contains(StyleKind::View)) by {
                    if prefix.contains(StyleKind::View) {
                        let w = choose|j: int| 0 <= j < prefix.len() && prefix[j] == StyleKind::View;
                        assert(next[w] == StyleKind::View);
                    }
                }
            } else if specialization == StyleKind::View {
                specialization = kind;
                proof {
                    assert(next[i as int] == kind);
                    assert(has_specialization(next));
                }
                assert(prefix.contains(StyleKind::View) ==> next.contains(StyleKind::View)) by {
                    if prefix.contains(StyleKind::View) {
                        let w = choose|j: int| 0 <= j < prefix.len() && prefix[j] == StyleKind::View;
                        assert(next[w] == StyleKind::View);
                    }
                }
            } else {
                proof {
                    let w = choose|j: int| 0 <= j < prefix.len() && prefix[j] != StyleKind::View;
                    assert(kinds@[w] == prefix[w]);
                    assert(kinds@[i as int] == kind);
                    assert(!specializations_agree(kinds@));
                }
                return None;
            }
            i = i + 1;
        }
        assert(kinds@.take(kinds.len() as int) == kinds@);
        Some(
            match (specialization, view) {
                (StyleKind::Image, false) => StyleCompound::Image,
                (StyleKind::Image, true) => StyleCompound::ImageView,
                (StyleKind::Scrollable, false) => StyleCompound::Scrollable,
                (StyleKind::Scrollable, true) => StyleCompound::ScrollableView,
                (StyleKind::Text, false) => StyleCompound::Text,
                (StyleKind::Text, true) => StyleCompound::TextView,
                (StyleKind::View, false) => StyleCompound::Unit,
                (StyleKind::View, true) => StyleCompound::View,
            },
        )
    }
}

impl PropertyKind {
    /// The property that a property name in a style sheet sets.
    pub open spec fn spec_from_name(name: Seq<char>) -> Option<PropertyKind> {
        if name == "align-items"@ {
            Some(PropertyKind::AlignItems)
        } else if name == "background-color"@ {
            Some(PropertyKind::BackgroundColor)
        } else if name == "border"@ {
            Some(PropertyKind::Border)
        } else if name == "border-radius"@ {
            Some(PropertyKind::BorderRadius)
        } else if name == "bottom"@ {
            Some(PropertyKind::Bottom)
        } else if name == "color"@ {
            Some(PropertyKind::Color)
        } else if name == "direction"@ {
            Some(PropertyKind::Direction)
        } else if name == "flex-basis"@ {
            Some(PropertyKind::FlexBasis)
        } else if name == "flex-direction"@ {
            Some(PropertyKind::FlexDirection)
        } else if name == "flex-grow"@ {
            Some(PropertyKind::FlexGrow)
        } else if name == "flex-shrink"@ {
            Some(PropertyKind::FlexShrink)
        } else if name == "font-family"@ {
            Some(PropertyKind::FontFamily)
        } else if name == "font-size"@ {
            Some(PropertyKind::FontSize)
        } else if name == "font-style"@ {
            Some(PropertyKind::FontStyle)
        } else if name == "font-weight"@ {
            Some(PropertyKind::FontWeight)
        } else if name == "height"@ {
            Some(PropertyKind::Height)
        } else if name == "justify-content"@ {
            Some(PropertyKind::JustifyContent)
        } else if name == "left"@ {
            Some(PropertyKind::Left)
        } else if name == "margin"@ {
            Some(PropertyKind::Margin)
        } else if name == "max-height"@ {
            Some(PropertyKind::MaxHeight)
        } else if name == "max-width"@ {
            Some(PropertyKind::MaxWidth)
        } else if name == "min-height"@ {
            Some(PropertyKind::MinHeight)
        } else if name == "min-width"@ {
            Some(PropertyKind::MinWidth)
        } else if name == "object-fit"@ {
            Some(PropertyKind::ObjectFit)
        } else if name == "opacity"@ {
            Some(PropertyKind::Opacity)
        } else if name == "overflow"@ {
            Some(PropertyKind::Overflow)
        } else if name == "padding"@ {
            Some(PropertyKind::Padding)
        } else if name == "position"@ {
            Some(PropertyKind::Position)
        } else if name == "right"@ {
            Some(PropertyKind::Right)
        } else if name == "text-align"@ {
            Some(PropertyKind::TextAlign)
        } else if name == "tint-color"@ {
            Some(PropertyKind::TintColor)
        } else if name == "transform"@ {
            Some(PropertyKind::Transform)
        } else if name == "top"@ {
            Some(PropertyKind::Top)
        } else if name == "visibility"@ {
            Some(PropertyKind::Visibility)
        } else if name == "width"@ {
            Some(PropertyKind::Width)
        } else {
            None
        }
    }

    /// Returns the property that the given property name sets, or `None` if
    /// the name is not a recognized property.
    pub fn from_name(name: &str) -> (r: Option<PropertyKind>)
        ensures
            r == Self::spec_from_name(name@),
    {
        if str_eq(name, "align-items") {
            Some(PropertyKind::AlignItems)
        } else if str_eq(name, "background-color") {
            Some(PropertyKind::BackgroundColor)
        } else if str_eq(name, "border") {
            Some(PropertyKind::Border)
        } else if str_eq(name, "border-radius") {
            Some(PropertyKind::BorderRadius)
        } else if str_eq(name, "bottom") {
            Some(PropertyKind::Bottom)
        } else if str_eq(name, "color") {
            Some(PropertyKind::Color)
        } else if str_eq(name, "direction") {
            Some(PropertyKind::Direction)
        } else if str_eq(name, "flex-basis") {
            Some(PropertyKind::FlexBasis)
        } else if str_eq(name, "flex-direction") {
            Some(PropertyKind::FlexDirection)
        } else if str_eq(name, "flex-grow") {
            Some(PropertyKind::FlexGrow)
        } else if str_eq(name, "flex-shrink") {
            Some(PropertyKind::FlexShrink)
        } else if str_eq(name, "font-family") {
            Some(PropertyKind::FontFamily)
        } else if str_eq(name, "font-size") {
            Some(PropertyKind::FontSize)
        } else if str_eq(name, "font-style") {
            Some(PropertyKind::FontStyle)
        } else if str_eq(name, "font-weight") {
            Some(PropertyKind::FontWeight)
        } else if str_eq(name, "height") {
            Some(PropertyKind::Height)
        } else if str_eq(name, "justify-content") {
            Some(PropertyKind::JustifyContent)
        } else if str_eq(name, "left") {
            Some(PropertyKind::Left)
        } else if str_eq(name, "margin") {
            Some(PropertyKind::Margin)
        } else if str_eq(name, "max-height") {
            Some(PropertyKind::MaxHeight)
        } else if str_eq(name, "max-width") {
            Some(PropertyKind::MaxWidth)
        } else if str_eq(name, "min-height") {
            Some(PropertyKind::MinHeight)
        } else if str_eq(name, "min-width") {
            Some(PropertyKind::MinWidth)
        } else if str_eq(name, "object-fit") {
            Some(PropertyKind::ObjectFit)
        } else if str_eq(name, "opacity") {
            Some(PropertyKind::Opacity)
        } else if str_eq(name, "overflow") {
            Some(PropertyKind::Overflow)
        } else if str_eq(name, "padding") {
            Some(PropertyKind::Padding)
        } else if str_eq(name, "position") {
            Some(PropertyKind::Position)
        } else if str_eq(name, "right") {
            Some(PropertyKind::Right)
        } else if str_eq(name, "text-align") {
            Some(PropertyKind::TextAlign)
        } else if str_eq(name, "tint-color") {
            Some(PropertyKind::TintColor)
        } else if str_eq(name, "transform") {
            Some(PropertyKind::Transform)
        } else if str_eq(name, "top") {
            Some(PropertyKind::Top)
        } else if str_eq(name, "visibility") {
            Some(PropertyKind::Visibility)
        } else if str_eq(name, "width") {
            Some(PropertyKind::Width)
        } else {
            None
        }
    }
}

} // verus!
