//! Building a style from a series of properties, in which a later property
//! overrides an earlier one of the same kind.

use vstd::prelude::*;
use crate::scalar::Scalar;
use crate::geometry::{Dimension, Size};
use crate::layout::{ByEdge, LayoutAxisX, LayoutAxisY};
use crate::styles::{
    FontFamily, ImageStyle, ImageViewStyle, Inherited, PositionType, ScrollableStyle,
    ScrollableViewStyle, TextStyle, ViewStyle,
};
use crate::styles::position::{Absolute, Position, Relative};
use super::driver::Property;
use super::infer::{PropertyKind, StyleCompound, StyleKind, spec_infer};
use super::value::PropertyValue;

verus! {

/// Controls the appearance of a built-in component.
#[derive(Clone, Debug, PartialEq)]
pub enum Style<T: Scalar> {
    /// Controls the appearance of an Image.
    Image(ImageStyle),
    /// This is a union style of the Image and View styles.
    ImageView(ImageViewStyle<T>),
    /// Controls the appearance of a Scrollable.
    Scrollable(ScrollableStyle<T>),
    /// This is a union style of the Scrollable and View styles.
    ScrollableView(ScrollableViewStyle<T>),
    /// Controls the appearance of a Text.
    Text(TextStyle<T>),
    /// Controls the appearance of a View.
    View(ViewStyle<T>),
    /// Empty style.
    Unit,
}

/// This is a diagnostic that is emitted while building a style.
#[derive(Copy, Clone, Debug, PartialEq)]
pub enum Diagnostic<Sp> {
    /// This diagnostic is emitted when a property is overridden by another
    /// property; it holds the span of the value of the overridden property.
    UnusedProperty(Sp),
}

impl<T: Scalar> PropertyValue<T> {
    /// The property that this value sets.
    pub open spec fn spec_kind(self) -> PropertyKind {
        match self {
            PropertyValue::AlignItems(_) => PropertyKind::AlignItems,
            PropertyValue::BackgroundColor(_) => PropertyKind::BackgroundColor,
            PropertyValue::Border(_) => PropertyKind::Border,
            PropertyValue::BorderRadius(_) => PropertyKind::BorderRadius,
            PropertyValue::Bottom(_) => PropertyKind::Bottom,
            PropertyValue::Color(_) => PropertyKind::Color,
            PropertyValue::Direction(_) => PropertyKind::Direction,
            PropertyValue::FlexBasis(_) => PropertyKind::FlexBasis,
            PropertyValue::FlexDirection(_) => PropertyKind::FlexDirection,
            PropertyValue::FlexGrow(_) => PropertyKind::FlexGrow,
            PropertyValue::FlexShrink(_) => PropertyKind::FlexShrink,
            PropertyValue::FontFamily(_) => PropertyKind::FontFamily,
            PropertyValue::FontSize(_) => PropertyKind::FontSize,
            PropertyValue::FontStyle(_) => PropertyKind::FontStyle,
            PropertyValue::FontWeight(_) => PropertyKind::FontWeight,
            PropertyValue::Height(_) => PropertyKind::Height,
            PropertyValue::JustifyContent(_) => PropertyKind::JustifyContent,
            PropertyValue::Left(_) => PropertyKind::Left,
            PropertyValue::Margin(_) => PropertyKind::Margin,
            PropertyValue::MaxHeight(_) => PropertyKind::MaxHeight,
            PropertyValue::MaxWidth(_) => PropertyKind::MaxWidth,
            PropertyValue::MinHeight(_) => PropertyKind::MinHeight,
            PropertyValue::MinWidth(_) => PropertyKind::MinWidth,
            PropertyValue::ObjectFit(_) => PropertyKind::ObjectFit,
            PropertyValue::Opacity(_) => PropertyKind::Opacity,
            PropertyValue::Overflow(_) => PropertyKind::Overflow,
            PropertyValue::Padding(_) => PropertyKind::Padding,
            PropertyValue::Position(_) => PropertyKind::Position,
            PropertyValue::Right(_) => PropertyKind::Right,
            PropertyValue::TextAlign(_) => PropertyKind::TextAlign,
            PropertyValue::TintColor(_) => PropertyKind::TintColor,
            PropertyValue::Top(_) => PropertyKind::Top,
            PropertyValue::Transform(_) => PropertyKind::Transform,
            PropertyValue::Visibility(_) => PropertyKind::Visibility,
            PropertyValue::Width(_) => PropertyKind::Width,
        }
    }

    /// Returns the property that this value sets.
    pub fn kind(&self) -> (r: PropertyKind)
        ensures
            r == self.spec_kind(),
    {
        match self {
            PropertyValue::AlignItems(_) => PropertyKind::AlignItems,
            PropertyValue::BackgroundColor(_) => PropertyKind::BackgroundColor,
            PropertyValue::Border(_) => PropertyKind::Border,
            PropertyValue::BorderRadius(_) => PropertyKind::BorderRadius,
            PropertyValue::Bottom(_) => PropertyKind::Bottom,
            PropertyValue::Color(_) => PropertyKind::Color,
            PropertyValue::Direction(_) => PropertyKind::Direction,
            PropertyValue::FlexBasis(_) => PropertyKind::FlexBasis,
            PropertyValue::FlexDirection(_) => PropertyKind::FlexDirection,
            PropertyValue::FlexGrow(_) => PropertyKind::FlexGrow,
            PropertyValue::FlexShrink(_) => PropertyKind::FlexShrink,
            PropertyValue::FontFamily(_) => PropertyKind::FontFamily,
            PropertyValue::FontSize(_) => PropertyKind::FontSize,
            PropertyValue::FontStyle(_) => PropertyKind::FontStyle,
            PropertyValue::FontWeight(_) => PropertyKind::FontWeight,
            PropertyValue::Height(_) => PropertyKind::Height,
            PropertyValue::JustifyContent(_) => PropertyKind::JustifyContent,
            PropertyValue::Left(_) => PropertyKind::Left,
            PropertyValue::Margin(_) => PropertyKind::Margin,
            PropertyValue::MaxHeight(_) => PropertyKind::MaxHeight,
            PropertyValue::MaxWidth(_) => PropertyKind::MaxWidth,
            PropertyValue::MinHeight(_) => PropertyKind::MinHeight,
            PropertyValue::MinWidth(_) => PropertyKind::MinWidth,
            PropertyValue::ObjectFit(_) => PropertyKind::ObjectFit,
            PropertyValue::Opacity(_) => PropertyKind::Opacity,
            PropertyValue::Overflow(_) => PropertyKind::Overflow,
            PropertyValue::Padding(_) => PropertyKind::Padding,
            PropertyValue::Position(_) => PropertyKind::Position,
            PropertyValue::Right(_) => PropertyKind::Right,
            PropertyValue::TextAlign(_) => PropertyKind::TextAlign,
            PropertyValue::TintColor(_) => PropertyKind::TintColor,
            PropertyValue::Top(_) => PropertyKind::Top,
            PropertyValue::Transform(_) => PropertyKind::Transform,
            PropertyValue::Visibility(_) => PropertyKind::Visibility,
            PropertyValue::Width(_) => PropertyKind::Width,
        }
    }
}

/// The span of the value of the last of the first `n` properties that sets
/// a property of the given kind, if any does.
pub open spec fn spec_last_span<Sp, T: Scalar>(properties: Seq<Property<Sp, T>>, n: int, kind: PropertyKind) -> Option<Sp>
    decreases n,
{
    if n <= 0 {
        None
    } else if properties[n - 1].value.spec_kind() == kind {
        Some(properties[n - 1].value_span)
    } else {
        spec_last_span(properties, n - 1, kind)
    }
}

/// The diagnostics of a builder of styles of kind `style` over the first `n`
/// properties: each property of that style whose kind an earlier property
/// set already reports the span of the value of the latest such earlier
/// property as unused.
pub open spec fn spec_overridden<Sp, T: Scalar>(properties: Seq<Property<Sp, T>>, n: int, style: StyleKind) -> Seq<Diagnostic<Sp>>
    decreases n,
{
    if n <= 0 {
        Seq::empty()
    } else {
        let d = spec_overridden(properties, n - 1, style);
        let kind = properties[n - 1].value.spec_kind();
        if kind.spec_style_kind() == style {
            match spec_last_span(properties, n - 1, kind) {
                Some(s) => d.push(Diagnostic::UnusedProperty(s)),
                None => d,
            }
        } else {
            d
        }
    }
}

/// The values of a view style while its properties are read: the position
/// type, the distances and the flex properties make up the position once
/// all properties are read; the other fields are those of the style.
#[derive(Copy, Clone, Debug, PartialEq)]
pub struct ViewValues<T: Scalar> {
    /// Whether the view is positioned absolutely or relatively.
    pub position_type: PositionType,
    /// The distance to the top edge, for an absolute position.
    pub top: Dimension<T>,
    /// The distance to the right edge, for an absolute position.
    pub right: Dimension<T>,
    /// The distance to the bottom edge, for an absolute position.
    pub bottom: Dimension<T>,
    /// The distance to the left edge, for an absolute position.
    pub left: Dimension<T>,
    /// The flex basis, for a relative position.
    pub flex_basis: Dimension<T>,
    /// The flex growth, for a relative position.
    pub flex_grow: T,
    /// The flex shrink, for a relative position.
    pub flex_shrink: T,
    /// The other fields of the style.
    pub style: ViewStyle<T>,
}

/// The values before any property: a relative position with undefined
/// distances and the default flex properties, and the default style.
pub open spec fn spec_initial_view<T: Scalar>() -> ViewValues<T> {
    ViewValues {
        position_type: PositionType::Relative,
        top: Dimension::Undefined,
        right: Dimension::Undefined,
        bottom: Dimension::Undefined,
        left: Dimension::Undefined,
        flex_basis: Relative::<T>::spec_default().flex_basis,
        flex_grow: Relative::<T>::spec_default().flex_grow,
        flex_shrink: Relative::<T>::spec_default().flex_shrink,
        style: ViewStyle::spec_default(),
    }
}

/// The values after a property with the given value: a view property sets
/// its field, any other property changes nothing.
pub open spec fn spec_apply_view<T: Scalar>(values: ViewValues<T>, value: PropertyValue<T>) -> ViewValues<T> {
    match value {
        PropertyValue::AlignItems(v) => ViewValues { style: ViewStyle { align_items: v, ..values.style }, ..values },
        PropertyValue::BackgroundColor(v) => ViewValues { style: ViewStyle { background_color: v, ..values.style }, ..values },
        PropertyValue::Border(v) => ViewValues { style: ViewStyle { border: v, ..values.style }, ..values },
        PropertyValue::BorderRadius(v) => ViewValues { style: ViewStyle { border_radius: v, ..values.style }, ..values },
        PropertyValue::Bottom(v) => ViewValues { bottom: v, ..values },
        PropertyValue::Direction(v) => ViewValues { style: ViewStyle { direction: v, ..values.style }, ..values },
        PropertyValue::FlexBasis(v) => ViewValues { flex_basis: v, ..values },
        PropertyValue::FlexDirection(v) => ViewValues { style: ViewStyle { flex_direction: v, ..values.style }, ..values },
        PropertyValue::FlexGrow(v) => ViewValues { flex_grow: v, ..values },
        PropertyValue::FlexShrink(v) => ViewValues { flex_shrink: v, ..values },
        PropertyValue::Height(v) => ViewValues { style: ViewStyle { size: Size { height: v, ..values.style.size }, ..values.style }, ..values },
        PropertyValue::JustifyContent(v) => ViewValues { style: ViewStyle { justify_content: v, ..values.style }, ..values },
        PropertyValue::Left(v) => ViewValues { left: v, ..values },
        PropertyValue::Margin(v) => ViewValues { style: ViewStyle { margin: v, ..values.style }, ..values },
        PropertyValue::MaxHeight(v) => ViewValues { style: ViewStyle { max_size: Size { height: v, ..values.style.max_size }, ..values.style }, ..values },
        PropertyValue::MaxWidth(v) => ViewValues { style: ViewStyle { max_size: Size { width: v, ..values.style.max_size }, ..values.style }, ..values },
        PropertyValue::MinHeight(v) => ViewValues { style: ViewStyle { min_size: Size { height: v, ..values.style.min_size }, ..values.style }, ..values },
        PropertyValue::MinWidth(v) => ViewValues { style: ViewStyle { min_size: Size { width: v, ..values.style.min_size }, ..values.style }, ..values },
        PropertyValue::Opacity(v) => ViewValues { style: ViewStyle { opacity: v, ..values.style }, ..values },
        PropertyValue::Overflow(v) => ViewValues { style: ViewStyle { overflow: v, ..values.style }, ..values },
        PropertyValue::Padding(v) => ViewValues { style: ViewStyle { padding: v, ..values.style }, ..values },
        PropertyValue::Position(v) => ViewValues { position_type: v, ..values },
        PropertyValue::Right(v) => ViewValues { right: v, ..values },
        PropertyValue::Top(v) => ViewValues { top: v, ..values },
        PropertyValue::Transform(v) => ViewValues { style: ViewStyle { transform: v, ..values.style }, ..values },
        PropertyValue::Visibility(v) => ViewValues { style: ViewStyle { visibility: v, ..values.style }, ..values },
        PropertyValue::Width(v) => ViewValues { style: ViewStyle { size: Size { width: v, ..values.style.size }, ..values.style }, ..values },
        _ => values,
    }
}

/// The values after the first `n` properties.
pub open spec fn spec_view_values<Sp, T: Scalar>(properties: Seq<Property<Sp, T>>, n: int) -> ViewValues<T>
    decreases n,
{
    if n <= 0 {
        spec_initial_view()
    } else {
        spec_apply_view(spec_view_values(properties, n - 1), properties[n - 1].value)
    }
}

/// The view style of the values: an absolute position holds the four
/// distances (left and right fixed), a relative one the flex properties.
pub open spec fn spec_finish_view<T: Scalar>(values: ViewValues<T>) -> ViewStyle<T> {
    ViewStyle {
        position: match values.position_type {
            PositionType::Absolute => Position::Absolute(Absolute {
                distances: ByEdge {
                    horizontal: LayoutAxisX::DirectionIndependent { left: values.left, right: values.right },
                    vertical: LayoutAxisY { top: values.top, bottom: values.bottom },
                },
            }),
            PositionType::Relative => Position::Relative(Relative {
                flex_basis: values.flex_basis,
                flex_grow: values.flex_grow,
                flex_shrink: values.flex_shrink,
            }),
        },
        ..values.style
    }
}

/// The view style that the properties set.
pub open spec fn spec_view_style<Sp, T: Scalar>(properties: Seq<Property<Sp, T>>) -> ViewStyle<T> {
    spec_finish_view(spec_view_values(properties, properties.len() as int))
}

/// The image style after a property with the given value.
pub open spec fn spec_apply_image<T: Scalar>(style: ImageStyle, value: PropertyValue<T>) -> ImageStyle {
    match value {
        PropertyValue::ObjectFit(v) => ImageStyle { object_fit: v, ..style },
        PropertyValue::TintColor(v) => ImageStyle { tint_color: Some(v), ..style },
        _ => style,
    }
}

/// The image style after the first `n` properties.
pub open spec fn spec_image_values<Sp, T: Scalar>(properties: Seq<Property<Sp, T>>, n: int) -> ImageStyle
    decreases n,
{
    if n <= 0 {
        ImageStyle::spec_default()
    } else {
        spec_apply_image(spec_image_values(properties, n - 1), properties[n - 1].value)
    }
}

/// The image style that the properties set.
pub open spec fn spec_image_style<Sp, T: Scalar>(properties: Seq<Property<Sp, T>>) -> ImageStyle {
    spec_image_values(properties, properties.len() as int)
}

/// The text style after a property with the given value.
pub open spec fn spec_apply_text<T: Scalar>(style: TextStyle<T>, value: PropertyValue<T>) -> TextStyle<T> {
    match value {
        PropertyValue::Color(v) => TextStyle { color: v, ..style },
        PropertyValue::FontFamily(v) => TextStyle { font_family: v, ..style },
        PropertyValue::FontSize(v) => TextStyle { font_size: v, ..style },
        PropertyValue::FontStyle(v) => TextStyle { font_style: v, ..style },
        PropertyValue::FontWeight(v) => TextStyle { font_weight: v, ..style },
        PropertyValue::TextAlign(v) => TextStyle { text_align: v, ..style },
        _ => style,
    }
}

/// The text style after the first `n` properties.
pub open spec fn spec_text_values<Sp, T: Scalar>(properties: Seq<Property<Sp, T>>, n: int) -> TextStyle<T>
    decreases n,
{
    if n <= 0 {
        TextStyle::spec_default()
    } else {
        spec_apply_text(spec_text_values(properties, n - 1), properties[n - 1].value)
    }
}

/// The text style that the properties set.
pub open spec fn spec_text_style<Sp, T: Scalar>(properties: Seq<Property<Sp, T>>) -> TextStyle<T> {
    spec_text_values(properties, properties.len() as int)
}

/// The style kinds of the properties, in order.
pub open spec fn spec_kinds<Sp, T: Scalar>(properties: Seq<Property<Sp, T>>) -> Seq<StyleKind> {
    Seq::new(properties.len(), |i: int| properties[i].value.spec_kind().spec_style_kind())
}

/// Building succeeds: the properties are of incompatible kinds, or make up
/// an image, image view, text or view style (a style of no properties, or
/// one of text and view properties together, is not built).
pub open spec fn spec_buildable<Sp, T: Scalar>(properties: Seq<Property<Sp, T>>) -> bool {
    match spec_infer(spec_kinds(properties)) {
        Some(StyleCompound::Image) | Some(StyleCompound::ImageView) | Some(StyleCompound::Text)
        | Some(StyleCompound::View) | None => true,
        _ => false,
    }
}

/// The style that the properties make up, for buildable properties.
pub open spec fn spec_style<Sp, T: Scalar>(properties: Seq<Property<Sp, T>>) -> Style<T> {
    match spec_infer(spec_kinds(properties)) {
        Some(StyleCompound::Image) => Style::Image(spec_image_style(properties)),
        Some(StyleCompound::ImageView) => Style::ImageView(ImageViewStyle {
            image: spec_image_style(properties),
            view: spec_view_style(properties),
        }),
        Some(StyleCompound::Text) => Style::Text(spec_text_style(properties)),
        Some(StyleCompound::View) => Style::View(spec_view_style(properties)),
        _ => Style::Unit,
    }
}

/// The diagnostics that building the style adds, for buildable properties.
pub open spec fn spec_style_diagnostics<Sp, T: Scalar>(properties: Seq<Property<Sp, T>>) -> Seq<Diagnostic<Sp>> {
    let n = properties.len() as int;
    match spec_infer(spec_kinds(properties)) {
        Some(StyleCompound::Image) => spec_overridden(properties, n, StyleKind::Image),
        Some(StyleCompound::ImageView) => spec_overridden(properties, n, StyleKind::Image)
            + spec_overridden(properties, n, StyleKind::View),
        Some(StyleCompound::Text) => spec_overridden(properties, n, StyleKind::Text),
        Some(StyleCompound::View) => spec_overridden(properties, n, StyleKind::View),
        _ => Seq::empty(),
    }
}

fn apply_view<T: Scalar>(values: &mut ViewValues<T>, value: &PropertyValue<T>)
    ensures
        *final(values) == spec_apply_view(*old(values), *value),
{
    match value {
        PropertyValue::AlignItems(v) => {
            values.style.align_items = *v;
        },
        PropertyValue::BackgroundColor(v) => {
            values.style.background_color = *v;
        },
        PropertyValue::Border(v) => {
            values.style.border = *v;
        },
        PropertyValue::BorderRadius(v) => {
            values.style.border_radius = *v;
        },
        PropertyValue::Bottom(v) => {
            values.bottom = *v;
        },
        PropertyValue::Direction(v) => {
            values.style.direction = *v;
        },
        PropertyValue::FlexBasis(v) => {
            values.flex_basis = *v;
        },
        PropertyValue::FlexDirection(v) => {
            values.style.flex_direction = *v;
        },
        PropertyValue::FlexGrow(v) => {
            values.flex_grow = *v;
        },
        PropertyValue::FlexShrink(v) => {
            values.flex_shrink = *v;
        },
        PropertyValue::Height(v) => {
            values.style.size.height = *v;
        },
        PropertyValue::JustifyContent(v) => {
            values.style.justify_content = *v;
        },
        PropertyValue::Left(v) => {
            values.left = *v;
        },
        PropertyValue::Margin(v) => {
            values.style.margin = *v;
        },
        PropertyValue::MaxHeight(v) => {
            values.style.max_size.height = *v;
        },
        PropertyValue::MaxWidth(v) => {
            values.style.max_size.width = *v;
        },
        PropertyValue::MinHeight(v) => {
            values.style.min_size.height = *v;
        },
        PropertyValue::MinWidth(v) => {
            values.style.min_size.width = *v;
        },
        PropertyValue::Opacity(v) => {
            values.style.opacity = *v;
        },
        PropertyValue::Overflow(v) => {
            values.style.overflow = *v;
        },
        PropertyValue::Padding(v) => {
            values.style.padding = *v;
        },
        PropertyValue::Position(v) => {
            values.position_type = *v;
        },
        PropertyValue::Right(v) => {
            values.right = *v;
        },
        PropertyValue::Top(v) => {
            values.top = *v;
        },
        PropertyValue::Transform(v) => {
            values.style.transform = *v;
        },
        PropertyValue::Visibility(v) => {
            values.style.visibility = *v;
        },
        PropertyValue::Width(v) => {
            values.style.size.width = *v;
        },
        _ => {},
    }
}

fn apply_image<T: Scalar>(style: &mut ImageStyle, value: &PropertyValue<T>)
    ensures
        *final(style) == spec_apply_image(*old(style), *value),
{
    match value {
        PropertyValue::ObjectFit(v) => {
            style.object_fit = *v;
        },
        PropertyValue::TintColor(v) => {
            style.tint_color = Some(*v);
        },
        _ => {},
    }
}

fn clone_family(family: &Inherited<FontFamily<String>>) -> (r: Inherited<FontFamily<String>>)
    ensures
        r == *family,
{
    match family {
        Inherited::Inherited => Inherited::Inherited,
        Inherited::Specified(FontFamily::Generic(g)) => Inherited::Specified(FontFamily::Generic(*g)),
        Inherited::Specified(FontFamily::Named(n)) => Inherited::Specified(FontFamily::Named(n.clone())),
    }
}

fn apply_text<T: Scalar>(style: &mut TextStyle<T>, value: &PropertyValue<T>)
    ensures
        *final(style) == spec_apply_text(*old(style), *value),
{
    match value {
        PropertyValue::Color(v) => {
            style.color = *v;
        },
        PropertyValue::FontFamily(v) => {
            style.font_family = clone_family(v);
        },
        PropertyValue::FontSize(v) => {
            style.font_size = *v;
        },
        PropertyValue::FontStyle(v) => {
            style.font_style = *v;
        },
        PropertyValue::FontWeight(v) => {
            style.font_weight = *v;
        },
        PropertyValue::TextAlign(v) => {
            style.text_align = *v;
        },
        _ => {},
    }
}

/// Returns the span of the value of the last of the first `n` properties
/// that sets a property of the given kind, if any does.
fn last_span<Sp: Copy, T: Scalar>(properties: &[Property<Sp, T>], n: usize, kind: PropertyKind) -> (r: Option<Sp>)
    requires
        n <= properties@.len(),
    ensures
        r == spec_last_span(properties@, n as int, kind),
{
    let mut j = n;
    while j > 0
        invariant
            j <= n <= properties@.len(),
            spec_last_span(properties@, n as int, kind) == spec_last_span(properties@, j as int, kind),
        decreases j,
    {
        if properties[j - 1].value.kind() == kind {
            return Some(properties[j - 1].value_span);
        }
        j = j - 1;
    }
    None
}

/// This is a structure that is used to build the style from a series of
/// properties.
pub struct StyleBuilder<Sp> {
    diagnostics: Vec<Diagnostic<Sp>>,
}

impl<Sp: Copy> StyleBuilder<Sp> {
    /// The diagnostics emitted so far.
    pub closed spec fn spec_diagnostics(&self) -> Seq<Diagnostic<Sp>> {
        self.diagnostics@
    }

    /// Returns a new style builder.
    pub fn new() -> (r: StyleBuilder<Sp>)
        ensures
            r.spec_diagnostics() == Seq::<Diagnostic<Sp>>::empty(),
    {
        StyleBuilder { diagnostics: Vec::new() }
    }

    /// Reports the property at position `i` as overriding an earlier one of
    /// its kind, if one came before it.
    fn report<T: Scalar>(&mut self, properties: &[Property<Sp, T>], i: usize, style: StyleKind)
        requires
            i < properties@.len(),
        ensures
            final(self).spec_diagnostics() == old(self).spec_diagnostics() + (
                spec_overridden(properties@, i + 1, style).skip(spec_overridden(properties@, i as int, style).len() as int)),
            spec_overridden(properties@, i + 1, style).len() >= spec_overridden(properties@, i as int, style).len(),
    {
        let kind = properties[i].value.kind();
        let ghost d = spec_overridden(properties@, i as int, style);
        if StyleKind::infer(&kind) == style {
            if let Some(s) = last_span(properties, i, kind) {
                self.diagnostics.push(Diagnostic::UnusedProperty(s));
                assert(d.push(Diagnostic::UnusedProperty(s)).skip(d.len() as int) =~= seq![Diagnostic::UnusedProperty(s)]);
                return;
            }
        }
        assert(spec_overridden(properties@, i + 1, style).skip(d.len() as int) =~= Seq::<Diagnostic<Sp>>::empty());
        assert(old(self).spec_diagnostics() + Seq::<Diagnostic<Sp>>::empty() =~= old(self).spec_diagnostics());
    }

    /// Builds the image style of the given properties: the last object fit
    /// and the last tint color win, and each overridden one becomes a
    /// diagnostic.
    pub fn build_image_style<T: Scalar>(&mut self, properties: &[Property<Sp, T>]) -> (r: ImageStyle)
        ensures
            r == spec_image_style(properties@),
            final(self).spec_diagnostics() == old(self).spec_diagnostics()
                + spec_overridden(properties@, properties@.len() as int, StyleKind::Image),
    {
        let ghost start = self.diagnostics@;
        let mut style = ImageStyle::default();
        let mut i: usize = 0;
        while i < properties.len()
            invariant
                i <= properties@.len(),
                self.spec_diagnostics() == start + spec_overridden(properties@, i as int, StyleKind::Image),
                style == spec_image_values(properties@, i as int),
            decreases properties@.len() - i,
        {
            let ghost before = self.spec_diagnostics();
            self.report(properties, i, StyleKind::Image);
            proof {
                let a = spec_overridden(properties@, i as int, StyleKind::Image);
                let b = spec_overridden(properties@, i + 1, StyleKind::Image);
                assert(a =~= b.take(a.len() as int));
                assert(start + b =~= start + a + b.skip(a.len() as int));
            }
            apply_image(&mut style, &properties[i].value);
            i = i + 1;
        }
        style
    }

    /// Builds the view style of the given properties: for each property the
    /// last value wins, and each overridden one becomes a diagnostic.
    pub fn build_view_style<T: Scalar>(&mut self, properties: &[Property<Sp, T>]) -> (r: ViewStyle<T>)
        ensures
            r == spec_view_style(properties@),
            final(self).spec_diagnostics() == old(self).spec_diagnostics()
                + spec_overridden(properties@, properties@.len() as int, StyleKind::View),
    {
        let ghost start = self.diagnostics@;
        let relative = Relative::<T>::default();
        let mut values = ViewValues {
            position_type: PositionType::Relative,
            top: Dimension::Undefined,
            right: Dimension::Undefined,
            bottom: Dimension::Undefined,
            left: Dimension::Undefined,
            flex_basis: relative.flex_basis,
            flex_grow: relative.flex_grow,
            flex_shrink: relative.flex_shrink,
            style: ViewStyle::default(),
        };
        let mut i: usize = 0;
        while i < properties.len()
            invariant
                i <= properties@.len(),
                self.spec_diagnostics() == start + spec_overridden(properties@, i as int, StyleKind::View),
                values == spec_view_values(properties@, i as int),
            decreases properties@.len() - i,
        {
            self.report(properties, i, StyleKind::View);
            proof {
                let a = spec_overridden(properties@, i as int, StyleKind::View);
                let b = spec_overridden(properties@, i + 1, StyleKind::View);
                assert(a =~= b.take(a.len() as int));
                assert(start + b =~= start + a + b.skip(a.len() as int));
            }
            apply_view(&mut values, &properties[i].value);
            i = i + 1;
        }
        let position = match values.position_type {
            PositionType::Absolute => Position::Absolute(Absolute {
                distances: ByEdge {
                    horizontal: LayoutAxisX::DirectionIndependent { left: values.left, right: values.right },
                    vertical: LayoutAxisY { top: values.top, bottom: values.bottom },
                },
            }),
            PositionType::Relative => Position::Relative(Relative {
                flex_basis: values.flex_basis,
                flex_grow: values.flex_grow,
                flex_shrink: values.flex_shrink,
            }),
        };
        let mut style = values.style;
        style.position = position;
        style
    }

    /// Builds the text style of the given properties: for each property the
    /// last value wins, and each overridden one becomes a diagnostic.
    pub fn build_text_style<T: Scalar>(&mut self, properties: &[Property<Sp, T>]) -> (r: TextStyle<T>)
        ensures
            r == spec_text_style(properties@),
            final(self).spec_diagnostics() == old(self).spec_diagnostics()
                + spec_overridden(properties@, properties@.len() as int, StyleKind::Text),
    {
        let ghost start = self.diagnostics@;
        let mut style = TextStyle::default();
        let mut i: usize = 0;
        while i < properties.len()
            invariant
                i <= properties@.len(),
                self.spec_diagnostics() == start + spec_overridden(properties@, i as int, StyleKind::Text),
                style == spec_text_values(properties@, i as int),
            decreases properties@.len() - i,
        {
            self.report(properties, i, StyleKind::Text);
            proof {
                let a = spec_overridden(properties@, i as int, StyleKind::Text);
                let b = spec_overridden(properties@, i + 1, StyleKind::Text);
                assert(a =~= b.take(a.len() as int));
                assert(start + b =~= start + a + b.skip(a.len() as int));
            }
            apply_text(&mut style, &properties[i].value);
            i = i + 1;
        }
        style
    }

    /// Builds a style from the given set of properties, with the diagnostics
    /// of this builder and those that building adds. Properties of
    /// incompatible kinds make up the empty style with no diagnostics.
    pub fn build<T: Scalar>(self, properties: &[Property<Sp, T>]) -> (r: (Style<T>, Vec<Diagnostic<Sp>>))
        requires
            spec_buildable(properties@),
        ensures
            spec_infer(spec_kinds(properties@)) is None ==> r.0 == Style::<T>::Unit && r.1@ == Seq::<Diagnostic<Sp>>::empty(),
            spec_infer(spec_kinds(properties@)) is Some ==> r.0 == spec_style(properties@)
                && r.1@ == self.spec_diagnostics() + spec_style_diagnostics(properties@),
    {
        let mut builder = self;
        let mut kinds: Vec<StyleKind> = Vec::new();
        let mut i: usize = 0;
        while i < properties.len()
            invariant
                i <= properties@.len(),
                kinds@ == spec_kinds(properties@).take(i as int),
            decreases properties@.len() - i,
        {
            let k = properties[i].value.kind();
            kinds.push(StyleKind::infer(&k));
            assert(kinds@ =~= spec_kinds(properties@).take(i + 1));
            i = i + 1;
        }
        assert(kinds@ =~= spec_kinds(properties@));
        let compound = match StyleCompound::infer(kinds) {
            Some(compound) => compound,
            None => return (Style::Unit, Vec::new()),
        };
        let style = match compound {
            StyleCompound::Image => Style::Image(builder.build_image_style(properties)),
            StyleCompound::ImageView => {
                let image = builder.build_image_style(properties);
                let view = builder.build_view_style(properties);
                Style::ImageView(ImageViewStyle { image, view })
            },
            StyleCompound::Text => Style::Text(builder.build_text_style(properties)),
            _ => Style::View(builder.build_view_style(properties)),
        };
        proof {
            if compound == StyleCompound::ImageView {
                let n = properties@.len() as int;
                assert(self.spec_diagnostics() + spec_overridden(properties@, n, StyleKind::Image)
                    + spec_overridden(properties@, n, StyleKind::View) =~= self.spec_diagnostics() + (
                    spec_overridden(properties@, n, StyleKind::Image) + spec_overridden(properties@, n, StyleKind::View)));
            }
        }
        (style, builder.diagnostics)
    }

    /// Consumes the builder and returns its diagnostics.
    pub fn into_diagnostics(self) -> (r: Vec<Diagnostic<Sp>>)
        ensures
            r@ == self.spec_diagnostics(),
    {
        self.diagnostics
    }
}

} // verus!
