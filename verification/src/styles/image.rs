//! Keyword-valued style properties.

use vstd::prelude::*;
use crate::text::str_eq;
use super::ParseValue;
use super::color::Color;
use super::view::ViewStyle;
use crate::scalar::Scalar;

verus! {

/// Defines the method for fitting objects that do not match the dimensions of
/// their container.
#[derive(Copy, Clone, Debug, Eq, PartialEq, Structural)]
pub enum ObjectFit {
    /// Fills the container without respecting the aspect ratio of the object.
    Fill,
    /// Applies no scaling to the object.
    Unscaled,
    /// Scales the object so that it is completely visible while maintaining its
    /// aspect ratio; the object is centered within its container.
    Contain,
    /// Scales the object so that it completely covers its container, while
    /// maintaining its aspect ratio; the object is centered within its container.
    Cover,
}

impl ParseValue for ObjectFit {
    /// The variant named by its CSS keyword.
    open spec fn spec_parse(s: Seq<char>) -> Option<Self> {
        if s == "fill"@ {
            Some(ObjectFit::Fill)
        } else if s == "none"@ {
            Some(ObjectFit::Unscaled)
        } else if s == "contain"@ {
            Some(ObjectFit::Contain)
        } else if s == "cover"@ {
            Some(ObjectFit::Cover)
        } else {
            None
        }
    }

    fn parse(s: &str) -> (r: Option<Self>) {
        if str_eq(s, "fill") {
            Some(ObjectFit::Fill)
        } else if str_eq(s, "none") {
            Some(ObjectFit::Unscaled)
        } else if str_eq(s, "contain") {
            Some(ObjectFit::Contain)
        } else if str_eq(s, "cover") {
            Some(ObjectFit::Cover)
        } else {
            None
        }
    }
}

impl Default for ObjectFit {
    fn default() -> (r: Self)
        ensures
            r == ObjectFit::Fill,
    {
        ObjectFit::Fill
    }
}

/// Controls the appearance of an Image.
#[derive(Copy, Clone, Debug, PartialEq, Eq, Structural)]
pub struct ImageStyle {
    /// Controls the method for fitting images that do not match the
    /// dimensions of their container.
    pub object_fit: ObjectFit,
    /// If present, controls the color that this image is rendered in. Only
    /// the alpha channel of the original image is kept: all other channels
    /// are replaced by the given tint color.
    pub tint_color: Option<Color>,
}

impl ImageStyle {
    /// Filling, without a tint.
    pub open spec fn spec_default() -> ImageStyle {
        ImageStyle { object_fit: ObjectFit::Fill, tint_color: None }
    }
}

impl Default for ImageStyle {
    fn default() -> (r: Self)
        ensures
            r == Self::spec_default(),
    {
        ImageStyle { object_fit: ObjectFit::Fill, tint_color: None }
    }
}

/// This is a union style of the Image and View styles.
#[derive(Copy, Clone, Debug, PartialEq)]
pub struct ImageViewStyle<T: Scalar> {
    /// This style contains the properties that are only applicable to Images.
    pub image: ImageStyle,
    /// This style contains the properties that are only applicable to Views.
    pub view: ViewStyle<T>,
}

} // verus!
