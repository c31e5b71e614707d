//! The values of the animated properties.

use vstd::prelude::*;
use crate::scalar::Scalar;
use crate::styles::transform::Transform;
use super::types::{Style, TransformTransition, Transition};

verus! {

/// The value of one animated property.
#[derive(Copy, Clone, Debug, PartialEq)]
pub enum PropertyValue<T: Scalar> {
    /// Controls the opacity of a view that is used for blending during
    /// composition.
    Opacity(T),
    /// Controls the transformation matrices that are applied to a view during
    /// composition.
    Transform([Transform<T>; 8]),
    /// Controls the transition between opacity of different variants.
    TransitionOpacity(Transition<T>),
    /// Controls the transition between transforms of different variants.
    TransitionTransform(Transition<T>),
}

impl<T: Scalar> PropertyValue<T> {
    /// The style with this value set: a transform transition sets the
    /// transitions of all parts of the transform.
    pub open spec fn spec_apply(self, style: Style<T>) -> Style<T> {
        match self {
            PropertyValue::Opacity(v) => Style { opacity: v, ..style },
            PropertyValue::Transform(v) => Style { transform: v, ..style },
            PropertyValue::TransitionOpacity(v) => Style {
                transitions: super::types::Transitions { opacity: v, ..style.transitions },
                ..style
            },
            PropertyValue::TransitionTransform(v) => Style {
                transitions: super::types::Transitions {
                    transform: TransformTransition::spec_uniform(v),
                    ..style.transitions
                },
                ..style
            },
        }
    }

    /// Sets this value in the given style.
    pub fn apply(&self, style: &mut Style<T>)
        ensures
            *final(style) == self.spec_apply(*old(style)),
    {
        match *self {
            PropertyValue::Opacity(v) => {
                style.opacity = v;
            },
            PropertyValue::Transform(v) => {
                style.transform = v;
            },
            PropertyValue::TransitionOpacity(v) => {
                style.transitions.opacity = v;
            },
            PropertyValue::TransitionTransform(v) => {
                style.transitions.transform = TransformTransition {
                    translation: v,
                    scale: v,
                    skew: v,
                    perspective: v,
                    rotation: v,
                };
            },
        }
    }
}

} // verus!
