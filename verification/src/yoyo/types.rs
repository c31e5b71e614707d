//! The styles and transitions of animation variants.

use vstd::prelude::*;
use crate::scalar::Scalar;
use crate::text::str_eq;
use crate::styles::ParseValue;
use crate::styles::transform::Transform;

verus! {

/// The way a property moves from its value in one variant to its value in
/// another.
#[derive(Copy, Clone, Debug, PartialEq)]
pub enum Transition<T> {
    /// The property jumps to its new value (keyword `step`).
    Step,
    /// The property eases in and out over the given duration in seconds.
    EaseInOut(T),
    /// The property follows a spring.
    Spring(Spring<T>),
    /// The property jumps to its new value after the given delay in seconds.
    Delay(T),
}

impl<T> Default for Transition<T> {
    fn default() -> (r: Self)
        ensures
            r == Transition::<T>::Step,
    {
        Transition::Step
    }
}

impl<T> ParseValue for Transition<T> {
    /// Only `step` is written as a keyword.
    open spec fn spec_parse(s: Seq<char>) -> Option<Self> {
        if s == "step"@ {
            Some(Transition::Step)
        } else {
            None
        }
    }

    fn parse(s: &str) -> (r: Option<Self>) {
        if str_eq(s, "step") {
            Some(Transition::Step)
        } else {
            None
        }
    }
}

/// The parameters of a spring transition.
#[derive(Copy, Clone, Debug, PartialEq)]
pub struct Spring<T> {
    /// The stiffness of the spring.
    pub stiffness: T,
    /// The damping of the spring.
    pub damping: T,
    /// The mass at the end of the spring.
    pub mass: T,
    /// Whether the spring may be overdamped.
    pub allows_overdamping: bool,
    /// Whether the value is clamped at its target instead of overshooting it.
    pub overshoot_clamping: bool,
}

impl<T: Scalar> Spring<T> {
    /// Stiffness 100, damping 10, mass 1, no overdamping, no clamping.
    pub open spec fn spec_default() -> Spring<T> {
        Spring {
            stiffness: T::spec_from_int(100),
            damping: T::spec_from_int(10),
            mass: T::spec_from_int(1),
            allows_overdamping: false,
            overshoot_clamping: false,
        }
    }
}

impl<T: Scalar> Default for Spring<T> {
    fn default() -> (r: Self)
        ensures
            r == Self::spec_default(),
    {
        Spring {
            stiffness: T::from_int(100),
            damping: T::from_int(10),
            mass: T::from_int(1),
            allows_overdamping: false,
            overshoot_clamping: false,
        }
    }
}

/// The transitions of the animated properties.
#[derive(Copy, Clone, Debug, PartialEq)]
pub struct Transitions<T> {
    /// The transition of the opacity.
    pub opacity: Transition<T>,
    /// The transitions of the parts of the transform.
    pub transform: TransformTransition<T>,
}

impl<T> Transitions<T> {
    /// Every transition is a step.
    pub open spec fn spec_default() -> Transitions<T> {
        Transitions { opacity: Transition::Step, transform: TransformTransition::spec_default() }
    }
}

impl<T> Default for Transitions<T> {
    fn default() -> (r: Self)
        ensures
            r == Self::spec_default(),
    {
        Transitions { opacity: Transition::Step, transform: TransformTransition::default() }
    }
}

/// The transitions of the parts of a transform.
#[derive(Copy, Clone, Debug, PartialEq)]
pub struct TransformTransition<T> {
    /// The transition of the translation.
    pub translation: Transition<T>,
    /// The transition of the scale.
    pub scale: Transition<T>,
    /// The transition of the skew.
    pub skew: Transition<T>,
    /// The transition of the perspective.
    pub perspective: Transition<T>,
    /// The transition of the rotation.
    pub rotation: Transition<T>,
}

impl<T> TransformTransition<T> {
    /// Every part moves by the same transition.
    pub open spec fn spec_uniform(t: Transition<T>) -> TransformTransition<T> {
        TransformTransition { translation: t, scale: t, skew: t, perspective: t, rotation: t }
    }

    /// Every part steps.
    pub open spec fn spec_default() -> TransformTransition<T> {
        Self::spec_uniform(Transition::Step)
    }
}

impl<T> Default for TransformTransition<T> {
    fn default() -> (r: Self)
        ensures
            r == Self::spec_default(),
    {
        TransformTransition {
            translation: Transition::Step,
            scale: Transition::Step,
            skew: Transition::Step,
            perspective: Transition::Step,
            rotation: Transition::Step,
        }
    }
}

/// The animated style of one variant, with the transitions towards it.
#[derive(Copy, Clone, Debug, PartialEq)]
pub struct Style<T: Scalar> {
    /// The opacity.
    pub opacity: T,
    /// The transforms, applied in order.
    pub transform: [Transform<T>; 8],
    /// The transitions into this style.
    pub transitions: Transitions<T>,
}

impl<T: Scalar> Style<T> {
    /// Full opacity, identity transforms and step transitions.
    pub open spec fn spec_default() -> Style<T> {
        let d = Transform::<T>::spec_default();
        Style {
            opacity: T::spec_one(),
            transform: [d, d, d, d, d, d, d, d],
            transitions: Transitions::spec_default(),
        }
    }
}

impl<T: Scalar> Default for Style<T> {
    fn default() -> (r: Self)
        ensures
            r == Self::spec_default(),
    {
        let d = Transform::default();
        Style {
            opacity: T::one(),
            transform: [d, d, d, d, d, d, d, d],
            transitions: Transitions::default(),
        }
    }
}

} // verus!
