//! Building the style of a variant from a list of properties, in which a
//! later property overrides an earlier one of the same kind.

use vstd::prelude::*;
use crate::scalar::Scalar;
use crate::styles::transform::Transform;
use super::driver::Property;
use super::types::{Style, TransformTransition, Transition, Transitions};
use super::value::PropertyValue;

verus! {

/// This is a diagnostic that is emitted while building a style.
#[derive(Copy, Clone, Debug, PartialEq)]
pub enum Diagnostic<Sp> {
    /// This diagnostic is emitted when a property is overridden by another
    /// property; it holds the span of the overridden value.
    UnusedProperty(Sp),
}

impl<Sp> Diagnostic<Sp> {
    /// The message that reports this diagnostic.
    pub open spec fn spec_message(self) -> Seq<char> {
        match self {
            Diagnostic::UnusedProperty(_) => "Property value is unused because it is later redefined."@,
        }
    }

    /// Returns the message that reports this diagnostic.
    pub fn message(&self) -> (r: &'static str)
        ensures
            r@ == self.spec_message(),
    {
        match self {
            Diagnostic::UnusedProperty(_) => "Property value is unused because it is later redefined.",
        }
    }
}

/// A value together with the span of the property that last set it.
#[derive(Copy, Clone, Debug, PartialEq)]
pub struct Tracker<V, Sp> {
    /// The current value.
    pub value: V,
    /// The span of the property that set the current value, if any did.
    pub previous_span: Option<Sp>,
}

/// The diagnostics and the tracker after a property with the given span sets
/// `value`: the span of the property that set the tracker before, if any,
/// becomes an unused-property diagnostic.
pub open spec fn spec_replace<V, Sp>(
    diagnostics: Seq<Diagnostic<Sp>>,
    tracker: Tracker<V, Sp>,
    value: V,
    span: Sp,
) -> (Seq<Diagnostic<Sp>>, Tracker<V, Sp>) {
    (
        match tracker.previous_span {
            Some(s) => diagnostics.push(Diagnostic::UnusedProperty(s)),
            None => diagnostics,
        },
        Tracker { value, previous_span: Some(span) },
    )
}

/// The diagnostics and the trackers of opacity and transform after the first
/// `n` properties.
pub open spec fn spec_style_fold<Sp, T: Scalar>(
    properties: Seq<Property<Sp, T>>,
    n: int,
    default: Style<T>,
) -> (Seq<Diagnostic<Sp>>, Tracker<T, Sp>, Tracker<[Transform<T>; 8], Sp>)
    decreases n,
{
    if n <= 0 {
        (
            Seq::empty(),
            Tracker { value: default.opacity, previous_span: None },
            Tracker { value: default.transform, previous_span: None },
        )
    } else {
        let (d, o, t) = spec_style_fold(properties, n - 1, default);
        let p = properties[n - 1];
        match p.value {
            PropertyValue::Opacity(v) => {
                let (d2, o2) = spec_replace(d, o, v, p.value_span);
                (d2, o2, t)
            },
            PropertyValue::Transform(v) => {
                let (d2, t2) = spec_replace(d, t, v, p.value_span);
                (d2, o, t2)
            },
            _ => (d, o, t),
        }
    }
}

/// The diagnostics and the trackers of the opacity transition and the
/// transform transitions after the first `n` properties.
pub open spec fn spec_transitions_fold<Sp, T: Scalar>(
    properties: Seq<Property<Sp, T>>,
    n: int,
    default: Transitions<T>,
) -> (Seq<Diagnostic<Sp>>, Tracker<Transition<T>, Sp>, Tracker<TransformTransition<T>, Sp>)
    decreases n,
{
    if n <= 0 {
        (
            Seq::empty(),
            Tracker { value: default.opacity, previous_span: None },
            Tracker { value: default.transform, previous_span: None },
        )
    } else {
        let (d, o, t) = spec_transitions_fold(properties, n - 1, default);
        let p = properties[n - 1];
        match p.value {
            PropertyValue::TransitionOpacity(v) => {
                let (d2, o2) = spec_replace(d, o, v, p.value_span);
                (d2, o2, t)
            },
            PropertyValue::TransitionTransform(v) => {
                let (d2, t2) = spec_replace(d, t, TransformTransition::spec_uniform(v), p.value_span);
                (d2, o, t2)
            },
            _ => (d, o, t),
        }
    }
}

/// The value of the last of the first `n` properties that `select` picks a
/// value from, or `default` if it picks from none of them.
pub open spec fn spec_last<Sp, T: Scalar, V>(
    properties: Seq<Property<Sp, T>>,
    n: int,
    select: spec_fn(PropertyValue<T>) -> Option<V>,
    default: V,
) -> V
    decreases n,
{
    if n <= 0 {
        default
    } else {
        match select(properties[n - 1].value) {
            Some(v) => v,
            None => spec_last(properties, n - 1, select, default),
        }
    }
}

/// The opacity that a property value sets.
pub open spec fn select_opacity<T: Scalar>(v: PropertyValue<T>) -> Option<T> {
    match v {
        PropertyValue::Opacity(o) => Some(o),
        _ => None,
    }
}

/// The transforms that a property value sets.
pub open spec fn select_transform<T: Scalar>(v: PropertyValue<T>) -> Option<[Transform<T>; 8]> {
    match v {
        PropertyValue::Transform(t) => Some(t),
        _ => None,
    }
}

/// The opacity transition that a property value sets.
pub open spec fn select_transition_opacity<T: Scalar>(v: PropertyValue<T>) -> Option<Transition<T>> {
    match v {
        PropertyValue::TransitionOpacity(t) => Some(t),
        _ => None,
    }
}

/// The transform transitions that a property value sets.
pub open spec fn select_transition_transform<T: Scalar>(v: PropertyValue<T>) -> Option<TransformTransition<T>> {
    match v {
        PropertyValue::TransitionTransform(t) => Some(TransformTransition::spec_uniform(t)),
        _ => None,
    }
}

/// The tracker values of the style fold are those of the last opacity and
/// the last transform property.
pub proof fn lemma_style_fold_last<Sp, T: Scalar>(properties: Seq<Property<Sp, T>>, n: int, default: Style<T>)
    requires
        0 <= n <= properties.len(),
    ensures
        spec_style_fold(properties, n, default).1.value
            == spec_last(properties, n, |v| select_opacity(v), default.opacity),
        spec_style_fold(properties, n, default).2.value
            == spec_last(properties, n, |v| select_transform(v), default.transform),
    decreases n,
{
    if n > 0 {
        lemma_style_fold_last(properties, n - 1, default);
    }
}

/// The tracker values of the transitions fold are those of the last opacity
/// transition and the last transform transition property.
pub proof fn lemma_transitions_fold_last<Sp, T: Scalar>(
    properties: Seq<Property<Sp, T>>,
    n: int,
    default: Transitions<T>,
)
    requires
        0 <= n <= properties.len(),
    ensures
        spec_transitions_fold(properties, n, default).1.value
            == spec_last(properties, n, |v| select_transition_opacity(v), default.opacity),
        spec_transitions_fold(properties, n, default).2.value
            == spec_last(properties, n, |v| select_transition_transform(v), default.transform),
    decreases n,
{
    if n > 0 {
        lemma_transitions_fold_last(properties, n - 1, default);
    }
}

/// This is a structure that is used to build the style from a series of
/// properties.
pub struct StyleBuilder<Sp> {
    diagnostics: Vec<Diagnostic<Sp>>,
}

impl<Sp: Copy> StyleBuilder<Sp> {
    /// The diagnostics emitted so far.
    pub closed spec fn spec_diagnostics(&self) -> Seq<Diagnostic<Sp>> {
        self.diagnostics@
    }

    /// Returns a new style builder.
    pub fn new() -> (r: StyleBuilder<Sp>)
        ensures
            r.spec_diagnostics() == Seq::<Diagnostic<Sp>>::empty(),
    {
        StyleBuilder { diagnostics: Vec::new() }
    }

    fn track<V>(&mut self, value: V) -> (r: Tracker<V, Sp>)
        ensures
            r == (Tracker::<V, Sp> { value, previous_span: None }),
            *final(self) == *old(self),
    {
        Tracker { value, previous_span: None }
    }

    fn replace<V>(&mut self, tracker: &mut Tracker<V, Sp>, value: V, span: Sp)
        ensures
            (final(self).spec_diagnostics(), *final(tracker))
                == spec_replace(old(self).spec_diagnostics(), *old(tracker), value, span),
    {
        if let Some(s) = tracker.previous_span {
            self.diagnostics.push(Diagnostic::UnusedProperty(s));
        }
        tracker.value = value;
        tracker.previous_span = Some(span);
    }

    /// Returns the transitions that the given properties set on top of the
    /// given defaults: the last opacity transition and the last transform
    /// transition win, and each overridden one becomes a diagnostic.
    pub fn build_transitions<T: Scalar>(&mut self, properties: &[Property<Sp, T>], default: Transitions<T>) -> (r: Transitions<T>)
        ensures
            ({
                let (d, o, t) = spec_transitions_fold(properties@, properties@.len() as int, default);
                &&& final(self).spec_diagnostics() == old(self).spec_diagnostics() + d
                &&& r == (Transitions { opacity: o.value, transform: t.value })
            }),
            r.opacity == spec_last(properties@, properties@.len() as int, |v| select_transition_opacity(v), default.opacity),
            r.transform == spec_last(properties@, properties@.len() as int, |v| select_transition_transform(v), default.transform),
    {
        let ghost start = self.diagnostics@;
        let mut opacity = self.track(default.opacity);
        let mut transform = self.track(default.transform);
        let mut i: usize = 0;
        while i < properties.len()
            invariant
                i <= properties@.len(),
                ({
                    let (d, o, t) = spec_transitions_fold(properties@, i as int, default);
                    &&& self.spec_diagnostics() == start + d
                    &&& opacity == o
                    &&& transform == t
                }),
            decreases properties@.len() - i,
        {
            let p = properties[i];
            match p.value {
                PropertyValue::TransitionOpacity(v) => {
                    self.replace(&mut opacity, v, p.value_span);
                },
                PropertyValue::TransitionTransform(v) => {
                    let all = TransformTransition {
                        translation: v,
                        scale: v,
                        skew: v,
                        perspective: v,
                        rotation: v,
                    };
                    self.replace(&mut transform, all, p.value_span);
                },
                _ => {},
            }
            proof {
                let (d0, o0, t0) = spec_transitions_fold(properties@, i as int, default);
                match o0.previous_span {
                    Some(s) => {
                        assert(start + d0.push(Diagnostic::UnusedProperty(s)) =~= (start + d0).push(
                            Diagnostic::UnusedProperty(s),
                        ));
                    },
                    None => {},
                }
                match t0.previous_span {
                    Some(s) => {
                        assert(start + d0.push(Diagnostic::UnusedProperty(s)) =~= (start + d0).push(
                            Diagnostic::UnusedProperty(s),
                        ));
                    },
                    None => {},
                }
            }
            i = i + 1;
        }
        proof {
            lemma_transitions_fold_last(properties@, properties@.len() as int, default);
        }
        Transitions { opacity: opacity.value, transform: transform.value }
    }

    /// Returns the style that the given properties set on top of the given
    /// default: the last opacity and the last transform win, the transitions
    /// are built as by `build_transitions`, and each overridden property
    /// becomes a diagnostic.
    pub fn build_style<T: Scalar>(&mut self, properties: &[Property<Sp, T>], default: Style<T>) -> (r: Style<T>)
        ensures
            ({
                let (d, o, t) = spec_style_fold(properties@, properties@.len() as int, default);
                let (dt, ot, tt) = spec_transitions_fold(properties@, properties@.len() as int, default.transitions);
                &&& final(self).spec_diagnostics() == old(self).spec_diagnostics() + d + dt
                &&& r == (Style {
                    opacity: o.value,
                    transform: t.value,
                    transitions: Transitions { opacity: ot.value, transform: tt.value },
                })
            }),
            r.opacity == spec_last(properties@, properties@.len() as int, |v| select_opacity(v), default.opacity),
            r.transform == spec_last(properties@, properties@.len() as int, |v| select_transform(v), default.transform),
    {
        let ghost start = self.diagnostics@;
        let mut opacity = self.track(default.opacity);
        let mut transform = self.track(default.transform);
        let mut i: usize = 0;
        while i < properties.len()
            invariant
                i <= properties@.len(),
                ({
                    let (d, o, t) = spec_style_fold(properties@, i as int, default);
                    &&& self.spec_diagnostics() == start + d
                    &&& opacity == o
                    &&& transform == t
                }),
            decreases properties@.len() - i,
        {
            let p = properties[i];
            match p.value {
                PropertyValue::Opacity(v) => {
                    self.replace(&mut opacity, v, p.value_span);
                },
                PropertyValue::Transform(v) => {
                    self.replace(&mut transform, v, p.value_span);
                },
                _ => {},
            }
            proof {
                let (d0, o0, t0) = spec_style_fold(properties@, i as int, default);
                match o0.previous_span {
                    Some(s) => {
                        assert(start + d0.push(Diagnostic::UnusedProperty(s)) =~= (start + d0).push(
                            Diagnostic::UnusedProperty(s),
                        ));
                    },
                    None => {},
                }
                match t0.previous_span {
                    Some(s) => {
                        assert(start + d0.push(Diagnostic::UnusedProperty(s)) =~= (start + d0).push(
                            Diagnostic::UnusedProperty(s),
                        ));
                    },
                    None => {},
                }
            }
            i = i + 1;
        }
        proof {
            lemma_style_fold_last(properties@, properties@.len() as int, default);
        }
        let ghost mid = self.diagnostics@;
        let transitions = self.build_transitions(properties, default.transitions);
        proof {
            let (d, o, t) = spec_style_fold(properties@, properties@.len() as int, default);
            let (dt, ot, tt) = spec_transitions_fold(properties@, properties@.len() as int, default.transitions);
            assert(start + d + dt =~= mid + dt);
        }
        Style { opacity: opacity.value, transform: transform.value, transitions }
    }

    /// Consumes the builder and returns its diagnostics.
    pub fn into_diagnostics(self) -> (r: Vec<Diagnostic<Sp>>)
        ensures
            r@ == self.spec_diagnostics(),
    {
        self.diagnostics
    }
}

} // verus!
