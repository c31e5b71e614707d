//! Reading the selectors and properties of a `yoyo!` style sheet.
//!
//! Errors point at tokens by their index in the slice that was read; inside
//! the group of a `:from(..)` selector, by their index in the group.

use std::marker::PhantomData;
use vstd::prelude::*;
use crate::scalar::Scalar;
use crate::text::str_eq;
use crate::macros::style::parser::{
    Delimiter, ParseError, Parser, Token, spec_argument_count, spec_is_argument_list, spec_group_at,
    spec_number, spec_boolean, spec_parse_enum, spec_parse_number, spec_parse_transform, arg,
    argument_count, number_of, boolean_of,
};
use super::types::{Spring, Transition};
use super::value::PropertyValue;

verus! {

/// Reads the selectors and properties of a style sheet whose spans have
/// type `Sp` and whose numbers have type `T`.
pub struct Driver<Sp, T>(PhantomData<(Sp, T)>);

/// A selector of a rule.
#[derive(Clone, Debug, PartialEq)]
pub enum Selector {
    /// `&`: the state of the enclosing rule.
    Ampersand,
    /// `:name`: a state.
    State(String),
    /// `.name`: a class name.
    ClassName(String),
    /// `:from(:name)`: coming from a state.
    FromState(String),
    /// `:from(.name)`: coming from a class name.
    FromClassName(String),
}

/// A rule: selectors and the items that apply under them.
#[derive(Debug)]
pub struct Rule<Sp, T: Scalar> {
    /// The span of the selector tokens.
    pub selectors_span: Sp,
    /// The span of the braced body.
    pub properties_span: Sp,
    /// The selectors of this rule.
    pub selectors: Vec<Selector>,
    /// The properties and nested rules of this rule.
    pub items: Vec<Item<Sp, T>>,
}

/// An item of a style sheet or of a rule's body.
#[derive(Debug)]
pub enum Item<Sp, T: Scalar> {
    /// A property.
    Property(Property<Sp, T>),
    /// A nested rule.
    Rule(Rule<Sp, T>),
}

/// One property of a style sheet.
#[derive(Copy, Clone, Debug, PartialEq)]
pub struct Property<Sp, T: Scalar> {
    /// This is the span of the name tokens. For example, if the name contains
    /// consists of multiple identifiers separated by dashes, this will stretch
    /// multiple individual token spans.
    pub name_span: Sp,
    /// This is the span of the value tokens. For example, if the value consists
    /// of multiple tokens, this will stretch multiple individual token spans.
    pub value_span: Sp,
    /// This is the interpreted value of this property.
    pub value: PropertyValue<T>,
}

/// An error in a selector or a property.
#[derive(Copy, Clone, Debug, PartialEq)]
pub enum Error<Sp> {
    /// This error is emitted when the parser encounters an unexpected token.
    UnexpectedToken(usize),
    /// This error is emitted when the parser encounters a property with a name
    /// that it does not recognize; it holds the span of the name.
    UnrecognizedProperty(Sp),
    /// An error in a property value.
    Parse(ParseError),
}

impl<Sp> Error<Sp> {
    /// The message that reports this error.
    pub open spec fn spec_message(self) -> Seq<char> {
        match self {
            Error::UnexpectedToken(_) => "Unexpected token."@,
            Error::UnrecognizedProperty(_) => "Unrecognized property."@,
            Error::Parse(e) => e.spec_message(),
        }
    }

    /// Returns the message that reports this error.
    pub fn message(&self) -> (r: &'static str)
        ensures
            r@ == self.spec_message(),
    {
        match self {
            Error::UnexpectedToken(_) => "Unexpected token.",
            Error::UnrecognizedProperty(_) => "Unrecognized property.",
            Error::Parse(e) => e.message(),
        }
    }
}

/// The token is the punctuation character `c`.
pub open spec fn is_punct<T>(t: Token<T>, c: char) -> bool {
    t matches Token::Punct(d) && d == c
}

/// The outcome of reading a selector: `None` where reading it fails on an
/// unhandled case (no token, or a `:from(..)` of a selector that is neither a
/// state nor a class name).
pub open spec fn spec_parse_selector<T, Sp>(tokens: Seq<Token<T>>) -> Option<Result<Selector, Error<Sp>>>
    decreases tokens, 1int,
{
    if tokens.len() == 0 {
        None
    } else if is_punct(tokens[0], '&') {
        Some(Ok(Selector::Ampersand))
    } else if is_punct(tokens[0], ':') {
        spec_parse_state(tokens, 1)
    } else if is_punct(tokens[0], '.') {
        spec_parse_class_name(tokens, 1)
    } else {
        Some(Err(Error::UnexpectedToken(0)))
    }
}

/// The outcome of reading a class name at position `i`.
pub open spec fn spec_parse_class_name<T, Sp>(tokens: Seq<Token<T>>, i: int) -> Option<Result<Selector, Error<Sp>>> {
    if i >= tokens.len() {
        None
    } else {
        match tokens[i] {
            Token::Ident(name) => Some(Ok(Selector::ClassName(name))),
            _ => Some(Err(Error::UnexpectedToken(i as usize))),
        }
    }
}

/// The outcome of reading a state at position `i`: a name, or `from`
/// followed by a group that holds a state or a class name.
pub open spec fn spec_parse_state<T, Sp>(tokens: Seq<Token<T>>, i: int) -> Option<Result<Selector, Error<Sp>>>
    decreases tokens, 0int,
{
    if i < 0 || i >= tokens.len() {
        None
    } else {
        match tokens[i] {
            Token::Ident(name) => if name@ == "from"@ {
                if i + 1 >= tokens.len() {
                    None
                } else {
                    match tokens[i + 1] {
                        Token::Group(Delimiter::Parenthesis, contents) => {
                            proof {
                                assert(decreases_to!(tokens => tokens[i + 1]));
                            }
                            match spec_parse_selector::<T, Sp>(contents@) {
                                Some(Ok(Selector::State(s))) => Some(Ok(Selector::FromState(s))),
                                Some(Ok(Selector::ClassName(n))) => Some(Ok(Selector::FromClassName(n))),
                                Some(Ok(_)) => None,
                                Some(Err(e)) => Some(Err(e)),
                                None => None,
                            }
                        },
                        _ => Some(Err(Error::UnexpectedToken((i + 1) as usize))),
                    }
                }
            } else {
                Some(Ok(Selector::State(name)))
            },
            _ => Some(Err(Error::UnexpectedToken(i as usize))),
        }
    }
}

/// The number in a group of exactly one unitless number at position `j`.
pub open spec fn spec_number_group<T>(tokens: Seq<Token<T>>, j: int) -> Option<T> {
    match spec_group_at(tokens, j) {
        Some(c) => if spec_is_argument_list(c) && spec_argument_count(c) == 1 {
            spec_number(arg(c, 0))
        } else {
            None
        },
        None => None,
    }
}

/// The spring in a group of three unitless numbers and two booleans at
/// position `j`: stiffness, damping, mass, whether it may be overdamped and
/// whether it clamps overshoot.
pub open spec fn spec_spring_group<T>(tokens: Seq<Token<T>>, j: int) -> Option<Spring<T>> {
    match spec_group_at(tokens, j) {
        Some(c) => if spec_is_argument_list(c) && spec_argument_count(c) == 5 && spec_number(arg(c, 0)) is Some
            && spec_number(arg(c, 1)) is Some && spec_number(arg(c, 2)) is Some && spec_boolean(arg(c, 3)) is Some
            && spec_boolean(arg(c, 4)) is Some {
            Some(Spring {
                stiffness: spec_number(arg(c, 0))->0,
                damping: spec_number(arg(c, 1))->0,
                mass: spec_number(arg(c, 2))->0,
                allows_overdamping: spec_boolean(arg(c, 3))->0,
                overshoot_clamping: spec_boolean(arg(c, 4))->0,
            })
        } else {
            None
        },
        None => None,
    }
}

/// The outcome of a transition function whose group at position one read as
/// `g`: it must be the last token; otherwise the error points at the first
/// token after what was read, or at the name if nothing follows it.
pub open spec fn spec_transition_end<T, Sp>(len: int, g: Option<Transition<T>>) -> Result<Transition<T>, Error<Sp>> {
    match g {
        Some(t) => if len == 2 {
            Ok(t)
        } else {
            Err(Error::UnexpectedToken(2))
        },
        None => if len > 1 {
            Err(Error::UnexpectedToken(1))
        } else {
            Err(Error::UnexpectedToken(0))
        },
    }
}

/// The outcome of reading a transition: `step`, `delay(seconds)`,
/// `ease-in-out(seconds)` or `spring(stiffness, damping, mass,
/// allows_overdamping, overshoot_clamping)`.
pub open spec fn spec_parse_transition<T: Scalar, Sp>(tokens: Seq<Token<T>>) -> Result<Transition<T>, Error<Sp>> {
    match spec_parse_enum::<T, Transition<T>>(tokens) {
        Ok(t) => Ok(t),
        Err(_) => match tokens[0] {
            Token::Ident(name) => if name@ == "delay"@ {
                spec_transition_end(
                    tokens.len() as int,
                    match spec_number_group(tokens, 1) {
                        Some(v) => Some(Transition::Delay(v)),
                        None => None,
                    },
                )
            } else if name@ == "ease-in-out"@ {
                spec_transition_end(
                    tokens.len() as int,
                    match spec_number_group(tokens, 1) {
                        Some(v) => Some(Transition::EaseInOut(v)),
                        None => None,
                    },
                )
            } else if name@ == "spring"@ {
                spec_transition_end(
                    tokens.len() as int,
                    match spec_spring_group(tokens, 1) {
                        Some(s) => Some(Transition::Spring(s)),
                        None => None,
                    },
                )
            } else {
                Err(Error::UnexpectedToken(0))
            },
            _ => Err(Error::UnexpectedToken(0)),
        },
    }
}

/// The array of the eight transforms of a sequence.
pub open spec fn transform_array<T: Scalar>(a: Seq<crate::styles::transform::Transform<T>>) -> [crate::styles::transform::Transform<T>; 8] {
    [a[0], a[1], a[2], a[3], a[4], a[5], a[6], a[7]]
}

/// The outcome of reading a property from its name and value tokens: `None`
/// where reading fails on a missing token or where the transform reading
/// fails (see `spec_parse_transform`).
pub open spec fn spec_parse_property<T: Scalar, Sp>(
    name: Seq<Token<T>>,
    value: Seq<Token<T>>,
    name_span: Sp,
    value_span: Sp,
) -> Option<Result<Property<Sp, T>, Error<Sp>>> {
    if name.len() == 0 {
        None
    } else {
        match name[0] {
            Token::Ident(n) => if name.len() > 1 {
                Some(Err(Error::UnexpectedToken(1)))
            } else if n@ == "opacity"@ {
                if value.len() == 0 {
                    None
                } else {
                    Some(
                        match spec_parse_number(value) {
                            Ok(v) => Ok(Property { name_span, value_span, value: PropertyValue::Opacity(v) }),
                            Err(e) => Err(Error::Parse(e)),
                        },
                    )
                }
            } else if n@ == "transition-opacity"@ {
                if value.len() == 0 {
                    None
                } else {
                    Some(
                        match spec_parse_transition::<T, Sp>(value) {
                            Ok(t) => Ok(Property { name_span, value_span, value: PropertyValue::TransitionOpacity(t) }),
                            Err(e) => Err(e),
                        },
                    )
                }
            } else if n@ == "transform"@ {
                match spec_parse_transform(value) {
                    Some(Ok(a)) => Some(Ok(Property {
                        name_span,
                        value_span,
                        value: PropertyValue::Transform(transform_array(a)),
                    })),
                    Some(Err(e)) => Some(Err(Error::Parse(e))),
                    None => None,
                }
            } else if n@ == "transition-transform"@ {
                if value.len() == 0 {
                    None
                } else {
                    Some(
                        match spec_parse_transition::<T, Sp>(value) {
                            Ok(t) => Ok(Property { name_span, value_span, value: PropertyValue::TransitionTransform(t) }),
                            Err(e) => Err(e),
                        },
                    )
                }
            } else {
                Some(Err(Error::UnrecognizedProperty(name_span)))
            },
            _ => Some(Err(Error::UnexpectedToken(0))),
        }
    }
}

impl<Sp, T: Scalar> Driver<Sp, T> {
    /// Returns a new driver.
    pub fn new() -> (r: Driver<Sp, T>) {
        Driver(PhantomData)
    }

    /// Reads the selectors of a rule: a single selector.
    pub fn parse_selectors(&self, tokens: &[Token<T>]) -> (r: Result<Vec<Selector>, Error<Sp>>)
        requires
            spec_parse_selector::<T, Sp>(tokens@) is Some,
        ensures
            match r {
                Ok(v) => spec_parse_selector::<T, Sp>(tokens@) == Some(Ok::<Selector, Error<Sp>>(v@[0]))
                    && v@.len() == 1,
                Err(e) => spec_parse_selector::<T, Sp>(tokens@) == Some(Err::<Selector, Error<Sp>>(e)),
            },
    {
        let selector = match self.parse_selector(tokens) {
            Ok(selector) => selector,
            Err(e) => return Err(e),
        };
        let mut v = Vec::new();
        v.push(selector);
        Ok(v)
    }

    /// Reads a selector: `&`, `:` followed by a state, or `.` followed by a
    /// class name.
    pub fn parse_selector(&self, tokens: &[Token<T>]) -> (r: Result<Selector, Error<Sp>>)
        requires
            spec_parse_selector::<T, Sp>(tokens@) is Some,
        ensures
            spec_parse_selector::<T, Sp>(tokens@) == Some(r),
        decreases tokens@, 1int,
    {
        match &tokens[0] {
            Token::Punct(c) => {
                if *c == '&' {
                    Ok(Selector::Ampersand)
                } else if *c == ':' {
                    self.parse_state(tokens, 1)
                } else if *c == '.' {
                    self.parse_class_name(tokens, 1)
                } else {
                    Err(Error::UnexpectedToken(0))
                }
            },
            _ => Err(Error::UnexpectedToken(0)),
        }
    }

    /// Reads the class name at position `i`.
    pub fn parse_class_name(&self, tokens: &[Token<T>], i: usize) -> (r: Result<Selector, Error<Sp>>)
        requires
            spec_parse_class_name::<T, Sp>(tokens@, i as int) is Some,
        ensures
            spec_parse_class_name::<T, Sp>(tokens@, i as int) == Some(r),
    {
        match &tokens[i] {
            Token::Ident(name) => Ok(Selector::ClassName(name.clone())),
            _ => Err(Error::UnexpectedToken(i)),
        }
    }

    /// Reads the state at position `i`.
    pub fn parse_state(&self, tokens: &[Token<T>], i: usize) -> (r: Result<Selector, Error<Sp>>)
        requires
            spec_parse_state::<T, Sp>(tokens@, i as int) is Some,
        ensures
            spec_parse_state::<T, Sp>(tokens@, i as int) == Some(r),
        decreases tokens@, 0int,
    {
        match &tokens[i] {
            Token::Ident(name) => {
                if str_eq(name.as_str(), "from") {
                    match &tokens[i + 1] {
                        Token::Group(Delimiter::Parenthesis, contents) => {
                            proof {
                                assert(decreases_to!(tokens@ => tokens@[i + 1]));
                            }
                            match self.parse_selector(contents.as_slice()) {
                                Ok(Selector::State(s)) => Ok(Selector::FromState(s)),
                                Ok(Selector::ClassName(n)) => Ok(Selector::FromClassName(n)),
                                Ok(_) => {
                                    assert(false);
                                    Err(Error::UnexpectedToken(i))
                                },
                                Err(e) => Err(e),
                            }
                        },
                        _ => Err(Error::UnexpectedToken(i + 1)),
                    }
                } else {
                    Ok(Selector::State(name.clone()))
                }
            },
            _ => Err(Error::UnexpectedToken(i)),
        }
    }

    /// Returns the number in a group of exactly one unitless number at
    /// position `j`, if there is one.
    fn number_group(tokens: &[Token<T>], j: usize) -> (r: Option<T>)
        ensures
            r == spec_number_group(tokens@, j as int),
    {
        if j >= tokens.len() {
            return None;
        }
        match &tokens[j] {
            Token::Group(Delimiter::Parenthesis, c) => match argument_count(c.as_slice()) {
                Some(n) => if n == 1 {
                    number_of(&c[0])
                } else {
                    None
                },
                None => None,
            },
            _ => None,
        }
    }

    /// Returns the spring in the group at position `j`, if there is one.
    fn spring_group(tokens: &[Token<T>], j: usize) -> (r: Option<Spring<T>>)
        ensures
            r == spec_spring_group(tokens@, j as int),
    {
        if j >= tokens.len() {
            return None;
        }
        match &tokens[j] {
            Token::Group(Delimiter::Parenthesis, c) => match argument_count(c.as_slice()) {
                Some(n) => if n == 5 {
                    match (number_of(&c[0]), number_of(&c[2]), number_of(&c[4]), boolean_of(&c[6]), boolean_of(&c[8])) {
                        (Some(stiffness), Some(damping), Some(mass), Some(allows_overdamping), Some(overshoot_clamping)) => Some(Spring {
                            stiffness,
                            damping,
                            mass,
                            allows_overdamping,
                            overshoot_clamping,
                        }),
                        _ => None,
                    }
                } else {
                    None
                },
                None => None,
            },
            _ => None,
        }
    }

    fn transition_end(len: usize, g: Option<Transition<T>>) -> (r: Result<Transition<T>, Error<Sp>>)
        ensures
            r == spec_transition_end::<T, Sp>(len as int, g),
    {
        match g {
            Some(t) => if len == 2 {
                Ok(t)
            } else {
                Err(Error::UnexpectedToken(2))
            },
            None => if len > 1 {
                Err(Error::UnexpectedToken(1))
            } else {
                Err(Error::UnexpectedToken(0))
            },
        }
    }

    /// Reads a transition.
    pub fn parse_transition(&self, tokens: &[Token<T>]) -> (r: Result<Transition<T>, Error<Sp>>)
        requires
            tokens@.len() > 0,
        ensures
            r == spec_parse_transition::<T, Sp>(tokens@),
    {
        if let Ok(t) = Parser::<T>::parse_enum::<Transition<T>>(tokens) {
            return Ok(t);
        }
        match &tokens[0] {
            Token::Ident(name) => {
                if str_eq(name.as_str(), "delay") {
                    let g = match Self::number_group(tokens, 1) {
                        Some(v) => Some(Transition::Delay(v)),
                        None => None,
                    };
                    Self::transition_end(tokens.len(), g)
                } else if str_eq(name.as_str(), "ease-in-out") {
                    let g = match Self::number_group(tokens, 1) {
                        Some(v) => Some(Transition::EaseInOut(v)),
                        None => None,
                    };
                    Self::transition_end(tokens.len(), g)
                } else if str_eq(name.as_str(), "spring") {
                    let g = match Self::spring_group(tokens, 1) {
                        Some(s) => Some(Transition::Spring(s)),
                        None => None,
                    };
                    Self::transition_end(tokens.len(), g)
                } else {
                    Err(Error::UnexpectedToken(0))
                }
            },
            _ => Err(Error::UnexpectedToken(0)),
        }
    }

    /// Reads a property from its name and value tokens and the spans of both.
    pub fn parse_property(&self, name: &[Token<T>], value: &[Token<T>], name_span: Sp, value_span: Sp) -> (r: Result<Property<Sp, T>, Error<Sp>>)
        requires
            spec_parse_property(name@, value@, name_span, value_span) is Some,
        ensures
            spec_parse_property(name@, value@, name_span, value_span) == Some(r),
    {
        let n = match &name[0] {
            Token::Ident(n) => n,
            _ => return Err(Error::UnexpectedToken(0)),
        };
        if name.len() > 1 {
            return Err(Error::UnexpectedToken(1));
        }
        if str_eq(n.as_str(), "opacity") {
            match Parser::<T>::parse_number(value) {
                Ok(v) => Ok(Property { name_span, value_span, value: PropertyValue::Opacity(v) }),
                Err(e) => Err(Error::Parse(e)),
            }
        } else if str_eq(n.as_str(), "transition-opacity") {
            match self.parse_transition(value) {
                Ok(t) => Ok(Property { name_span, value_span, value: PropertyValue::TransitionOpacity(t) }),
                Err(e) => Err(e),
            }
        } else if str_eq(n.as_str(), "transform") {
            match Parser::<T>::parse_transform(value) {
                Ok(a) => {
                    assert(a == transform_array(a@));
                    Ok(Property { name_span, value_span, value: PropertyValue::Transform(a) })
                },
                Err(e) => Err(Error::Parse(e)),
            }
        } else if str_eq(n.as_str(), "transition-transform") {
            match self.parse_transition(value) {
                Ok(t) => Ok(Property { name_span, value_span, value: PropertyValue::TransitionTransform(t) }),
                Err(e) => Err(e),
            }
        } else {
            Err(Error::UnrecognizedProperty(name_span))
        }
    }
}

} // verus!
