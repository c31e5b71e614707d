//! The logic of the `yoyo!` macro: animation variants of a component, given
//! as a small style sheet of properties nested in state selectors.

pub mod types;
pub mod value;
pub mod style;
pub mod driver;
pub mod automaton;
pub mod codegen;

pub use automaton::{Automaton, Edge};
pub use codegen::Codegen;
pub use driver::{Driver, Error, Item, Property, Rule, Selector};
pub use style::{Diagnostic, StyleBuilder};
pub use types::{Spring, Style, TransformTransition, Transition, Transitions};
pub use value::PropertyValue;
