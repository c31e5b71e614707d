//! Property names, style inference, value parsing and enum values of the
//! `style! { ... }` macro.

pub mod driver;
pub mod infer;
pub mod parser;
pub mod transform_laws;
pub mod style;
pub mod value;

pub use infer::{PropertyKind, StyleCompound, StyleKind};
pub use parser::{ParseError, Parser, Token, Delimiter};
pub use value::PropertyValue;
pub use driver::{Driver, Error, Property};
pub use style::{Diagnostic, Style, StyleBuilder};
pub use crate::styles::PositionType;
