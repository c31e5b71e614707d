//! The logic of the `style! { ... }` macro.

pub mod style;
