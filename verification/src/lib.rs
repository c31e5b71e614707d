//! Verified core of the Polyhorn UI toolkit: 3D transform algebra and its
//! interpolation, style values and their parsing, style inference, animation
//! curves and thresholds, animation variant automata, navigation stacks and
//! the version logic of the command line launcher.

pub mod scalar;
pub mod text;
pub mod animation;
pub mod geometry;
pub mod layout;
pub mod linalg;
pub mod macros;
pub mod physics;
pub mod styles;
pub mod yoyo;
pub mod taxi;
pub mod cli;
