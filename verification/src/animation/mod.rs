//! Physics-based primitives for continuous animation: curves with closed-form
//! values and velocities, thresholds that decide when an animation rests, and
//! a sampler that steps through a curve until it rests.

pub mod curve;
pub mod threshold;
pub mod delay;
pub mod decay;
pub mod bezier;
pub mod spring;
pub mod sampler;

pub use curve::{Approximation, Curve};
pub use sampler::{KeyedIter, Sampler};
pub use threshold::Threshold;
