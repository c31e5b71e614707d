//! Perceptually plausible interpolation between 3D transformations.

pub mod algebra;
pub mod compose;
pub mod laplace;

pub use compose::Decomposition3D;
pub use laplace::LaplaceExpansion3D;
