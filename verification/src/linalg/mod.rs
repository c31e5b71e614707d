//! Linear algebra that is used to compute and interpolate 3D transforms.

pub mod geometry;
pub mod transform;
pub mod inter;
pub mod laws;

pub use geometry::{Point3D, Quaternion3D};
pub use transform::Transform3D;
