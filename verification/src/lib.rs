//! Animated gizmos: dashed lines and arcs whose dashes travel along the
//! primitive, computed in exact fixed-point arithmetic.

pub mod animated;
pub mod arcs;
pub mod clock;
pub mod color;
pub mod coverage;
pub mod fixed;
pub mod geometry;
pub mod gizmos;
pub mod sampler;
