//! Points of space and of the plane over a closed set of integer scalars,
//! with vector arithmetic, a lexicographic order in space, and the basic
//! queries of computational geometry: dot and cross product, signed area,
//! area of a triangle and of a polygon, and the direction of a turn.
//!
//! Every operation is stated over the integers that the coordinates stand
//! for (`model`). An operation whose result the scalar cannot hold is left out
//! by a precondition, so that none of them overflows or traps; results that
//! are half numbers are given exactly (`operations::Area`).

pub mod laws;
pub mod model;
pub mod operations;
pub mod point;
pub mod point2d;
pub mod scalar;
mod sign;
pub mod text;

pub use crate::model::IntPoint;
pub use crate::operations::cross;
pub use crate::operations::dot;
pub use crate::operations::Area;
pub use crate::operations::GeometryOperations;
pub use crate::point::Point;
pub use crate::point2d::Point2D;
pub use crate::scalar::PointType;
