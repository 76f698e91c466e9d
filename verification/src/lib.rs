//! Planar predicates on the integer grid: the turn of three points, membership
//! of a point in the box spanned by two corners, the meeting of two segments,
//! and the overlap of two convex polygons by separating axes.
//!
//! Coordinates are `i32`. Every intermediate quantity is computed exactly in a
//! wider type, so each predicate is a total function whose result is stated
//! over the mathematical integers.

pub mod point;
pub mod orientation;
pub mod bounding_box;
pub mod segment;
pub mod polygon;

pub use bounding_box::is_point_in_box;
pub use orientation::{get_triangle_orientation, triangle_orientation, Orientation};
pub use point::Point;
pub use polygon::are_polygons_intersecting;
pub use segment::are_lines_intersecting;
