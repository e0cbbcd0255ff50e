//! Positioning primitive for floating UI elements (tooltips, popovers,
//! dropdowns): given the bounding rectangle of a reference element and the
//! size of the floating element, compute where the floating element's
//! top-left corner goes so that it sits on a chosen side of the reference,
//! aligned along the perpendicular axis, with pixel offsets on both axes.
//!
//! Coordinates are taken in whole pixels and returned as [`coord::Coord`]
//! values counted in half pixels, so that the one halving the algorithm
//! performs (centered alignment) is exact for every input.

pub mod binding;
pub mod coord;
pub mod geometry;
pub mod laws;

pub use binding::PositionStream;
pub use binding::Rect;
pub use binding::Size;
pub use binding::compute_if_ready;
pub use coord::Coord;
pub use coord::FloatingX;
pub use coord::FloatingY;
pub use geometry::Align;
pub use geometry::FloatingOptions;
pub use geometry::FloatingPosition;
pub use geometry::Side;
pub use geometry::calculate_position_from_rect;
