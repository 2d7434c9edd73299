//! A two-dimensional drag slider: a handle that the pointer drags inside a
//! container, whose position is read back as a percentage of the container
//! and as a normalized value per axis.
//!
//! Coordinates are whole pixels and every derived quantity is an exact ratio
//! of integers, so the clamping and normalization rules hold without rounding.

pub mod geometry;
pub mod slider;
