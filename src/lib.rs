//! Rubber-band selection of 3D objects: screen-rectangle geometry, the
//! oriented-box corner layout, and the hover / drag selection state machine.
//!
//! Coordinates are integers in fixed-point units chosen by the host: the
//! geometry only ever compares and takes minima and maxima, so any scale
//! that preserves order gives the same answers.

pub mod geometry;
pub mod bounding_box;
pub mod selection;
