//! Parametric drafting of a small sauna building: floor plan, elevations and
//! a section, computed from one set of dimensions as a list of vector shapes.
//!
//! All lengths are whole millimetres and all angles whole degrees.

pub mod layers;
pub mod geometry;
pub mod text;
pub mod dimensions;
pub mod helpers;
pub mod plan;
pub mod views;
pub mod sheet;
