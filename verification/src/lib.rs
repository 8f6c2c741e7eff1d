//! Editable glyph outlines made of small Bezier curves: exact curve
//! evaluation, polyline sampling, and the pointer interaction that drags
//! control points around.

pub mod curve;
pub mod glyph;
pub mod hit;
pub mod interact;
pub mod label;
pub mod param;
pub mod point;
pub mod sample;
