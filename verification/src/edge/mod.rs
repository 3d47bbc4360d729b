//! Edges and their style attributes.

pub mod edge;
pub mod style;
