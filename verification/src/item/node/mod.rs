//! Nodes and their style attributes.

pub mod node;
pub mod style;
