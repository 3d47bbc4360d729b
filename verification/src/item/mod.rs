//! What a graph holds: nodes and clusters.

pub mod cluster;
pub mod item;
pub mod node;
