//! The directed graph: the whole document.

pub mod building;
pub mod graph;
pub mod print;
pub mod style;
