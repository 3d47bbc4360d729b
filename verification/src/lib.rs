//! A typed builder for documents in the DOT graph-description language.
//!
//! Directed graphs, nested clusters, nodes and edges are assembled from plain
//! values with typed style attributes and then written out as DOT text.
//! Every data type has a mathematical model (its view); the text that a value
//! is written as and the effect of renaming its identifiers are functions of
//! that model, and the executable code is proved to compute them.

pub mod colors;
pub mod edge;
pub mod graph;
pub mod item;
pub mod text;
pub mod traits;
