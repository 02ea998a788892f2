//! Pure functions over connections, edges, graphs and lookups.

pub mod connections;
pub mod dom;
pub mod general;
pub mod marker;
pub mod store;
pub mod text;
pub mod edges;
pub mod graph;
