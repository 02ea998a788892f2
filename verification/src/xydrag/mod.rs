//! Node dragging: which elements a drag may start on, and which nodes
//! move together.

pub mod utils;
