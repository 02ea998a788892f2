//! Plain data types shared by every other module.

pub mod changes;
pub mod connection;
pub mod edges;
pub mod geometry;
pub mod handles;
pub mod lookup;
pub mod nodes;
pub mod panzoom;
pub mod viewport;
