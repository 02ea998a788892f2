//! Node resizing: the resize controls and what each of them moves.

pub mod types;
pub mod utils;
