//! Pan/zoom event gating: which browser events reach the zoom engine,
//! and what the wheel handlers decide before any arithmetic happens.

pub mod eventhandler;
pub mod filter;
pub mod utils;
