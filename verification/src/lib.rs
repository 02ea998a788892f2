//! Framework-agnostic core for node-graph user interfaces: handle and
//! connection rules, edge bookkeeping, pan/zoom event filtering, resize
//! control geometry and the small data types shared between them.

pub mod constants;
pub mod promise;
pub mod types;
pub mod utils;
pub mod xypanzoom;
pub mod xyhandle;
pub mod xydrag;
pub mod xyresizer;
