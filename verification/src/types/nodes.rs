//! Node-related enumerations.

use vstd::prelude::*;

verus! {

/// Alignment of the node toolbar relative to the node's anchor side.
#[derive(Debug, Clone, Copy, PartialEq, Eq, Hash, Structural)]
pub enum Align {
    Center,
    Start,
    End,
}

impl Default for Align {
    fn default() -> (r: Align)
        ensures
            r == Align::Center,
    {
        Align::Center
    }
}

} // verus!
