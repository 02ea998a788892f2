//! Change kinds reported to users.

use vstd::prelude::*;

verus! {

/// Mode controlling whether a dimensions change should also write
/// the node's `width` / `height` fields (not only its measured size).
#[derive(Debug, Clone, Copy, PartialEq, Eq, Hash, Structural)]
pub enum SetAttributesMode {
    MeasuredOnly,
    All,
    WidthOnly,
    HeightOnly,
}

impl Default for SetAttributesMode {
    fn default() -> (r: SetAttributesMode)
        ensures
            r == SetAttributesMode::MeasuredOnly,
    {
        SetAttributesMode::MeasuredOnly
    }
}

} // verus!
