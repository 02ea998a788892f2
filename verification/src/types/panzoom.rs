//! Pan-on-drag configuration.

use vstd::prelude::*;

verus! {

/// Configuration for pan-on-drag: disabled, enabled with the primary
/// button, or enabled for a list of mouse buttons only.
#[derive(Debug, Clone, PartialEq, Eq)]
pub enum PanOnDrag {
    /// Disabled.
    Off,
    /// Enabled with the default left mouse button.
    On,
    /// Enabled, but only when one of the listed buttons is pressed.
    Buttons(Vec<u8>),
}

impl Default for PanOnDrag {
    fn default() -> (r: PanOnDrag)
        ensures
            r == PanOnDrag::On,
    {
        PanOnDrag::On
    }
}

impl From<bool> for PanOnDrag {
    fn from(b: bool) -> (r: PanOnDrag)
        ensures
            r == (if b { PanOnDrag::On } else { PanOnDrag::Off }),
    {
        if b {
            PanOnDrag::On
        } else {
            PanOnDrag::Off
        }
    }
}

impl vstd::std_specs::convert::FromSpecImpl<bool> for PanOnDrag {
    open spec fn obeys_from_spec() -> bool {
        true
    }

    open spec fn from_spec(v: bool) -> PanOnDrag {
        if v {
            PanOnDrag::On
        } else {
            PanOnDrag::Off
        }
    }
}

impl From<Vec<u8>> for PanOnDrag {
    fn from(buttons: Vec<u8>) -> (r: PanOnDrag)
        ensures
            r == PanOnDrag::Buttons(buttons),
    {
        PanOnDrag::Buttons(buttons)
    }
}

impl vstd::std_specs::convert::FromSpecImpl<Vec<u8>> for PanOnDrag {
    open spec fn obeys_from_spec() -> bool {
        true
    }

    open spec fn from_spec(v: Vec<u8>) -> PanOnDrag {
        PanOnDrag::Buttons(v)
    }
}

} // verus!
