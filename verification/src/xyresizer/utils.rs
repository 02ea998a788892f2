//! What a control changes, and the exclusive-or used when a resize flips
//! over an edge.

use vstd::prelude::*;
use crate::xyresizer::types::{
    spec_affects_x, spec_affects_y, spec_is_horizontal, spec_is_vertical, ControlDirection,
    ControlPosition,
};

verus! {

/// The four facts about `control` used throughout a resize gesture.
pub fn get_control_direction(control: ControlPosition) -> (r: ControlDirection)
    ensures
        r.is_horizontal == spec_is_horizontal(control),
        r.is_vertical == spec_is_vertical(control),
        r.affects_x == spec_affects_x(control),
        r.affects_y == spec_affects_y(control),
{
    ControlDirection {
        is_horizontal: control.is_horizontal(),
        is_vertical: control.is_vertical(),
        affects_x: control.affects_x(),
        affects_y: control.affects_y(),
    }
}

/// Exclusive or: `true` when exactly one of `a` and `b` is.
pub fn xor(a: bool, b: bool) -> (r: bool)
    ensures
        r == (a != b),
{
    a != b
}

} // verus!
