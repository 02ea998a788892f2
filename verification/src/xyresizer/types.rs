//! Resize controls, their positions and directions.

use vstd::prelude::*;

verus! {

/// Direction of a resize along each axis: -1, 0 or 1.
#[derive(Debug, Clone, Copy, PartialEq, Eq, Structural)]
pub struct ResizeDirection {
    pub x: i8,
    pub y: i8,
}

impl Default for ResizeDirection {
    fn default() -> (r: ResizeDirection)
        ensures
            r.x == 0,
            r.y == 0,
    {
        ResizeDirection { x: 0, y: 0 }
    }
}

impl ResizeDirection {
    /// The direction as `[x, y]`.
    pub fn as_array(&self) -> (r: [i8; 2])
        ensures
            r@ == seq![self.x, self.y],
    {
        [self.x, self.y]
    }
}

/// Where a resize control sits on the node.
#[derive(Debug, Clone, Copy, PartialEq, Eq, Hash, Structural)]
pub enum ControlPosition {
    Top,
    Bottom,
    Left,
    Right,
    TopLeft,
    TopRight,
    BottomLeft,
    BottomRight,
}

/// The control changes the width: a side or a corner.
pub open spec fn spec_is_horizontal(c: ControlPosition) -> bool {
    !(c == ControlPosition::Top || c == ControlPosition::Bottom)
}

/// The control changes the height: top, bottom or a corner.
pub open spec fn spec_is_vertical(c: ControlPosition) -> bool {
    !(c == ControlPosition::Left || c == ControlPosition::Right)
}

/// The control moves the left edge, so the x position changes too.
pub open spec fn spec_affects_x(c: ControlPosition) -> bool {
    c == ControlPosition::Left || c == ControlPosition::TopLeft || c == ControlPosition::BottomLeft
}

/// The control moves the top edge, so the y position changes too.
pub open spec fn spec_affects_y(c: ControlPosition) -> bool {
    c == ControlPosition::Top || c == ControlPosition::TopLeft || c == ControlPosition::TopRight
}

impl ControlPosition {
    /// `true` for the left and right sides and the four corners.
    pub fn is_horizontal(self) -> (r: bool)
        ensures
            r == spec_is_horizontal(self),
    {
        match self {
            ControlPosition::Top | ControlPosition::Bottom => false,
            _ => true,
        }
    }

    /// `true` for the top and bottom sides and the four corners.
    pub fn is_vertical(self) -> (r: bool)
        ensures
            r == spec_is_vertical(self),
    {
        match self {
            ControlPosition::Left | ControlPosition::Right => false,
            _ => true,
        }
    }

    /// `true` for the left side and the two left corners.
    pub fn affects_x(self) -> (r: bool)
        ensures
            r == spec_affects_x(self),
    {
        match self {
            ControlPosition::Left | ControlPosition::TopLeft | ControlPosition::BottomLeft => true,
            _ => false,
        }
    }

    /// `true` for the top side and the two top corners.
    pub fn affects_y(self) -> (r: bool)
        ensures
            r == spec_affects_y(self),
    {
        match self {
            ControlPosition::Top | ControlPosition::TopLeft | ControlPosition::TopRight => true,
            _ => false,
        }
    }
}

/// A control that moves the x position also changes the width, one that
/// moves the y position also changes the height, and every control
/// changes at least one dimension; exactly the corners change both.
pub proof fn lemma_control_consistency(c: ControlPosition)
    ensures
        spec_affects_x(c) ==> spec_is_horizontal(c),
        spec_affects_y(c) ==> spec_is_vertical(c),
        spec_is_horizontal(c) || spec_is_vertical(c),
        (spec_is_horizontal(c) && spec_is_vertical(c)) <==> (c == ControlPosition::TopLeft || c
            == ControlPosition::TopRight || c == ControlPosition::BottomLeft || c
            == ControlPosition::BottomRight),
{
}

/// What a control changes, computed once per gesture.
#[derive(Debug, Clone, Copy, PartialEq, Eq, Structural)]
pub struct ControlDirection {
    pub is_horizontal: bool,
    pub is_vertical: bool,
    pub affects_x: bool,
    pub affects_y: bool,
}

impl Default for ControlDirection {
    fn default() -> (r: ControlDirection)
        ensures
            !r.is_horizontal,
            !r.is_vertical,
            !r.affects_x,
            !r.affects_y,
    {
        ControlDirection {
            is_horizontal: false,
            is_vertical: false,
            affects_x: false,
            affects_y: false,
        }
    }
}

/// How a resize control is drawn.
#[derive(Debug, Clone, Copy, PartialEq, Eq, Hash, Structural)]
pub enum ResizeControlVariant {
    Line,
    Handle,
}

/// Axis a resize control is restricted to.
#[derive(Debug, Clone, Copy, PartialEq, Eq, Hash, Structural)]
pub enum ResizeControlDirection {
    Horizontal,
    Vertical,
}

/// Positions of the corner handles.
pub const XY_RESIZER_HANDLE_POSITIONS: [ControlPosition; 4] = [
    ControlPosition::TopLeft,
    ControlPosition::TopRight,
    ControlPosition::BottomLeft,
    ControlPosition::BottomRight,
];

/// Positions of the side lines.
pub const XY_RESIZER_LINE_POSITIONS: [ControlPosition; 4] = [
    ControlPosition::Top,
    ControlPosition::Right,
    ControlPosition::Bottom,
    ControlPosition::Left,
];

} // verus!
