//! Enumerations describing how edges and their toolbars are drawn.

use vstd::prelude::*;

verus! {

/// Style of connection line drawn while a new edge is being created.
#[derive(Debug, Clone, Copy, PartialEq, Eq, Hash, Structural)]
pub enum ConnectionLineType {
    Bezier,
    Straight,
    Step,
    SmoothStep,
    SimpleBezier,
}

impl Default for ConnectionLineType {
    fn default() -> (r: ConnectionLineType)
        ensures
            r == ConnectionLineType::Bezier,
    {
        ConnectionLineType::Bezier
    }
}

/// Built-in marker shapes.
#[derive(Debug, Clone, Copy, PartialEq, Eq, Hash, Structural)]
pub enum MarkerType {
    Arrow,
    ArrowClosed,
}

/// Horizontal alignment of the edge toolbar.
#[derive(Debug, Clone, Copy, PartialEq, Eq, Hash, Structural)]
pub enum AlignX {
    Left,
    Center,
    Right,
}

impl Default for AlignX {
    fn default() -> (r: AlignX)
        ensures
            r == AlignX::Center,
    {
        AlignX::Center
    }
}

/// Vertical alignment of the edge toolbar.
#[derive(Debug, Clone, Copy, PartialEq, Eq, Hash, Structural)]
pub enum AlignY {
    Top,
    Center,
    Bottom,
}

impl Default for AlignY {
    fn default() -> (r: AlignY)
        ensures
            r == AlignY::Center,
    {
        AlignY::Center
    }
}

} // verus!
