//! Sides of a node that handles and edges attach to.

use vstd::prelude::*;

verus! {

/// Side of a node a handle or an edge end sits on.
#[derive(Debug, Clone, Copy, PartialEq, Eq, Hash, Structural)]
pub enum Position {
    Left,
    Top,
    Right,
    Bottom,
}

/// The side facing `p`: left and right swap, top and bottom swap.
pub open spec fn spec_opposite(p: Position) -> Position {
    match p {
        Position::Left => Position::Right,
        Position::Right => Position::Left,
        Position::Top => Position::Bottom,
        Position::Bottom => Position::Top,
    }
}

impl Position {
    /// Returns the position on the opposite side of a handle/edge.
    pub fn opposite(self) -> (r: Position)
        ensures
            r == spec_opposite(self),
    {
        match self {
            Position::Left => Position::Right,
            Position::Right => Position::Left,
            Position::Top => Position::Bottom,
            Position::Bottom => Position::Top,
        }
    }
}

/// Free-standing form of [`Position::opposite`].
pub fn opposite_position(p: Position) -> (r: Position)
    ensures
        r == spec_opposite(p),
{
    p.opposite()
}

/// Taking the opposite side twice gives back the side one started from.
pub proof fn lemma_opposite_involution(p: Position)
    ensures
        spec_opposite(spec_opposite(p)) == p,
        spec_opposite(p) != p,
{
}

} // verus!
