//! Handle kinds and the props a handle is declared with.

use vstd::prelude::*;
use crate::types::geometry::Position;
use crate::types::connection::IsValidConnection;

verus! {

/// Whether a handle initiates a connection (`Source`) or receives one
/// (`Target`).
#[derive(Debug, Clone, Copy, PartialEq, Eq, Hash, Structural)]
pub enum HandleType {
    Source,
    Target,
}

/// `Source` for `Target` and `Target` for `Source`.
pub open spec fn spec_opposite_type(t: HandleType) -> HandleType {
    match t {
        HandleType::Source => HandleType::Target,
        HandleType::Target => HandleType::Source,
    }
}

impl HandleType {
    /// Returns the opposite handle type.
    pub fn opposite(self) -> (r: HandleType)
        ensures
            r == spec_opposite_type(self),
    {
        match self {
            HandleType::Source => HandleType::Target,
            HandleType::Target => HandleType::Source,
        }
    }
}

/// The opposite of the opposite handle type is the type itself, and no
/// type is its own opposite.
pub proof fn lemma_opposite_type_involution(t: HandleType)
    ensures
        spec_opposite_type(spec_opposite_type(t)) == t,
        spec_opposite_type(t) != t,
{
}

/// User-facing handle props, used when declaring a handle inside a
/// custom node.
pub struct HandleProps {
    /// `Source` or `Target`.
    pub type_: HandleType,
    /// Side of the node the handle sits on.
    pub position: Position,
    /// Master toggle; `None` means enabled.
    pub is_connectable: Option<bool>,
    /// Whether a connection can start at this handle; `None` means yes.
    pub is_connectable_start: Option<bool>,
    /// Whether a connection can end at this handle; `None` means yes.
    pub is_connectable_end: Option<bool>,
    /// Optional per-handle validation predicate.
    pub is_valid_connection: Option<IsValidConnection>,
    /// Handle id; optional when only one handle of this type exists.
    pub id: Option<String>,
}

impl Default for HandleProps {
    /// A source handle on the top side with every flag unset.
    fn default() -> (r: HandleProps)
        ensures
            r.type_ == HandleType::Source,
            r.position == Position::Top,
            r.is_connectable is None,
            r.is_connectable_start is None,
            r.is_connectable_end is None,
            r.is_valid_connection is None,
            r.id is None,
    {
        HandleProps {
            type_: HandleType::Source,
            position: Position::Top,
            is_connectable: None,
            is_connectable_start: None,
            is_connectable_end: None,
            is_valid_connection: None,
            id: None,
        }
    }
}

} // verus!
