//! Plain descriptions of the handles a connection gesture looks at.

use vstd::prelude::*;
use crate::types::connection::{clone_opt_string, Connection, ConnectionMode, IsValidConnection};
use crate::types::handles::HandleType;

verus! {

/// What the validity check reads of a candidate handle: its node, id and
/// type, and the `connectable` / `connectableend` flags of its element.
#[derive(Debug, PartialEq, Eq)]
pub struct HandleSnapshot {
    pub node_id: String,
    pub id: Option<String>,
    pub type_: HandleType,
    /// The candidate carries the `connectable` class.
    pub connectable: bool,
    /// The candidate carries the `connectableend` class.
    pub connectable_end: bool,
}

impl Clone for HandleSnapshot {
    fn clone(&self) -> (r: HandleSnapshot)
        ensures
            r == *self,
    {
        HandleSnapshot {
            node_id: self.node_id.clone(),
            id: clone_opt_string(&self.id),
            type_: self.type_,
            connectable: self.connectable,
            connectable_end: self.connectable_end,
        }
    }
}

/// Inputs of the validity check of a connection gesture.
pub struct IsValidParams<'a> {
    /// The closest handle within the connection radius.
    pub handle: Option<HandleSnapshot>,
    pub connection_mode: ConnectionMode,
    /// Node the connection starts from.
    pub from_node_id: &'a str,
    /// Handle the connection starts from, when its node has several.
    pub from_handle_id: Option<&'a str>,
    pub from_type: HandleType,
    /// User predicate; `None` accepts every candidate.
    pub is_valid_connection: Option<&'a IsValidConnection>,
    /// Handle directly under the pointer, found by the caller's hit test.
    pub handle_below_pointer: Option<HandleSnapshot>,
}

/// Payload of the `on_connect_start` callback of a gesture.
#[derive(Debug)]
pub struct OnConnectStartArgs {
    pub node_id: String,
    pub handle_id: Option<String>,
    pub handle_type: HandleType,
}

impl Clone for OnConnectStartArgs {
    fn clone(&self) -> (r: OnConnectStartArgs)
        ensures
            r == *self,
    {
        OnConnectStartArgs {
            node_id: self.node_id.clone(),
            handle_id: clone_opt_string(&self.handle_id),
            handle_type: self.handle_type,
        }
    }
}

/// Outcome of checking the candidate handle of a gesture: whether it
/// makes a valid connection, the connection it would make, and the
/// candidate that was looked at.
#[derive(Debug)]
pub struct CandidateCheck {
    pub is_valid: bool,
    pub connection: Option<Connection>,
    pub considered_handle: Option<HandleSnapshot>,
}

} // verus!
