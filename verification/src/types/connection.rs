//! Connections between handles and the connection-mode policy.

use vstd::prelude::*;
use crate::types::handles::HandleType;
use crate::types::lookup::StrMap;

verus! {

/// Minimal description of an edge between two nodes.
#[derive(Debug, PartialEq, Eq, Hash)]
pub struct Connection {
    /// Id of the node this connection originates from.
    pub source: String,
    /// Id of the node this connection terminates at.
    pub target: String,
    /// Id of the handle on the source node, when the node has several.
    pub source_handle: Option<String>,
    /// Id of the handle on the target node, when the node has several.
    pub target_handle: Option<String>,
}

/// A [`Connection`] together with the id of the edge it belongs to,
/// keyed by handle.
#[derive(Debug, PartialEq, Eq, Hash)]
pub struct HandleConnection {
    pub connection: Connection,
    pub edge_id: String,
}

/// Copy of an optional text that keeps its contents.
pub fn clone_opt_string(s: &Option<String>) -> (r: Option<String>)
    ensures
        r == *s,
{
    match s {
        Some(t) => Some(t.clone()),
        None => None,
    }
}

impl Clone for Connection {
    fn clone(&self) -> (r: Connection)
        ensures
            r == *self,
    {
        Connection {
            source: self.source.clone(),
            target: self.target.clone(),
            source_handle: clone_opt_string(&self.source_handle),
            target_handle: clone_opt_string(&self.target_handle),
        }
    }
}

impl Clone for HandleConnection {
    fn clone(&self) -> (r: HandleConnection)
        ensures
            r == *self,
    {
        HandleConnection { connection: self.connection.clone(), edge_id: self.edge_id.clone() }
    }
}

/// A [`Connection`] together with the id of the edge it belongs to,
/// keyed by node.
#[derive(Debug, Clone, PartialEq, Eq, Hash)]
pub struct NodeConnection {
    pub connection: Connection,
    pub edge_id: String,
}

/// Connection-mode policy: `Strict` only allows source-to-target edges,
/// `Loose` also allows source-to-source and target-to-target.
#[derive(Debug, Clone, Copy, PartialEq, Eq, Hash, Structural)]
pub enum ConnectionMode {
    Strict,
    Loose,
}

impl Default for ConnectionMode {
    fn default() -> (r: ConnectionMode)
        ensures
            r == ConnectionMode::Strict,
    {
        ConnectionMode::Strict
    }
}

/// Payload of the `on_connect_start` callback.
#[derive(Debug, Clone, PartialEq, Eq, Hash)]
pub struct OnConnectStartParams {
    pub node_id: Option<String>,
    pub handle_id: Option<String>,
    pub handle_type: Option<HandleType>,
}

impl Default for OnConnectStartParams {
    fn default() -> (r: OnConnectStartParams)
        ensures
            r.node_id is None,
            r.handle_id is None,
            r.handle_type is None,
    {
        OnConnectStartParams { node_id: None, handle_id: None, handle_type: None }
    }
}

/// Borrowed view handed to connection-validation predicates: either an
/// in-progress connection or the connection fields of an existing edge.
#[derive(Debug, Clone, Copy)]
pub enum EdgeOrConnection<'a> {
    /// In-progress connection (no edge id yet).
    Connection(&'a Connection),
    /// Existing edge.
    Edge {
        id: &'a str,
        source: &'a str,
        target: &'a str,
        source_handle: Option<&'a str>,
        target_handle: Option<&'a str>,
    },
}

/// Decides whether a candidate connection is acceptable. Implemented by
/// users of the library; the library only forwards its answer.
pub trait ConnectionValidator {
    /// The answer the validator gives for `candidate`. An implementation
    /// written outside verified code keeps this default: some answer that
    /// depends on the validator and the candidate, of which nothing more
    /// is known.
    closed spec fn accepts(&self, candidate: EdgeOrConnection) -> bool {
        vstd::pervasive::arbitrary::<spec_fn(&Self, EdgeOrConnection) -> bool>()(self, candidate)
    }

    /// `true` when `candidate` may become an edge.
    fn is_valid_connection(&self, candidate: EdgeOrConnection<'_>) -> (r: bool)
        ensures
            r == self.accepts(candidate),
    ;
}

/// Boxed validator, as stored on handle props and connection parameters.
pub type IsValidConnection = Box<dyn ConnectionValidator>;

/// `handle key -> HandleConnection` map kept for one node or handle.
pub type HandleConnectionMap = StrMap<HandleConnection>;

/// `node or handle key -> handle key -> HandleConnection` lookup used to
/// track every handle's currently connected edges.
pub type ConnectionLookup = StrMap<StrMap<HandleConnection>>;

} // verus!
