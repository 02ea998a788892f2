//! Connection gestures from a handle: which connection a candidate
//! handle would make, and whether that connection is valid.

pub mod types;
pub mod utils;

use vstd::prelude::*;
use crate::types::connection::{clone_opt_string, Connection, ConnectionMode, EdgeOrConnection};
use crate::types::geometry::{spec_opposite, Position};
use crate::types::handles::{spec_opposite_type, HandleType};
use crate::utils::text::{opt_as_str, opt_str_eq, opt_str_view, opt_string_view, str_eq};
use crate::xyhandle::types::{CandidateCheck, HandleSnapshot, IsValidParams};

verus! {

/// `c` joins the start of the gesture to the candidate `other`: the
/// candidate is the source end when the gesture started at a target
/// handle, and the target end otherwise.
pub open spec fn joins(
    c: Connection,
    from_node: Seq<char>,
    from_handle: Option<Seq<char>>,
    from_type: HandleType,
    other: HandleSnapshot,
) -> bool {
    if from_type == HandleType::Target {
        &&& c.source@ == other.node_id@
        &&& opt_string_view(c.source_handle) == opt_string_view(other.id)
        &&& c.target@ == from_node
        &&& opt_string_view(c.target_handle) == from_handle
    } else {
        &&& c.source@ == from_node
        &&& opt_string_view(c.source_handle) == from_handle
        &&& c.target@ == other.node_id@
        &&& opt_string_view(c.target_handle) == opt_string_view(other.id)
    }
}

/// The connection-mode rule: `Strict` joins only a source to a target;
/// `Loose` joins anything but a handle to itself.
pub open spec fn valid_under_mode(
    mode: ConnectionMode,
    from_node: Seq<char>,
    from_handle: Option<Seq<char>>,
    from_type: HandleType,
    other: HandleSnapshot,
) -> bool {
    match mode {
        ConnectionMode::Strict => other.type_ == spec_opposite_type(from_type),
        ConnectionMode::Loose => other.node_id@ != from_node || opt_string_view(other.id)
            != from_handle,
    }
}

/// The candidate is connectable at both flags and obeys the mode rule.
pub open spec fn structurally_valid(
    mode: ConnectionMode,
    from_node: Seq<char>,
    from_handle: Option<Seq<char>>,
    from_type: HandleType,
    other: HandleSnapshot,
) -> bool {
    other.connectable && other.connectable_end && valid_under_mode(
        mode,
        from_node,
        from_handle,
        from_type,
        other,
    )
}

/// Candidate looked at: the handle under the pointer wins over the
/// closest handle.
pub open spec fn considered(params: IsValidParams) -> Option<HandleSnapshot> {
    match params.handle_below_pointer {
        Some(h) => Some(h),
        None => params.handle,
    }
}

/// Validity of a candidate once the user predicate has answered
/// `predicate_ok` (`true` when there is no predicate).
pub fn handle_validity(
    other: &HandleSnapshot,
    mode: ConnectionMode,
    from_node_id: &str,
    from_handle_id: Option<&str>,
    from_type: HandleType,
    predicate_ok: bool,
) -> (r: bool)
    ensures
        r == (structurally_valid(mode, from_node_id@, opt_str_view(from_handle_id), from_type, *other)
            && predicate_ok),
        r ==> other.connectable && other.connectable_end && predicate_ok,
{
    let is_connectable = other.connectable && other.connectable_end;
    let valid_under_mode = match mode {
        ConnectionMode::Strict => match (from_type, other.type_) {
            (HandleType::Target, HandleType::Source) => true,
            (HandleType::Source, HandleType::Target) => true,
            _ => false,
        },
        ConnectionMode::Loose => !str_eq(other.node_id.as_str(), from_node_id) || !opt_str_eq(
            opt_as_str(&other.id),
            from_handle_id,
        ),
    };
    is_connectable && valid_under_mode && predicate_ok
}

fn join(
    from_node_id: &str,
    from_handle_id: Option<&str>,
    from_type: HandleType,
    other: &HandleSnapshot,
) -> (c: Connection)
    ensures
        joins(c, from_node_id@, opt_str_view(from_handle_id), from_type, *other),
{
    let from_node = String::from_str(from_node_id);
    let from_handle = match from_handle_id {
        Some(h) => Some(String::from_str(h)),
        None => None,
    };
    match from_type {
        HandleType::Target => Connection {
            source: other.node_id.clone(),
            source_handle: clone_opt_string(&other.id),
            target: from_node,
            target_handle: from_handle,
        },
        HandleType::Source => Connection {
            source: from_node,
            source_handle: from_handle,
            target: other.node_id.clone(),
            target_handle: clone_opt_string(&other.id),
        },
    }
}

/// Check the candidate of a gesture: the handle under the pointer, or
/// else the closest one. With no candidate nothing is valid. Otherwise
/// the connection joining the gesture's start to the candidate is built
/// (also when it is invalid), the user predicate, when there is one, is
/// asked about it, and the candidate is valid when it is connectable,
/// obeys the connection mode and the predicate accepts the connection.
pub fn check_candidate(params: &IsValidParams) -> (r: CandidateCheck)
    ensures
        r.considered_handle == considered(*params),
        r.considered_handle is None ==> !r.is_valid && r.connection is None,
        r.considered_handle matches Some(h) ==> (r.connection matches Some(c) && joins(
            c,
            params.from_node_id@,
            opt_str_view(params.from_handle_id),
            params.from_type,
            h,
        )),
        r.considered_handle matches Some(h) ==> (r.is_valid ==> h.connectable && h.connectable_end),
        r.considered_handle matches Some(h) ==> (r.is_valid ==> structurally_valid(
            params.connection_mode,
            params.from_node_id@,
            opt_str_view(params.from_handle_id),
            params.from_type,
            h,
        )),
        r.considered_handle matches Some(h) ==> (params.is_valid_connection is None ==> (r.is_valid
            == structurally_valid(
            params.connection_mode,
            params.from_node_id@,
            opt_str_view(params.from_handle_id),
            params.from_type,
            h,
        ))),
        r.considered_handle matches Some(h) ==> (params.is_valid_connection matches Some(v) ==> (
        r.connection matches Some(c) && r.is_valid == (structurally_valid(
            params.connection_mode,
            params.from_node_id@,
            opt_str_view(params.from_handle_id),
            params.from_type,
            h,
        ) && v.accepts(EdgeOrConnection::Connection(&c))))),
{
    let candidate = match &params.handle_below_pointer {
        Some(h) => Some(h.clone()),
        None => match &params.handle {
            Some(h) => Some(h.clone()),
            None => None,
        },
    };
    match candidate {
        None => CandidateCheck { is_valid: false, connection: None, considered_handle: None },
        Some(other) => {
            let connection = join(
                params.from_node_id,
                params.from_handle_id,
                params.from_type,
                &other,
            );
            let predicate_ok = match params.is_valid_connection {
                Some(v) => v.is_valid_connection(EdgeOrConnection::Connection(&connection)),
                None => true,
            };
            let is_valid = handle_validity(
                &other,
                params.connection_mode,
                params.from_node_id,
                params.from_handle_id,
                params.from_type,
                predicate_ok,
            );
            CandidateCheck {
                is_valid,
                connection: Some(connection),
                considered_handle: Some(other),
            }
        },
    }
}

/// Callbacks to fire when the pointer is released.
#[derive(Debug, Clone, Copy, PartialEq, Eq, Structural)]
pub struct ReleaseActions {
    /// Fire `on_connect` with the candidate connection.
    pub connect: bool,
    /// Fire `on_connect_end`.
    pub connect_end: bool,
    /// Fire `on_reconnect_end` (the gesture moves an edge end).
    pub reconnect_end: bool,
}

/// What releasing the pointer fires: nothing when the gesture never
/// started; otherwise the end callbacks, and `on_connect` only when a
/// handle was close and the candidate was valid.
pub fn release_actions(
    connection_started: bool,
    has_close_handle: bool,
    candidate_is_valid: Option<bool>,
    edge_updater: bool,
) -> (r: ReleaseActions)
    ensures
        r.connect == (connection_started && has_close_handle && candidate_is_valid == Some(true)),
        r.connect_end == connection_started,
        r.reconnect_end == (connection_started && edge_updater),
{
    if !connection_started {
        return ReleaseActions { connect: false, connect_end: false, reconnect_end: false };
    }
    let connect = has_close_handle && match candidate_is_valid {
        Some(v) => v,
        None => false,
    };
    ReleaseActions { connect, connect_end: true, reconnect_end: edge_updater }
}

/// What one pointer move does to a connection gesture.
#[derive(Debug, Clone, Copy, PartialEq, Eq, Structural)]
pub enum PointerMoveStep {
    /// No gesture is in progress: the move is not handled.
    Ignore,
    /// The drag threshold is not crossed yet: keep waiting.
    Wait,
    /// The threshold was crossed by this move: the connection starts.
    Start,
    /// A provider of the source handle, the transform or the node lookup
    /// is missing: the gesture is cancelled.
    Cancel,
    /// The source handle is gone: the gesture ends as on pointer release.
    End,
    /// The connection line follows the pointer; auto-pan starts with this
    /// move when asked for and not yet running.
    Follow { start_auto_pan: bool },
}

/// The step a pointer move takes, from the gesture's flags.
pub open spec fn spec_pointer_move_step(
    in_progress: bool,
    connection_started: bool,
    threshold_crossed: bool,
    providers_present: bool,
    from_handle_present: bool,
    auto_pan_on_connect: bool,
    auto_pan_started: bool,
) -> PointerMoveStep {
    if !in_progress {
        PointerMoveStep::Ignore
    } else if !connection_started {
        if threshold_crossed { PointerMoveStep::Start } else { PointerMoveStep::Wait }
    } else if !providers_present {
        PointerMoveStep::Cancel
    } else if !from_handle_present {
        PointerMoveStep::End
    } else {
        PointerMoveStep::Follow { start_auto_pan: auto_pan_on_connect && !auto_pan_started }
    }
}

/// Decides what a pointer move does to a connection gesture. A move is
/// handled (the caller answers `true`) for `Wait`, `Start` and `Follow`.
pub fn pointer_move_step(
    in_progress: bool,
    connection_started: bool,
    threshold_crossed: bool,
    providers_present: bool,
    from_handle_present: bool,
    auto_pan_on_connect: bool,
    auto_pan_started: bool,
) -> (r: PointerMoveStep)
    ensures
        r == spec_pointer_move_step(
            in_progress,
            connection_started,
            threshold_crossed,
            providers_present,
            from_handle_present,
            auto_pan_on_connect,
            auto_pan_started,
        ),
{
    if !in_progress {
        PointerMoveStep::Ignore
    } else if !connection_started {
        if threshold_crossed {
            PointerMoveStep::Start
        } else {
            PointerMoveStep::Wait
        }
    } else if !providers_present {
        PointerMoveStep::Cancel
    } else if !from_handle_present {
        PointerMoveStep::End
    } else {
        PointerMoveStep::Follow { start_auto_pan: auto_pan_on_connect && !auto_pan_started }
    }
}

/// Whether the connection line snaps to the target handle: only when the
/// candidate is valid and a target handle was found; otherwise it ends at
/// the pointer.
pub open spec fn snaps_to_handle(is_valid: bool, to_handle_position: Option<Position>) -> bool {
    is_valid && to_handle_position is Some
}

/// Where the connection line ends.
#[derive(Debug, Clone, Copy, PartialEq, Eq, Structural)]
pub struct LineEnd {
    /// The line ends on the target handle rather than at the pointer.
    pub snaps: bool,
    /// Side the line ends on.
    pub position: Position,
}

/// Where the connection line ends: on the target handle, on its side,
/// when it snaps to that handle; else at the pointer, on the side
/// opposite the source handle.
pub fn line_end(
    is_valid: bool,
    to_handle_position: Option<Position>,
    from_position: Position,
) -> (r: LineEnd)
    ensures
        r.snaps == snaps_to_handle(is_valid, to_handle_position),
        r.position == (if snaps_to_handle(is_valid, to_handle_position) {
            to_handle_position->0
        } else {
            spec_opposite(from_position)
        }),
{
    match to_handle_position {
        Some(p) if is_valid => LineEnd { snaps: true, position: p },
        _ => LineEnd { snaps: false, position: from_position.opposite() },
    }
}

/// Auto-pan starts at most once per gesture: once it runs, no later
/// pointer move starts it again.
pub proof fn lemma_auto_pan_starts_once(
    in_progress: bool,
    connection_started: bool,
    threshold_crossed: bool,
    providers_present: bool,
    from_handle_present: bool,
    auto_pan_on_connect: bool,
)
    ensures
        spec_pointer_move_step(
            in_progress,
            connection_started,
            threshold_crossed,
            providers_present,
            from_handle_present,
            auto_pan_on_connect,
            true,
        ) != (PointerMoveStep::Follow { start_auto_pan: true }),
{
}

/// Only a handle that accepts connections, and accepts them ending on it,
/// can complete a connection: a candidate without either flag is never
/// structurally valid, in either mode.
pub proof fn lemma_valid_candidate_is_connectable(
    mode: ConnectionMode,
    from_node: Seq<char>,
    from_handle: Option<Seq<char>>,
    from_type: HandleType,
    other: HandleSnapshot,
)
    ensures
        !other.connectable ==> !structurally_valid(mode, from_node, from_handle, from_type, other),
        !other.connectable_end ==> !structurally_valid(mode, from_node, from_handle, from_type, other),
{
}

/// In `Strict` mode a connection always joins a source to a target.
pub proof fn lemma_strict_joins_opposite_types(
    from_node: Seq<char>,
    from_handle: Option<Seq<char>>,
    from_type: HandleType,
    other: HandleSnapshot,
)
    requires
        structurally_valid(ConnectionMode::Strict, from_node, from_handle, from_type, other),
    ensures
        other.type_ != from_type,
{
}

/// In `Loose` mode a handle is never connected to itself.
pub proof fn lemma_loose_never_joins_a_handle_to_itself(
    from_node: Seq<char>,
    from_handle: Option<Seq<char>>,
    from_type: HandleType,
    other: HandleSnapshot,
)
    requires
        structurally_valid(ConnectionMode::Loose, from_node, from_handle, from_type, other),
    ensures
        !(other.node_id@ == from_node && opt_string_view(other.id) == from_handle),
{
}

} // verus!
