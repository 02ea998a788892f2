use rgraph_core::types::connection::{
    ConnectionMode, ConnectionValidator, EdgeOrConnection, IsValidConnection,
};
use rgraph_core::types::handles::HandleType;
use rgraph_core::types::geometry::Position;
use rgraph_core::xyhandle::{check_candidate, line_end, pointer_move_step, PointerMoveStep};
use rgraph_core::xyhandle::types::{HandleSnapshot, IsValidParams};
use rgraph_core::xyhandle::utils::{get_handle_type, is_connection_valid, locate_handle};

fn snap(node_id: &str, type_: HandleType, connectable: bool) -> HandleSnapshot {
    HandleSnapshot { node_id: node_id.into(), id: None, type_, connectable, connectable_end: true }
}

fn params<'a>(handle: Option<HandleSnapshot>, below: Option<HandleSnapshot>) -> IsValidParams<'a> {
    IsValidParams {
        handle,
        connection_mode: ConnectionMode::Strict,
        from_node_id: "a",
        from_handle_id: None,
        from_type: HandleType::Source,
        is_valid_connection: None,
        handle_below_pointer: below,
    }
}

#[test]
fn get_handle_type_prefers_edge_updater() {
    assert_eq!(get_handle_type(Some(HandleType::Source), None), Some(HandleType::Source));
    let snap = HandleSnapshot {
        node_id: "a".into(),
        id: None,
        type_: HandleType::Target,
        connectable: true,
        connectable_end: true,
    };
    assert_eq!(get_handle_type(None, Some(&snap)), Some(HandleType::Target));
    assert_eq!(get_handle_type(None, None), None);
}

#[test]
fn connection_validity_tri_state() {
    assert_eq!(is_connection_valid(true, true), Some(true));
    assert_eq!(is_connection_valid(true, false), Some(false));
    assert_eq!(is_connection_valid(false, false), None);
    assert_eq!(is_connection_valid(false, true), Some(true));
}

#[test]
fn strict_candidate_rejects_source_to_source() {
    let result = check_candidate(&params(Some(snap("b", HandleType::Source, true)), None));
    assert!(!result.is_valid);
    assert!(result.connection.is_some());
}

#[test]
fn strict_candidate_accepts_source_to_target() {
    let result = check_candidate(&params(Some(snap("b", HandleType::Target, true)), None));
    assert!(result.is_valid);
    let conn = result.connection.unwrap();
    assert_eq!(conn.source, "a");
    assert_eq!(conn.target, "b");
}

#[test]
fn candidate_below_pointer_wins() {
    let result = check_candidate(&params(
        Some(snap("b", HandleType::Target, true)),
        Some(snap("c", HandleType::Target, true)),
    ));
    assert!(result.is_valid);
    assert_eq!(result.connection.unwrap().target, "c");
    assert_eq!(result.considered_handle.unwrap().node_id, "c");
}

#[test]
fn non_connectable_candidate_rejected() {
    let result = check_candidate(&params(Some(snap("b", HandleType::Target, false)), None));
    assert!(!result.is_valid);
}

struct Never;

impl ConnectionValidator for Never {
    fn is_valid_connection(&self, _candidate: EdgeOrConnection<'_>) -> bool {
        false
    }
}

#[test]
fn user_predicate_can_reject() {
    let predicate: IsValidConnection = Box::new(Never);
    let mut p = params(Some(snap("b", HandleType::Target, true)), None);
    p.is_valid_connection = Some(&predicate);
    let result = check_candidate(&p);
    assert!(!result.is_valid);
}

#[test]
fn no_candidate_is_invalid() {
    let result = check_candidate(&params(None, None));
    assert!(!result.is_valid);
    assert!(result.connection.is_none());
    assert!(result.considered_handle.is_none());
}

#[test]
fn gesture_from_target_puts_candidate_at_source() {
    let mut p = params(Some(snap("b", HandleType::Source, true)), None);
    p.from_type = HandleType::Target;
    p.from_handle_id = Some("in");
    let result = check_candidate(&p);
    assert!(result.is_valid);
    let conn = result.connection.unwrap();
    assert_eq!(conn.source, "b");
    assert_eq!(conn.target, "a");
    assert_eq!(conn.target_handle.as_deref(), Some("in"));
}

#[test]
fn loose_mode_accepts_same_type_but_not_the_same_handle() {
    let mut p = params(Some(snap("b", HandleType::Source, true)), None);
    p.connection_mode = ConnectionMode::Loose;
    assert!(check_candidate(&p).is_valid);
    let mut q = params(Some(snap("a", HandleType::Source, true)), None);
    q.connection_mode = ConnectionMode::Loose;
    assert!(!check_candidate(&q).is_valid);
}

#[test]
fn locate_handle_by_id_in_strict_mode() {
    let source = vec![Some("h1".to_string()), Some("h2".to_string())];
    let target: Vec<Option<String>> = vec![];
    assert_eq!(
        locate_handle(&source, &target, HandleType::Source, Some("h2"), ConnectionMode::Strict),
        Some((HandleType::Source, 1))
    );
}

#[test]
fn locate_handle_loose_mode_searches_both_sides() {
    let source = vec![Some("h1".to_string())];
    let target: Vec<Option<String>> = vec![];
    assert_eq!(
        locate_handle(&source, &target, HandleType::Target, Some("h1"), ConnectionMode::Strict),
        None
    );
    assert_eq!(
        locate_handle(&source, &target, HandleType::Target, Some("h1"), ConnectionMode::Loose),
        Some((HandleType::Source, 0))
    );
}

#[test]
fn locate_handle_without_id_takes_first() {
    let source: Vec<Option<String>> = vec![];
    let target = vec![Some("t1".to_string()), None];
    assert_eq!(
        locate_handle(&source, &target, HandleType::Target, None, ConnectionMode::Strict),
        Some((HandleType::Target, 0))
    );
    assert_eq!(
        locate_handle(&source, &target, HandleType::Source, None, ConnectionMode::Strict),
        None
    );
    assert_eq!(
        locate_handle(&source, &target, HandleType::Source, None, ConnectionMode::Loose),
        Some((HandleType::Target, 0))
    );
}

use rgraph_core::xyhandle::release_actions;

#[test]
fn release_fires_connect_only_for_valid_close_candidate() {
    let r = release_actions(true, true, Some(true), false);
    assert!(r.connect && r.connect_end && !r.reconnect_end);
    let r = release_actions(true, false, Some(true), true);
    assert!(!r.connect && r.connect_end && r.reconnect_end);
    let r = release_actions(true, true, None, false);
    assert!(!r.connect);
    let r = release_actions(false, true, Some(true), true);
    assert!(!r.connect && !r.connect_end && !r.reconnect_end);
}

use rgraph_core::xyhandle::utils::prefer_opposite_type;

#[test]
fn tie_prefers_opposite_type() {
    assert_eq!(prefer_opposite_type(&[], HandleType::Source), None);
    assert_eq!(prefer_opposite_type(&[HandleType::Source], HandleType::Source), Some(0));
    assert_eq!(
        prefer_opposite_type(&[HandleType::Source, HandleType::Target, HandleType::Target], HandleType::Source),
        Some(1)
    );
    assert_eq!(
        prefer_opposite_type(&[HandleType::Source, HandleType::Source], HandleType::Source),
        Some(0)
    );
}

struct OnlyTo(&'static str);

impl ConnectionValidator for OnlyTo {
    fn is_valid_connection(&self, candidate: EdgeOrConnection<'_>) -> bool {
        match candidate {
            EdgeOrConnection::Connection(c) => c.target == self.0,
            EdgeOrConnection::Edge { target, .. } => target == self.0,
        }
    }
}

#[test]
fn user_predicate_sees_the_built_connection() {
    let predicate: IsValidConnection = Box::new(OnlyTo("b"));
    let mut p = params(Some(snap("b", HandleType::Target, true)), None);
    p.is_valid_connection = Some(&predicate);
    assert!(check_candidate(&p).is_valid);
    let mut q = params(Some(snap("c", HandleType::Target, true)), None);
    q.is_valid_connection = Some(&predicate);
    assert!(!check_candidate(&q).is_valid);
}

#[test]
fn pointer_move_waits_for_threshold_then_starts() {
    assert_eq!(pointer_move_step(false, true, true, true, true, true, false), PointerMoveStep::Ignore);
    assert_eq!(pointer_move_step(true, false, false, true, true, true, false), PointerMoveStep::Wait);
    assert_eq!(pointer_move_step(true, false, true, true, true, true, false), PointerMoveStep::Start);
}

#[test]
fn pointer_move_cancels_or_ends_without_its_inputs() {
    assert_eq!(pointer_move_step(true, true, true, false, true, false, false), PointerMoveStep::Cancel);
    assert_eq!(pointer_move_step(true, true, true, true, false, false, false), PointerMoveStep::End);
}

#[test]
fn auto_pan_starts_on_first_follow_only() {
    assert_eq!(
        pointer_move_step(true, true, false, true, true, true, false),
        PointerMoveStep::Follow { start_auto_pan: true }
    );
    assert_eq!(
        pointer_move_step(true, true, false, true, true, true, true),
        PointerMoveStep::Follow { start_auto_pan: false }
    );
    assert_eq!(
        pointer_move_step(true, true, false, true, true, false, false),
        PointerMoveStep::Follow { start_auto_pan: false }
    );
}

#[test]
fn line_snaps_only_to_a_valid_target_handle() {
    let snapped = line_end(true, Some(Position::Top), Position::Right);
    assert!(snapped.snaps);
    assert_eq!(snapped.position, Position::Top);
    let invalid = line_end(false, Some(Position::Top), Position::Right);
    assert!(!invalid.snaps);
    assert_eq!(invalid.position, Position::Left);
    let no_handle = line_end(true, None, Position::Bottom);
    assert!(!no_handle.snaps);
    assert_eq!(no_handle.position, Position::Top);
}
