use rgraph_core::types::connection::{
    Connection, ConnectionLookup, HandleConnection, HandleConnectionMap,
};
use rgraph_core::types::handles::HandleType;
use rgraph_core::utils::connections::{
    are_connection_maps_equal, connection_diff, get_connection_status, handle_connection_change,
};
use rgraph_core::utils::store::{
    add_connection_to_lookup, internals_update, is_manual_z, summarize_adopted_nodes,
    update_connection_lookup, AdoptedNodeFlags, InternalsUpdate,
};
use rgraph_core::types::viewport::ZIndexMode;

fn make_handle_conn(edge_id: &str) -> HandleConnection {
    HandleConnection {
        connection: Connection {
            source: "a".into(),
            target: "b".into(),
            source_handle: None,
            target_handle: None,
        },
        edge_id: edge_id.into(),
    }
}

fn edge(id: &str, source: &str, target: &str) -> HandleConnection {
    HandleConnection {
        connection: Connection {
            source: source.into(),
            target: target.into(),
            source_handle: None,
            target_handle: None,
        },
        edge_id: id.into(),
    }
}

#[test]
fn connection_status_strings() {
    assert_eq!(get_connection_status(Some(true)), Some("valid"));
    assert_eq!(get_connection_status(Some(false)), Some("invalid"));
    assert_eq!(get_connection_status(None), None);
}

#[test]
fn maps_equal_both_none() {
    assert!(are_connection_maps_equal(None, None));
}

#[test]
fn maps_unequal_when_one_is_none() {
    let m: HandleConnectionMap = HandleConnectionMap::new();
    assert!(!are_connection_maps_equal(Some(&m), None));
    assert!(!are_connection_maps_equal(None, Some(&m)));
}

#[test]
fn maps_equal_when_same_keys() {
    let mut a = HandleConnectionMap::new();
    a.insert("h1".to_string(), make_handle_conn("e1"));
    let mut b = HandleConnectionMap::new();
    b.insert("h1".to_string(), make_handle_conn("e2"));
    assert!(are_connection_maps_equal(Some(&a), Some(&b)));
}

#[test]
fn maps_unequal_when_different_keys() {
    let mut a = HandleConnectionMap::new();
    a.insert("h1".to_string(), make_handle_conn("e1"));
    let mut b = HandleConnectionMap::new();
    b.insert("h2".to_string(), make_handle_conn("e1"));
    assert!(!are_connection_maps_equal(Some(&a), Some(&b)));
}

#[test]
fn handle_connection_change_calls_cb_with_diff() {
    let mut a = HandleConnectionMap::new();
    a.insert("h1".to_string(), make_handle_conn("e1"));
    a.insert("h2".to_string(), make_handle_conn("e2"));
    let mut b = HandleConnectionMap::new();
    b.insert("h1".to_string(), make_handle_conn("e1"));
    let mut captured: Vec<HandleConnection> = Vec::new();
    handle_connection_change(
        &a,
        &b,
        Some(|diff: Vec<HandleConnection>| {
            captured = diff;
        }),
    );
    assert_eq!(captured.len(), 1);
    assert_eq!(captured[0].edge_id, "e2");
}

#[test]
fn handle_connection_change_no_op_when_empty_diff() {
    let mut a = HandleConnectionMap::new();
    a.insert("h1".to_string(), make_handle_conn("e1"));
    let mut b = HandleConnectionMap::new();
    b.insert("h1".to_string(), make_handle_conn("e1"));
    let mut called = false;
    handle_connection_change(
        &a,
        &b,
        Some(|_: Vec<HandleConnection>| {
            called = true;
        }),
    );
    assert!(!called);
}

#[test]
fn connection_diff_keeps_order_of_first_map() {
    let mut a = HandleConnectionMap::new();
    a.insert("h1".to_string(), make_handle_conn("e1"));
    a.insert("h2".to_string(), make_handle_conn("e2"));
    a.insert("h3".to_string(), make_handle_conn("e3"));
    let mut b = HandleConnectionMap::new();
    b.insert("h2".to_string(), make_handle_conn("e2"));
    let diff = connection_diff(&a, &b);
    let ids: Vec<&str> = diff.iter().map(|c| c.edge_id.as_str()).collect();
    assert_eq!(ids, vec!["e1", "e3"]);
}

#[test]
fn update_connection_lookup_indexes_keys() {
    let mut conn_lookup: ConnectionLookup = ConnectionLookup::new();
    let edges = vec![edge("e1", "a", "b")];
    update_connection_lookup(&mut conn_lookup, &edges);
    assert!(conn_lookup.contains_key("a"));
    assert!(conn_lookup.contains_key("a-source"));
    assert!(conn_lookup.contains_key("b"));
    assert!(conn_lookup.contains_key("b-target"));
    let outer = conn_lookup.get("a").unwrap();
    let inner_key = "b-null--a-null".to_string();
    assert!(outer.contains_key(&inner_key));
}

#[test]
fn update_connection_lookup_with_handles() {
    let mut conn_lookup: ConnectionLookup = ConnectionLookup::new();
    let mut e = edge("e1", "a", "b");
    e.connection.source_handle = Some("h1".into());
    e.connection.target_handle = Some("h2".into());
    update_connection_lookup(&mut conn_lookup, &[e]);
    assert!(conn_lookup.contains_key("a-source-h1"));
    assert!(conn_lookup.contains_key("b-target-h2"));
}

#[test]
fn update_connection_lookup_clears_previous() {
    let mut conn_lookup: ConnectionLookup = ConnectionLookup::new();
    update_connection_lookup(&mut conn_lookup, &[edge("e1", "a", "b")]);
    update_connection_lookup(&mut conn_lookup, &[]);
    assert!(conn_lookup.is_empty());
}

#[test]
fn connection_lookup_values_are_the_edges() {
    let mut conn_lookup: ConnectionLookup = ConnectionLookup::new();
    update_connection_lookup(&mut conn_lookup, &[edge("e1", "a", "b"), edge("e2", "a", "c")]);
    let a = conn_lookup.get("a-source").unwrap();
    assert_eq!(a.len(), 2);
    assert_eq!(a.get("b-null--a-null").unwrap().edge_id, "e1");
    assert_eq!(a.get("c-null--a-null").unwrap().edge_id, "e2");
    let b = conn_lookup.get("b").unwrap();
    assert_eq!(b.get("a-null--b-null").unwrap().edge_id, "e1");
    assert!(!conn_lookup.contains_key("a-target"));
}

#[test]
fn add_connection_to_lookup_fills_three_levels() {
    let mut lookup: ConnectionLookup = ConnectionLookup::new();
    let c = make_handle_conn("e1");
    add_connection_to_lookup(HandleType::Source, &c, "k", &mut lookup, "n", Some("h"));
    assert!(lookup.get("n").unwrap().contains_key("k"));
    assert!(lookup.get("n-source").unwrap().contains_key("k"));
    assert!(lookup.get("n-source-h").unwrap().contains_key("k"));
    assert_eq!(lookup.len(), 3);
}

#[test]
fn manual_z_only_for_manual_mode() {
    assert!(is_manual_z(ZIndexMode::Manual));
    assert!(!is_manual_z(ZIndexMode::Auto));
}

#[test]
fn read_after_write_in_lookup() {
    let mut m = HandleConnectionMap::new();
    m.insert("k".to_string(), make_handle_conn("e1"));
    m.insert("j".to_string(), make_handle_conn("e2"));
    m.insert("k".to_string(), make_handle_conn("e3"));
    assert_eq!(m.len(), 2);
    assert_eq!(m.get("k").unwrap().edge_id, "e3");
    assert_eq!(m.get("j").unwrap().edge_id, "e2");
    assert_eq!(m.key_at(0), "k");
    assert!(m.get("x").is_none());
}

#[test]
fn internals_update_clears_hidden_and_skips_zero_size() {
    assert_eq!(internals_update(true, false, true, false, true), InternalsUpdate::ClearHandleBounds);
    assert_eq!(internals_update(false, true, true, false, true), InternalsUpdate::Skip);
    assert_eq!(internals_update(false, false, false, true, false), InternalsUpdate::Skip);
}

#[test]
fn internals_update_measures_changed_unbounded_or_forced() {
    assert_eq!(internals_update(false, false, true, true, false), InternalsUpdate::Measure);
    assert_eq!(internals_update(false, false, false, false, false), InternalsUpdate::Measure);
    assert_eq!(internals_update(false, false, false, true, true), InternalsUpdate::Measure);
}

fn flags(measured: bool, hidden: bool, selected: bool) -> AdoptedNodeFlags {
    AdoptedNodeFlags { measured, hidden, selected }
}

#[test]
fn adopted_nodes_are_initialized_when_measured_or_hidden() {
    let r = summarize_adopted_nodes(&[flags(true, false, false), flags(false, true, true)]);
    assert!(r.nodes_initialized);
    assert!(r.has_selected_nodes);
    let r = summarize_adopted_nodes(&[flags(true, false, false), flags(false, false, false)]);
    assert!(!r.nodes_initialized);
    assert!(!r.has_selected_nodes);
}

#[test]
fn no_adopted_nodes_are_not_initialized() {
    let r = summarize_adopted_nodes(&[]);
    assert!(!r.nodes_initialized);
    assert!(!r.has_selected_nodes);
}
