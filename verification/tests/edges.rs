use rgraph_core::types::connection::Connection;
use rgraph_core::utils::edges::general::{
    add_edge, add_edge_in_place, get_edge_id, handles_match, reconnect_edge, AddEdgeInput,
    AddEdgeOptions, EdgeIdGenerator, EdgeRecord, ReconnectEdgeOptions,
};

fn conn(source: &str, target: &str) -> Connection {
    Connection {
        source: source.into(),
        target: target.into(),
        source_handle: None,
        target_handle: None,
    }
}

fn minimal(id: &str, source: &str, target: &str) -> EdgeRecord<()> {
    EdgeRecord { id: id.into(), ends: conn(source, target), attrs: () }
}

#[test]
fn default_edge_id_format() {
    let id = get_edge_id(&Connection {
        source: "a".into(),
        target: "b".into(),
        source_handle: None,
        target_handle: None,
    });
    assert_eq!(id, "xy-edge__a-b");
    let id2 = get_edge_id(&Connection {
        source: "a".into(),
        target: "b".into(),
        source_handle: Some("h1".into()),
        target_handle: Some("h2".into()),
    });
    assert_eq!(id2, "xy-edge__ah1-bh2");
}

#[test]
fn edge_id_deterministic() {
    let id_a = get_edge_id(&rgraph_core::types::connection::Connection {
        source: "a".into(),
        target: "b".into(),
        source_handle: None,
        target_handle: None,
    });
    let id_b = get_edge_id(&rgraph_core::types::connection::Connection {
        source: "a".into(),
        target: "b".into(),
        source_handle: None,
        target_handle: None,
    });
    assert_eq!(id_a, id_b);
    assert_eq!(id_a, "xy-edge__a-b");
}

#[test]
fn add_edge_skips_duplicates() {
    let mut edges: Vec<EdgeRecord<()>> = Vec::new();
    let a = minimal("e1", "a", "b");
    assert!(add_edge_in_place(AddEdgeInput::Edge(a), &mut edges, AddEdgeOptions::default()));
    assert_eq!(edges.len(), 1);
    let b = minimal("e2", "a", "b");
    assert!(!add_edge_in_place(AddEdgeInput::Edge(b), &mut edges, AddEdgeOptions::default()));
    assert_eq!(edges.len(), 1);
}

#[test]
fn add_edge_from_connection_generates_id() {
    let mut edges: Vec<EdgeRecord<()>> = Vec::new();
    let c = conn("a", "b");
    assert!(add_edge_in_place(AddEdgeInput::Connection(c, ()), &mut edges, AddEdgeOptions::default()));
    assert_eq!(edges[0].id, "xy-edge__a-b");
}

#[test]
fn add_edge_rejects_empty_endpoints() {
    let mut edges: Vec<EdgeRecord<()>> = Vec::new();
    let bad = minimal("e1", "", "b");
    assert!(!add_edge_in_place(AddEdgeInput::Edge(bad), &mut edges, AddEdgeOptions::default()));
    assert!(edges.is_empty());
}

#[test]
fn reconnect_edge_replaces_endpoints() {
    let edges: Vec<EdgeRecord<()>> = vec![minimal("xy-edge__a-b", "a", "b")];
    let new_c = conn("a", "c");
    let old = minimal("xy-edge__a-b", "a", "b");
    let updated = reconnect_edge(&old, new_c, edges, ReconnectEdgeOptions::default());
    assert_eq!(updated.len(), 1);
    assert_eq!(updated[0].ends.source, "a");
    assert_eq!(updated[0].ends.target, "c");
    assert_eq!(updated[0].id, "xy-edge__a-c");
}

#[test]
fn reconnect_edge_preserves_id_when_requested() {
    let edges: Vec<EdgeRecord<()>> = vec![minimal("custom-id", "a", "b")];
    let old = minimal("custom-id", "a", "b");
    let updated = reconnect_edge(
        &old,
        conn("a", "c"),
        edges,
        ReconnectEdgeOptions { should_replace_id: false, get_edge_id: None },
    );
    assert_eq!(updated[0].id, "custom-id");
}

#[test]
fn reconnect_edge_no_op_when_old_missing() {
    let stranger = minimal("not-in-list", "a", "b");
    let edges: Vec<EdgeRecord<()>> = vec![minimal("real", "x", "y")];
    let updated = reconnect_edge(&stranger, conn("a", "c"), edges, ReconnectEdgeOptions::default());
    assert_eq!(updated, vec![minimal("real", "x", "y")]);
}

#[test]
fn handles_match_cases() {
    assert!(handles_match(&None, &None));
    assert!(handles_match(&Some("h".to_string()), &Some("h".to_string())));
    assert!(!handles_match(&Some("h".to_string()), &None));
    assert!(!handles_match(&Some("h".to_string()), &Some("g".to_string())));
}

#[test]
fn same_nodes_through_other_handles_are_not_duplicates() {
    let mut edges = vec![minimal("e1", "a", "b")];
    let mut c = conn("a", "b");
    c.source_handle = Some("h1".into());
    assert!(add_edge_in_place(AddEdgeInput::Connection(c, ()), &mut edges, AddEdgeOptions::default()));
    assert_eq!(edges.len(), 2);
    assert_eq!(edges[1].id, "xy-edge__ah1-b");
}

#[test]
fn adding_the_same_connection_twice_adds_once() {
    let edges: Vec<EdgeRecord<u8>> = Vec::new();
    let edges = add_edge(AddEdgeInput::Connection(conn("a", "b"), 1), edges, AddEdgeOptions::default());
    let edges = add_edge(AddEdgeInput::Connection(conn("a", "b"), 2), edges, AddEdgeOptions::default());
    assert_eq!(edges.len(), 1);
    assert_eq!(edges[0].attrs, 1);
}

struct Prefixed;

impl EdgeIdGenerator for Prefixed {
    fn edge_id(&self, connection: &Connection) -> String {
        format!("custom-{}-{}", connection.source, connection.target)
    }
}

#[test]
fn custom_id_generator_is_used() {
    let mut edges: Vec<EdgeRecord<()>> = Vec::new();
    let options = AddEdgeOptions { get_edge_id: Some(Box::new(Prefixed)) };
    assert!(add_edge_in_place(AddEdgeInput::Connection(conn("a", "b"), ()), &mut edges, options));
    assert_eq!(edges[0].id, "custom-a-b");
}

#[test]
fn reconnect_keeps_other_edges_in_order_and_appends_moved_edge() {
    let edges = vec![minimal("e1", "a", "b"), minimal("e2", "b", "c"), minimal("e3", "c", "d")];
    let old = minimal("e2", "b", "c");
    let updated = reconnect_edge(&old, conn("b", "d"), edges, ReconnectEdgeOptions::default());
    let ids: Vec<&str> = updated.iter().map(|e| e.id.as_str()).collect();
    assert_eq!(ids, vec!["e1", "e3", "xy-edge__b-d"]);
}

#[test]
fn reconnect_to_empty_endpoint_is_no_op() {
    let edges = vec![minimal("e1", "a", "b")];
    let old = minimal("e1", "a", "b");
    let updated = reconnect_edge(&old, conn("", "b"), edges, ReconnectEdgeOptions::default());
    assert_eq!(updated, vec![minimal("e1", "a", "b")]);
}

#[test]
fn reconnect_uses_custom_id_generator() {
    let edges = vec![minimal("e1", "a", "b")];
    let old = minimal("e1", "a", "b");
    let options = ReconnectEdgeOptions { should_replace_id: true, get_edge_id: Some(Box::new(Prefixed)) };
    let updated = reconnect_edge(&old, conn("a", "c"), edges, options);
    assert_eq!(updated[0].id, "custom-a-c");
}
