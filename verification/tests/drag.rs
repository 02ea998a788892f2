use rgraph_core::types::lookup::StrMap;
use rgraph_core::xydrag::utils::{
    drag_event_accepted, get_drag_items, has_selector, is_parent_selected, DragNode,
};

fn node(id: &str) -> DragNode {
    DragNode { id: id.into(), parent_id: None, selected: None, draggable: None }
}

fn lookup_with(nodes: Vec<DragNode>) -> StrMap<DragNode> {
    let mut lookup = StrMap::new();
    for n in nodes {
        lookup.insert(n.id.clone(), n);
    }
    lookup
}

fn ids(lookup: &StrMap<DragNode>, picked: &[usize]) -> Vec<String> {
    picked.iter().map(|&i| lookup.key_at(i).clone()).collect()
}

#[test]
fn has_selector_finds_ancestor_class() {
    let ancestors = vec![vec!["nodrag".to_string()], vec!["pane".to_string()]];
    assert!(has_selector(&ancestors, "nodrag"));
    assert!(has_selector(&ancestors, ".nodrag"));
    assert!(!has_selector(&ancestors, "missing"));
    assert!(!has_selector(&ancestors, ""));
}

#[test]
fn is_parent_selected_walks_chain() {
    let mut grand = node("g");
    grand.selected = Some(true);
    let mut parent = node("p");
    parent.parent_id = Some("g".into());
    let mut child = node("c");
    child.parent_id = Some("p".into());
    let probe = DragNode { id: "c".into(), parent_id: Some("p".into()), selected: None, draggable: None };
    let lookup = lookup_with(vec![grand, parent, child]);
    assert!(is_parent_selected(&probe, &lookup));
}

#[test]
fn is_parent_selected_returns_false_for_orphan() {
    let n = node("o");
    let probe = node("o");
    let lookup = lookup_with(vec![n]);
    assert!(!is_parent_selected(&probe, &lookup));
}

#[test]
fn parent_chain_stops_at_missing_parent() {
    let mut child = node("c");
    child.parent_id = Some("ghost".into());
    let probe = DragNode { id: "c".into(), parent_id: Some("ghost".into()), selected: None, draggable: None };
    let lookup = lookup_with(vec![child]);
    assert!(!is_parent_selected(&probe, &lookup));
}

#[test]
fn drag_items_pick_target_node() {
    let mut a = node("a");
    a.draggable = Some(true);
    let lookup = lookup_with(vec![a]);
    let items = get_drag_items(&lookup, true, Some("a"));
    assert_eq!(ids(&lookup, &items), vec!["a"]);
}

#[test]
fn get_drag_items_picks_selected_nodes() {
    let mut a = node("a");
    a.selected = Some(true);
    let b = node("b");
    let lookup = lookup_with(vec![a, b]);
    let items = get_drag_items(&lookup, true, None);
    let picked = ids(&lookup, &items);
    assert!(picked.contains(&"a".to_string()));
    assert!(!picked.contains(&"b".to_string()));
}

#[test]
fn get_drag_items_skips_when_parent_selected() {
    let mut parent = node("p");
    parent.selected = Some(true);
    let mut child = node("c");
    child.selected = Some(true);
    child.parent_id = Some("p".into());
    let lookup = lookup_with(vec![parent, child]);
    let items = get_drag_items(&lookup, true, None);
    let picked = ids(&lookup, &items);
    assert!(picked.contains(&"p".to_string()));
    assert!(!picked.contains(&"c".to_string()));
}

#[test]
fn get_drag_items_respects_node_draggable_false() {
    let mut a = node("a");
    a.draggable = Some(false);
    let lookup = lookup_with(vec![a]);
    let items = get_drag_items(&lookup, true, Some("a"));
    assert!(items.is_empty());
}

#[test]
fn get_drag_items_respects_global_nodes_draggable() {
    let a = node("a");
    let lookup = lookup_with(vec![a]);
    let items_off = get_drag_items(&lookup, false, Some("a"));
    assert!(items_off.is_empty());
    let items_on = get_drag_items(&lookup, true, Some("a"));
    assert!(!items_on.is_empty());
}

#[test]
fn accept_event_blocks_no_drag_class() {
    assert!(drag_event_accepted(0, Some("nodrag"), None, &[]));
    assert!(!drag_event_accepted(0, Some("nodrag"), None, &[vec!["nodrag".to_string()]]));
    assert!(!drag_event_accepted(2, Some("nodrag"), None, &[]));
}

#[test]
fn accept_event_requires_handle_selector() {
    assert!(!drag_event_accepted(0, None, Some("custom-drag-handle"), &[]));
    assert!(drag_event_accepted(0, None, Some("custom-drag-handle"), &[vec!["custom-drag-handle".to_string()]]));
}
