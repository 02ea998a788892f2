//! Drag helpers: selector tests on the ancestors of the event target.

use vstd::prelude::*;
use vstd::string::*;
use crate::types::connection::clone_opt_string;
use crate::types::lookup::StrMap;
use crate::utils::graph::indices_where;
use crate::utils::text::{opt_str_view, opt_string_view, str_eq};

verus! {

/// Class a selector names: the selector without one leading `.`.
pub open spec fn selector_class(selector: Seq<char>) -> Seq<char> {
    if selector.len() > 0 && selector[0] == '.' {
        selector.drop_first()
    } else {
        selector
    }
}

/// Some ancestor's class list holds the class `class`.
pub open spec fn some_ancestor_has(lists: Seq<Vec<String>>, class: Seq<char>) -> bool {
    exists|i: int, j: int|
        0 <= i < lists.len() && 0 <= j < lists[i]@.len() && #[trigger] lists[i]@[j]@ == class
}

fn list_has(classes: &Vec<String>, class: &str) -> (r: bool)
    ensures
        r == exists|j: int| 0 <= j < classes@.len() && #[trigger] classes@[j]@ == class@,
{
    let mut j: usize = 0;
    while j < classes.len()
        invariant
            j <= classes@.len(),
            forall|k: int| 0 <= k < j ==> classes@[k]@ != class@,
        decreases classes@.len() - j,
    {
        if str_eq(classes[j].as_str(), class) {
            assert(classes@[j as int]@ == class@);
            return true;
        }
        j = j + 1;
    }
    false
}

/// `true` when the class named by `selector` (a class name, with or
/// without its leading `.`) is on one of the ancestors, listed from the
/// event target up to the container. An empty selector matches nothing.
pub fn has_selector(ancestor_class_lists: &[Vec<String>], selector: &str) -> (r: bool)
    ensures
        r == (selector@.len() > 0 && some_ancestor_has(
            ancestor_class_lists@,
            selector_class(selector@),
        )),
{
    let n = selector.unicode_len();
    if n == 0 {
        return false;
    }
    let class = if selector.get_char(0) == '.' {
        selector.substring_char(1, n)
    } else {
        selector
    };
    proof {
        assert(class@ == selector_class(selector@));
    }
    let mut i: usize = 0;
    while i < ancestor_class_lists.len()
        invariant
            i <= ancestor_class_lists@.len(),
            selector@.len() > 0,
            class@ == selector_class(selector@),
            forall|a: int, j: int|
                0 <= a < i && 0 <= j < ancestor_class_lists@[a]@.len() ==> #[trigger] ancestor_class_lists@[a]@[j]@
                    != class@,
        decreases ancestor_class_lists@.len() - i,
    {
        if list_has(&ancestor_class_lists[i], class) {
            proof {
                let ii = i as int;
                let j = choose|j: int|
                    0 <= j < ancestor_class_lists@[ii]@.len() && #[trigger] ancestor_class_lists@[ii]@[j]@
                        == class@;
                assert(ancestor_class_lists@[ii]@[j]@ == class@);
            }
            return true;
        }
        i = i + 1;
    }
    false
}

/// What dragging reads of a node.
#[derive(Debug, PartialEq, Eq)]
pub struct DragNode {
    pub id: String,
    pub parent_id: Option<String>,
    pub selected: Option<bool>,
    /// `None` follows the flow-wide setting.
    pub draggable: Option<bool>,
}

/// Walking up from `parent` through `m`, at most `fuel` steps past the
/// first: `Some(true)` when a selected ancestor is met, `Some(false)`
/// when the chain ends (no parent, or a parent id not in `m`) first, and
/// `None` when the fuel runs out.
pub open spec fn selected_ancestor(
    m: Map<Seq<char>, DragNode>,
    parent: Option<Seq<char>>,
    fuel: nat,
) -> Option<bool>
    decreases fuel,
{
    match parent {
        None => Some(false),
        Some(p) => if !m.contains_key(p) {
            Some(false)
        } else if m[p].selected == Some(true) {
            Some(true)
        } else if fuel == 0 {
            None
        } else {
            selected_ancestor(m, opt_string_view(m[p].parent_id), (fuel - 1) as nat)
        },
    }
}

/// The walk up from `parent` reaches a selected ancestor or the end of
/// the chain: no cycle of unselected nodes is met.
pub open spec fn chain_ends(m: Map<Seq<char>, DragNode>, parent: Option<Seq<char>>) -> bool {
    exists|f: nat| #[trigger] selected_ancestor(m, parent, f) is Some
}

/// Some ancestor reached from `parent` is selected.
pub open spec fn parent_selected(m: Map<Seq<char>, DragNode>, parent: Option<Seq<char>>) -> bool {
    exists|f: nat| #[trigger] selected_ancestor(m, parent, f) == Some(true)
}

/// Once the walk has an answer, more fuel gives the same answer.
pub proof fn lemma_walk_answer_stable(
    m: Map<Seq<char>, DragNode>,
    parent: Option<Seq<char>>,
    f1: nat,
    f2: nat,
)
    requires
        selected_ancestor(m, parent, f1) is Some,
        f1 <= f2,
    ensures
        selected_ancestor(m, parent, f2) == selected_ancestor(m, parent, f1),
    decreases f1,
{
    if let Some(p) = parent {
        if m.contains_key(p) && m[p].selected != Some(true) {
            lemma_walk_answer_stable(m, opt_string_view(m[p].parent_id), (f1 - 1) as nat, (f2 - 1) as nat);
        }
    }
}

/// `true` when an ancestor of `node` (its parent, the parent's parent,
/// and so on, as found in `node_lookup`) is selected. The walk stops at
/// a node without parent or whose parent is not in the lookup.
pub fn is_parent_selected(node: &DragNode, node_lookup: &StrMap<DragNode>) -> (r: bool)
    requires
        node_lookup.wf(),
        chain_ends(node_lookup@, opt_string_view(node.parent_id)),
    ensures
        r == parent_selected(node_lookup@, opt_string_view(node.parent_id)),
{
    let ghost m = node_lookup@;
    let ghost start = opt_string_view(node.parent_id);
    let ghost f0: nat = choose|f: nat| #[trigger] selected_ancestor(m, start, f) is Some;
    let ghost answer = selected_ancestor(m, start, f0);
    let ghost mut fuel: nat = f0;
    let mut parent = clone_opt_string(&node.parent_id);
    let mut r = false;
    loop
        invariant
            node_lookup.wf(),
            m == node_lookup@,
            selected_ancestor(m, start, f0) is Some,
            answer == selected_ancestor(m, start, f0),
            selected_ancestor(m, opt_string_view(parent), fuel) == answer,
        ensures
            answer == Some(r),
        decreases fuel,
    {
        match parent {
            None => {
                r = false;
                break;
            },
            Some(p) => {
                match node_lookup.get(p.as_str()) {
                    None => {
                        r = false;
                        break;
                    },
                    Some(v) => {
                        if v.selected == Some(true) {
                            r = true;
                            break;
                        }
                        parent = clone_opt_string(&v.parent_id);
                        proof {
                            fuel = (fuel - 1) as nat;
                        }
                    },
                }
            },
        }
    }
    proof {
        if r {
            assert(selected_ancestor(m, start, f0) == Some(true));
        } else {
            assert forall|f: nat| #[trigger] selected_ancestor(m, start, f) != Some(true) by {
                if f <= f0 {
                    if selected_ancestor(m, start, f) is Some {
                        lemma_walk_answer_stable(m, start, f, f0);
                    }
                } else {
                    lemma_walk_answer_stable(m, start, f0, f);
                }
            }
        }
    }
    r
}

/// The node is asked to move: it is selected, or it is the node the drag
/// started on.
pub open spec fn drag_candidate(n: DragNode, node_id: Option<Seq<char>>) -> bool {
    n.selected == Some(true) || node_id == Some(n.id@)
}

/// The node moves with the drag: it is a candidate, no ancestor of it is
/// selected (a selected ancestor already carries it), and it is
/// draggable, by its own flag or, without one, by the flow's.
pub open spec fn moves_with_drag(
    m: Map<Seq<char>, DragNode>,
    n: DragNode,
    node_id: Option<Seq<char>>,
    nodes_draggable: bool,
) -> bool {
    &&& drag_candidate(n, node_id)
    &&& !(n.parent_id is Some && parent_selected(m, opt_string_view(n.parent_id)))
    &&& match n.draggable {
        Some(d) => d,
        None => nodes_draggable,
    }
}

/// Positions, in the lookup's order, of the nodes that move with a drag
/// started on `node_id` (or on the selection when there is none).
pub fn get_drag_items(
    node_lookup: &StrMap<DragNode>,
    nodes_draggable: bool,
    node_id: Option<&str>,
) -> (r: Vec<usize>)
    requires
        node_lookup.wf(),
        forall|i: int|
            0 <= i < node_lookup.entries().len() && drag_candidate(
                #[trigger] node_lookup.entries()[i].1,
                opt_str_view(node_id),
            ) && node_lookup.entries()[i].1.parent_id is Some ==> chain_ends(
                node_lookup@,
                opt_string_view(node_lookup.entries()[i].1.parent_id),
            ),
    ensures
        r@ == indices_where(
            node_lookup.entries().len(),
            |i: int|
                moves_with_drag(
                    node_lookup@,
                    node_lookup.entries()[i].1,
                    opt_str_view(node_id),
                    nodes_draggable,
                ),
        ),
{
    let ghost p = |i: int|
        moves_with_drag(
            node_lookup@,
            node_lookup.entries()[i].1,
            opt_str_view(node_id),
            nodes_draggable,
        );
    let n = node_lookup.len();
    let mut r: Vec<usize> = Vec::new();
    let mut i: usize = 0;
    while i < n
        invariant
            n == node_lookup.entries().len(),
            i <= n,
            node_lookup.wf(),
            forall|i: int|
                0 <= i < node_lookup.entries().len() && drag_candidate(
                    #[trigger] node_lookup.entries()[i].1,
                    opt_str_view(node_id),
                ) && node_lookup.entries()[i].1.parent_id is Some ==> chain_ends(
                    node_lookup@,
                    opt_string_view(node_lookup.entries()[i].1.parent_id),
                ),
            p == (|i: int|
                moves_with_drag(
                    node_lookup@,
                    node_lookup.entries()[i].1,
                    opt_str_view(node_id),
                    nodes_draggable,
                )),
            r@ == indices_where(i as nat, p),
        decreases n - i,
    {
        let node = node_lookup.value_at(i);
        let is_selected = node.selected == Some(true);
        let is_target = match node_id {
            Some(t) => str_eq(t, node.id.as_str()),
            None => false,
        };
        if is_selected || is_target {
            let has_parent = node.parent_id.is_some();
            if !(has_parent && is_parent_selected(node, node_lookup)) {
                let draggable = match node.draggable {
                    Some(d) => d,
                    None => nodes_draggable,
                };
                if draggable {
                    r.push(i);
                }
            }
        }
        i = i + 1;
    }
    r
}

/// A drag may start from a press of `button` on an element whose
/// ancestors carry `lists`: only the primary button, never inside the
/// no-drag class, and inside the handle selector when one is set.
pub open spec fn drag_accepted(
    button: u8,
    no_drag_class_name: Option<Seq<char>>,
    handle_selector: Option<Seq<char>>,
    lists: Seq<Vec<String>>,
) -> bool {
    &&& button == 0
    &&& match no_drag_class_name {
        Some(c) => !(c.len() > 0 && some_ancestor_has(lists, selector_class(c))),
        None => true,
    }
    &&& match handle_selector {
        Some(h) => h.len() > 0 && some_ancestor_has(lists, selector_class(h)),
        None => true,
    }
}

/// Decide whether a pointer press may start a node drag.
pub fn drag_event_accepted(
    button: u8,
    no_drag_class_name: Option<&str>,
    handle_selector: Option<&str>,
    ancestor_class_lists: &[Vec<String>],
) -> (r: bool)
    ensures
        r == drag_accepted(
            button,
            opt_str_view(no_drag_class_name),
            opt_str_view(handle_selector),
            ancestor_class_lists@,
        ),
        r ==> button == 0,
{
    if button != 0 {
        return false;
    }
    if let Some(no_drag) = no_drag_class_name {
        if has_selector(ancestor_class_lists, no_drag) {
            return false;
        }
    }
    if let Some(handle) = handle_selector {
        if !has_selector(ancestor_class_lists, handle) {
            return false;
        }
    }
    true
}

/// Only the primary button starts a node drag: a press with any other
/// button is refused, whatever the element and the selectors. A press
/// inside the no-drag class, or outside the handle selector when one is
/// set, is refused too.
pub proof fn lemma_only_primary_button_drags(
    button: u8,
    no_drag_class_name: Option<Seq<char>>,
    handle_selector: Option<Seq<char>>,
    lists: Seq<Vec<String>>,
)
    ensures
        button != 0 ==> !drag_accepted(button, no_drag_class_name, handle_selector, lists),
        no_drag_class_name matches Some(c) && c.len() > 0 && some_ancestor_has(lists, selector_class(c))
            ==> !drag_accepted(button, no_drag_class_name, handle_selector, lists),
        handle_selector matches Some(h) && !some_ancestor_has(lists, selector_class(h))
            ==> !drag_accepted(button, no_drag_class_name, handle_selector, lists),
{
}

} // verus!
