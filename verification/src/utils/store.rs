//! Store helpers: z-index mode test and the connection lookup that
//! indexes every edge by node, by node and handle type, and by handle.

use vstd::prelude::*;
use vstd::string::*;
use crate::types::connection::{ConnectionLookup, HandleConnection};
use crate::types::handles::HandleType;
use crate::types::lookup::add_nested;
use crate::types::viewport::ZIndexMode;
use crate::utils::text::{opt_as_str, opt_str_view, opt_string_view};

verus! {

/// `true` when z-indexing is fully manual.
pub fn is_manual_z(mode: ZIndexMode) -> (r: bool)
    ensures
        r == (mode == ZIndexMode::Manual),
{
    mode == ZIndexMode::Manual
}

/// Word naming a handle type inside lookup keys.
pub open spec fn type_word(t: HandleType) -> Seq<char> {
    match t {
        HandleType::Source => "source"@,
        HandleType::Target => "target"@,
    }
}

/// Abstract value of a connection lookup.
pub type LookupView = Map<Seq<char>, Map<Seq<char>, HandleConnection>>;

/// `m` after recording `conn` under `key` for the node, for the node and
/// handle type, and (when there is a handle id) for the handle.
pub open spec fn lookup_after_add(
    m: LookupView,
    t: HandleType,
    conn: HandleConnection,
    key: Seq<char>,
    node_id: Seq<char>,
    handle_id: Option<Seq<char>>,
) -> LookupView {
    let m1 = add_nested(m, node_id, key, conn);
    let m2 = add_nested(m1, node_id + "-"@ + type_word(t), key, conn);
    match handle_id {
        Some(h) => add_nested(m2, node_id + "-"@ + type_word(t) + "-"@ + h, key, conn),
        None => m2,
    }
}

fn append_type_word(s: &mut String, t: HandleType)
    ensures
        final(s)@ == old(s)@ + type_word(t),
{
    match t {
        HandleType::Source => s.append("source"),
        HandleType::Target => s.append("target"),
    }
}

/// Record `connection` under `connection_key` in the lookup entries of
/// `node_id`, of `node_id-<type>`, and of `node_id-<type>-<handle_id>`
/// when a handle id is given.
pub fn add_connection_to_lookup(
    type_: HandleType,
    connection: &HandleConnection,
    connection_key: &str,
    connection_lookup: &mut ConnectionLookup,
    node_id: &str,
    handle_id: Option<&str>,
)
    requires
        old(connection_lookup).nested_wf(),
    ensures
        final(connection_lookup).nested_wf(),
        final(connection_lookup).nested_view() == lookup_after_add(
            old(connection_lookup).nested_view(),
            type_,
            *connection,
            connection_key@,
            node_id@,
            opt_str_view(handle_id),
        ),
{
    connection_lookup.insert_nested(node_id, String::from_str(connection_key), connection.clone());
    let mut typed = String::from_str(node_id);
    typed.append("-");
    append_type_word(&mut typed, type_);
    connection_lookup.insert_nested(
        typed.as_str(),
        String::from_str(connection_key),
        connection.clone(),
    );
    match handle_id {
        Some(hid) => {
            let mut handled = typed.clone();
            handled.append("-");
            handled.append(hid);
            connection_lookup.insert_nested(
                handled.as_str(),
                String::from_str(connection_key),
                connection.clone(),
            );
        },
        None => {},
    }
}

/// Handle id as used inside lookup keys: the id, or `null` when absent.
pub open spec fn null_or(h: Option<String>) -> Seq<char> {
    match h {
        Some(s) => s@,
        None => "null"@,
    }
}

/// Key `a-ah--b-bh` identifying one end of an edge as seen from `a`.
pub open spec fn pair_key(a: Seq<char>, ah: Seq<char>, b: Seq<char>, bh: Seq<char>) -> Seq<char> {
    a + "-"@ + ah + "--"@ + b + "-"@ + bh
}

/// `m` after recording edge `e` on its source side (under the
/// target-first key) and on its target side (under the source-first key).
pub open spec fn add_edge_to_lookup(m: LookupView, e: HandleConnection) -> LookupView {
    let c = e.connection;
    let source_key = pair_key(c.source@, null_or(c.source_handle), c.target@, null_or(c.target_handle));
    let target_key = pair_key(c.target@, null_or(c.target_handle), c.source@, null_or(c.source_handle));
    let m1 = lookup_after_add(m, HandleType::Source, e, target_key, c.source@, opt_string_view(c.source_handle));
    lookup_after_add(m1, HandleType::Target, e, source_key, c.target@, opt_string_view(c.target_handle))
}

/// Lookup built from `edges`, recorded one after the other.
pub open spec fn lookup_of_edges(edges: Seq<HandleConnection>) -> LookupView
    decreases edges.len(),
{
    if edges.len() == 0 {
        Map::empty()
    } else {
        add_edge_to_lookup(lookup_of_edges(edges.drop_last()), edges.last())
    }
}

fn append_handle_or_null(s: &mut String, h: &Option<String>)
    ensures
        final(s)@ == old(s)@ + null_or(*h),
{
    match h {
        Some(x) => s.append(x.as_str()),
        None => s.append("null"),
    }
}

fn build_pair_key(a: &String, ah: &Option<String>, b: &String, bh: &Option<String>) -> (r: String)
    ensures
        r@ == pair_key(a@, null_or(*ah), b@, null_or(*bh)),
{
    let mut s = a.clone();
    s.append("-");
    append_handle_or_null(&mut s, ah);
    s.append("--");
    s.append(b.as_str());
    s.append("-");
    append_handle_or_null(&mut s, bh);
    s
}

/// Rebuild `connection_lookup` from the connection view of every edge:
/// the lookup is cleared, then each edge is recorded on its source side
/// and on its target side.
pub fn update_connection_lookup(connection_lookup: &mut ConnectionLookup, edges: &[HandleConnection])
    requires
        old(connection_lookup).nested_wf(),
    ensures
        final(connection_lookup).nested_wf(),
        final(connection_lookup).nested_view() == lookup_of_edges(edges@),
        forall|i: int|
            0 <= i < edges@.len() ==> #[trigger] files(
                final(connection_lookup).nested_view(),
                edges@[i].connection.source@,
                source_side_key(edges@[i]),
            ),
        forall|i: int|
            0 <= i < edges@.len() ==> #[trigger] files(
                final(connection_lookup).nested_view(),
                edges@[i].connection.target@,
                target_side_key(edges@[i]),
            ),
{
    connection_lookup.clear();
    proof {
        assert(connection_lookup.nested_view() =~= Map::empty());
        assert(edges@.take(0) =~= Seq::<HandleConnection>::empty());
    }
    let n = edges.len();
    let mut i: usize = 0;
    while i < n
        invariant
            n == edges@.len(),
            i <= n,
            connection_lookup.nested_wf(),
            connection_lookup.nested_view() == lookup_of_edges(edges@.take(i as int)),
        decreases n - i,
    {
        let edge = &edges[i];
        let c = &edge.connection;
        let source_key = build_pair_key(&c.source, &c.source_handle, &c.target, &c.target_handle);
        let target_key = build_pair_key(&c.target, &c.target_handle, &c.source, &c.source_handle);
        add_connection_to_lookup(
            HandleType::Source,
            edge,
            target_key.as_str(),
            connection_lookup,
            c.source.as_str(),
            opt_as_str(&c.source_handle),
        );
        add_connection_to_lookup(
            HandleType::Target,
            edge,
            source_key.as_str(),
            connection_lookup,
            c.target.as_str(),
            opt_as_str(&c.target_handle),
        );
        proof {
            assert(edges@.take(i as int + 1).drop_last() =~= edges@.take(i as int));
        }
        i = i + 1;
    }
    proof {
        assert(edges@.take(n as int) =~= edges@);
        lemma_lookup_files_every_edge(edges@);
    }
}

/// `true` when the lookup `m` holds an entry under `outer` and `inner`.
pub open spec fn files(m: LookupView, outer: Seq<char>, inner: Seq<char>) -> bool {
    m.dom().contains(outer) && m[outer].dom().contains(inner)
}

/// Recording a connection never removes what the lookup already files.
proof fn lemma_add_nested_keeps<W>(
    m: Map<Seq<char>, Map<Seq<char>, W>>,
    outer: Seq<char>,
    inner: Seq<char>,
    v: W,
)
    ensures
        forall|o: Seq<char>, k: Seq<char>|
            m.dom().contains(o) && m[o].dom().contains(k) ==> {
                let r = add_nested(m, outer, inner, v);
                &&& r.dom().contains(o)
                &&& r[o].dom().contains(k)
                &&& (r[o][k] == m[o][k] || r[o][k] == v)
            },
        add_nested(m, outer, inner, v).dom().contains(outer),
        add_nested(m, outer, inner, v)[outer].dom().contains(inner),
        add_nested(m, outer, inner, v)[outer][inner] == v,
        forall|o: Seq<char>, k: Seq<char>|
            add_nested(m, outer, inner, v).dom().contains(o)
                && add_nested(m, outer, inner, v)[o].dom().contains(k) ==> {
                ||| (m.dom().contains(o) && m[o].dom().contains(k) && add_nested(m, outer, inner, v)[o][k] == m[o][k])
                ||| add_nested(m, outer, inner, v)[o][k] == v
            },
{
}

proof fn lemma_after_add_keeps(
    m: LookupView,
    t: HandleType,
    conn: HandleConnection,
    key: Seq<char>,
    node_id: Seq<char>,
    handle_id: Option<Seq<char>>,
)
    ensures
        forall|o: Seq<char>, k: Seq<char>|
            files(m, o, k) ==> files(lookup_after_add(m, t, conn, key, node_id, handle_id), o, k),
        files(lookup_after_add(m, t, conn, key, node_id, handle_id), node_id, key),
        forall|o: Seq<char>, k: Seq<char>|
            files(lookup_after_add(m, t, conn, key, node_id, handle_id), o, k) ==> {
                ||| (files(m, o, k) && lookup_after_add(m, t, conn, key, node_id, handle_id)[o][k] == m[o][k])
                ||| lookup_after_add(m, t, conn, key, node_id, handle_id)[o][k] == conn
            },
{
    let m1 = add_nested(m, node_id, key, conn);
    let m2 = add_nested(m1, node_id + "-"@ + type_word(t), key, conn);
    lemma_add_nested_keeps(m, node_id, key, conn);
    lemma_add_nested_keeps(m1, node_id + "-"@ + type_word(t), key, conn);
    match handle_id {
        Some(h) => {
            lemma_add_nested_keeps(m2, node_id + "-"@ + type_word(t) + "-"@ + h, key, conn);
        },
        None => {},
    }
}

/// Every entry of a rebuilt lookup is one of the edges it was built from,
/// and filing more edges keeps every entry filed before.
proof fn lemma_lookup_of_edges_entries(edges: Seq<HandleConnection>)
    ensures
        forall|o: Seq<char>, k: Seq<char>|
            files(lookup_of_edges(edges), o, k) ==> edges.contains(lookup_of_edges(edges)[o][k]),
    decreases edges.len(),
{
    if edges.len() > 0 {
        let prefix = edges.drop_last();
        let e = edges.last();
        lemma_lookup_of_edges_entries(prefix);
        let c = e.connection;
        let source_key = pair_key(c.source@, null_or(c.source_handle), c.target@, null_or(c.target_handle));
        let target_key = pair_key(c.target@, null_or(c.target_handle), c.source@, null_or(c.source_handle));
        let m0 = lookup_of_edges(prefix);
        let m1 = lookup_after_add(m0, HandleType::Source, e, target_key, c.source@, opt_string_view(c.source_handle));
        lemma_after_add_keeps(m0, HandleType::Source, e, target_key, c.source@, opt_string_view(c.source_handle));
        lemma_after_add_keeps(m1, HandleType::Target, e, source_key, c.target@, opt_string_view(c.target_handle));
        assert forall|o: Seq<char>, k: Seq<char>|
            files(lookup_of_edges(edges), o, k) implies edges.contains(lookup_of_edges(edges)[o][k]) by {
            let v = lookup_of_edges(edges)[o][k];
            if v != e {
                assert(files(m1, o, k) && m1[o][k] == v);
                assert(files(m0, o, k) && m0[o][k] == v);
                assert(prefix.contains(v));
                let j = choose|j: int| 0 <= j < prefix.len() && prefix[j] == v;
                assert(edges[j] == v);
            } else {
                assert(edges[edges.len() - 1] == v);
            }
        }
    }
}

/// The key an edge is filed under on its source node: its target, its
/// target handle (or `null`), its source, and its source handle (or
/// `null`), as `target-th--source-sh`.
pub open spec fn source_side_key(e: HandleConnection) -> Seq<char> {
    let c = e.connection;
    c.target@ + "-"@ + (match c.target_handle { Some(h) => h@, None => "null"@ }) + "--"@
        + c.source@ + "-"@ + (match c.source_handle { Some(h) => h@, None => "null"@ })
}

/// The key an edge is filed under on its target node: `source-sh--target-th`.
pub open spec fn target_side_key(e: HandleConnection) -> Seq<char> {
    let c = e.connection;
    c.source@ + "-"@ + (match c.source_handle { Some(h) => h@, None => "null"@ }) + "--"@
        + c.target@ + "-"@ + (match c.target_handle { Some(h) => h@, None => "null"@ })
}

/// A rebuilt lookup files every edge: under its source node by the key
/// `target-th--source-sh` and under its target node by `source-sh--target-th`,
/// with the handle ids in the keys when the edge has them; and whatever
/// the lookup files is one of the edges.
pub proof fn lemma_lookup_files_every_edge(edges: Seq<HandleConnection>)
    ensures
        forall|i: int|
            0 <= i < edges.len() ==> #[trigger] files(
                lookup_of_edges(edges),
                edges[i].connection.source@,
                source_side_key(edges[i]),
            ),
        forall|i: int|
            0 <= i < edges.len() ==> #[trigger] files(
                lookup_of_edges(edges),
                edges[i].connection.target@,
                target_side_key(edges[i]),
            ),
        forall|o: Seq<char>, k: Seq<char>|
            files(lookup_of_edges(edges), o, k) ==> edges.contains(lookup_of_edges(edges)[o][k]),
    decreases edges.len(),
{
    lemma_lookup_of_edges_entries(edges);
    if edges.len() > 0 {
        let prefix = edges.drop_last();
        let e = edges.last();
        lemma_lookup_files_every_edge(prefix);
        let c = e.connection;
        let source_key = pair_key(c.source@, null_or(c.source_handle), c.target@, null_or(c.target_handle));
        let target_key = pair_key(c.target@, null_or(c.target_handle), c.source@, null_or(c.source_handle));
        let m0 = lookup_of_edges(prefix);
        let m1 = lookup_after_add(m0, HandleType::Source, e, target_key, c.source@, opt_string_view(c.source_handle));
        lemma_after_add_keeps(m0, HandleType::Source, e, target_key, c.source@, opt_string_view(c.source_handle));
        lemma_after_add_keeps(m1, HandleType::Target, e, source_key, c.target@, opt_string_view(c.target_handle));
        assert(target_key == source_side_key(e));
        assert(source_key == target_side_key(e));
        assert forall|i: int| 0 <= i < edges.len() implies #[trigger] files(
            lookup_of_edges(edges),
            edges[i].connection.source@,
            source_side_key(edges[i]),
        ) by {
            if i < edges.len() - 1 {
                assert(edges[i] == prefix[i]);
                assert(files(m0, prefix[i].connection.source@, source_side_key(prefix[i])));
            }
        }
        assert forall|i: int| 0 <= i < edges.len() implies #[trigger] files(
            lookup_of_edges(edges),
            edges[i].connection.target@,
            target_side_key(edges[i]),
        ) by {
            if i < edges.len() - 1 {
                assert(edges[i] == prefix[i]);
                assert(files(m0, prefix[i].connection.target@, target_side_key(prefix[i])));
            }
        }
    }
}

/// Result of adopting the user's nodes into the internal lookup.
#[derive(Debug, Clone, Copy, PartialEq, Eq, Structural)]
pub struct AdoptUserNodesResult {
    /// Every node has been measured.
    pub nodes_initialized: bool,
    /// Some node is selected.
    pub has_selected_nodes: bool,
}

/// What a measurement update does to one node's internals.
#[derive(Debug, Clone, Copy, PartialEq, Eq, Structural)]
pub enum InternalsUpdate {
    /// The node is hidden: its handle bounds are cleared.
    ClearHandleBounds,
    /// Nothing to do for this node.
    Skip,
    /// Dimensions, position and handle bounds are measured anew.
    Measure,
}

/// Decides what a measurement update does to a node: a hidden node loses
/// its handle bounds; a node measured with a zero width or height is left
/// alone; otherwise it is measured when its size changed, when it has no
/// handle bounds yet, or when the update is forced.
pub fn internals_update(
    hidden: bool,
    zero_size: bool,
    dimensions_changed: bool,
    has_handle_bounds: bool,
    force: bool,
) -> (r: InternalsUpdate)
    ensures
        r == (if hidden {
            InternalsUpdate::ClearHandleBounds
        } else if !zero_size && (dimensions_changed || !has_handle_bounds || force) {
            InternalsUpdate::Measure
        } else {
            InternalsUpdate::Skip
        }),
{
    if hidden {
        InternalsUpdate::ClearHandleBounds
    } else if !zero_size && (dimensions_changed || !has_handle_bounds || force) {
        InternalsUpdate::Measure
    } else {
        InternalsUpdate::Skip
    }
}

/// What adopting needs to know of one node.
#[derive(Debug, Clone, Copy, PartialEq, Eq, Structural)]
pub struct AdoptedNodeFlags {
    /// Both its width and its height have been measured.
    pub measured: bool,
    /// The node is hidden.
    pub hidden: bool,
    /// The node is selected.
    pub selected: bool,
}

/// Every node of `nodes` is measured or hidden.
pub open spec fn all_measured_or_hidden(nodes: Seq<AdoptedNodeFlags>) -> bool {
    forall|i: int| 0 <= i < nodes.len() ==> (#[trigger] nodes[i]).measured || nodes[i].hidden
}

/// Some node of `nodes` is selected.
pub open spec fn any_selected(nodes: Seq<AdoptedNodeFlags>) -> bool {
    exists|i: int| 0 <= i < nodes.len() && (#[trigger] nodes[i]).selected
}

/// The summary of adopting `nodes`: they are initialized when there is at
/// least one and each is measured or hidden; some is selected when any
/// node is.
pub fn summarize_adopted_nodes(nodes: &[AdoptedNodeFlags]) -> (r: AdoptUserNodesResult)
    ensures
        r.nodes_initialized == (nodes@.len() > 0 && all_measured_or_hidden(nodes@)),
        r.has_selected_nodes == any_selected(nodes@),
{
    let mut initialized = nodes.len() > 0;
    let mut selected = false;
    let mut i: usize = 0;
    while i < nodes.len()
        invariant
            i <= nodes@.len(),
            initialized == (nodes@.len() > 0 && all_measured_or_hidden(nodes@.take(i as int))),
            selected == any_selected(nodes@.take(i as int)),
        decreases nodes@.len() - i,
    {
        let n = nodes[i];
        proof {
            let next = nodes@.take(i as int + 1);
            assert(next[i as int] == n);
            assert forall|j: int| 0 <= j < i implies next[j] == nodes@.take(i as int)[j] by {}
            if any_selected(nodes@.take(i as int)) {
                let w = choose|j: int| 0 <= j < i && (#[trigger] nodes@.take(i as int)[j]).selected;
                assert(next[w].selected);
            }
            if any_selected(next) && !n.selected {
                let w = choose|j: int| 0 <= j < i + 1 && (#[trigger] next[j]).selected;
                assert(nodes@.take(i as int)[w].selected);
            }
        }
        if !(n.measured || n.hidden) {
            initialized = false;
        }
        if n.selected {
            selected = true;
        }
        i = i + 1;
    }
    proof {
        assert(nodes@.take(nodes@.len() as int) =~= nodes@);
    }
    AdoptUserNodesResult { nodes_initialized: initialized, has_selected_nodes: selected }
}

} // verus!
