//! Graph queries over the ids of nodes and edges: the outgoers and
//! incomers of a node, the edges touching a set of nodes, and what a
//! deletion removes.
//!
//! Nodes and edges are described by the fields these queries read; the
//! results are indices into the lists given, in list order.

use vstd::prelude::*;
use vstd::string::*;
use crate::utils::text::str_eq;

verus! {

/// What the graph queries read of a node.
#[derive(Debug, PartialEq, Eq)]
pub struct NodeSummary {
    pub id: String,
    pub parent_id: Option<String>,
    /// `Some(false)` protects the node from deletion.
    pub deletable: Option<bool>,
}

/// What the graph queries read of an edge.
#[derive(Debug, PartialEq, Eq)]
pub struct EdgeSummary {
    pub id: String,
    pub source: String,
    pub target: String,
    /// `Some(false)` protects the edge from deletion.
    pub deletable: Option<bool>,
}

/// Indices `0..n` that satisfy `p`, in increasing order.
pub open spec fn indices_where(n: nat, p: spec_fn(int) -> bool) -> Seq<usize>
    decreases n,
{
    if n == 0 {
        Seq::empty()
    } else {
        let prev = indices_where((n - 1) as nat, p);
        if p(n - 1) {
            prev.push((n - 1) as usize)
        } else {
            prev
        }
    }
}

/// Some edge goes from the node `from` to the node `to`.
pub open spec fn has_edge(edges: Seq<EdgeSummary>, from: Seq<char>, to: Seq<char>) -> bool {
    exists|j: int| 0 <= j < edges.len() && #[trigger] edges[j].source@ == from && edges[j].target@ == to
}

/// Some node of `nodes` has the id `id`.
pub open spec fn has_node(nodes: Seq<NodeSummary>, id: Seq<char>) -> bool {
    exists|k: int| 0 <= k < nodes.len() && #[trigger] nodes[k].id@ == id
}

fn edge_exists(edges: &[EdgeSummary], from: &str, to: &str) -> (r: bool)
    ensures
        r == has_edge(edges@, from@, to@),
{
    let mut j: usize = 0;
    while j < edges.len()
        invariant
            j <= edges@.len(),
            forall|i: int|
                0 <= i < j ==> !(#[trigger] edges@[i].source@ == from@ && edges@[i].target@ == to@),
        decreases edges@.len() - j,
    {
        if str_eq(edges[j].source.as_str(), from) && str_eq(edges[j].target.as_str(), to) {
            assert(edges@[j as int].source@ == from@ && edges@[j as int].target@ == to@);
            return true;
        }
        j = j + 1;
    }
    false
}

fn node_exists(nodes: &[NodeSummary], id: &str) -> (r: bool)
    ensures
        r == has_node(nodes@, id@),
{
    let mut k: usize = 0;
    while k < nodes.len()
        invariant
            k <= nodes@.len(),
            forall|i: int| 0 <= i < k ==> #[trigger] nodes@[i].id@ != id@,
        decreases nodes@.len() - k,
    {
        if str_eq(nodes[k].id.as_str(), id) {
            assert(nodes@[k as int].id@ == id@);
            return true;
        }
        k = k + 1;
    }
    false
}

/// The nodes an edge leads to from `node_id`, in list order; none when
/// the id is empty.
pub open spec fn outgoers(node_id: Seq<char>, nodes: Seq<NodeSummary>, edges: Seq<EdgeSummary>) -> Seq<usize> {
    if node_id.len() == 0 {
        Seq::empty()
    } else {
        indices_where(nodes.len(), |k: int| has_edge(edges, node_id, nodes[k].id@))
    }
}

/// The nodes an edge leads from to `node_id`, in list order; none when
/// the id is empty.
pub open spec fn incomers(node_id: Seq<char>, nodes: Seq<NodeSummary>, edges: Seq<EdgeSummary>) -> Seq<usize> {
    if node_id.len() == 0 {
        Seq::empty()
    } else {
        indices_where(nodes.len(), |k: int| has_edge(edges, nodes[k].id@, node_id))
    }
}

/// Indices of the nodes that are targets of edges starting at `node_id`.
pub fn get_outgoers(node_id: &str, nodes: &[NodeSummary], edges: &[EdgeSummary]) -> (r: Vec<usize>)
    ensures
        r@ == outgoers(node_id@, nodes@, edges@),
{
    let mut r: Vec<usize> = Vec::new();
    if node_id.unicode_len() == 0 {
        return r;
    }
    let ghost p = |k: int| has_edge(edges@, node_id@, nodes@[k].id@);
    let mut k: usize = 0;
    while k < nodes.len()
        invariant
            k <= nodes@.len(),
            p == (|k: int| has_edge(edges@, node_id@, nodes@[k].id@)),
            r@ == indices_where(k as nat, p),
        decreases nodes@.len() - k,
    {
        if edge_exists(edges, node_id, nodes[k].id.as_str()) {
            r.push(k);
        }
        k = k + 1;
    }
    r
}

/// Indices of the nodes that are sources of edges ending at `node_id`.
pub fn get_incomers(node_id: &str, nodes: &[NodeSummary], edges: &[EdgeSummary]) -> (r: Vec<usize>)
    ensures
        r@ == incomers(node_id@, nodes@, edges@),
{
    let mut r: Vec<usize> = Vec::new();
    if node_id.unicode_len() == 0 {
        return r;
    }
    let ghost p = |k: int| has_edge(edges@, nodes@[k].id@, node_id@);
    let mut k: usize = 0;
    while k < nodes.len()
        invariant
            k <= nodes@.len(),
            p == (|k: int| has_edge(edges@, nodes@[k].id@, node_id@)),
            r@ == indices_where(k as nat, p),
        decreases nodes@.len() - k,
    {
        if edge_exists(edges, nodes[k].id.as_str(), node_id) {
            r.push(k);
        }
        k = k + 1;
    }
    r
}

/// The edges with at least one end among `nodes`, in list order.
pub open spec fn connected_edges(nodes: Seq<NodeSummary>, edges: Seq<EdgeSummary>) -> Seq<usize> {
    indices_where(
        edges.len(),
        |j: int| has_node(nodes, edges[j].source@) || has_node(nodes, edges[j].target@),
    )
}

/// Indices of the edges with at least one end among `nodes`.
pub fn get_connected_edges(nodes: &[NodeSummary], edges: &[EdgeSummary]) -> (r: Vec<usize>)
    ensures
        r@ == connected_edges(nodes@, edges@),
{
    let ghost p = |j: int| has_node(nodes@, edges@[j].source@) || has_node(nodes@, edges@[j].target@);
    let mut r: Vec<usize> = Vec::new();
    let mut j: usize = 0;
    while j < edges.len()
        invariant
            j <= edges@.len(),
            p == (|j: int| has_node(nodes@, edges@[j].source@) || has_node(nodes@, edges@[j].target@)),
            r@ == indices_where(j as nat, p),
        decreases edges@.len() - j,
    {
        if node_exists(nodes, edges[j].source.as_str()) || node_exists(nodes, edges[j].target.as_str()) {
            r.push(j);
        }
        j = j + 1;
    }
    r
}

/// `ids` lists the id `id`.
pub open spec fn requested(ids: Seq<&str>, id: Seq<char>) -> bool {
    exists|i: int| 0 <= i < ids.len() && #[trigger] ids[i]@ == id
}

/// One of the nodes at the indices `picked` has the id `id`.
pub open spec fn picked_node(nodes: Seq<NodeSummary>, picked: Seq<usize>, id: Seq<char>) -> bool {
    exists|i: int| 0 <= i < picked.len() && #[trigger] nodes[picked[i] as int].id@ == id
}

/// One of the edges at the indices `picked` has the id `id`.
pub open spec fn picked_edge(edges: Seq<EdgeSummary>, picked: Seq<usize>, id: Seq<char>) -> bool {
    exists|i: int| 0 <= i < picked.len() && #[trigger] edges[picked[i] as int].id@ == id
}

/// Nodes removed among the first `n`: a deletable node goes when it is
/// listed, or when its parent went before it.
pub open spec fn removed_nodes(nodes: Seq<NodeSummary>, ids: Seq<&str>, n: nat) -> Seq<usize>
    decreases n,
{
    if n == 0 {
        Seq::empty()
    } else {
        let prev = removed_nodes(nodes, ids, (n - 1) as nat);
        let node = nodes[n - 1];
        let parent_gone = match node.parent_id {
            Some(p) => picked_node(nodes, prev, p@),
            None => false,
        };
        if node.deletable != Some(false) && (requested(ids, node.id@) || parent_gone) {
            prev.push((n - 1) as usize)
        } else {
            prev
        }
    }
}

/// A deletable edge with an end on a removed node.
pub open spec fn cascades(
    nodes: Seq<NodeSummary>,
    gone: Seq<usize>,
    edges: Seq<EdgeSummary>,
    j: int,
) -> bool {
    edges[j].deletable != Some(false) && (picked_node(nodes, gone, edges[j].source@) || picked_node(
        nodes,
        gone,
        edges[j].target@,
    ))
}

/// Edges removed: first every deletable edge touching a removed node,
/// then, among the first `m`, each deletable listed edge whose id is not
/// removed yet.
pub open spec fn removed_edges(
    nodes: Seq<NodeSummary>,
    gone: Seq<usize>,
    edges: Seq<EdgeSummary>,
    ids: Seq<&str>,
    m: nat,
) -> Seq<usize>
    decreases m,
{
    if m == 0 {
        indices_where(edges.len(), |j: int| cascades(nodes, gone, edges, j))
    } else {
        let prev = removed_edges(nodes, gone, edges, ids, (m - 1) as nat);
        let e = edges[m - 1];
        if e.deletable != Some(false) && requested(ids, e.id@) && !picked_edge(edges, prev, e.id@) {
            prev.push((m - 1) as usize)
        } else {
            prev
        }
    }
}

/// Indices of the nodes and edges a deletion removes.
#[derive(Debug, PartialEq, Eq)]
pub struct ElementsToRemove {
    pub nodes: Vec<usize>,
    pub edges: Vec<usize>,
}

fn is_requested(ids: &[&str], id: &str) -> (r: bool)
    ensures
        r == requested(ids@, id@),
{
    let mut i: usize = 0;
    while i < ids.len()
        invariant
            i <= ids@.len(),
            forall|k: int| 0 <= k < i ==> #[trigger] ids@[k]@ != id@,
        decreases ids@.len() - i,
    {
        if str_eq(ids[i], id) {
            assert(ids@[i as int]@ == id@);
            return true;
        }
        i = i + 1;
    }
    false
}

fn is_picked_node(nodes: &[NodeSummary], picked: &Vec<usize>, id: &str) -> (r: bool)
    requires
        forall|i: int| 0 <= i < picked@.len() ==> #[trigger] picked@[i] < nodes@.len(),
    ensures
        r == picked_node(nodes@, picked@, id@),
{
    let mut i: usize = 0;
    while i < picked.len()
        invariant
            i <= picked@.len(),
            forall|i: int| 0 <= i < picked@.len() ==> #[trigger] picked@[i] < nodes@.len(),
            forall|k: int| 0 <= k < i ==> #[trigger] nodes@[picked@[k] as int].id@ != id@,
        decreases picked@.len() - i,
    {
        if str_eq(nodes[picked[i]].id.as_str(), id) {
            assert(nodes@[picked@[i as int] as int].id@ == id@);
            return true;
        }
        i = i + 1;
    }
    false
}

fn is_picked_edge(edges: &[EdgeSummary], picked: &Vec<usize>, id: &str) -> (r: bool)
    requires
        forall|i: int| 0 <= i < picked@.len() ==> #[trigger] picked@[i] < edges@.len(),
    ensures
        r == picked_edge(edges@, picked@, id@),
{
    let mut i: usize = 0;
    while i < picked.len()
        invariant
            i <= picked@.len(),
            forall|i: int| 0 <= i < picked@.len() ==> #[trigger] picked@[i] < edges@.len(),
            forall|k: int| 0 <= k < i ==> #[trigger] edges@[picked@[k] as int].id@ != id@,
        decreases picked@.len() - i,
    {
        if str_eq(edges[picked[i]].id.as_str(), id) {
            assert(edges@[picked@[i as int] as int].id@ == id@);
            return true;
        }
        i = i + 1;
    }
    false
}

/// What deleting the listed nodes and edges removes, before any user
/// confirmation. Nodes go in list order: a deletable node that is listed,
/// or whose parent was removed earlier in the list. Edges: first every
/// deletable edge touching a removed node, then every deletable listed
/// edge not yet included. Nodes and edges marked `deletable: Some(false)`
/// stay.
pub fn select_elements_to_remove(
    nodes_to_remove: &[&str],
    edges_to_remove: &[&str],
    nodes: &[NodeSummary],
    edges: &[EdgeSummary],
) -> (r: ElementsToRemove)
    ensures
        r.nodes@ == removed_nodes(nodes@, nodes_to_remove@, nodes@.len()),
        r.edges@ == removed_edges(
            nodes@,
            r.nodes@,
            edges@,
            edges_to_remove@,
            edges@.len(),
        ),
{
    let mut gone: Vec<usize> = Vec::new();
    let mut k: usize = 0;
    while k < nodes.len()
        invariant
            k <= nodes@.len(),
            gone@ == removed_nodes(nodes@, nodes_to_remove@, k as nat),
            forall|i: int| 0 <= i < gone@.len() ==> #[trigger] gone@[i] < k,
        decreases nodes@.len() - k,
    {
        let node = &nodes[k];
        let deletable = match node.deletable {
            Some(false) => false,
            _ => true,
        };
        if deletable {
            let included = is_requested(nodes_to_remove, node.id.as_str());
            let parent_gone = match &node.parent_id {
                Some(p) => is_picked_node(nodes, &gone, p.as_str()),
                None => false,
            };
            if included || parent_gone {
                gone.push(k);
            }
        }
        k = k + 1;
    }
    let ghost p = |j: int| cascades(nodes@, gone@, edges@, j);
    let mut picked: Vec<usize> = Vec::new();
    let mut j: usize = 0;
    while j < edges.len()
        invariant
            j <= edges@.len(),
            gone@ == removed_nodes(nodes@, nodes_to_remove@, nodes@.len()),
            forall|i: int| 0 <= i < gone@.len() ==> #[trigger] gone@[i] < nodes@.len(),
            p == (|j: int| cascades(nodes@, gone@, edges@, j)),
            picked@ == indices_where(j as nat, p),
            forall|i: int| 0 <= i < picked@.len() ==> #[trigger] picked@[i] < j,
        decreases edges@.len() - j,
    {
        let e = &edges[j];
        let deletable = match e.deletable {
            Some(false) => false,
            _ => true,
        };
        if deletable && (is_picked_node(nodes, &gone, e.source.as_str()) || is_picked_node(
            nodes,
            &gone,
            e.target.as_str(),
        )) {
            picked.push(j);
        }
        j = j + 1;
    }
    let mut m: usize = 0;
    while m < edges.len()
        invariant
            m <= edges@.len(),
            gone@ == removed_nodes(nodes@, nodes_to_remove@, nodes@.len()),
            picked@ == removed_edges(nodes@, gone@, edges@, edges_to_remove@, m as nat),
            forall|i: int| 0 <= i < picked@.len() ==> #[trigger] picked@[i] < edges@.len(),
        decreases edges@.len() - m,
    {
        let e = &edges[m];
        let deletable = match e.deletable {
            Some(false) => false,
            _ => true,
        };
        if deletable && is_requested(edges_to_remove, e.id.as_str()) && !is_picked_edge(
            edges,
            &picked,
            e.id.as_str(),
        ) {
            picked.push(m);
        }
        m = m + 1;
    }
    ElementsToRemove { nodes: gone, edges: picked }
}

/// `indices_where(n, p)` lists, in increasing order, exactly the indices
/// below `n` that satisfy `p`.
pub proof fn lemma_indices_where(n: nat, p: spec_fn(int) -> bool)
    requires
        n <= usize::MAX,
    ensures
        forall|i: int|
            0 <= i < indices_where(n, p).len() ==> (#[trigger] indices_where(n, p)[i] as int) < n
                && p(indices_where(n, p)[i] as int),
        forall|i: int, j: int|
            0 <= i < j < indices_where(n, p).len() ==> #[trigger] indices_where(n, p)[i]
                < #[trigger] indices_where(n, p)[j],
        forall|k: int| 0 <= k < n && p(k) ==> #[trigger] indices_where(n, p).contains(k as usize),
    decreases n,
{
    if n > 0 {
        let m = (n - 1) as nat;
        lemma_indices_where(m, p);
        let prev = indices_where(m, p);
        let cur = indices_where(n, p);
        if p(m as int) {
            assert(cur == prev.push(m as usize));
            assert(cur[prev.len() as int] == m as usize);
        }
        assert forall|k: int| 0 <= k < n && p(k) implies #[trigger] cur.contains(k as usize) by {
            if k < m {
                assert(prev.contains(k as usize));
                let i = choose|i: int| 0 <= i < prev.len() && prev[i] == k as usize;
                assert(cur[i] == k as usize);
            } else {
                assert(cur[prev.len() as int] == k as usize);
            }
        }
    }
}

proof fn lemma_removed_nodes(nodes: Seq<NodeSummary>, ids: Seq<&str>, n: nat)
    requires
        n <= nodes.len(),
        n <= usize::MAX,
    ensures
        forall|i: int|
            0 <= i < removed_nodes(nodes, ids, n).len() ==> (#[trigger] removed_nodes(nodes, ids, n)[i]
                as int) < n && nodes[removed_nodes(nodes, ids, n)[i] as int].deletable != Some(false),
        forall|i: int, j: int|
            0 <= i < j < removed_nodes(nodes, ids, n).len() ==> #[trigger] removed_nodes(nodes, ids, n)[i]
                < #[trigger] removed_nodes(nodes, ids, n)[j],
        forall|k: int|
            0 <= k < n && nodes[k].deletable != Some(false) && requested(ids, nodes[k].id@)
                ==> #[trigger] removed_nodes(nodes, ids, n).contains(k as usize),
        forall|k: int|
            0 <= k < n && nodes[k].deletable != Some(false) && (nodes[k].parent_id matches Some(
                p,
            ) && picked_node(nodes, removed_nodes(nodes, ids, k as nat), p@))
                ==> #[trigger] removed_nodes(nodes, ids, n).contains(k as usize),
    decreases n,
{
    if n > 0 {
        let m = (n - 1) as nat;
        lemma_removed_nodes(nodes, ids, m);
        let prev = removed_nodes(nodes, ids, m);
        let cur = removed_nodes(nodes, ids, n);
        if cur != prev {
            assert(cur == prev.push(m as usize));
            assert(cur[prev.len() as int] == m as usize);
        }
        assert forall|k: int| 0 <= k < m && #[trigger] prev.contains(k as usize) implies cur.contains(
            k as usize,
        ) by {
            let i = choose|i: int| 0 <= i < prev.len() && prev[i] == k as usize;
            assert(cur[i] == k as usize);
        }
        assert forall|k: int|
            0 <= k < n && nodes[k].deletable != Some(false) && requested(ids, nodes[k].id@)
                implies #[trigger] cur.contains(k as usize) by {
            if k < m {
                assert(prev.contains(k as usize));
            } else {
                assert(cur[prev.len() as int] == k as usize);
            }
        }
        assert forall|k: int|
            0 <= k < n && nodes[k].deletable != Some(false) && (nodes[k].parent_id matches Some(
                p,
            ) && picked_node(nodes, removed_nodes(nodes, ids, k as nat), p@))
                implies #[trigger] cur.contains(k as usize) by {
            if k < m {
                assert(prev.contains(k as usize));
            } else {
                assert(cur[prev.len() as int] == k as usize);
            }
        }
    }
}

proof fn lemma_removed_edges(
    nodes: Seq<NodeSummary>,
    gone: Seq<usize>,
    edges: Seq<EdgeSummary>,
    ids: Seq<&str>,
    m: nat,
)
    requires
        m <= edges.len(),
        edges.len() <= usize::MAX,
    ensures
        forall|i: int|
            0 <= i < removed_edges(nodes, gone, edges, ids, m).len() ==> (#[trigger] removed_edges(
                nodes,
                gone,
                edges,
                ids,
                m,
            )[i] as int) < edges.len() && edges[removed_edges(nodes, gone, edges, ids, m)[i] as int].deletable
                != Some(false),
        forall|j: int|
            0 <= j < edges.len() && cascades(nodes, gone, edges, j) ==> #[trigger] removed_edges(
                nodes,
                gone,
                edges,
                ids,
                m,
            ).contains(j as usize),
        forall|j: int|
            0 <= j < m && edges[j].deletable != Some(false) && requested(ids, edges[j].id@)
                ==> #[trigger] picked_edge(edges, removed_edges(nodes, gone, edges, ids, m), edges[j].id@),
    decreases m,
{
    let p = |j: int| cascades(nodes, gone, edges, j);
    if m == 0 {
        lemma_indices_where(edges.len(), p);
        assert(removed_edges(nodes, gone, edges, ids, 0) == indices_where(edges.len(), p));
        assert forall|j: int|
            0 <= j < edges.len() && cascades(nodes, gone, edges, j) implies #[trigger] removed_edges(
            nodes,
            gone,
            edges,
            ids,
            0,
        ).contains(j as usize) by {
            assert(p(j));
        }
    } else {
        let k = (m - 1) as nat;
        lemma_removed_edges(nodes, gone, edges, ids, k);
        let prev = removed_edges(nodes, gone, edges, ids, k);
        let cur = removed_edges(nodes, gone, edges, ids, m);
        if cur != prev {
            assert(cur == prev.push(k as usize));
            assert(cur[prev.len() as int] == k as usize);
            assert forall|j: int|
                0 <= j < edges.len() && cascades(nodes, gone, edges, j) implies #[trigger] cur.contains(
                j as usize,
            ) by {
                assert(prev.contains(j as usize));
                let i = choose|i: int| 0 <= i < prev.len() && prev[i] == j as usize;
                assert(cur[i] == j as usize);
            }
            assert forall|j: int|
                0 <= j < m && edges[j].deletable != Some(false) && requested(ids, edges[j].id@)
                    implies #[trigger] picked_edge(edges, cur, edges[j].id@) by {
                if j < k {
                    assert(picked_edge(edges, prev, edges[j].id@));
                    let i = choose|i: int|
                        0 <= i < prev.len() && #[trigger] edges[prev[i] as int].id@ == edges[j].id@;
                    assert(cur[i] == prev[i]);
                } else {
                    assert(edges[cur[prev.len() as int] as int].id@ == edges[j].id@);
                }
            }
        } else {
            assert forall|j: int|
                0 <= j < m && edges[j].deletable != Some(false) && requested(ids, edges[j].id@)
                    implies #[trigger] picked_edge(edges, cur, edges[j].id@) by {
                if j < k {
                    assert(picked_edge(edges, prev, edges[j].id@));
                }
            }
        }
    }
}

/// What a deletion removes: no node or edge marked `deletable:
/// Some(false)`; every listed deletable node; every deletable node whose
/// parent is removed earlier in the list; every deletable edge touching
/// a removed node; and, for every deletable listed edge, an edge with
/// its id. Removed nodes come in list order, without repeats.
pub proof fn lemma_elements_to_remove(
    nodes: Seq<NodeSummary>,
    edges: Seq<EdgeSummary>,
    node_ids: Seq<&str>,
    edge_ids: Seq<&str>,
)
    requires
        nodes.len() <= usize::MAX,
        edges.len() <= usize::MAX,
    ensures
        ({
            let rn = removed_nodes(nodes, node_ids, nodes.len());
            let re = removed_edges(nodes, rn, edges, edge_ids, edges.len());
            &&& forall|i: int|
                0 <= i < rn.len() ==> (#[trigger] rn[i] as int) < nodes.len() && nodes[rn[i] as int].deletable
                    != Some(false)
            &&& forall|i: int, j: int| 0 <= i < j < rn.len() ==> #[trigger] rn[i] < #[trigger] rn[j]
            &&& forall|k: int|
                0 <= k < nodes.len() && nodes[k].deletable != Some(false) && requested(
                    node_ids,
                    nodes[k].id@,
                ) ==> #[trigger] rn.contains(k as usize)
            &&& forall|k: int|
                0 <= k < nodes.len() && nodes[k].deletable != Some(false) && (
                nodes[k].parent_id matches Some(p) && picked_node(
                    nodes,
                    removed_nodes(nodes, node_ids, k as nat),
                    p@,
                )) ==> #[trigger] rn.contains(k as usize)
            &&& forall|i: int|
                0 <= i < re.len() ==> (#[trigger] re[i] as int) < edges.len() && edges[re[i] as int].deletable
                    != Some(false)
            &&& forall|j: int|
                0 <= j < edges.len() && cascades(nodes, rn, edges, j) ==> #[trigger] re.contains(
                    j as usize,
                )
            &&& forall|j: int|
                0 <= j < edges.len() && edges[j].deletable != Some(false) && requested(
                    edge_ids,
                    edges[j].id@,
                ) ==> #[trigger] picked_edge(edges, re, edges[j].id@)
        }),
{
    lemma_removed_nodes(nodes, node_ids, nodes.len());
    let rn = removed_nodes(nodes, node_ids, nodes.len());
    lemma_removed_edges(nodes, rn, edges, edge_ids, edges.len());
}

/// Options of the query for the nodes inside a screen rectangle.
#[derive(Debug, Clone, Copy, PartialEq, Eq, Structural)]
pub struct GetNodesInsideParams {
    /// Count nodes that are only partly inside.
    pub partially: bool,
    /// Skip nodes whose `selectable` flag is `false`.
    pub exclude_non_selectable_nodes: bool,
}

impl Default for GetNodesInsideParams {
    fn default() -> (r: GetNodesInsideParams)
        ensures
            !r.partially,
            !r.exclude_non_selectable_nodes,
    {
        GetNodesInsideParams { partially: false, exclude_non_selectable_nodes: false }
    }
}

/// What fitting the view reads of a node.
#[derive(Debug, PartialEq, Eq)]
pub struct FitViewCandidate {
    pub id: String,
    /// Both the width and the height have been measured.
    pub measured: bool,
    pub hidden: Option<bool>,
}

/// `ids` lists `id`.
pub open spec fn lists_id(ids: Seq<String>, id: Seq<char>) -> bool {
    exists|i: int| 0 <= i < ids.len() && #[trigger] ids[i]@ == id
}

/// The node takes part in fitting the view: it is measured, visible
/// (or hidden nodes are included), and listed when a list is given.
pub open spec fn fits_view(n: FitViewCandidate, ids: Option<Seq<String>>, include_hidden: bool) -> bool {
    &&& n.measured
    &&& (include_hidden || n.hidden != Some(true))
    &&& match ids {
        Some(l) => lists_id(l, n.id@),
        None => true,
    }
}

fn is_listed(ids: &[String], id: &str) -> (r: bool)
    ensures
        r == lists_id(ids@, id@),
{
    let mut i: usize = 0;
    while i < ids.len()
        invariant
            i <= ids@.len(),
            forall|k: int| 0 <= k < i ==> #[trigger] ids@[k]@ != id@,
        decreases ids@.len() - i,
    {
        if str_eq(ids[i].as_str(), id) {
            assert(ids@[i as int]@ == id@);
            return true;
        }
        i = i + 1;
    }
    false
}

/// The listed ids, when a list is given.
pub open spec fn ids_view(ids: Option<&[String]>) -> Option<Seq<String>> {
    match ids {
        Some(l) => Some(l@),
        None => None,
    }
}

/// Indices of the nodes that take part in fitting the view.
pub fn fit_view_nodes(
    nodes: &[FitViewCandidate],
    ids: Option<&[String]>,
    include_hidden: bool,
) -> (r: Vec<usize>)
    ensures
        r@ == indices_where(
            nodes@.len(),
            |k: int| fits_view(nodes@[k], ids_view(ids), include_hidden),
        ),
{
    let ghost p = |k: int| fits_view(nodes@[k], ids_view(ids), include_hidden);
    let mut r: Vec<usize> = Vec::new();
    let mut k: usize = 0;
    while k < nodes.len()
        invariant
            k <= nodes@.len(),
            p == (|k: int| fits_view(nodes@[k], ids_view(ids), include_hidden)),
            r@ == indices_where(k as nat, p),
        decreases nodes@.len() - k,
    {
        let n = &nodes[k];
        let visible = n.measured && (include_hidden || n.hidden != Some(true));
        let listed = match ids {
            Some(l) => is_listed(l, n.id.as_str()),
            None => true,
        };
        if visible && listed {
            r.push(k);
        }
        k = k + 1;
    }
    r
}

/// Kind of boundary a node may be moved within.
#[derive(Debug, Clone, Copy, PartialEq, Eq, Structural)]
pub enum ExtentKind {
    /// No boundary of its own.
    Unbounded,
    /// The parent node's rectangle.
    Parent,
    /// Explicit coordinates.
    Custom,
}

/// Which boundary a moved node is clamped to.
#[derive(Debug, Clone, Copy, PartialEq, Eq, Structural)]
pub enum ExtentChoice {
    /// The default extent of the flow.
    FlowDefault,
    /// The node's own coordinates.
    Own,
    /// The node's own coordinates, shifted by its parent's position.
    OwnShiftedByParent,
    /// The parent's measured rectangle.
    ParentBox,
    /// The node asks for its parent's rectangle but has no parent: the
    /// default extent applies and the missing parent is reported.
    MissingParent,
}

/// Which boundary applies to a node being moved: a node bound to its
/// parent (and not expanding it) takes the parent's rectangle when the
/// parent is measured, and reports a missing parent; a node with its own
/// coordinates and a parent has them shifted by the parent's position.
pub fn extent_choice(
    kind: ExtentKind,
    has_parent: bool,
    expand_parent: bool,
    parent_measured: bool,
) -> (r: ExtentChoice)
    ensures
        r == (match kind {
            ExtentKind::Parent => if expand_parent {
                ExtentChoice::FlowDefault
            } else if !has_parent {
                ExtentChoice::MissingParent
            } else if parent_measured {
                ExtentChoice::ParentBox
            } else {
                ExtentChoice::FlowDefault
            },
            ExtentKind::Custom => if has_parent {
                ExtentChoice::OwnShiftedByParent
            } else {
                ExtentChoice::Own
            },
            ExtentKind::Unbounded => ExtentChoice::FlowDefault,
        }),
{
    match kind {
        ExtentKind::Parent => {
            if expand_parent {
                ExtentChoice::FlowDefault
            } else if !has_parent {
                ExtentChoice::MissingParent
            } else if parent_measured {
                ExtentChoice::ParentBox
            } else {
                ExtentChoice::FlowDefault
            }
        },
        ExtentKind::Custom => {
            if has_parent {
                ExtentChoice::OwnShiftedByParent
            } else {
                ExtentChoice::Own
            }
        },
        ExtentKind::Unbounded => ExtentChoice::FlowDefault,
    }
}

} // verus!
