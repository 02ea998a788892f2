//! Edge ids, adding an edge unless one joins the same handles, and
//! moving an edge to a new connection.
//!
//! An edge is held as an [`EdgeRecord`]: its id and its connection, the
//! fields these operations read, with the rest of its attributes carried
//! along unchanged.

use vstd::prelude::*;
use vstd::string::*;
use crate::types::connection::Connection;
use crate::utils::text::{opt_as_str, opt_str_eq, opt_string_view, str_eq};

verus! {

/// Handle id as it appears in a default edge id: the id, or nothing.
pub open spec fn or_empty(h: Option<String>) -> Seq<char> {
    match h {
        Some(s) => s@,
        None => Seq::empty(),
    }
}

/// Default edge id `xy-edge__{source}{sourceHandle}-{target}{targetHandle}`.
pub open spec fn default_edge_id(c: Connection) -> Seq<char> {
    "xy-edge__"@ + c.source@ + or_empty(c.source_handle) + "-"@ + c.target@ + or_empty(
        c.target_handle,
    )
}

fn append_or_empty(s: &mut String, h: &Option<String>)
    ensures
        final(s)@ == old(s)@ + or_empty(*h),
{
    match h {
        Some(x) => s.append(x.as_str()),
        None => {
            assert(old(s)@ + Seq::<char>::empty() =~= old(s)@);
        },
    }
}

/// The default edge id of a connection.
pub fn get_edge_id(c: &Connection) -> (r: String)
    ensures
        r@ == default_edge_id(*c),
{
    let mut s = String::from_str("xy-edge__");
    s.append(c.source.as_str());
    append_or_empty(&mut s, &c.source_handle);
    s.append("-");
    s.append(c.target.as_str());
    append_or_empty(&mut s, &c.target_handle);
    s
}

/// `true` when both handle ids are absent, or both present and equal.
pub fn handles_match(a: &Option<String>, b: &Option<String>) -> (r: bool)
    ensures
        r == (opt_string_view(*a) == opt_string_view(*b)),
{
    opt_str_eq(opt_as_str(a), opt_as_str(b))
}

/// Both connections join the same nodes through the same handles.
pub open spec fn same_ends(a: Connection, b: Connection) -> bool {
    &&& a.source@ == b.source@
    &&& a.target@ == b.target@
    &&& opt_string_view(a.source_handle) == opt_string_view(b.source_handle)
    &&& opt_string_view(a.target_handle) == opt_string_view(b.target_handle)
}

/// Both ends of the connection name a node.
pub open spec fn has_ends(c: Connection) -> bool {
    c.source@.len() > 0 && c.target@.len() > 0
}

/// An edge: its id and connection, with the rest of its attributes.
#[derive(Debug, PartialEq, Eq)]
pub struct EdgeRecord<A> {
    pub id: String,
    pub ends: Connection,
    pub attrs: A,
}

/// Some edge of `edges` joins the same handles as `c`.
pub open spec fn joined_already<A>(edges: Seq<EdgeRecord<A>>, c: Connection) -> bool {
    exists|k: int| 0 <= k < edges.len() && same_ends(#[trigger] edges[k].ends, c)
}

fn same_ends_exec(a: &Connection, b: &Connection) -> (r: bool)
    ensures
        r == same_ends(*a, *b),
{
    str_eq(a.source.as_str(), b.source.as_str()) && str_eq(a.target.as_str(), b.target.as_str())
        && handles_match(&a.source_handle, &b.source_handle) && handles_match(
        &a.target_handle,
        &b.target_handle,
    )
}

fn connection_exists<A>(c: &Connection, edges: &Vec<EdgeRecord<A>>) -> (r: bool)
    ensures
        r == joined_already(edges@, *c),
{
    let mut k: usize = 0;
    while k < edges.len()
        invariant
            k <= edges@.len(),
            forall|j: int| 0 <= j < k ==> !same_ends(#[trigger] edges@[j].ends, *c),
        decreases edges@.len() - k,
    {
        if same_ends_exec(&edges[k].ends, c) {
            assert(same_ends(edges@[k as int].ends, *c));
            return true;
        }
        k = k + 1;
    }
    false
}

/// Append `candidate` unless one of its ends names no node or an edge
/// already joins the same handles; returns whether it was appended.
pub fn push_unique<A>(candidate: EdgeRecord<A>, edges: &mut Vec<EdgeRecord<A>>) -> (r: bool)
    ensures
        r == (has_ends(candidate.ends) && !joined_already(old(edges)@, candidate.ends)),
        final(edges)@ == (if r {
            old(edges)@.push(candidate)
        } else {
            old(edges)@
        }),
{
    if candidate.ends.source.unicode_len() == 0 || candidate.ends.target.unicode_len() == 0 {
        return false;
    }
    if connection_exists(&candidate.ends, edges) {
        return false;
    }
    edges.push(candidate);
    true
}

/// Generates the id of an edge made from a connection. Implemented by
/// users of the library who want their own ids.
pub trait EdgeIdGenerator {
    /// The id the generator gives an edge made from `connection`. An
    /// implementation written outside verified code keeps this default: some
    /// id that depends on the generator and the connection, of which nothing
    /// more is known.
    closed spec fn spec_edge_id(&self, connection: Connection) -> Seq<char> {
        vstd::pervasive::arbitrary::<spec_fn(&Self, Connection) -> Seq<char>>()(self, connection)
    }

    /// Id for an edge made from `connection`.
    fn edge_id(&self, connection: &Connection) -> (r: String)
        ensures
            r@ == self.spec_edge_id(*connection),
    ;
}

/// Id an edge made from `c` gets: the user generator's, or the default.
pub open spec fn generated_id(generator: Option<GetEdgeIdFn>, c: Connection) -> Seq<char> {
    match generator {
        Some(g) => g.spec_edge_id(c),
        None => default_edge_id(c),
    }
}

/// Boxed edge id generator.
pub type GetEdgeIdFn = Box<dyn EdgeIdGenerator>;

/// Id for an edge made from `c`: the user generator's, or the default.
fn generate_edge_id(generator: &Option<GetEdgeIdFn>, c: &Connection) -> (r: String)
    ensures
        r@ == generated_id(*generator, *c),
{
    match generator {
        Some(g) => g.edge_id(c),
        None => get_edge_id(c),
    }
}

/// Options of [`add_edge`].
pub struct AddEdgeOptions {
    /// Custom id generator; `None` uses [`get_edge_id`].
    pub get_edge_id: Option<GetEdgeIdFn>,
}

impl Default for AddEdgeOptions {
    fn default() -> (r: AddEdgeOptions)
        ensures
            r.get_edge_id is None,
    {
        AddEdgeOptions { get_edge_id: None }
    }
}

/// What [`add_edge`] adds: a complete edge, or a connection (with the
/// attributes its new edge gets) whose edge id is generated.
pub enum AddEdgeInput<A> {
    Edge(EdgeRecord<A>),
    Connection(Connection, A),
}

/// Connection an input would add.
pub open spec fn input_ends<A>(input: AddEdgeInput<A>) -> Connection {
    match input {
        AddEdgeInput::Edge(e) => e.ends,
        AddEdgeInput::Connection(c, _) => c,
    }
}

/// Add the edge described by `edge_params` to `edges`, unless an end
/// names no node or an edge already joins the same handles; returns
/// whether it was added. A connection gets a generated id (the default
/// one without a generator) and the attributes given with it.
pub fn add_edge_in_place<A>(
    edge_params: AddEdgeInput<A>,
    edges: &mut Vec<EdgeRecord<A>>,
    options: AddEdgeOptions,
) -> (r: bool)
    ensures
        r == (has_ends(input_ends(edge_params)) && !joined_already(
            old(edges)@,
            input_ends(edge_params),
        )),
        r == (input_ends(edge_params).source@.len() > 0 && input_ends(edge_params).target@.len() > 0
            && forall|k: int|
            0 <= k < old(edges)@.len() ==> !{
                let e = #[trigger] old(edges)@[k].ends;
                let c = input_ends(edge_params);
                &&& e.source@ == c.source@
                &&& e.target@ == c.target@
                &&& opt_string_view(e.source_handle) == opt_string_view(c.source_handle)
                &&& opt_string_view(e.target_handle) == opt_string_view(c.target_handle)
            }),
        !r ==> final(edges)@ == old(edges)@,
        r ==> final(edges)@.len() == old(edges)@.len() + 1,
        r ==> final(edges)@.drop_last() == old(edges)@,
        r ==> final(edges)@.last().ends == input_ends(edge_params),
        r ==> match edge_params {
            AddEdgeInput::Edge(e) => final(edges)@.last() == e,
            AddEdgeInput::Connection(c, a) => {
                &&& final(edges)@.last().attrs == a
                &&& final(edges)@.last().id@ == generated_id(options.get_edge_id, c)
            },
        },
{
    let candidate = match edge_params {
        AddEdgeInput::Edge(e) => e,
        AddEdgeInput::Connection(c, attrs) => {
            if c.source.unicode_len() == 0 || c.target.unicode_len() == 0 {
                return false;
            }
            let id = generate_edge_id(&options.get_edge_id, &c);
            EdgeRecord { id, ends: c, attrs }
        },
    };
    let r = push_unique(candidate, edges);
    proof {
        lemma_joined_already_compares_all_four(old(edges)@, input_ends(edge_params));
        if r {
            assert(edges@.drop_last() =~= old(edges)@);
        }
    }
    r
}

/// [`add_edge_in_place`] on an owned list, returning the list.
pub fn add_edge<A>(
    edge_params: AddEdgeInput<A>,
    edges: Vec<EdgeRecord<A>>,
    options: AddEdgeOptions,
) -> (r: Vec<EdgeRecord<A>>)
    ensures
        has_ends(input_ends(edge_params)) && !joined_already(edges@, input_ends(edge_params)) ==> {
            &&& r@.len() == edges@.len() + 1
            &&& r@.drop_last() == edges@
            &&& r@.last().ends == input_ends(edge_params)
            &&& match edge_params {
                AddEdgeInput::Edge(e) => r@.last() == e,
                AddEdgeInput::Connection(c, a) => {
                    &&& r@.last().attrs == a
                    &&& r@.last().id@ == generated_id(options.get_edge_id, c)
                },
            }
        },
        !(has_ends(input_ends(edge_params)) && !joined_already(edges@, input_ends(edge_params)))
            ==> r@ == edges@,
{
    let mut edges = edges;
    add_edge_in_place(edge_params, &mut edges, options);
    edges
}

/// Two connections count as the same only when they agree on all four of
/// source, target, source handle and target handle: an edge is already
/// joined exactly when some edge matches the connection on all four.
pub proof fn lemma_joined_already_compares_all_four<A>(edges: Seq<EdgeRecord<A>>, c: Connection)
    ensures
        joined_already(edges, c) == exists|k: int|
            0 <= k < edges.len() && {
                let e = #[trigger] edges[k].ends;
                &&& e.source@ == c.source@
                &&& e.target@ == c.target@
                &&& opt_string_view(e.source_handle) == opt_string_view(c.source_handle)
                &&& opt_string_view(e.target_handle) == opt_string_view(c.target_handle)
            },
{
}

/// Adding an edge twice adds it once: after a connection was added, the
/// same connection is refused, whatever its id and attributes.
pub proof fn lemma_add_twice_adds_once<A>(edges: Seq<EdgeRecord<A>>, e: EdgeRecord<A>, c: Connection)
    requires
        same_ends(e.ends, c),
    ensures
        joined_already(edges.push(e), c),
{
    assert(edges.push(e)[edges.len() as int] == e);
}

/// Options of [`reconnect_edge`].
pub struct ReconnectEdgeOptions {
    /// Give the moved edge an id generated from its new connection
    /// (the default) instead of keeping its old id.
    pub should_replace_id: bool,
    /// Custom id generator; `None` uses [`get_edge_id`].
    pub get_edge_id: Option<GetEdgeIdFn>,
}

impl Default for ReconnectEdgeOptions {
    fn default() -> (r: ReconnectEdgeOptions)
        ensures
            r.should_replace_id,
            r.get_edge_id is None,
    {
        ReconnectEdgeOptions { should_replace_id: true, get_edge_id: None }
    }
}

/// `edges` without the edges whose id is `id`, in their order.
pub open spec fn without_id<A>(edges: Seq<EdgeRecord<A>>, id: Seq<char>) -> Seq<EdgeRecord<A>> {
    edges.filter(|e: EdgeRecord<A>| e.id@ != id)
}

/// Some edge of `edges` has the id `id`.
pub open spec fn has_id<A>(edges: Seq<EdgeRecord<A>>, id: Seq<char>) -> bool {
    exists|k: int| 0 <= k < edges.len() && #[trigger] edges[k].id@ == id
}

proof fn lemma_without_id_step<A>(s: Seq<EdgeRecord<A>>, id: Seq<char>, i: int)
    requires
        0 <= i < s.len(),
    ensures
        without_id(s.take(i + 1), id) == (if s[i].id@ != id {
            without_id(s.take(i), id).push(s[i])
        } else {
            without_id(s.take(i), id)
        }),
{
    reveal(Seq::filter);
    assert(s.take(i + 1).drop_last() =~= s.take(i));
    assert(s.take(i + 1).last() == s[i]);
}

/// `edges` without the edges whose id is the old edge's, followed by
/// the old edge moved to `new_connection` under `new_id`, its other
/// attributes cloned.
pub fn replace_edge<A: Clone>(
    old_edge: &EdgeRecord<A>,
    new_connection: Connection,
    new_id: String,
    edges: Vec<EdgeRecord<A>>,
) -> (r: Vec<EdgeRecord<A>>)
    ensures
        r@.len() == without_id(edges@, old_edge.id@).len() + 1,
        r@.drop_last() == without_id(edges@, old_edge.id@),
        r@.last().id == new_id,
        r@.last().ends == new_connection,
        cloned(old_edge.attrs, r@.last().attrs),
{
    let ghost all = edges@;
    let mut kept: Vec<EdgeRecord<A>> = Vec::new();
    proof {
        reveal(Seq::filter);
        assert(all.take(0) =~= Seq::<EdgeRecord<A>>::empty());
    }
    for e in it: edges.into_iter()
        invariant
            it.seq() == all,
            kept@ == without_id(all.take(it.index() as int), old_edge.id@),
    {
        proof {
            lemma_without_id_step(all, old_edge.id@, it.index() as int);
        }
        if !str_eq(e.id.as_str(), old_edge.id.as_str()) {
            kept.push(e);
        }
    }
    proof {
        assert(all.take(all.len() as int) =~= all);
    }
    let moved = EdgeRecord { id: new_id, ends: new_connection, attrs: old_edge.attrs.clone() };
    kept.push(moved);
    proof {
        assert(kept@.drop_last() =~= without_id(all, old_edge.id@));
    }
    kept
}

fn find_id<A>(edges: &Vec<EdgeRecord<A>>, id: &str) -> (r: bool)
    ensures
        r == has_id(edges@, id@),
{
    let mut k: usize = 0;
    while k < edges.len()
        invariant
            k <= edges@.len(),
            forall|j: int| 0 <= j < k ==> #[trigger] edges@[j].id@ != id@,
        decreases edges@.len() - k,
    {
        if str_eq(edges[k].id.as_str(), id) {
            assert(edges@[k as int].id@ == id@);
            return true;
        }
        k = k + 1;
    }
    false
}

/// Move `old_edge` to `new_connection`. Nothing changes when an end of
/// the new connection names no node or no edge has the old edge's id.
/// Otherwise every edge with that id is dropped and the moved edge is
/// appended: with the old id, or (by default) an id generated from the
/// new connection, and the old edge's other attributes.
pub fn reconnect_edge<A: Clone>(
    old_edge: &EdgeRecord<A>,
    new_connection: Connection,
    edges: Vec<EdgeRecord<A>>,
    options: ReconnectEdgeOptions,
) -> (r: Vec<EdgeRecord<A>>)
    ensures
        !(has_ends(new_connection) && has_id(edges@, old_edge.id@)) ==> r@ == edges@,
        has_ends(new_connection) && has_id(edges@, old_edge.id@) ==> {
            &&& r@.len() == without_id(edges@, old_edge.id@).len() + 1
            &&& r@.drop_last() == without_id(edges@, old_edge.id@)
            &&& r@.last().ends == new_connection
            &&& cloned(old_edge.attrs, r@.last().attrs)
            &&& !options.should_replace_id ==> r@.last().id@ == old_edge.id@
            &&& options.should_replace_id ==> r@.last().id@ == generated_id(
                options.get_edge_id,
                new_connection,
            )
        },
{
    if new_connection.source.unicode_len() == 0 || new_connection.target.unicode_len() == 0 {
        return edges;
    }
    if !find_id(&edges, old_edge.id.as_str()) {
        return edges;
    }
    let new_id = if options.should_replace_id {
        generate_edge_id(&options.get_edge_id, &new_connection)
    } else {
        old_edge.id.clone()
    };
    replace_edge(old_edge, new_connection, new_id, edges)
}

} // verus!
