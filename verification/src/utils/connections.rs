//! Connection-status classification and comparison of per-handle
//! connection maps.

use vstd::prelude::*;
use crate::types::connection::{HandleConnection, HandleConnectionMap};

verus! {

/// Connection-status modifier for a validity flag: `"valid"`,
/// `"invalid"`, or `None` while undecided.
pub fn get_connection_status(is_valid: Option<bool>) -> (r: Option<&'static str>)
    ensures
        r is Some <==> is_valid is Some,
        is_valid == Some(true) ==> r.unwrap()@ == "valid"@,
        is_valid == Some(false) ==> r.unwrap()@ == "invalid"@,
{
    match is_valid {
        Some(true) => Some("valid"),
        Some(false) => Some("invalid"),
        None => None,
    }
}

/// What [`are_connection_maps_equal`] answers: both absent, or both
/// present with the same set of keys.
pub open spec fn same_key_sets(a: Option<&HandleConnectionMap>, b: Option<&HandleConnectionMap>) -> bool {
    match (a, b) {
        (None, None) => true,
        (Some(x), Some(y)) => x@.dom() == y@.dom(),
        _ => false,
    }
}

/// Compares two connection maps by their key sets: both absent is equal,
/// exactly one absent is unequal, otherwise the keys decide (values are
/// not compared).
pub fn are_connection_maps_equal(
    a: Option<&HandleConnectionMap>,
    b: Option<&HandleConnectionMap>,
) -> (r: bool)
    requires
        a matches Some(x) ==> x.wf(),
        b matches Some(y) ==> y.wf(),
    ensures
        r == same_key_sets(a, b),
{
    match (a, b) {
        (None, None) => true,
        (Some(x), Some(y)) => {
            proof {
                assert(x@.dom() =~= x.keys().to_set());
                assert(y@.dom() =~= y.keys().to_set());
                x.keys().unique_seq_to_set();
                y.keys().unique_seq_to_set();
            }
            if x.len() != y.len() {
                return false;
            }
            let n = x.len();
            let mut i: usize = 0;
            while i < n
                invariant
                    a == Some(x),
                    b == Some(y),
                    n == x.entries().len(),
                    i <= n,
                    forall|j: int| 0 <= j < i ==> y.contains(#[trigger] x.keys()[j]),
                decreases n - i,
            {
                if !y.contains_key(x.key_at(i).as_str()) {
                    proof {
                        let k = x.keys()[i as int];
                        assert(x.keys().contains(k));
                        assert(x@.dom().contains(k));
                        assert(!y@.dom().contains(k));
                        assert(x@.dom() != y@.dom());
                    }
                    return false;
                }
                i = i + 1;
            }
            proof {
                assert forall|k: Seq<char>| x.keys().to_set().contains(k) implies y.keys().to_set().contains(k) by {
                    let j = choose|j: int| 0 <= j < x.keys().len() && x.keys()[j] == k;
                    assert(y.contains(x.keys()[j]));
                }
                vstd::set_lib::lemma_subset_equality(x.keys().to_set(), y.keys().to_set());
            }
            true
        },
        _ => false,
    }
}

/// Values of `entries` (in order) whose key is not a key of `other`.
pub open spec fn missing_from(entries: Seq<(String, HandleConnection)>, other: Map<Seq<char>, HandleConnection>) -> Seq<HandleConnection>
    decreases entries.len(),
{
    if entries.len() == 0 {
        Seq::empty()
    } else {
        let rest = missing_from(entries.drop_last(), other);
        if other.dom().contains(entries.last().0@) {
            rest
        } else {
            rest.push(entries.last().1)
        }
    }
}

/// Connections of `a` (in `a`'s order) whose key does not occur in `b`.
pub fn connection_diff(a: &HandleConnectionMap, b: &HandleConnectionMap) -> (r: Vec<HandleConnection>)
    ensures
        r@ == missing_from(a.entries(), b@),
{
    let n = a.len();
    let mut out: Vec<HandleConnection> = Vec::new();
    let mut i: usize = 0;
    while i < n
        invariant
            n == a.entries().len(),
            i <= n,
            out@ == missing_from(a.entries().take(i as int), b@),
        decreases n - i,
    {
        proof {
            assert(a.entries().take(i as int + 1).drop_last() =~= a.entries().take(i as int));
        }
        if !b.contains_key(a.key_at(i).as_str()) {
            out.push(a.value_at(i).clone());
        }
        i = i + 1;
    }
    proof {
        assert(a.entries().take(n as int) =~= a.entries());
    }
    out
}

/// Call `cb` with every connection that exists in `a` but not in `b`; the
/// callback is only invoked when there is at least one. The contract
/// records the call by the callback's own postcondition over that list.
pub fn handle_connection_change<F: FnOnce(Vec<HandleConnection>)>(
    a: &HandleConnectionMap,
    b: &HandleConnectionMap,
    cb: Option<F>,
)
    requires
        cb matches Some(f) ==> forall|v: Vec<HandleConnection>| f.requires((v,)),
    ensures
        cb matches Some(f) ==> (missing_from(a.entries(), b@).len() > 0 ==> exists|
            v: Vec<HandleConnection>,
        | v@ == missing_from(a.entries(), b@) && f.ensures((v,), ())),
{
    match cb {
        None => {},
        Some(f) => {
            let diff = connection_diff(a, b);
            if diff.len() > 0 {
                f(diff);
            }
        },
    }
}

/// Key-set equality of connection maps is reflexive and symmetric.
pub proof fn lemma_connection_maps_equal_reflexive_symmetric(
    a: Option<&HandleConnectionMap>,
    b: Option<&HandleConnectionMap>,
)
    ensures
        same_key_sets(a, a),
        same_key_sets(a, b) == same_key_sets(b, a),
{
}

} // verus!
