//! Set comparison.

use vstd::prelude::*;
use std::collections::HashSet;
use vstd::std_specs::hash::obeys_key_model;

verus! {

/// `==` of std's `HashSet`, which is documented to hold when both sets
/// contain the same elements. Claimed over the sets' views, for keys
/// whose `Eq` and `Hash` behave as the view model of vstd expects.
#[verifier::external_body]
fn hash_sets_eq<T: Eq + std::hash::Hash>(a: &HashSet<T>, b: &HashSet<T>) -> (r: bool)
    ensures
        obeys_key_model::<T>() ==> r == (a@ == b@),
{
    a == b
}

/// `true` iff the two sets hold exactly the same elements.
pub fn are_sets_equal<T: Eq + std::hash::Hash>(a: &HashSet<T>, b: &HashSet<T>) -> (r: bool)
    ensures
        obeys_key_model::<T>() ==> r == (a@ == b@),
{
    hash_sets_eq(a, b)
}

} // verus!
