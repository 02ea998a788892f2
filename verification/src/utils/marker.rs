//! Names of the built-in edge markers.

use vstd::prelude::*;
use vstd::string::*;
use crate::types::edges::MarkerType;

verus! {

/// Name a marker type has in marker ids.
pub open spec fn marker_name(t: MarkerType) -> Seq<char> {
    match t {
        MarkerType::Arrow => "arrow"@,
        MarkerType::ArrowClosed => "arrowclosed"@,
    }
}

/// The marker type's name in marker ids: `arrow` or `arrowclosed`.
pub fn marker_type_to_js(t: &MarkerType) -> (r: String)
    ensures
        r@ == marker_name(*t),
{
    match t {
        MarkerType::Arrow => String::from_str("arrow"),
        MarkerType::ArrowClosed => String::from_str("arrowclosed"),
    }
}

} // verus!
