//! Handle-type resolution, the tri-state validity shown while dragging,
//! and locating a handle among a node's source and target handles.

use vstd::prelude::*;
use crate::types::connection::ConnectionMode;
use crate::types::handles::{spec_opposite_type, HandleType};
use crate::utils::text::{opt_as_str, opt_str_eq, opt_str_view, opt_string_view};
use crate::xyhandle::types::HandleSnapshot;

verus! {

/// Type of the handle a gesture works with: the edge-updater type when
/// the gesture started from an edge end, else the type of the handle
/// below the pointer, else none.
pub fn get_handle_type(
    edge_updater_type: Option<HandleType>,
    handle_below: Option<&HandleSnapshot>,
) -> (r: Option<HandleType>)
    ensures
        r == match edge_updater_type {
            Some(t) => Some(t),
            None => match handle_below {
                Some(s) => Some(s.type_),
                None => None,
            },
        },
{
    if let Some(t) = edge_updater_type {
        return Some(t);
    }
    match handle_below {
        Some(s) => Some(s.type_),
        None => None,
    }
}

/// Tri-state validity used for feedback: `Some(true)` for a valid
/// handle, `Some(false)` for an invalid one inside the radius, `None`
/// otherwise.
pub fn is_connection_valid(is_inside_radius: bool, is_handle_valid: bool) -> (r: Option<bool>)
    ensures
        r == (if is_handle_valid {
            Some(true)
        } else if is_inside_radius {
            Some(false)
        } else {
            None
        }),
{
    if is_handle_valid {
        Some(true)
    } else if is_inside_radius {
        Some(false)
    } else {
        None
    }
}

/// `true` when the handle id `h` is the requested id `want`.
pub open spec fn id_is(h: Option<String>, want: Seq<char>) -> bool {
    opt_string_view(h) == Some(want)
}

/// Index of the first handle in `ids` that answers the request: the
/// first with id `want` when an id is given, else the first handle.
pub open spec fn answers(ids: Seq<Option<String>>, want: Option<Seq<char>>, i: int) -> bool {
    &&& 0 <= i < ids.len()
    &&& match want {
        Some(w) => id_is(ids[i], w) && forall|j: int| 0 <= j < i ==> !id_is(#[trigger] ids[j], w),
        None => i == 0,
    }
}

/// `true` when some handle of `ids` answers the request.
pub open spec fn has_answer(ids: Seq<Option<String>>, want: Option<Seq<char>>) -> bool {
    match want {
        Some(w) => exists|i: int| 0 <= i < ids.len() && id_is(#[trigger] ids[i], w),
        None => ids.len() > 0,
    }
}

fn first_answer(ids: &[Option<String>], want: Option<&str>) -> (r: Option<usize>)
    ensures
        r matches Some(i) ==> answers(ids@, opt_str_view(want), i as int),
        r is None <==> !has_answer(ids@, opt_str_view(want)),
{
    match want {
        None => {
            if ids.len() > 0 {
                Some(0)
            } else {
                None
            }
        },
        Some(w) => {
            let mut i: usize = 0;
            while i < ids.len()
                invariant
                    want == Some(w),
                    i <= ids@.len(),
                    forall|j: int| 0 <= j < i ==> !id_is(#[trigger] ids@[j], w@),
                decreases ids@.len() - i,
            {
                if opt_str_eq(opt_as_str(&ids[i]), Some(w)) {
                    return Some(i);
                }
                i = i + 1;
            }
            None
        },
    }
}

/// Where a requested handle was found: on which side of the node, and
/// its index among that side's handles.
pub open spec fn located_at(
    source_ids: Seq<Option<String>>,
    target_ids: Seq<Option<String>>,
    handle_type: HandleType,
    want: Option<Seq<char>>,
    mode: ConnectionMode,
    r: Option<(HandleType, usize)>,
) -> bool {
    match mode {
        ConnectionMode::Strict => {
            let ids = if handle_type == HandleType::Source { source_ids } else { target_ids };
            match r {
                Some((side, i)) => side == handle_type && answers(ids, want, i as int),
                None => !has_answer(ids, want),
            }
        },
        ConnectionMode::Loose => match r {
            Some((side, i)) => if side == HandleType::Source {
                answers(source_ids, want, i as int)
            } else {
                !has_answer(source_ids, want) && answers(target_ids, want, i as int)
            },
            None => !has_answer(source_ids, want) && !has_answer(target_ids, want),
        },
    }
}

/// Find a handle of a node from the ids of its source and target
/// handles. In `Strict` mode only the handles of `handle_type` are
/// searched; in `Loose` mode the source handles, then the target ones.
/// With an id the first handle with that id answers, without one the
/// first handle searched.
pub fn locate_handle(
    source_ids: &[Option<String>],
    target_ids: &[Option<String>],
    handle_type: HandleType,
    handle_id: Option<&str>,
    mode: ConnectionMode,
) -> (r: Option<(HandleType, usize)>)
    ensures
        located_at(source_ids@, target_ids@, handle_type, opt_str_view(handle_id), mode, r),
{
    match mode {
        ConnectionMode::Strict => {
            let ids = match handle_type {
                HandleType::Source => source_ids,
                HandleType::Target => target_ids,
            };
            match first_answer(ids, handle_id) {
                Some(i) => Some((handle_type, i)),
                None => None,
            }
        },
        ConnectionMode::Loose => {
            match first_answer(source_ids, handle_id) {
                Some(i) => Some((HandleType::Source, i)),
                None => match first_answer(target_ids, handle_id) {
                    Some(i) => Some((HandleType::Target, i)),
                    None => None,
                },
            }
        },
    }
}

/// Break a tie between equally close handles, given their types in the
/// order they were found: with several, prefer the first handle of the
/// type opposite to the gesture's, else take the first handle.
pub fn prefer_opposite_type(types: &[HandleType], from_type: HandleType) -> (r: Option<usize>)
    ensures
        match r {
            None => types@.len() == 0,
            Some(i) => i < types@.len() && (if types@.len() > 1 && exists|k: int|
                0 <= k < types@.len() && types@[k] == spec_opposite_type(from_type) {
                types@[i as int] == spec_opposite_type(from_type) && forall|j: int|
                    0 <= j < i ==> types@[j] != spec_opposite_type(from_type)
            } else {
                i == 0
            }),
        },
{
    if types.len() == 0 {
        return None;
    }
    if types.len() > 1 {
        let opposite = from_type.opposite();
        let mut i: usize = 0;
        while i < types.len()
            invariant
                i <= types@.len(),
                opposite == spec_opposite_type(from_type),
                forall|j: int| 0 <= j < i ==> types@[j] != opposite,
            decreases types@.len() - i,
        {
            if types[i] == opposite {
                return Some(i);
            }
            i = i + 1;
        }
    }
    Some(0)
}

} // verus!
