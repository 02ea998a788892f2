//! Small pan/zoom helpers: right-click panning and class-list tests.

use vstd::prelude::*;
use crate::types::panzoom::PanOnDrag;
use crate::utils::text::str_eq;

verus! {

/// `true` when `buttons` lists `button`.
pub(crate) fn buttons_contain(buttons: &Vec<u8>, button: u8) -> (r: bool)
    ensures
        r == buttons@.contains(button),
{
    let mut i: usize = 0;
    while i < buttons.len()
        invariant
            i <= buttons@.len(),
            forall|j: int| 0 <= j < i ==> buttons@[j] != button,
        decreases buttons@.len() - i,
    {
        if buttons[i] == button {
            assert(buttons@[i as int] == button);
            return true;
        }
        i = i + 1;
    }
    false
}

/// `true` when `p` pans with `button`: only an explicit button list can
/// name a button, so `On` and `Off` never do.
pub open spec fn lists_button(p: PanOnDrag, button: u8) -> bool {
    match p {
        PanOnDrag::Buttons(b) => b@.contains(button),
        _ => false,
    }
}

/// `true` iff a right click should pan: the button in use is the right
/// one (2) and the pan-on-drag configuration lists it.
pub fn is_right_click_pan(pan_on_drag: &PanOnDrag, used_button: u8) -> (r: bool)
    ensures
        r == (used_button == 2 && lists_button(*pan_on_drag, 2)),
{
    if used_button != 2 {
        return false;
    }
    match pan_on_drag {
        PanOnDrag::Buttons(btns) => buttons_contain(btns, 2),
        _ => false,
    }
}

/// `true` when the class `name` is non-empty and one of `classes` is
/// exactly that name.
pub open spec fn wrapped_with(classes: Seq<String>, name: Seq<char>) -> bool {
    name.len() > 0 && exists|i: int| 0 <= i < classes.len() && #[trigger] classes[i]@ == name
}

/// `true` if one of the class names collected from the event target and
/// its ancestors is `class_name`. An empty class name matches nothing.
pub fn is_wrapped_with_class(ancestor_classes: &[String], class_name: &str) -> (r: bool)
    ensures
        r == wrapped_with(ancestor_classes@, class_name@),
{
    if class_name.unicode_len() == 0 {
        return false;
    }
    let mut i: usize = 0;
    while i < ancestor_classes.len()
        invariant
            i <= ancestor_classes@.len(),
            class_name@.len() > 0,
            forall|j: int| 0 <= j < i ==> ancestor_classes@[j]@ != class_name@,
        decreases ancestor_classes@.len() - i,
    {
        if str_eq(ancestor_classes[i].as_str(), class_name) {
            assert(ancestor_classes@[i as int]@ == class_name@);
            return true;
        }
        i = i + 1;
    }
    false
}

} // verus!
