//! Classification of the element an event starts on.

use vstd::prelude::*;
use vstd::string::*;

verus! {

/// Code of `c` after ASCII upper-casing: `a`..`z` become `A`..`Z`,
/// every other character stays.
pub open spec fn upper_code(c: char) -> int {
    if 97 <= c as int <= 122 {
        c as int - 32
    } else {
        c as int
    }
}

/// `s`, ASCII upper-cased, is `t`.
pub open spec fn upper_is(s: Seq<char>, t: Seq<char>) -> bool {
    s.len() == t.len() && forall|i: int| 0 <= i < s.len() ==> upper_code(#[trigger] s[i]) == t[i] as int
}

fn upper_matches(s: &str, t: &str) -> (r: bool)
    ensures
        r == upper_is(s@, t@),
{
    let n = s.unicode_len();
    if n != t.unicode_len() {
        return false;
    }
    let mut i: usize = 0;
    while i < n
        invariant
            n == s@.len(),
            n == t@.len(),
            i <= n,
            forall|j: int| 0 <= j < i ==> upper_code(#[trigger] s@[j]) == t@[j] as int,
        decreases n - i,
    {
        let c = s.get_char(i);
        let u = t.get_char(i);
        let code: u32 = c as u32;
        let up: u32 = if 97 <= code && code <= 122 {
            code - 32
        } else {
            code
        };
        if up != u as u32 {
            assert(upper_code(s@[i as int]) != t@[i as int] as int);
            return false;
        }
        i = i + 1;
    }
    true
}

/// `true` when the element a keyboard event starts on takes text input:
/// its node name is `INPUT`, `SELECT` or `TEXTAREA` in any letter case,
/// it is `contenteditable`, or an ancestor carries the no-key class.
pub fn is_input_dom_node(
    node_name: &str,
    has_contenteditable: bool,
    ancestor_class_list_contains_nokey: bool,
) -> (r: bool)
    ensures
        r == (upper_is(node_name@, "INPUT"@) || upper_is(node_name@, "SELECT"@) || upper_is(
            node_name@,
            "TEXTAREA"@,
        ) || has_contenteditable || ancestor_class_list_contains_nokey),
{
    let is_input = upper_matches(node_name, "INPUT") || upper_matches(node_name, "SELECT")
        || upper_matches(node_name, "TEXTAREA") || has_contenteditable;
    is_input || ancestor_class_list_contains_nokey
}

} // verus!
