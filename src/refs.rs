//! Per-depth slots for host objects that follow the state stack.
//!
//! A host keeps one queue per kind of object (a fill gradient, a stroke
//! pattern); the object set at stack depth `d` lives in slot `d`.
use vstd::prelude::*;

verus! {

/// Where to store an object set at stack depth `depth`: the queue is cut to
/// `depth + 1` entries and the object goes in the last one. Returns the new
/// length and the slot.
pub fn stash_ref(depth: usize) -> (r: (usize, usize))
    requires
        depth < usize::MAX,
    ensures
        r.0 == depth + 1,
        r.1 == depth,
{
    (depth + 1, depth)
}

/// Which slot holds the object in force at stack depth `depth` in a queue of
/// `len` entries: the deepest one not past `depth`, or none when the queue is
/// empty.
pub fn fetch_ref(depth: usize, len: usize) -> (r: Option<usize>)
    ensures
        len == 0 ==> r.is_none(),
        len > 0 ==> r == Some(if depth < len { depth } else { (len - 1) as usize }),
{
    if len == 0 {
        None
    } else if depth < len {
        Some(depth)
    } else {
        Some(len - 1)
    }
}

} // verus!
