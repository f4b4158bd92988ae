//! Moving the selection through a list that wraps around at both ends.

use vstd::prelude::*;

verus! {

/// The position after `selected` in a list of `len` items: the first item
/// after the last one, and the first item where nothing is selected.
pub open spec fn after(selected: Option<usize>, len: usize) -> usize {
    match selected {
        Some(i) => if i + 1 >= len {
            0
        } else {
            (i + 1) as usize
        },
        None => 0,
    }
}

/// The position before `selected` in a list of `len` items: the last item
/// before the first one, and the first item where nothing is selected.
pub open spec fn before(selected: Option<usize>, len: usize) -> usize {
    match selected {
        Some(i) => if i == 0 {
            (len - 1) as usize
        } else {
            (i - 1) as usize
        },
        None => 0,
    }
}

/// Moves the selection one item down.
pub fn next(selected: Option<usize>, len: usize) -> (position: usize)
    requires
        len > 0,
    ensures
        position == after(selected, len),
        position < len,
{
    match selected {
        Some(i) => if i >= len - 1 {
            0
        } else {
            i + 1
        },
        None => 0,
    }
}

/// Moves the selection one item up.
pub fn previous(selected: Option<usize>, len: usize) -> (position: usize)
    requires
        len > 0,
    ensures
        position == before(selected, len),
        (selected matches Some(i) ==> i < len) ==> position < len,
{
    match selected {
        Some(i) => if i == 0 {
            len - 1
        } else {
            i - 1
        },
        None => 0,
    }
}

} // verus!
