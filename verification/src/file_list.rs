//! Moving the selection through a list that wraps around at both ends, as
//! a list of files does.

use vstd::prelude::*;

verus! {

/// The selection one entry further down a list of `len` entries, the
/// first entry following the last. With nothing selected the first entry
/// counts as selected; an empty list keeps what it has.
pub open spec fn next_wrapping_spec(selected: Option<usize>, len: usize) -> Option<usize> {
    if len == 0 {
        selected
    } else {
        let at = match selected {
            Some(i) => i,
            None => 0,
        };
        Some(
            if at >= len - 1 {
                0usize
            } else {
                (at + 1) as usize
            },
        )
    }
}

/// The selection one entry further up a list of `len` entries, the last
/// entry following the first. With nothing selected the first entry counts
/// as selected; an empty list keeps what it has.
pub open spec fn prev_wrapping_spec(selected: Option<usize>, len: usize) -> Option<usize> {
    if len == 0 {
        selected
    } else {
        let at = match selected {
            Some(i) => i,
            None => 0,
        };
        Some(
            if at == 0 {
                (len - 1) as usize
            } else {
                (at - 1) as usize
            },
        )
    }
}

/// Moves a selection one entry down, from the last entry to the first.
pub fn next_wrapping(selected: Option<usize>, len: usize) -> (r: Option<usize>)
    ensures
        r == next_wrapping_spec(selected, len),
        len > 0 && (selected matches Some(i) ==> i < len) ==> (r matches Some(i) && i < len),
{
    if len == 0 {
        return selected;
    }
    let at = match selected {
        Some(i) => i,
        None => 0,
    };
    if at >= len - 1 {
        Some(0)
    } else {
        Some(at + 1)
    }
}

/// Moves a selection one entry up, from the first entry to the last.
pub fn prev_wrapping(selected: Option<usize>, len: usize) -> (r: Option<usize>)
    ensures
        r == prev_wrapping_spec(selected, len),
        len > 0 && (selected matches Some(i) ==> i < len) ==> (r matches Some(i) && i < len),
{
    if len == 0 {
        return selected;
    }
    let at = match selected {
        Some(i) => i,
        None => 0,
    };
    if at == 0 {
        Some(len - 1)
    } else {
        Some(at - 1)
    }
}

} // verus!
