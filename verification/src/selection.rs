//! The selection navigator: which row the cursor moves to.

use vstd::prelude::*;

verus! {

/// The row selected after a step down from `selected` in a list of `len`
/// rows: row 0 where nothing was selected, row 0 again from the last row or
/// from beyond the end of the list, and the next row otherwise.
pub open spec fn next_index(selected: Option<usize>, len: nat) -> nat {
    match selected {
        None => 0,
        Some(i) => if i + 1 >= len {
            0
        } else {
            (i + 1) as nat
        },
    }
}

/// The row selected after a step up from `selected` in a list of `len` rows:
/// row 0 where nothing was selected, the last row from row 0 (row 0 itself
/// in an empty list), and the row before otherwise.
pub open spec fn previous_index(selected: Option<usize>, len: nat) -> nat {
    match selected {
        None => 0,
        Some(i) => if i == 0 {
            if len == 0 {
                0
            } else {
                (len - 1) as nat
            }
        } else {
            (i - 1) as nat
        },
    }
}

/// Computes [`next_index`].
pub fn step_down(selected: Option<usize>, len: usize) -> (index: usize)
    ensures
        index == next_index(selected, len as nat),
{
    match selected {
        None => 0,
        Some(i) => if len == 0 || i >= len - 1 {
            0
        } else {
            i + 1
        },
    }
}

/// Computes [`previous_index`].
pub fn step_up(selected: Option<usize>, len: usize) -> (index: usize)
    ensures
        index == previous_index(selected, len as nat),
{
    match selected {
        None => 0,
        Some(i) => if i == 0 {
            if len == 0 {
                0
            } else {
                len - 1
            }
        } else {
            i - 1
        },
    }
}

/// In a list that is not empty, a step down always lands on a row of the
/// list, and so does a step up that follows it.
pub proof fn lemma_steps_land_in_list(selected: Option<usize>, len: usize)
    requires
        len > 0,
    ensures
        next_index(selected, len as nat) < len,
        previous_index(Some(next_index(selected, len as nat) as usize), len as nat) < len,
{
}

/// In a list that is not empty, a step down followed by a step up returns
/// to the row it started from, and so does a step up followed by a step
/// down, whenever that row is a row of the list.
pub proof fn lemma_steps_are_inverse(start: usize, len: usize)
    requires
        start < len,
    ensures
        previous_index(Some(next_index(Some(start), len as nat) as usize), len as nat) == start,
        next_index(Some(previous_index(Some(start), len as nat) as usize), len as nat) == start,
{
}

/// In an empty list a step down selects row 0 from any selection, and a
/// step up selects row 0 unless a row after row 0 was selected.
pub proof fn lemma_steps_in_empty_list(selected: Option<usize>)
    ensures
        next_index(selected, 0) == 0,
        selected is None || selected == Some(0usize) ==> previous_index(selected, 0) == 0,
{
}

} // verus!
