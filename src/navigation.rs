use vstd::prelude::*;

verus! {

/// A selection is empty or names an entry of a list of `len` entries.
pub open spec fn selection_valid(sel: Option<usize>, len: nat) -> bool {
    match sel {
        Some(i) => i < len,
        None => true,
    }
}

/// One entry down; stays at the last entry, and an empty list keeps no selection.
pub open spec fn next_selection(sel: Option<usize>, len: nat) -> Option<usize> {
    match sel {
        None => if len > 0 { Some(0usize) } else { None },
        Some(i) => if i + 1 < len { Some((i + 1) as usize) } else { Some(i) },
    }
}

/// One entry up; stays at the first entry.
pub open spec fn prev_selection(sel: Option<usize>, len: nat) -> Option<usize> {
    match sel {
        None => if len > 0 { Some(0usize) } else { None },
        Some(i) => if i > 0 { Some((i - 1) as usize) } else { Some(i) },
    }
}

/// The first entry; nothing changes on an empty list.
pub open spec fn top_selection(sel: Option<usize>, len: nat) -> Option<usize> {
    if len > 0 { Some(0usize) } else { sel }
}

/// The last entry; nothing changes on an empty list.
pub open spec fn bottom_selection(sel: Option<usize>, len: nat) -> Option<usize> {
    if len > 0 { Some((len - 1) as usize) } else { sel }
}

/// The selection brought back into a list that now holds `len` entries.
pub open spec fn clamped_selection(sel: Option<usize>, len: nat) -> Option<usize> {
    match sel {
        Some(i) => if i < len { Some(i) } else if len > 0 { Some((len - 1) as usize) } else { None },
        None => None,
    }
}

pub fn increment_selection(sel: Option<usize>, len: usize) -> (r: Option<usize>)
    ensures
        r == next_selection(sel, len as nat),
{
    match sel {
        None => if len > 0 { Some(0) } else { None },
        Some(i) => if len > 0 && i < len - 1 { Some(i + 1) } else { Some(i) },
    }
}

pub fn decrement_selection(sel: Option<usize>, len: usize) -> (r: Option<usize>)
    ensures
        r == prev_selection(sel, len as nat),
{
    match sel {
        None => if len > 0 { Some(0) } else { None },
        Some(i) => if i > 0 { Some(i - 1) } else { Some(i) },
    }
}

pub fn first_selection(sel: Option<usize>, len: usize) -> (r: Option<usize>)
    ensures
        r == top_selection(sel, len as nat),
{
    if len > 0 { Some(0) } else { sel }
}

pub fn last_selection(sel: Option<usize>, len: usize) -> (r: Option<usize>)
    ensures
        r == bottom_selection(sel, len as nat),
{
    if len > 0 { Some(len - 1) } else { sel }
}

pub fn clamp_selection(sel: Option<usize>, len: usize) -> (r: Option<usize>)
    ensures
        r == clamped_selection(sel, len as nat),
        selection_valid(r, len as nat),
{
    match sel {
        Some(i) => if i < len { Some(i) } else if len > 0 { Some(len - 1) } else { None },
        None => None,
    }
}

/// On a non-empty list every move keeps the selection on an entry, and the jumps land on
/// the first and the last entry.
pub proof fn lemma_moves_stay_in_bounds(sel: Option<usize>, len: usize)
    requires
        len > 0,
        selection_valid(sel, len as nat),
    ensures
        next_selection(sel, len as nat) matches Some(i) && i < len,
        prev_selection(sel, len as nat) matches Some(i) && i < len,
        top_selection(sel, len as nat) == Some(0usize),
        bottom_selection(sel, len as nat) == Some((len - 1) as usize),
        sel == Some((len - 1) as usize) ==> next_selection(sel, len as nat) == sel,
        sel == Some(0usize) ==> prev_selection(sel, len as nat) == sel,
{
}

} // verus!
