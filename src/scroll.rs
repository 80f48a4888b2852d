//! Scrolling of the lyric list so that the highlighted line stays centred.
use vstd::prelude::*;

verus! {

/// Offset of the lyric list that centres line `current` (see
/// [`lyric_centered_offset`]).
pub open spec fn centered_offset(item_count: nat, current: nat, item_height: nat, available: nat) -> Option<nat> {
    if item_count <= 1 {
        None
    } else {
        let half = available / item_height / 2;
        let bottom = if item_count - 1 >= 2 * half {
            (item_count - 1 - half) as nat
        } else {
            half
        };
        if current >= half {
            if current >= bottom {
                Some((bottom - half) as nat)
            } else {
                Some((current - half) as nat)
            }
        } else {
            None
        }
    }
}

/// The list offset that keeps the highlighted lyric line `current_index`
/// in the middle of `available_line_count` screen lines, where each lyric
/// item is `item_height` lines high. Near the top the offset is left as
/// it is (none); near the bottom scrolling stops at the last full screen.
pub fn lyric_centered_offset(
    item_count: usize,
    current_index: usize,
    item_height: usize,
    available_line_count: usize,
) -> (r: Option<usize>)
    requires
        item_count > 1 ==> current_index < item_count && item_height > 0,
    ensures
        r matches Some(o) ==> o <= current_index,
        match r {
            Some(o) => centered_offset(
                item_count as nat,
                current_index as nat,
                item_height as nat,
                available_line_count as nat,
            ) == Some(o as nat),
            None => centered_offset(
                item_count as nat,
                current_index as nat,
                item_height as nat,
                available_line_count as nat,
            ) is None,
        },
{
    if item_count <= 1 {
        return None;
    }
    let half = available_line_count / item_height / 2;
    let bottom = if item_count - 1 >= 2 * half {
        item_count - 1 - half
    } else {
        half
    };
    if current_index >= half {
        if current_index >= bottom {
            Some(bottom - half)
        } else {
            Some(current_index - half)
        }
    } else {
        None
    }
}

} // verus!
