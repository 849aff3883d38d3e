//! Properties of the selection algorithm, stated over the weight model and
//! proved once for every selector.

use vstd::prelude::*;
use crate::fbits::{is_nan_bits, is_zero_bits, key, flt};
use crate::selector::{cum_bits, first_hit_from, selection_spec, in_range_draw};

verus! {

/// What a hit of the scan means: starting at `j`, the scan selects `i` only
/// when the draw falls strictly below the cumulative sum at `i`, and selects
/// nothing only when the draw falls below no cumulative sum from `j` on.
proof fn first_hit_from_sound(ws: Seq<u64>, x: u64, j: int)
    requires
        0 <= j <= ws.len(),
    ensures
        match first_hit_from(ws, x, j) {
            Some(i) => j <= i < ws.len() && flt(x, cum_bits(ws, i + 1)),
            None => forall|k: int| j <= k < ws.len() ==> !flt(x, #[trigger] cum_bits(ws, k + 1)),
        },
    decreases ws.len() - j,
{
    if j < ws.len() && !flt(x, cum_bits(ws, j + 1)) {
        first_hit_from_sound(ws, x, j + 1);
    }
}

/// The scan keeps insertion order: a selected choice is the first whose
/// cumulative sum lies strictly above the draw, so every earlier choice's sum
/// does not.
proof fn first_hit_from_first(ws: Seq<u64>, x: u64, j: int, i: int)
    requires
        0 <= j <= ws.len(),
        first_hit_from(ws, x, j) == Some(i),
    ensures
        j <= i,
        forall|k: int| j <= k < i ==> !flt(x, #[trigger] cum_bits(ws, k + 1)),
    decreases ws.len() - j,
{
    if j < ws.len() && !flt(x, cum_bits(ws, j + 1)) {
        first_hit_from_first(ws, x, j + 1, i);
    }
}

/// An empty selector selects no value, whatever its total mass and the draw.
pub proof fn empty_selector_no_value(ws: Seq<u64>, total: u64, x: u64)
    requires
        ws.len() == 0,
    ensures
        selection_spec(ws, total, x) is None,
{
}

/// A zero total mass selects no value, whatever the draw.  This covers every
/// selector whose added weights were all zero and whose total was not
/// overridden, since zero magnitudes accumulate to a total of +0.0.
pub proof fn zero_total_no_value(ws: Seq<u64>, total: u64, x: u64)
    requires
        is_zero_bits(total),
    ensures
        selection_spec(ws, total, x) is None,
{
}

/// The single certain choice: a selector holding exactly one choice whose
/// cumulative sum is the whole (non-NaN) total is selected by every draw in
/// `[0, total)`, whatever that draw is.
pub proof fn single_choice_certain(ws: Seq<u64>, total: u64, x: u64)
    requires
        ws.len() == 1,
        cum_bits(ws, 1) == total,
        !is_nan_bits(total),
        in_range_draw(x, total),
    ensures
        selection_spec(ws, total, x) == Some(0int),
{
}

/// The boundary is exclusive: a draw that equals a cumulative sum, as a
/// value, does not select that choice.  Selection takes a cumulative sum
/// strictly above the draw.
pub proof fn boundary_draw_not_selected(ws: Seq<u64>, total: u64, x: u64, i: int)
    requires
        0 <= i < ws.len(),
        key(x) == key(cum_bits(ws, i + 1)),
    ensures
        selection_spec(ws, total, x) != Some(i),
{
    first_hit_from_sound(ws, x, 0);
}

/// A choice whose cumulative sum is zero or below is unreachable: a draw is
/// never negative, so it never falls strictly below such a sum.  A negative
/// weight pulls the cumulative sum of its own choice down this way.
pub proof fn nonpositive_cum_unreachable(ws: Seq<u64>, total: u64, x: u64, i: int)
    requires
        0 <= i < ws.len(),
        key(cum_bits(ws, i + 1)) <= 0,
        0 <= key(x),
    ensures
        selection_spec(ws, total, x) != Some(i),
{
    first_hit_from_sound(ws, x, 0);
}

/// Selection is owed: a draw strictly below some cumulative sum selects a
/// value whenever the total mass is not zero.
pub proof fn draw_below_some_cum_selects(ws: Seq<u64>, total: u64, x: u64)
    requires
        !is_zero_bits(total),
        exists|j: int| 0 <= j < ws.len() && flt(x, #[trigger] cum_bits(ws, j + 1)),
    ensures
        selection_spec(ws, total, x) is Some,
{
    first_hit_from_sound(ws, x, 0);
}

/// Insertion order is the scan order: the selected choice is the first one
/// whose cumulative sum the draw falls strictly below.
pub proof fn selected_choice_is_first_hit(ws: Seq<u64>, total: u64, x: u64, i: int)
    requires
        selection_spec(ws, total, x) == Some(i),
    ensures
        0 <= i < ws.len(),
        flt(x, cum_bits(ws, i + 1)),
        forall|k: int| 0 <= k < i ==> !flt(x, #[trigger] cum_bits(ws, k + 1)),
{
    first_hit_from_sound(ws, x, 0);
    first_hit_from_first(ws, x, 0, i);
}

/// A draw at or above every cumulative sum selects no value.  This is where
/// reserved none-mass, an oversized total override, or the shortfall left by
/// negative weights send their draws.
pub proof fn draw_reaching_no_cum_no_value(ws: Seq<u64>, total: u64, x: u64)
    requires
        forall|j: int| 0 <= j < ws.len() ==> key(#[trigger] cum_bits(ws, j + 1)) <= key(x),
    ensures
        selection_spec(ws, total, x) is None,
{
    first_hit_from_sound(ws, x, 0);
}

} // verus!
