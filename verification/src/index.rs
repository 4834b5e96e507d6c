//! Turning relative offsets into rows of the windowed embedding table.
//!
//! The window holds `2 * span` rows; row `span` stands for offset zero. An
//! offset beyond either end of the window is pinned to the nearest end.

use vstd::prelude::*;

verus! {

/// `x` pinned into `[lo, hi]`: raised to `lo` first, then lowered to `hi`.
/// With `lo > hi` the result is `hi`, as the array engine's clamp has it.
pub open spec fn spec_clamp(x: int, lo: int, hi: int) -> int {
    if x < lo {
        if lo <= hi { lo } else { hi }
    } else if x > hi {
        hi
    } else {
        x
    }
}

/// The window row that a query's content meets for a key at relative
/// offset `rel` (query index minus key index).
pub open spec fn spec_c2p_index(rel: int, span: int) -> int {
    spec_clamp(rel + span, 0, 2 * span - 1)
}

/// The window row that a key's content meets for a query at relative
/// offset `rel`: the offset is taken from the key's side, so it is negated.
pub open spec fn spec_p2c_index(rel: int, span: int) -> int {
    spec_clamp(-rel + span, 0, 2 * span - 1)
}

/// Computes the content-to-position row for one offset, for every offset
/// an `i64` can hold.
pub fn c2p_index(rel: i64, span: usize) -> (row: i64)
    requires
        2 * span - 1 <= i64::MAX,
    ensures
        row == spec_c2p_index(rel as int, span as int),
        span >= 1 ==> 0 <= row <= 2 * span - 1,
{
    let shifted: i128 = rel as i128 + span as i128;
    let last: i128 = 2 * (span as i128) - 1;
    if shifted < 0 {
        if last >= 0 { 0 } else { -1 }
    } else if shifted > last {
        last as i64
    } else {
        shifted as i64
    }
}

/// Computes the position-to-content row for one offset, for every offset
/// an `i64` can hold.
pub fn p2c_index(rel: i64, span: usize) -> (row: i64)
    requires
        2 * span - 1 <= i64::MAX,
    ensures
        row == spec_p2c_index(rel as int, span as int),
        span >= 1 ==> 0 <= row <= 2 * span - 1,
{
    let shifted: i128 = span as i128 - rel as i128;
    let last: i128 = 2 * (span as i128) - 1;
    if shifted < 0 {
        if last >= 0 { 0 } else { -1 }
    } else if shifted > last {
        last as i64
    } else {
        shifted as i64
    }
}

/// With a positive span both rows lie inside the window, however far the
/// offset reaches.
pub proof fn lemma_rows_fall_in_window(rel: int, span: int)
    requires
        span >= 1,
    ensures
        0 <= spec_c2p_index(rel, span) <= 2 * span - 1,
        0 <= spec_p2c_index(rel, span) <= 2 * span - 1,
{
}

/// Offsets inside the window are only shifted: the row is the offset plus
/// the span, and minus the offset plus the span.
pub proof fn lemma_rows_of_near_offsets(rel: int, span: int)
    requires
        span >= 1,
    ensures
        -span <= rel < span ==> spec_c2p_index(rel, span) == rel + span,
        -span < rel <= span ==> spec_p2c_index(rel, span) == span - rel,
{
}

/// The two terms mirror each other: the position-to-content row of an
/// offset is the content-to-position row of the opposite offset.
pub proof fn lemma_p2c_mirrors_c2p(rel: int, span: int)
    ensures
        spec_p2c_index(rel, span) == spec_c2p_index(-rel, span),
{
}

} // verus!
