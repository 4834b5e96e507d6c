//! The attention span: how much of the relative-embedding table takes part in one call.

use vstd::prelude::*;

verus! {

/// The larger of two integers.
pub open spec fn spec_max(a: int, b: int) -> int {
    if a >= b { a } else { b }
}

/// The smaller of two integers.
pub open spec fn spec_min(a: int, b: int) -> int {
    if a <= b { a } else { b }
}

/// The span of a call: the longer of the two sequences, capped by the
/// largest relative distance the layer has embeddings for.
pub open spec fn spec_attention_span(query_len: int, key_len: int, max_relative_positions: int) -> int {
    spec_min(spec_max(query_len, key_len), max_relative_positions)
}

/// First and one-past-last row of the window that a call cuts out of the
/// relative-embedding table, centred on row `max_relative_positions`.
pub open spec fn spec_embedding_window(max_relative_positions: int, span: int) -> (int, int) {
    (max_relative_positions - span, max_relative_positions + span)
}

/// Computes the attention span of a call.
pub fn attention_span(query_len: usize, key_len: usize, max_relative_positions: usize) -> (span: usize)
    ensures
        span == spec_attention_span(query_len as int, key_len as int, max_relative_positions as int),
        span <= max_relative_positions,
        span <= spec_max(query_len as int, key_len as int),
{
    let longer: usize = if query_len >= key_len { query_len } else { key_len };
    if longer <= max_relative_positions { longer } else { max_relative_positions }
}

/// Computes the window of the relative-embedding table that a call uses:
/// `span` rows on either side of the centre.
pub fn embedding_window(max_relative_positions: usize, span: usize) -> (window: (usize, usize))
    requires
        span <= max_relative_positions,
        2 * max_relative_positions <= usize::MAX,
    ensures
        (window.0 as int, window.1 as int) == spec_embedding_window(max_relative_positions as int, span as int),
        window.1 - window.0 == 2 * span,
        window.1 <= 2 * max_relative_positions,
{
    (max_relative_positions - span, max_relative_positions + span)
}

/// The span never exceeds the layer's limit nor the longer sequence, it is
/// one of the two, and it is not negative when neither of them is.
pub proof fn lemma_attention_span_bounds(query_len: int, key_len: int, max_relative_positions: int)
    ensures
        spec_attention_span(query_len, key_len, max_relative_positions) <= max_relative_positions,
        spec_attention_span(query_len, key_len, max_relative_positions) <= spec_max(query_len, key_len),
        spec_attention_span(query_len, key_len, max_relative_positions) == max_relative_positions
            || spec_attention_span(query_len, key_len, max_relative_positions) == spec_max(query_len, key_len),
        0 <= query_len && 0 <= key_len && 0 <= max_relative_positions
            ==> 0 <= spec_attention_span(query_len, key_len, max_relative_positions),
        1 <= spec_max(query_len, key_len) && 1 <= max_relative_positions
            ==> 1 <= spec_attention_span(query_len, key_len, max_relative_positions),
{
}

} // verus!
