//! Which row of the window each pair of positions is scored against.
//!
//! The array engine picks from the position scores with `gather`: the
//! result has the shape of the index, and each of its entries is the entry
//! of the source whose place along the chosen axis the index names. An
//! index is first broadcast to the shape of the step: an axis of size 1 is
//! read at 0 wherever it is asked, and a table of three axes is lined up
//! with the last three axes of the step.

use vstd::prelude::*;
use crate::bias::{spec_bias_plan, BiasPlanView, EmbeddingShape};
use crate::index::{lemma_rows_fall_in_window, spec_c2p_index, spec_p2c_index};
use crate::layer::AttentionView;
use crate::shape::LayerShape;
use crate::span::lemma_attention_span_bounds;
use crate::table::{lemma_relative_position_entries, lemma_row_major, spec_relative_position, PositionTableView};

verus! {

/// Where an axis of the given size is read when place `at` is asked.
pub open spec fn spec_broadcast(size: usize, at: int) -> int {
    if size == 1 {
        0
    } else {
        at
    }
}

/// Entry `(b, h, i, j)` of a table of three or four axes once it is
/// broadcast to four axes.
pub open spec fn spec_expanded_at(table: PositionTableView, b: int, h: int, i: int, j: int) -> int {
    if table.shape.len() == 3 {
        table.at3(
            spec_broadcast(table.shape[0], h),
            spec_broadcast(table.shape[1], i),
            spec_broadcast(table.shape[2], j),
        )
    } else {
        table.at4(
            spec_broadcast(table.shape[0], b),
            spec_broadcast(table.shape[1], h),
            spec_broadcast(table.shape[2], i),
            spec_broadcast(table.shape[3], j),
        )
    }
}

/// The window row whose position key query `i` is scored against for key
/// `j`: the content-to-position term picks along the last axis of the
/// scores of the queries against the position keys.
pub open spec fn spec_c2p_row(plan: BiasPlanView, b: int, h: int, i: int, j: int) -> int {
    spec_expanded_at(plan.c2p->0.index, b, h, i, j)
}

/// The window row whose position query key `j` is scored against for
/// query `i`. The position-to-content term picks along the last axis of
/// the scores of the keys against the position queries, so that the keys
/// come first, and transposes what it picked. Where a second selection
/// follows, it names for each query the row of the transposed scores to
/// take.
pub open spec fn spec_p2c_row(plan: BiasPlanView, b: int, h: int, i: int, j: int) -> int {
    let step = plan.p2c->0;
    match step.regather {
        None => spec_expanded_at(step.gather.index, b, h, j, i),
        Some(second) => spec_expanded_at(step.gather.index, b, h, j, spec_expanded_at(second.index, b, h, i, j)),
    }
}

/// Entry `(0, 0, i, j)` of the built offsets with four axes is `i - j`,
/// wherever its axes of size 1 are asked.
proof fn lemma_built_offsets_expanded(query_len: int, key_len: int, b: int, h: int, i: int, j: int)
    requires
        0 <= i < query_len <= usize::MAX,
        0 <= j < key_len <= usize::MAX,
        query_len <= i64::MAX,
        key_len <= i64::MAX,
    ensures
        ({
            let offsets = crate::table::spec_normalized(spec_relative_position(query_len, key_len));
            let n = ((spec_broadcast(offsets.shape[0], b) * offsets.shape[1] + spec_broadcast(offsets.shape[1], h))
                * offsets.shape[2] + spec_broadcast(offsets.shape[2], i)) * offsets.shape[3] + spec_broadcast(
                offsets.shape[3],
                j,
            );
            &&& offsets.shape == seq![1usize, 1usize, query_len as usize, key_len as usize]
            &&& n == i * key_len + j
            &&& 0 <= n < offsets.data.len()
            &&& offsets.data[n] == i - j
        }),
{
    lemma_row_major(query_len, key_len, i, j);
    lemma_relative_position_entries(query_len, key_len, i, j);
    let offsets = crate::table::spec_normalized(spec_relative_position(query_len, key_len));
    assert(offsets.shape =~= seq![1usize, 1usize, query_len as usize, key_len as usize]);
    assert((0 * 1 + 0) * query_len == 0) by (nonlinear_arith);
}

/// For a call without supplied offsets, the rows that the plan picks are
/// those of the disentangled scores: query `i` meets the position key of
/// the offset `i - j`, and key `j` meets the position query of the offset
/// `j - i`, each pinned into the window. The position-to-content term
/// gives the same row whether the lengths are equal or not, for every
/// query that has a row among the keys.
pub proof fn lemma_rows_of_built_offsets(
    layer: AttentionView,
    query_layer: LayerShape,
    key_layer: LayerShape,
    relative_embeddings: EmbeddingShape,
    scale_factor: usize,
    b: int,
    h: int,
    i: int,
    j: int,
)
    requires
        layer.valid(),
        0 <= i < query_layer.seq_len <= i64::MAX,
        0 <= j < key_layer.seq_len <= i64::MAX,
    ensures
        match spec_bias_plan(layer, query_layer, key_layer, None, relative_embeddings, scale_factor) {
            Ok(plan) => {
                let span = plan.attention_span as int;
                &&& plan.c2p is Some ==> spec_c2p_row(plan, b, h, i, j) == spec_c2p_index(i - j, span)
                &&& plan.p2c is Some && (query_layer.seq_len == key_layer.seq_len || i < key_layer.seq_len)
                    ==> spec_p2c_row(plan, b, h, i, j) == spec_p2c_index(j - i, span)
            },
            Err(_) => true,
        },
{
    let outcome = spec_bias_plan(layer, query_layer, key_layer, None, relative_embeddings, scale_factor);
    if outcome is Ok {
        let plan = outcome->Ok_0;
        let query_len = query_layer.seq_len as int;
        let key_len = key_layer.seq_len as int;
        let limit = layer.max_relative_positions->0 as int;
        let span = plan.attention_span as int;
        lemma_attention_span_bounds(query_len, key_len, limit);
        assert(1 <= span && 2 * span - 1 <= i64::MAX);
        lemma_built_offsets_expanded(query_len, key_len, b, h, i, j);
        lemma_rows_fall_in_window(i - j, span);
        if plan.p2c is Some {
            let step = plan.p2c->0;
            if query_len == key_len {
                lemma_built_offsets_expanded(query_len, key_len, b, h, j, i);
                lemma_rows_fall_in_window(j - i, span);
            } else if i < key_len {
                let second = step.regather->0;
                lemma_built_offsets_expanded(query_len, key_len, b, h, i, 0);
                lemma_row_major(query_len, 1, i, 0);
                assert(i * key_len + 0 == i * key_len);
                assert((0 * 1 + 0) * query_len == 0) by (nonlinear_arith);
                assert(second.index.shape =~= seq![1usize, 1usize, query_len as usize, 1usize]);
                assert(1 * 1 * query_len == query_len) by (nonlinear_arith);
                assert(spec_expanded_at(second.index, b, h, i, j) == i);
                let among = spec_relative_position(key_len, key_len);
                lemma_row_major(key_len, key_len, j, i);
                lemma_relative_position_entries(key_len, key_len, j, i);
                assert(0 * key_len == 0) by (nonlinear_arith);
                assert(among.shape =~= seq![1usize, key_len as usize, key_len as usize]);
                lemma_rows_fall_in_window(j - i, span);
            }
        }
    }
}

} // verus!
