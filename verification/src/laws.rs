//! What holds of every plan, whatever the inputs.

use vstd::prelude::*;
use crate::bias::{spec_bias_plan, EmbeddingShape};
use crate::error::AttentionError;
use crate::forward::{spec_forward, ForwardPlanView, ProjectionPath};
use crate::index::lemma_rows_fall_in_window;
use crate::layer::AttentionView;
use crate::shape::{LayerShape, StateShape};
use crate::span::{lemma_attention_span_bounds, spec_attention_span, spec_max};
use crate::table::{spec_c2p_table, spec_p2c_table, spec_relative_position, PositionTableView};

verus! {

/// Whether every entry of a table is a row of a window of `2 * span` rows.
pub open spec fn spec_rows_in_window(rows: PositionTableView, span: int) -> bool {
    forall|n: int| 0 <= n < rows.data.len() ==> 0 <= #[trigger] rows.data[n] <= 2 * span - 1
}

/// With a positive span, the rows computed from any table of offsets lie
/// inside the window, for both terms and however far the offsets reach.
pub proof fn lemma_index_tables_fall_in_window(offsets: PositionTableView, span: int)
    requires
        span >= 1,
        2 * span - 1 <= i64::MAX,
    ensures
        spec_rows_in_window(spec_c2p_table(offsets, span), span),
        spec_rows_in_window(spec_p2c_table(offsets, span), span),
{
    assert forall|n: int| 0 <= n < offsets.data.len() implies 0 <= #[trigger] spec_c2p_table(offsets, span).data[n]
        <= 2 * span - 1 by {
        lemma_rows_fall_in_window(offsets.data[n] as int, span);
    }
    assert forall|n: int| 0 <= n < offsets.data.len() implies 0 <= #[trigger] spec_p2c_table(offsets, span).data[n]
        <= 2 * span - 1 by {
        lemma_rows_fall_in_window(offsets.data[n] as int, span);
    }
}

/// The span of a planned bias exceeds neither the layer's largest relative
/// distance nor the longer of the two sequences, and the window it cuts
/// holds twice as many rows and lies inside the relative embeddings.
pub proof fn lemma_span_of_plan(
    layer: AttentionView,
    query_layer: LayerShape,
    key_layer: LayerShape,
    supplied: Option<PositionTableView>,
    relative_embeddings: EmbeddingShape,
    scale_factor: usize,
)
    requires
        layer.valid(),
    ensures
        match spec_bias_plan(layer, query_layer, key_layer, supplied, relative_embeddings, scale_factor) {
            Ok(plan) => {
                &&& plan.attention_span == spec_attention_span(
                    query_layer.seq_len as int,
                    key_layer.seq_len as int,
                    layer.max_relative_positions->0 as int,
                )
                &&& plan.attention_span <= layer.max_relative_positions->0
                &&& plan.attention_span <= spec_max(query_layer.seq_len as int, key_layer.seq_len as int)
                &&& plan.window_start == layer.max_relative_positions->0 - plan.attention_span
                &&& plan.window_end == layer.max_relative_positions->0 + plan.attention_span
                &&& plan.window_end - plan.window_start == 2 * plan.attention_span
                &&& plan.window_end <= relative_embeddings.rows
            },
            Err(_) => true,
        },
{
    if layer.max_relative_positions is Some {
        lemma_attention_span_bounds(
            query_layer.seq_len as int,
            key_layer.seq_len as int,
            layer.max_relative_positions->0 as int,
        );
    }
}

/// In a planned bias of a call with at least one position, every row that
/// a term picks lies inside the window: between 0 and twice the span
/// minus 1, however far the supplied offsets reach.
pub proof fn lemma_rows_of_plan_fall_in_window(
    layer: AttentionView,
    query_layer: LayerShape,
    key_layer: LayerShape,
    supplied: Option<PositionTableView>,
    relative_embeddings: EmbeddingShape,
    scale_factor: usize,
)
    requires
        layer.valid(),
        query_layer.seq_len >= 1 || key_layer.seq_len >= 1,
    ensures
        match spec_bias_plan(layer, query_layer, key_layer, supplied, relative_embeddings, scale_factor) {
            Ok(plan) => {
                &&& plan.attention_span >= 1
                &&& plan.c2p is Some ==> spec_rows_in_window(plan.c2p->0.index, plan.attention_span as int)
                &&& plan.p2c is Some ==> spec_rows_in_window(plan.p2c->0.gather.index, plan.attention_span as int)
            },
            Err(_) => true,
        },
{
    let outcome = spec_bias_plan(layer, query_layer, key_layer, supplied, relative_embeddings, scale_factor);
    if outcome is Ok {
        let plan = outcome->Ok_0;
        let limit = layer.max_relative_positions->0 as int;
        lemma_attention_span_bounds(query_layer.seq_len as int, key_layer.seq_len as int, limit);
        let span = plan.attention_span as int;
        let key_len = key_layer.seq_len as int;
        lemma_index_tables_fall_in_window(plan.relative_pos, span);
        lemma_index_tables_fall_in_window(spec_relative_position(key_len, key_len), span);
    }
}

/// On a layer without any position kind no position bias is planned: the
/// scores are the content scores alone, scaled by the factor 1, and no
/// call is refused for its relative positions.
pub proof fn lemma_no_kind_no_bias(
    layer: AttentionView,
    hidden_states: StateShape,
    query_states: Option<StateShape>,
    supplied: Option<PositionTableView>,
    relative_embeddings: Option<EmbeddingShape>,
    train: bool,
)
    requires
        layer.valid(),
        layer.pos_att_type.spec_len() == 0,
    ensures
        match spec_forward(layer, hidden_states, query_states, supplied, relative_embeddings, train) {
            Ok(plan) => plan.bias is None && plan.scale_factor == 1 && !plan.position_dropout,
            Err(e) => e == AttentionError::Shape,
        },
{
}

/// A planned bias without the content-to-position and the
/// position-to-content kind adds nothing, also where the
/// position-to-position kind is enabled.
pub proof fn lemma_no_term_adds_nothing(
    layer: AttentionView,
    query_layer: LayerShape,
    key_layer: LayerShape,
    supplied: Option<PositionTableView>,
    relative_embeddings: EmbeddingShape,
    scale_factor: usize,
)
    requires
        layer.valid(),
        !layer.pos_att_type.c2p,
        !layer.pos_att_type.p2c,
    ensures
        match spec_bias_plan(layer, query_layer, key_layer, supplied, relative_embeddings, scale_factor) {
            Ok(plan) => plan.adds_nothing(),
            Err(_) => true,
        },
{
}

/// Whether two layers are the same but for their mixes across heads.
pub open spec fn spec_same_but_mixer(first: AttentionView, second: AttentionView) -> bool {
    first == (AttentionView {
        head_logits_proj: first.head_logits_proj,
        head_weights_proj: first.head_weights_proj,
        ..second
    })
}

/// The mixes across heads take no part in the scores: two layers that
/// differ in nothing else plan every call alike.
pub proof fn lemma_mixer_leaves_scores(
    first: AttentionView,
    second: AttentionView,
    hidden_states: StateShape,
    query_states: Option<StateShape>,
    supplied: Option<PositionTableView>,
    relative_embeddings: Option<EmbeddingShape>,
    train: bool,
)
    requires
        first.valid(),
        second.valid(),
        spec_same_but_mixer(first, second),
    ensures
        spec_forward(first, hidden_states, query_states, supplied, relative_embeddings, train) == spec_forward(
            second,
            hidden_states,
            query_states,
            supplied,
            relative_embeddings,
            train,
        ),
{
}

/// With as many query positions as key positions, the position-to-content
/// term takes its rows from the offsets of the call and selects once. Only
/// with different lengths are the rows taken from the offsets among the
/// key positions, and a second selection follows.
pub proof fn lemma_equal_lengths_reuse_offsets(
    layer: AttentionView,
    query_layer: LayerShape,
    key_layer: LayerShape,
    supplied: Option<PositionTableView>,
    relative_embeddings: EmbeddingShape,
    scale_factor: usize,
)
    requires
        layer.valid(),
    ensures
        match spec_bias_plan(layer, query_layer, key_layer, supplied, relative_embeddings, scale_factor) {
            Ok(plan) => plan.p2c is Some ==> {
                let step = plan.p2c->0;
                let span = plan.attention_span as int;
                let key_len = key_layer.seq_len as int;
                &&& query_layer.seq_len == key_layer.seq_len ==> step.regather is None && step.gather.index
                    == spec_p2c_table(plan.relative_pos, span)
                &&& query_layer.seq_len != key_layer.seq_len ==> step.regather is Some && step.gather.index
                    == spec_p2c_table(spec_relative_position(key_len, key_len), span)
            },
            Err(_) => true,
        },
{
}

/// A call is planned from its inputs alone: whatever two calls with the
/// same inputs on the same layer return, it is the same.
pub proof fn lemma_same_inputs_same_plan(
    layer: AttentionView,
    hidden_states: StateShape,
    query_states: Option<StateShape>,
    supplied: Option<PositionTableView>,
    relative_embeddings: Option<EmbeddingShape>,
    train: bool,
    first: Result<ForwardPlanView, AttentionError>,
    second: Result<ForwardPlanView, AttentionError>,
)
    requires
        first == spec_forward(layer, hidden_states, query_states, supplied, relative_embeddings, train),
        second == spec_forward(layer, hidden_states, query_states, supplied, relative_embeddings, train),
    ensures
        first == second,
{
}

/// Queries supplied on their own are projected by the same rows of the
/// fused weight as queries taken from the hidden states: a call that
/// supplies the hidden states as states of the queries is planned like
/// the call without them, but for the way of the projection.
pub proof fn lemma_paths_share_rows(
    layer: AttentionView,
    hidden_states: StateShape,
    supplied: Option<PositionTableView>,
    relative_embeddings: Option<EmbeddingShape>,
    train: bool,
)
    requires
        layer.valid(),
    ensures
        match (
            spec_forward(layer, hidden_states, None, supplied, relative_embeddings, train),
            spec_forward(layer, hidden_states, Some(hidden_states), supplied, relative_embeddings, train),
        ) {
            (Ok(fused), Ok(split)) => fused.path == ProjectionPath::Fused && split.path == ProjectionPath::PerHead
                && split == (ForwardPlanView { path: ProjectionPath::PerHead, ..fused }),
            (Err(e), Err(f)) => e == f,
            _ => false,
        },
{
}

} // verus!
