//! One call on the layer: from the shapes of its inputs to what the array
//! engine is asked to do, and the shape of the scores that come out.

use vstd::prelude::*;
use crate::bias::{
    spec_bias_plan,
    spec_supplied,
    spec_tables_fit,
    BiasPlan,
    BiasPlanView,
    EmbeddingShape,
};
use crate::error::AttentionError;
use crate::kinds::{scale_factor, spec_scale_factor};
use crate::layer::{AttentionView, DisentangledSelfAttention};
use crate::shape::{
    head_group_rows,
    linear,
    spec_group_rows,
    spec_transpose_for_scores,
    transpose_for_scores,
    LayerShape,
    LinearShape,
    ProjectionGroup,
    ScoreShape,
    StateShape,
};
use crate::table::{PositionTable, PositionTableView};

verus! {

/// How queries, keys and values are projected.
#[derive(Debug, Clone, Copy, PartialEq, Eq, Structural)]
pub enum ProjectionPath {
    /// One product of the hidden states with the whole fused weight; each
    /// head's part of the result is then cut in three.
    Fused,
    /// Queries come from states of their own, so the rows of each group
    /// are taken out of the fused weight and applied separately, without
    /// bias.
    PerHead,
}

/// What the array engine is asked to do for one call.
#[derive(Debug, PartialEq, Eq)]
pub struct ForwardPlan {
    pub path: ProjectionPath,
    /// The rows of the fused weight that project to queries, in order.
    pub query_rows: Vec<usize>,
    /// The rows of the fused weight that project to keys, in order.
    pub key_rows: Vec<usize>,
    /// The rows of the fused weight that project to values, in order.
    pub value_rows: Vec<usize>,
    pub query_layer: LayerShape,
    pub key_layer: LayerShape,
    pub value_layer: LayerShape,
    /// Shape in which the learned bias is added to the query layer.
    pub query_bias: LayerShape,
    /// Shape in which the learned bias is added to the value layer. The
    /// key layer gets no bias.
    pub value_bias: LayerShape,
    /// One plus the number of enabled position kinds. The query layer is
    /// divided by the square root of `head_size * scale_factor` before it
    /// meets the keys.
    pub scale_factor: usize,
    /// Whether dropout is applied to the relative embeddings first.
    pub position_dropout: bool,
    /// The position bias that is added to the content scores, if any.
    pub bias: Option<BiasPlan>,
    /// Shape of the scores.
    pub scores: ScoreShape,
}

/// What the plan of a call is to the contracts.
pub struct ForwardPlanView {
    pub path: ProjectionPath,
    pub query_rows: Seq<usize>,
    pub key_rows: Seq<usize>,
    pub value_rows: Seq<usize>,
    pub query_layer: LayerShape,
    pub key_layer: LayerShape,
    pub value_layer: LayerShape,
    pub query_bias: LayerShape,
    pub value_bias: LayerShape,
    pub scale_factor: usize,
    pub position_dropout: bool,
    pub bias: Option<BiasPlanView>,
    pub scores: ScoreShape,
}

impl View for ForwardPlan {
    type V = ForwardPlanView;

    open spec fn view(&self) -> ForwardPlanView {
        ForwardPlanView {
            path: self.path,
            query_rows: self.query_rows@,
            key_rows: self.key_rows@,
            value_rows: self.value_rows@,
            query_layer: self.query_layer,
            key_layer: self.key_layer,
            value_layer: self.value_layer,
            query_bias: self.query_bias,
            value_bias: self.value_bias,
            scale_factor: self.scale_factor,
            position_dropout: self.position_dropout,
            bias: match self.bias {
                Some(plan) => Some(plan@),
                None => None,
            },
            scores: self.scores,
        }
    }
}

/// The mixes across heads that wrap the normalisation of the scores. An
/// absent mix leaves what it is given unchanged.
#[derive(Debug, Clone, Copy, PartialEq, Eq, Structural)]
pub struct MixerPlan {
    /// Applied across the head axis to the scores, before normalisation.
    pub logits: Option<LinearShape>,
    /// Applied across the head axis to the weights, after normalisation.
    pub weights: Option<LinearShape>,
}

/// The states that the queries are projected from: those supplied for
/// them, else the hidden states.
pub open spec fn spec_query_source(hidden_states: StateShape, query_states: Option<StateShape>) -> StateShape {
    match query_states {
        Some(states) => states,
        None => hidden_states,
    }
}

/// Whether the inputs are as wide as the layer's token vectors, and the
/// states of the queries come in the same batch as the hidden states.
pub open spec fn spec_inputs_agree(
    layer: AttentionView,
    hidden_states: StateShape,
    query_states: Option<StateShape>,
) -> bool {
    let source = spec_query_source(hidden_states, query_states);
    hidden_states.width == layer.hidden_size && source.width == layer.hidden_size && source.batch
        == hidden_states.batch
}

/// Whether a call computes a position bias: relative embeddings are
/// supplied and at least one position kind is enabled.
pub open spec fn spec_wants_bias(layer: AttentionView, relative_embeddings: Option<EmbeddingShape>) -> bool {
    relative_embeddings is Some && layer.pos_att_type.spec_len() > 0
}

/// The plan of a call whose inputs agree, around a given position bias.
pub open spec fn spec_plan_around(
    layer: AttentionView,
    hidden_states: StateShape,
    query_states: Option<StateShape>,
    train: bool,
    bias: Option<BiasPlanView>,
) -> ForwardPlanView {
    let heads = layer.num_attention_heads as int;
    let size = layer.attention_head_size as int;
    let source = spec_query_source(hidden_states, query_states);
    let learned = spec_transpose_for_scores(StateShape { batch: 1, seq_len: 1, width: layer.bias_len }, heads);
    ForwardPlanView {
        path: if query_states is Some {
            ProjectionPath::PerHead
        } else {
            ProjectionPath::Fused
        },
        query_rows: spec_group_rows(heads, size, ProjectionGroup::Query),
        key_rows: spec_group_rows(heads, size, ProjectionGroup::Key),
        value_rows: spec_group_rows(heads, size, ProjectionGroup::Value),
        query_layer: spec_transpose_for_scores(source, heads),
        key_layer: spec_transpose_for_scores(hidden_states, heads),
        value_layer: spec_transpose_for_scores(hidden_states, heads),
        query_bias: learned,
        value_bias: learned,
        scale_factor: spec_scale_factor(layer.pos_att_type) as usize,
        position_dropout: train && bias is Some,
        bias,
        scores: ScoreShape {
            batch: hidden_states.batch,
            heads: layer.num_attention_heads,
            rows: source.seq_len,
            columns: hidden_states.seq_len,
        },
    }
}

/// The plan of a call.
///
/// Inputs that do not agree with the layer are a shape error. A position
/// bias is planned where relative embeddings are supplied and a position
/// kind is enabled; on a layer without relative positions that is a
/// configuration error, and whatever the plan of the bias refuses is
/// refused here.
pub open spec fn spec_forward(
    layer: AttentionView,
    hidden_states: StateShape,
    query_states: Option<StateShape>,
    supplied: Option<PositionTableView>,
    relative_embeddings: Option<EmbeddingShape>,
    train: bool,
) -> Result<ForwardPlanView, AttentionError> {
    let heads = layer.num_attention_heads as int;
    let source = spec_query_source(hidden_states, query_states);
    if !spec_inputs_agree(layer, hidden_states, query_states) {
        Err(AttentionError::Shape)
    } else if !spec_wants_bias(layer, relative_embeddings) {
        Ok(spec_plan_around(layer, hidden_states, query_states, train, None))
    } else if layer.max_relative_positions is None {
        Err(AttentionError::Configuration)
    } else {
        match spec_bias_plan(
            layer,
            spec_transpose_for_scores(source, heads),
            spec_transpose_for_scores(hidden_states, heads),
            supplied,
            relative_embeddings->0,
            spec_scale_factor(layer.pos_att_type) as usize,
        ) {
            Ok(bias) => Ok(spec_plan_around(layer, hidden_states, query_states, train, Some(bias))),
            Err(e) => Err(e),
        }
    }
}

impl DisentangledSelfAttention {
    /// The mixes across heads that the caller applies around the
    /// normalisation of the scores: both present on a layer with talking
    /// heads, both absent on one without.
    pub fn mixer(&self) -> (plan: MixerPlan)
        ensures
            plan.logits == self@.head_logits_proj,
            plan.weights == self@.head_weights_proj,
            plan.logits is Some <==> self@.talking_head(),
            plan.weights is Some <==> self@.talking_head(),
    {
        MixerPlan { logits: self.head_logits_proj(), weights: self.head_weights_proj() }
    }

    /// Plans one call on the layer.
    ///
    /// `hidden_states` are projected to keys and values, and to queries
    /// too unless `query_states` are supplied for them. A position bias is
    /// planned where `relative_embeddings` are supplied and a position kind
    /// is enabled, from `relative_pos` or from the table built for the
    /// lengths of the call. With `train` set, dropout is applied to the
    /// relative embeddings before they are used.
    pub fn forward_t(
        &self,
        hidden_states: StateShape,
        query_states: Option<StateShape>,
        relative_pos: Option<&PositionTable>,
        relative_embeddings: Option<EmbeddingShape>,
        train: bool,
    ) -> (plan: Result<ForwardPlan, AttentionError>)
        requires
            relative_embeddings is Some ==> spec_tables_fit(
                spec_query_source(hidden_states, query_states).seq_len as int,
                hidden_states.seq_len as int,
            ),
        ensures
            match plan {
                Ok(p) => spec_forward(
                    self@,
                    hidden_states,
                    query_states,
                    spec_supplied(relative_pos),
                    relative_embeddings,
                    train,
                ) == Ok::<ForwardPlanView, AttentionError>(p@),
                Err(e) => spec_forward(
                    self@,
                    hidden_states,
                    query_states,
                    spec_supplied(relative_pos),
                    relative_embeddings,
                    train,
                ) == Err::<ForwardPlanView, AttentionError>(e),
            },
    {
        let width: usize = self.hidden_size();
        let heads: usize = self.num_attention_heads();
        let head_size: usize = self.attention_head_size();
        let source = match query_states {
            Some(states) => states,
            None => hidden_states,
        };
        let group = LinearShape { in_features: width, out_features: width, bias: false };
        let key_states = match linear(group, hidden_states) {
            Ok(shape) => shape,
            Err(e) => {
                return Err(e);
            },
        };
        let query_states_projected = match linear(group, source) {
            Ok(shape) => shape,
            Err(e) => {
                return Err(e);
            },
        };
        if query_states_projected.batch != key_states.batch {
            return Err(AttentionError::Shape);
        }
        proof {
            assert(width as int % heads as int == 0 && width as int / heads as int == head_size) by (nonlinear_arith)
                requires
                    head_size * heads == width,
                    heads >= 1,
            ;
            assert(3 * heads * head_size == 3 * width) by (nonlinear_arith)
                requires
                    head_size * heads == width,
            ;
        }
        let query_layer = match transpose_for_scores(query_states_projected, heads) {
            Ok(shape) => shape,
            Err(e) => {
                return Err(e);
            },
        };
        let key_layer = match transpose_for_scores(key_states, heads) {
            Ok(shape) => shape,
            Err(e) => {
                return Err(e);
            },
        };
        let learned = match transpose_for_scores(StateShape { batch: 1, seq_len: 1, width: self.bias_len() }, heads) {
            Ok(shape) => shape,
            Err(e) => {
                return Err(e);
            },
        };
        let path = match query_states {
            Some(_) => ProjectionPath::PerHead,
            None => ProjectionPath::Fused,
        };
        let types = self.pos_att_type();
        let factor: usize = scale_factor(&types);
        let bias = match relative_embeddings {
            Some(embeddings) => {
                if types.is_empty() {
                    None
                } else if !self.relative_attention() {
                    return Err(AttentionError::Configuration);
                } else {
                    match self.disentangled_att_bias(query_layer, key_layer, relative_pos, embeddings, factor) {
                        Ok(bias) => Some(bias),
                        Err(e) => {
                            return Err(e);
                        },
                    }
                }
            },
            None => None,
        };
        let position_dropout: bool = train && bias.is_some();
        let query_rows = head_group_rows(heads, head_size, ProjectionGroup::Query);
        let key_rows = head_group_rows(heads, head_size, ProjectionGroup::Key);
        let value_rows = head_group_rows(heads, head_size, ProjectionGroup::Value);
        Ok(
            ForwardPlan {
                path,
                query_rows,
                key_rows,
                value_rows,
                query_layer,
                key_layer,
                value_layer: key_layer,
                query_bias: learned,
                value_bias: learned,
                scale_factor: factor,
                position_dropout,
                bias,
                scores: ScoreShape {
                    batch: hidden_states.batch,
                    heads,
                    rows: source.seq_len,
                    columns: hidden_states.seq_len,
                },
            },
        )
    }
}

} // verus!
