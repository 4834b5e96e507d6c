//! The position bias: which window of the relative embeddings takes part in
//! a call, and which rows of the position scores belong to each pair of
//! positions.
//!
//! The content-to-position term multiplies the queries with the position
//! keys of the window and picks, for each pair, the row of the pair's
//! offset. The position-to-content term does the same from the keys' side
//! with the position queries. The position-to-position kind adds no term:
//! it only asks for both projections.

use vstd::prelude::*;
use crate::error::AttentionError;
use crate::layer::{AttentionView, DisentangledSelfAttention};
use crate::shape::{
    c2p_dynamic_expand,
    p2c_dynamic_expand,
    pos_dynamic_expand,
    spec_c2p_expand,
    spec_p2c_expand,
    spec_pos_expand,
    LayerShape,
    ScoreShape,
};
use crate::span::{attention_span, embedding_window, spec_attention_span, spec_max};
use crate::table::{
    build_relative_position,
    spec_c2p_table,
    spec_first_column,
    spec_normalized,
    spec_p2c_table,
    spec_relative_position,
    PositionTable,
    PositionTableView,
};

verus! {

/// Shape of the table of relative embeddings: one row for each relative
/// distance on either side, each as wide as a token vector.
#[derive(Debug, Clone, Copy, PartialEq, Eq, Structural)]
pub struct EmbeddingShape {
    pub rows: usize,
    pub width: usize,
}

/// One selection from the position scores: the rows to pick along an axis,
/// and the shape to which they are broadcast before they are picked.
#[derive(Debug, PartialEq, Eq)]
pub struct GatherStep {
    pub index: PositionTable,
    pub expand: ScoreShape,
}

/// What a selection is to the contracts.
pub struct GatherStepView {
    pub index: PositionTableView,
    pub expand: ScoreShape,
}

impl View for GatherStep {
    type V = GatherStepView;

    open spec fn view(&self) -> GatherStepView {
        GatherStepView { index: self.index@, expand: self.expand }
    }
}

/// The position-to-content term of a call.
#[derive(Debug, PartialEq, Eq)]
pub struct P2cStep {
    /// The position queries are divided by the square root of
    /// `head_size * scale_factor` before they meet the keys.
    pub head_size: usize,
    pub scale_factor: usize,
    /// The rows to pick along the last axis of the keys' scores against the
    /// position queries. The picked scores are then transposed, so that
    /// queries come before keys.
    pub gather: GatherStep,
    /// Where query and key lengths differ: the rows to pick along the
    /// second-to-last axis afterwards, one for each query position.
    pub regather: Option<GatherStep>,
}

/// What the position-to-content term is to the contracts.
pub struct P2cStepView {
    pub head_size: usize,
    pub scale_factor: usize,
    pub gather: GatherStepView,
    pub regather: Option<GatherStepView>,
}

impl View for P2cStep {
    type V = P2cStepView;

    open spec fn view(&self) -> P2cStepView {
        P2cStepView {
            head_size: self.head_size,
            scale_factor: self.scale_factor,
            gather: self.gather@,
            regather: match self.regather {
                Some(step) => Some(step@),
                None => None,
            },
        }
    }
}

/// What the array engine is asked to do for the position bias of one call.
/// The bias starts at zero, and each term that is present adds to it.
#[derive(Debug, PartialEq, Eq)]
pub struct BiasPlan {
    /// The offsets between query and key positions, with four axes.
    pub relative_pos: PositionTable,
    pub attention_span: usize,
    /// First row of the window of the relative embeddings.
    pub window_start: usize,
    /// One past the last row of the window.
    pub window_end: usize,
    /// Shape of the position keys, where the layer projects them.
    pub pos_key_layer: Option<LayerShape>,
    /// Shape of the position queries, where the layer projects them.
    pub pos_query_layer: Option<LayerShape>,
    /// The content-to-position term, where it is enabled.
    pub c2p: Option<GatherStep>,
    /// The position-to-content term, where it is enabled.
    pub p2c: Option<P2cStep>,
}

/// What the plan of the position bias is to the contracts.
pub struct BiasPlanView {
    pub relative_pos: PositionTableView,
    pub attention_span: usize,
    pub window_start: usize,
    pub window_end: usize,
    pub pos_key_layer: Option<LayerShape>,
    pub pos_query_layer: Option<LayerShape>,
    pub c2p: Option<GatherStepView>,
    pub p2c: Option<P2cStepView>,
}

impl View for BiasPlan {
    type V = BiasPlanView;

    open spec fn view(&self) -> BiasPlanView {
        BiasPlanView {
            relative_pos: self.relative_pos@,
            attention_span: self.attention_span,
            window_start: self.window_start,
            window_end: self.window_end,
            pos_key_layer: self.pos_key_layer,
            pos_query_layer: self.pos_query_layer,
            c2p: match self.c2p {
                Some(step) => Some(step@),
                None => None,
            },
            p2c: match self.p2c {
                Some(step) => Some(step@),
                None => None,
            },
        }
    }
}

impl BiasPlanView {
    /// Whether the plan adds nothing to the scores: no term is present, so
    /// the bias stays at the zero it starts from.
    pub open spec fn adds_nothing(self) -> bool {
        self.c2p is None && self.p2c is None
    }
}

/// Whether the offset tables of a call with these lengths can be held: the
/// offsets fit an `i64`, and the number of entries of the table between
/// queries and keys, and of the one between keys and keys, fits a `usize`.
pub open spec fn spec_tables_fit(query_len: int, key_len: int) -> bool {
    &&& query_len <= i64::MAX
    &&& key_len <= i64::MAX
    &&& query_len * key_len <= usize::MAX
    &&& key_len * key_len <= usize::MAX
}

/// Tells whether the offset tables of a call with these lengths can be
/// held.
pub fn tables_fit(query_len: usize, key_len: usize) -> (fit: bool)
    ensures
        fit == spec_tables_fit(query_len as int, key_len as int),
{
    if query_len as u128 > i64::MAX as u128 || key_len as u128 > i64::MAX as u128 {
        return false;
    }
    match (query_len.checked_mul(key_len), key_len.checked_mul(key_len)) {
        (Some(_), Some(_)) => true,
        _ => false,
    }
}

/// What a supplied table is to the contracts.
pub open spec fn spec_supplied(relative_pos: Option<&PositionTable>) -> Option<PositionTableView> {
    match relative_pos {
        Some(table) => Some(table@),
        None => None,
    }
}

/// The offsets of a call: the supplied table, or the one built from the
/// lengths where none is supplied.
pub open spec fn spec_offsets(query_len: int, key_len: int, supplied: Option<PositionTableView>) -> PositionTableView {
    match supplied {
        Some(table) => table,
        None => spec_relative_position(query_len, key_len),
    }
}

/// Whether query layer, key layer and relative embeddings are of the sizes
/// that the layer works with: both layers have the layer's heads and head
/// size and the same batch, and the embeddings have two rows for each
/// relative distance, as wide as a token vector.
pub open spec fn spec_sizes_agree(
    layer: AttentionView,
    query_layer: LayerShape,
    key_layer: LayerShape,
    relative_embeddings: EmbeddingShape,
) -> bool {
    &&& query_layer.heads == layer.num_attention_heads
    &&& key_layer.heads == layer.num_attention_heads
    &&& query_layer.head_size == layer.attention_head_size
    &&& key_layer.head_size == layer.attention_head_size
    &&& query_layer.batch == key_layer.batch
    &&& relative_embeddings.width == layer.hidden_size
    &&& match layer.max_relative_positions {
        Some(limit) => relative_embeddings.rows == 2 * limit,
        None => true,
    }
}

/// Shape of the relative embeddings of the window after their projection
/// and the split into heads: a batch of one, and a row for each row of the
/// window.
pub open spec fn spec_position_layer(layer: AttentionView, span: int) -> LayerShape {
    LayerShape {
        batch: 1,
        heads: layer.num_attention_heads,
        seq_len: (2 * span) as usize,
        head_size: layer.attention_head_size,
    }
}

/// The content-to-position term: the rows of the offsets, broadcast over
/// batch and heads.
pub open spec fn spec_c2p_step(query_layer: LayerShape, offsets: PositionTableView, span: int) -> GatherStepView {
    GatherStepView {
        index: spec_c2p_table(offsets, span),
        expand: spec_c2p_expand(query_layer, offsets.shape),
    }
}

/// The position-to-content term. With equal lengths the offsets of the
/// call serve as they are. With different lengths the rows are taken from
/// the offsets among the key positions alone, and a second selection picks
/// for each query position the row that the first column of the call's
/// offsets names.
pub open spec fn spec_p2c_step(
    query_layer: LayerShape,
    key_layer: LayerShape,
    offsets: PositionTableView,
    span: int,
    scale_factor: usize,
) -> P2cStepView {
    let square = spec_p2c_expand(query_layer, key_layer);
    if query_layer.seq_len != key_layer.seq_len {
        let among_keys = spec_relative_position(key_layer.seq_len as int, key_layer.seq_len as int);
        let first = spec_first_column(offsets);
        P2cStepView {
            head_size: query_layer.head_size,
            scale_factor,
            gather: GatherStepView { index: spec_p2c_table(among_keys, span), expand: square },
            regather: Some(GatherStepView { index: first, expand: spec_pos_expand(first.shape, square, key_layer) }),
        }
    } else {
        P2cStepView {
            head_size: query_layer.head_size,
            scale_factor,
            gather: GatherStepView { index: spec_p2c_table(offsets, span), expand: square },
            regather: None,
        }
    }
}

/// The plan of the position bias of a call.
///
/// A table of offsets whose rank is not 2, 3 or 4 is refused with its rank.
/// A layer without relative positions has no position bias: a configuration
/// error. Sizes that do not agree are a shape error, and so is a table
/// without a first column where the position-to-content term needs one.
pub open spec fn spec_bias_plan(
    layer: AttentionView,
    query_layer: LayerShape,
    key_layer: LayerShape,
    supplied: Option<PositionTableView>,
    relative_embeddings: EmbeddingShape,
    scale_factor: usize,
) -> Result<BiasPlanView, AttentionError> {
    let given = spec_offsets(query_layer.seq_len as int, key_layer.seq_len as int, supplied);
    let offsets = spec_normalized(given);
    if !(2 <= given.shape.len() <= 4) {
        Err(AttentionError::InvalidRank { rank: given.shape.len() as usize })
    } else if layer.max_relative_positions is None {
        Err(AttentionError::Configuration)
    } else if !spec_sizes_agree(layer, query_layer, key_layer, relative_embeddings) {
        Err(AttentionError::Shape)
    } else if layer.pos_att_type.p2c && query_layer.seq_len != key_layer.seq_len && offsets.shape[3] == 0 {
        Err(AttentionError::Shape)
    } else {
        let limit = layer.max_relative_positions->0;
        let span = spec_attention_span(query_layer.seq_len as int, key_layer.seq_len as int, limit as int);
        Ok(
            BiasPlanView {
                relative_pos: offsets,
                attention_span: span as usize,
                window_start: (limit - span) as usize,
                window_end: (limit + span) as usize,
                pos_key_layer: if layer.pos_proj is Some {
                    Some(spec_position_layer(layer, span))
                } else {
                    None
                },
                pos_query_layer: if layer.pos_q_proj is Some {
                    Some(spec_position_layer(layer, span))
                } else {
                    None
                },
                c2p: if layer.pos_att_type.c2p {
                    Some(spec_c2p_step(query_layer, offsets, span))
                } else {
                    None
                },
                p2c: if layer.pos_att_type.p2c {
                    Some(spec_p2c_step(query_layer, key_layer, offsets, span, scale_factor))
                } else {
                    None
                },
            },
        )
    }
}

impl DisentangledSelfAttention {
    /// Plans the position bias of a call: the window of the relative
    /// embeddings, the shapes of their projections, and for each enabled
    /// term the rows to pick from its scores.
    ///
    /// Where no table of offsets is supplied, the one between the query and
    /// key positions is built.
    pub fn disentangled_att_bias(
        &self,
        query_layer: LayerShape,
        key_layer: LayerShape,
        relative_pos: Option<&PositionTable>,
        relative_embeddings: EmbeddingShape,
        scale_factor: usize,
    ) -> (plan: Result<BiasPlan, AttentionError>)
        requires
            spec_tables_fit(query_layer.seq_len as int, key_layer.seq_len as int),
        ensures
            match plan {
                Ok(p) => spec_bias_plan(
                    self@,
                    query_layer,
                    key_layer,
                    spec_supplied(relative_pos),
                    relative_embeddings,
                    scale_factor,
                ) == Ok::<BiasPlanView, AttentionError>(p@),
                Err(e) => spec_bias_plan(
                    self@,
                    query_layer,
                    key_layer,
                    spec_supplied(relative_pos),
                    relative_embeddings,
                    scale_factor,
                ) == Err::<BiasPlanView, AttentionError>(e),
            },
    {
        let query_len: usize = query_layer.seq_len;
        let key_len: usize = key_layer.seq_len;
        let normalized = match relative_pos {
            Some(table) => table.normalized(),
            None => build_relative_position(query_len, key_len).normalized(),
        };
        let offsets = match normalized {
            Ok(table) => table,
            Err(e) => {
                return Err(e);
            },
        };
        let limit: usize = match self.max_relative_positions() {
            Some(limit) => limit,
            None => {
                return Err(AttentionError::Configuration);
            },
        };
        let heads: usize = self.num_attention_heads();
        let head_size: usize = self.attention_head_size();
        if query_layer.heads != heads || key_layer.heads != heads || query_layer.head_size != head_size
            || key_layer.head_size != head_size || query_layer.batch != key_layer.batch
            || relative_embeddings.width != self.hidden_size() || relative_embeddings.rows != 2 * limit {
            return Err(AttentionError::Shape);
        }
        let types = self.pos_att_type();
        let differ: bool = query_len != key_len;
        if types.p2c && differ && offsets.shape()[3] == 0 {
            return Err(AttentionError::Shape);
        }
        let span: usize = attention_span(query_len, key_len, limit);
        let window = embedding_window(limit, span);
        let position_layer = LayerShape { batch: 1, heads, seq_len: 2 * span, head_size };
        let pos_key_layer = match self.pos_proj() {
            Some(_) => Some(position_layer),
            None => None,
        };
        let pos_query_layer = match self.pos_q_proj() {
            Some(_) => Some(position_layer),
            None => None,
        };
        let c2p = if types.c2p {
            Some(
                GatherStep {
                    index: offsets.c2p_index_table(span),
                    expand: c2p_dynamic_expand(query_layer, &offsets),
                },
            )
        } else {
            None
        };
        let p2c = if types.p2c {
            let square = p2c_dynamic_expand(query_layer, key_layer);
            if differ {
                let among_keys = build_relative_position(key_len, key_len);
                let first = offsets.first_column();
                let target = pos_dynamic_expand(&first, square, key_layer);
                Some(
                    P2cStep {
                        head_size: query_layer.head_size,
                        scale_factor,
                        gather: GatherStep { index: among_keys.p2c_index_table(span), expand: square },
                        regather: Some(GatherStep { index: first, expand: target }),
                    },
                )
            } else {
                Some(
                    P2cStep {
                        head_size: query_layer.head_size,
                        scale_factor,
                        gather: GatherStep { index: offsets.p2c_index_table(span), expand: square },
                        regather: None,
                    },
                )
            }
        } else {
            None
        };
        Ok(
            BiasPlan {
                relative_pos: offsets,
                attention_span: span,
                window_start: window.0,
                window_end: window.1,
                pos_key_layer,
                pos_query_layer,
                c2p,
                p2c,
            },
        )
    }
}

} // verus!
