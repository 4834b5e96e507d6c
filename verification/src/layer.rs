//! The attention layer: which parameters it owns and of what shape.

use vstd::prelude::*;
use crate::error::AttentionError;
use crate::kinds::PositionAttentionTypes;
use crate::shape::LinearShape;

verus! {

/// The settings of a model that the attention layer reads.
#[derive(Debug, Clone, Copy, PartialEq, Eq, Structural)]
pub struct DebertaConfig {
    /// Width of a token vector.
    pub hidden_size: i64,
    /// Number of heads the width is split into.
    pub num_attention_heads: i64,
    /// Longest sequence the model has position embeddings for.
    pub max_position_embeddings: i64,
    /// Whether relative positions add to the scores; off when absent.
    pub relative_attention: Option<bool>,
    /// Largest relative distance with an embedding of its own; when absent
    /// or below 1, `max_position_embeddings` takes its place.
    pub max_relative_positions: Option<i64>,
    /// The enabled position terms; none when absent.
    pub pos_att_type: Option<PositionAttentionTypes>,
    /// Whether the scores are mixed across heads; off when absent.
    pub talking_head: Option<bool>,
}

/// What a layer is to the contracts.
pub struct AttentionView {
    pub hidden_size: usize,
    pub num_attention_heads: usize,
    pub attention_head_size: usize,
    /// The fused projection to queries, keys and values of all heads.
    pub in_proj: LinearShape,
    /// Length of the bias added to the queries, and of the one added to the
    /// values. Keys get none.
    pub bias_len: usize,
    /// The mix of the scores across heads before they are normalised.
    pub head_logits_proj: Option<LinearShape>,
    /// The mix of the weights across heads after they are normalised.
    pub head_weights_proj: Option<LinearShape>,
    /// The projection of the relative embeddings to position keys.
    pub pos_proj: Option<LinearShape>,
    /// The projection of the relative embeddings to position queries.
    pub pos_q_proj: Option<LinearShape>,
    pub pos_att_type: PositionAttentionTypes,
    /// Present exactly when the layer uses relative positions.
    pub max_relative_positions: Option<usize>,
}

impl AttentionView {
    /// Whether the layer uses relative positions.
    pub open spec fn relative_attention(self) -> bool {
        self.max_relative_positions is Some
    }

    /// Whether the layer mixes its scores across heads.
    pub open spec fn talking_head(self) -> bool {
        self.head_logits_proj is Some
    }

    /// Whether the layer needs position keys: it uses relative positions
    /// and has the content-to-position or the position-to-position term.
    pub open spec fn wants_pos_proj(self) -> bool {
        self.relative_attention() && (self.pos_att_type.c2p || self.pos_att_type.p2p)
    }

    /// Whether the layer needs position queries: it uses relative positions
    /// and has the position-to-content or the position-to-position term.
    pub open spec fn wants_pos_q_proj(self) -> bool {
        self.relative_attention() && (self.pos_att_type.p2c || self.pos_att_type.p2p)
    }

    /// What holds of every layer: the heads divide the width; the fused
    /// projection makes three vectors of that width; each optional
    /// parameter is present exactly when the settings ask for it, and has
    /// the shape they ask for.
    pub open spec fn valid(self) -> bool {
        &&& self.num_attention_heads >= 1
        &&& self.attention_head_size * self.num_attention_heads == self.hidden_size
        &&& 3 * self.hidden_size <= usize::MAX
        &&& self.in_proj == (LinearShape {
            in_features: self.hidden_size,
            out_features: (3 * self.hidden_size) as usize,
            bias: false,
        })
        &&& self.bias_len == self.hidden_size
        &&& spec_mixer_is(self.head_logits_proj, self.talking_head(), self.num_attention_heads)
        &&& spec_mixer_is(self.head_weights_proj, self.talking_head(), self.num_attention_heads)
        &&& spec_projection_is(self.pos_proj, self.wants_pos_proj(), self.hidden_size, false)
        &&& spec_projection_is(self.pos_q_proj, self.wants_pos_q_proj(), self.hidden_size, true)
        &&& match self.max_relative_positions {
            Some(limit) => spec_usable_limit(limit as int),
            None => true,
        }
    }
}

/// Whether `limit` can serve as the largest relative distance: it is
/// positive, and a table of twice as many rows can be indexed.
pub open spec fn spec_usable_limit(limit: int) -> bool {
    1 <= limit && 2 * limit <= usize::MAX && 2 * limit <= i64::MAX
}

/// An optional mix across heads is present exactly when `wanted`, and is
/// then a square map on the heads without bias.
pub open spec fn spec_mixer_is(mixer: Option<LinearShape>, wanted: bool, heads: usize) -> bool {
    mixer == if wanted {
        Some(LinearShape { in_features: heads, out_features: heads, bias: false })
    } else {
        None
    }
}

/// An optional position projection is present exactly when `wanted`, and
/// is then a map of the width onto itself.
pub open spec fn spec_projection_is(projection: Option<LinearShape>, wanted: bool, width: usize, bias: bool) -> bool {
    projection == if wanted {
        Some(LinearShape { in_features: width, out_features: width, bias })
    } else {
        None
    }
}

/// Whether the settings describe heads that divide the width, with a fused
/// projection that can be indexed.
pub open spec fn spec_heads_fit(config: DebertaConfig) -> bool {
    &&& config.num_attention_heads >= 1
    &&& config.hidden_size >= 1
    &&& config.hidden_size % config.num_attention_heads == 0
    &&& 3 * config.hidden_size <= usize::MAX
}

/// The largest relative distance that the settings ask for: the configured
/// one where it is at least 1, else the longest sequence.
pub open spec fn spec_configured_limit(config: DebertaConfig) -> int {
    match config.max_relative_positions {
        Some(limit) if limit >= 1 => limit as int,
        _ => config.max_position_embeddings as int,
    }
}

/// Whether the settings switch relative positions on.
pub open spec fn spec_relative(config: DebertaConfig) -> bool {
    config.relative_attention == Some(true)
}

/// Whether the settings switch the mix across heads on.
pub open spec fn spec_talking(config: DebertaConfig) -> bool {
    config.talking_head == Some(true)
}

/// The position terms that the settings enable.
pub open spec fn spec_types(config: DebertaConfig) -> PositionAttentionTypes {
    match config.pos_att_type {
        Some(types) => types,
        None => PositionAttentionTypes { c2p: false, p2c: false, p2p: false },
    }
}

/// The layer that the settings describe. Settings whose heads do not divide
/// the width are a shape error; settings that switch relative positions on
/// without a usable largest distance are a configuration error.
pub open spec fn spec_new(config: DebertaConfig) -> Result<AttentionView, AttentionError> {
    if !spec_heads_fit(config) {
        Err(AttentionError::Shape)
    } else if spec_relative(config) && !spec_usable_limit(spec_configured_limit(config)) {
        Err(AttentionError::Configuration)
    } else {
        let width = config.hidden_size as usize;
        let heads = config.num_attention_heads as usize;
        let types = spec_types(config);
        Ok(
            AttentionView {
                hidden_size: width,
                num_attention_heads: heads,
                attention_head_size: (config.hidden_size / config.num_attention_heads) as usize,
                in_proj: LinearShape { in_features: width, out_features: (3 * width) as usize, bias: false },
                bias_len: width,
                head_logits_proj: if spec_talking(config) {
                    Some(LinearShape { in_features: heads, out_features: heads, bias: false })
                } else {
                    None
                },
                head_weights_proj: if spec_talking(config) {
                    Some(LinearShape { in_features: heads, out_features: heads, bias: false })
                } else {
                    None
                },
                pos_proj: if spec_relative(config) && (types.c2p || types.p2p) {
                    Some(LinearShape { in_features: width, out_features: width, bias: false })
                } else {
                    None
                },
                pos_q_proj: if spec_relative(config) && (types.p2c || types.p2p) {
                    Some(LinearShape { in_features: width, out_features: width, bias: true })
                } else {
                    None
                },
                pos_att_type: types,
                max_relative_positions: if spec_relative(config) {
                    Some(spec_configured_limit(config) as usize)
                } else {
                    None
                },
            },
        )
    }
}

/// Every layer that the settings can describe is valid.
pub proof fn lemma_new_is_valid(config: DebertaConfig)
    ensures
        match spec_new(config) {
            Ok(layer) => layer.valid(),
            Err(_) => true,
        },
{
    if spec_new(config) is Ok {
        let heads = config.num_attention_heads as int;
        let width = config.hidden_size as int;
        lemma_heads_divide(width, heads);
    }
}

/// Where `heads` heads divide a positive `width`, there are at most `width`
/// of them, and they are of equal positive size.
pub proof fn lemma_heads_divide(width: int, heads: int)
    requires
        heads >= 1,
        width >= 1,
        width % heads == 0,
    ensures
        1 <= heads <= width,
        1 <= width / heads <= width,
        (width / heads) * heads == width,
{
    vstd::arithmetic::div_mod::lemma_fundamental_div_mod(width, heads);
    let size = width / heads;
    assert(size >= 1 && size <= width && heads <= width && size * heads == width) by (nonlinear_arith)
        requires
            width == heads * size,
            heads >= 1,
            width >= 1,
    ;
}

/// The mix across heads is absent from a layer whose settings do not ask
/// for it, and the position projections from one without relative
/// positions, whatever terms are enabled.
pub proof fn lemma_absent_parameters(config: DebertaConfig)
    ensures
        match spec_new(config) {
            Ok(layer) => {
                &&& !spec_talking(config) ==> layer.head_logits_proj is None && layer.head_weights_proj is None
                &&& !spec_relative(config) ==> layer.pos_proj is None && layer.pos_q_proj is None
                    && layer.max_relative_positions is None
                &&& layer.pos_proj is Some <==> spec_relative(config) && (spec_types(config).c2p || spec_types(
                    config,
                ).p2p)
                &&& layer.pos_q_proj is Some <==> spec_relative(config) && (spec_types(config).p2c || spec_types(
                    config,
                ).p2p)
            },
            Err(_) => true,
        },
{
}

/// The disentangled self-attention layer: the shapes of the parameters it
/// owns. The numbers themselves are kept by whoever runs the array engine.
#[derive(Debug, Clone, Copy)]
pub struct DisentangledSelfAttention {
    in_proj: LinearShape,
    bias_len: usize,
    hidden_size: usize,
    num_attention_heads: usize,
    attention_head_size: usize,
    head_logits_proj: Option<LinearShape>,
    head_weights_proj: Option<LinearShape>,
    pos_proj: Option<LinearShape>,
    pos_q_proj: Option<LinearShape>,
    pos_att_type: PositionAttentionTypes,
    max_relative_positions: Option<usize>,
}

impl View for DisentangledSelfAttention {
    type V = AttentionView;

    closed spec fn view(&self) -> AttentionView {
        AttentionView {
            hidden_size: self.hidden_size,
            num_attention_heads: self.num_attention_heads,
            attention_head_size: self.attention_head_size,
            in_proj: self.in_proj,
            bias_len: self.bias_len,
            head_logits_proj: self.head_logits_proj,
            head_weights_proj: self.head_weights_proj,
            pos_proj: self.pos_proj,
            pos_q_proj: self.pos_q_proj,
            pos_att_type: self.pos_att_type,
            max_relative_positions: self.max_relative_positions,
        }
    }
}

impl DisentangledSelfAttention {
    #[verifier::type_invariant]
    spec fn is_valid(&self) -> bool {
        self@.valid()
    }

    /// Lays out the layer for the given settings.
    ///
    /// The width must be a multiple of the number of heads, else the result
    /// is a shape error. With relative positions switched on, the largest
    /// relative distance must be positive, else the result is a
    /// configuration error. The mix across heads and the two position
    /// projections are laid out only where the settings ask for them.
    pub fn new(config: &DebertaConfig) -> (layer: Result<DisentangledSelfAttention, AttentionError>)
        ensures
            match layer {
                Ok(l) => spec_new(*config) == Ok::<AttentionView, AttentionError>(l@) && l@.valid(),
                Err(e) => spec_new(*config) == Err::<AttentionView, AttentionError>(e),
            },
    {
        proof {
            lemma_new_is_valid(*config);
        }
        let heads_given: i64 = config.num_attention_heads;
        let width_given: i64 = config.hidden_size;
        if heads_given < 1 || width_given < 1 {
            return Err(AttentionError::Shape);
        }
        if width_given % heads_given != 0 {
            return Err(AttentionError::Shape);
        }
        if width_given as u64 > (usize::MAX / 3) as u64 {
            return Err(AttentionError::Shape);
        }
        proof {
            lemma_heads_divide(width_given as int, heads_given as int);
        }
        let hidden_size: usize = width_given as usize;
        let num_attention_heads: usize = heads_given as usize;
        let attention_head_size: usize = hidden_size / num_attention_heads;
        let pos_att_type = match config.pos_att_type {
            Some(types) => types,
            None => PositionAttentionTypes::empty(),
        };
        let relative_attention: bool = match config.relative_attention {
            Some(on) => on,
            None => false,
        };
        let talking_head: bool = match config.talking_head {
            Some(on) => on,
            None => false,
        };
        let mixer = if talking_head {
            Some(LinearShape { in_features: num_attention_heads, out_features: num_attention_heads, bias: false })
        } else {
            None
        };
        let mut max_relative_positions: Option<usize> = None;
        let mut pos_proj: Option<LinearShape> = None;
        let mut pos_q_proj: Option<LinearShape> = None;
        if relative_attention {
            let mut limit: i64 = match config.max_relative_positions {
                Some(given) => given,
                None => -1,
            };
            if limit < 1 {
                limit = config.max_position_embeddings;
            }
            if limit < 1 || limit > i64::MAX / 2 || limit as u64 > (usize::MAX / 2) as u64 {
                return Err(AttentionError::Configuration);
            }
            max_relative_positions = Some(limit as usize);
            if pos_att_type.c2p || pos_att_type.p2p {
                pos_proj = Some(LinearShape { in_features: hidden_size, out_features: hidden_size, bias: false });
            }
            if pos_att_type.p2c || pos_att_type.p2p {
                pos_q_proj = Some(LinearShape { in_features: hidden_size, out_features: hidden_size, bias: true });
            }
        }
        Ok(
            DisentangledSelfAttention {
                in_proj: LinearShape { in_features: hidden_size, out_features: 3 * hidden_size, bias: false },
                bias_len: hidden_size,
                hidden_size,
                num_attention_heads,
                attention_head_size,
                head_logits_proj: mixer,
                head_weights_proj: mixer,
                pos_proj,
                pos_q_proj,
                pos_att_type,
                max_relative_positions,
            },
        )
    }

    /// Width of a token vector.
    pub fn hidden_size(&self) -> (width: usize)
        ensures
            width == self@.hidden_size,
            self@.valid(),
    {
        proof {
            use_type_invariant(self);
        }
        self.hidden_size
    }

    /// Number of heads.
    pub fn num_attention_heads(&self) -> (heads: usize)
        ensures
            heads == self@.num_attention_heads,
            self@.valid(),
    {
        proof {
            use_type_invariant(self);
        }
        self.num_attention_heads
    }

    /// Width of one head.
    pub fn attention_head_size(&self) -> (size: usize)
        ensures
            size == self@.attention_head_size,
            self@.valid(),
    {
        proof {
            use_type_invariant(self);
        }
        self.attention_head_size
    }

    /// Shape of the fused projection to queries, keys and values.
    pub fn in_proj(&self) -> (shape: LinearShape)
        ensures
            shape == self@.in_proj,
            self@.valid(),
    {
        proof {
            use_type_invariant(self);
        }
        self.in_proj
    }

    /// Length of the bias of the queries and of the bias of the values.
    pub fn bias_len(&self) -> (len: usize)
        ensures
            len == self@.bias_len,
            self@.valid(),
    {
        proof {
            use_type_invariant(self);
        }
        self.bias_len
    }

    /// Shape of the mix of the scores across heads, where the layer has one.
    pub fn head_logits_proj(&self) -> (shape: Option<LinearShape>)
        ensures
            shape == self@.head_logits_proj,
            self@.valid(),
    {
        proof {
            use_type_invariant(self);
        }
        self.head_logits_proj
    }

    /// Shape of the mix of the weights across heads, where the layer has one.
    pub fn head_weights_proj(&self) -> (shape: Option<LinearShape>)
        ensures
            shape == self@.head_weights_proj,
            self@.valid(),
    {
        proof {
            use_type_invariant(self);
        }
        self.head_weights_proj
    }

    /// Shape of the projection to position keys, where the layer has one.
    pub fn pos_proj(&self) -> (shape: Option<LinearShape>)
        ensures
            shape == self@.pos_proj,
            self@.valid(),
    {
        proof {
            use_type_invariant(self);
        }
        self.pos_proj
    }

    /// Shape of the projection to position queries, where the layer has one.
    pub fn pos_q_proj(&self) -> (shape: Option<LinearShape>)
        ensures
            shape == self@.pos_q_proj,
            self@.valid(),
    {
        proof {
            use_type_invariant(self);
        }
        self.pos_q_proj
    }

    /// The enabled position terms.
    pub fn pos_att_type(&self) -> (types: PositionAttentionTypes)
        ensures
            types == self@.pos_att_type,
            self@.valid(),
    {
        proof {
            use_type_invariant(self);
        }
        self.pos_att_type
    }

    /// The largest relative distance with an embedding of its own, where
    /// the layer uses relative positions.
    pub fn max_relative_positions(&self) -> (limit: Option<usize>)
        ensures
            limit == self@.max_relative_positions,
            self@.valid(),
    {
        proof {
            use_type_invariant(self);
        }
        self.max_relative_positions
    }

    /// Whether the layer uses relative positions.
    pub fn relative_attention(&self) -> (on: bool)
        ensures
            on == self@.relative_attention(),
            self@.valid(),
    {
        proof {
            use_type_invariant(self);
        }
        self.max_relative_positions.is_some()
    }

    /// Whether the layer mixes its scores across heads.
    pub fn talking_head(&self) -> (on: bool)
        ensures
            on == self@.talking_head(),
            self@.valid(),
    {
        proof {
            use_type_invariant(self);
        }
        self.head_logits_proj.is_some()
    }
}

} // verus!
