use deberta_attention::error::AttentionError;
use deberta_attention::kinds::{scale_factor, PositionAttentionType, PositionAttentionTypes};
use deberta_attention::layer::{DebertaConfig, DisentangledSelfAttention};
use deberta_attention::shape::{
    c2p_dynamic_expand, head_group_rows, linear, p2c_dynamic_expand, pos_dynamic_expand, transpose_for_scores,
    LayerShape, LinearShape, ProjectionGroup, ScoreShape, StateShape,
};
use deberta_attention::table::build_relative_position;

fn settings(c2p: bool, p2c: bool, p2p: bool) -> DebertaConfig {
    DebertaConfig {
        hidden_size: 8,
        num_attention_heads: 2,
        max_position_embeddings: 512,
        relative_attention: Some(true),
        max_relative_positions: Some(5),
        pos_att_type: Some(PositionAttentionTypes { c2p, p2c, p2p }),
        talking_head: Some(false),
    }
}

#[test]
fn kinds_are_collected_from_a_list() {
    let types = PositionAttentionTypes::from_kinds(&vec![PositionAttentionType::P2c, PositionAttentionType::C2p]);
    assert!(types.has_type(PositionAttentionType::C2p));
    assert!(types.has_type(PositionAttentionType::P2c));
    assert!(!types.has_type(PositionAttentionType::P2p));
    assert_eq!(types.len(), 2);
    assert!(!types.is_empty());
}

#[test]
fn repeated_kinds_count_once() {
    let types = PositionAttentionTypes::from_kinds(&vec![
        PositionAttentionType::C2p,
        PositionAttentionType::C2p,
        PositionAttentionType::C2p,
    ]);
    assert_eq!(types, PositionAttentionTypes { c2p: true, p2c: false, p2p: false });
    assert_eq!(types.len(), 1);
    assert_eq!(scale_factor(&types), 2);
}

#[test]
fn no_kinds_make_the_empty_set() {
    let types = PositionAttentionTypes::from_kinds(&vec![]);
    assert_eq!(types, PositionAttentionTypes::empty());
    assert!(types.is_empty());
    assert_eq!(types.len(), 0);
    assert_eq!(scale_factor(&types), 1);
}

#[test]
fn scale_factor_counts_each_kind() {
    assert_eq!(scale_factor(&PositionAttentionTypes { c2p: true, p2c: true, p2p: false }), 3);
    assert_eq!(scale_factor(&PositionAttentionTypes { c2p: true, p2c: true, p2p: true }), 4);
    assert_eq!(scale_factor(&PositionAttentionTypes { c2p: false, p2c: false, p2p: true }), 2);
}

#[test]
fn layer_splits_the_width_among_the_heads() {
    let layer = DisentangledSelfAttention::new(&settings(true, false, false)).unwrap();
    assert_eq!(layer.hidden_size(), 8);
    assert_eq!(layer.num_attention_heads(), 2);
    assert_eq!(layer.attention_head_size(), 4);
    assert_eq!(layer.in_proj(), LinearShape { in_features: 8, out_features: 24, bias: false });
    assert_eq!(layer.bias_len(), 8);
    assert_eq!(layer.max_relative_positions(), Some(5));
    assert!(layer.relative_attention());
}

#[test]
fn layer_refuses_heads_that_do_not_divide_the_width() {
    let mut config = settings(true, false, false);
    config.num_attention_heads = 3;
    assert_eq!(DisentangledSelfAttention::new(&config).err(), Some(AttentionError::Shape));
    config.num_attention_heads = 0;
    assert_eq!(DisentangledSelfAttention::new(&config).err(), Some(AttentionError::Shape));
    config.num_attention_heads = -2;
    assert_eq!(DisentangledSelfAttention::new(&config).err(), Some(AttentionError::Shape));
    config.num_attention_heads = 2;
    config.hidden_size = 0;
    assert_eq!(DisentangledSelfAttention::new(&config).err(), Some(AttentionError::Shape));
    config.hidden_size = -8;
    assert_eq!(DisentangledSelfAttention::new(&config).err(), Some(AttentionError::Shape));
}

#[test]
fn layer_falls_back_to_the_longest_sequence() {
    let mut config = settings(true, true, false);
    config.max_relative_positions = None;
    assert_eq!(DisentangledSelfAttention::new(&config).unwrap().max_relative_positions(), Some(512));
    config.max_relative_positions = Some(-1);
    assert_eq!(DisentangledSelfAttention::new(&config).unwrap().max_relative_positions(), Some(512));
    config.max_relative_positions = Some(0);
    assert_eq!(DisentangledSelfAttention::new(&config).unwrap().max_relative_positions(), Some(512));
    config.max_relative_positions = Some(1);
    assert_eq!(DisentangledSelfAttention::new(&config).unwrap().max_relative_positions(), Some(1));
}

#[test]
fn layer_refuses_relative_positions_without_a_limit() {
    let mut config = settings(true, false, false);
    config.max_relative_positions = None;
    config.max_position_embeddings = 0;
    assert_eq!(DisentangledSelfAttention::new(&config).err(), Some(AttentionError::Configuration));
    config.max_position_embeddings = -4;
    assert_eq!(DisentangledSelfAttention::new(&config).err(), Some(AttentionError::Configuration));
    config.max_relative_positions = Some(i64::MAX);
    assert_eq!(DisentangledSelfAttention::new(&config).err(), Some(AttentionError::Configuration));
    config.relative_attention = Some(false);
    config.max_relative_positions = None;
    assert!(DisentangledSelfAttention::new(&config).is_ok());
}

#[test]
fn shape_error_comes_before_configuration_error() {
    let mut config = settings(true, false, false);
    config.num_attention_heads = 3;
    config.max_relative_positions = None;
    config.max_position_embeddings = 0;
    assert_eq!(DisentangledSelfAttention::new(&config).err(), Some(AttentionError::Shape));
}

#[test]
fn position_projections_follow_the_kinds() {
    let key_side = LinearShape { in_features: 8, out_features: 8, bias: false };
    let query_side = LinearShape { in_features: 8, out_features: 8, bias: true };
    let c2p = DisentangledSelfAttention::new(&settings(true, false, false)).unwrap();
    assert_eq!(c2p.pos_proj(), Some(key_side));
    assert_eq!(c2p.pos_q_proj(), None);
    let p2c = DisentangledSelfAttention::new(&settings(false, true, false)).unwrap();
    assert_eq!(p2c.pos_proj(), None);
    assert_eq!(p2c.pos_q_proj(), Some(query_side));
    let p2p = DisentangledSelfAttention::new(&settings(false, false, true)).unwrap();
    assert_eq!(p2p.pos_proj(), Some(key_side));
    assert_eq!(p2p.pos_q_proj(), Some(query_side));
    let none = DisentangledSelfAttention::new(&settings(false, false, false)).unwrap();
    assert_eq!(none.pos_proj(), None);
    assert_eq!(none.pos_q_proj(), None);
    assert_eq!(none.max_relative_positions(), Some(5));
}

#[test]
fn position_projections_need_relative_attention() {
    let mut config = settings(true, true, true);
    config.relative_attention = None;
    let layer = DisentangledSelfAttention::new(&config).unwrap();
    assert_eq!(layer.pos_proj(), None);
    assert_eq!(layer.pos_q_proj(), None);
    assert_eq!(layer.max_relative_positions(), None);
    assert!(!layer.relative_attention());
    assert_eq!(layer.pos_att_type(), PositionAttentionTypes { c2p: true, p2c: true, p2p: true });
}

#[test]
fn absent_settings_switch_everything_off() {
    let config = DebertaConfig {
        hidden_size: 12,
        num_attention_heads: 3,
        max_position_embeddings: 64,
        relative_attention: None,
        max_relative_positions: None,
        pos_att_type: None,
        talking_head: None,
    };
    let layer = DisentangledSelfAttention::new(&config).unwrap();
    assert!(layer.pos_att_type().is_empty());
    assert!(!layer.talking_head());
    assert!(!layer.relative_attention());
    assert_eq!(layer.attention_head_size(), 4);
    assert_eq!(layer.in_proj().out_features, 36);
}

#[test]
fn mixer_is_absent_without_talking_heads() {
    let layer = DisentangledSelfAttention::new(&settings(true, true, false)).unwrap();
    assert!(!layer.talking_head());
    assert_eq!(layer.head_logits_proj(), None);
    assert_eq!(layer.head_weights_proj(), None);
    let plan = layer.mixer();
    assert_eq!(plan.logits, None);
    assert_eq!(plan.weights, None);
}

#[test]
fn mixer_is_a_square_map_on_the_heads() {
    let mut config = settings(true, true, false);
    config.talking_head = Some(true);
    let layer = DisentangledSelfAttention::new(&config).unwrap();
    let square = LinearShape { in_features: 2, out_features: 2, bias: false };
    assert!(layer.talking_head());
    assert_eq!(layer.mixer().logits, Some(square));
    assert_eq!(layer.mixer().weights, Some(square));
}

#[test]
fn transpose_for_scores_moves_the_heads_forward() {
    let x = StateShape { batch: 2, seq_len: 5, width: 12 };
    assert_eq!(
        transpose_for_scores(x, 3),
        Ok(LayerShape { batch: 2, heads: 3, seq_len: 5, head_size: 4 })
    );
    assert_eq!(
        transpose_for_scores(StateShape { batch: 1, seq_len: 1, width: 8 }, 2),
        Ok(LayerShape { batch: 1, heads: 2, seq_len: 1, head_size: 4 })
    );
}

#[test]
fn transpose_for_scores_refuses_uneven_heads() {
    let x = StateShape { batch: 2, seq_len: 5, width: 12 };
    assert_eq!(transpose_for_scores(x, 5), Err(AttentionError::Shape));
    assert_eq!(transpose_for_scores(x, 0), Err(AttentionError::Shape));
    assert_eq!(transpose_for_scores(x, 24), Err(AttentionError::Shape));
}

#[test]
fn linear_maps_the_width() {
    let weight = LinearShape { in_features: 8, out_features: 24, bias: false };
    let x = StateShape { batch: 2, seq_len: 3, width: 8 };
    assert_eq!(linear(weight, x), Ok(StateShape { batch: 2, seq_len: 3, width: 24 }));
}

#[test]
fn linear_refuses_another_width() {
    let weight = LinearShape { in_features: 8, out_features: 24, bias: false };
    let x = StateShape { batch: 2, seq_len: 3, width: 24 };
    assert_eq!(linear(weight, x), Err(AttentionError::Shape));
}

#[test]
fn expand_shapes_follow_the_layers() {
    let query_layer = LayerShape { batch: 2, heads: 3, seq_len: 4, head_size: 5 };
    let key_layer = LayerShape { batch: 2, heads: 3, seq_len: 7, head_size: 5 };
    let offsets = build_relative_position(4, 7).normalized().unwrap();
    assert_eq!(
        c2p_dynamic_expand(query_layer, &offsets),
        ScoreShape { batch: 2, heads: 3, rows: 4, columns: 7 }
    );
    let square = p2c_dynamic_expand(query_layer, key_layer);
    assert_eq!(square, ScoreShape { batch: 2, heads: 3, rows: 7, columns: 7 });
    let first = offsets.first_column();
    assert_eq!(
        pos_dynamic_expand(&first, square, key_layer),
        ScoreShape { batch: 2, heads: 3, rows: 4, columns: 7 }
    );
}

#[test]
fn group_rows_take_one_slice_of_each_head() {
    assert_eq!(head_group_rows(2, 4, ProjectionGroup::Query), vec![0usize, 1, 2, 3, 12, 13, 14, 15]);
    assert_eq!(head_group_rows(2, 4, ProjectionGroup::Key), vec![4usize, 5, 6, 7, 16, 17, 18, 19]);
    assert_eq!(head_group_rows(2, 4, ProjectionGroup::Value), vec![8usize, 9, 10, 11, 20, 21, 22, 23]);
    assert_eq!(head_group_rows(3, 1, ProjectionGroup::Key), vec![1usize, 4, 7]);
    assert!(head_group_rows(0, 4, ProjectionGroup::Query).is_empty());
}

#[test]
fn group_rows_split_the_weight() {
    let heads: usize = 3;
    let size: usize = 5;
    let mut seen: Vec<usize> = vec![0; 3 * heads * size];
    for group in [ProjectionGroup::Query, ProjectionGroup::Key, ProjectionGroup::Value] {
        let rows = head_group_rows(heads, size, group);
        assert_eq!(rows.len(), heads * size);
        for row in rows {
            seen[row] += 1;
        }
    }
    assert!(seen.iter().all(|count| *count == 1));
}

#[test]
fn group_slots_are_in_order() {
    assert_eq!(ProjectionGroup::Query.slot(), 0);
    assert_eq!(ProjectionGroup::Key.slot(), 1);
    assert_eq!(ProjectionGroup::Value.slot(), 2);
}
