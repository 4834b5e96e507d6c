use deberta_attention::bias::EmbeddingShape;
use deberta_attention::kinds::PositionAttentionTypes;
use deberta_attention::layer::{DebertaConfig, DisentangledSelfAttention};
use deberta_attention::shape::StateShape;

fn fused_weight() -> Vec<Vec<f64>> {
    (0..24usize).map(|r| (0..8usize).map(|c| (((r * 8 + c) % 7) as f64 - 3.0) * 0.1).collect()).collect()
}

fn hidden_states() -> Vec<Vec<f64>> {
    (0..3usize).map(|s| (0..8usize).map(|c| (((s * 8 + c) % 5) as f64 - 2.0) * 0.5).collect()).collect()
}

fn query_bias() -> Vec<f64> {
    (0..8usize).map(|i| 0.01 * (i as f64 + 1.0)).collect()
}

fn relative_embeddings() -> Vec<Vec<f64>> {
    (0..10usize).map(|r| (0..8usize).map(|c| (((r * 8 + c) % 9) as f64 - 4.0) * 0.05).collect()).collect()
}

fn position_key_weight() -> Vec<Vec<f64>> {
    (0..8usize).map(|r| (0..8usize).map(|c| (((r * 8 + c) % 4) as f64 - 1.5) * 0.2).collect()).collect()
}

fn dot(a: &[f64], b: &[f64]) -> f64 {
    a.iter().zip(b.iter()).map(|(x, y)| x * y).sum()
}

#[test]
fn scores_of_a_small_layer_with_content_to_position() {
    let config = DebertaConfig {
        hidden_size: 8,
        num_attention_heads: 2,
        max_position_embeddings: 512,
        relative_attention: Some(true),
        max_relative_positions: Some(5),
        pos_att_type: Some(PositionAttentionTypes { c2p: true, p2c: false, p2p: false }),
        talking_head: None,
    };
    let layer = DisentangledSelfAttention::new(&config).unwrap();
    let plan = layer
        .forward_t(
            StateShape { batch: 1, seq_len: 3, width: 8 },
            None,
            None,
            Some(EmbeddingShape { rows: 10, width: 8 }),
            false,
        )
        .unwrap();
    let bias = plan.bias.as_ref().unwrap();
    let c2p = bias.c2p.as_ref().unwrap();

    let weight = fused_weight();
    let states = hidden_states();
    let learned = query_bias();
    let embeddings = relative_embeddings();
    let position_weight = position_key_weight();

    let heads: usize = plan.query_layer.heads;
    let size: usize = plan.query_layer.head_size;
    let query_len: usize = plan.query_layer.seq_len;
    let key_len: usize = plan.key_layer.seq_len;
    let scale: f64 = ((size * plan.scale_factor) as f64).sqrt();
    let window = &embeddings[bias.window_start..bias.window_end];
    assert_eq!(c2p.expand.rows, query_len);
    assert_eq!(c2p.expand.columns, key_len);

    let mut scores: Vec<f64> = Vec::new();
    for h in 0..heads {
        for i in 0..query_len {
            let query: Vec<f64> = (0..size)
                .map(|d| (dot(&states[i], &weight[plan.query_rows[h * size + d]]) + learned[h * size + d]) / scale)
                .collect();
            for j in 0..key_len {
                let key: Vec<f64> =
                    (0..size).map(|d| dot(&states[j], &weight[plan.key_rows[h * size + d]])).collect();
                let row: usize = c2p.index.data()[i * key_len + j] as usize;
                let position_key: Vec<f64> =
                    (0..size).map(|d| dot(&window[row], &position_weight[h * size + d])).collect();
                scores.push(dot(&query, &key) + dot(&query, &position_key));
            }
        }
    }

    let expected: Vec<f64> = vec![
        -0.2498738588,
        0.1743018216,
        -0.1363832204,
        0.026693281,
        -0.1187939392,
        0.088741901,
        0.1069499007,
        0.0691196879,
        -0.080079843,
        -0.3042680479,
        0.2453660531,
        -0.1428709251,
        0.1476792513,
        -0.2045659918,
        0.1311683079,
        0.0068589358,
        0.0476236417,
        -0.0429920923,
    ];
    assert_eq!(scores.len(), expected.len());
    for (got, want) in scores.iter().zip(expected.iter()) {
        assert!((got - want).abs() < 1e-5, "got {} for {}", got, want);
    }
}
