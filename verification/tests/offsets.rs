use deberta_attention::error::AttentionError;
use deberta_attention::index::{c2p_index, p2c_index};
use deberta_attention::span::{attention_span, embedding_window};
use deberta_attention::table::{build_relative_position, numel, PositionTable};

#[test]
fn relative_position_entry_is_query_minus_key() {
    let query_size: usize = 4;
    let key_size: usize = 6;
    let table = build_relative_position(query_size, key_size);
    assert_eq!(table.shape(), &vec![1usize, 4, 6]);
    assert_eq!(table.data().len(), 24);
    for i in 0..query_size {
        for j in 0..key_size {
            assert_eq!(table.data()[i * key_size + j], i as i64 - j as i64);
        }
    }
}

#[test]
fn relative_position_of_three_by_three() {
    let table = build_relative_position(3, 3);
    assert_eq!(table.data(), &vec![0i64, -1, -2, 1, 0, -1, 2, 1, 0]);
}

#[test]
fn relative_position_of_a_single_query() {
    let table = build_relative_position(1, 4);
    assert_eq!(table.shape(), &vec![1usize, 1, 4]);
    assert_eq!(table.data(), &vec![0i64, -1, -2, -3]);
}

#[test]
fn relative_position_without_keys_is_empty() {
    let table = build_relative_position(3, 0);
    assert_eq!(table.shape(), &vec![1usize, 3, 0]);
    assert!(table.data().is_empty());
}

#[test]
fn relative_position_is_rebuilt_alike() {
    assert_eq!(build_relative_position(5, 7), build_relative_position(5, 7));
}

#[test]
fn attention_span_is_capped_by_the_limit() {
    assert_eq!(attention_span(3, 3, 5), 3);
    assert_eq!(attention_span(3, 9, 5), 5);
    assert_eq!(attention_span(9, 3, 5), 5);
    assert_eq!(attention_span(2, 4, 4), 4);
    assert_eq!(attention_span(0, 0, 5), 0);
    assert_eq!(attention_span(7, 1, 512), 7);
}

#[test]
fn attention_span_never_exceeds_its_bounds() {
    for query_len in 0..12usize {
        for key_len in 0..12usize {
            for limit in 0..12usize {
                let span: usize = attention_span(query_len, key_len, limit);
                assert!(span <= limit);
                assert!(span <= query_len.max(key_len));
                assert!(span == limit || span == query_len.max(key_len));
            }
        }
    }
}

#[test]
fn embedding_window_is_centred() {
    assert_eq!(embedding_window(5, 3), (2, 8));
    assert_eq!(embedding_window(5, 5), (0, 10));
    assert_eq!(embedding_window(512, 1), (511, 513));
    assert_eq!(embedding_window(4, 0), (4, 4));
}

#[test]
fn c2p_index_shifts_near_offsets() {
    assert_eq!(c2p_index(0, 3), 3);
    assert_eq!(c2p_index(-3, 3), 0);
    assert_eq!(c2p_index(2, 3), 5);
    assert_eq!(c2p_index(-1, 3), 2);
}

#[test]
fn c2p_index_pins_far_offsets() {
    assert_eq!(c2p_index(3, 3), 5);
    assert_eq!(c2p_index(-4, 3), 0);
    assert_eq!(c2p_index(1000, 3), 5);
    assert_eq!(c2p_index(-1000, 3), 0);
    assert_eq!(c2p_index(i64::MAX, 3), 5);
    assert_eq!(c2p_index(i64::MIN, 3), 0);
    assert_eq!(c2p_index(i64::MAX, 1), 1);
    assert_eq!(c2p_index(i64::MIN, 1), 0);
}

#[test]
fn p2c_index_shifts_near_offsets() {
    assert_eq!(p2c_index(0, 3), 3);
    assert_eq!(p2c_index(3, 3), 0);
    assert_eq!(p2c_index(-2, 3), 5);
    assert_eq!(p2c_index(1, 3), 2);
}

#[test]
fn p2c_index_pins_far_offsets() {
    assert_eq!(p2c_index(-3, 3), 5);
    assert_eq!(p2c_index(4, 3), 0);
    assert_eq!(p2c_index(i64::MAX, 3), 0);
    assert_eq!(p2c_index(i64::MIN, 3), 5);
    assert_eq!(p2c_index(i64::MIN, 1), 1);
    assert_eq!(p2c_index(i64::MAX, 1), 0);
}

#[test]
fn rows_stay_in_the_window_for_every_offset() {
    let offsets: Vec<i64> = vec![i64::MIN, i64::MIN + 1, -17, -4, -3, -1, 0, 1, 2, 3, 4, 17, i64::MAX - 1, i64::MAX];
    for span in 1..9usize {
        for rel in offsets.iter() {
            let last: i64 = 2 * span as i64 - 1;
            let c2p: i64 = c2p_index(*rel, span);
            let p2c: i64 = p2c_index(*rel, span);
            assert!(0 <= c2p && c2p <= last);
            assert!(0 <= p2c && p2c <= last);
        }
    }
}

#[test]
fn p2c_index_mirrors_c2p_index() {
    for span in 1..6usize {
        for rel in -12..12i64 {
            assert_eq!(p2c_index(rel, span), c2p_index(-rel, span));
        }
    }
}

#[test]
fn rows_with_the_widest_window_do_not_overflow() {
    let span: usize = (i64::MAX / 2) as usize;
    assert_eq!(c2p_index(i64::MAX, span), i64::MAX - 2);
    assert_eq!(c2p_index(i64::MIN, span), 0);
    assert_eq!(p2c_index(i64::MIN, span), i64::MAX - 2);
    assert_eq!(c2p_index(0, span), i64::MAX / 2);
}

#[test]
fn numel_multiplies_the_dimensions() {
    assert_eq!(numel(&vec![]), Some(1));
    assert_eq!(numel(&vec![7]), Some(7));
    assert_eq!(numel(&vec![2, 3, 4]), Some(24));
    assert_eq!(numel(&vec![2, 0, 4]), Some(0));
    assert_eq!(numel(&vec![usize::MAX, usize::MAX, 0]), Some(0));
    assert_eq!(numel(&vec![usize::MAX, 2]), None);
    assert_eq!(numel(&vec![usize::MAX, 1, 1]), Some(usize::MAX));
}

#[test]
fn table_takes_entries_that_fill_its_shape() {
    let table = PositionTable::new(vec![2, 3], vec![0, -1, -2, 1, 0, -1]).unwrap();
    assert_eq!(table.rank(), 2);
    assert_eq!(table.shape(), &vec![2usize, 3]);
    assert_eq!(table.data(), &vec![0i64, -1, -2, 1, 0, -1]);
}

#[test]
fn table_refuses_entries_that_do_not_fill_its_shape() {
    assert_eq!(PositionTable::new(vec![2, 3], vec![0, 1, 2, 3, 4]), Err(AttentionError::Shape));
    assert_eq!(PositionTable::new(vec![2, 3], vec![0; 7]), Err(AttentionError::Shape));
    assert_eq!(PositionTable::new(vec![], vec![]), Err(AttentionError::Shape));
    assert_eq!(PositionTable::new(vec![usize::MAX, 2], vec![0; 4]), Err(AttentionError::Shape));
    assert!(PositionTable::new(vec![], vec![9]).is_ok());
    assert!(PositionTable::new(vec![3, 0], vec![]).is_ok());
}

#[test]
fn normalized_adds_two_axes_to_rank_two() {
    let table = PositionTable::new(vec![2, 3], vec![0, -1, -2, 1, 0, -1]).unwrap();
    let wide = table.normalized().unwrap();
    assert_eq!(wide.shape(), &vec![1usize, 1, 2, 3]);
    assert_eq!(wide.data(), table.data());
}

#[test]
fn normalized_adds_the_second_axis_to_rank_three() {
    let table = PositionTable::new(vec![2, 1, 3], vec![5, 4, 3, 2, 1, 0]).unwrap();
    let wide = table.normalized().unwrap();
    assert_eq!(wide.shape(), &vec![2usize, 1, 1, 3]);
    assert_eq!(wide.data(), &vec![5i64, 4, 3, 2, 1, 0]);
}

#[test]
fn normalized_keeps_rank_four() {
    let table = PositionTable::new(vec![1, 2, 1, 2], vec![9, 8, 7, 6]).unwrap();
    let wide = table.normalized().unwrap();
    assert_eq!(wide, table);
}

#[test]
fn normalized_refuses_other_ranks() {
    let flat = PositionTable::new(vec![4], vec![0, 1, 2, 3]).unwrap();
    assert_eq!(flat.normalized(), Err(AttentionError::InvalidRank { rank: 1 }));
    let deep = PositionTable::new(vec![1, 1, 1, 2, 2], vec![0, 1, 2, 3]).unwrap();
    assert_eq!(deep.normalized(), Err(AttentionError::InvalidRank { rank: 5 }));
    let scalar = PositionTable::new(vec![], vec![3]).unwrap();
    assert_eq!(scalar.normalized(), Err(AttentionError::InvalidRank { rank: 0 }));
}

#[test]
fn index_tables_keep_the_shape_and_pin_each_entry() {
    let table = PositionTable::new(vec![1, 1, 2, 4], vec![-9, -2, 0, 1, 2, 3, 9, i64::MIN]).unwrap();
    let c2p = table.c2p_index_table(2);
    assert_eq!(c2p.shape(), table.shape());
    assert_eq!(c2p.data(), &vec![0i64, 0, 2, 3, 3, 3, 3, 0]);
    let p2c = table.p2c_index_table(2);
    assert_eq!(p2c.shape(), table.shape());
    assert_eq!(p2c.data(), &vec![3i64, 3, 2, 1, 0, 0, 0, 3]);
}

#[test]
fn index_tables_of_the_built_offsets() {
    let table = build_relative_position(3, 3);
    assert_eq!(table.c2p_index_table(3).data(), &vec![3i64, 2, 1, 4, 3, 2, 5, 4, 3]);
    assert_eq!(table.p2c_index_table(3).data(), &vec![3i64, 4, 5, 2, 3, 4, 1, 2, 3]);
    assert_eq!(table.c2p_index_table(1).data(), &vec![1i64, 0, 0, 1, 1, 0, 1, 1, 1]);
}

#[test]
fn first_column_takes_the_first_entry_of_each_row() {
    let table = build_relative_position(4, 2).normalized().unwrap();
    let column = table.first_column();
    assert_eq!(column.shape(), &vec![1usize, 1, 4, 1]);
    assert_eq!(column.data(), &vec![0i64, 1, 2, 3]);
    let other = PositionTable::new(vec![2, 1, 2, 3], vec![1, 2, 3, 4, 5, 6, 7, 8, 9, 10, 11, 12]).unwrap();
    assert_eq!(other.first_column().data(), &vec![1i64, 4, 7, 10]);
    assert_eq!(other.first_column().shape(), &vec![2usize, 1, 2, 1]);
}
