//! Shapes of the tensors that pass through the layer, and the rows of the
//! fused projection weight that serve queries, keys and values.

use vstd::prelude::*;
use crate::error::AttentionError;
use crate::table::{lemma_row_major, PositionTable};

verus! {

/// Shape of a batch of token vectors: `(batch, seq_len, width)`.
#[derive(Debug, Clone, Copy, PartialEq, Eq, Structural)]
pub struct StateShape {
    pub batch: usize,
    pub seq_len: usize,
    pub width: usize,
}

/// Shape of a tensor split into heads: `(batch, heads, seq_len, head_size)`.
#[derive(Debug, Clone, Copy, PartialEq, Eq, Structural)]
pub struct LayerShape {
    pub batch: usize,
    pub heads: usize,
    pub seq_len: usize,
    pub head_size: usize,
}

/// Shape of a tensor with one entry for each pair of positions:
/// `(batch, heads, rows, columns)`.
#[derive(Debug, Clone, Copy, PartialEq, Eq, Structural)]
pub struct ScoreShape {
    pub batch: usize,
    pub heads: usize,
    pub rows: usize,
    pub columns: usize,
}

/// Shape of the weight of a linear map, and whether a bias goes with it.
#[derive(Debug, Clone, Copy, PartialEq, Eq, Structural)]
pub struct LinearShape {
    pub in_features: usize,
    pub out_features: usize,
    pub bias: bool,
}

/// Which of the three projections a row of the fused weight serves.
#[derive(Debug, Clone, Copy, PartialEq, Eq, Structural)]
pub enum ProjectionGroup {
    Query,
    Key,
    Value,
}

impl ProjectionGroup {
    /// Place of the group inside the three slices of one head.
    pub open spec fn spec_slot(self) -> int {
        match self {
            ProjectionGroup::Query => 0,
            ProjectionGroup::Key => 1,
            ProjectionGroup::Value => 2,
        }
    }

    /// Place of the group inside the three slices of one head.
    pub fn slot(self) -> (slot: usize)
        ensures
            slot == self.spec_slot(),
    {
        match self {
            ProjectionGroup::Query => 0,
            ProjectionGroup::Key => 1,
            ProjectionGroup::Value => 2,
        }
    }
}

/// Whether a width can be split into `num_heads` heads of equal size.
pub open spec fn spec_splits_into_heads(width: int, num_heads: int) -> bool {
    num_heads >= 1 && width % num_heads == 0
}

/// The shape of token vectors after the split into heads: the width is
/// divided among the heads, and the head axis moves in front of the
/// sequence axis.
pub open spec fn spec_transpose_for_scores(x: StateShape, num_heads: int) -> LayerShape {
    LayerShape {
        batch: x.batch,
        heads: num_heads as usize,
        seq_len: x.seq_len,
        head_size: (x.width as int / num_heads) as usize,
    }
}

/// Splits token vectors into heads. Fails with a shape error exactly when
/// there is no head or the width is not a multiple of the number of heads.
pub fn transpose_for_scores(x: StateShape, num_heads: usize) -> (layer: Result<LayerShape, AttentionError>)
    ensures
        match layer {
            Ok(shape) => spec_splits_into_heads(x.width as int, num_heads as int)
                && shape == spec_transpose_for_scores(x, num_heads as int)
                && shape.heads * shape.head_size == x.width,
            Err(e) => !spec_splits_into_heads(x.width as int, num_heads as int) && e == AttentionError::Shape,
        },
{
    if num_heads == 0 || x.width % num_heads != 0 {
        return Err(AttentionError::Shape);
    }
    let head_size: usize = x.width / num_heads;
    proof {
        vstd::arithmetic::div_mod::lemma_fundamental_div_mod(x.width as int, num_heads as int);
    }
    Ok(LayerShape { batch: x.batch, heads: num_heads, seq_len: x.seq_len, head_size })
}

/// Shape of what a linear map makes of a batch of token vectors.
pub open spec fn spec_linear(weight: LinearShape, x: StateShape) -> StateShape {
    StateShape { batch: x.batch, seq_len: x.seq_len, width: weight.out_features }
}

/// Applies a linear map to the shape of a batch of token vectors. Fails
/// with a shape error exactly when the vectors are not as wide as the map
/// expects.
pub fn linear(weight: LinearShape, x: StateShape) -> (out: Result<StateShape, AttentionError>)
    ensures
        match out {
            Ok(shape) => x.width == weight.in_features && shape == spec_linear(weight, x),
            Err(e) => x.width != weight.in_features && e == AttentionError::Shape,
        },
{
    if x.width != weight.in_features {
        return Err(AttentionError::Shape);
    }
    Ok(StateShape { batch: x.batch, seq_len: x.seq_len, width: weight.out_features })
}

/// The shape to which the content-to-position rows are broadcast: batch,
/// heads and query length of the query layer, and the last axis of the
/// offset table.
pub open spec fn spec_c2p_expand(query_layer: LayerShape, table_shape: Seq<usize>) -> ScoreShape {
    ScoreShape {
        batch: query_layer.batch,
        heads: query_layer.heads,
        rows: query_layer.seq_len,
        columns: table_shape.last(),
    }
}

/// Computes the shape to which the content-to-position rows are broadcast.
pub fn c2p_dynamic_expand(query_layer: LayerShape, relative_pos: &PositionTable) -> (target: ScoreShape)
    requires
        relative_pos@.shape.len() >= 1,
    ensures
        target == spec_c2p_expand(query_layer, relative_pos@.shape),
{
    let dims = relative_pos.shape();
    ScoreShape {
        batch: query_layer.batch,
        heads: query_layer.heads,
        rows: query_layer.seq_len,
        columns: dims[dims.len() - 1],
    }
}

/// The shape to which the position-to-content rows are broadcast: batch
/// and heads of the query layer, and the key length on both position axes.
pub open spec fn spec_p2c_expand(query_layer: LayerShape, key_layer: LayerShape) -> ScoreShape {
    ScoreShape {
        batch: query_layer.batch,
        heads: query_layer.heads,
        rows: key_layer.seq_len,
        columns: key_layer.seq_len,
    }
}

/// Computes the shape to which the position-to-content rows are broadcast.
pub fn p2c_dynamic_expand(query_layer: LayerShape, key_layer: LayerShape) -> (target: ScoreShape)
    ensures
        target == spec_p2c_expand(query_layer, key_layer),
{
    ScoreShape {
        batch: query_layer.batch,
        heads: query_layer.heads,
        rows: key_layer.seq_len,
        columns: key_layer.seq_len,
    }
}

/// The shape to which the query positions of the offset table are
/// broadcast when they select rows of the position-to-content scores:
/// batch and heads of the scores, the table's axis of query positions, and
/// the key length.
pub open spec fn spec_pos_expand(index_shape: Seq<usize>, scores: ScoreShape, key_layer: LayerShape) -> ScoreShape {
    ScoreShape {
        batch: scores.batch,
        heads: scores.heads,
        rows: index_shape[index_shape.len() - 2],
        columns: key_layer.seq_len,
    }
}

/// Computes the shape to which the query positions of the offset table are
/// broadcast.
pub fn pos_dynamic_expand(pos_index: &PositionTable, p2c_att: ScoreShape, key_layer: LayerShape) -> (target: ScoreShape)
    requires
        pos_index@.shape.len() >= 2,
    ensures
        target == spec_pos_expand(pos_index@.shape, p2c_att, key_layer),
{
    let dims = pos_index.shape();
    ScoreShape {
        batch: p2c_att.batch,
        heads: p2c_att.heads,
        rows: dims[dims.len() - 2],
        columns: key_layer.seq_len,
    }
}

/// The row of the fused weight that holds row `n` of a group. The fused
/// weight holds, head after head, a query slice, a key slice and a value
/// slice of `head_size` rows each; a group is its slices of all heads, one
/// after the other.
pub open spec fn spec_group_row(head_size: int, group: ProjectionGroup, n: int) -> int {
    ((n / head_size) * 3 + group.spec_slot()) * head_size + n % head_size
}

/// The rows of the fused weight that make up a group, in the group's order.
pub open spec fn spec_group_rows(num_heads: int, head_size: int, group: ProjectionGroup) -> Seq<usize> {
    Seq::new((num_heads * head_size) as nat, |n: int| spec_group_row(head_size, group, n) as usize)
}

/// Row `r` of head `head` in a group is row `r` of that head's slice for
/// the group, and lies inside the fused weight.
pub proof fn lemma_group_row_of_head(num_heads: int, head_size: int, group: ProjectionGroup, head: int, r: int)
    requires
        0 <= head < num_heads,
        0 <= r < head_size,
    ensures
        0 <= head * head_size + r < num_heads * head_size,
        spec_group_row(head_size, group, head * head_size + r) == (head * 3 + group.spec_slot()) * head_size + r,
        0 <= spec_group_row(head_size, group, head * head_size + r) < 3 * num_heads * head_size,
{
    lemma_row_major(num_heads, head_size, head, r);
    let slice = head * 3 + group.spec_slot();
    lemma_row_major(3 * num_heads, head_size, slice, r);
    assert(3 * num_heads * head_size == (3 * num_heads) * head_size);
}

/// Every row of the fused weight belongs to exactly one group, at exactly
/// one place in it: the three groups split the weight among them.
pub proof fn lemma_groups_split_the_weight(num_heads: int, head_size: int, row: int)
    requires
        0 <= row < 3 * num_heads * head_size,
        head_size >= 1,
    ensures
        exists|group: ProjectionGroup, n: int|
            0 <= n < num_heads * head_size && #[trigger] spec_group_row(head_size, group, n) == row,
        forall|group: ProjectionGroup, other: ProjectionGroup, n: int, m: int|
            0 <= n && 0 <= m && #[trigger] spec_group_row(head_size, group, n) == row && #[trigger] spec_group_row(
                head_size,
                other,
                m,
            ) == row ==> group == other && n == m,
{
    let slice = row / head_size;
    let r = row % head_size;
    vstd::arithmetic::div_mod::lemma_fundamental_div_mod(row, head_size);
    vstd::arithmetic::div_mod::lemma_mod_bound(row, head_size);
    assert(0 <= slice < 3 * num_heads) by (nonlinear_arith)
        requires
            0 <= row < 3 * num_heads * head_size,
            head_size >= 1,
            row == head_size * slice + r,
            0 <= r < head_size,
    ;
    let head = slice / 3;
    let slot = slice % 3;
    let group = if slot == 0 {
        ProjectionGroup::Query
    } else if slot == 1 {
        ProjectionGroup::Key
    } else {
        ProjectionGroup::Value
    };
    let n = head * head_size + r;
    lemma_group_row_of_head(num_heads, head_size, group, head, r);
    assert(spec_group_row(head_size, group, n) == slice * head_size + r);
    assert(slice * head_size == head_size * slice) by (nonlinear_arith);
    assert(spec_group_row(head_size, group, n) == row);
    assert forall|first: ProjectionGroup, other: ProjectionGroup, a: int, b: int|
        0 <= a && 0 <= b && #[trigger] spec_group_row(head_size, first, a) == row && #[trigger] spec_group_row(
            head_size,
            other,
            b,
        ) == row implies first == other && a == b by {
        lemma_group_row_unfolds(head_size, first, a);
        lemma_group_row_unfolds(head_size, other, b);
    }
}

/// A row of a group gives back its head, its slot and its place in the
/// slice.
proof fn lemma_group_row_unfolds(head_size: int, group: ProjectionGroup, n: int)
    requires
        head_size >= 1,
        0 <= n,
    ensures
        spec_group_row(head_size, group, n) / head_size == (n / head_size) * 3 + group.spec_slot(),
        spec_group_row(head_size, group, n) % head_size == n % head_size,
        (spec_group_row(head_size, group, n) / head_size) / 3 == n / head_size,
        (spec_group_row(head_size, group, n) / head_size) % 3 == group.spec_slot(),
        n == (n / head_size) * head_size + n % head_size,
{
    let head = n / head_size;
    let r = n % head_size;
    vstd::arithmetic::div_mod::lemma_fundamental_div_mod(n, head_size);
    vstd::arithmetic::div_mod::lemma_mod_bound(n, head_size);
    assert(head >= 0) by (nonlinear_arith)
        requires
            n == head_size * head + r,
            0 <= r < head_size,
            n >= 0,
    ;
    assert(head * head_size == head_size * head) by (nonlinear_arith);
    let slice = head * 3 + group.spec_slot();
    vstd::arithmetic::div_mod::lemma_fundamental_div_mod_converse(slice * head_size + r, head_size, slice, r);
    vstd::arithmetic::div_mod::lemma_fundamental_div_mod_converse(slice, 3, head, group.spec_slot());
}

/// Lists the rows of the fused weight that make up a group: for each head
/// in turn, the `head_size` rows of that head's slice for the group.
pub fn head_group_rows(num_heads: usize, head_size: usize, group: ProjectionGroup) -> (rows: Vec<usize>)
    requires
        3 * num_heads * head_size <= usize::MAX,
    ensures
        rows@ == spec_group_rows(num_heads as int, head_size as int, group),
        rows@.len() == num_heads * head_size,
        forall|head: int, r: int|
            0 <= head < num_heads && 0 <= r < head_size ==> #[trigger] rows@[head * head_size + r] == (head * 3
                + group.spec_slot()) * head_size + r,
        forall|n: int| 0 <= n < rows@.len() ==> 0 <= #[trigger] rows@[n] < 3 * num_heads * head_size,
{
    let slot = group.slot();
    let mut rows: Vec<usize> = Vec::new();
    let mut head: usize = 0;
    while head < num_heads
        invariant
            head <= num_heads,
            slot == group.spec_slot(),
            3 * num_heads * head_size <= usize::MAX,
            rows@.len() == head * head_size,
            forall|n: int| 0 <= n < rows@.len() ==> rows@[n] == spec_group_row(head_size as int, group, n),
        decreases num_heads - head,
    {
        let mut r: usize = 0;
        while r < head_size
            invariant
                head < num_heads,
                r <= head_size,
                slot == group.spec_slot(),
                3 * num_heads * head_size <= usize::MAX,
                rows@.len() == head * head_size + r,
                forall|n: int| 0 <= n < rows@.len() ==> rows@[n] == spec_group_row(head_size as int, group, n),
            decreases head_size - r,
        {
            proof {
                lemma_group_row_of_head(num_heads as int, head_size as int, group, head as int, r as int);
                let slice = head * 3 + slot;
                assert(0 <= slice < 3 * num_heads);
                lemma_row_major(3 * num_heads, head_size as int, slice, r as int);
                assert(3 * num_heads * head_size == (3 * num_heads) * head_size);
                assert(slice * head_size <= slice * head_size + r);
                assert(0 <= slice * head_size) by (nonlinear_arith)
                    requires
                        0 <= slice,
                        0 <= head_size,
                ;
            }
            rows.push((head * 3 + slot) * head_size + r);
            r = r + 1;
        }
        proof {
            assert(head * head_size + head_size == (head + 1) * head_size) by (nonlinear_arith);
        }
        head = head + 1;
    }
    proof {
        assert(rows@ =~= spec_group_rows(num_heads as int, head_size as int, group));
        assert forall|h: int, r: int| 0 <= h < num_heads && 0 <= r < head_size implies #[trigger] rows@[h * head_size
            + r] == (h * 3 + group.spec_slot()) * head_size + r by {
            lemma_group_row_of_head(num_heads as int, head_size as int, group, h, r);
        }
        assert forall|n: int| 0 <= n < rows@.len() implies 0 <= #[trigger] rows@[n] < 3 * num_heads * head_size by {
            let h = n / (head_size as int);
            let r = n % (head_size as int);
            vstd::arithmetic::div_mod::lemma_fundamental_div_mod(n, head_size as int);
            vstd::arithmetic::div_mod::lemma_mod_bound(n, head_size as int);
            assert(0 <= h < num_heads) by (nonlinear_arith)
                requires
                    0 <= n < num_heads * head_size,
                    n == head_size * h + r,
                    0 <= r < head_size,
            ;
            assert(head_size * h == h * head_size) by (nonlinear_arith);
            lemma_group_row_of_head(num_heads as int, head_size as int, group, h, r);
        }
    }
    rows
}

} // verus!
