//! Integer tensors of relative offsets, stored row by row.

use vstd::prelude::*;
use vstd::arithmetic::div_mod::lemma_fundamental_div_mod_converse;
use crate::error::AttentionError;
use crate::index::{c2p_index, p2c_index, spec_c2p_index, spec_p2c_index};

verus! {

/// Number of entries of a tensor of the given shape: the product of its
/// dimensions, and 1 for the shape without dimensions.
pub open spec fn spec_numel(shape: Seq<usize>) -> int
    decreases shape.len(),
{
    if shape.len() == 0 {
        1
    } else {
        spec_numel(shape.drop_last()) * shape.last()
    }
}

/// What a table is to the contracts: its shape and its entries in row-major
/// order, the last axis running fastest.
pub struct PositionTableView {
    pub shape: Seq<usize>,
    pub data: Seq<i64>,
}

impl PositionTableView {
    /// The table holds exactly as many entries as its shape asks for.
    pub open spec fn well_formed(self) -> bool {
        self.data.len() == spec_numel(self.shape)
    }

    /// Entry `(a, i, j)` of a table of rank 3.
    pub open spec fn at3(self, a: int, i: int, j: int) -> int {
        self.data[(a * self.shape[1] + i) * self.shape[2] + j] as int
    }

    /// Entry `(a, b, i, j)` of a table of rank 4.
    pub open spec fn at4(self, a: int, b: int, i: int, j: int) -> int {
        self.data[((a * self.shape[1] + b) * self.shape[2] + i) * self.shape[3] + j] as int
    }
}

/// The table of offsets between `query_size` query positions and `key_size`
/// key positions: one leading axis of size 1, and entry `(0, i, j)` is `i - j`.
pub open spec fn spec_relative_position(query_size: int, key_size: int) -> PositionTableView {
    PositionTableView {
        shape: seq![1usize, query_size as usize, key_size as usize],
        data: Seq::new((query_size * key_size) as nat, |n: int| (n / key_size - n % key_size) as i64),
    }
}

/// The shape of a table once it has four axes: two leading axes of size 1
/// for rank 2, one axis of size 1 in second place for rank 3, and the shape
/// itself otherwise.
pub open spec fn spec_normalized_shape(shape: Seq<usize>) -> Seq<usize> {
    if shape.len() == 2 {
        seq![1usize, 1usize, shape[0], shape[1]]
    } else if shape.len() == 3 {
        seq![shape[0], 1usize, shape[1], shape[2]]
    } else {
        shape
    }
}

/// A table brought to four axes. Its entries and their order stay.
pub open spec fn spec_normalized(table: PositionTableView) -> PositionTableView {
    PositionTableView { shape: spec_normalized_shape(table.shape), data: table.data }
}

/// The content-to-position rows of every entry of a table.
pub open spec fn spec_c2p_table(table: PositionTableView, span: int) -> PositionTableView {
    PositionTableView {
        shape: table.shape,
        data: Seq::new(table.data.len(), |n: int| spec_c2p_index(table.data[n] as int, span) as i64),
    }
}

/// The position-to-content rows of every entry of a table.
pub open spec fn spec_p2c_table(table: PositionTableView, span: int) -> PositionTableView {
    PositionTableView {
        shape: table.shape,
        data: Seq::new(table.data.len(), |n: int| spec_p2c_index(table.data[n] as int, span) as i64),
    }
}

/// The first entry along the last axis of a table of rank 4, for every
/// position of the other three axes; the last axis is kept with size 1.
pub open spec fn spec_first_column(table: PositionTableView) -> PositionTableView {
    PositionTableView {
        shape: seq![table.shape[0], table.shape[1], table.shape[2], 1usize],
        data: Seq::new(
            (table.shape[0] * table.shape[1] * table.shape[2]) as nat,
            |r: int| table.data[r * table.shape[3]],
        ),
    }
}

/// The number of entries of the shapes of rank 1 to 4, written out.
pub proof fn lemma_numel_small_ranks(shape: Seq<usize>)
    ensures
        shape.len() == 1 ==> spec_numel(shape) == shape[0],
        shape.len() == 2 ==> spec_numel(shape) == shape[0] * shape[1],
        shape.len() == 3 ==> spec_numel(shape) == shape[0] * shape[1] * shape[2],
        shape.len() == 4 ==> spec_numel(shape) == shape[0] * shape[1] * shape[2] * shape[3],
    decreases shape.len(),
{
    if 1 <= shape.len() <= 4 {
        let front = shape.drop_last();
        if front.len() == 0 {
            assert(spec_numel(front) == 1);
        } else {
            lemma_numel_small_ranks(front);
        }
    }
}

/// A shape with a dimension of size 0 has no entries.
pub proof fn lemma_numel_with_empty_axis(shape: Seq<usize>, axis: int)
    requires
        0 <= axis < shape.len(),
        shape[axis] == 0,
    ensures
        spec_numel(shape) == 0,
    decreases shape.len(),
{
    if axis < shape.len() - 1 {
        lemma_numel_with_empty_axis(shape.drop_last(), axis);
        assert(0 * shape.last() == 0);
    } else {
        assert(spec_numel(shape.drop_last()) * 0 == 0);
    }
}

/// Where no dimension is 0, a prefix of a shape has at least one entry and
/// no more entries than the whole shape.
pub proof fn lemma_numel_of_prefix(shape: Seq<usize>, len: int)
    requires
        0 <= len <= shape.len(),
        forall|axis: int| 0 <= axis < shape.len() ==> shape[axis] >= 1,
    ensures
        1 <= spec_numel(shape.subrange(0, len)) <= spec_numel(shape),
    decreases shape.len() - len,
{
    if len == shape.len() {
        assert(shape.subrange(0, len) =~= shape);
        if len > 0 {
            lemma_numel_of_prefix_step(shape);
        }
    } else {
        lemma_numel_of_prefix(shape, len + 1);
        let longer = shape.subrange(0, len + 1);
        assert(longer.drop_last() =~= shape.subrange(0, len));
        assert(longer.last() == shape[len]);
        let shorter_count = spec_numel(shape.subrange(0, len));
        let dim = shape[len] as int;
        assert(spec_numel(longer) == shorter_count * dim);
        assert(1 <= shorter_count && shorter_count <= shorter_count * dim) by (nonlinear_arith)
            requires
                1 <= shorter_count * dim,
                dim >= 1,
        ;
    }
}

/// A non-empty shape without empty axes has at least one entry.
proof fn lemma_numel_of_prefix_step(shape: Seq<usize>)
    requires
        shape.len() > 0,
        forall|axis: int| 0 <= axis < shape.len() ==> shape[axis] >= 1,
    ensures
        1 <= spec_numel(shape),
    decreases shape.len(),
{
    let front = shape.drop_last();
    if front.len() > 0 {
        lemma_numel_of_prefix_step(front);
    }
    let front_count = spec_numel(front);
    let dim = shape.last() as int;
    assert(1 <= front_count * dim) by (nonlinear_arith)
        requires
            1 <= front_count,
            1 <= dim,
    ;
}

/// Bringing a shape to four axes keeps its number of entries.
pub proof fn lemma_normalized_shape_keeps_numel(shape: Seq<usize>)
    ensures
        spec_numel(spec_normalized_shape(shape)) == spec_numel(shape),
{
    lemma_numel_small_ranks(shape);
    lemma_numel_small_ranks(spec_normalized_shape(shape));
    if shape.len() == 2 {
        let a = shape[0] as int;
        let b = shape[1] as int;
        assert(1 * 1 * a * b == a * b) by (nonlinear_arith);
    } else if shape.len() == 3 {
        let a = shape[0] as int;
        let b = shape[1] as int;
        let c = shape[2] as int;
        assert(a * 1 * b * c == a * b * c) by (nonlinear_arith);
    }
}

/// Entry `row * width + column` of a row-major table lies in row `row`, at
/// column `column`, and inside a table of `rows` rows.
pub proof fn lemma_row_major(rows: int, width: int, row: int, column: int)
    requires
        0 <= row < rows,
        0 <= column < width,
    ensures
        0 <= row * width + column < rows * width,
        (row * width + column) / width == row,
        (row * width + column) % width == column,
{
    assert(0 <= row * width && row * width + width <= rows * width) by (nonlinear_arith)
        requires
            0 <= row < rows,
            0 < width,
    ;
    lemma_fundamental_div_mod_converse(row * width + column, width, row, column);
}

/// Every entry of the offset table is the query index minus the key index.
pub proof fn lemma_relative_position_entries(query_size: int, key_size: int, i: int, j: int)
    requires
        0 <= i < query_size <= usize::MAX,
        0 <= j < key_size <= usize::MAX,
        query_size <= i64::MAX,
        key_size <= i64::MAX,
    ensures
        spec_relative_position(query_size, key_size).at3(0, i, j) == i - j,
{
    lemma_row_major(query_size, key_size, i, j);
    assert(0 * query_size == 0);
}

/// Number of entries of a tensor of the given shape, or `None` where the
/// number does not fit a `usize`.
pub fn numel(shape: &Vec<usize>) -> (count: Option<usize>)
    ensures
        match count {
            Some(n) => n == spec_numel(shape@),
            None => spec_numel(shape@) > usize::MAX,
        },
{
    let mut i: usize = 0;
    while i < shape.len()
        invariant
            i <= shape.len(),
            forall|axis: int| 0 <= axis < i ==> shape@[axis] >= 1,
        decreases shape.len() - i,
    {
        if shape[i] == 0 {
            proof {
                lemma_numel_with_empty_axis(shape@, i as int);
            }
            return Some(0);
        }
        i = i + 1;
    }
    let mut count: usize = 1;
    i = 0;
    proof {
        assert(shape@.subrange(0, 0) =~= Seq::<usize>::empty());
    }
    while i < shape.len()
        invariant
            i <= shape.len(),
            forall|axis: int| 0 <= axis < shape.len() ==> shape@[axis] >= 1,
            count == spec_numel(shape@.subrange(0, i as int)),
        decreases shape.len() - i,
    {
        proof {
            assert(shape@.subrange(0, i + 1).drop_last() =~= shape@.subrange(0, i as int));
            lemma_numel_of_prefix(shape@, i + 1);
        }
        match count.checked_mul(shape[i]) {
            Some(product) => {
                count = product;
            },
            None => {
                return None;
            },
        }
        i = i + 1;
    }
    proof {
        assert(shape@.subrange(0, i as int) =~= shape@);
    }
    Some(count)
}

/// An integer tensor of relative offsets, or of rows computed from them.
#[derive(Debug, PartialEq, Eq)]
pub struct PositionTable {
    shape: Vec<usize>,
    data: Vec<i64>,
}

impl View for PositionTable {
    type V = PositionTableView;

    closed spec fn view(&self) -> PositionTableView {
        PositionTableView { shape: self.shape@, data: self.data@ }
    }
}

impl PositionTable {
    #[verifier::type_invariant]
    spec fn holds_its_shape(&self) -> bool {
        self@.well_formed()
    }

    /// A table of the given shape and entries. The entries are taken in
    /// row-major order. Fails with a shape error exactly when their number
    /// differs from what the shape asks for.
    pub fn new(shape: Vec<usize>, data: Vec<i64>) -> (table: Result<PositionTable, AttentionError>)
        ensures
            match table {
                Ok(t) => t@.shape == shape@ && t@.data == data@ && data@.len() == spec_numel(shape@),
                Err(e) => e == AttentionError::Shape && data@.len() != spec_numel(shape@),
            },
    {
        let held: usize = data.len();
        match numel(&shape) {
            Some(count) => {
                if count == held {
                    Ok(PositionTable { shape, data })
                } else {
                    Err(AttentionError::Shape)
                }
            },
            None => Err(AttentionError::Shape),
        }
    }

    /// The dimensions of the table.
    pub fn shape(&self) -> (shape: &Vec<usize>)
        ensures
            shape@ == self@.shape,
            self@.well_formed(),
    {
        proof {
            use_type_invariant(self);
        }
        &self.shape
    }

    /// The entries of the table in row-major order.
    pub fn data(&self) -> (data: &Vec<i64>)
        ensures
            data@ == self@.data,
            self@.well_formed(),
    {
        proof {
            use_type_invariant(self);
        }
        &self.data
    }

    /// The number of axes of the table.
    pub fn rank(&self) -> (rank: usize)
        ensures
            rank == self@.shape.len(),
    {
        self.shape.len()
    }
}

/// Builds the table of offsets between `query_size` query positions and
/// `key_size` key positions. The table has shape `(1, query_size, key_size)`
/// and its entry `(0, i, j)` is `i - j`.
pub fn build_relative_position(query_size: usize, key_size: usize) -> (table: PositionTable)
    requires
        query_size <= i64::MAX,
        key_size <= i64::MAX,
        query_size * key_size <= usize::MAX,
    ensures
        table@ == spec_relative_position(query_size as int, key_size as int),
        table@.shape == seq![1usize, query_size, key_size],
        table@.data.len() == query_size * key_size,
        forall|i: int, j: int|
            0 <= i < query_size && 0 <= j < key_size ==> #[trigger] table@.at3(0, i, j) == i - j,
{
    let ghost wanted = spec_relative_position(query_size as int, key_size as int);
    let mut data: Vec<i64> = Vec::new();
    let mut i: usize = 0;
    while i < query_size
        invariant
            i <= query_size <= i64::MAX,
            key_size <= i64::MAX,
            query_size * key_size <= usize::MAX,
            data@.len() == i * key_size,
            forall|n: int| 0 <= n < data@.len() ==> data@[n] == n / (key_size as int) - n % (key_size as int),
        decreases query_size - i,
    {
        let mut j: usize = 0;
        while j < key_size
            invariant
                i < query_size <= i64::MAX,
                j <= key_size <= i64::MAX,
                query_size * key_size <= usize::MAX,
                data@.len() == i * key_size + j,
                forall|n: int| 0 <= n < data@.len() ==> data@[n] == n / (key_size as int) - n % (key_size as int),
            decreases key_size - j,
        {
            proof {
                lemma_row_major(query_size as int, key_size as int, i as int, j as int);
            }
            data.push(i as i64 - j as i64);
            j = j + 1;
        }
        proof {
            assert(i * key_size + key_size == (i + 1) * key_size) by (nonlinear_arith);
        }
        i = i + 1;
    }
    let mut shape: Vec<usize> = Vec::new();
    shape.push(1);
    shape.push(query_size);
    shape.push(key_size);
    proof {
        lemma_numel_small_ranks(shape@);
        assert(1 * query_size * key_size == query_size * key_size) by (nonlinear_arith);
        assert(shape@ =~= wanted.shape);
        assert(data@ =~= wanted.data);
    }
    let table = PositionTable { shape, data };
    proof {
        assert forall|i: int, j: int| 0 <= i < query_size && 0 <= j < key_size implies #[trigger] table@.at3(
            0,
            i,
            j,
        ) == i - j by {
            lemma_relative_position_entries(query_size as int, key_size as int, i, j);
        }
    }
    table
}

impl PositionTable {
    /// A copy of the table with four axes: rank 2 gains two leading axes of
    /// size 1, rank 3 gains one axis of size 1 in second place, rank 4 stays
    /// as it is. The entries and their order stay in every case. Any other
    /// rank is refused, with the rank in the error.
    pub fn normalized(&self) -> (table: Result<PositionTable, AttentionError>)
        ensures
            match table {
                Ok(t) => 2 <= self@.shape.len() <= 4 && t@ == spec_normalized(self@) && t@.shape.len() == 4,
                Err(e) => !(2 <= self@.shape.len() <= 4) && e == (AttentionError::InvalidRank {
                    rank: self@.shape.len() as usize,
                }),
            },
    {
        proof {
            use_type_invariant(self);
            lemma_normalized_shape_keeps_numel(self@.shape);
        }
        let rank: usize = self.shape.len();
        let mut shape: Vec<usize> = Vec::new();
        if rank == 2 {
            shape.push(1);
            shape.push(1);
            shape.push(self.shape[0]);
            shape.push(self.shape[1]);
        } else if rank == 3 {
            shape.push(self.shape[0]);
            shape.push(1);
            shape.push(self.shape[1]);
            shape.push(self.shape[2]);
        } else if rank == 4 {
            shape.push(self.shape[0]);
            shape.push(self.shape[1]);
            shape.push(self.shape[2]);
            shape.push(self.shape[3]);
        } else {
            return Err(AttentionError::InvalidRank { rank });
        }
        assert(shape@ =~= spec_normalized_shape(self@.shape));
        let data = copy_entries(&self.data);
        Ok(PositionTable { shape, data })
    }

    /// The table of the content-to-position rows of the entries: each offset
    /// plus the span, pinned into the window of `2 * span` rows.
    pub fn c2p_index_table(&self, span: usize) -> (rows: PositionTable)
        requires
            2 * span - 1 <= i64::MAX,
        ensures
            rows@ == spec_c2p_table(self@, span as int),
            span >= 1 ==> forall|n: int| 0 <= n < rows@.data.len() ==> 0 <= #[trigger] rows@.data[n] <= 2 * span - 1,
    {
        proof {
            use_type_invariant(self);
        }
        let ghost wanted = spec_c2p_table(self@, span as int);
        let mut data: Vec<i64> = Vec::new();
        let mut n: usize = 0;
        while n < self.data.len()
            invariant
                2 * span - 1 <= i64::MAX,
                n <= self.data.len(),
                data@.len() == n,
                forall|m: int| 0 <= m < n ==> data@[m] == spec_c2p_index(self.data@[m] as int, span as int),
            decreases self.data.len() - n,
        {
            data.push(c2p_index(self.data[n], span));
            n = n + 1;
        }
        let shape = copy_shape(&self.shape);
        proof {
            assert(data@ =~= wanted.data);
            assert forall|m: int| 0 <= m < data@.len() && span >= 1 implies 0 <= #[trigger] data@[m] <= 2 * span - 1 by {
                crate::index::lemma_rows_fall_in_window(self.data@[m] as int, span as int);
            }
        }
        PositionTable { shape, data }
    }

    /// The table of the position-to-content rows of the entries: the span
    /// minus each offset, pinned into the window of `2 * span` rows.
    pub fn p2c_index_table(&self, span: usize) -> (rows: PositionTable)
        requires
            2 * span - 1 <= i64::MAX,
        ensures
            rows@ == spec_p2c_table(self@, span as int),
            span >= 1 ==> forall|n: int| 0 <= n < rows@.data.len() ==> 0 <= #[trigger] rows@.data[n] <= 2 * span - 1,
    {
        proof {
            use_type_invariant(self);
        }
        let ghost wanted = spec_p2c_table(self@, span as int);
        let mut data: Vec<i64> = Vec::new();
        let mut n: usize = 0;
        while n < self.data.len()
            invariant
                2 * span - 1 <= i64::MAX,
                n <= self.data.len(),
                data@.len() == n,
                forall|m: int| 0 <= m < n ==> data@[m] == spec_p2c_index(self.data@[m] as int, span as int),
            decreases self.data.len() - n,
        {
            data.push(p2c_index(self.data[n], span));
            n = n + 1;
        }
        let shape = copy_shape(&self.shape);
        proof {
            assert(data@ =~= wanted.data);
            assert forall|m: int| 0 <= m < data@.len() && span >= 1 implies 0 <= #[trigger] data@[m] <= 2 * span - 1 by {
                crate::index::lemma_rows_fall_in_window(self.data@[m] as int, span as int);
            }
        }
        PositionTable { shape, data }
    }

    /// The first entry along the last axis, for every position of the other
    /// three axes, as a table whose last axis has size 1.
    pub fn first_column(&self) -> (column: PositionTable)
        requires
            self@.shape.len() == 4,
            self@.shape[3] >= 1,
        ensures
            column@ == spec_first_column(self@),
    {
        proof {
            use_type_invariant(self);
            lemma_numel_small_ranks(self@.shape);
        }
        let ghost wanted = spec_first_column(self@);
        let width: usize = self.shape[3];
        let rows: usize = self.data.len() / width;
        let ghost front: int = self@.shape[0] * self@.shape[1] * self@.shape[2];
        proof {
            assert(front * (width as int) == self.data@.len());
            assert((front * (width as int)) / (width as int) == front) by (nonlinear_arith)
                requires
                    width >= 1,
            ;
        }
        let mut data: Vec<i64> = Vec::new();
        let mut r: usize = 0;
        while r < rows
            invariant
                r <= rows,
                width >= 1,
                rows * width == self.data@.len(),
                self.data@.len() <= usize::MAX,
                data@.len() == r,
                forall|m: int| 0 <= m < r ==> data@[m] == self.data@[m * (width as int)],
            decreases rows - r,
        {
            proof {
                lemma_row_major(rows as int, width as int, r as int, 0);
                assert(0 <= r * width < rows * width);
            }
            data.push(self.data[r * width]);
            r = r + 1;
        }
        let mut shape: Vec<usize> = Vec::new();
        shape.push(self.shape[0]);
        shape.push(self.shape[1]);
        shape.push(self.shape[2]);
        shape.push(1);
        proof {
            lemma_numel_small_ranks(shape@);
            assert(front * 1 == front);
            assert(shape@ =~= wanted.shape);
            assert(data@ =~= wanted.data);
        }
        PositionTable { shape, data }
    }
}

/// A copy of a list of entries.
fn copy_entries(entries: &Vec<i64>) -> (copy: Vec<i64>)
    ensures
        copy@ == entries@,
{
    let mut copy: Vec<i64> = Vec::new();
    let mut n: usize = 0;
    while n < entries.len()
        invariant
            n <= entries.len(),
            copy@ == entries@.subrange(0, n as int),
        decreases entries.len() - n,
    {
        copy.push(entries[n]);
        proof {
            assert(copy@ =~= entries@.subrange(0, n + 1));
        }
        n = n + 1;
    }
    proof {
        assert(entries@.subrange(0, n as int) =~= entries@);
    }
    copy
}

/// A copy of a list of dimensions.
fn copy_shape(dims: &Vec<usize>) -> (copy: Vec<usize>)
    ensures
        copy@ == dims@,
{
    let mut copy: Vec<usize> = Vec::new();
    let mut n: usize = 0;
    while n < dims.len()
        invariant
            n <= dims.len(),
            copy@ == dims@.subrange(0, n as int),
        decreases dims.len() - n,
    {
        copy.push(dims[n]);
        proof {
            assert(copy@ =~= dims@.subrange(0, n + 1));
        }
        n = n + 1;
    }
    proof {
        assert(dims@.subrange(0, n as int) =~= dims@);
    }
    copy
}

} // verus!
