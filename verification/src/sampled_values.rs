use vstd::prelude::*;
use vstd::string::StringExecFns;

use crate::capability::MetalRuntimeSupport;
use crate::field_ops::{
    circle_point_repeated_double, circle_repeated_double, is_canonical, qm31_add,
    qm31_from_partial_evals, qm31_mul, secure_add, secure_from_partial_evals, secure_mul,
    MetalSecureCirclePointV1,
};
use crate::text::{decimal_chars, push_decimal};

verus! {

/// `b"SMS1"` read as a little-endian `u32`.
pub const STWO_METAL_SAMPLED_VALUES_MAGIC_V1: u32 = 0x3153_4d53u32;
pub const STWO_METAL_SAMPLED_VALUES_ABI_MAJOR_V1: u16 = 1;
pub const STWO_METAL_SAMPLED_VALUES_ABI_MINOR_V1: u16 = 0;

/// The fixed header of a sampled-values image: 36 bytes in the device ABI.
#[derive(Copy, Clone, Debug, PartialEq, Eq)]
pub struct MetalSampledValuesHeaderV1 {
    pub magic: u32,
    pub abi_major: u16,
    pub abi_minor: u16,
    pub n_trees: u32,
    pub n_columns: u32,
    pub n_values: u32,
    pub reserved: [u32; 4],
}

/// `h` is the version-1 header that `new` builds from these counts.
pub open spec fn is_new_sampled_values_header(
    h: MetalSampledValuesHeaderV1,
    n_trees: u32,
    n_columns: u32,
    n_values: u32,
) -> bool {
    &&& h.magic == STWO_METAL_SAMPLED_VALUES_MAGIC_V1
    &&& h.abi_major == STWO_METAL_SAMPLED_VALUES_ABI_MAJOR_V1
    &&& h.abi_minor == STWO_METAL_SAMPLED_VALUES_ABI_MINOR_V1
    &&& h.n_trees == n_trees
    &&& h.n_columns == n_columns
    &&& h.n_values == n_values
    &&& h.reserved@ == Seq::new(4, |i: int| 0u32)
}

impl MetalSampledValuesHeaderV1 {
    pub fn new(n_trees: u32, n_columns: u32, n_values: u32) -> (r: Self)
        ensures
            is_new_sampled_values_header(r, n_trees, n_columns, n_values),
    {
        let reserved = [0u32, 0u32, 0u32, 0u32];
        assert(reserved@ =~= Seq::new(4, |i: int| 0u32));
        Self {
            magic: STWO_METAL_SAMPLED_VALUES_MAGIC_V1,
            abi_major: STWO_METAL_SAMPLED_VALUES_ABI_MAJOR_V1,
            abi_minor: STWO_METAL_SAMPLED_VALUES_ABI_MINOR_V1,
            n_trees,
            n_columns,
            n_values,
            reserved,
        }
    }
}

/// The columns of one commitment tree: a range of the column table.
#[derive(Copy, Clone, Debug, PartialEq, Eq, Structural)]
pub struct MetalSampledValuesTreeDescV1 {
    pub first_column: u32,
    pub n_columns: u32,
}

impl MetalSampledValuesTreeDescV1 {
    pub fn new(first_column: u32, n_columns: u32) -> (r: Self)
        ensures
            r == (Self { first_column, n_columns }),
    {
        Self { first_column, n_columns }
    }
}

/// The sampled values of one column: a range of the value table.
#[derive(Copy, Clone, Debug, PartialEq, Eq, Structural)]
pub struct MetalSampledValuesColumnDescV1 {
    pub first_value: u32,
    pub n_values: u32,
}

impl MetalSampledValuesColumnDescV1 {
    pub fn new(first_value: u32, n_values: u32) -> (r: Self)
        ensures
            r == (Self { first_value, n_values }),
    {
        Self { first_value, n_values }
    }
}

/// A secure-field (QM31) value as its four M31 limbs.
#[derive(Copy, Clone, Debug, PartialEq, Eq)]
pub struct MetalSecureFieldValueV1 {
    pub limbs: [u32; 4],
}

#[derive(Copy, Clone, Debug, PartialEq, Eq)]
pub enum MetalSampledValuesLoweringError {
    TreeCountOverflow,
    ColumnCountOverflow,
    ValueCountOverflow,
    AbiLayoutMismatch { record: &'static str, expected_size: usize, actual_size: usize },
    AbiAlignmentMismatch { record: &'static str, expected_align: usize, actual_align: usize },
    AbiFieldOffsetMismatch { record: &'static str },
}

#[derive(Copy, Clone, Debug, PartialEq, Eq, Structural)]
pub enum MetalSampledValuesValidationError {
    MagicMismatch { actual: u32 },
    UnsupportedAbiMajor { actual: u16 },
    TreeCountMismatch { expected: usize, actual: usize },
    ColumnCountMismatch { expected: usize, actual: usize },
    ValueCountMismatch { expected: usize, actual: usize },
    TreeRangeOverflow { tree_index: usize },
    TreeColumnRangeOutOfBounds { tree_index: usize, end_column: usize, n_columns: usize },
    ColumnRangeOverflow { column_index: usize },
    ColumnValueRangeOutOfBounds { column_index: usize, end_value: usize, n_values: usize },
}

#[derive(Copy, Clone, Debug, PartialEq, Eq, Structural)]
pub enum MetalSampledValuesInterpreterError {
    Validation { source: MetalSampledValuesValidationError },
}

#[derive(Copy, Clone, Debug, PartialEq, Eq, Structural)]
pub enum MetalSampledValuesDispatchKindV1 {
    ReferenceInterpreter,
    GeneratedOverlayWideFibonacci,
}

/// The first tree from index `i` on whose column range overflows or leaves a
/// column table of `n_columns` entries.
pub open spec fn first_bad_tree(
    trees: Seq<MetalSampledValuesTreeDescV1>,
    n_columns: nat,
    i: int,
) -> Option<MetalSampledValuesValidationError>
    decreases trees.len() - i,
{
    if i < 0 || i >= trees.len() {
        None
    } else {
        let end = trees[i].first_column + trees[i].n_columns;
        if end > u32::MAX {
            Some(MetalSampledValuesValidationError::TreeRangeOverflow { tree_index: i as usize })
        } else if end > n_columns {
            Some(
                MetalSampledValuesValidationError::TreeColumnRangeOutOfBounds {
                    tree_index: i as usize,
                    end_column: end as usize,
                    n_columns: n_columns as usize,
                },
            )
        } else {
            first_bad_tree(trees, n_columns, i + 1)
        }
    }
}

/// The first column from index `i` on whose value range overflows or leaves a
/// value table of `n_values` entries.
pub open spec fn first_bad_column(
    columns: Seq<MetalSampledValuesColumnDescV1>,
    n_values: nat,
    i: int,
) -> Option<MetalSampledValuesValidationError>
    decreases columns.len() - i,
{
    if i < 0 || i >= columns.len() {
        None
    } else {
        let end = columns[i].first_value + columns[i].n_values;
        if end > u32::MAX {
            Some(MetalSampledValuesValidationError::ColumnRangeOverflow { column_index: i as usize })
        } else if end > n_values {
            Some(
                MetalSampledValuesValidationError::ColumnValueRangeOutOfBounds {
                    column_index: i as usize,
                    end_value: end as usize,
                    n_values: n_values as usize,
                },
            )
        } else {
            first_bad_column(columns, n_values, i + 1)
        }
    }
}

/// The verdict on a sampled-values image: header, the three counts, every
/// tree range, then every column range.
pub open spec fn spec_validate_sampled_values(
    header: MetalSampledValuesHeaderV1,
    trees: Seq<MetalSampledValuesTreeDescV1>,
    columns: Seq<MetalSampledValuesColumnDescV1>,
    n_values: nat,
) -> Result<(), MetalSampledValuesValidationError> {
    if header.magic != STWO_METAL_SAMPLED_VALUES_MAGIC_V1 {
        Err(MetalSampledValuesValidationError::MagicMismatch { actual: header.magic })
    } else if header.abi_major != STWO_METAL_SAMPLED_VALUES_ABI_MAJOR_V1 {
        Err(MetalSampledValuesValidationError::UnsupportedAbiMajor { actual: header.abi_major })
    } else if trees.len() != header.n_trees {
        Err(
            MetalSampledValuesValidationError::TreeCountMismatch {
                expected: header.n_trees as usize,
                actual: trees.len() as usize,
            },
        )
    } else if columns.len() != header.n_columns {
        Err(
            MetalSampledValuesValidationError::ColumnCountMismatch {
                expected: header.n_columns as usize,
                actual: columns.len() as usize,
            },
        )
    } else if n_values != header.n_values {
        Err(
            MetalSampledValuesValidationError::ValueCountMismatch {
                expected: header.n_values as usize,
                actual: n_values as usize,
            },
        )
    } else if let Some(e) = first_bad_tree(trees, columns.len(), 0) {
        Err(e)
    } else if let Some(e) = first_bad_column(columns, n_values, 0) {
        Err(e)
    } else {
        Ok(())
    }
}

/// The values that an image describes, grouped by tree and column.
pub open spec fn spec_tree_vec(
    trees: Seq<MetalSampledValuesTreeDescV1>,
    columns: Seq<MetalSampledValuesColumnDescV1>,
    values: Seq<MetalSecureFieldValueV1>,
) -> Seq<Seq<Seq<MetalSecureFieldValueV1>>> {
    Seq::new(
        trees.len(),
        |t: int|
            Seq::new(
                trees[t].n_columns as nat,
                |c: int|
                    {
                        let column = columns[trees[t].first_column + c];
                        values.subrange(
                            column.first_value as int,
                            column.first_value + column.n_values,
                        )
                    },
            ),
    )
}

/// The contents of nested vectors, as nested sequences.
pub open spec fn nested_view(v: Vec<Vec<Vec<MetalSecureFieldValueV1>>>) -> Seq<
    Seq<Seq<MetalSecureFieldValueV1>>,
> {
    trees_view(v@)
}

/// The contents of a sequence of trees of column vectors.
pub open spec fn trees_view(trees: Seq<Vec<Vec<MetalSecureFieldValueV1>>>) -> Seq<
    Seq<Seq<MetalSecureFieldValueV1>>,
> {
    trees.map_values(|tree: Vec<Vec<MetalSecureFieldValueV1>>| columns_view(tree@))
}

/// The contents of a sequence of column vectors.
pub open spec fn columns_view(columns: Seq<Vec<MetalSecureFieldValueV1>>) -> Seq<
    Seq<MetalSecureFieldValueV1>,
> {
    columns.map_values(|column: Vec<MetalSecureFieldValueV1>| column@)
}

/// A sampled-values image in the device layout: header, tree table, column
/// table, and values.
#[derive(Clone, Debug)]
pub struct OwnedMetalSampledValuesV1 {
    header: MetalSampledValuesHeaderV1,
    tree_descs: Vec<MetalSampledValuesTreeDescV1>,
    column_descs: Vec<MetalSampledValuesColumnDescV1>,
    values: Vec<MetalSecureFieldValueV1>,
}

impl OwnedMetalSampledValuesV1 {
    pub closed spec fn spec_header(&self) -> MetalSampledValuesHeaderV1 {
        self.header
    }

    pub closed spec fn spec_tree_descs(&self) -> Seq<MetalSampledValuesTreeDescV1> {
        self.tree_descs@
    }

    pub closed spec fn spec_column_descs(&self) -> Seq<MetalSampledValuesColumnDescV1> {
        self.column_descs@
    }

    pub closed spec fn spec_values(&self) -> Seq<MetalSecureFieldValueV1> {
        self.values@
    }

    /// The verdict of `validate` on this image.
    pub open spec fn spec_validate(&self) -> Result<(), MetalSampledValuesValidationError> {
        spec_validate_sampled_values(
            self.spec_header(),
            self.spec_tree_descs(),
            self.spec_column_descs(),
            self.spec_values().len(),
        )
    }

    /// An image made of the given parts, as they are.
    pub fn from_parts(
        header: MetalSampledValuesHeaderV1,
        tree_descs: Vec<MetalSampledValuesTreeDescV1>,
        column_descs: Vec<MetalSampledValuesColumnDescV1>,
        values: Vec<MetalSecureFieldValueV1>,
    ) -> (r: Self)
        ensures
            r.spec_header() == header,
            r.spec_tree_descs() == tree_descs@,
            r.spec_column_descs() == column_descs@,
            r.spec_values() == values@,
    {
        Self { header, tree_descs, column_descs, values }
    }

    pub fn header(&self) -> (r: MetalSampledValuesHeaderV1)
        ensures
            r == self.spec_header(),
    {
        self.header
    }

    pub fn tree_descs(&self) -> (r: &[MetalSampledValuesTreeDescV1])
        ensures
            r@ == self.spec_tree_descs(),
    {
        self.tree_descs.as_slice()
    }

    pub fn column_descs(&self) -> (r: &[MetalSampledValuesColumnDescV1])
        ensures
            r@ == self.spec_column_descs(),
    {
        self.column_descs.as_slice()
    }

    pub fn values(&self) -> (r: &[MetalSecureFieldValueV1])
        ensures
            r@ == self.spec_values(),
    {
        self.values.as_slice()
    }

    /// Checks the header against the tables and every range against the
    /// table it points into.
    #[verifier::loop_isolation(false)]
    pub fn validate(&self) -> (r: Result<(), MetalSampledValuesValidationError>)
        ensures
            r == self.spec_validate(),
    {
        if self.header.magic != STWO_METAL_SAMPLED_VALUES_MAGIC_V1 {
            return Err(MetalSampledValuesValidationError::MagicMismatch { actual: self.header.magic });
        }
        if self.header.abi_major != STWO_METAL_SAMPLED_VALUES_ABI_MAJOR_V1 {
            return Err(
                MetalSampledValuesValidationError::UnsupportedAbiMajor { actual: self.header.abi_major },
            );
        }
        if self.tree_descs.len() != self.header.n_trees as usize {
            return Err(
                MetalSampledValuesValidationError::TreeCountMismatch {
                    expected: self.header.n_trees as usize,
                    actual: self.tree_descs.len(),
                },
            );
        }
        if self.column_descs.len() != self.header.n_columns as usize {
            return Err(
                MetalSampledValuesValidationError::ColumnCountMismatch {
                    expected: self.header.n_columns as usize,
                    actual: self.column_descs.len(),
                },
            );
        }
        if self.values.len() != self.header.n_values as usize {
            return Err(
                MetalSampledValuesValidationError::ValueCountMismatch {
                    expected: self.header.n_values as usize,
                    actual: self.values.len(),
                },
            );
        }
        let n_columns = self.column_descs.len();
        let mut tree_index: usize = 0;
        while tree_index < self.tree_descs.len()
            invariant
                tree_index <= self.tree_descs@.len(),
                n_columns == self.column_descs@.len(),
                first_bad_tree(self.tree_descs@, n_columns as nat, 0) == first_bad_tree(
                    self.tree_descs@,
                    n_columns as nat,
                    tree_index as int,
                ),
            decreases self.tree_descs@.len() - tree_index,
        {
            let tree = self.tree_descs[tree_index];
            match tree.first_column.checked_add(tree.n_columns) {
                None => {
                    return Err(MetalSampledValuesValidationError::TreeRangeOverflow { tree_index });
                },
                Some(end) => {
                    if end as usize > n_columns {
                        return Err(
                            MetalSampledValuesValidationError::TreeColumnRangeOutOfBounds {
                                tree_index,
                                end_column: end as usize,
                                n_columns,
                            },
                        );
                    }
                },
            }
            tree_index = tree_index + 1;
        }
        let n_values = self.values.len();
        let mut column_index: usize = 0;
        while column_index < self.column_descs.len()
            invariant
                column_index <= self.column_descs@.len(),
                n_values == self.values@.len(),
                first_bad_tree(self.tree_descs@, self.column_descs@.len(), 0) is None,
                first_bad_column(self.column_descs@, n_values as nat, 0) == first_bad_column(
                    self.column_descs@,
                    n_values as nat,
                    column_index as int,
                ),
            decreases self.column_descs@.len() - column_index,
        {
            let column = self.column_descs[column_index];
            match column.first_value.checked_add(column.n_values) {
                None => {
                    return Err(MetalSampledValuesValidationError::ColumnRangeOverflow { column_index });
                },
                Some(end) => {
                    if end as usize > n_values {
                        return Err(
                            MetalSampledValuesValidationError::ColumnValueRangeOutOfBounds {
                                column_index,
                                end_value: end as usize,
                                n_values,
                            },
                        );
                    }
                },
            }
            column_index = column_index + 1;
        }
        Ok(())
    }
}

/// With no bad tree from `i` on, every later tree range ends within the
/// column table.
proof fn lemma_trees_in_range(trees: Seq<MetalSampledValuesTreeDescV1>, n_columns: nat, i: int)
    requires
        0 <= i,
        first_bad_tree(trees, n_columns, i) is None,
    ensures
        forall|k: int|
            i <= k < trees.len() ==> #[trigger] trees[k].first_column + trees[k].n_columns <= n_columns
                && trees[k].first_column + trees[k].n_columns <= u32::MAX,
    decreases trees.len() - i,
{
    if i < trees.len() {
        lemma_trees_in_range(trees, n_columns, i + 1);
    }
}

/// With no bad column from `i` on, every later column range ends within the
/// value table.
proof fn lemma_columns_in_range(columns: Seq<MetalSampledValuesColumnDescV1>, n_values: nat, i: int)
    requires
        0 <= i,
        first_bad_column(columns, n_values, i) is None,
    ensures
        forall|k: int|
            i <= k < columns.len() ==> #[trigger] columns[k].first_value + columns[k].n_values <= n_values
                && columns[k].first_value + columns[k].n_values <= u32::MAX,
    decreases columns.len() - i,
{
    if i < columns.len() {
        lemma_columns_in_range(columns, n_values, i + 1);
    }
}

/// Copies `src[start..end]` into a new vector.
fn copy_range(src: &Vec<MetalSecureFieldValueV1>, start: usize, end: usize) -> (r: Vec<
    MetalSecureFieldValueV1,
>)
    requires
        start <= end <= src@.len(),
    ensures
        r@ == src@.subrange(start as int, end as int),
{
    let mut out: Vec<MetalSecureFieldValueV1> = Vec::new();
    let mut i: usize = start;
    while i < end
        invariant
            start <= i <= end <= src@.len(),
            out@ == src@.subrange(start as int, i as int),
        decreases end - i,
    {
        out.push(src[i]);
        proof {
            assert(out@ =~= src@.subrange(start as int, i + 1));
        }
        i = i + 1;
    }
    out
}

impl OwnedMetalSampledValuesV1 {
    /// Regroups the values by tree and column, after validation.
    pub fn into_tree_vec(self) -> (r: Result<
        Vec<Vec<Vec<MetalSecureFieldValueV1>>>,
        MetalSampledValuesValidationError,
    >)
        ensures
            match r {
                Ok(v) => self.spec_validate() is Ok && nested_view(v) == spec_tree_vec(
                    self.spec_tree_descs(),
                    self.spec_column_descs(),
                    self.spec_values(),
                ),
                Err(e) => self.spec_validate() == Err::<(), MetalSampledValuesValidationError>(e),
            },
    {
        match self.validate() {
            Err(e) => {
                return Err(e);
            },
            Ok(()) => {},
        }
        proof {
            lemma_trees_in_range(self.tree_descs@, self.column_descs@.len(), 0);
            lemma_columns_in_range(self.column_descs@, self.values@.len(), 0);
        }
        let n_values = self.values.len();
        let ghost want = spec_tree_vec(self.tree_descs@, self.column_descs@, self.values@);
        let mut out: Vec<Vec<Vec<MetalSecureFieldValueV1>>> = Vec::new();
        let mut t: usize = 0;
        while t < self.tree_descs.len()
            invariant
                t <= self.tree_descs@.len(),
                want == spec_tree_vec(self.tree_descs@, self.column_descs@, self.values@),
                forall|k: int|
                    0 <= k < self.tree_descs@.len() ==> #[trigger] self.tree_descs@[k].first_column
                        + self.tree_descs@[k].n_columns <= self.column_descs@.len()
                        && self.tree_descs@[k].first_column + self.tree_descs@[k].n_columns <= u32::MAX,
                forall|k: int|
                    0 <= k < self.column_descs@.len() ==> #[trigger] self.column_descs@[k].first_value
                        + self.column_descs@[k].n_values <= self.values@.len(),
                out@.len() == t,
                trees_view(out@) == want.take(t as int),
                n_values == self.values@.len(),
            decreases self.tree_descs@.len() - t,
        {
            let tree = self.tree_descs[t];
            assert(tree.first_column + tree.n_columns <= self.column_descs@.len());
            assert(tree.first_column + tree.n_columns <= u32::MAX);
            let mut columns: Vec<Vec<MetalSecureFieldValueV1>> = Vec::new();
            let mut c: u32 = 0;
            while c < tree.n_columns
                invariant
                    c <= tree.n_columns,
                    tree == self.tree_descs@[t as int],
                    t < self.tree_descs@.len(),
                    tree.first_column + tree.n_columns <= self.column_descs@.len(),
                    tree.first_column + tree.n_columns <= u32::MAX,
                    forall|k: int|
                        0 <= k < self.column_descs@.len() ==> #[trigger] self.column_descs@[k].first_value
                            + self.column_descs@[k].n_values <= self.values@.len(),
                    want == spec_tree_vec(self.tree_descs@, self.column_descs@, self.values@),
                    n_values == self.values@.len(),
                    columns@.len() == c,
                    columns_view(columns@) == want[t as int].take(c as int),
                decreases tree.n_columns - c,
            {
                let index = (tree.first_column + c) as usize;
                let column = self.column_descs[index];
                assert(column.first_value + column.n_values <= self.values@.len());
                assert(n_values == self.values@.len());
                let start = column.first_value as usize;
                let n = column.n_values as usize;
                assert(start as int == column.first_value && n as int == column.n_values);
                let end = start + n;
                let cell = copy_range(&self.values, start, end);
                let ghost prev = columns@;
                proof {
                    assert(index as int == tree.first_column + c);
                    assert(want[t as int][c as int] == self.values@.subrange(
                        column.first_value as int,
                        column.first_value + column.n_values,
                    ));
                    assert(cell@ == want[t as int][c as int]);
                }
                columns.push(cell);
                proof {
                    assert(columns@ == prev.push(cell));
                    assert(want[t as int].len() == tree.n_columns);
                    assert forall|i: int| 0 <= i < c + 1 implies #[trigger] columns_view(columns@)[i]
                        == want[t as int].take(c + 1)[i] by {
                        assert(columns_view(columns@)[i] == columns@[i]@);
                        if i < c {
                            assert(columns@[i] == prev[i]);
                            assert(columns_view(prev)[i] == prev[i]@);
                            assert(columns_view(prev)[i] == want[t as int].take(c as int)[i]);
                        } else {
                            assert(columns@[i] == cell);
                        }
                    }
                    assert(columns_view(columns@) =~= want[t as int].take(c + 1));
                }
                c = c + 1;
            }
            let ghost prev_out = out@;
            out.push(columns);
            proof {
                assert(out@ == prev_out.push(columns));
                assert forall|i: int| 0 <= i < t + 1 implies #[trigger] trees_view(out@)[i]
                    == want.take(t + 1)[i] by {
                    if i < t {
                        assert(trees_view(prev_out)[i] == want.take(t as int)[i]);
                    }
                }
                assert(want[t as int].take(tree.n_columns as int) =~= want[t as int]);
                assert(trees_view(out@) =~= want.take(t + 1));
            }
            t = t + 1;
        }
        proof {
            assert(want.take(self.tree_descs@.len() as int) =~= want);
        }
        Ok(out)
    }
}

// ---------------------------------------------------------------------------
// Host/device record layout.
// ---------------------------------------------------------------------------

/// The verdict on the sizes (and the header's alignment) of the records
/// shared with the device, checked in the order header, tree descriptor,
/// column descriptor, value.
pub open spec fn spec_sampled_values_abi_layout_v1() -> Result<(), MetalSampledValuesLoweringError> {
    if vstd::layout::size_of::<MetalSampledValuesHeaderV1>() != 36 {
        Err(
            MetalSampledValuesLoweringError::AbiLayoutMismatch {
                record: "MetalSampledValuesHeaderV1",
                expected_size: 36,
                actual_size: vstd::layout::size_of::<MetalSampledValuesHeaderV1>() as usize,
            },
        )
    } else if vstd::layout::align_of::<MetalSampledValuesHeaderV1>() != 4 {
        Err(
            MetalSampledValuesLoweringError::AbiAlignmentMismatch {
                record: "MetalSampledValuesHeaderV1",
                expected_align: 4,
                actual_align: vstd::layout::align_of::<MetalSampledValuesHeaderV1>() as usize,
            },
        )
    } else if vstd::layout::size_of::<MetalSampledValuesTreeDescV1>() != 8 {
        Err(
            MetalSampledValuesLoweringError::AbiLayoutMismatch {
                record: "MetalSampledValuesTreeDescV1",
                expected_size: 8,
                actual_size: vstd::layout::size_of::<MetalSampledValuesTreeDescV1>() as usize,
            },
        )
    } else if vstd::layout::size_of::<MetalSampledValuesColumnDescV1>() != 8 {
        Err(
            MetalSampledValuesLoweringError::AbiLayoutMismatch {
                record: "MetalSampledValuesColumnDescV1",
                expected_size: 8,
                actual_size: vstd::layout::size_of::<MetalSampledValuesColumnDescV1>() as usize,
            },
        )
    } else if vstd::layout::size_of::<MetalSecureFieldValueV1>() != 16 {
        Err(
            MetalSampledValuesLoweringError::AbiLayoutMismatch {
                record: "MetalSecureFieldValueV1",
                expected_size: 16,
                actual_size: vstd::layout::size_of::<MetalSecureFieldValueV1>() as usize,
            },
        )
    } else {
        Ok(())
    }
}

/// Checks the sizes (and the header's alignment) of the records shared with
/// the device.
pub fn validate_sampled_values_abi_layout_v1() -> (r: Result<(), MetalSampledValuesLoweringError>)
    ensures
        r == spec_sampled_values_abi_layout_v1(),
{
    let size = core::mem::size_of::<MetalSampledValuesHeaderV1>();
    if size != 36 {
        return Err(
            MetalSampledValuesLoweringError::AbiLayoutMismatch {
                record: "MetalSampledValuesHeaderV1",
                expected_size: 36,
                actual_size: size,
            },
        );
    }
    let align = core::mem::align_of::<MetalSampledValuesHeaderV1>();
    if align != 4 {
        return Err(
            MetalSampledValuesLoweringError::AbiAlignmentMismatch {
                record: "MetalSampledValuesHeaderV1",
                expected_align: 4,
                actual_align: align,
            },
        );
    }
    let size = core::mem::size_of::<MetalSampledValuesTreeDescV1>();
    if size != 8 {
        return Err(
            MetalSampledValuesLoweringError::AbiLayoutMismatch {
                record: "MetalSampledValuesTreeDescV1",
                expected_size: 8,
                actual_size: size,
            },
        );
    }
    let size = core::mem::size_of::<MetalSampledValuesColumnDescV1>();
    if size != 8 {
        return Err(
            MetalSampledValuesLoweringError::AbiLayoutMismatch {
                record: "MetalSampledValuesColumnDescV1",
                expected_size: 8,
                actual_size: size,
            },
        );
    }
    let size = core::mem::size_of::<MetalSecureFieldValueV1>();
    if size != 16 {
        return Err(
            MetalSampledValuesLoweringError::AbiLayoutMismatch {
                record: "MetalSecureFieldValueV1",
                expected_size: 16,
                actual_size: size,
            },
        );
    }
    Ok(())
}

// ---------------------------------------------------------------------------
// Lowering nested sampled values into the device image.
// ---------------------------------------------------------------------------

/// The number of columns over the given trees.
pub open spec fn total_columns(trees: Seq<Seq<Seq<MetalSecureFieldValueV1>>>) -> nat {
    trees.flatten_alt().len()
}

/// The number of values over the given trees.
pub open spec fn total_values(trees: Seq<Seq<Seq<MetalSecureFieldValueV1>>>) -> nat {
    trees.flatten_alt().flatten_alt().len()
}

/// The first count overflow met when lowering trees from index `t` on: a
/// tree's column count, then its running value count, then its running
/// column count; after the last tree, the tree count.
pub open spec fn lowering_error_from(trees: Seq<Seq<Seq<MetalSecureFieldValueV1>>>, t: int) -> Option<
    MetalSampledValuesLoweringError,
>
    decreases trees.len() - t,
{
    if t < 0 || t >= trees.len() {
        if trees.len() > u32::MAX {
            Some(MetalSampledValuesLoweringError::TreeCountOverflow)
        } else {
            None
        }
    } else if trees[t].len() > u32::MAX {
        Some(MetalSampledValuesLoweringError::ColumnCountOverflow)
    } else if total_values(trees.take(t + 1)) > u32::MAX {
        Some(MetalSampledValuesLoweringError::ValueCountOverflow)
    } else if total_columns(trees.take(t + 1)) > u32::MAX {
        Some(MetalSampledValuesLoweringError::ColumnCountOverflow)
    } else {
        lowering_error_from(trees, t + 1)
    }
}

/// The tree descriptor of tree `t`: its range in the flattened columns.
pub open spec fn lowered_tree_desc(trees: Seq<Seq<Seq<MetalSecureFieldValueV1>>>, t: int) -> MetalSampledValuesTreeDescV1 {
    MetalSampledValuesTreeDescV1 {
        first_column: total_columns(trees.take(t)) as u32,
        n_columns: trees[t].len() as u32,
    }
}

/// The column descriptors of the given columns: each one's range in the
/// flattened values.
pub open spec fn lowered_column_descs(columns: Seq<Seq<MetalSecureFieldValueV1>>) -> Seq<
    MetalSampledValuesColumnDescV1,
> {
    Seq::new(
        columns.len(),
        |c: int|
            MetalSampledValuesColumnDescV1 {
                first_value: columns.take(c).flatten_alt().len() as u32,
                n_values: columns[c].len() as u32,
            },
    )
}

/// `p` is the device image of `trees`.
pub open spec fn is_lowering_of(
    p: OwnedMetalSampledValuesV1,
    trees: Seq<Seq<Seq<MetalSecureFieldValueV1>>>,
) -> bool {
    &&& lowering_error_from(trees, 0) is None
    &&& is_new_sampled_values_header(
        p.spec_header(),
        trees.len() as u32,
        total_columns(trees) as u32,
        total_values(trees) as u32,
    )
    &&& p.spec_tree_descs() == Seq::new(trees.len(), |t: int| lowered_tree_desc(trees, t))
    &&& p.spec_column_descs() == lowered_column_descs(trees.flatten_alt())
    &&& p.spec_values() == trees.flatten_alt().flatten_alt()
}

/// Flattening after a push appends the pushed sequence.
proof fn lemma_flatten_alt_push<A>(s: Seq<Seq<A>>, x: Seq<A>)
    ensures
        s.push(x).flatten_alt() == s.flatten_alt() + x,
{
    assert(s.push(x).drop_last() =~= s);
}

/// The flattening of a prefix is a prefix of the flattening.
proof fn lemma_flatten_alt_prefix<A>(s: Seq<Seq<A>>, k: int)
    requires
        0 <= k <= s.len(),
    ensures
        s.take(k).flatten_alt().len() <= s.flatten_alt().len(),
        s.flatten_alt().subrange(0, s.take(k).flatten_alt().len() as int) == s.take(k).flatten_alt(),
{
    assert(s =~= s.take(k) + s.skip(k));
    vstd::seq_lib::lemma_flatten_alt_concat(s.take(k), s.skip(k));
    assert(s.flatten_alt().subrange(0, s.take(k).flatten_alt().len() as int) =~= s.take(k).flatten_alt());
}

/// Element `k` sits in the flattening right after the flattening of the
/// elements before it.
proof fn lemma_flatten_alt_slice<A>(s: Seq<Seq<A>>, k: int)
    requires
        0 <= k < s.len(),
    ensures
        s.take(k).flatten_alt().len() + s[k].len() <= s.flatten_alt().len(),
        s.take(k + 1).flatten_alt().len() == s.take(k).flatten_alt().len() + s[k].len(),
        s.flatten_alt().subrange(
            s.take(k).flatten_alt().len() as int,
            (s.take(k).flatten_alt().len() + s[k].len()) as int,
        ) == s[k],
{
    assert(s.take(k + 1) =~= s.take(k).push(s[k]));
    lemma_flatten_alt_push(s.take(k), s[k]);
    lemma_flatten_alt_prefix(s, k + 1);
    let a = s.take(k).flatten_alt().len() as int;
    assert(s.flatten_alt().subrange(a, a + s[k].len()) =~= s.take(k + 1).flatten_alt().subrange(a, a + s[k].len()));
    assert(s.take(k + 1).flatten_alt().subrange(a, a + s[k].len()) =~= s[k]);
}

/// With no lowering error from `t` on, the counts through every later tree
/// fit in a `u32`, and so do the tree count and the totals.
proof fn lemma_no_lowering_error(trees: Seq<Seq<Seq<MetalSecureFieldValueV1>>>, t: int)
    requires
        0 <= t <= trees.len(),
        lowering_error_from(trees, t) is None,
    ensures
        trees.len() <= u32::MAX,
        forall|k: int| t <= k < trees.len() ==> total_columns(#[trigger] trees.take(k + 1)) <= u32::MAX
            && total_values(trees.take(k + 1)) <= u32::MAX && trees[k].len() <= u32::MAX,
    decreases trees.len() - t,
{
    if t < trees.len() {
        lemma_no_lowering_error(trees, t + 1);
    }
}

/// The totals of all trees: the totals through the last tree.
proof fn lemma_totals_fit(trees: Seq<Seq<Seq<MetalSecureFieldValueV1>>>)
    requires
        lowering_error_from(trees, 0) is None,
    ensures
        trees.len() <= u32::MAX,
        total_columns(trees) <= u32::MAX,
        total_values(trees) <= u32::MAX,
{
    lemma_no_lowering_error(trees, 0);
    if trees.len() > 0 {
        assert(trees.take(trees.len() as int) =~= trees);
        assert(total_columns(trees.take(trees.len() - 1 + 1)) <= u32::MAX);
    } else {
        assert(trees.flatten_alt() =~= Seq::<Seq<MetalSecureFieldValueV1>>::empty());
    }
}

/// Appending a column to the columns appends its descriptor.
proof fn lemma_lowered_column_descs_push(
    columns: Seq<Seq<MetalSecureFieldValueV1>>,
    x: Seq<MetalSecureFieldValueV1>,
)
    ensures
        lowered_column_descs(columns.push(x)) == lowered_column_descs(columns).push(
            MetalSampledValuesColumnDescV1 {
                first_value: columns.flatten_alt().len() as u32,
                n_values: x.len() as u32,
            },
        ),
{
    let pushed = columns.push(x);
    assert forall|c: int| 0 <= c < columns.len() implies #[trigger] pushed.take(c) == columns.take(c) by {
        assert(pushed.take(c) =~= columns.take(c));
    }
    assert(pushed.take(columns.len() as int) =~= columns);
    assert(lowered_column_descs(pushed) =~= lowered_column_descs(columns).push(
        MetalSampledValuesColumnDescV1 {
            first_value: columns.flatten_alt().len() as u32,
            n_values: x.len() as u32,
        },
    ));
}

/// The values through column `j` of tree `t` are part of the values through
/// tree `t`.
proof fn lemma_values_through_column(trees: Seq<Seq<Seq<MetalSecureFieldValueV1>>>, t: int, j: int)
    requires
        0 <= t < trees.len(),
        0 <= j < trees[t].len(),
    ensures
        (trees.take(t).flatten_alt() + trees[t].take(j + 1)).flatten_alt().len() == (trees.take(
            t,
        ).flatten_alt() + trees[t].take(j)).flatten_alt().len() + trees[t][j].len(),
        total_values(trees.take(t + 1)) >= (trees.take(t).flatten_alt() + trees[t].take(
            j + 1,
        )).flatten_alt().len(),
{
    let before = trees.take(t).flatten_alt();
    let tree = trees[t];
    assert(before + tree.take(j + 1) =~= (before + tree.take(j)).push(tree[j]));
    lemma_flatten_alt_push(before + tree.take(j), tree[j]);
    assert(trees.take(t + 1) =~= trees.take(t).push(tree));
    lemma_flatten_alt_push(trees.take(t), tree);
    vstd::seq_lib::lemma_flatten_alt_concat(before, tree);
    vstd::seq_lib::lemma_flatten_alt_concat(before, tree.take(j + 1));
    lemma_flatten_alt_prefix(tree, j + 1);
}

/// Appends a copy of `src` to `out`.
fn append_values(out: &mut Vec<MetalSecureFieldValueV1>, src: &Vec<MetalSecureFieldValueV1>)
    ensures
        final(out)@ == old(out)@ + src@,
{
    let ghost start = out@;
    let mut i: usize = 0;
    while i < src.len()
        invariant
            i <= src@.len(),
            out@ == start + src@.take(i as int),
        decreases src@.len() - i,
    {
        out.push(src[i]);
        proof {
            assert(out@ =~= start + src@.take(i + 1));
        }
        i = i + 1;
    }
    proof {
        assert(src@.take(src@.len() as int) =~= src@);
    }
}

/// Lays nested sampled values (trees of columns of values) out as a device
/// image, after checking the record layout.
#[verifier::loop_isolation(false)]
pub fn lower_metal_sampled_values_v1(sampled_values: &Vec<Vec<Vec<MetalSecureFieldValueV1>>>) -> (r:
    Result<OwnedMetalSampledValuesV1, MetalSampledValuesLoweringError>)
    ensures
        match spec_sampled_values_abi_layout_v1() {
            Err(e) => r == Err::<OwnedMetalSampledValuesV1, MetalSampledValuesLoweringError>(e),
            Ok(_) => match lowering_error_from(nested_view(*sampled_values), 0) {
                Some(e) => r == Err::<OwnedMetalSampledValuesV1, MetalSampledValuesLoweringError>(e),
                None => r matches Ok(p) && is_lowering_of(p, nested_view(*sampled_values)),
            },
        },
{
    match validate_sampled_values_abi_layout_v1() {
        Err(e) => {
            return Err(e);
        },
        Ok(()) => {},
    }
    let ghost tv = nested_view(*sampled_values);
    let mut tree_descs: Vec<MetalSampledValuesTreeDescV1> = Vec::new();
    let mut column_descs: Vec<MetalSampledValuesColumnDescV1> = Vec::new();
    let mut values: Vec<MetalSecureFieldValueV1> = Vec::new();
    let mut running_columns: u32 = 0;
    let mut running_values: u32 = 0;
    proof {
        assert(tv.take(0) =~= Seq::<Seq<Seq<MetalSecureFieldValueV1>>>::empty());
        assert(tv.take(0).flatten_alt() =~= Seq::<Seq<MetalSecureFieldValueV1>>::empty());
        assert(tv.take(0).flatten_alt().flatten_alt() =~= Seq::<MetalSecureFieldValueV1>::empty());
        assert(tree_descs@ =~= Seq::new(0, |k: int| lowered_tree_desc(tv, k)));
        assert(column_descs@ =~= lowered_column_descs(tv.take(0).flatten_alt()));
    }
    let mut t: usize = 0;
    while t < sampled_values.len()
        invariant
            t <= tv.len(),
            tv.len() == sampled_values@.len(),
            lowering_error_from(tv, 0) == lowering_error_from(tv, t as int),
            running_columns == total_columns(tv.take(t as int)),
            running_values == total_values(tv.take(t as int)),
            tree_descs@ == Seq::new(t as nat, |k: int| lowered_tree_desc(tv, k)),
            column_descs@ == lowered_column_descs(tv.take(t as int).flatten_alt()),
            values@ == tv.take(t as int).flatten_alt().flatten_alt(),
        decreases tv.len() - t,
    {
        let tree = &sampled_values[t];
        assert(tv[t as int] == columns_view(tree@));
        let first_column = running_columns;
        if tree.len() > 4294967295usize {
            return Err(MetalSampledValuesLoweringError::ColumnCountOverflow);
        }
        let n_columns = tree.len() as u32;
        let ghost before = tv.take(t as int).flatten_alt();
        proof {
            assert(before + tv[t as int].take(0) =~= before);
        }
        let mut j: usize = 0;
        while j < tree.len()
            invariant
                j <= tree@.len(),
                tv[t as int] == columns_view(tree@),
                before == tv.take(t as int).flatten_alt(),
                running_values == (before + tv[t as int].take(j as int)).flatten_alt().len(),
                column_descs@ == lowered_column_descs(before + tv[t as int].take(j as int)),
                values@ == (before + tv[t as int].take(j as int)).flatten_alt(),
            decreases tree@.len() - j,
        {
            let column = &tree[j];
            assert(tv[t as int][j as int] == column@);
            proof {
                lemma_values_through_column(tv, t as int, j as int);
            }
            let first_value = running_values;
            if column.len() > 4294967295usize {
                return Err(MetalSampledValuesLoweringError::ValueCountOverflow);
            }
            let n_values = column.len() as u32;
            append_values(&mut values, column);
            match running_values.checked_add(n_values) {
                None => {
                    return Err(MetalSampledValuesLoweringError::ValueCountOverflow);
                },
                Some(next) => {
                    running_values = next;
                },
            }
            column_descs.push(MetalSampledValuesColumnDescV1::new(first_value, n_values));
            proof {
                let prefix = before + tv[t as int].take(j as int);
                assert(before + tv[t as int].take(j + 1) =~= prefix.push(column@));
                lemma_flatten_alt_push(prefix, column@);
                lemma_lowered_column_descs_push(prefix, column@);
            }
            j = j + 1;
        }
        proof {
            assert(tv[t as int].take(tree@.len() as int) =~= tv[t as int]);
            assert(tv.take(t + 1) =~= tv.take(t as int).push(tv[t as int]));
            lemma_flatten_alt_push(tv.take(t as int), tv[t as int]);
        }
        match running_columns.checked_add(n_columns) {
            None => {
                return Err(MetalSampledValuesLoweringError::ColumnCountOverflow);
            },
            Some(next) => {
                running_columns = next;
            },
        }
        tree_descs.push(MetalSampledValuesTreeDescV1::new(first_column, n_columns));
        proof {
            assert(tree_descs@ =~= Seq::new((t + 1) as nat, |k: int| lowered_tree_desc(tv, k)));
        }
        t = t + 1;
    }
    proof {
        assert(tv.take(tv.len() as int) =~= tv);
    }
    if tree_descs.len() > 4294967295usize {
        return Err(MetalSampledValuesLoweringError::TreeCountOverflow);
    }
    let n_trees = tree_descs.len() as u32;
    let header = MetalSampledValuesHeaderV1::new(n_trees, running_columns, running_values);
    Ok(OwnedMetalSampledValuesV1 { header, tree_descs, column_descs, values })
}

/// The tree ranges of a lowered image pass validation.
proof fn lemma_lowered_trees_in_range(trees: Seq<Seq<Seq<MetalSecureFieldValueV1>>>, i: int)
    requires
        0 <= i,
        total_columns(trees) <= u32::MAX,
    ensures
        first_bad_tree(
            Seq::new(trees.len(), |t: int| lowered_tree_desc(trees, t)),
            total_columns(trees),
            i,
        ) is None,
    decreases trees.len() - i,
{
    if i < trees.len() {
        lemma_flatten_alt_slice(trees, i);
        lemma_lowered_trees_in_range(trees, i + 1);
    }
}

/// The column ranges of a lowered image pass validation.
proof fn lemma_lowered_columns_in_range(columns: Seq<Seq<MetalSecureFieldValueV1>>, i: int)
    requires
        0 <= i,
        columns.flatten_alt().len() <= u32::MAX,
    ensures
        first_bad_column(lowered_column_descs(columns), columns.flatten_alt().len(), i) is None,
    decreases columns.len() - i,
{
    if i < columns.len() {
        lemma_flatten_alt_slice(columns, i);
        lemma_lowered_columns_in_range(columns, i + 1);
    }
}

/// Lowering keeps every value: the device image of `trees` validates, and
/// regrouping it by its tables gives `trees` back, tree by tree and column by
/// column.
pub proof fn lemma_sampled_values_roundtrip(
    p: OwnedMetalSampledValuesV1,
    trees: Seq<Seq<Seq<MetalSecureFieldValueV1>>>,
)
    requires
        is_lowering_of(p, trees),
    ensures
        p.spec_validate() is Ok,
        spec_tree_vec(p.spec_tree_descs(), p.spec_column_descs(), p.spec_values()) == trees,
{
    lemma_totals_fit(trees);
    let columns = trees.flatten_alt();
    let values = columns.flatten_alt();
    lemma_lowered_trees_in_range(trees, 0);
    lemma_lowered_columns_in_range(columns, 0);
    let got = spec_tree_vec(p.spec_tree_descs(), p.spec_column_descs(), p.spec_values());
    assert forall|t: int| 0 <= t < trees.len() implies #[trigger] got[t] == trees[t] by {
        lemma_flatten_alt_slice(trees, t);
        let fc = trees.take(t).flatten_alt().len() as int;
        assert forall|c: int| 0 <= c < trees[t].len() implies #[trigger] got[t][c] == trees[t][c] by {
            assert(columns.subrange(fc, fc + trees[t].len())[c] == columns[fc + c]);
            lemma_flatten_alt_slice(columns, fc + c);
        }
        assert(got[t] =~= trees[t]);
    }
    assert(got =~= trees);
}

// ---------------------------------------------------------------------------
// The wide-fibonacci post-composition lane.
// ---------------------------------------------------------------------------

/// Why a sampled-values image could not be evaluated.
#[derive(Clone, Debug, PartialEq, Eq)]
pub enum MetalSampledValuesExecutionError {
    Validation { source: MetalSampledValuesValidationError },
    UnsupportedShape { message: String },
    MetalRuntimeUnavailable { support: MetalRuntimeSupport },
    Metal { message: String },
}

/// The first column, from offset `k` on, of the eight final-tree columns
/// starting at `first` that does not hold exactly one value.
pub open spec fn first_multi_value_column(
    columns: Seq<MetalSampledValuesColumnDescV1>,
    first: int,
    k: int,
) -> Option<int>
    decreases 8 - k,
{
    if k < 0 || k >= 8 {
        None
    } else if columns[first + k].n_values != 1 {
        Some(k)
    } else {
        first_multi_value_column(columns, first, k + 1)
    }
}

/// Why a valid image does not have the wide-fibonacci post-composition shape
/// (at least one tree, eight columns in the last tree, one value in each of
/// them), as the message that reports it.
pub open spec fn shape_failure_message(
    trees: Seq<MetalSampledValuesTreeDescV1>,
    columns: Seq<MetalSampledValuesColumnDescV1>,
) -> Option<Seq<char>> {
    if trees.len() == 0 {
        Some("sampled-values ABI requires at least one tree"@)
    } else if trees.last().n_columns != 8 {
        Some(
            "wide-fibonacci post-composition lane expects 8 columns in the last tree, got "@
                + decimal_chars(trees.last().n_columns as nat),
        )
    } else {
        match first_multi_value_column(columns, trees.last().first_column as int, 0) {
            Some(k) => Some(
                "wide-fibonacci post-composition lane expects exactly one sampled value per final-tree column; column "@
                    + decimal_chars((trees.last().first_column + k) as nat) + " had "@
                    + decimal_chars(columns[trees.last().first_column + k].n_values as nat),
            ),
            None => None,
        }
    }
}

/// `r` is what the shape check gives for `p`: the validation error, the shape
/// failure, or the first column of the last tree.
pub open spec fn shape_outcome(
    p: OwnedMetalSampledValuesV1,
    r: Result<usize, MetalSampledValuesExecutionError>,
) -> bool {
    match p.spec_validate() {
        Err(source) => r == Err::<usize, MetalSampledValuesExecutionError>(
            MetalSampledValuesExecutionError::Validation { source },
        ),
        Ok(_) => match shape_failure_message(p.spec_tree_descs(), p.spec_column_descs()) {
            Some(m) => r matches Err(MetalSampledValuesExecutionError::UnsupportedShape { message }) && message@ == m,
            None => r == Ok::<usize, MetalSampledValuesExecutionError>(
                p.spec_tree_descs().last().first_column as usize,
            ),
        },
    }
}

impl OwnedMetalSampledValuesV1 {
    /// Checks that the image validates and that its last tree holds eight
    /// single-value columns; gives that tree's first column.
    fn validate_wide_fibonacci_post_composition_shape(&self) -> (r: Result<
        usize,
        MetalSampledValuesExecutionError,
    >)
        ensures
            shape_outcome(*self, r),
    {
        match self.validate() {
            Err(source) => {
                return Err(MetalSampledValuesExecutionError::Validation { source });
            },
            Ok(()) => {},
        }
        proof {
            lemma_trees_in_range(self.tree_descs@, self.column_descs@.len(), 0);
        }
        if self.tree_descs.len() == 0 {
            return Err(
                MetalSampledValuesExecutionError::UnsupportedShape {
                    message: String::from_str("sampled-values ABI requires at least one tree"),
                },
            );
        }
        let last_tree = self.tree_descs[self.tree_descs.len() - 1];
        if last_tree.n_columns != 8 {
            let mut message = String::from_str(
                "wide-fibonacci post-composition lane expects 8 columns in the last tree, got ",
            );
            push_decimal(&mut message, last_tree.n_columns as u64);
            return Err(MetalSampledValuesExecutionError::UnsupportedShape { message });
        }
        assert(last_tree.first_column + 8 <= self.column_descs@.len());
        let n_cols = self.column_descs.len();
        let first_column = last_tree.first_column as usize;
        let mut offset: usize = 0;
        while offset < 8
            invariant
                offset <= 8,
                self.tree_descs@.len() > 0,
                self.spec_validate() is Ok,
                last_tree.n_columns == 8,
                n_cols == self.column_descs@.len(),
                last_tree == self.tree_descs@.last(),
                first_column == last_tree.first_column,
                first_column + 8 <= self.column_descs@.len(),
                first_multi_value_column(self.column_descs@, first_column as int, 0)
                    == first_multi_value_column(self.column_descs@, first_column as int, offset as int),
            decreases 8 - offset,
        {
            let column = self.column_descs[first_column + offset];
            if column.n_values != 1 {
                let mut message = String::from_str(
                    "wide-fibonacci post-composition lane expects exactly one sampled value per final-tree column; column ",
                );
                push_decimal(&mut message, (first_column + offset) as u64);
                message.append(" had ");
                push_decimal(&mut message, column.n_values as u64);
                proof {
                    let fc = last_tree.first_column as int;
                    assert(first_multi_value_column(self.column_descs@, fc, offset as int) == Some(offset as int));
                    assert(message@ =~= "wide-fibonacci post-composition lane expects exactly one sampled value per final-tree column; column "@
                        + decimal_chars((last_tree.first_column + offset) as nat) + " had "@
                        + decimal_chars(self.column_descs@[last_tree.first_column + offset].n_values as nat));
                }
                return Err(MetalSampledValuesExecutionError::UnsupportedShape { message });
            }
            offset = offset + 1;
        }
        Ok(first_column)
    }

    /// The eight final-tree values of an image of the post-composition shape.
    fn last_tree_wide_fibonacci_values(&self, first_column: usize) -> (r: Vec<MetalSecureFieldValueV1>)
        requires
            self.spec_validate() is Ok,
            first_column + 8 <= self.spec_column_descs().len(),
            forall|k: int| 0 <= k < 8 ==> #[trigger] self.spec_column_descs()[first_column + k].n_values == 1,
        ensures
            r@ == Seq::new(
                8,
                |k: int| self.spec_values()[self.spec_column_descs()[first_column + k].first_value as int],
            ),
    {
        proof {
            lemma_columns_in_range(self.column_descs@, self.values@.len(), 0);
        }
        let n_cols = self.column_descs.len();
        let mut out: Vec<MetalSecureFieldValueV1> = Vec::new();
        let mut index: usize = 0;
        while index < 8
            invariant
                index <= 8,
                n_cols == self.column_descs@.len(),
                first_column + 8 <= self.column_descs@.len(),
                forall|k: int| 0 <= k < 8 ==> #[trigger] self.column_descs@[first_column + k].n_values == 1,
                forall|k: int|
                    0 <= k < self.column_descs@.len() ==> #[trigger] self.column_descs@[k].first_value
                        + self.column_descs@[k].n_values <= self.values@.len(),
                out@ == Seq::new(
                    index as nat,
                    |k: int| self.values@[self.column_descs@[first_column + k].first_value as int],
                ),
            decreases 8 - index,
        {
            let desc = self.column_descs[first_column + index];
            assert(self.column_descs@[first_column + index].n_values == 1);
            out.push(self.values[desc.first_value as usize]);
            proof {
                assert(out@ =~= Seq::new(
                    (index + 1) as nat,
                    |k: int| self.values@[self.column_descs@[first_column + k].first_value as int],
                ));
            }
            index = index + 1;
        }
        out
    }

    /// The tree table as consecutive `(first_column, n_columns)` words.
    pub fn tree_desc_words(&self) -> (r: Vec<u32>)
        ensures
            r@.len() == 2 * self.spec_tree_descs().len(),
            forall|i: int|
                0 <= i < self.spec_tree_descs().len() ==> #[trigger] r@[2 * i] == self.spec_tree_descs()[i].first_column
                    && r@[2 * i + 1] == self.spec_tree_descs()[i].n_columns,
    {
        let mut out: Vec<u32> = Vec::new();
        let mut i: usize = 0;
        while i < self.tree_descs.len()
            invariant
                i <= self.tree_descs@.len(),
                out@.len() == 2 * i,
                forall|j: int|
                    0 <= j < i ==> #[trigger] out@[2 * j] == self.tree_descs@[j].first_column
                        && out@[2 * j + 1] == self.tree_descs@[j].n_columns,
            decreases self.tree_descs@.len() - i,
        {
            let desc = self.tree_descs[i];
            let ghost old_out = out@;
            out.push(desc.first_column);
            out.push(desc.n_columns);
            proof {
                assert forall|j: int| 0 <= j < i + 1 implies #[trigger] out@[2 * j] == self.tree_descs@[j].first_column
                    && out@[2 * j + 1] == self.tree_descs@[j].n_columns by {
                    if j < i {
                        assert(out@[2 * j] == old_out[2 * j]);
                        assert(out@[2 * j + 1] == old_out[2 * j + 1]);
                    }
                }
            }
            i = i + 1;
        }
        out
    }

    /// The column table as consecutive `(first_value, n_values)` words.
    pub fn column_desc_words(&self) -> (r: Vec<u32>)
        ensures
            r@.len() == 2 * self.spec_column_descs().len(),
            forall|i: int|
                0 <= i < self.spec_column_descs().len() ==> #[trigger] r@[2 * i] == self.spec_column_descs()[i].first_value
                    && r@[2 * i + 1] == self.spec_column_descs()[i].n_values,
    {
        let mut out: Vec<u32> = Vec::new();
        let mut i: usize = 0;
        while i < self.column_descs.len()
            invariant
                i <= self.column_descs@.len(),
                out@.len() == 2 * i,
                forall|j: int|
                    0 <= j < i ==> #[trigger] out@[2 * j] == self.column_descs@[j].first_value
                        && out@[2 * j + 1] == self.column_descs@[j].n_values,
            decreases self.column_descs@.len() - i,
        {
            let desc = self.column_descs[i];
            let ghost old_out = out@;
            out.push(desc.first_value);
            out.push(desc.n_values);
            proof {
                assert forall|j: int| 0 <= j < i + 1 implies #[trigger] out@[2 * j] == self.column_descs@[j].first_value
                    && out@[2 * j + 1] == self.column_descs@[j].n_values by {
                    if j < i {
                        assert(out@[2 * j] == old_out[2 * j]);
                        assert(out@[2 * j + 1] == old_out[2 * j + 1]);
                    }
                }
            }
            i = i + 1;
        }
        out
    }

    /// The values as consecutive four-limb groups.
    pub fn value_words(&self) -> (r: Vec<u32>)
        ensures
            r@.len() == 4 * self.spec_values().len(),
            forall|i: int, k: int|
                0 <= i < self.spec_values().len() && 0 <= k < 4 ==> #[trigger] r@[4 * i + k]
                    == self.spec_values()[i].limbs[k],
    {
        let mut out: Vec<u32> = Vec::new();
        let mut i: usize = 0;
        while i < self.values.len()
            invariant
                i <= self.values@.len(),
                out@.len() == 4 * i,
                forall|j: int, k: int|
                    0 <= j < i && 0 <= k < 4 ==> #[trigger] out@[4 * j + k] == self.values@[j].limbs[k],
            decreases self.values@.len() - i,
        {
            let value = self.values[i];
            out.push(value.limbs[0]);
            out.push(value.limbs[1]);
            out.push(value.limbs[2]);
            out.push(value.limbs[3]);
            proof {
                assert forall|j: int, k: int| 0 <= j < i + 1 && 0 <= k < 4 implies #[trigger] out@[4 * j
                    + k] == self.values@[j].limbs[k] by {
                    if j == i {
                        assert(k == 0 || k == 1 || k == 2 || k == 3);
                    }
                }
            }
            i = i + 1;
        }
        out
    }
}

/// Chooses how to evaluate the post-composition value: the device overlay
/// when the runtime is available, else the reference interpreter; the image
/// must have the wide-fibonacci shape either way.
pub fn select_metal_sampled_values_dispatch_v1(
    sampled_values: &OwnedMetalSampledValuesV1,
    runtime_support: MetalRuntimeSupport,
) -> (r: Result<MetalSampledValuesDispatchKindV1, MetalSampledValuesExecutionError>)
    ensures
        match r {
            Ok(kind) => shape_outcome(*sampled_values, Ok(sampled_values.spec_tree_descs().last().first_column as usize))
                && kind == (if runtime_support == MetalRuntimeSupport::Available {
                    MetalSampledValuesDispatchKindV1::GeneratedOverlayWideFibonacci
                } else {
                    MetalSampledValuesDispatchKindV1::ReferenceInterpreter
                }),
            Err(e) => shape_outcome(*sampled_values, Err(e)),
        },
{
    match sampled_values.validate_wide_fibonacci_post_composition_shape() {
        Err(e) => Err(e),
        Ok(_) => match runtime_support {
            MetalRuntimeSupport::Available => Ok(MetalSampledValuesDispatchKindV1::GeneratedOverlayWideFibonacci),
            _ => Ok(MetalSampledValuesDispatchKindV1::ReferenceInterpreter),
        },
    }
}

/// The wide-fibonacci post-composition value of the eight final-tree values
/// `v`: `from_partial_evals(v[0..4]) + x * from_partial_evals(v[4..8])`, with
/// `x` the x-coordinate of `point` doubled `max_log_degree_bound - 1` times.
pub open spec fn wide_fibonacci_post_composition_value(
    v: Seq<MetalSecureFieldValueV1>,
    point: MetalSecureCirclePointV1,
    max_log_degree_bound: u32,
) -> Seq<u32> {
    let left = qm31_from_partial_evals(v[0].limbs@, v[1].limbs@, v[2].limbs@, v[3].limbs@);
    let right = qm31_from_partial_evals(v[4].limbs@, v[5].limbs@, v[6].limbs@, v[7].limbs@);
    let x = circle_repeated_double((point.x.limbs@, point.y.limbs@), (max_log_degree_bound - 1) as nat).0;
    qm31_add(left, qm31_mul(x, right))
}

/// Every value of the image is canonical.
pub open spec fn all_values_canonical(p: OwnedMetalSampledValuesV1) -> bool {
    forall|i: int| 0 <= i < p.spec_values().len() ==> is_canonical(#[trigger] p.spec_values()[i])
}

/// Evaluates the wide-fibonacci post-composition value on the host.
pub fn interpret_metal_sampled_values_v1_reference(
    point: MetalSecureCirclePointV1,
    sampled_values: &OwnedMetalSampledValuesV1,
    max_log_degree_bound: u32,
) -> (r: Result<MetalSecureFieldValueV1, MetalSampledValuesExecutionError>)
    requires
        max_log_degree_bound >= 1,
        is_canonical(point.x),
        is_canonical(point.y),
        all_values_canonical(*sampled_values),
    ensures
        match r {
            Ok(value) => {
                let fc = sampled_values.spec_tree_descs().last().first_column as int;
                &&& shape_outcome(*sampled_values, Ok(fc as usize))
                &&& value.limbs@ == wide_fibonacci_post_composition_value(
                    Seq::new(
                        8,
                        |k: int|
                            sampled_values.spec_values()[sampled_values.spec_column_descs()[fc
                                + k].first_value as int],
                    ),
                    point,
                    max_log_degree_bound,
                )
            },
            Err(e) => shape_outcome(*sampled_values, Err(e)),
        },
{
    let first_column = match sampled_values.validate_wide_fibonacci_post_composition_shape() {
        Err(e) => {
            return Err(e);
        },
        Ok(first_column) => first_column,
    };
    proof {
        lemma_trees_in_range(sampled_values.spec_tree_descs(), sampled_values.spec_column_descs().len(), 0);
        lemma_columns_in_range(sampled_values.spec_column_descs(), sampled_values.spec_values().len(), 0);
        let cols = sampled_values.spec_column_descs();
        let fc = first_column as int;
        assert forall|k: int| 0 <= k < 8 implies #[trigger] cols[fc + k].n_values == 1 by {
            if cols[fc + k].n_values != 1 {
                lemma_first_multi_value_column_finds(cols, fc, 0, k);
            }
        }
    }
    let values = sampled_values.last_tree_wide_fibonacci_values(first_column);
    proof {
        let cols = sampled_values.spec_column_descs();
        assert forall|k: int| 0 <= k < 8 implies is_canonical(#[trigger] values@[k]) by {
            let i = cols[first_column + k].first_value as int;
            assert(cols[first_column + k].first_value + cols[first_column + k].n_values
                <= sampled_values.spec_values().len());
            assert(is_canonical(sampled_values.spec_values()[i]));
        }
    }
    let left = secure_from_partial_evals(values[0], values[1], values[2], values[3]);
    let right = secure_from_partial_evals(values[4], values[5], values[6], values[7]);
    let doubled = circle_point_repeated_double(point, max_log_degree_bound - 1);
    Ok(secure_add(left, secure_mul(doubled.x, right)))
}

/// A column with other than one value, at offset `k >= i`, is found by the
/// search from `i`.
proof fn lemma_first_multi_value_column_finds(
    columns: Seq<MetalSampledValuesColumnDescV1>,
    first: int,
    i: int,
    k: int,
)
    requires
        0 <= i <= k < 8,
        columns[first + k].n_values != 1,
    ensures
        first_multi_value_column(columns, first, i) is Some,
    decreases 8 - i,
{
    if i < k && columns[first + i].n_values == 1 {
        lemma_first_multi_value_column_finds(columns, first, i + 1, k);
    }
}

} // verus!
