use vstd::arithmetic::power2::pow2;
use vstd::prelude::*;

use crate::field_ops::{
    base_add, base_inverse, base_mul, base_sub, m31_add, m31_inverse, m31_mul, m31_sub, M31_P,
};
use crate::quotient_staging::{bit_reverse_index, bit_reverse_spec, lemma_bit_reverse_below};
use crate::sampled_values::MetalSecureFieldValueV1;

verus! {

/// Relation ids of the range-check 9-9 lookups and the memory-id-to-big
/// yield lookup.
#[derive(Copy, Clone, Debug, PartialEq, Eq)]
pub struct InteractionRelationIds {
    pub range_check_9_9_ids: [u32; 8],
    pub memory_id_to_big_id: u32,
}

/// Lookup elements as limbs: the powers of alpha, and z.
#[derive(Clone, Debug, PartialEq, Eq)]
pub struct InteractionLookupElements {
    pub alpha_powers: Vec<[u32; 4]>,
    pub z: [u32; 4],
}

#[derive(Clone, Debug, PartialEq, Eq)]
pub enum InteractionTraceError {
    Runtime { message: String },
}

impl InteractionTraceError {
    /// The message the error displays.
    pub fn message(&self) -> (r: &String)
        ensures
            match self {
                InteractionTraceError::Runtime { message } => r == message,
            },
    {
        match self {
            InteractionTraceError::Runtime { message } => message,
        }
    }
}

#[derive(Clone, Debug, PartialEq, Eq)]
pub enum OpcodeInteractionTraceError {
    Runtime(String),
}

impl OpcodeInteractionTraceError {
    /// The opcode-level error that reports `e` with the same message.
    pub fn from_interaction_trace_error(e: InteractionTraceError) -> (r: Self)
        ensures
            match (e, r) {
                (InteractionTraceError::Runtime { message }, OpcodeInteractionTraceError::Runtime(m)) => m@
                    == message@,
            },
    {
        match e {
            InteractionTraceError::Runtime { message } => OpcodeInteractionTraceError::Runtime(message),
        }
    }

    /// The message the error displays.
    pub fn message(&self) -> (r: &String)
        ensures
            match self {
                OpcodeInteractionTraceError::Runtime(message) => r == message,
            },
    {
        match self {
            OpcodeInteractionTraceError::Runtime(message) => message,
        }
    }
}

pub const NUMERATOR_PAIR_SUM: u32 = 0;
pub const NUMERATOR_ENABLER_WEIGHTED: u32 = 1;
pub const NUMERATOR_MULTS_WEIGHTED: u32 = 2;
pub const NUMERATOR_SINGLE_NEG: u32 = 3;

/// One logup column of the generic interaction-trace kernel: 8 words in the
/// device layout.
#[derive(Copy, Clone, Debug, PartialEq, Eq, Structural)]
pub struct ColumnDescriptor {
    pub values0_offset: u32,
    pub values0_count: u32,
    pub values1_offset: u32,
    pub values1_count: u32,
    pub relation_id0: u32,
    pub relation_id1: u32,
    pub numerator_type: u32,
    pub weight_offset: u32,
}

/// The device words of a descriptor, in field order.
pub open spec fn descriptor_words(d: ColumnDescriptor) -> Seq<u32> {
    seq![
        d.values0_offset,
        d.values0_count,
        d.values1_offset,
        d.values1_count,
        d.relation_id0,
        d.relation_id1,
        d.numerator_type,
        d.weight_offset,
    ]
}

impl ColumnDescriptor {
    /// The descriptor as its 8 device words.
    pub fn to_u32_array(&self) -> (r: [u32; 8])
        ensures
            r@ == descriptor_words(*self),
    {
        let r = [
            self.values0_offset,
            self.values0_count,
            self.values1_offset,
            self.values1_count,
            self.relation_id0,
            self.relation_id1,
            self.numerator_type,
            self.weight_offset,
        ];
        assert(r@ =~= descriptor_words(*self));
        r
    }
}

/// How one logup column of an opcode component reads its lookup data.
#[derive(Clone, Debug, PartialEq, Eq)]
pub struct LogupColumnConfig {
    pub relation_id0: u32,
    pub values0_col_indices: Vec<usize>,
    pub relation_id1: u32,
    pub values1_col_indices: Vec<usize>,
    pub numerator_type: u32,
    pub weight_col_indices: Vec<usize>,
}

/// The number of alpha powers a descriptor's combines use: one for the
/// relation id plus one per value, for each combine it has.
pub open spec fn combine_size(d: ColumnDescriptor) -> int {
    let s0 = 1 + d.values0_count;
    let s1 = if d.numerator_type != NUMERATOR_SINGLE_NEG { 1 + d.values1_count } else { 0 };
    if s0 >= s1 { s0 } else { s1 }
}

/// The largest combine size over descriptors `i..`, or `acc` if larger.
pub open spec fn max_combine_from(descriptors: Seq<ColumnDescriptor>, i: int, acc: int) -> int
    decreases descriptors.len() - i,
{
    if i < 0 || i >= descriptors.len() {
        acc
    } else {
        let s = combine_size(descriptors[i]);
        max_combine_from(descriptors, i + 1, if s > acc { s } else { acc })
    }
}

/// The largest combine size of a non-empty descriptor table; one for an
/// empty one.
pub open spec fn spec_max_combine_size(descriptors: Seq<ColumnDescriptor>) -> int {
    if descriptors.len() == 0 {
        1
    } else {
        max_combine_from(descriptors, 1, combine_size(descriptors[0]))
    }
}

/// Every descriptor's value counts leave room for the relation id.
pub open spec fn descriptor_counts_fit(descriptors: Seq<ColumnDescriptor>) -> bool {
    forall|i: int|
        0 <= i < descriptors.len() ==> #[trigger] descriptors[i].values0_count < u32::MAX
            && descriptors[i].values1_count < u32::MAX
}

/// Accumulates value columns and logup column descriptors for the generic
/// interaction-trace kernel.
pub struct GenericInteractionTraceBuilder {
    n_value_columns: u32,
    descriptors: Vec<ColumnDescriptor>,
    columns: Vec<Vec<u32>>,
}

/// The contents of the value columns.
pub open spec fn value_columns_view(columns: Seq<Vec<u32>>) -> Seq<Seq<u32>> {
    columns.map_values(|c: Vec<u32>| c@)
}

/// One call that fills a builder: a value column, or a logup column
/// descriptor.
pub enum BuilderStep {
    ValueColumn(Seq<u32>),
    LogupColumn(ColumnDescriptor),
}

/// The value columns and descriptors of a builder after one more step.
pub open spec fn after_step(
    state: (Seq<Seq<u32>>, Seq<ColumnDescriptor>),
    step: BuilderStep,
) -> (Seq<Seq<u32>>, Seq<ColumnDescriptor>) {
    match step {
        BuilderStep::ValueColumn(data) => (state.0.push(data), state.1),
        BuilderStep::LogupColumn(desc) => (state.0, state.1.push(desc)),
    }
}

/// The value columns and descriptors of a new builder after `steps`.
pub open spec fn after_steps(steps: Seq<BuilderStep>) -> (Seq<Seq<u32>>, Seq<ColumnDescriptor>)
    decreases steps.len(),
{
    if steps.len() == 0 {
        (Seq::empty(), Seq::empty())
    } else {
        after_step(after_steps(steps.drop_last()), steps.last())
    }
}

/// The data of the value-column steps, in order.
pub open spec fn value_column_steps(steps: Seq<BuilderStep>) -> Seq<Seq<u32>>
    decreases steps.len(),
{
    if steps.len() == 0 {
        Seq::empty()
    } else {
        match steps.last() {
            BuilderStep::ValueColumn(data) => value_column_steps(steps.drop_last()).push(data),
            BuilderStep::LogupColumn(_) => value_column_steps(steps.drop_last()),
        }
    }
}

/// The descriptors of the logup-column steps, in order.
pub open spec fn logup_column_steps(steps: Seq<BuilderStep>) -> Seq<ColumnDescriptor>
    decreases steps.len(),
{
    if steps.len() == 0 {
        Seq::empty()
    } else {
        match steps.last() {
            BuilderStep::ValueColumn(_) => logup_column_steps(steps.drop_last()),
            BuilderStep::LogupColumn(desc) => logup_column_steps(steps.drop_last()).push(desc),
        }
    }
}

/// A builder filled by any sequence of calls holds the value columns in the
/// order they were added and the descriptors in the order they were added:
/// the value-column call at position `j` is given index `k`, the number of
/// value-column calls before it, and stores its data as column `k`; the
/// logup-column count is the number of logup-column calls, which value
/// columns never change.
pub proof fn lemma_builder_indices_and_counts(steps: Seq<BuilderStep>)
    ensures
        after_steps(steps).0 == value_column_steps(steps),
        after_steps(steps).1 == logup_column_steps(steps),
        forall|j: int|
            0 <= j < steps.len() ==> (#[trigger] steps[j] matches BuilderStep::ValueColumn(data) ==> {
                let k = after_steps(steps.take(j)).0.len();
                &&& k == value_column_steps(steps.take(j)).len()
                &&& after_steps(steps.take(j + 1)).0[k as int] == data
                &&& after_steps(steps.take(j + 1)).1 == after_steps(steps.take(j)).1
            }),
    decreases steps.len(),
{
    if steps.len() > 0 {
        let init = steps.drop_last();
        lemma_builder_indices_and_counts(init);
        assert forall|j: int|
            0 <= j < steps.len() implies (#[trigger] steps[j] matches BuilderStep::ValueColumn(data) ==> {
                let k = after_steps(steps.take(j)).0.len();
                &&& k == value_column_steps(steps.take(j)).len()
                &&& after_steps(steps.take(j + 1)).0[k as int] == data
                &&& after_steps(steps.take(j + 1)).1 == after_steps(steps.take(j)).1
            }) by {
            lemma_builder_indices_and_counts(steps.take(j));
            assert(steps.take(j + 1).drop_last() =~= steps.take(j));
            assert(steps.take(j + 1).last() == steps[j]);
        }
    }
}

impl GenericInteractionTraceBuilder {
    pub closed spec fn spec_descriptors(&self) -> Seq<ColumnDescriptor> {
        self.descriptors@
    }

    pub closed spec fn spec_columns(&self) -> Seq<Seq<u32>> {
        value_columns_view(self.columns@)
    }

    /// The column counter matches the columns held.
    pub closed spec fn wf(&self) -> bool {
        self.n_value_columns as nat == self.columns@.len()
    }

    /// An empty builder.
    pub fn new() -> (r: Self)
        ensures
            r.wf(),
            r.spec_descriptors() == Seq::<ColumnDescriptor>::empty(),
            r.spec_columns() == Seq::<Seq<u32>>::empty(),
    {
        let r = Self { n_value_columns: 0, descriptors: Vec::new(), columns: Vec::new() };
        assert(r.spec_columns() =~= Seq::<Seq<u32>>::empty());
        r
    }

    /// Adds a value column and gives its index.
    pub fn add_column(&mut self, data: Vec<u32>) -> (r: u32)
        requires
            old(self).wf(),
            old(self).spec_columns().len() < u32::MAX,
        ensures
            final(self).wf(),
            r == old(self).spec_columns().len(),
            final(self).spec_columns() == old(self).spec_columns().push(data@),
            final(self).spec_descriptors() == old(self).spec_descriptors(),
            (final(self).spec_columns(), final(self).spec_descriptors()) == after_step(
                (old(self).spec_columns(), old(self).spec_descriptors()),
                BuilderStep::ValueColumn(data@),
            ),
    {
        let idx = self.n_value_columns;
        let ghost before = self.columns@;
        self.n_value_columns = self.n_value_columns + 1;
        self.columns.push(data);
        proof {
            assert(value_columns_view(self.columns@) =~= value_columns_view(before).push(data@));
        }
        idx
    }

    /// Adds a logup column descriptor.
    pub fn add_logup_column(&mut self, desc: ColumnDescriptor)
        ensures
            final(self).wf() == old(self).wf(),
            final(self).spec_descriptors() == old(self).spec_descriptors().push(desc),
            final(self).spec_columns() == old(self).spec_columns(),
            (final(self).spec_columns(), final(self).spec_descriptors()) == after_step(
                (old(self).spec_columns(), old(self).spec_descriptors()),
                BuilderStep::LogupColumn(desc),
            ),
    {
        self.descriptors.push(desc);
    }

    /// The number of logup columns.
    pub fn n_logup_cols(&self) -> (r: usize)
        ensures
            r == self.spec_descriptors().len(),
    {
        self.descriptors.len()
    }

    /// The number of alpha powers the kernel reads: the largest combine size.
    pub fn max_combine_size(&self) -> (r: u64)
        requires
            descriptor_counts_fit(self.spec_descriptors()),
        ensures
            r == spec_max_combine_size(self.spec_descriptors()),
    {
        if self.descriptors.len() == 0 {
            return 1;
        }
        let first = self.descriptors[0];
        assert(self.descriptors@[0] == first);
        let mut best: u64 = combine_size_exec(first);
        let mut i: usize = 1;
        while i < self.descriptors.len()
            invariant
                1 <= i <= self.descriptors@.len(),
                descriptor_counts_fit(self.descriptors@),
                spec_max_combine_size(self.descriptors@) == max_combine_from(
                    self.descriptors@,
                    i as int,
                    best as int,
                ),
            decreases self.descriptors@.len() - i,
        {
            let d = self.descriptors[i];
            assert(self.descriptors@[i as int] == d);
            let s = combine_size_exec(d);
            if s > best {
                best = s;
            }
            i = i + 1;
        }
        best
    }

    /// The value columns laid end to end (column-major), once each holds
    /// `n_rows` values.
    pub fn flat_values(&self, n_rows: usize) -> (r: Vec<u32>)
        requires
            forall|c: int| 0 <= c < self.spec_columns().len() ==> #[trigger] self.spec_columns()[c].len() == n_rows,
        ensures
            r@ == self.spec_columns().flatten_alt(),
    {
        let mut out: Vec<u32> = Vec::new();
        let mut c: usize = 0;
        while c < self.columns.len()
            invariant
                c <= self.columns@.len(),
                out@ == value_columns_view(self.columns@).take(c as int).flatten_alt(),
            decreases self.columns@.len() - c,
        {
            let column = &self.columns[c];
            let ghost before = out@;
            let mut r: usize = 0;
            while r < column.len()
                invariant
                    r <= column@.len(),
                    out@ == before + column@.take(r as int),
                decreases column@.len() - r,
            {
                out.push(column[r]);
                proof {
                    assert(out@ =~= before + column@.take(r + 1));
                }
                r = r + 1;
            }
            proof {
                let v = value_columns_view(self.columns@);
                assert(column@.take(column@.len() as int) =~= column@);
                assert(v.take(c + 1) =~= v.take(c as int).push(v[c as int]));
                assert(v.take(c + 1).drop_last() =~= v.take(c as int));
            }
            c = c + 1;
        }
        proof {
            let v = value_columns_view(self.columns@);
            assert(v.take(self.columns@.len() as int) =~= v);
        }
        out
    }

    /// The descriptor table as consecutive 8-word descriptors.
    pub fn flat_descriptors(&self) -> (r: Vec<u32>)
        ensures
            r@ == self.spec_descriptors().map_values(|d: ColumnDescriptor| descriptor_words(d)).flatten_alt(),
    {
        let ghost words = self.descriptors@.map_values(|d: ColumnDescriptor| descriptor_words(d));
        let mut out: Vec<u32> = Vec::new();
        let mut i: usize = 0;
        while i < self.descriptors.len()
            invariant
                i <= self.descriptors@.len(),
                words == self.descriptors@.map_values(|d: ColumnDescriptor| descriptor_words(d)),
                out@ == words.take(i as int).flatten_alt(),
            decreases self.descriptors@.len() - i,
        {
            let d = self.descriptors[i].to_u32_array();
            let ghost before = out@;
            let mut k: usize = 0;
            while k < 8
                invariant
                    k <= 8,
                    d@.len() == 8,
                    out@ == before + d@.take(k as int),
                decreases 8 - k,
            {
                out.push(d[k]);
                proof {
                    assert(out@ =~= before + d@.take(k + 1));
                }
                k = k + 1;
            }
            proof {
                assert(d@.take(8) =~= d@);
                assert(words[i as int] == d@);
                assert(words.take(i + 1).drop_last() =~= words.take(i as int));
            }
            i = i + 1;
        }
        proof {
            assert(words.take(self.descriptors@.len() as int) =~= words);
        }
        out
    }
}

fn combine_size_exec(d: ColumnDescriptor) -> (r: u64)
    requires
        d.values0_count < u32::MAX,
        d.values1_count < u32::MAX,
    ensures
        r == combine_size(d),
{
    let s0: u64 = 1 + d.values0_count as u64;
    let s1: u64 = if d.numerator_type != NUMERATOR_SINGLE_NEG { 1 + d.values1_count as u64 } else { 0 };
    if s0 >= s1 { s0 } else { s1 }
}

/// The first `count` alpha powers laid end to end as limbs.
pub fn flat_alpha_powers(lookup_elements: &InteractionLookupElements, count: usize) -> (r: Vec<u32>)
    requires
        count <= lookup_elements.alpha_powers@.len(),
    ensures
        r@ == lookup_elements.alpha_powers@.take(count as int).map_values(|p: [u32; 4]| p@).flatten_alt(),
{
    let ghost words = lookup_elements.alpha_powers@.map_values(|p: [u32; 4]| p@);
    let mut out: Vec<u32> = Vec::new();
    let mut i: usize = 0;
    while i < count
        invariant
            i <= count <= lookup_elements.alpha_powers@.len(),
            words == lookup_elements.alpha_powers@.map_values(|p: [u32; 4]| p@),
            out@ == words.take(i as int).flatten_alt(),
        decreases count - i,
    {
        let p = lookup_elements.alpha_powers[i];
        let ghost before = out@;
        out.push(p[0]);
        out.push(p[1]);
        out.push(p[2]);
        out.push(p[3]);
        proof {
            assert(out@ =~= before + p@);
            assert(words[i as int] == p@);
            assert(words.take(i + 1).drop_last() =~= words.take(i as int));
        }
        i = i + 1;
    }
    proof {
        assert(lookup_elements.alpha_powers@.take(count as int).map_values(|p: [u32; 4]| p@) =~= words.take(
            count as int,
        ));
    }
    out
}

// ---------------------------------------------------------------------------
// Finalising the last logup column.
// ---------------------------------------------------------------------------

/// The sum of `s` in the base field.
pub open spec fn m31_sum(s: Seq<u32>) -> u32
    decreases s.len(),
{
    if s.len() == 0 {
        0
    } else {
        m31_add(m31_sum(s.drop_last()), s.last())
    }
}

/// The claimed sum of a logup column: the sum of each coordinate column.
pub open spec fn logup_claimed_sum(coords: Seq<Seq<u32>>) -> Seq<u32> {
    seq![m31_sum(coords[0]), m31_sum(coords[1]), m31_sum(coords[2]), m31_sum(coords[3])]
}

/// The per-row shift that makes a column of `2^log_size` rows sum to zero:
/// the claimed sum divided by the row count.
pub open spec fn logup_cumsum_shift(claimed: Seq<u32>, log_size: nat) -> Seq<u32> {
    let inv = m31_inverse(pow2(log_size) as u32);
    seq![m31_mul(claimed[0], inv), m31_mul(claimed[1], inv), m31_mul(claimed[2], inv), m31_mul(claimed[3], inv)]
}

/// A coordinate column with `shift` subtracted from each row.
pub open spec fn shifted_column(column: Seq<u32>, shift: u32) -> Seq<u32> {
    column.map_values(|x: u32| m31_sub(x, shift))
}

fn column_sum(column: &Vec<u32>) -> (r: u32)
    requires
        forall|i: int| 0 <= i < column@.len() ==> #[trigger] column@[i] < M31_P,
    ensures
        r == m31_sum(column@),
        r < M31_P,
{
    let mut acc: u32 = 0;
    let mut i: usize = 0;
    while i < column.len()
        invariant
            i <= column@.len(),
            forall|j: int| 0 <= j < column@.len() ==> #[trigger] column@[j] < M31_P,
            acc == m31_sum(column@.take(i as int)),
            acc < M31_P,
        decreases column@.len() - i,
    {
        assert(column@.take(i + 1).drop_last() =~= column@.take(i as int));
        acc = base_add(acc, column[i]);
        i = i + 1;
    }
    assert(column@.take(column@.len() as int) =~= column@);
    acc
}

fn shift_column(column: &Vec<u32>, shift: u32) -> (r: Vec<u32>)
    requires
        forall|i: int| 0 <= i < column@.len() ==> #[trigger] column@[i] < M31_P,
        shift < M31_P,
    ensures
        r@ == shifted_column(column@, shift),
{
    let mut out: Vec<u32> = Vec::new();
    let mut i: usize = 0;
    while i < column.len()
        invariant
            i <= column@.len(),
            shift < M31_P,
            forall|j: int| 0 <= j < column@.len() ==> #[trigger] column@[j] < M31_P,
            out@ == shifted_column(column@, shift).take(i as int),
        decreases column@.len() - i,
    {
        out.push(base_sub(column[i], shift));
        assert(out@ =~= shifted_column(column@, shift).take(i + 1));
        i = i + 1;
    }
    assert(shifted_column(column@, shift).take(column@.len() as int) =~= shifted_column(column@, shift));
    out
}

/// Shifting every cell of a column down by `s` lowers its sum by
/// `len * s`.
proof fn lemma_shifted_sum(col: Seq<u32>, s: u32)
    requires
        forall|i: int| 0 <= i < col.len() ==> #[trigger] col[i] < M31_P,
        s < M31_P,
    ensures
        m31_sum(shifted_column(col, s)) as int == (m31_sum(col) as int - col.len() * s) % (M31_P as int),
    decreases col.len(),
{
    let p = M31_P as int;
    if col.len() == 0 {
        assert(shifted_column(col, s) =~= Seq::<u32>::empty());
    } else {
        let pre = col.drop_last();
        lemma_shifted_sum(pre, s);
        assert(shifted_column(col, s).drop_last() =~= shifted_column(pre, s));
        let sp = m31_sum(pre) as int;
        let l = col.last() as int;
        let n = pre.len() as int;
        let x = sp - n * s;
        let y = l + p - s;
        vstd::arithmetic::div_mod::lemma_add_mod_noop(x, y, p);
        vstd::arithmetic::div_mod::lemma_mod_twice(x, p);
        vstd::arithmetic::div_mod::lemma_mod_twice(y, p);
        assert(x + y == (sp + l - (n + 1) * s) + p) by (nonlinear_arith)
            requires
                x == sp - n * s,
                y == l + p - s,
        ;
        vstd::arithmetic::div_mod::lemma_mod_multiples_vanish(1, sp + l - (n + 1) * s, p);
        vstd::arithmetic::div_mod::lemma_add_mod_noop(sp + l, -((n + 1) * s), p);
        vstd::arithmetic::div_mod::lemma_add_mod_noop((sp + l) % p, -((n + 1) * s), p);
        vstd::arithmetic::div_mod::lemma_mod_twice(sp + l, p);
        assert(m31_sum(col) as int == (sp + l) % p);
    }
}

proof fn lemma_m31_sum_reduced(col: Seq<u32>)
    ensures
        m31_sum(col) < M31_P,
    decreases col.len(),
{
    if col.len() > 0 {
        lemma_m31_sum_reduced(col.drop_last());
    }
}

/// Subtracting `n` times the sum divided by `n` leaves nothing.
proof fn lemma_shift_cancels(sum: int, n: int, inv: int)
    requires
        0 <= sum < M31_P,
        (n * inv) % (M31_P as int) == 1,
    ensures
        (sum - n * ((sum * inv) % (M31_P as int))) % (M31_P as int) == 0,
{
    let p = M31_P as int;
    vstd::arithmetic::div_mod::lemma_mul_mod_noop_right(n, sum * inv, p);
    assert(n * (sum * inv) == sum * (n * inv)) by (nonlinear_arith);
    vstd::arithmetic::div_mod::lemma_mul_mod_noop_right(sum, n * inv, p);
    vstd::arithmetic::div_mod::lemma_small_mod(sum as nat, p as nat);
    let x = n * ((sum * inv) % p);
    assert(x % p == sum);
    vstd::arithmetic::div_mod::lemma_sub_mod_noop(sum, x, p);
}

/// Prepares the last logup column of a trace of `2^log_size` rows for its
/// prefix sum, from its four coordinate columns: the claimed sum is the sum
/// of each coordinate, and every row is shifted down by the claimed sum
/// divided by the row count, so that each shifted coordinate sums to zero.
/// The inclusive prefix sum of each shifted coordinate, in coset order,
/// completes the column.
pub fn shift_last_logup_column(coords: &[Vec<u32>; 4], log_size: u32) -> (r: (
    [Vec<u32>; 4],
    MetalSecureFieldValueV1,
))
    requires
        log_size <= 30,
        forall|c: int| 0 <= c < 4 ==> (#[trigger] coords@[c])@.len() == pow2(log_size as nat),
        forall|c: int, i: int| 0 <= c < 4 && 0 <= i < coords@[c]@.len() ==> #[trigger] coords@[c]@[i] < M31_P,
    ensures
        ({
            let views = coords@.map_values(|v: Vec<u32>| v@);
            let claimed = logup_claimed_sum(views);
            let shift = logup_cumsum_shift(claimed, log_size as nat);
            &&& r.1.limbs@ == claimed
            &&& forall|c: int| 0 <= c < 4 ==> (#[trigger] r.0@[c])@ == shifted_column(views[c], shift[c])
        }),
        forall|c: int| 0 <= c < 4 ==> m31_sum((#[trigger] r.0@[c])@) == 0,
{
    let ghost views = coords@.map_values(|v: Vec<u32>| v@);
    assert(forall|c: int| 0 <= c < 4 ==> #[trigger] views[c] == coords@[c]@);
    proof {
        vstd::arithmetic::power2::lemma2_to64();
        if log_size < 30 {
            vstd::arithmetic::power2::lemma_pow2_strictly_increases(log_size as nat, 30);
        }
    }
    let shift_amount = log_size as usize;
    let rows: usize = 1usize << shift_amount;
    assert(rows == pow2(log_size as nat)) by {
        vstd::bits::lemma_usize_shl_is_mul(1, shift_amount);
    }
    let s0 = column_sum(&coords[0]);
    let s1 = column_sum(&coords[1]);
    let s2 = column_sum(&coords[2]);
    let s3 = column_sum(&coords[3]);
    let inv = base_inverse(rows as u32);
    assert((rows * inv) % (M31_P as int) == 1);
    let shift = [base_mul(s0, inv), base_mul(s1, inv), base_mul(s2, inv), base_mul(s3, inv)];
    let c0 = shift_column(&coords[0], shift[0]);
    let c1 = shift_column(&coords[1], shift[1]);
    let c2 = shift_column(&coords[2], shift[2]);
    let c3 = shift_column(&coords[3], shift[3]);
    let claimed = MetalSecureFieldValueV1 { limbs: [s0, s1, s2, s3] };
    let ghost want = logup_cumsum_shift(logup_claimed_sum(views), log_size as nat);
    assert(claimed.limbs@ =~= logup_claimed_sum(views));
    assert(shift@ =~= want);
    let out = [c0, c1, c2, c3];
    assert(out@[0]@ == shifted_column(views[0], want[0]));
    assert(out@[1]@ == shifted_column(views[1], want[1]));
    assert(out@[2]@ == shifted_column(views[2], want[2]));
    assert(out@[3]@ == shifted_column(views[3], want[3]));
    proof {
        assert forall|c: int| 0 <= c < 4 implies m31_sum((#[trigger] out@[c])@) == 0 by {
            let col = views[c];
            let sum = m31_sum(col);
            assert(sum < M31_P) by {
                lemma_m31_sum_reduced(col);
            }
            lemma_shifted_sum(col, want[c]);
            assert(want[c] as int == (sum as int * inv as int) % (M31_P as int));
            lemma_shift_cancels(sum as int, rows as int, inv as int);
        }
    }
    (out, claimed)
}

// ---------------------------------------------------------------------------
// Running sums in coset order.
// ---------------------------------------------------------------------------

/// The circle-domain index of position `k` of the coset ordering of a
/// domain of `n` points: even positions walk the first half, odd ones the
/// second half backwards.
pub open spec fn coset_to_circle_index(k: nat, n: nat) -> nat {
    if k % 2 == 0 {
        k / 2
    } else {
        ((2 * n - k) / 2) as nat
    }
}

/// The coset position of circle-domain index `c` of a domain of `n` points.
pub open spec fn circle_to_coset_index(c: nat, n: nat) -> nat {
    if c < n / 2 {
        2 * c
    } else {
        (2 * (n - 1 - c) + 1) as nat
    }
}

/// The values of a column in bit-reversed circle-domain order, read in
/// coset order.
pub open spec fn coset_order_values(column: Seq<u32>, log_size: nat) -> Seq<u32> {
    Seq::new(
        column.len(),
        |k: int| column[bit_reverse_spec(coset_to_circle_index(k as nat, column.len()), log_size) as int],
    )
}

/// The inclusive running sum, in coset order, of a column of `2^log_size`
/// values given in bit-reversed circle-domain order, written back in that
/// order.
pub open spec fn inclusive_prefix_sum_spec(column: Seq<u32>, log_size: nat) -> Seq<u32> {
    Seq::new(
        column.len(),
        |p: int| m31_sum(
            coset_order_values(column, log_size).take(
                circle_to_coset_index(bit_reverse_spec(p as nat, log_size), column.len()) as int + 1,
            ),
        ),
    )
}

proof fn lemma_coset_indices_in_range(k: nat, c: nat, n: nat)
    requires
        n >= 2,
        n % 2 == 0,
        k < n,
        c < n,
    ensures
        coset_to_circle_index(k, n) < n,
        circle_to_coset_index(c, n) < n,
{
}

/// The inclusive running sum, in coset order, of a column of `2^log_size`
/// values given in bit-reversed circle-domain order, written back in that
/// order.
pub fn inclusive_prefix_sum(column: &Vec<u32>, log_size: u32) -> (r: Vec<u32>)
    requires
        1 <= log_size <= 30,
        column@.len() == pow2(log_size as nat),
        forall|i: int| 0 <= i < column@.len() ==> #[trigger] column@[i] < M31_P,
    ensures
        r@ == inclusive_prefix_sum_spec(column@, log_size as nat),
{
    let n = column.len();
    let ghost lg = log_size as nat;
    proof {
        vstd::arithmetic::power2::lemma_pow2_unfold(lg);
        vstd::arithmetic::power2::lemma_pow2_pos((lg - 1) as nat);
        vstd::arithmetic::power2::lemma2_to64();
        if lg < 30 {
            vstd::arithmetic::power2::lemma_pow2_strictly_increases(lg, 30);
        }
    }
    let ghost cos = coset_order_values(column@, lg);
    let mut sums: Vec<u32> = Vec::new();
    let mut acc: u32 = 0;
    let mut k: usize = 0;
    while k < n
        invariant
            k <= n,
            n == column@.len(),
            n == pow2(lg),
            n % 2 == 0,
            2 <= n <= 0x4000_0000,
            lg == log_size,
            1 <= log_size <= 30,
            cos == coset_order_values(column@, lg),
            forall|i: int| 0 <= i < column@.len() ==> #[trigger] column@[i] < M31_P,
            acc == m31_sum(cos.take(k as int)),
            acc < M31_P,
            sums@.len() == k,
            forall|j: int| 0 <= j < k ==> #[trigger] sums@[j] == m31_sum(cos.take(j + 1)),
        decreases n - k,
    {
        let c = if k % 2 == 0 { k / 2 } else { (2 * n - k) / 2 };
        proof {
            lemma_coset_indices_in_range(k as nat, 0, n as nat);
            assert(c == coset_to_circle_index(k as nat, n as nat));
            lemma_bit_reverse_below(c as nat, lg);
        }
        let p = bit_reverse_index(c, log_size);
        assert(cos[k as int] == column@[p as int]);
        proof {
            assert(cos.take(k + 1).drop_last() =~= cos.take(k as int));
        }
        acc = base_add(acc, column[p]);
        sums.push(acc);
        k = k + 1;
    }
    let mut out: Vec<u32> = Vec::new();
    let mut q: usize = 0;
    while q < n
        invariant
            q <= n,
            n == column@.len(),
            n == pow2(lg),
            n % 2 == 0,
            n >= 2,
            lg == log_size,
            1 <= log_size <= 30,
            cos == coset_order_values(column@, lg),
            sums@.len() == n,
            forall|j: int| 0 <= j < n ==> #[trigger] sums@[j] == m31_sum(cos.take(j + 1)),
            out@ == inclusive_prefix_sum_spec(column@, lg).take(q as int),
        decreases n - q,
    {
        proof {
            lemma_bit_reverse_below(q as nat, lg);
        }
        let c = bit_reverse_index(q, log_size);
        let k = if c < n / 2 { 2 * c } else { 2 * (n - 1 - c) + 1 };
        proof {
            lemma_coset_indices_in_range(0, c as nat, n as nat);
            assert(k == circle_to_coset_index(c as nat, n as nat));
        }
        out.push(sums[k]);
        proof {
            assert(out@ =~= inclusive_prefix_sum_spec(column@, lg).take(q + 1));
        }
        q = q + 1;
    }
    proof {
        assert(inclusive_prefix_sum_spec(column@, lg).take(n as int) =~= inclusive_prefix_sum_spec(column@, lg));
    }
    out
}

/// Finishes the last logup column of an interaction trace of `2^log_size`
/// rows: each coordinate is shifted so that it sums to zero, then replaced
/// by its running sum in coset order; gives the claimed sum too.
pub fn finalize_last_logup_column(coords: &[Vec<u32>; 4], log_size: u32) -> (r: ([Vec<u32>; 4], MetalSecureFieldValueV1))
    requires
        1 <= log_size <= 30,
        forall|c: int| 0 <= c < 4 ==> (#[trigger] coords@[c])@.len() == pow2(log_size as nat),
        forall|c: int, i: int| 0 <= c < 4 && 0 <= i < coords@[c]@.len() ==> #[trigger] coords@[c]@[i] < M31_P,
    ensures
        ({
            let views = coords@.map_values(|v: Vec<u32>| v@);
            let claimed = logup_claimed_sum(views);
            let shift = logup_cumsum_shift(claimed, log_size as nat);
            &&& r.1.limbs@ == claimed
            &&& forall|c: int|
                0 <= c < 4 ==> (#[trigger] r.0@[c])@ == inclusive_prefix_sum_spec(
                    shifted_column(views[c], shift[c]),
                    log_size as nat,
                )
        }),
{
    let (shifted, claimed) = shift_last_logup_column(coords, log_size);
    proof {
        assert forall|c: int, i: int| 0 <= c < 4 && 0 <= i < shifted@[c]@.len() implies #[trigger] shifted@[c]@[i]
            < M31_P by {
            assert(shifted@[c]@[i] == m31_sub(coords@[c]@[i], logup_cumsum_shift(
                logup_claimed_sum(coords@.map_values(|v: Vec<u32>| v@)),
                log_size as nat,
            )[c]));
        }
    }
    let p0 = inclusive_prefix_sum(&shifted[0], log_size);
    let p1 = inclusive_prefix_sum(&shifted[1], log_size);
    let p2 = inclusive_prefix_sum(&shifted[2], log_size);
    let p3 = inclusive_prefix_sum(&shifted[3], log_size);
    let out = [p0, p1, p2, p3];
    assert(out@[0]@ == p0@);
    assert(out@[1]@ == p1@);
    assert(out@[2]@ == p2@);
    assert(out@[3]@ == p3@);
    (out, claimed)
}

// ---------------------------------------------------------------------------
// Staging the fixed-shape memory interaction traces.
// ---------------------------------------------------------------------------

/// The relation ids the big-memory trace reads: the eight range-check ids,
/// then the memory-id-to-big id.
pub fn big_memory_relation_ids(ids: &InteractionRelationIds) -> (r: [u32; 9])
    ensures
        r@ == ids.range_check_9_9_ids@.push(ids.memory_id_to_big_id),
{
    let r = [
        ids.range_check_9_9_ids[0],
        ids.range_check_9_9_ids[1],
        ids.range_check_9_9_ids[2],
        ids.range_check_9_9_ids[3],
        ids.range_check_9_9_ids[4],
        ids.range_check_9_9_ids[5],
        ids.range_check_9_9_ids[6],
        ids.range_check_9_9_ids[7],
        ids.memory_id_to_big_id,
    ];
    assert(r@ =~= ids.range_check_9_9_ids@.push(ids.memory_id_to_big_id));
    r
}

/// The relation ids the small-memory trace reads: the first four
/// range-check ids, then the memory-id-to-big id.
pub fn small_memory_relation_ids(ids: &InteractionRelationIds) -> (r: [u32; 5])
    ensures
        r@ == ids.range_check_9_9_ids@.take(4).push(ids.memory_id_to_big_id),
{
    let r = [
        ids.range_check_9_9_ids[0],
        ids.range_check_9_9_ids[1],
        ids.range_check_9_9_ids[2],
        ids.range_check_9_9_ids[3],
        ids.memory_id_to_big_id,
    ];
    assert(r@ =~= ids.range_check_9_9_ids@.take(4).push(ids.memory_id_to_big_id));
    r
}

/// Cell `i` of a column padded with zeros to `n_rows` cells.
pub open spec fn padded_cell(column: Seq<u32>, i: int) -> u32 {
    if i < column.len() {
        column[i]
    } else {
        0
    }
}

/// Lays `columns` out column-major in slots of `n_rows` cells each; a
/// shorter column leaves zeros at the end of its slot.
pub fn stage_columns_zero_padded(columns: &[Vec<u32>], n_rows: usize) -> (r: Vec<u32>)
    requires
        columns@.len() * n_rows <= usize::MAX,
        forall|c: int| 0 <= c < columns@.len() ==> (#[trigger] columns@[c])@.len() <= n_rows,
    ensures
        r@.len() == columns@.len() * n_rows,
        forall|c: int, i: int|
            0 <= c < columns@.len() && 0 <= i < n_rows ==> #[trigger] r@[c * n_rows + i] == padded_cell(
                columns@[c]@,
                i,
            ),
{
    let mut out: Vec<u32> = Vec::new();
    let mut c: usize = 0;
    while c < columns.len()
        invariant
            c <= columns@.len(),
            columns@.len() * n_rows <= usize::MAX,
            forall|d: int| 0 <= d < columns@.len() ==> (#[trigger] columns@[d])@.len() <= n_rows,
            out@.len() == c * n_rows,
            forall|d: int, i: int|
                0 <= d < c && 0 <= i < n_rows ==> #[trigger] out@[d * n_rows + i] == padded_cell(columns@[d]@, i),
        decreases columns@.len() - c,
    {
        let column = &columns[c];
        let ghost base = out@;
        proof {
            assert(c * n_rows + n_rows == (c + 1) * n_rows) by (nonlinear_arith);
            assert((c + 1) * n_rows <= columns@.len() * n_rows) by (nonlinear_arith)
                requires
                    c + 1 <= columns@.len(),
            ;
        }
        let mut i: usize = 0;
        while i < n_rows
            invariant
                i <= n_rows,
                column@.len() <= n_rows,
                out@.len() == base.len() + i,
                forall|j: int| 0 <= j < base.len() ==> out@[j] == base[j],
                forall|j: int| 0 <= j < i ==> #[trigger] out@[base.len() + j] == padded_cell(column@, j),
            decreases n_rows - i,
        {
            if i < column.len() {
                out.push(column[i]);
            } else {
                out.push(0);
            }
            i = i + 1;
        }
        proof {
            assert forall|d: int, j: int| 0 <= d < c + 1 && 0 <= j < n_rows implies #[trigger] out@[d * n_rows + j]
                == padded_cell(columns@[d]@, j) by {
                if d < c {
                    assert(d * n_rows + j < c * n_rows) by (nonlinear_arith)
                        requires
                            d < c,
                            j < n_rows,
                    ;
                    assert(out@[d * n_rows + j] == base[d * n_rows + j]);
                } else {
                    assert(out@[base.len() + j] == padded_cell(column@, j));
                }
            }
        }
        c = c + 1;
    }
    out
}

/// Splits the device's output into `n_columns` columns of `n_rows` cells,
/// in order.
pub fn split_device_columns(raw: &[u32], n_rows: usize, n_columns: usize) -> (r: Vec<Vec<u32>>)
    requires
        n_columns * n_rows <= raw@.len(),
    ensures
        r@.len() == n_columns,
        forall|c: int|
            0 <= c < n_columns ==> (#[trigger] r@[c])@ == raw@.subrange(c * n_rows, c * n_rows + n_rows),
{
    let len = raw.len();
    let mut out: Vec<Vec<u32>> = Vec::new();
    let mut c: usize = 0;
    while c < n_columns
        invariant
            c <= n_columns,
            len == raw@.len(),
            n_columns * n_rows <= raw@.len(),
            out@.len() == c,
            forall|d: int| 0 <= d < c ==> (#[trigger] out@[d])@ == raw@.subrange(d * n_rows, d * n_rows + n_rows),
        decreases n_columns - c,
    {
        proof {
            assert((c + 1) * n_rows <= n_columns * n_rows) by (nonlinear_arith)
                requires
                    c + 1 <= n_columns,
            ;
            assert(c * n_rows + n_rows == (c + 1) * n_rows) by (nonlinear_arith);
            assert(c * n_rows <= len);
        }
        let start = c * n_rows;
        let mut column: Vec<u32> = Vec::new();
        let mut i: usize = 0;
        while i < n_rows
            invariant
                i <= n_rows,
                len == raw@.len(),
                start + n_rows <= raw@.len(),
                column@ == raw@.subrange(start as int, start + i),
            decreases n_rows - i,
        {
            column.push(raw[start + i]);
            assert(column@ =~= raw@.subrange(start as int, start + i + 1));
            i = i + 1;
        }
        out.push(column);
        c = c + 1;
    }
    out
}

/// The alpha powers an opcode trace uploads: as many as its largest
/// combination needs, or all there are when there are fewer.
pub fn opcode_alpha_powers(lookup_elements: &InteractionLookupElements, max_combine_size: usize) -> (r: Vec<u32>)
    ensures
        ({
            let n = if max_combine_size < lookup_elements.alpha_powers@.len() {
                max_combine_size as int
            } else {
                lookup_elements.alpha_powers@.len() as int
            };
            r@ == lookup_elements.alpha_powers@.take(n).map_values(|p: [u32; 4]| p@).flatten_alt()
        }),
{
    let n = if max_combine_size < lookup_elements.alpha_powers.len() {
        max_combine_size
    } else {
        lookup_elements.alpha_powers.len()
    };
    flat_alpha_powers(lookup_elements, n)
}

/// Lookup elements as the device reads them: the limbs of `z` and of each
/// alpha power.
pub fn extract_lookup_elements_for_gpu(
    z: MetalSecureFieldValueV1,
    alpha_powers: &[MetalSecureFieldValueV1],
) -> (r: InteractionLookupElements)
    ensures
        r.z == z.limbs,
        r.alpha_powers@ == alpha_powers@.map_values(|v: MetalSecureFieldValueV1| v.limbs),
{
    let mut powers: Vec<[u32; 4]> = Vec::new();
    let mut i: usize = 0;
    while i < alpha_powers.len()
        invariant
            i <= alpha_powers@.len(),
            powers@ == alpha_powers@.take(i as int).map_values(|v: MetalSecureFieldValueV1| v.limbs),
        decreases alpha_powers@.len() - i,
    {
        powers.push(alpha_powers[i].limbs);
        assert(powers@ =~= alpha_powers@.take(i + 1).map_values(|v: MetalSecureFieldValueV1| v.limbs));
        i = i + 1;
    }
    assert(alpha_powers@.take(alpha_powers@.len() as int) =~= alpha_powers@);
    InteractionLookupElements { alpha_powers: powers, z: z.limbs }
}

// ---------------------------------------------------------------------------
// Opcode interaction traces.
// ---------------------------------------------------------------------------

/// Relation ids of the opcode lookups.
pub const REL_VERIFY_INSTRUCTION: u32 = 1719106205u32;
pub const REL_MEMORY_ADDR_TO_ID: u32 = 1444891767u32;
pub const REL_MEMORY_ID_TO_BIG: u32 = 1662111297u32;
pub const REL_OPCODES: u32 = 428564188u32;

/// Where one logup column of an opcode finds its lookups among the fields
/// the opcode's lookup kernel writes: each group starts with its relation
/// id, and counts include it.
#[derive(Copy, Clone, Debug, PartialEq, Eq, Structural)]
pub struct LogupColumnLayout {
    pub values0_start: usize,
    pub values0_count: usize,
    pub values1_start: usize,
    pub values1_count: usize,
    pub numerator_type: u32,
    pub relation_id0: u32,
    pub relation_id1: u32,
}

/// The descriptor of a layout when the output fields are the value columns
/// in order: the values start one field after each relation id, and a
/// single-denominator column has no second group.
pub open spec fn layout_descriptor(l: LogupColumnLayout) -> ColumnDescriptor {
    let single = l.numerator_type == NUMERATOR_SINGLE_NEG;
    ColumnDescriptor {
        values0_offset: (l.values0_start + 1) as u32,
        values0_count: (l.values0_count - 1) as u32,
        values1_offset: if single { 0 } else { (l.values1_start + 1) as u32 },
        values1_count: if single { 0 } else { (l.values1_count - 1) as u32 },
        relation_id0: l.relation_id0,
        relation_id1: l.relation_id1,
        numerator_type: l.numerator_type,
        weight_offset: 0,
    }
}

/// A layout reads only fields among `n_fields`, and each group it reads
/// holds its relation id.
pub open spec fn layout_fits(l: LogupColumnLayout, n_fields: nat) -> bool {
    &&& l.values0_start + 1 < n_fields
    &&& 1 <= l.values0_count <= u32::MAX + 1
    &&& l.numerator_type != NUMERATOR_SINGLE_NEG ==> {
        &&& l.values1_start + 1 < n_fields
        &&& 1 <= l.values1_count <= u32::MAX + 1
    }
}

/// Builds the generic interaction-trace kernel's inputs for an opcode: each
/// output field of the lookup kernel becomes a value column, in order, and
/// each logup column layout becomes a descriptor over them.
pub fn opcode_interaction_trace_builder(
    output_fields: Vec<Vec<u32>>,
    layouts: &[LogupColumnLayout],
) -> (r: GenericInteractionTraceBuilder)
    requires
        output_fields@.len() <= u32::MAX,
        forall|k: int| 0 <= k < layouts@.len() ==> layout_fits(#[trigger] layouts@[k], output_fields@.len()),
    ensures
        r.wf(),
        r.spec_columns() == value_columns_view(output_fields@),
        r.spec_descriptors() == layouts@.map_values(|l: LogupColumnLayout| layout_descriptor(l)),
{
    let n_fields = output_fields.len();
    let ghost fields = value_columns_view(output_fields@);
    let mut builder = GenericInteractionTraceBuilder::new();
    let mut rest = output_fields;
    // Take the fields out from the back, then add them from the front.
    let mut reversed: Vec<Vec<u32>> = Vec::new();
    while rest.len() > 0
        invariant
            value_columns_view(rest@) + value_columns_view(reversed@).reverse() == fields,
        decreases rest@.len(),
    {
        let ghost before_rest = rest@;
        let ghost before_rev = reversed@;
        let last = rest.pop().unwrap();
        reversed.push(last);
        proof {
            assert(value_columns_view(before_rest) =~= value_columns_view(rest@).push(last@));
            assert(value_columns_view(reversed@) =~= value_columns_view(before_rev).push(last@));
            assert(value_columns_view(reversed@).reverse() =~= seq![last@] + value_columns_view(before_rev).reverse());
            assert(value_columns_view(rest@) + value_columns_view(reversed@).reverse() =~= value_columns_view(before_rest)
                + value_columns_view(before_rev).reverse());
        }
    }
    proof {
        assert(value_columns_view(rest@) =~= Seq::<Seq<u32>>::empty());
        assert(value_columns_view(reversed@).reverse() =~= fields);
    }
    while reversed.len() > 0
        invariant
            builder.wf(),
            builder.spec_descriptors() == Seq::<ColumnDescriptor>::empty(),
            builder.spec_columns() + value_columns_view(reversed@).reverse() == fields,
            fields.len() == n_fields,
            n_fields <= u32::MAX,
        decreases reversed@.len(),
    {
        let ghost before_rev = reversed@;
        let ghost before_cols = builder.spec_columns();
        let column = reversed.pop().unwrap();
        proof {
            assert(value_columns_view(before_rev) =~= value_columns_view(reversed@).push(column@));
            assert(value_columns_view(before_rev).reverse() =~= seq![column@] + value_columns_view(reversed@).reverse());
            assert(before_cols.len() < fields.len());
        }
        builder.add_column(column);
        proof {
            assert(builder.spec_columns() + value_columns_view(reversed@).reverse() =~= before_cols + value_columns_view(
                before_rev,
            ).reverse());
        }
    }
    proof {
        assert(builder.spec_columns() =~= fields);
    }
    let mut k: usize = 0;
    while k < layouts.len()
        invariant
            k <= layouts@.len(),
            builder.wf(),
            builder.spec_columns() == fields,
            fields.len() == n_fields,
            forall|j: int| 0 <= j < layouts@.len() ==> layout_fits(#[trigger] layouts@[j], n_fields as nat),
            builder.spec_descriptors() == layouts@.take(k as int).map_values(|l: LogupColumnLayout| layout_descriptor(l)),
        decreases layouts@.len() - k,
    {
        let l = layouts[k];
        assert(layout_fits(l, n_fields as nat));
        let single = l.numerator_type == NUMERATOR_SINGLE_NEG;
        let desc = ColumnDescriptor {
            values0_offset: (l.values0_start + 1) as u32,
            values0_count: (l.values0_count - 1) as u32,
            values1_offset: if single { 0 } else { (l.values1_start + 1) as u32 },
            values1_count: if single { 0 } else { (l.values1_count - 1) as u32 },
            relation_id0: l.relation_id0,
            relation_id1: l.relation_id1,
            numerator_type: l.numerator_type,
            weight_offset: 0,
        };
        builder.add_logup_column(desc);
        proof {
            assert(layouts@.take(k + 1).map_values(|l: LogupColumnLayout| layout_descriptor(l)) =~= layouts@.take(
                k as int,
            ).map_values(|l: LogupColumnLayout| layout_descriptor(l)).push(layout_descriptor(l)));
        }
        k = k + 1;
    }
    proof {
        assert(layouts@.take(layouts@.len() as int) =~= layouts@);
    }
    builder
}

/// A logup column whose numerator sums the two groups' denominators.
pub open spec fn pair_sum(s0: usize, c0: usize, s1: usize, c1: usize, rel0: u32, rel1: u32) -> LogupColumnLayout {
    LogupColumnLayout {
        values0_start: s0,
        values0_count: c0,
        values1_start: s1,
        values1_count: c1,
        numerator_type: NUMERATOR_PAIR_SUM,
        relation_id0: rel0,
        relation_id1: rel1,
    }
}

/// A logup column whose numerator weighs the first denominator by the row
/// enabler.
pub open spec fn enabler_weighted(s0: usize, c0: usize, s1: usize, c1: usize, rel0: u32, rel1: u32) -> LogupColumnLayout {
    LogupColumnLayout {
        values0_start: s0,
        values0_count: c0,
        values1_start: s1,
        values1_count: c1,
        numerator_type: NUMERATOR_ENABLER_WEIGHTED,
        relation_id0: rel0,
        relation_id1: rel1,
    }
}

/// A logup column with a single denominator and the negated enabler as
/// numerator.
pub open spec fn single_neg(s0: usize, c0: usize, rel0: u32) -> LogupColumnLayout {
    LogupColumnLayout {
        values0_start: s0,
        values0_count: c0,
        values1_start: 0,
        values1_count: 0,
        numerator_type: NUMERATOR_SINGLE_NEG,
        relation_id0: rel0,
        relation_id1: 0,
    }
}

/// The lookup fields of `ret_opcode` (82 of them) and its four logup
/// columns: instruction and address, id-to-big and address, id-to-big and
/// opcode (enabled rows), then the opcode alone.
pub fn ret_opcode_logup_layout() -> (r: (usize, Vec<LogupColumnLayout>))
    ensures
        r.0 == 82,
        forall|k: int| 0 <= k < r.1@.len() ==> layout_fits(#[trigger] r.1@[k], r.0 as nat),
        r.1@ == seq![
            pair_sum(0, 8, 8, 3, REL_VERIFY_INSTRUCTION, REL_MEMORY_ADDR_TO_ID),
            pair_sum(11, 30, 41, 3, REL_MEMORY_ID_TO_BIG, REL_MEMORY_ADDR_TO_ID),
            enabler_weighted(44, 30, 74, 4, REL_MEMORY_ID_TO_BIG, REL_OPCODES),
            single_neg(78, 4, REL_OPCODES),
        ],
{
    let layouts = vec![
        LogupColumnLayout { values0_start: 0, values0_count: 8, values1_start: 8, values1_count: 3, numerator_type: NUMERATOR_PAIR_SUM, relation_id0: REL_VERIFY_INSTRUCTION, relation_id1: REL_MEMORY_ADDR_TO_ID },
        LogupColumnLayout { values0_start: 11, values0_count: 30, values1_start: 41, values1_count: 3, numerator_type: NUMERATOR_PAIR_SUM, relation_id0: REL_MEMORY_ID_TO_BIG, relation_id1: REL_MEMORY_ADDR_TO_ID },
        LogupColumnLayout { values0_start: 44, values0_count: 30, values1_start: 74, values1_count: 4, numerator_type: NUMERATOR_ENABLER_WEIGHTED, relation_id0: REL_MEMORY_ID_TO_BIG, relation_id1: REL_OPCODES },
        LogupColumnLayout { values0_start: 78, values0_count: 4, values1_start: 0, values1_count: 0, numerator_type: NUMERATOR_SINGLE_NEG, relation_id0: REL_OPCODES, relation_id1: 0 },
    ];
    assert(layouts@ =~= seq![
        pair_sum(0, 8, 8, 3, REL_VERIFY_INSTRUCTION, REL_MEMORY_ADDR_TO_ID),
        pair_sum(11, 30, 41, 3, REL_MEMORY_ID_TO_BIG, REL_MEMORY_ADDR_TO_ID),
        enabler_weighted(44, 30, 74, 4, REL_MEMORY_ID_TO_BIG, REL_OPCODES),
        single_neg(78, 4, REL_OPCODES),
    ]);
    (82, layouts)
}

/// The lookup fields of `jump_opcode_rel_imm` (49 of them) and its three
/// logup columns.
pub fn jump_opcode_rel_imm_logup_layout() -> (r: (usize, Vec<LogupColumnLayout>))
    ensures
        r.0 == 49,
        forall|k: int| 0 <= k < r.1@.len() ==> layout_fits(#[trigger] r.1@[k], r.0 as nat),
        r.1@ == seq![
            pair_sum(0, 8, 8, 3, REL_VERIFY_INSTRUCTION, REL_MEMORY_ADDR_TO_ID),
            enabler_weighted(11, 30, 41, 4, REL_MEMORY_ID_TO_BIG, REL_OPCODES),
            single_neg(45, 4, REL_OPCODES),
        ],
{
    let layouts = vec![
        LogupColumnLayout { values0_start: 0, values0_count: 8, values1_start: 8, values1_count: 3, numerator_type: NUMERATOR_PAIR_SUM, relation_id0: REL_VERIFY_INSTRUCTION, relation_id1: REL_MEMORY_ADDR_TO_ID },
        LogupColumnLayout { values0_start: 11, values0_count: 30, values1_start: 41, values1_count: 4, numerator_type: NUMERATOR_ENABLER_WEIGHTED, relation_id0: REL_MEMORY_ID_TO_BIG, relation_id1: REL_OPCODES },
        LogupColumnLayout { values0_start: 45, values0_count: 4, values1_start: 0, values1_count: 0, numerator_type: NUMERATOR_SINGLE_NEG, relation_id0: REL_OPCODES, relation_id1: 0 },
    ];
    assert(layouts@ =~= seq![
        pair_sum(0, 8, 8, 3, REL_VERIFY_INSTRUCTION, REL_MEMORY_ADDR_TO_ID),
        enabler_weighted(11, 30, 41, 4, REL_MEMORY_ID_TO_BIG, REL_OPCODES),
        single_neg(45, 4, REL_OPCODES),
    ]);
    (49, layouts)
}

/// The lookup fields of `assert_eq_opcode_double_deref` (55 of them) and
/// its four logup columns.
pub fn assert_eq_double_deref_logup_layout() -> (r: (usize, Vec<LogupColumnLayout>))
    ensures
        r.0 == 55,
        forall|k: int| 0 <= k < r.1@.len() ==> layout_fits(#[trigger] r.1@[k], r.0 as nat),
        r.1@ == seq![
            pair_sum(0, 8, 8, 3, REL_VERIFY_INSTRUCTION, REL_MEMORY_ADDR_TO_ID),
            pair_sum(11, 30, 41, 3, REL_MEMORY_ID_TO_BIG, REL_MEMORY_ADDR_TO_ID),
            enabler_weighted(44, 3, 47, 4, REL_MEMORY_ADDR_TO_ID, REL_OPCODES),
            single_neg(51, 4, REL_OPCODES),
        ],
{
    let layouts = vec![
        LogupColumnLayout { values0_start: 0, values0_count: 8, values1_start: 8, values1_count: 3, numerator_type: NUMERATOR_PAIR_SUM, relation_id0: REL_VERIFY_INSTRUCTION, relation_id1: REL_MEMORY_ADDR_TO_ID },
        LogupColumnLayout { values0_start: 11, values0_count: 30, values1_start: 41, values1_count: 3, numerator_type: NUMERATOR_PAIR_SUM, relation_id0: REL_MEMORY_ID_TO_BIG, relation_id1: REL_MEMORY_ADDR_TO_ID },
        LogupColumnLayout { values0_start: 44, values0_count: 3, values1_start: 47, values1_count: 4, numerator_type: NUMERATOR_ENABLER_WEIGHTED, relation_id0: REL_MEMORY_ADDR_TO_ID, relation_id1: REL_OPCODES },
        LogupColumnLayout { values0_start: 51, values0_count: 4, values1_start: 0, values1_count: 0, numerator_type: NUMERATOR_SINGLE_NEG, relation_id0: REL_OPCODES, relation_id1: 0 },
    ];
    assert(layouts@ =~= seq![
        pair_sum(0, 8, 8, 3, REL_VERIFY_INSTRUCTION, REL_MEMORY_ADDR_TO_ID),
        pair_sum(11, 30, 41, 3, REL_MEMORY_ID_TO_BIG, REL_MEMORY_ADDR_TO_ID),
        enabler_weighted(44, 3, 47, 4, REL_MEMORY_ADDR_TO_ID, REL_OPCODES),
        single_neg(51, 4, REL_OPCODES),
    ]);
    (55, layouts)
}

/// The lookup fields of `jnz_opcode_taken` (82 of them) and its four logup
/// columns, laid out as those of `ret_opcode`.
pub fn jnz_opcode_taken_logup_layout() -> (r: (usize, Vec<LogupColumnLayout>))
    ensures
        r.0 == 82,
        forall|k: int| 0 <= k < r.1@.len() ==> layout_fits(#[trigger] r.1@[k], r.0 as nat),
        r.1@ == seq![
            pair_sum(0, 8, 8, 3, REL_VERIFY_INSTRUCTION, REL_MEMORY_ADDR_TO_ID),
            pair_sum(11, 30, 41, 3, REL_MEMORY_ID_TO_BIG, REL_MEMORY_ADDR_TO_ID),
            enabler_weighted(44, 30, 74, 4, REL_MEMORY_ID_TO_BIG, REL_OPCODES),
            single_neg(78, 4, REL_OPCODES),
        ],
{
    ret_opcode_logup_layout()
}

/// The lookup fields of `call_opcode_rel_imm` (115 of them) and its five
/// logup columns.
pub fn call_opcode_rel_imm_logup_layout() -> (r: (usize, Vec<LogupColumnLayout>))
    ensures
        r.0 == 115,
        forall|k: int| 0 <= k < r.1@.len() ==> layout_fits(#[trigger] r.1@[k], r.0 as nat),
        r.1@ == seq![
            pair_sum(0, 8, 8, 3, REL_VERIFY_INSTRUCTION, REL_MEMORY_ADDR_TO_ID),
            pair_sum(11, 30, 41, 3, REL_MEMORY_ID_TO_BIG, REL_MEMORY_ADDR_TO_ID),
            pair_sum(44, 30, 74, 3, REL_MEMORY_ID_TO_BIG, REL_MEMORY_ADDR_TO_ID),
            enabler_weighted(77, 30, 107, 4, REL_MEMORY_ID_TO_BIG, REL_OPCODES),
            single_neg(111, 4, REL_OPCODES),
        ],
{
    let layouts = vec![
        LogupColumnLayout { values0_start: 0, values0_count: 8, values1_start: 8, values1_count: 3, numerator_type: NUMERATOR_PAIR_SUM, relation_id0: REL_VERIFY_INSTRUCTION, relation_id1: REL_MEMORY_ADDR_TO_ID },
        LogupColumnLayout { values0_start: 11, values0_count: 30, values1_start: 41, values1_count: 3, numerator_type: NUMERATOR_PAIR_SUM, relation_id0: REL_MEMORY_ID_TO_BIG, relation_id1: REL_MEMORY_ADDR_TO_ID },
        LogupColumnLayout { values0_start: 44, values0_count: 30, values1_start: 74, values1_count: 3, numerator_type: NUMERATOR_PAIR_SUM, relation_id0: REL_MEMORY_ID_TO_BIG, relation_id1: REL_MEMORY_ADDR_TO_ID },
        LogupColumnLayout { values0_start: 77, values0_count: 30, values1_start: 107, values1_count: 4, numerator_type: NUMERATOR_ENABLER_WEIGHTED, relation_id0: REL_MEMORY_ID_TO_BIG, relation_id1: REL_OPCODES },
        LogupColumnLayout { values0_start: 111, values0_count: 4, values1_start: 0, values1_count: 0, numerator_type: NUMERATOR_SINGLE_NEG, relation_id0: REL_OPCODES, relation_id1: 0 },
    ];
    assert(layouts@ =~= seq![
        pair_sum(0, 8, 8, 3, REL_VERIFY_INSTRUCTION, REL_MEMORY_ADDR_TO_ID),
        pair_sum(11, 30, 41, 3, REL_MEMORY_ID_TO_BIG, REL_MEMORY_ADDR_TO_ID),
        pair_sum(44, 30, 74, 3, REL_MEMORY_ID_TO_BIG, REL_MEMORY_ADDR_TO_ID),
        enabler_weighted(77, 30, 107, 4, REL_MEMORY_ID_TO_BIG, REL_OPCODES),
        single_neg(111, 4, REL_OPCODES),
    ]);
    (115, layouts)
}

} // verus!
