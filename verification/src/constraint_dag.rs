use vstd::prelude::*;

verus! {

/// A reference to an earlier operation: its index in the operation list.
#[derive(Debug, Clone, Copy, PartialEq, Eq, Structural)]
pub struct OpRef(pub usize);

/// One recorded operation of a constraint evaluation.
#[derive(Debug, Clone, Copy, PartialEq, Eq, Structural)]
pub enum RecordedOp {
    /// Reads column `col_index` of `interaction` at row offset `offset`.
    TraceCol { interaction: usize, col_index: usize, offset: isize },
    /// Reads preprocessed column `col_index`.
    PreprocessedCol { col_index: usize },
    /// Loads the base-field constant `value`.
    Const { value: u32 },
    Add { lhs: OpRef, rhs: OpRef },
    Sub { lhs: OpRef, rhs: OpRef },
    Mul { lhs: OpRef, rhs: OpRef },
    Inv { operand: OpRef },
    /// Constrains the operand to zero.
    AddConstraint { expr: OpRef },
}

/// The largest reference an operation holds, if any.
pub open spec fn op_max_ref(op: RecordedOp) -> Option<usize> {
    match op {
        RecordedOp::Add { lhs, rhs } | RecordedOp::Sub { lhs, rhs } | RecordedOp::Mul { lhs, rhs } => Some(
            if lhs.0 < rhs.0 {
                rhs.0
            } else {
                lhs.0
            },
        ),
        RecordedOp::Inv { operand } => Some(operand.0),
        RecordedOp::AddConstraint { expr } => Some(expr.0),
        _ => None,
    }
}

/// Every operation refers only to operations recorded before it.
pub open spec fn refs_backward(ops: Seq<RecordedOp>) -> bool {
    forall|i: int| 0 <= i < ops.len() ==> match op_max_ref(#[trigger] ops[i]) {
        Some(m) => m < i,
        None => true,
    }
}

/// Every reference `op` holds is below `n`.
pub open spec fn refs_below(op: RecordedOp, n: nat) -> bool {
    match op_max_ref(op) {
        Some(m) => m < n,
        None => true,
    }
}

/// `op` with `base_offset` added to every reference it holds.
pub open spec fn spec_remap_op(op: RecordedOp, base_offset: usize) -> RecordedOp {
    match op {
        RecordedOp::Add { lhs, rhs } => RecordedOp::Add {
            lhs: OpRef((lhs.0 + base_offset) as usize),
            rhs: OpRef((rhs.0 + base_offset) as usize),
        },
        RecordedOp::Sub { lhs, rhs } => RecordedOp::Sub {
            lhs: OpRef((lhs.0 + base_offset) as usize),
            rhs: OpRef((rhs.0 + base_offset) as usize),
        },
        RecordedOp::Mul { lhs, rhs } => RecordedOp::Mul {
            lhs: OpRef((lhs.0 + base_offset) as usize),
            rhs: OpRef((rhs.0 + base_offset) as usize),
        },
        RecordedOp::Inv { operand } => RecordedOp::Inv { operand: OpRef((operand.0 + base_offset) as usize) },
        RecordedOp::AddConstraint { expr } => RecordedOp::AddConstraint { expr: OpRef((expr.0 + base_offset) as usize) },
        _ => op,
    }
}

/// Whether every reference of `op` still fits after adding `base_offset`.
pub open spec fn remap_fits(op: RecordedOp, base_offset: usize) -> bool {
    match op_max_ref(op) {
        Some(m) => m + base_offset <= usize::MAX,
        None => true,
    }
}

/// Moves `op` by `base_offset`: every reference it holds is shifted, and
/// reads and constants are unchanged.
pub fn remap_op(op: &RecordedOp, base_offset: usize) -> (r: RecordedOp)
    requires
        remap_fits(*op, base_offset),
    ensures
        r == spec_remap_op(*op, base_offset),
{
    match *op {
        RecordedOp::TraceCol { interaction, col_index, offset } => RecordedOp::TraceCol { interaction, col_index, offset },
        RecordedOp::PreprocessedCol { col_index } => RecordedOp::PreprocessedCol { col_index },
        RecordedOp::Const { value } => RecordedOp::Const { value },
        RecordedOp::Add { lhs, rhs } => RecordedOp::Add { lhs: OpRef(lhs.0 + base_offset), rhs: OpRef(rhs.0 + base_offset) },
        RecordedOp::Sub { lhs, rhs } => RecordedOp::Sub { lhs: OpRef(lhs.0 + base_offset), rhs: OpRef(rhs.0 + base_offset) },
        RecordedOp::Mul { lhs, rhs } => RecordedOp::Mul { lhs: OpRef(lhs.0 + base_offset), rhs: OpRef(rhs.0 + base_offset) },
        RecordedOp::Inv { operand } => RecordedOp::Inv { operand: OpRef(operand.0 + base_offset) },
        RecordedOp::AddConstraint { expr } => RecordedOp::AddConstraint { expr: OpRef(expr.0 + base_offset) },
    }
}

/// The result of recording a constraint evaluation.
#[derive(Debug, Clone)]
pub struct RecordedConstraintDag {
    /// The operations, in the order they were recorded.
    pub ops: Vec<RecordedOp>,
    /// The number of constraints recorded.
    pub n_constraints: usize,
    /// The number of trace columns read, over all interactions.
    pub n_trace_columns: usize,
    /// The number of preprocessed columns read.
    pub n_preprocessed_columns: usize,
    /// The number of interactions observed.
    pub n_interactions: usize,
}

/// What a recording evaluator holds: the operations so far, how many
/// columns of each interaction were read, and the constraint and
/// preprocessed-column counts.
pub struct RecordingEvalView {
    pub ops: Seq<RecordedOp>,
    pub interaction_col_counters: Seq<usize>,
    pub n_constraints: usize,
    pub n_preprocessed_columns: usize,
}

/// A recording evaluator's state: every operation of the evaluation is
/// appended to one list.
pub struct RecordingEval {
    ops: Vec<RecordedOp>,
    interaction_col_counters: Vec<usize>,
    n_constraints: usize,
    n_preprocessed_columns: usize,
}

impl View for RecordingEval {
    type V = RecordingEvalView;

    closed spec fn view(&self) -> RecordingEvalView {
        RecordingEvalView {
            ops: self.ops@,
            interaction_col_counters: self.interaction_col_counters@,
            n_constraints: self.n_constraints,
            n_preprocessed_columns: self.n_preprocessed_columns,
        }
    }
}

/// The counters with interaction `interaction` present: missing
/// interactions up to it start at zero columns.
pub open spec fn counters_with(counters: Seq<usize>, interaction: int) -> Seq<usize> {
    if interaction < counters.len() {
        counters
    } else {
        counters + Seq::new((interaction + 1 - counters.len()) as nat, |k: int| 0usize)
    }
}

/// The sum of the first `n` counters.
pub open spec fn counters_sum(counters: Seq<usize>, n: int) -> nat
    decreases n,
{
    if n <= 0 || n > counters.len() {
        0
    } else {
        counters_sum(counters, n - 1) + counters[n - 1] as nat
    }
}

/// The reads of one mask: one operation per offset, all of the same column.
pub open spec fn mask_ops(interaction: usize, col_index: usize, offsets: Seq<isize>) -> Seq<RecordedOp> {
    Seq::new(offsets.len(), |k: int| RecordedOp::TraceCol { interaction, col_index, offset: offsets[k] })
}

impl RecordingEval {
    /// A recording with nothing recorded.
    pub fn new() -> (r: Self)
        ensures
            r@ == (RecordingEvalView {
                ops: Seq::empty(),
                interaction_col_counters: Seq::empty(),
                n_constraints: 0,
                n_preprocessed_columns: 0,
            }),
            refs_backward(r@.ops),
    {
        RecordingEval { ops: Vec::new(), interaction_col_counters: Vec::new(), n_constraints: 0, n_preprocessed_columns: 0 }
    }

    /// The operations recorded so far.
    pub fn ops(&self) -> (r: &[RecordedOp])
        ensures
            r@ == self@.ops,
    {
        self.ops.as_slice()
    }

    /// Appends `op` and returns its reference.
    pub fn push_op(&mut self, op: RecordedOp) -> (r: OpRef)
        ensures
            r == OpRef(old(self)@.ops.len() as usize),
            final(self)@ == (RecordingEvalView { ops: old(self)@.ops.push(op), ..old(self)@ }),
            refs_backward(old(self)@.ops) && refs_below(op, old(self)@.ops.len()) ==> refs_backward(final(self)@.ops),
    {
        let idx = self.ops.len();
        self.ops.push(op);
        OpRef(idx)
    }

    /// Makes sure interaction `interaction` has a column counter.
    pub fn ensure_interaction(&mut self, interaction: usize)
        requires
            interaction < usize::MAX,
        ensures
            final(self)@ == (RecordingEvalView {
                interaction_col_counters: counters_with(old(self)@.interaction_col_counters, interaction as int),
                ..old(self)@
            }),
    {
        let ghost pre = self@;
        let ghost start = self.interaction_col_counters@;
        if self.interaction_col_counters.len() <= interaction {
            while self.interaction_col_counters.len() < interaction + 1
                invariant
                    interaction < usize::MAX,
                    start.len() <= self.interaction_col_counters@.len() <= interaction + 1,
                    self@ == (RecordingEvalView { interaction_col_counters: self.interaction_col_counters@, ..pre }),
                    self.interaction_col_counters@ == start + Seq::new(
                        (self.interaction_col_counters@.len() - start.len()) as nat,
                        |k: int| 0usize,
                    ),
                decreases interaction + 1 - self.interaction_col_counters@.len(),
            {
                self.interaction_col_counters.push(0);
                assert(self.interaction_col_counters@ =~= start + Seq::new(
                    (self.interaction_col_counters@.len() - start.len()) as nat,
                    |k: int| 0usize,
                ));
            }
        }
        assert(self.interaction_col_counters@ =~= counters_with(start, interaction as int));
    }

    /// Records the reads of the next column of `interaction` at each of
    /// `offsets`, and returns their references in order.
    pub fn next_interaction_mask(&mut self, interaction: usize, offsets: &[isize]) -> (r: Vec<OpRef>)
        requires
            interaction < usize::MAX,
            counters_with(old(self)@.interaction_col_counters, interaction as int)[interaction as int] < usize::MAX,
        ensures
            ({
                let counters = counters_with(old(self)@.interaction_col_counters, interaction as int);
                let col = counters[interaction as int];
                let base = old(self)@.ops.len();
                &&& r@ == Seq::new(offsets@.len(), |k: int| OpRef((base + k) as usize))
                &&& final(self)@ == (RecordingEvalView {
                    ops: old(self)@.ops + mask_ops(interaction, col, offsets@),
                    interaction_col_counters: counters.update(interaction as int, (col + 1) as usize),
                    ..old(self)@
                })
            }),
        refs_backward(old(self)@.ops) ==> refs_backward(final(self)@.ops),
    {
        self.ensure_interaction(interaction);
        let col_index = self.interaction_col_counters[interaction];
        self.interaction_col_counters.set(interaction, col_index + 1);
        let ghost mid = self@;
        assert(mid.ops == old(self)@.ops);
        let mut refs: Vec<OpRef> = Vec::new();
        let mut k: usize = 0;
        while k < offsets.len()
            invariant
                k <= offsets@.len(),
                self@ == (RecordingEvalView {
                    ops: mid.ops + mask_ops(interaction, col_index, offsets@.take(k as int)),
                    ..mid
                }),
                refs@ == Seq::new(k as nat, |j: int| OpRef((mid.ops.len() + j) as usize)),
                refs_backward(mid.ops) ==> refs_backward(self@.ops),
            decreases offsets@.len() - k,
        {
            let r = self.push_op(RecordedOp::TraceCol { interaction, col_index, offset: offsets[k] });
            refs.push(r);
            proof {
                assert(mask_ops(interaction, col_index, offsets@.take(k + 1)) =~= mask_ops(
                    interaction,
                    col_index,
                    offsets@.take(k as int),
                ).push(RecordedOp::TraceCol { interaction, col_index, offset: offsets@[k as int] }));
                assert(refs@ =~= Seq::new((k + 1) as nat, |j: int| OpRef((mid.ops.len() + j) as usize)));
            }
            k = k + 1;
        }
        proof {
            assert(offsets@.take(offsets@.len() as int) =~= offsets@);
        }
        refs
    }

    /// Records a read of the next preprocessed column.
    pub fn get_preprocessed_column(&mut self) -> (r: OpRef)
        requires
            old(self)@.n_preprocessed_columns < usize::MAX,
        ensures
            r == OpRef(old(self)@.ops.len() as usize),
            final(self)@ == (RecordingEvalView {
                ops: old(self)@.ops.push(
                    RecordedOp::PreprocessedCol { col_index: old(self)@.n_preprocessed_columns },
                ),
                n_preprocessed_columns: (old(self)@.n_preprocessed_columns + 1) as usize,
                ..old(self)@
            }),
        refs_backward(old(self)@.ops) ==> refs_backward(final(self)@.ops),
    {
        let col_index = self.n_preprocessed_columns;
        self.n_preprocessed_columns = col_index + 1;
        self.push_op(RecordedOp::PreprocessedCol { col_index })
    }

    /// The sum of two values.
    pub fn add(&mut self, lhs: OpRef, rhs: OpRef) -> (r: OpRef)
        ensures
            r == OpRef(old(self)@.ops.len() as usize),
            final(self)@ == (RecordingEvalView { ops: old(self)@.ops.push(RecordedOp::Add { lhs, rhs }), ..old(self)@ }),
            refs_backward(old(self)@.ops) && lhs.0 < old(self)@.ops.len() && rhs.0 < old(self)@.ops.len() ==> refs_backward(
                final(self)@.ops,
            ),
    {
        self.push_op(RecordedOp::Add { lhs, rhs })
    }

    /// The difference of two values.
    pub fn sub(&mut self, lhs: OpRef, rhs: OpRef) -> (r: OpRef)
        ensures
            r == OpRef(old(self)@.ops.len() as usize),
            final(self)@ == (RecordingEvalView { ops: old(self)@.ops.push(RecordedOp::Sub { lhs, rhs }), ..old(self)@ }),
            refs_backward(old(self)@.ops) && lhs.0 < old(self)@.ops.len() && rhs.0 < old(self)@.ops.len() ==> refs_backward(
                final(self)@.ops,
            ),
    {
        self.push_op(RecordedOp::Sub { lhs, rhs })
    }

    /// The product of two values.
    pub fn mul(&mut self, lhs: OpRef, rhs: OpRef) -> (r: OpRef)
        ensures
            r == OpRef(old(self)@.ops.len() as usize),
            final(self)@ == (RecordingEvalView { ops: old(self)@.ops.push(RecordedOp::Mul { lhs, rhs }), ..old(self)@ }),
            refs_backward(old(self)@.ops) && lhs.0 < old(self)@.ops.len() && rhs.0 < old(self)@.ops.len() ==> refs_backward(
                final(self)@.ops,
            ),
    {
        self.push_op(RecordedOp::Mul { lhs, rhs })
    }

    /// The inverse of a value.
    pub fn inverse(&mut self, operand: OpRef) -> (r: OpRef)
        ensures
            r == OpRef(old(self)@.ops.len() as usize),
            final(self)@ == (RecordingEvalView { ops: old(self)@.ops.push(RecordedOp::Inv { operand }), ..old(self)@ }),
            refs_backward(old(self)@.ops) && operand.0 < old(self)@.ops.len() ==> refs_backward(final(self)@.ops),
    {
        self.push_op(RecordedOp::Inv { operand })
    }

    /// A base-field constant.
    pub fn constant(&mut self, value: u32) -> (r: OpRef)
        ensures
            r == OpRef(old(self)@.ops.len() as usize),
            final(self)@ == (RecordingEvalView { ops: old(self)@.ops.push(RecordedOp::Const { value }), ..old(self)@ }),
            refs_backward(old(self)@.ops) ==> refs_backward(final(self)@.ops),
    {
        self.push_op(RecordedOp::Const { value })
    }

    /// The negation of `expr`: zero minus it.
    pub fn neg(&mut self, expr: OpRef) -> (r: OpRef)
        ensures
            ({
                let base = old(self)@.ops.len();
                &&& r == OpRef((base + 1) as usize)
                &&& final(self)@ == (RecordingEvalView {
                    ops: old(self)@.ops.push(RecordedOp::Const { value: 0 }).push(
                        RecordedOp::Sub { lhs: OpRef(base as usize), rhs: expr },
                    ),
                    ..old(self)@
                })
            }),
        refs_backward(old(self)@.ops) && expr.0 < old(self)@.ops.len() ==> refs_backward(final(self)@.ops),
    {
        let zero = self.push_op(RecordedOp::Const { value: 0 });
        self.push_op(RecordedOp::Sub { lhs: zero, rhs: expr })
    }

    /// The sum of four values, added left to right.
    pub fn combine_ef(&mut self, values: [OpRef; 4]) -> (r: OpRef)
        ensures
            ({
                let base = old(self)@.ops.len();
                &&& r == OpRef((base + 2) as usize)
                &&& final(self)@ == (RecordingEvalView {
                    ops: old(self)@.ops.push(RecordedOp::Add { lhs: values[0], rhs: values[1] }).push(
                        RecordedOp::Add { lhs: OpRef(base as usize), rhs: values[2] },
                    ).push(RecordedOp::Add { lhs: OpRef((base + 1) as usize), rhs: values[3] }),
                    ..old(self)@
                })
            }),
        refs_backward(old(self)@.ops) && (forall|k: int| 0 <= k < 4 ==> (#[trigger] values[k]).0 < old(self)@.ops.len()) ==> refs_backward(final(self)@.ops),
    {
        let a = self.push_op(RecordedOp::Add { lhs: values[0], rhs: values[1] });
        let b = self.push_op(RecordedOp::Add { lhs: a, rhs: values[2] });
        self.push_op(RecordedOp::Add { lhs: b, rhs: values[3] })
    }

    /// Records a constraint on `expr`, a value of this recording.
    pub fn add_constraint(&mut self, expr: OpRef)
        requires
            old(self)@.n_constraints < usize::MAX,
        ensures
            final(self)@ == (RecordingEvalView {
                ops: old(self)@.ops.push(RecordedOp::AddConstraint { expr }),
                n_constraints: (old(self)@.n_constraints + 1) as usize,
                ..old(self)@
            }),
        refs_backward(old(self)@.ops) && expr.0 < old(self)@.ops.len() ==> refs_backward(final(self)@.ops),
    {
        self.push_op(RecordedOp::AddConstraint { expr });
        self.n_constraints = self.n_constraints + 1;
    }

    /// Records a constraint on value `expr` of a separate recording made of
    /// `detached` operations: they are appended, moved past the operations
    /// already here, and the constraint refers to the moved `expr`.
    pub fn add_detached_constraint(&mut self, detached: &[RecordedOp], expr: OpRef)
        requires
            old(self)@.n_constraints < usize::MAX,
            old(self)@.ops.len() + detached@.len() + 1 <= usize::MAX,
            expr.0 + old(self)@.ops.len() <= usize::MAX,
            forall|k: int| 0 <= k < detached@.len() ==> remap_fits(#[trigger] detached@[k], old(self)@.ops.len() as usize),
        ensures
            ({
                let base = old(self)@.ops.len() as usize;
                final(self)@ == (RecordingEvalView {
                    ops: old(self)@.ops + detached@.map_values(|op: RecordedOp| spec_remap_op(op, base)) + seq![
                        RecordedOp::AddConstraint { expr: OpRef((base + expr.0) as usize) },
                    ],
                    n_constraints: (old(self)@.n_constraints + 1) as usize,
                    ..old(self)@
                })
            }),
        refs_backward(old(self)@.ops) && refs_backward(detached@) && expr.0 < detached@.len() ==> refs_backward(final(self)@.ops),
    {
        let base_offset = self.ops.len();
        let ghost pre = self@;
        let mut k: usize = 0;
        while k < detached.len()
            invariant
                k <= detached@.len(),
                base_offset == pre.ops.len(),
                forall|j: int| 0 <= j < detached@.len() ==> remap_fits(#[trigger] detached@[j], base_offset),
                self@ == (RecordingEvalView {
                    ops: pre.ops + detached@.take(k as int).map_values(|op: RecordedOp| spec_remap_op(op, base_offset)),
                    ..pre
                }),
                refs_backward(pre.ops) && refs_backward(detached@) ==> refs_backward(self@.ops),
            decreases detached@.len() - k,
        {
            let remapped = remap_op(&detached[k], base_offset);
            proof {
                if refs_backward(detached@) {
                    lemma_remap_refs_below(detached@[k as int], base_offset, k as nat);
                }
            }
            self.push_op(remapped);
            proof {
                assert(detached@.take(k + 1).map_values(|op: RecordedOp| spec_remap_op(op, base_offset)) =~= detached@.take(
                    k as int,
                ).map_values(|op: RecordedOp| spec_remap_op(op, base_offset)).push(spec_remap_op(detached@[k as int], base_offset)));
            }
            k = k + 1;
        }
        proof {
            assert(detached@.take(detached@.len() as int) =~= detached@);
        }
        let ghost mid = self@;
        assert(mid.ops.len() == base_offset + detached@.len());
        self.push_op(RecordedOp::AddConstraint { expr: OpRef(base_offset + expr.0) });
        self.n_constraints = self.n_constraints + 1;
        proof {
            assert(self@.ops =~= pre.ops + detached@.map_values(|op: RecordedOp| spec_remap_op(op, base_offset)) + seq![
                RecordedOp::AddConstraint { expr: OpRef((base_offset + expr.0) as usize) },
            ]);
        }
    }

    /// The recorded constraint DAG: the operations, the constraint count,
    /// the columns read over all interactions, the preprocessed columns
    /// read, and the number of interactions observed.
    pub fn finish(self) -> (r: RecordedConstraintDag)
        requires
            counters_sum(self@.interaction_col_counters, self@.interaction_col_counters.len() as int) <= usize::MAX,
        ensures
            r.ops@ == self@.ops,
            r.n_constraints == self@.n_constraints,
            r.n_trace_columns == counters_sum(self@.interaction_col_counters, self@.interaction_col_counters.len() as int),
            r.n_preprocessed_columns == self@.n_preprocessed_columns,
            r.n_interactions == self@.interaction_col_counters.len(),
    {
        let ghost counters = self.interaction_col_counters@;
        let mut total: usize = 0;
        let mut i: usize = 0;
        while i < self.interaction_col_counters.len()
            invariant
                i <= counters.len(),
                counters == self.interaction_col_counters@,
                counters_sum(counters, counters.len() as int) <= usize::MAX,
                total == counters_sum(counters, i as int),
            decreases counters.len() - i,
        {
            proof {
                lemma_counters_sum_monotone(counters, i + 1, counters.len() as int);
            }
            total = total + self.interaction_col_counters[i];
            i = i + 1;
        }
        let n_interactions = self.interaction_col_counters.len();
        RecordedConstraintDag {
            ops: self.ops,
            n_constraints: self.n_constraints,
            n_trace_columns: total,
            n_preprocessed_columns: self.n_preprocessed_columns,
            n_interactions,
        }
    }
}

proof fn lemma_remap_refs_below(op: RecordedOp, base_offset: usize, k: nat)
    requires
        refs_below(op, k),
        remap_fits(op, base_offset),
    ensures
        refs_below(spec_remap_op(op, base_offset), (base_offset + k) as nat),
{
}

proof fn lemma_counters_sum_monotone(counters: Seq<usize>, i: int, j: int)
    requires
        0 <= i <= j <= counters.len(),
    ensures
        counters_sum(counters, i) <= counters_sum(counters, j),
    decreases j - i,
{
    if i < j {
        lemma_counters_sum_monotone(counters, i, j - 1);
    }
}

} // verus!
