use vstd::prelude::*;

use crate::eval_program::{
    spec_base_binary, spec_base_opcode_raw, spec_const_value, spec_ext_opcode_raw, spec_secure_col,
    spec_trace_col, MetalEvaluationProgramBaseInstV1, MetalEvaluationProgramBaseOpcodeV1,
    MetalEvaluationProgramExtInstV1, MetalEvaluationProgramExtOpcodeV1,
};
use crate::field_ops::{
    base_add, base_mul, base_neg, base_sub, is_canonical, m31_add, m31_mul, m31_neg, m31_sub, qm31, qm31_add,
    qm31_neg, qm31_zero, secure_add, secure_neg, M31_P,
};
use crate::sampled_values::MetalSecureFieldValueV1;

verus! {

/// What a recording has produced so far: the program's instructions and
/// constraint roots, the next free registers, the highest interaction read,
/// how many columns of each interaction were read, and the parameter counts.
pub struct RecordingStateView {
    pub base_insts: Seq<MetalEvaluationProgramBaseInstV1>,
    pub ext_insts: Seq<MetalEvaluationProgramExtInstV1>,
    pub constraint_roots: Seq<u32>,
    pub next_base_reg: u16,
    pub next_ext_reg: u16,
    pub max_interaction: usize,
    pub columns_per_interaction: Seq<u32>,
    pub n_base_params: u32,
    pub n_ext_params: u32,
}

/// The state a constraint evaluation is recorded into: instructions are
/// appended as the evaluation runs, each result in a fresh register.
pub struct RecordingState {
    base_insts: Vec<MetalEvaluationProgramBaseInstV1>,
    ext_insts: Vec<MetalEvaluationProgramExtInstV1>,
    constraint_roots: Vec<u32>,
    next_base_reg: u16,
    next_ext_reg: u16,
    max_interaction: usize,
    columns_per_interaction: Vec<u32>,
    n_base_params: u32,
    n_ext_params: u32,
}

impl View for RecordingState {
    type V = RecordingStateView;

    closed spec fn view(&self) -> RecordingStateView {
        RecordingStateView {
            base_insts: self.base_insts@,
            ext_insts: self.ext_insts@,
            constraint_roots: self.constraint_roots@,
            next_base_reg: self.next_base_reg,
            next_ext_reg: self.next_ext_reg,
            max_interaction: self.max_interaction,
            columns_per_interaction: self.columns_per_interaction@,
            n_base_params: self.n_base_params,
            n_ext_params: self.n_ext_params,
        }
    }
}

/// Every instruction writes a register of its own: destinations rise in
/// the order instructions were recorded and stay below the next free
/// register, for base and extension registers alike.
pub open spec fn registers_fresh(v: RecordingStateView) -> bool {
    &&& forall|i: int| 0 <= i < v.base_insts.len() ==> #[trigger] v.base_insts[i].dst < v.next_base_reg
    &&& forall|i: int, j: int|
        0 <= i < j < v.base_insts.len() ==> #[trigger] v.base_insts[i].dst < #[trigger] v.base_insts[j].dst
    &&& forall|i: int| 0 <= i < v.ext_insts.len() ==> #[trigger] v.ext_insts[i].dst < v.next_ext_reg
    &&& forall|i: int, j: int|
        0 <= i < j < v.ext_insts.len() ==> #[trigger] v.ext_insts[i].dst < #[trigger] v.ext_insts[j].dst
}

/// The extension instruction loading the constant with `limbs`.
/// The registers are dense: instruction `i` of each kind writes register
/// `i`, and the next register of each kind is the instruction count, so the
/// register maxima are the instruction counts.
pub open spec fn registers_dense(v: RecordingStateView) -> bool {
    &&& v.next_base_reg == v.base_insts.len()
    &&& forall|i: int| 0 <= i < v.base_insts.len() ==> #[trigger] v.base_insts[i].dst == i
    &&& v.next_ext_reg == v.ext_insts.len()
    &&& forall|i: int| 0 <= i < v.ext_insts.len() ==> #[trigger] v.ext_insts[i].dst == i
}

pub open spec fn spec_ext_const(dst: u16, limbs: Seq<u32>) -> MetalEvaluationProgramExtInstV1 {
    MetalEvaluationProgramExtInstV1 {
        op: spec_ext_opcode_raw(MetalEvaluationProgramExtOpcodeV1::Const),
        reserved0: 0,
        dst,
        a: limbs[0],
        b: limbs[1],
        c: limbs[2],
        d: limbs[3],
    }
}

/// The extension instruction applying the binary `op` to `a` and `b`.
pub open spec fn spec_ext_binary(op: MetalEvaluationProgramExtOpcodeV1, dst: u16, a: u16, b: u16) -> MetalEvaluationProgramExtInstV1 {
    MetalEvaluationProgramExtInstV1 { op: spec_ext_opcode_raw(op), reserved0: 0, dst, a: a as u32, b: b as u32, c: 0, d: 0 }
}

/// The extension instruction negating `a`.
pub open spec fn spec_ext_neg(dst: u16, a: u16) -> MetalEvaluationProgramExtInstV1 {
    MetalEvaluationProgramExtInstV1 {
        op: spec_ext_opcode_raw(MetalEvaluationProgramExtOpcodeV1::Neg),
        reserved0: 0,
        dst,
        a: a as u32,
        b: 0,
        c: 0,
        d: 0,
    }
}

/// The base instruction applying the one-operand `op` to `a`.
pub open spec fn spec_base_unary(op: MetalEvaluationProgramBaseOpcodeV1, dst: u16, a: u16) -> MetalEvaluationProgramBaseInstV1 {
    MetalEvaluationProgramBaseInstV1 { op: spec_base_opcode_raw(op), interaction: 0, dst, a: a as u32, b: 0, imm: 0 }
}

/// The base instruction reading parameter `slot` of `interaction`.
pub open spec fn spec_param(dst: u16, interaction: u8, slot: u32) -> MetalEvaluationProgramBaseInstV1 {
    MetalEvaluationProgramBaseInstV1 {
        op: spec_base_opcode_raw(MetalEvaluationProgramBaseOpcodeV1::Param),
        interaction,
        dst,
        a: slot,
        b: 0,
        imm: 0,
    }
}

/// The destination of the first base instruction from `i` on that loads
/// the constant zero.
pub open spec fn first_zero_const(insts: Seq<MetalEvaluationProgramBaseInstV1>, i: int) -> Option<u16>
    decreases insts.len() - i,
{
    if i < 0 || i >= insts.len() {
        None
    } else if insts[i].op == spec_base_opcode_raw(MetalEvaluationProgramBaseOpcodeV1::Const) && insts[i].a == 0 {
        Some(insts[i].dst)
    } else {
        first_zero_const(insts, i + 1)
    }
}

/// A recording after emitting the base constant `value`: its register and
/// the new state.
pub open spec fn spec_emit_base_const(v: RecordingStateView, value: u32) -> (u16, RecordingStateView) {
    let r = v.next_base_reg;
    (r, RecordingStateView { base_insts: v.base_insts.push(spec_const_value(r, value)), next_base_reg: (r + 1) as u16, ..v })
}

/// A recording after emitting the extension constant with `limbs`.
pub open spec fn spec_emit_ext_const(v: RecordingStateView, limbs: Seq<u32>) -> (u16, RecordingStateView) {
    let r = v.next_ext_reg;
    (r, RecordingStateView { ext_insts: v.ext_insts.push(spec_ext_const(r, limbs)), next_ext_reg: (r + 1) as u16, ..v })
}

/// A recording after emitting the extension binary `op` of `a` and `b`.
pub open spec fn spec_emit_ext_binary(
    v: RecordingStateView,
    op: MetalEvaluationProgramExtOpcodeV1,
    a: u16,
    b: u16,
) -> (u16, RecordingStateView) {
    let r = v.next_ext_reg;
    (r, RecordingStateView { ext_insts: v.ext_insts.push(spec_ext_binary(op, r, a, b)), next_ext_reg: (r + 1) as u16, ..v })
}

/// A recording after making sure a base zero constant exists: its register
/// and the new state.
pub open spec fn spec_ensure_zero_const(v: RecordingStateView) -> (u16, RecordingStateView) {
    match first_zero_const(v.base_insts, 0) {
        Some(dst) => (dst, v),
        None => spec_emit_base_const(v, 0),
    }
}

/// A recording after lifting base register `base_reg` into a fresh
/// extension register, padded with a zero constant.
pub open spec fn spec_promote(v: RecordingStateView, base_reg: u16) -> (u16, RecordingStateView) {
    let (zero, v1) = spec_ensure_zero_const(v);
    let r = v1.next_ext_reg;
    (
        r,
        RecordingStateView {
            ext_insts: v1.ext_insts.push(spec_secure_col(r, base_reg as u32, zero as u32, zero as u32, zero as u32)),
            next_ext_reg: (r + 1) as u16,
            ..v1
        },
    )
}

/// Whether lifting a base register fits in the register files.
pub open spec fn promote_fits(v: RecordingStateView) -> bool {
    &&& first_zero_const(v.base_insts, 0) is None ==> v.next_base_reg < u16::MAX
    &&& spec_ensure_zero_const(v).1.next_ext_reg < u16::MAX
}

/// The column counts with interaction `interaction` present: missing
/// interactions up to it start at zero columns.
pub open spec fn columns_with(columns: Seq<u32>, interaction: int) -> Seq<u32> {
    if interaction < columns.len() {
        columns
    } else {
        columns + Seq::new((interaction + 1 - columns.len()) as nat, |k: int| 0u32)
    }
}

/// The larger of two interactions.
pub open spec fn max_usize(a: usize, b: usize) -> usize {
    if a < b {
        b
    } else {
        a
    }
}

/// The trace reads of one mask: one register per offset, all of the same
/// column.
pub open spec fn mask_reads(first_reg: u16, interaction: u8, column: u32, offsets: Seq<isize>) -> Seq<
    MetalEvaluationProgramBaseInstV1,
> {
    Seq::new(offsets.len(), |k: int| spec_trace_col((first_reg + k) as u16, interaction, column, offsets[k] as i32))
}

/// The constant that folding `op` over the constants `a` and `b` gives, for
/// the operations that fold.
pub open spec fn spec_fold_base_constants(op: MetalEvaluationProgramBaseOpcodeV1, a: u32, b: u32) -> Option<u32> {
    match op {
        MetalEvaluationProgramBaseOpcodeV1::Add => Some(m31_add(a, b)),
        MetalEvaluationProgramBaseOpcodeV1::Sub => Some(m31_sub(a, b)),
        MetalEvaluationProgramBaseOpcodeV1::Mul => Some(m31_mul(a, b)),
        _ => None,
    }
}

/// Folds `op` over the constants `a` and `b` while recording: additions,
/// subtractions and multiplications fold; other operations do not.
pub fn fold_base_constants(op: MetalEvaluationProgramBaseOpcodeV1, a: u32, b: u32) -> (r: Option<u32>)
    requires
        a < M31_P,
        b < M31_P,
    ensures
        r == spec_fold_base_constants(op, a, b),
        op == MetalEvaluationProgramBaseOpcodeV1::Add ==> (r matches Some(c) && c < M31_P && m31_sub(c, b) == a),
        op == MetalEvaluationProgramBaseOpcodeV1::Sub ==> (r matches Some(c) && c < M31_P && m31_add(c, b) == a),
{
    proof {
        crate::eval_interpreter::lemma_m31_inverse_ops(a, b);
    }
    match op {
        MetalEvaluationProgramBaseOpcodeV1::Add => Some(base_add(a, b)),
        MetalEvaluationProgramBaseOpcodeV1::Sub => Some(base_sub(a, b)),
        MetalEvaluationProgramBaseOpcodeV1::Mul => Some(base_mul(a, b)),
        _ => None,
    }
}

/// The negation of the constant `a`, folded while recording.
pub fn negate_base_constant(a: u32) -> (r: u32)
    requires
        a < M31_P,
    ensures
        r == m31_neg(a),
        r < M31_P,
        m31_add(r, a) == 0,
{
    proof {
        crate::eval_interpreter::lemma_m31_inverse_ops(a, 0);
    }
    base_neg(a)
}

impl RecordingState {
    /// An empty recording.
    pub fn new() -> (r: Self)
        ensures
            r@ == (RecordingStateView {
                base_insts: Seq::empty(),
                ext_insts: Seq::empty(),
                constraint_roots: Seq::empty(),
                next_base_reg: 0,
                next_ext_reg: 0,
                max_interaction: 0,
                columns_per_interaction: Seq::empty(),
                n_base_params: 0,
                n_ext_params: 0,
            }),
            registers_fresh(r@),
            registers_dense(r@),
    {
        RecordingState {
            base_insts: Vec::new(),
            ext_insts: Vec::new(),
            constraint_roots: Vec::new(),
            next_base_reg: 0,
            next_ext_reg: 0,
            max_interaction: 0,
            columns_per_interaction: Vec::new(),
            n_base_params: 0,
            n_ext_params: 0,
        }
    }

    /// Takes the next base register.
    fn alloc_base_reg(&mut self) -> (r: u16)
        requires
            old(self)@.next_base_reg < u16::MAX,
        ensures
            registers_fresh(old(self)@) ==> registers_fresh(final(self)@),
            r == old(self)@.next_base_reg,
            final(self)@ == (RecordingStateView { next_base_reg: (r + 1) as u16, ..old(self)@ }),
    {
        let reg = self.next_base_reg;
        self.next_base_reg = reg + 1;
        reg
    }

    /// Takes the next extension register.
    fn alloc_ext_reg(&mut self) -> (r: u16)
        requires
            old(self)@.next_ext_reg < u16::MAX,
        ensures
            registers_fresh(old(self)@) ==> registers_fresh(final(self)@),
            r == old(self)@.next_ext_reg,
            final(self)@ == (RecordingStateView { next_ext_reg: (r + 1) as u16, ..old(self)@ }),
    {
        let reg = self.next_ext_reg;
        self.next_ext_reg = reg + 1;
        reg
    }

    /// Takes the next column of `interaction`.
    pub fn tracker_next_column(&mut self, interaction: usize) -> (r: u32)
        requires
            interaction < usize::MAX,
            interaction < old(self)@.columns_per_interaction.len() ==> old(self)@.columns_per_interaction[interaction as int]
                < u32::MAX,
        ensures
            registers_fresh(old(self)@) ==> registers_fresh(final(self)@),
            registers_dense(old(self)@) ==> registers_dense(final(self)@),
            ({
                let cols = columns_with(old(self)@.columns_per_interaction, interaction as int);
                &&& r == cols[interaction as int]
                &&& final(self)@ == (RecordingStateView {
                    columns_per_interaction: cols.update(interaction as int, (r + 1) as u32),
                    ..old(self)@
                })
            }),
    {
        let ghost cols = columns_with(self.columns_per_interaction@, interaction as int);
        let ghost pre = self@;
        if interaction >= self.columns_per_interaction.len() {
            let ghost start = self.columns_per_interaction@;
            while self.columns_per_interaction.len() < interaction + 1
                invariant
                    interaction < usize::MAX,
                    self@ == (RecordingStateView { columns_per_interaction: self.columns_per_interaction@, ..pre }),
                    start.len() <= self.columns_per_interaction@.len() <= interaction + 1,
                    self.columns_per_interaction@ == start + Seq::new(
                        (self.columns_per_interaction@.len() - start.len()) as nat,
                        |k: int| 0u32,
                    ),
                decreases interaction + 1 - self.columns_per_interaction@.len(),
            {
                self.columns_per_interaction.push(0);
                assert(self.columns_per_interaction@ =~= start + Seq::new(
                    (self.columns_per_interaction@.len() - start.len()) as nat,
                    |k: int| 0u32,
                ));
            }
        }
        assert(self.columns_per_interaction@ =~= cols);
        let col = self.columns_per_interaction[interaction];
        self.columns_per_interaction.set(interaction, col + 1);
        col
    }

    /// The register of a base instruction loading zero, emitting one when
    /// none has been recorded yet.
    pub fn ensure_zero_const(&mut self) -> (r: u16)
        requires
            first_zero_const(old(self)@.base_insts, 0) is None ==> old(self)@.next_base_reg < u16::MAX,
        ensures
            registers_fresh(old(self)@) ==> registers_fresh(final(self)@),
            registers_dense(old(self)@) ==> registers_dense(final(self)@),
            (r, final(self)@) == spec_ensure_zero_const(old(self)@),
    {
        let mut i: usize = 0;
        while i < self.base_insts.len()
            invariant
                i <= self.base_insts@.len(),
                first_zero_const(self.base_insts@, 0) == first_zero_const(self.base_insts@, i as int),
            decreases self.base_insts@.len() - i,
        {
            let inst = self.base_insts[i];
            if inst.op == MetalEvaluationProgramBaseOpcodeV1::Const.to_raw() && inst.a == 0 {
                return inst.dst;
            }
            i = i + 1;
        }
        let dst = self.alloc_base_reg();
        self.base_insts.push(MetalEvaluationProgramBaseInstV1::const_value(dst, 0));
        dst
    }

    /// Emits an extension constant and returns its register.
    pub fn emit_ext_const(&mut self, value: MetalSecureFieldValueV1) -> (r: u16)
        requires
            old(self)@.next_ext_reg < u16::MAX,
        ensures
            registers_fresh(old(self)@) ==> registers_fresh(final(self)@),
            registers_dense(old(self)@) ==> registers_dense(final(self)@),
            (r, final(self)@) == spec_emit_ext_const(old(self)@, value.limbs@),
    {
        let dst = self.alloc_ext_reg();
        self.ext_insts.push(
            MetalEvaluationProgramExtInstV1 {
                op: MetalEvaluationProgramExtOpcodeV1::Const.to_raw(),
                reserved0: 0,
                dst,
                a: value.limbs[0],
                b: value.limbs[1],
                c: value.limbs[2],
                d: value.limbs[3],
            },
        );
        dst
    }

    /// Lifts a base register into a fresh extension register, padding the
    /// upper limbs with a zero constant.
    pub fn promote_base_to_ext(&mut self, base_reg: u16) -> (r: u16)
        requires
            promote_fits(old(self)@),
        ensures
            registers_fresh(old(self)@) ==> registers_fresh(final(self)@),
            registers_dense(old(self)@) ==> registers_dense(final(self)@),
            (r, final(self)@) == spec_promote(old(self)@, base_reg),
    {
        let zero_reg = self.ensure_zero_const();
        let ext_dst = self.alloc_ext_reg();
        self.ext_insts.push(
            MetalEvaluationProgramExtInstV1::secure_col(
                ext_dst,
                base_reg as u32,
                zero_reg as u32,
                zero_reg as u32,
                zero_reg as u32,
            ),
        );
        ext_dst
    }

    /// Emits an extension binary instruction and returns its register.
    pub fn emit_ext_binary(&mut self, op: MetalEvaluationProgramExtOpcodeV1, src1: u16, src2: u16) -> (r: u16)
        requires
            old(self)@.next_ext_reg < u16::MAX,
        ensures
            registers_fresh(old(self)@) ==> registers_fresh(final(self)@),
            registers_dense(old(self)@) ==> registers_dense(final(self)@),
            (r, final(self)@) == spec_emit_ext_binary(old(self)@, op, src1, src2),
    {
        let dst = self.alloc_ext_reg();
        self.ext_insts.push(
            MetalEvaluationProgramExtInstV1 {
                op: op.to_raw(),
                reserved0: 0,
                dst,
                a: src1 as u32,
                b: src2 as u32,
                c: 0,
                d: 0,
            },
        );
        dst
    }

    /// Emits an extension negation and returns its register.
    pub fn emit_ext_neg(&mut self, src: u16) -> (r: u16)
        requires
            old(self)@.next_ext_reg < u16::MAX,
        ensures
            registers_fresh(old(self)@) ==> registers_fresh(final(self)@),
            registers_dense(old(self)@) ==> registers_dense(final(self)@),
            r == old(self)@.next_ext_reg,
            final(self)@ == (RecordingStateView {
                ext_insts: old(self)@.ext_insts.push(spec_ext_neg(r, src)),
                next_ext_reg: (r + 1) as u16,
                ..old(self)@
            }),
    {
        let dst = self.alloc_ext_reg();
        self.ext_insts.push(
            MetalEvaluationProgramExtInstV1 {
                op: MetalEvaluationProgramExtOpcodeV1::Neg.to_raw(),
                reserved0: 0,
                dst,
                a: src as u32,
                b: 0,
                c: 0,
                d: 0,
            },
        );
        dst
    }

    /// Emits a base constant and returns its register.
    pub fn emit_base_const(&mut self, value: u32) -> (r: u16)
        requires
            old(self)@.next_base_reg < u16::MAX,
        ensures
            registers_fresh(old(self)@) ==> registers_fresh(final(self)@),
            registers_dense(old(self)@) ==> registers_dense(final(self)@),
            (r, final(self)@) == spec_emit_base_const(old(self)@, value),
    {
        let dst = self.alloc_base_reg();
        self.base_insts.push(MetalEvaluationProgramBaseInstV1::const_value(dst, value));
        dst
    }

    /// Emits a base binary instruction and returns its register.
    pub fn emit_base_binary(&mut self, op: MetalEvaluationProgramBaseOpcodeV1, a: u16, b: u16) -> (r: u16)
        requires
            old(self)@.next_base_reg < u16::MAX,
        ensures
            registers_fresh(old(self)@) ==> registers_fresh(final(self)@),
            registers_dense(old(self)@) ==> registers_dense(final(self)@),
            r == old(self)@.next_base_reg,
            final(self)@ == (RecordingStateView {
                base_insts: old(self)@.base_insts.push(spec_base_binary(op, r, a as u32, b as u32)),
                next_base_reg: (r + 1) as u16,
                ..old(self)@
            }),
    {
        let dst = self.alloc_base_reg();
        self.base_insts.push(MetalEvaluationProgramBaseInstV1::binary(op, dst, a as u32, b as u32));
        dst
    }

    /// Emits a one-operand base instruction (a negation or an inversion) and
    /// returns its register.
    pub fn emit_base_unary(&mut self, op: MetalEvaluationProgramBaseOpcodeV1, a: u16) -> (r: u16)
        requires
            old(self)@.next_base_reg < u16::MAX,
        ensures
            registers_fresh(old(self)@) ==> registers_fresh(final(self)@),
            registers_dense(old(self)@) ==> registers_dense(final(self)@),
            r == old(self)@.next_base_reg,
            final(self)@ == (RecordingStateView {
                base_insts: old(self)@.base_insts.push(spec_base_unary(op, r, a)),
                next_base_reg: (r + 1) as u16,
                ..old(self)@
            }),
    {
        let dst = self.alloc_base_reg();
        self.base_insts.push(
            MetalEvaluationProgramBaseInstV1 { op: op.to_raw(), interaction: 0, dst, a: a as u32, b: 0, imm: 0 },
        );
        dst
    }

    /// Records a read of base parameter `slot` of `interaction` and returns
    /// its register.
    pub fn inject_base_param(&mut self, interaction: u8, slot: u32) -> (r: u16)
        requires
            old(self)@.next_base_reg < u16::MAX,
            old(self)@.n_base_params < u32::MAX,
        ensures
            registers_fresh(old(self)@) ==> registers_fresh(final(self)@),
            registers_dense(old(self)@) ==> registers_dense(final(self)@),
            r == old(self)@.next_base_reg,
            final(self)@ == (RecordingStateView {
                base_insts: old(self)@.base_insts.push(spec_param(r, interaction, slot)),
                next_base_reg: (r + 1) as u16,
                n_base_params: (old(self)@.n_base_params + 1) as u32,
                max_interaction: max_usize(old(self)@.max_interaction, interaction as usize),
                ..old(self)@
            }),
    {
        let dst = self.alloc_base_reg();
        self.base_insts.push(
            MetalEvaluationProgramBaseInstV1 {
                op: MetalEvaluationProgramBaseOpcodeV1::Param.to_raw(),
                interaction,
                dst,
                a: slot,
                b: 0,
                imm: 0,
            },
        );
        self.n_base_params = self.n_base_params + 1;
        if interaction as usize > self.max_interaction {
            self.max_interaction = interaction as usize;
        }
        dst
    }

    /// Records the reads of one column of `interaction` at each of `offsets`:
    /// the column is the interaction's next one, and each read gets the next
    /// register. Returns the registers in the order of `offsets`.
    pub fn record_interaction_mask(&mut self, interaction: usize, offsets: &[isize]) -> (r: Vec<u16>)
        requires
            interaction < usize::MAX,
            interaction < old(self)@.columns_per_interaction.len() ==> old(self)@.columns_per_interaction[interaction as int]
                < u32::MAX,
            old(self)@.next_base_reg + offsets@.len() <= u16::MAX,
        ensures
            registers_fresh(old(self)@) ==> registers_fresh(final(self)@),
            registers_dense(old(self)@) ==> registers_dense(final(self)@),
            ({
                let cols = columns_with(old(self)@.columns_per_interaction, interaction as int);
                let column = cols[interaction as int];
                let first = old(self)@.next_base_reg;
                &&& r@ == Seq::new(offsets@.len(), |k: int| (first + k) as u16)
                &&& final(self)@ == (RecordingStateView {
                    base_insts: old(self)@.base_insts + mask_reads(first, interaction as u8, column, offsets@),
                    next_base_reg: (first + offsets@.len()) as u16,
                    max_interaction: max_usize(old(self)@.max_interaction, interaction),
                    columns_per_interaction: cols.update(interaction as int, (column + 1) as u32),
                    ..old(self)@
                })
            }),
    {
        if interaction > self.max_interaction {
            self.max_interaction = interaction;
        }
        let col = self.tracker_next_column(interaction);
        let ghost mid = self@;
        let ghost first = mid.next_base_reg;
        let mut regs: Vec<u16> = Vec::new();
        let mut k: usize = 0;
        while k < offsets.len()
            invariant
                k <= offsets@.len(),
                first + offsets@.len() <= u16::MAX,
                self@.next_base_reg == first + k,
                regs@ == Seq::new(k as nat, |j: int| (first + j) as u16),
                self@ == (RecordingStateView {
                    base_insts: mid.base_insts + mask_reads(first, interaction as u8, col, offsets@.take(k as int)),
                    next_base_reg: (first + k) as u16,
                    ..mid
                }),
            decreases offsets@.len() - k,
        {
            let dst = self.alloc_base_reg();
            self.base_insts.push(
                MetalEvaluationProgramBaseInstV1::trace_col(dst, interaction as u8, col, offsets[k] as i32),
            );
            regs.push(dst);
            proof {
                assert(mask_reads(first, interaction as u8, col, offsets@.take(k + 1)) =~= mask_reads(
                    first,
                    interaction as u8,
                    col,
                    offsets@.take(k as int),
                ).push(spec_trace_col(dst, interaction as u8, col, offsets@[k as int] as i32)));
                assert(regs@ =~= Seq::new((k + 1) as nat, |j: int| (first + j) as u16));
            }
            k = k + 1;
        }
        proof {
            assert(offsets@.take(offsets@.len() as int) =~= offsets@);
        }
        regs
    }

    /// Records `reg` as a constraint root.
    pub fn push_constraint_root(&mut self, reg: u32)
        ensures
            registers_fresh(old(self)@) ==> registers_fresh(final(self)@),
            registers_dense(old(self)@) ==> registers_dense(final(self)@),
            final(self)@ == (RecordingStateView {
                constraint_roots: old(self)@.constraint_roots.push(reg),
                ..old(self)@
            }),
    {
        let ghost pre = self@;
        self.constraint_roots.push(reg);
        assert(self@.base_insts == pre.base_insts && self@.ext_insts == pre.ext_insts);
    }

    /// Combines four base registers into a fresh extension register.
    pub fn combine_ef(&mut self, regs: [u16; 4]) -> (r: u16)
        requires
            old(self)@.next_ext_reg < u16::MAX,
        ensures
            registers_fresh(old(self)@) ==> registers_fresh(final(self)@),
            registers_dense(old(self)@) ==> registers_dense(final(self)@),
            r == old(self)@.next_ext_reg,
            final(self)@ == (RecordingStateView {
                ext_insts: old(self)@.ext_insts.push(
                    spec_secure_col(r, regs[0] as u32, regs[1] as u32, regs[2] as u32, regs[3] as u32),
                ),
                next_ext_reg: (r + 1) as u16,
                ..old(self)@
            }),
    {
        let dst = self.alloc_ext_reg();
        self.ext_insts.push(
            MetalEvaluationProgramExtInstV1::secure_col(
                dst,
                regs[0] as u32,
                regs[1] as u32,
                regs[2] as u32,
                regs[3] as u32,
            ),
        );
        dst
    }

    /// The number of interactions read: one past the highest, or zero when
    /// neither a column nor a parameter was read.
    pub fn n_interactions(&self) -> (r: u32)
        requires
            (self@.max_interaction as u32) < u32::MAX,
        ensures
            r == (if self@.columns_per_interaction.len() == 0 && self@.n_base_params == 0 {
                0
            } else {
                (self@.max_interaction as u32) + 1
            }),
    {
        if self.columns_per_interaction.len() == 0 && self.n_base_params == 0 {
            0
        } else {
            (self.max_interaction as u32) + 1
        }
    }

    /// The base instructions recorded so far.
    pub fn base_insts(&self) -> (r: &[MetalEvaluationProgramBaseInstV1])
        ensures
            r@ == self@.base_insts,
    {
        self.base_insts.as_slice()
    }

    /// The extension instructions recorded so far.
    pub fn ext_insts(&self) -> (r: &[MetalEvaluationProgramExtInstV1])
        ensures
            r@ == self@.ext_insts,
    {
        self.ext_insts.as_slice()
    }

    /// The constraint roots recorded so far.
    pub fn constraint_roots(&self) -> (r: &[u32])
        ensures
            r@ == self@.constraint_roots,
    {
        self.constraint_roots.as_slice()
    }

    pub fn n_base_params(&self) -> (r: u32)
        ensures
            r == self@.n_base_params,
    {
        self.n_base_params
    }

    pub fn n_ext_params(&self) -> (r: u32)
        ensures
            r == self@.n_ext_params,
    {
        self.n_ext_params
    }

    /// The number of base registers used.
    pub fn max_base_regs(&self) -> (r: u32)
        ensures
            r == self@.next_base_reg,
            registers_dense(self@) ==> r == self@.base_insts.len(),
    {
        self.next_base_reg as u32
    }

    /// The number of extension registers used.
    pub fn max_ext_regs(&self) -> (r: u32)
        ensures
            r == self@.next_ext_reg,
            registers_dense(self@) ==> r == self@.ext_insts.len(),
    {
        self.next_ext_reg as u32
    }
}

// ---------------------------------------------------------------------------
// Symbolic operands and the operations on them.
// ---------------------------------------------------------------------------

/// A recorded base-field value: a register, or a constant not yet emitted.
#[derive(Copy, Clone, Debug, PartialEq, Eq, Structural)]
pub enum RecordedBaseOperandV1 {
    Register { reg: u16 },
    Pending { value: u32 },
}

/// A recorded extension-field value: a register, a base register read as
/// an extension value, a constant not yet emitted, or the zero placeholder.
#[derive(Copy, Clone, Debug, PartialEq, Eq)]
pub enum RecordedExtOperandV1 {
    Realized { reg: u16 },
    PromotedBase { base_reg: u16 },
    Constant { value: MetalSecureFieldValueV1 },
    Zero,
}

/// Whether the operand lives in the recording (a register) rather than
/// being a constant.
pub open spec fn has_state(o: RecordedExtOperandV1) -> bool {
    o is Realized || o is PromotedBase
}

/// A recording after giving `o` an extension register: its register and the
/// new state.
pub open spec fn spec_realize(v: RecordingStateView, o: RecordedExtOperandV1) -> (u16, RecordingStateView) {
    match o {
        RecordedExtOperandV1::Realized { reg } => (reg, v),
        RecordedExtOperandV1::PromotedBase { base_reg } => spec_promote(v, base_reg),
        RecordedExtOperandV1::Constant { value } => spec_emit_ext_const(v, value.limbs@),
        RecordedExtOperandV1::Zero => spec_emit_ext_const(v, qm31_zero()),
    }
}

/// Whether giving `o` an extension register fits in the register files.
pub open spec fn realize_fits(v: RecordingStateView, o: RecordedExtOperandV1) -> bool {
    match o {
        RecordedExtOperandV1::Realized { .. } => true,
        RecordedExtOperandV1::PromotedBase { .. } => promote_fits(v),
        _ => v.next_ext_reg < u16::MAX,
    }
}

/// A recording after realising both operands, left first, and emitting the
/// binary `op` of them.
pub open spec fn spec_ext_binary_op(
    v: RecordingStateView,
    op: MetalEvaluationProgramExtOpcodeV1,
    lhs: RecordedExtOperandV1,
    rhs: RecordedExtOperandV1,
) -> (u16, RecordingStateView) {
    let (a, v1) = spec_realize(v, lhs);
    let (b, v2) = spec_realize(v1, rhs);
    spec_emit_ext_binary(v2, op, a, b)
}


/// A recorded binary extension operation reads its left operand's register
/// as `a` and its right operand's as `b`: the one instruction it appends
/// holds the operation's opcode, writes the next extension register, which
/// is the result, and reads the register the left operand was given, then
/// the one the right operand was given. For two operands that already have
/// registers, those are the registers read and nothing else is emitted.
pub proof fn lemma_ext_binary_op_reads_left_then_right(
    v: RecordingStateView,
    op: MetalEvaluationProgramExtOpcodeV1,
    lhs: RecordedExtOperandV1,
    rhs: RecordedExtOperandV1,
)
    ensures
        ({
            let (ra, v1) = spec_realize(v, lhs);
            let (rb, v2) = spec_realize(v1, rhs);
            let (r, w) = spec_ext_binary_op(v, op, lhs, rhs);
            let last = w.ext_insts[w.ext_insts.len() - 1];
            &&& w.ext_insts.len() == v2.ext_insts.len() + 1
            &&& w.ext_insts.drop_last() == v2.ext_insts
            &&& w.base_insts == v2.base_insts
            &&& last.op == spec_ext_opcode_raw(op)
            &&& last.a == ra as u32
            &&& last.b == rb as u32
            &&& last.dst == r
            &&& r == v2.next_ext_reg
        }),
        lhs is Realized && rhs is Realized ==> {
            let (r, w) = spec_ext_binary_op(v, op, lhs, rhs);
            let last = w.ext_insts[w.ext_insts.len() - 1];
            &&& w.ext_insts.len() == v.ext_insts.len() + 1
            &&& w.ext_insts.drop_last() == v.ext_insts
            &&& w.base_insts == v.base_insts
            &&& last.a == lhs->reg as u32
            &&& last.b == rhs->reg as u32
            &&& last.op == spec_ext_opcode_raw(op)
            &&& last.dst == r
            &&& r == v.next_ext_reg
        },
{
    let (ra, v1) = spec_realize(v, lhs);
    let (rb, v2) = spec_realize(v1, rhs);
    let (r, w) = spec_ext_binary_op(v, op, lhs, rhs);
    assert(w.ext_insts.drop_last() =~= v2.ext_insts);
}

/// Whether a binary extension operation fits: one operand is a register,
/// and both realisations and the result fit in the register files.
pub open spec fn ext_binary_op_fits(v: RecordingStateView, lhs: RecordedExtOperandV1, rhs: RecordedExtOperandV1) -> bool {
    let v1 = spec_realize(v, lhs).1;
    let v2 = spec_realize(v1, rhs).1;
    &&& has_state(lhs) || has_state(rhs)
    &&& realize_fits(v, lhs)
    &&& realize_fits(v1, rhs)
    &&& v2.next_ext_reg < u16::MAX
}

/// The base constant `x` as an extension constant.
pub open spec fn embed_limbs(x: u32) -> Seq<u32> {
    qm31(x, 0, 0, 0)
}

/// An extension constant times the base constant `x`, limb by limb.
pub open spec fn scale_limbs(e: Seq<u32>, x: u32) -> Seq<u32> {
    qm31(m31_mul(e[0], x), m31_mul(e[1], x), m31_mul(e[2], x), m31_mul(e[3], x))
}

/// A recording after emitting the base binary `op` of `lhs` and `rhs`, with
/// pending constants folded or emitted first.
pub open spec fn spec_base_binary_op(
    v: RecordingStateView,
    op: MetalEvaluationProgramBaseOpcodeV1,
    lhs: RecordedBaseOperandV1,
    rhs: RecordedBaseOperandV1,
) -> (RecordedBaseOperandV1, RecordingStateView) {
    match (lhs, rhs) {
        (RecordedBaseOperandV1::Pending { value: a }, RecordedBaseOperandV1::Pending { value: b }) => {
            match spec_fold_base_constants(op, a, b) {
                Some(c) => (RecordedBaseOperandV1::Pending { value: c }, v),
                None => {
                    let (ra, v1) = spec_emit_base_const(v, a);
                    let (rb, v2) = spec_emit_base_const(v1, b);
                    let (r, v3) = spec_emit_base_binary(v2, op, ra, rb);
                    (RecordedBaseOperandV1::Register { reg: r }, v3)
                },
            }
        },
        (RecordedBaseOperandV1::Pending { value: a }, RecordedBaseOperandV1::Register { reg: rb }) => {
            let (ra, v1) = spec_emit_base_const(v, a);
            let (r, v2) = spec_emit_base_binary(v1, op, ra, rb);
            (RecordedBaseOperandV1::Register { reg: r }, v2)
        },
        (RecordedBaseOperandV1::Register { reg: ra }, RecordedBaseOperandV1::Pending { value: b }) => {
            let (rb, v1) = spec_emit_base_const(v, b);
            let (r, v2) = spec_emit_base_binary(v1, op, ra, rb);
            (RecordedBaseOperandV1::Register { reg: r }, v2)
        },
        (RecordedBaseOperandV1::Register { reg: ra }, RecordedBaseOperandV1::Register { reg: rb }) => {
            let (r, v1) = spec_emit_base_binary(v, op, ra, rb);
            (RecordedBaseOperandV1::Register { reg: r }, v1)
        },
    }
}

/// A recording after emitting the base binary `op` of registers `a`, `b`.
pub open spec fn spec_emit_base_binary(
    v: RecordingStateView,
    op: MetalEvaluationProgramBaseOpcodeV1,
    a: u16,
    b: u16,
) -> (u16, RecordingStateView) {
    let r = v.next_base_reg;
    (
        r,
        RecordingStateView {
            base_insts: v.base_insts.push(spec_base_binary(op, r, a as u32, b as u32)),
            next_base_reg: (r + 1) as u16,
            ..v
        },
    )
}


/// A recorded binary base-field operation over two registers appends one
/// instruction that reads the left register as `a` and the right one as
/// `b` and writes the next base register, which is the result. Over two
/// pending constants, a sum or difference is folded: the folded constant
/// minus the right one is the left one for a sum, and plus the right one is
/// the left one for a difference; nothing is emitted.
pub proof fn lemma_base_binary_op_reads_left_then_right(
    v: RecordingStateView,
    op: MetalEvaluationProgramBaseOpcodeV1,
    lhs: RecordedBaseOperandV1,
    rhs: RecordedBaseOperandV1,
)
    ensures
        lhs is Register && rhs is Register ==> {
            let (r, w) = spec_base_binary_op(v, op, lhs, rhs);
            let last = w.base_insts[w.base_insts.len() - 1];
            &&& w.base_insts.len() == v.base_insts.len() + 1
            &&& w.base_insts.drop_last() == v.base_insts
            &&& w.ext_insts == v.ext_insts
            &&& last.op == spec_base_opcode_raw(op)
            &&& last.a == lhs->Register_reg as u32
            &&& last.b == rhs->Register_reg as u32
            &&& r == RecordedBaseOperandV1::Register { reg: last.dst }
            &&& last.dst == v.next_base_reg
        },
        lhs is Pending && rhs is Pending && lhs->Pending_value < M31_P && rhs->Pending_value < M31_P ==> {
            let (r, w) = spec_base_binary_op(v, op, lhs, rhs);
            let (a, b) = (lhs->Pending_value, rhs->Pending_value);
            &&& op == MetalEvaluationProgramBaseOpcodeV1::Add ==> w == v && r is Pending && m31_sub(r->Pending_value, b) == a
            &&& op == MetalEvaluationProgramBaseOpcodeV1::Sub ==> w == v && r is Pending && m31_add(r->Pending_value, b) == a
        },
{
    let (r, w) = spec_base_binary_op(v, op, lhs, rhs);
    if lhs is Register && rhs is Register {
        assert(w.base_insts.drop_last() =~= v.base_insts);
    }
    if lhs is Pending && rhs is Pending && lhs->Pending_value < M31_P && rhs->Pending_value < M31_P {
        crate::eval_interpreter::lemma_m31_inverse_ops(lhs->Pending_value, rhs->Pending_value);
    }
}


/// The number of base registers a base binary operation takes.
pub open spec fn base_binary_cost(op: MetalEvaluationProgramBaseOpcodeV1, lhs: RecordedBaseOperandV1, rhs: RecordedBaseOperandV1) -> nat {
    match (lhs, rhs) {
        (RecordedBaseOperandV1::Pending { value: a }, RecordedBaseOperandV1::Pending { value: b }) => {
            if spec_fold_base_constants(op, a, b) is Some {
                0
            } else {
                3
            }
        },
        (RecordedBaseOperandV1::Register { .. }, RecordedBaseOperandV1::Register { .. }) => 1,
        _ => 2,
    }
}

/// Pending constants are canonical.
pub open spec fn base_operand_canonical(o: RecordedBaseOperandV1) -> bool {
    match o {
        RecordedBaseOperandV1::Pending { value } => value < M31_P,
        _ => true,
    }
}

impl RecordingState {
    /// Gives `operand` an extension register, emitting what it needs.
    pub fn realize_ext(&mut self, operand: RecordedExtOperandV1) -> (r: u16)
        requires
            realize_fits(old(self)@, operand),
        ensures
            registers_fresh(old(self)@) ==> registers_fresh(final(self)@),
            registers_dense(old(self)@) ==> registers_dense(final(self)@),
            (r, final(self)@) == spec_realize(old(self)@, operand),
    {
        match operand {
            RecordedExtOperandV1::Realized { reg } => reg,
            RecordedExtOperandV1::PromotedBase { base_reg } => self.promote_base_to_ext(base_reg),
            RecordedExtOperandV1::Constant { value } => self.emit_ext_const(value),
            RecordedExtOperandV1::Zero => {
                let zero = MetalSecureFieldValueV1 { limbs: [0, 0, 0, 0] };
                assert(zero.limbs@ =~= qm31_zero());
                self.emit_ext_const(zero)
            },
        }
    }

    /// Records `operand` as a constraint root, giving it a register first.
    pub fn add_constraint(&mut self, operand: RecordedExtOperandV1) -> (r: u16)
        requires
            realize_fits(old(self)@, operand),
        ensures
            registers_fresh(old(self)@) ==> registers_fresh(final(self)@),
            registers_dense(old(self)@) ==> registers_dense(final(self)@),
            ({
                let (reg, v) = spec_realize(old(self)@, operand);
                &&& r == reg
                &&& final(self)@ == (RecordingStateView { constraint_roots: v.constraint_roots.push(reg as u32), ..v })
            }),
    {
        let reg = self.realize_ext(operand);
        self.constraint_roots.push(reg as u32);
        reg
    }

    /// Emits the binary `op` of two extension operands, realising the left
    /// one, then the right one.
    pub fn emit_ext_binary_op(
        &mut self,
        op: MetalEvaluationProgramExtOpcodeV1,
        lhs: RecordedExtOperandV1,
        rhs: RecordedExtOperandV1,
    ) -> (r: u16)
        requires
            ext_binary_op_fits(old(self)@, lhs, rhs),
        ensures
            registers_fresh(old(self)@) ==> registers_fresh(final(self)@),
            registers_dense(old(self)@) ==> registers_dense(final(self)@),
            (r, final(self)@) == spec_ext_binary_op(old(self)@, op, lhs, rhs),
    {
        let a = self.realize_ext(lhs);
        let b = self.realize_ext(rhs);
        self.emit_ext_binary(op, a, b)
    }

    /// The sum of two extension operands: adding the zero placeholder gives
    /// the other operand back; otherwise an addition is emitted.
    pub fn add_ext(&mut self, lhs: RecordedExtOperandV1, rhs: RecordedExtOperandV1) -> (r: RecordedExtOperandV1)
        requires
            lhs is Zero || rhs is Zero || ext_binary_op_fits(old(self)@, lhs, rhs),
        ensures
            registers_fresh(old(self)@) ==> registers_fresh(final(self)@),
            registers_dense(old(self)@) ==> registers_dense(final(self)@),
            lhs is Zero ==> r == rhs && final(self)@ == old(self)@,
            !(lhs is Zero) && rhs is Zero ==> r == lhs && final(self)@ == old(self)@,
            !(lhs is Zero) && !(rhs is Zero) ==> {
                let (reg, v) = spec_ext_binary_op(old(self)@, MetalEvaluationProgramExtOpcodeV1::Add, lhs, rhs);
                r == RecordedExtOperandV1::Realized { reg } && final(self)@ == v
            },
    {
        if let RecordedExtOperandV1::Zero = lhs {
            return rhs;
        }
        if let RecordedExtOperandV1::Zero = rhs {
            return lhs;
        }
        let reg = self.emit_ext_binary_op(MetalEvaluationProgramExtOpcodeV1::Add, lhs, rhs);
        RecordedExtOperandV1::Realized { reg }
    }

    /// The difference of two extension operands: subtracting the zero
    /// placeholder gives the left operand back; otherwise a subtraction is
    /// emitted.
    pub fn sub_ext(&mut self, lhs: RecordedExtOperandV1, rhs: RecordedExtOperandV1) -> (r: RecordedExtOperandV1)
        requires
            rhs is Zero || ext_binary_op_fits(old(self)@, lhs, rhs),
        ensures
            registers_fresh(old(self)@) ==> registers_fresh(final(self)@),
            registers_dense(old(self)@) ==> registers_dense(final(self)@),
            rhs is Zero ==> r == lhs && final(self)@ == old(self)@,
            !(rhs is Zero) ==> {
                let (reg, v) = spec_ext_binary_op(old(self)@, MetalEvaluationProgramExtOpcodeV1::Sub, lhs, rhs);
                r == RecordedExtOperandV1::Realized { reg } && final(self)@ == v
            },
    {
        if let RecordedExtOperandV1::Zero = rhs {
            return lhs;
        }
        let reg = self.emit_ext_binary_op(MetalEvaluationProgramExtOpcodeV1::Sub, lhs, rhs);
        RecordedExtOperandV1::Realized { reg }
    }

    /// The product of two extension operands: always emitted.
    pub fn mul_ext(&mut self, lhs: RecordedExtOperandV1, rhs: RecordedExtOperandV1) -> (r: RecordedExtOperandV1)
        requires
            ext_binary_op_fits(old(self)@, lhs, rhs),
        ensures
            registers_fresh(old(self)@) ==> registers_fresh(final(self)@),
            registers_dense(old(self)@) ==> registers_dense(final(self)@),
            ({
                let (reg, v) = spec_ext_binary_op(old(self)@, MetalEvaluationProgramExtOpcodeV1::Mul, lhs, rhs);
                r == RecordedExtOperandV1::Realized { reg } && final(self)@ == v
            }),
    {
        let reg = self.emit_ext_binary_op(MetalEvaluationProgramExtOpcodeV1::Mul, lhs, rhs);
        RecordedExtOperandV1::Realized { reg }
    }

    /// The negation of an extension operand: the zero placeholder stays,
    /// a constant is negated in place, anything else is realised and negated
    /// by an emitted instruction.
    pub fn neg_ext(&mut self, operand: RecordedExtOperandV1) -> (r: RecordedExtOperandV1)
        requires
            operand matches RecordedExtOperandV1::Constant { value } ==> is_canonical(value),
            has_state(operand) ==> realize_fits(old(self)@, operand) && spec_realize(old(self)@, operand).1.next_ext_reg
                < u16::MAX,
        ensures
            registers_fresh(old(self)@) ==> registers_fresh(final(self)@),
            registers_dense(old(self)@) ==> registers_dense(final(self)@),
            match operand {
                RecordedExtOperandV1::Zero => r == operand && final(self)@ == old(self)@,
                RecordedExtOperandV1::Constant { value } => final(self)@ == old(self)@ && (r matches RecordedExtOperandV1::Constant {
                    value: n,
                } && n.limbs@ == qm31_neg(value.limbs@)),
                _ => {
                    let (src, v1) = spec_realize(old(self)@, operand);
                    let r1 = v1.next_ext_reg;
                    &&& r == RecordedExtOperandV1::Realized { reg: r1 }
                    &&& final(self)@ == (RecordingStateView {
                        ext_insts: v1.ext_insts.push(spec_ext_neg(r1, src)),
                        next_ext_reg: (r1 + 1) as u16,
                        ..v1
                    })
                },
            },
    {
        match operand {
            RecordedExtOperandV1::Zero => operand,
            RecordedExtOperandV1::Constant { value } => RecordedExtOperandV1::Constant { value: secure_neg(value) },
            _ => {
                let src = self.realize_ext(operand);
                let reg = self.emit_ext_neg(src);
                RecordedExtOperandV1::Realized { reg }
            },
        }
    }

    /// Emits the base binary `op` of two base operands. Two pending
    /// constants fold when `op` folds; otherwise pending constants are
    /// emitted first, the left one before the right one.
    pub fn emit_base_binary_op(
        &mut self,
        op: MetalEvaluationProgramBaseOpcodeV1,
        lhs: RecordedBaseOperandV1,
        rhs: RecordedBaseOperandV1,
    ) -> (r: RecordedBaseOperandV1)
        requires
            base_operand_canonical(lhs),
            base_operand_canonical(rhs),
            old(self)@.next_base_reg + base_binary_cost(op, lhs, rhs) <= u16::MAX,
        ensures
            registers_fresh(old(self)@) ==> registers_fresh(final(self)@),
            registers_dense(old(self)@) ==> registers_dense(final(self)@),
            (r, final(self)@) == spec_base_binary_op(old(self)@, op, lhs, rhs),
    {
        match (lhs, rhs) {
            (RecordedBaseOperandV1::Pending { value: a }, RecordedBaseOperandV1::Pending { value: b }) => {
                match fold_base_constants(op, a, b) {
                    Some(c) => RecordedBaseOperandV1::Pending { value: c },
                    None => {
                        let ra = self.emit_base_const(a);
                        let rb = self.emit_base_const(b);
                        let r = self.emit_base_binary(op, ra, rb);
                        RecordedBaseOperandV1::Register { reg: r }
                    },
                }
            },
            (RecordedBaseOperandV1::Pending { value: a }, RecordedBaseOperandV1::Register { reg: rb }) => {
                let ra = self.emit_base_const(a);
                let r = self.emit_base_binary(op, ra, rb);
                RecordedBaseOperandV1::Register { reg: r }
            },
            (RecordedBaseOperandV1::Register { reg: ra }, RecordedBaseOperandV1::Pending { value: b }) => {
                let rb = self.emit_base_const(b);
                let r = self.emit_base_binary(op, ra, rb);
                RecordedBaseOperandV1::Register { reg: r }
            },
            (RecordedBaseOperandV1::Register { reg: ra }, RecordedBaseOperandV1::Register { reg: rb }) => {
                let r = self.emit_base_binary(op, ra, rb);
                RecordedBaseOperandV1::Register { reg: r }
            },
        }
    }

    /// Gives a base operand a register, emitting a pending constant.
    pub fn materialize_base(&mut self, operand: RecordedBaseOperandV1) -> (r: u16)
        requires
            operand is Pending ==> old(self)@.next_base_reg < u16::MAX,
        ensures
            registers_fresh(old(self)@) ==> registers_fresh(final(self)@),
            registers_dense(old(self)@) ==> registers_dense(final(self)@),
            match operand {
                RecordedBaseOperandV1::Register { reg } => r == reg && final(self)@ == old(self)@,
                RecordedBaseOperandV1::Pending { value } => (r, final(self)@) == spec_emit_base_const(old(self)@, value),
            },
    {
        match operand {
            RecordedBaseOperandV1::Register { reg } => reg,
            RecordedBaseOperandV1::Pending { value } => self.emit_base_const(value),
        }
    }

    /// The negation of a base operand: a pending constant is negated in
    /// place; a register is negated by an emitted instruction.
    pub fn neg_base(&mut self, operand: RecordedBaseOperandV1) -> (r: RecordedBaseOperandV1)
        requires
            base_operand_canonical(operand),
            operand is Register ==> old(self)@.next_base_reg < u16::MAX,
        ensures
            registers_fresh(old(self)@) ==> registers_fresh(final(self)@),
            registers_dense(old(self)@) ==> registers_dense(final(self)@),
            match operand {
                RecordedBaseOperandV1::Pending { value } => r == (RecordedBaseOperandV1::Pending { value: m31_neg(value) })
                    && final(self)@ == old(self)@,
                RecordedBaseOperandV1::Register { reg } => {
                    let d = old(self)@.next_base_reg;
                    &&& r == RecordedBaseOperandV1::Register { reg: d }
                    &&& final(self)@ == (RecordingStateView {
                        base_insts: old(self)@.base_insts.push(
                            spec_base_unary(MetalEvaluationProgramBaseOpcodeV1::Neg, d, reg),
                        ),
                        next_base_reg: (d + 1) as u16,
                        ..old(self)@
                    })
                },
            },
    {
        match operand {
            RecordedBaseOperandV1::Pending { value } => RecordedBaseOperandV1::Pending { value: negate_base_constant(value) },
            RecordedBaseOperandV1::Register { reg } => {
                let d = self.emit_base_unary(MetalEvaluationProgramBaseOpcodeV1::Neg, reg);
                RecordedBaseOperandV1::Register { reg: d }
            },
        }
    }

    /// The inverse of a base operand: a pending constant is emitted first,
    /// then an inversion.
    pub fn inverse_base(&mut self, operand: RecordedBaseOperandV1) -> (r: u16)
        requires
            old(self)@.next_base_reg + (if operand is Pending { 2int } else { 1int }) <= u16::MAX,
        ensures
            registers_fresh(old(self)@) ==> registers_fresh(final(self)@),
            registers_dense(old(self)@) ==> registers_dense(final(self)@),
            ({
                let (src, v1) = match operand {
                    RecordedBaseOperandV1::Register { reg } => (reg, old(self)@),
                    RecordedBaseOperandV1::Pending { value } => spec_emit_base_const(old(self)@, value),
                };
                let d = v1.next_base_reg;
                &&& r == d
                &&& final(self)@ == (RecordingStateView {
                    base_insts: v1.base_insts.push(spec_base_unary(MetalEvaluationProgramBaseOpcodeV1::Inv, d, src)),
                    next_base_reg: (d + 1) as u16,
                    ..v1
                })
            }),
    {
        let src = self.materialize_base(operand);
        self.emit_base_unary(MetalEvaluationProgramBaseOpcodeV1::Inv, src)
    }

    /// A base operand read as an extension operand: a pending constant
    /// becomes an extension constant; a register is promoted lazily.
    pub fn base_to_ext(&self, operand: RecordedBaseOperandV1) -> (r: RecordedExtOperandV1)
        ensures
            match operand {
                RecordedBaseOperandV1::Pending { value } => r matches RecordedExtOperandV1::Constant { value: e }
                    && e.limbs@ == embed_limbs(value),
                RecordedBaseOperandV1::Register { reg } => r == (RecordedExtOperandV1::PromotedBase { base_reg: reg }),
            },
    {
        match operand {
            RecordedBaseOperandV1::Pending { value } => {
                let e = MetalSecureFieldValueV1 { limbs: [value, 0, 0, 0] };
                assert(e.limbs@ =~= embed_limbs(value));
                RecordedExtOperandV1::Constant { value: e }
            },
            RecordedBaseOperandV1::Register { reg } => RecordedExtOperandV1::PromotedBase { base_reg: reg },
        }
    }
}

/// A recording after combining an extension operand with the base constant
/// `value` by `op`: the constant is emitted and promoted first, then the
/// operand is realised, then `op` is emitted.
pub open spec fn spec_ext_with_base_constant(
    v: RecordingStateView,
    op: MetalEvaluationProgramExtOpcodeV1,
    operand: RecordedExtOperandV1,
    value: u32,
) -> (u16, RecordingStateView) {
    let (c, v1) = spec_emit_base_const(v, value);
    let (promoted, v2) = spec_promote(v1, c);
    let (a, v3) = spec_realize(v2, operand);
    spec_emit_ext_binary(v3, op, a, promoted)
}

pub open spec fn ext_with_base_constant_fits(v: RecordingStateView, operand: RecordedExtOperandV1, value: u32) -> bool {
    let (c, v1) = spec_emit_base_const(v, value);
    let v2 = spec_promote(v1, c).1;
    &&& has_state(operand)
    &&& v.next_base_reg < u16::MAX
    &&& promote_fits(v1)
    &&& realize_fits(v2, operand)
    &&& spec_realize(v2, operand).1.next_ext_reg < u16::MAX
}

/// A recording after combining the base operand with the extension constant
/// `value` by `op`: the operand is emitted if pending and promoted, then the
/// constant is emitted, then `op`.
pub open spec fn spec_base_with_secure_constant(
    v: RecordingStateView,
    op: MetalEvaluationProgramExtOpcodeV1,
    operand: RecordedBaseOperandV1,
    value: Seq<u32>,
) -> (u16, RecordingStateView) {
    let (src, v1) = match operand {
        RecordedBaseOperandV1::Register { reg } => (reg, v),
        RecordedBaseOperandV1::Pending { value: c } => spec_emit_base_const(v, c),
    };
    let (promoted, v2) = spec_promote(v1, src);
    let (k, v3) = spec_emit_ext_const(v2, value);
    spec_emit_ext_binary(v3, op, promoted, k)
}

impl RecordingState {
    /// Combines an extension operand with the base constant `value` by `op`.
    pub fn ext_with_base_constant(
        &mut self,
        op: MetalEvaluationProgramExtOpcodeV1,
        operand: RecordedExtOperandV1,
        value: u32,
    ) -> (r: u16)
        requires
            ext_with_base_constant_fits(old(self)@, operand, value),
        ensures
            registers_fresh(old(self)@) ==> registers_fresh(final(self)@),
            registers_dense(old(self)@) ==> registers_dense(final(self)@),
            (r, final(self)@) == spec_ext_with_base_constant(old(self)@, op, operand, value),
    {
        let c = self.emit_base_const(value);
        let promoted = self.promote_base_to_ext(c);
        let a = self.realize_ext(operand);
        self.emit_ext_binary(op, a, promoted)
    }

    /// Combines a base operand with the extension constant `value` by `op`.
    pub fn base_with_secure_constant(
        &mut self,
        op: MetalEvaluationProgramExtOpcodeV1,
        operand: RecordedBaseOperandV1,
        value: MetalSecureFieldValueV1,
    ) -> (r: u16)
        requires
            operand is Pending ==> old(self)@.next_base_reg < u16::MAX,
            promote_fits(
                match operand {
                    RecordedBaseOperandV1::Register { .. } => old(self)@,
                    RecordedBaseOperandV1::Pending { value: c } => spec_emit_base_const(old(self)@, c).1,
                },
            ),
            ({
                let (src, v1) = match operand {
                    RecordedBaseOperandV1::Register { reg } => (reg, old(self)@),
                    RecordedBaseOperandV1::Pending { value: c } => spec_emit_base_const(old(self)@, c),
                };
                spec_promote(v1, src).1.next_ext_reg + 1 < u16::MAX
            }),
        ensures
            registers_fresh(old(self)@) ==> registers_fresh(final(self)@),
            registers_dense(old(self)@) ==> registers_dense(final(self)@),
            (r, final(self)@) == spec_base_with_secure_constant(old(self)@, op, operand, value.limbs@),
    {
        let src = self.materialize_base(operand);
        let promoted = self.promote_base_to_ext(src);
        let k = self.emit_ext_const(value);
        self.emit_ext_binary(op, promoted, k)
    }
}

/// A recording after adding two extension operands.
pub open spec fn spec_add_ext(v: RecordingStateView, lhs: RecordedExtOperandV1, rhs: RecordedExtOperandV1) -> (
    RecordedExtOperandV1,
    RecordingStateView,
) {
    if lhs is Zero {
        (rhs, v)
    } else if rhs is Zero {
        (lhs, v)
    } else {
        let (reg, v1) = spec_ext_binary_op(v, MetalEvaluationProgramExtOpcodeV1::Add, lhs, rhs);
        (RecordedExtOperandV1::Realized { reg }, v1)
    }
}

/// Whether adding two extension operands fits.
pub open spec fn add_ext_fits(v: RecordingStateView, lhs: RecordedExtOperandV1, rhs: RecordedExtOperandV1) -> bool {
    lhs is Zero || rhs is Zero || ext_binary_op_fits(v, lhs, rhs)
}

/// The base operand that a pending constant becomes once emitted into `v`.
pub open spec fn spec_settle_base(v: RecordingStateView, rhs: RecordedBaseOperandV1) -> (u16, RecordingStateView) {
    match rhs {
        RecordedBaseOperandV1::Register { reg } => (reg, v),
        RecordedBaseOperandV1::Pending { value } => spec_emit_base_const(v, value),
    }
}

/// Whether the sum of an extension and a base operand folds to a constant.
pub open spec fn ext_base_sum_folds(lhs: RecordedExtOperandV1, rhs: RecordedBaseOperandV1) -> bool {
    rhs is Pending && (lhs is Zero || lhs is Constant)
}

/// Whether the product of an extension and a base operand folds.
pub open spec fn ext_base_product_folds(lhs: RecordedExtOperandV1, rhs: RecordedBaseOperandV1) -> bool {
    rhs is Pending && lhs is Constant
}

impl RecordingState {
    /// The sum of an extension operand and a base operand. A pending base
    /// constant folds into the zero placeholder or an extension constant;
    /// otherwise it is emitted and the base register is added as a promoted
    /// operand.
    pub fn add_ext_base(&mut self, lhs: RecordedExtOperandV1, rhs: RecordedBaseOperandV1) -> (r: RecordedExtOperandV1)
        requires
            lhs matches RecordedExtOperandV1::Constant { value } ==> is_canonical(value),
            base_operand_canonical(rhs),
            !ext_base_sum_folds(lhs, rhs) ==> {
                &&& rhs is Pending ==> old(self)@.next_base_reg < u16::MAX
                &&& ({
                    let (reg, v1) = spec_settle_base(old(self)@, rhs);
                    add_ext_fits(v1, lhs, RecordedExtOperandV1::PromotedBase { base_reg: reg })
                })
            },
        ensures
            registers_fresh(old(self)@) ==> registers_fresh(final(self)@),
            registers_dense(old(self)@) ==> registers_dense(final(self)@),
            ext_base_sum_folds(lhs, rhs) ==> {
                &&& final(self)@ == old(self)@
                &&& r matches RecordedExtOperandV1::Constant { value: e } && e.limbs@ == match lhs {
                    RecordedExtOperandV1::Constant { value } => qm31_add(value.limbs@, embed_limbs(rhs->value)),
                    _ => embed_limbs(rhs->value),
                }
            },
            !ext_base_sum_folds(lhs, rhs) ==> {
                let (reg, v1) = spec_settle_base(old(self)@, rhs);
                (r, final(self)@) == spec_add_ext(v1, lhs, RecordedExtOperandV1::PromotedBase { base_reg: reg })
            },
    {
        if let RecordedBaseOperandV1::Pending { value } = rhs {
            match lhs {
                RecordedExtOperandV1::Zero => {
                    let e = MetalSecureFieldValueV1 { limbs: [value, 0, 0, 0] };
                    assert(e.limbs@ =~= embed_limbs(value));
                    return RecordedExtOperandV1::Constant { value: e };
                },
                RecordedExtOperandV1::Constant { value: c } => {
                    let e = MetalSecureFieldValueV1 { limbs: [value, 0, 0, 0] };
                    assert(e.limbs@ =~= embed_limbs(value));
                    assert(is_canonical(e));
                    return RecordedExtOperandV1::Constant { value: secure_add(c, e) };
                },
                _ => {},
            }
        }
        let reg = self.materialize_base(rhs);
        self.add_ext(lhs, RecordedExtOperandV1::PromotedBase { base_reg: reg })
    }

    /// The product of an extension operand and a base operand. A pending
    /// base constant folds into an extension constant limb by limb;
    /// otherwise it is emitted and the base register is multiplied in as a
    /// promoted operand.
    pub fn mul_ext_base(&mut self, lhs: RecordedExtOperandV1, rhs: RecordedBaseOperandV1) -> (r: RecordedExtOperandV1)
        requires
            lhs matches RecordedExtOperandV1::Constant { value } ==> is_canonical(value),
            base_operand_canonical(rhs),
            !ext_base_product_folds(lhs, rhs) ==> {
                &&& rhs is Pending ==> old(self)@.next_base_reg < u16::MAX
                &&& ({
                    let (reg, v1) = spec_settle_base(old(self)@, rhs);
                    ext_binary_op_fits(v1, lhs, RecordedExtOperandV1::PromotedBase { base_reg: reg })
                })
            },
        ensures
            registers_fresh(old(self)@) ==> registers_fresh(final(self)@),
            registers_dense(old(self)@) ==> registers_dense(final(self)@),
            ext_base_product_folds(lhs, rhs) ==> {
                &&& final(self)@ == old(self)@
                &&& r matches RecordedExtOperandV1::Constant { value: e } && e.limbs@ == scale_limbs(
                    lhs->value.limbs@,
                    rhs->value,
                )
            },
            !ext_base_product_folds(lhs, rhs) ==> {
                let (reg, v1) = spec_settle_base(old(self)@, rhs);
                let (out, v2) = spec_ext_binary_op(
                    v1,
                    MetalEvaluationProgramExtOpcodeV1::Mul,
                    lhs,
                    RecordedExtOperandV1::PromotedBase { base_reg: reg },
                );
                r == RecordedExtOperandV1::Realized { reg: out } && final(self)@ == v2
            },
    {
        if let RecordedBaseOperandV1::Pending { value } = rhs {
            if let RecordedExtOperandV1::Constant { value: c } = lhs {
                assert(c.limbs[0] < M31_P && c.limbs[1] < M31_P && c.limbs[2] < M31_P && c.limbs[3] < M31_P);
                let e = MetalSecureFieldValueV1 {
                    limbs: [
                        base_mul(c.limbs[0], value),
                        base_mul(c.limbs[1], value),
                        base_mul(c.limbs[2], value),
                        base_mul(c.limbs[3], value),
                    ],
                };
                assert(e.limbs@ =~= scale_limbs(c.limbs@, value));
                return RecordedExtOperandV1::Constant { value: e };
            }
        }
        let reg = self.materialize_base(rhs);
        self.mul_ext(lhs, RecordedExtOperandV1::PromotedBase { base_reg: reg })
    }
}

// ---------------------------------------------------------------------------
// Batching the logup fractions.
// ---------------------------------------------------------------------------

/// The largest batch id of `batching`; zero when it is empty.
pub open spec fn seq_max_usize(batching: Seq<usize>) -> usize
    decreases batching.len(),
{
    if batching.len() == 0 {
        0
    } else {
        max_usize(seq_max_usize(batching.drop_last()), batching.last())
    }
}

/// Batch id `k` occurs in `batching`.
pub open spec fn batch_present(batching: Seq<usize>, k: int) -> bool {
    exists|i: int| 0 <= i < batching.len() && batching[i] == k
}

/// Every batch id from zero to the largest one occurs.
pub open spec fn batches_consecutive(batching: Seq<usize>) -> bool {
    &&& batching.len() > 0
    &&& forall|k: int| 0 <= k <= seq_max_usize(batching) ==> #[trigger] batch_present(batching, k)
}

/// The indices among the first `n` whose batch id is `k`, in order.
pub open spec fn batch_members(batching: Seq<usize>, k: usize, n: int) -> Seq<usize>
    decreases n,
{
    if n <= 0 {
        Seq::empty()
    } else {
        let prev = batch_members(batching, k, n - 1);
        if batching[n - 1] == k {
            prev.push((n - 1) as usize)
        } else {
            prev
        }
    }
}

/// Consecutive batch ids number at most the fractions batched.
proof fn lemma_consecutive_max_below_len(batching: Seq<usize>)
    requires
        batches_consecutive(batching),
    ensures
        seq_max_usize(batching) < batching.len(),
{
    let n = batching.len() as int;
    let m = seq_max_usize(batching) as int;
    let x = vstd::set_lib::set_int_range(0, n);
    let f = |i: int| batching[i] as int;
    let y = x.map(f);
    vstd::set_lib::lemma_int_range(0, n);
    vstd::set_lib::lemma_map_size_bound(x, y, f);
    let r = vstd::set_lib::set_int_range(0, m + 1);
    assert forall|k: int| r.contains(k) implies y.contains(k) by {
        assert(batch_present(batching, k));
        let i = choose|i: int| 0 <= i < batching.len() && batching[i] == k;
        assert(x.contains(i));
        assert(f(i) == k);
    }
    vstd::set_lib::lemma_len_subset(r, y);
    vstd::set_lib::lemma_int_range(0, m + 1);
}

/// Groups the fractions of a logup by batch: entry `k` lists, in order, the
/// indices of the fractions in batch `k`, for every batch up to the last.
/// The batch ids must run from zero without gaps.
pub fn group_logup_batches(batching: &[usize]) -> (r: Vec<Vec<usize>>)
    requires
        batches_consecutive(batching@),
    ensures
        r@.len() == seq_max_usize(batching@) + 1,
        forall|k: int|
            0 <= k < r@.len() ==> (#[trigger] r@[k])@ == batch_members(batching@, k as usize, batching@.len() as int),
{
    let mut last: usize = 0;
    let mut i: usize = 0;
    while i < batching.len()
        invariant
            i <= batching@.len(),
            last == seq_max_usize(batching@.take(i as int)),
        decreases batching@.len() - i,
    {
        assert(batching@.take(i + 1).drop_last() =~= batching@.take(i as int));
        if batching[i] > last {
            last = batching[i];
        }
        i = i + 1;
    }
    assert(batching@.take(batching@.len() as int) =~= batching@);
    proof {
        lemma_consecutive_max_below_len(batching@);
    }
    let mut groups: Vec<Vec<usize>> = Vec::new();
    let mut k: usize = 0;
    while k <= last
        invariant
            last == seq_max_usize(batching@),
            last < batching@.len(),
            k <= last + 1,
            groups@.len() == k,
            forall|j: int|
                0 <= j < k ==> (#[trigger] groups@[j])@ == batch_members(batching@, j as usize, batching@.len() as int),
        decreases last + 1 - k,
    {
        let mut members: Vec<usize> = Vec::new();
        let mut t: usize = 0;
        while t < batching.len()
            invariant
                t <= batching@.len(),
                members@ == batch_members(batching@, k, t as int),
            decreases batching@.len() - t,
        {
            if batching[t] == k {
                members.push(t);
            }
            t = t + 1;
        }
        groups.push(members);
        k = k + 1;
    }
    groups
}

/// The batching of a logup with one fraction per batch.
pub fn logup_batching_single(n: usize) -> (r: Vec<usize>)
    ensures
        r@ == Seq::new(n as nat, |i: int| i as usize),
{
    let mut out: Vec<usize> = Vec::new();
    let mut i: usize = 0;
    while i < n
        invariant
            i <= n,
            out@ == Seq::new(i as nat, |j: int| j as usize),
        decreases n - i,
    {
        out.push(i);
        assert(out@ =~= Seq::new((i + 1) as nat, |j: int| j as usize));
        i = i + 1;
    }
    out
}

/// The batching of a logup with its fractions in pairs.
pub fn logup_batching_in_pairs(n: usize) -> (r: Vec<usize>)
    ensures
        r@ == Seq::new(n as nat, |i: int| (i / 2) as usize),
{
    let mut out: Vec<usize> = Vec::new();
    let mut i: usize = 0;
    while i < n
        invariant
            i <= n,
            out@ == Seq::new(i as nat, |j: int| (j / 2) as usize),
        decreases n - i,
    {
        out.push(i / 2);
        assert(out@ =~= Seq::new((i + 1) as nat, |j: int| (j / 2) as usize));
        i = i + 1;
    }
    out
}

} // verus!
