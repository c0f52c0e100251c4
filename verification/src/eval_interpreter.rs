use vstd::prelude::*;

use crate::eval_lowering::OwnedMetalEvaluationProgramV1;
use crate::eval_program::{
    spec_base_opcode_from_raw, spec_ext_opcode_from_raw, MetalEvaluationProgramBaseInstV1,
    MetalEvaluationProgramBaseOpcodeV1, MetalEvaluationProgramExtInstV1,
    MetalEvaluationProgramExtOpcodeV1,
};
use crate::field_ops::{
    cm31_mul, base_add, base_inverse, base_mul, base_neg, base_sub, is_canonical, m31_add, m31_inverse,
    m31_mul, m31_neg, m31_sub, qm31, qm31_add, qm31_from_partial_evals, qm31_mul, qm31_neg,
    qm31_sub, qm31_zero, secure_add, secure_from_partial_evals, secure_mul, secure_neg,
    secure_sub, secure_zero, M31_P,
};
use crate::sampled_values::MetalSecureFieldValueV1;

verus! {

/// The trace a program reads: interactions of columns of base-field cells,
/// and preprocessed columns.
#[derive(Copy, Clone, Debug)]
pub struct MetalEvaluationProgramTraceViewV1<'a> {
    pub trace_interactions: &'a [&'a [&'a [u32]]],
    pub preprocessed_columns: &'a [&'a [u32]],
}

/// Everything a program reads besides its own sections.
#[derive(Copy, Clone, Debug)]
pub struct MetalEvaluationProgramRuntimeInputsV1<'a> {
    pub trace: MetalEvaluationProgramTraceViewV1<'a>,
    pub base_params: &'a [u32],
    pub ext_params: &'a [MetalSecureFieldValueV1],
    pub random_coeff_powers: &'a [MetalSecureFieldValueV1],
}

#[derive(Copy, Clone, Debug, PartialEq, Eq, Structural)]
pub enum MetalEvaluationProgramInterpreterError {
    EmptyTrace,
    InconsistentTraceColumnLength { expected_len: usize, actual_len: usize },
    InconsistentPreprocessedColumnLength { expected_len: usize, actual_len: usize },
    TraceInteractionOutOfRange { interaction: usize, available: usize },
    TraceColumnOutOfRange { interaction: usize, column: usize, available: usize },
    PreprocessedColumnOutOfRange { column: usize, available: usize },
    BaseParamOutOfRange { slot: usize, available: usize },
    ExtParamOutOfRange { slot: usize, available: usize },
    BaseRegisterOutOfRange { register: usize, available: usize },
    ExtRegisterOutOfRange { register: usize, available: usize },
    ConstraintRootOutOfRange { root: usize, available: usize },
    RandomCoeffCountMismatch { expected: usize, actual: usize },
    NonZeroTraceOffsetUnsupported { offset: i32 },
    UnsupportedBaseOpcode { opcode: u8 },
    UnsupportedExtOpcode { opcode: u8 },
}

type InterpError = MetalEvaluationProgramInterpreterError;

// ---------------------------------------------------------------------------
// Views of the runtime inputs.
// ---------------------------------------------------------------------------

pub open spec fn columns_view(columns: Seq<&[u32]>) -> Seq<Seq<u32>> {
    columns.map_values(|c: &[u32]| c@)
}

pub open spec fn interactions_view(interactions: Seq<&[&[u32]]>) -> Seq<Seq<Seq<u32>>> {
    interactions.map_values(|i: &[&[u32]]| columns_view(i@))
}

pub open spec fn limbs_view(values: Seq<MetalSecureFieldValueV1>) -> Seq<Seq<u32>> {
    values.map_values(|v: MetalSecureFieldValueV1| v.limbs@)
}

/// The secure-field value `(x, 0, 0, 0)` of a base-field value.
pub open spec fn embed(x: u32) -> Seq<u32> {
    qm31(x, 0, 0, 0)
}

// ---------------------------------------------------------------------------
// Semantics of one row.
// ---------------------------------------------------------------------------

/// Reading base register `r` from `regs`.
pub open spec fn base_reg_error(regs: Seq<u32>, r: u32) -> Option<InterpError> {
    if r >= regs.len() {
        Some(InterpError::BaseRegisterOutOfRange { register: r as usize, available: regs.len() as usize })
    } else {
        None
    }
}

/// Reading extension register `r` from `regs`.
pub open spec fn ext_reg_error(regs: Seq<Seq<u32>>, r: u32) -> Option<InterpError> {
    if r >= regs.len() {
        Some(InterpError::ExtRegisterOutOfRange { register: r as usize, available: regs.len() as usize })
    } else {
        None
    }
}

/// The value of one base instruction at `row`; `None` when it would invert
/// zero, which panics.
pub open spec fn spec_eval_base_inst(
    inst: MetalEvaluationProgramBaseInstV1,
    row: int,
    inter: Seq<Seq<Seq<u32>>>,
    pre: Seq<Seq<u32>>,
    params: Seq<u32>,
    regs: Seq<u32>,
) -> Option<Result<u32, InterpError>> {
    match spec_base_opcode_from_raw(inst.op) {
        None => Some(Err(InterpError::UnsupportedBaseOpcode { opcode: inst.op })),
        Some(op) => match op {
            MetalEvaluationProgramBaseOpcodeV1::TraceCol => if inst.imm != 0 {
                Some(Err(InterpError::NonZeroTraceOffsetUnsupported { offset: inst.imm }))
            } else if inst.interaction >= inter.len() {
                Some(
                    Err(
                        InterpError::TraceInteractionOutOfRange {
                            interaction: inst.interaction as usize,
                            available: inter.len() as usize,
                        },
                    ),
                )
            } else if inst.a >= inter[inst.interaction as int].len() {
                Some(
                    Err(
                        InterpError::TraceColumnOutOfRange {
                            interaction: inst.interaction as usize,
                            column: inst.a as usize,
                            available: inter[inst.interaction as int].len() as usize,
                        },
                    ),
                )
            } else {
                Some(Ok(inter[inst.interaction as int][inst.a as int][row]))
            },
            MetalEvaluationProgramBaseOpcodeV1::PreprocessedCol => if inst.a >= pre.len() {
                Some(
                    Err(
                        InterpError::PreprocessedColumnOutOfRange {
                            column: inst.a as usize,
                            available: pre.len() as usize,
                        },
                    ),
                )
            } else {
                Some(Ok(pre[inst.a as int][row]))
            },
            MetalEvaluationProgramBaseOpcodeV1::Param => if inst.a >= params.len() {
                Some(
                    Err(InterpError::BaseParamOutOfRange { slot: inst.a as usize, available: params.len() as usize }),
                )
            } else {
                Some(Ok(params[inst.a as int]))
            },
            MetalEvaluationProgramBaseOpcodeV1::Const => Some(Ok(inst.a)),
            MetalEvaluationProgramBaseOpcodeV1::Neg => match base_reg_error(regs, inst.a) {
                Some(e) => Some(Err(e)),
                None => Some(Ok(m31_neg(regs[inst.a as int]))),
            },
            MetalEvaluationProgramBaseOpcodeV1::Inv => match base_reg_error(regs, inst.a) {
                Some(e) => Some(Err(e)),
                None => if regs[inst.a as int] == 0 {
                    None
                } else {
                    Some(Ok(m31_inverse(regs[inst.a as int])))
                },
            },
            _ => match base_reg_error(regs, inst.a) {
                Some(e) => Some(Err(e)),
                None => match base_reg_error(regs, inst.b) {
                    Some(e) => Some(Err(e)),
                    None => {
                        let x = regs[inst.a as int];
                        let y = regs[inst.b as int];
                        Some(
                            Ok(
                                if op == MetalEvaluationProgramBaseOpcodeV1::Add {
                                    m31_add(x, y)
                                } else if op == MetalEvaluationProgramBaseOpcodeV1::Sub {
                                    m31_sub(x, y)
                                } else {
                                    m31_mul(x, y)
                                },
                            ),
                        )
                    },
                },
            },
        },
    }
}

/// The inputs a row reads are canonical and every column holds `n_rows`
/// cells.
pub open spec fn row_inputs_ok(
    inter: Seq<Seq<Seq<u32>>>,
    pre: Seq<Seq<u32>>,
    params: Seq<u32>,
    n_rows: nat,
) -> bool {
    &&& forall|i: int, j: int|
        0 <= i < inter.len() && 0 <= j < inter[i].len() ==> #[trigger] inter[i][j].len() == n_rows
    &&& forall|i: int, j: int, k: int|
        0 <= i < inter.len() && 0 <= j < inter[i].len() && 0 <= k < inter[i][j].len()
            ==> #[trigger] inter[i][j][k] < M31_P
    &&& forall|j: int| 0 <= j < pre.len() ==> #[trigger] pre[j].len() == n_rows
    &&& forall|j: int, k: int| 0 <= j < pre.len() && 0 <= k < pre[j].len() ==> #[trigger] pre[j][k] < M31_P
    &&& forall|k: int| 0 <= k < params.len() ==> #[trigger] params[k] < M31_P
}

/// Every base register holds a canonical value.
pub open spec fn base_regs_canonical(regs: Seq<u32>) -> bool {
    forall|k: int| 0 <= k < regs.len() ==> #[trigger] regs[k] < M31_P
}

/// Evaluates one base instruction at `row`.
fn interpret_base_inst(
    inst: MetalEvaluationProgramBaseInstV1,
    row: usize,
    interactions: &[&[&[u32]]],
    preprocessed_columns: &[&[u32]],
    base_params: &[u32],
    base_regs: &Vec<u32>,
) -> (r: Result<u32, InterpError>)
    requires
        exists|n: nat|
            row < n && row_inputs_ok(
                interactions_view(interactions@),
                columns_view(preprocessed_columns@),
                base_params@,
                n,
            ),
        base_regs_canonical(base_regs@),
        spec_base_opcode_from_raw(inst.op) == Some(MetalEvaluationProgramBaseOpcodeV1::Const) ==> inst.a
            < M31_P,
        spec_eval_base_inst(
            inst,
            row as int,
            interactions_view(interactions@),
            columns_view(preprocessed_columns@),
            base_params@,
            base_regs@,
        ) is Some,
    ensures
        match r {
            Ok(v) => v < M31_P && spec_eval_base_inst(
                inst,
                row as int,
                interactions_view(interactions@),
                columns_view(preprocessed_columns@),
                base_params@,
                base_regs@,
            ) == Some(Ok::<u32, InterpError>(v)),
            Err(e) => spec_eval_base_inst(
                inst,
                row as int,
                interactions_view(interactions@),
                columns_view(preprocessed_columns@),
                base_params@,
                base_regs@,
            ) == Some(Err::<u32, InterpError>(e)),
        },
{
    let ghost n: nat = choose|n: nat|
        row < n && row_inputs_ok(
            interactions_view(interactions@),
            columns_view(preprocessed_columns@),
            base_params@,
            n,
        );
    let op = match MetalEvaluationProgramBaseOpcodeV1::from_raw(inst.op) {
        None => {
            return Err(InterpError::UnsupportedBaseOpcode { opcode: inst.op });
        },
        Some(op) => op,
    };
    let n_regs = base_regs.len();
    match op {
        MetalEvaluationProgramBaseOpcodeV1::TraceCol => {
            if inst.imm != 0 {
                return Err(InterpError::NonZeroTraceOffsetUnsupported { offset: inst.imm });
            }
            let interaction = inst.interaction as usize;
            if interaction >= interactions.len() {
                return Err(
                    InterpError::TraceInteractionOutOfRange { interaction, available: interactions.len() },
                );
            }
            let columns = interactions[interaction];
            let column = inst.a as usize;
            if column >= columns.len() {
                return Err(
                    InterpError::TraceColumnOutOfRange { interaction, column, available: columns.len() },
                );
            }
            let values = columns[column];
            assert(interactions_view(interactions@)[interaction as int][column as int] == values@);
            assert(values@.len() == n);
            Ok(values[row])
        },
        MetalEvaluationProgramBaseOpcodeV1::PreprocessedCol => {
            let column = inst.a as usize;
            if column >= preprocessed_columns.len() {
                return Err(
                    InterpError::PreprocessedColumnOutOfRange {
                        column,
                        available: preprocessed_columns.len(),
                    },
                );
            }
            let values = preprocessed_columns[column];
            assert(columns_view(preprocessed_columns@)[column as int] == values@);
            Ok(values[row])
        },
        MetalEvaluationProgramBaseOpcodeV1::Param => {
            let slot = inst.a as usize;
            if slot >= base_params.len() {
                return Err(InterpError::BaseParamOutOfRange { slot, available: base_params.len() });
            }
            Ok(base_params[slot])
        },
        MetalEvaluationProgramBaseOpcodeV1::Const => Ok(inst.a),
        _ => {
            let a = inst.a as usize;
            if a >= n_regs {
                return Err(InterpError::BaseRegisterOutOfRange { register: a, available: n_regs });
            }
            let x = base_regs[a];
            match op {
                MetalEvaluationProgramBaseOpcodeV1::Neg => Ok(base_neg(x)),
                MetalEvaluationProgramBaseOpcodeV1::Inv => Ok(base_inverse(x)),
                _ => {
                    let b = inst.b as usize;
                    if b >= n_regs {
                        return Err(InterpError::BaseRegisterOutOfRange { register: b, available: n_regs });
                    }
                    let y = base_regs[b];
                    match op {
                        MetalEvaluationProgramBaseOpcodeV1::Add => Ok(base_add(x, y)),
                        MetalEvaluationProgramBaseOpcodeV1::Sub => Ok(base_sub(x, y)),
                        _ => Ok(base_mul(x, y)),
                    }
                },
            }
        },
    }
}

/// The value of a `SecureCol` instruction: the secure-field value whose
/// coordinates are four base registers.
pub open spec fn spec_secure_col(inst: MetalEvaluationProgramExtInstV1, base_regs: Seq<u32>) -> Result<
    Seq<u32>,
    InterpError,
> {
    match base_reg_error(base_regs, inst.a) {
        Some(e) => Err(e),
        None => match base_reg_error(base_regs, inst.b) {
            Some(e) => Err(e),
            None => match base_reg_error(base_regs, inst.c) {
                Some(e) => Err(e),
                None => match base_reg_error(base_regs, inst.d) {
                    Some(e) => Err(e),
                    None => Ok(
                        qm31_from_partial_evals(
                            embed(base_regs[inst.a as int]),
                            embed(base_regs[inst.b as int]),
                            embed(base_regs[inst.c as int]),
                            embed(base_regs[inst.d as int]),
                        ),
                    ),
                },
            },
        },
    }
}

/// The value of an extension instruction over registers: `Neg` reads `a`;
/// `Add`, `Sub` and `Mul` read `a` then `b`.
pub open spec fn spec_ext_register_op(
    op: MetalEvaluationProgramExtOpcodeV1,
    inst: MetalEvaluationProgramExtInstV1,
    regs: Seq<Seq<u32>>,
) -> Result<Seq<u32>, InterpError> {
    match ext_reg_error(regs, inst.a) {
        Some(e) => Err(e),
        None => if op == MetalEvaluationProgramExtOpcodeV1::Neg {
            Ok(qm31_neg(regs[inst.a as int]))
        } else {
            match ext_reg_error(regs, inst.b) {
                Some(e) => Err(e),
                None => {
                    let x = regs[inst.a as int];
                    let y = regs[inst.b as int];
                    Ok(
                        if op == MetalEvaluationProgramExtOpcodeV1::Add {
                            qm31_add(x, y)
                        } else if op == MetalEvaluationProgramExtOpcodeV1::Sub {
                            qm31_sub(x, y)
                        } else {
                            qm31_mul(x, y)
                        },
                    )
                },
            }
        },
    }
}

/// The value of one extension instruction.
pub open spec fn spec_eval_ext_inst(
    inst: MetalEvaluationProgramExtInstV1,
    params: Seq<Seq<u32>>,
    base_regs: Seq<u32>,
    regs: Seq<Seq<u32>>,
) -> Result<Seq<u32>, InterpError> {
    match spec_ext_opcode_from_raw(inst.op) {
        None => Err(InterpError::UnsupportedExtOpcode { opcode: inst.op }),
        Some(op) => match op {
            MetalEvaluationProgramExtOpcodeV1::SecureCol => spec_secure_col(inst, base_regs),
            MetalEvaluationProgramExtOpcodeV1::Param => if inst.a >= params.len() {
                Err(InterpError::ExtParamOutOfRange { slot: inst.a as usize, available: params.len() as usize })
            } else {
                Ok(params[inst.a as int])
            },
            MetalEvaluationProgramExtOpcodeV1::Const => Ok(qm31(inst.a, inst.b, inst.c, inst.d)),
            _ => spec_ext_register_op(op, inst, regs),
        },
    }
}

/// Every value is canonical.
pub open spec fn values_canonical(values: Seq<MetalSecureFieldValueV1>) -> bool {
    forall|k: int| 0 <= k < values.len() ==> is_canonical(#[trigger] values[k])
}

fn interpret_secure_col(inst: MetalEvaluationProgramExtInstV1, base_regs: &Vec<u32>) -> (r: Result<
    MetalSecureFieldValueV1,
    InterpError,
>)
    requires
        base_regs_canonical(base_regs@),
    ensures
        match r {
            Ok(v) => is_canonical(v) && spec_secure_col(inst, base_regs@) == Ok::<Seq<u32>, InterpError>(
                v.limbs@,
            ),
            Err(e) => spec_secure_col(inst, base_regs@) == Err::<Seq<u32>, InterpError>(e),
        },
{
    let n_base = base_regs.len();
    let a = inst.a as usize;
    if a >= n_base {
        return Err(InterpError::BaseRegisterOutOfRange { register: a, available: n_base });
    }
    let b = inst.b as usize;
    if b >= n_base {
        return Err(InterpError::BaseRegisterOutOfRange { register: b, available: n_base });
    }
    let c = inst.c as usize;
    if c >= n_base {
        return Err(InterpError::BaseRegisterOutOfRange { register: c, available: n_base });
    }
    let d = inst.d as usize;
    if d >= n_base {
        return Err(InterpError::BaseRegisterOutOfRange { register: d, available: n_base });
    }
    let ea = MetalSecureFieldValueV1 { limbs: [base_regs[a], 0, 0, 0] };
    let eb = MetalSecureFieldValueV1 { limbs: [base_regs[b], 0, 0, 0] };
    let ec = MetalSecureFieldValueV1 { limbs: [base_regs[c], 0, 0, 0] };
    let ed = MetalSecureFieldValueV1 { limbs: [base_regs[d], 0, 0, 0] };
    assert(ea.limbs@ =~= embed(base_regs@[a as int]));
    assert(eb.limbs@ =~= embed(base_regs@[b as int]));
    assert(ec.limbs@ =~= embed(base_regs@[c as int]));
    assert(ed.limbs@ =~= embed(base_regs@[d as int]));
    Ok(secure_from_partial_evals(ea, eb, ec, ed))
}

fn interpret_ext_register_op(
    op: MetalEvaluationProgramExtOpcodeV1,
    inst: MetalEvaluationProgramExtInstV1,
    ext_regs: &Vec<MetalSecureFieldValueV1>,
) -> (r: Result<MetalSecureFieldValueV1, InterpError>)
    requires
        values_canonical(ext_regs@),
    ensures
        match r {
            Ok(v) => is_canonical(v) && spec_ext_register_op(op, inst, limbs_view(ext_regs@)) == Ok::<
                Seq<u32>,
                InterpError,
            >(v.limbs@),
            Err(e) => spec_ext_register_op(op, inst, limbs_view(ext_regs@)) == Err::<Seq<u32>, InterpError>(
                e,
            ),
        },
{
    let n_ext = ext_regs.len();
    let a = inst.a as usize;
    if a >= n_ext {
        return Err(InterpError::ExtRegisterOutOfRange { register: a, available: n_ext });
    }
    let x = ext_regs[a];
    assert(limbs_view(ext_regs@)[a as int] == x.limbs@);
    if op == MetalEvaluationProgramExtOpcodeV1::Neg {
        return Ok(secure_neg(x));
    }
    let b = inst.b as usize;
    if b >= n_ext {
        return Err(InterpError::ExtRegisterOutOfRange { register: b, available: n_ext });
    }
    let y = ext_regs[b];
    assert(limbs_view(ext_regs@)[b as int] == y.limbs@);
    if op == MetalEvaluationProgramExtOpcodeV1::Add {
        Ok(secure_add(x, y))
    } else if op == MetalEvaluationProgramExtOpcodeV1::Sub {
        Ok(secure_sub(x, y))
    } else {
        Ok(secure_mul(x, y))
    }
}

/// Evaluates one extension instruction.
fn interpret_ext_inst(
    inst: MetalEvaluationProgramExtInstV1,
    ext_params: &[MetalSecureFieldValueV1],
    base_regs: &Vec<u32>,
    ext_regs: &Vec<MetalSecureFieldValueV1>,
) -> (r: Result<MetalSecureFieldValueV1, InterpError>)
    requires
        base_regs_canonical(base_regs@),
        values_canonical(ext_params@),
        values_canonical(ext_regs@),
        spec_ext_opcode_from_raw(inst.op) == Some(MetalEvaluationProgramExtOpcodeV1::Const) ==> (inst.a
            < M31_P && inst.b < M31_P && inst.c < M31_P && inst.d < M31_P),
    ensures
        match r {
            Ok(v) => is_canonical(v) && spec_eval_ext_inst(
                inst,
                limbs_view(ext_params@),
                base_regs@,
                limbs_view(ext_regs@),
            ) == Ok::<Seq<u32>, InterpError>(v.limbs@),
            Err(e) => spec_eval_ext_inst(inst, limbs_view(ext_params@), base_regs@, limbs_view(ext_regs@))
                == Err::<Seq<u32>, InterpError>(e),
        },
{
    let op = match MetalEvaluationProgramExtOpcodeV1::from_raw(inst.op) {
        None => {
            return Err(InterpError::UnsupportedExtOpcode { opcode: inst.op });
        },
        Some(op) => op,
    };
    match op {
        MetalEvaluationProgramExtOpcodeV1::SecureCol => interpret_secure_col(inst, base_regs),
        MetalEvaluationProgramExtOpcodeV1::Param => {
            let slot = inst.a as usize;
            if slot >= ext_params.len() {
                return Err(InterpError::ExtParamOutOfRange { slot, available: ext_params.len() });
            }
            assert(limbs_view(ext_params@)[slot as int] == ext_params@[slot as int].limbs@);
            Ok(ext_params[slot])
        },
        MetalEvaluationProgramExtOpcodeV1::Const => {
            let v = MetalSecureFieldValueV1 { limbs: [inst.a, inst.b, inst.c, inst.d] };
            assert(v.limbs@ =~= qm31(inst.a, inst.b, inst.c, inst.d));
            Ok(v)
        },
        _ => interpret_ext_register_op(op, inst, ext_regs),
    }
}

// ---------------------------------------------------------------------------
// Whole rows and the whole trace.
// ---------------------------------------------------------------------------

/// The base registers after running base instructions `i..` at `row`.
pub open spec fn base_fold(
    insts: Seq<MetalEvaluationProgramBaseInstV1>,
    i: int,
    row: int,
    inter: Seq<Seq<Seq<u32>>>,
    pre: Seq<Seq<u32>>,
    params: Seq<u32>,
    regs: Seq<u32>,
) -> Option<Result<Seq<u32>, InterpError>>
    decreases insts.len() - i,
{
    if i < 0 || i >= insts.len() {
        Some(Ok(regs))
    } else {
        let inst = insts[i];
        if inst.dst >= regs.len() {
            Some(Err(InterpError::BaseRegisterOutOfRange { register: inst.dst as usize, available: regs.len() as usize }))
        } else {
            match spec_eval_base_inst(inst, row, inter, pre, params, regs) {
                None => None,
                Some(Err(e)) => Some(Err(e)),
                Some(Ok(v)) => base_fold(insts, i + 1, row, inter, pre, params, regs.update(inst.dst as int, v)),
            }
        }
    }
}

/// The extension registers after running extension instructions `i..`.
pub open spec fn ext_fold(
    insts: Seq<MetalEvaluationProgramExtInstV1>,
    i: int,
    params: Seq<Seq<u32>>,
    base_regs: Seq<u32>,
    regs: Seq<Seq<u32>>,
) -> Result<Seq<Seq<u32>>, InterpError>
    decreases insts.len() - i,
{
    if i < 0 || i >= insts.len() {
        Ok(regs)
    } else {
        let inst = insts[i];
        if inst.dst >= regs.len() {
            Err(InterpError::ExtRegisterOutOfRange { register: inst.dst as usize, available: regs.len() as usize })
        } else {
            match spec_eval_ext_inst(inst, params, base_regs, regs) {
                Err(e) => Err(e),
                Ok(v) => ext_fold(insts, i + 1, params, base_regs, regs.update(inst.dst as int, v)),
            }
        }
    }
}

/// The random linear combination of the constraint roots from index `k` on,
/// added to `acc`.
pub open spec fn accumulate(
    roots: Seq<u32>,
    coeffs: Seq<Seq<u32>>,
    regs: Seq<Seq<u32>>,
    k: int,
    acc: Seq<u32>,
) -> Result<Seq<u32>, InterpError>
    decreases roots.len() - k,
{
    if k < 0 || k >= roots.len() {
        Ok(acc)
    } else if roots[k] >= regs.len() {
        Err(InterpError::ConstraintRootOutOfRange { root: roots[k] as usize, available: regs.len() as usize })
    } else {
        accumulate(roots, coeffs, regs, k + 1, qm31_add(acc, qm31_mul(coeffs[k], regs[roots[k] as int])))
    }
}

/// The constraint value of one row; `None` when the row would invert zero.
pub open spec fn spec_eval_row(
    program: OwnedMetalEvaluationProgramV1,
    row: int,
    inter: Seq<Seq<Seq<u32>>>,
    pre: Seq<Seq<u32>>,
    base_params: Seq<u32>,
    ext_params: Seq<Seq<u32>>,
    coeffs: Seq<Seq<u32>>,
) -> Option<Result<Seq<u32>, InterpError>> {
    let n_base = program.spec_header().max_base_regs as nat;
    let n_ext = program.spec_header().max_ext_regs as nat;
    match base_fold(program.spec_base_insts(), 0, row, inter, pre, base_params, zeroed_base_regs(n_base)) {
        None => None,
        Some(Err(e)) => Some(Err(e)),
        Some(Ok(base_regs)) => match ext_fold(
            program.spec_ext_insts(),
            0,
            ext_params,
            base_regs,
            zeroed_ext_regs(n_ext),
        ) {
            Err(e) => Some(Err(e)),
            Ok(ext_regs) => Some(accumulate(program.spec_constraint_roots(), coeffs, ext_regs, 0, qm31_zero())),
        },
    }
}

/// The values of rows `r..n` appended to `acc`; the first row error wins.
pub open spec fn rows_from(
    program: OwnedMetalEvaluationProgramV1,
    r: int,
    n: int,
    inter: Seq<Seq<Seq<u32>>>,
    pre: Seq<Seq<u32>>,
    base_params: Seq<u32>,
    ext_params: Seq<Seq<u32>>,
    coeffs: Seq<Seq<u32>>,
    acc: Seq<Seq<u32>>,
) -> Option<Result<Seq<Seq<u32>>, InterpError>>
    decreases n - r,
{
    if r >= n {
        Some(Ok(acc))
    } else {
        match spec_eval_row(program, r, inter, pre, base_params, ext_params, coeffs) {
            None => None,
            Some(Err(e)) => Some(Err(e)),
            Some(Ok(v)) => rows_from(program, r + 1, n, inter, pre, base_params, ext_params, coeffs, acc.push(v)),
        }
    }
}

/// The first interaction from `i` on that has a column.
pub open spec fn first_nonempty_interaction(inter: Seq<Seq<Seq<u32>>>, i: int) -> Option<int>
    decreases inter.len() - i,
{
    if i < 0 || i >= inter.len() {
        None
    } else if inter[i].len() > 0 {
        Some(i)
    } else {
        first_nonempty_interaction(inter, i + 1)
    }
}

/// The length of the first trace column, in interaction order from column
/// `j` of interaction `i` on, that does not hold `n` cells.
pub open spec fn first_trace_len_mismatch(inter: Seq<Seq<Seq<u32>>>, n: nat, i: int, j: int) -> Option<nat>
    decreases inter.len() - i, inter[i].len() - j,
{
    if i < 0 || i >= inter.len() || j < 0 {
        None
    } else if j >= inter[i].len() {
        first_trace_len_mismatch(inter, n, i + 1, 0)
    } else if inter[i][j].len() != n {
        Some(inter[i][j].len())
    } else {
        first_trace_len_mismatch(inter, n, i, j + 1)
    }
}

/// The length of the first column from `i` on that does not hold `n` cells.
pub open spec fn first_len_mismatch(columns: Seq<Seq<u32>>, n: nat, i: int) -> Option<nat>
    decreases columns.len() - i,
{
    if i < 0 || i >= columns.len() {
        None
    } else if columns[i].len() != n {
        Some(columns[i].len())
    } else {
        first_len_mismatch(columns, n, i + 1)
    }
}

/// What the interpreter gives: the row count from the first column of the
/// first non-empty interaction, the shape checks in order, then every row;
/// `None` when a row would invert zero.
pub open spec fn spec_interpret(
    program: OwnedMetalEvaluationProgramV1,
    inter: Seq<Seq<Seq<u32>>>,
    pre: Seq<Seq<u32>>,
    base_params: Seq<u32>,
    ext_params: Seq<Seq<u32>>,
    coeffs: Seq<Seq<u32>>,
) -> Option<Result<Seq<Seq<u32>>, InterpError>> {
    match first_nonempty_interaction(inter, 0) {
        None => Some(Err(InterpError::EmptyTrace)),
        Some(i0) => {
            let n = inter[i0][0].len();
            if let Some(actual) = first_trace_len_mismatch(inter, n, 0, 0) {
                Some(Err(InterpError::InconsistentTraceColumnLength { expected_len: n as usize, actual_len: actual as usize }))
            } else if let Some(actual) = first_len_mismatch(pre, n, 0) {
                Some(
                    Err(
                        InterpError::InconsistentPreprocessedColumnLength {
                            expected_len: n as usize,
                            actual_len: actual as usize,
                        },
                    ),
                )
            } else if coeffs.len() != program.spec_constraint_roots().len() {
                Some(
                    Err(
                        InterpError::RandomCoeffCountMismatch {
                            expected: program.spec_constraint_roots().len() as usize,
                            actual: coeffs.len() as usize,
                        },
                    ),
                )
            } else if inter.len() != program.spec_header().n_interactions {
                let wanted = program.spec_header().n_interactions;
                Some(
                    Err(
                        InterpError::TraceInteractionOutOfRange {
                            interaction: (if wanted == 0 { 0 } else { wanted - 1 }) as usize,
                            available: inter.len() as usize,
                        },
                    ),
                )
            } else {
                rows_from(program, 0, n as int, inter, pre, base_params, ext_params, coeffs, Seq::empty())
            }
        },
    }
}

/// The runtime inputs and the program's constants are canonical field
/// elements.
pub open spec fn interpreter_inputs_canonical(
    program: OwnedMetalEvaluationProgramV1,
    runtime: MetalEvaluationProgramRuntimeInputsV1,
) -> bool {
    let inter = interactions_view(runtime.trace.trace_interactions@);
    let pre = columns_view(runtime.trace.preprocessed_columns@);
    &&& forall|i: int, j: int, k: int|
        0 <= i < inter.len() && 0 <= j < inter[i].len() && 0 <= k < inter[i][j].len()
            ==> #[trigger] inter[i][j][k] < M31_P
    &&& forall|j: int, k: int| 0 <= j < pre.len() && 0 <= k < pre[j].len() ==> #[trigger] pre[j][k] < M31_P
    &&& forall|k: int| 0 <= k < runtime.base_params@.len() ==> #[trigger] runtime.base_params@[k] < M31_P
    &&& values_canonical(runtime.ext_params@)
    &&& values_canonical(runtime.random_coeff_powers@)
    &&& forall|k: int|
        0 <= k < program.spec_base_insts().len() && spec_base_opcode_from_raw(
            #[trigger] program.spec_base_insts()[k].op,
        ) == Some(MetalEvaluationProgramBaseOpcodeV1::Const) ==> program.spec_base_insts()[k].a < M31_P
    &&& forall|k: int|
        0 <= k < program.spec_ext_insts().len() && spec_ext_opcode_from_raw(
            #[trigger] program.spec_ext_insts()[k].op,
        ) == Some(MetalEvaluationProgramExtOpcodeV1::Const) ==> {
            let inst = program.spec_ext_insts()[k];
            inst.a < M31_P && inst.b < M31_P && inst.c < M31_P && inst.d < M31_P
        }
}

/// The interpreter's outcome on `runtime`, over views of its inputs.
pub open spec fn spec_interpret_runtime(
    program: OwnedMetalEvaluationProgramV1,
    runtime: MetalEvaluationProgramRuntimeInputsV1,
) -> Option<Result<Seq<Seq<u32>>, InterpError>> {
    spec_interpret(
        program,
        interactions_view(runtime.trace.trace_interactions@),
        columns_view(runtime.trace.preprocessed_columns@),
        runtime.base_params@,
        limbs_view(runtime.ext_params@),
        limbs_view(runtime.random_coeff_powers@),
    )
}

/// `n` base registers holding zero.
pub open spec fn zeroed_base_regs(n: nat) -> Seq<u32> {
    Seq::new(n, |k: int| 0u32)
}

/// `n` extension registers holding zero.
pub open spec fn zeroed_ext_regs(n: nat) -> Seq<Seq<u32>> {
    Seq::new(n, |k: int| qm31_zero())
}

fn zero_base_regs(n: usize) -> (r: Vec<u32>)
    ensures
        r@ == zeroed_base_regs(n as nat),
{
    let mut v: Vec<u32> = Vec::new();
    let mut i: usize = 0;
    while i < n
        invariant
            i <= n,
            v@ == zeroed_base_regs(i as nat),
        decreases n - i,
    {
        v.push(0);
        proof {
            assert(v@ =~= zeroed_base_regs((i + 1) as nat));
        }
        i = i + 1;
    }
    v
}

fn zero_ext_regs(n: usize) -> (r: Vec<MetalSecureFieldValueV1>)
    ensures
        limbs_view(r@) == zeroed_ext_regs(n as nat),
        values_canonical(r@),
{
    let mut v: Vec<MetalSecureFieldValueV1> = Vec::new();
    let mut i: usize = 0;
    while i < n
        invariant
            i <= n,
            v@.len() == i,
            limbs_view(v@) == zeroed_ext_regs(i as nat),
            values_canonical(v@),
        decreases n - i,
    {
        let ghost prev = v@;
        v.push(secure_zero());
        proof {
            assert forall|k: int| 0 <= k < i + 1 implies #[trigger] limbs_view(v@)[k] == qm31_zero() by {
                if k < i {
                    assert(v@[k] == prev[k]);
                    assert(limbs_view(prev)[k] == zeroed_ext_regs(i as nat)[k]);
                }
            }
            assert(limbs_view(v@) =~= zeroed_ext_regs((i + 1) as nat));
        }
        i = i + 1;
    }
    v
}

/// Evaluates one row of the trace.
#[verifier::rlimit(40)]
#[verifier::loop_isolation(false)]
fn interpret_row(
    program: &OwnedMetalEvaluationProgramV1,
    row: usize,
    runtime: MetalEvaluationProgramRuntimeInputsV1,
    Ghost(n): Ghost<nat>,
) -> (r: Result<MetalSecureFieldValueV1, InterpError>)
    requires
        row < n,
        row_inputs_ok(
            interactions_view(runtime.trace.trace_interactions@),
            columns_view(runtime.trace.preprocessed_columns@),
            runtime.base_params@,
            n,
        ),
        interpreter_inputs_canonical(*program, runtime),
        runtime.random_coeff_powers@.len() == program.spec_constraint_roots().len(),
        spec_eval_row(
            *program,
            row as int,
            interactions_view(runtime.trace.trace_interactions@),
            columns_view(runtime.trace.preprocessed_columns@),
            runtime.base_params@,
            limbs_view(runtime.ext_params@),
            limbs_view(runtime.random_coeff_powers@),
        ) is Some,
    ensures
        match r {
            Ok(v) => is_canonical(v) && spec_eval_row(
                *program,
                row as int,
                interactions_view(runtime.trace.trace_interactions@),
                columns_view(runtime.trace.preprocessed_columns@),
                runtime.base_params@,
                limbs_view(runtime.ext_params@),
                limbs_view(runtime.random_coeff_powers@),
            ) == Some(Ok::<Seq<u32>, InterpError>(v.limbs@)),
            Err(e) => spec_eval_row(
                *program,
                row as int,
                interactions_view(runtime.trace.trace_interactions@),
                columns_view(runtime.trace.preprocessed_columns@),
                runtime.base_params@,
                limbs_view(runtime.ext_params@),
                limbs_view(runtime.random_coeff_powers@),
            ) == Some(Err::<Seq<u32>, InterpError>(e)),
        },
{
    let ghost inter = interactions_view(runtime.trace.trace_interactions@);
    let ghost pre = columns_view(runtime.trace.preprocessed_columns@);
    let ghost params = runtime.base_params@;
    let ghost eparams = limbs_view(runtime.ext_params@);
    let ghost coeffs = limbs_view(runtime.random_coeff_powers@);
    let header = program.header();
    let base_insts = program.base_insts();
    let ext_insts = program.ext_insts();
    let roots = program.constraint_roots();
    let max_base_regs = header.max_base_regs as usize;
    let max_ext_regs = header.max_ext_regs as usize;

    let mut base_regs = zero_base_regs(max_base_regs);
    let ghost base_init = base_regs@;
    let mut i: usize = 0;
    while i < base_insts.len()
        invariant
            i <= base_insts@.len(),
            base_insts@ == program.spec_base_insts(),
            base_regs@.len() == max_base_regs,
            base_regs_canonical(base_regs@),
            row < n,
            row_inputs_ok(inter, pre, params, n),
            interpreter_inputs_canonical(*program, runtime),
            inter == interactions_view(runtime.trace.trace_interactions@),
            pre == columns_view(runtime.trace.preprocessed_columns@),
            params == runtime.base_params@,
            base_fold(base_insts@, 0, row as int, inter, pre, params, base_init) is Some,
            base_fold(base_insts@, 0, row as int, inter, pre, params, base_init) == base_fold(
                base_insts@,
                i as int,
                row as int,
                inter,
                pre,
                params,
                base_regs@,
            ),
        decreases base_insts@.len() - i,
    {
        let inst = base_insts[i];
        let dst = inst.dst as usize;
        if dst >= base_regs.len() {
            return Err(InterpError::BaseRegisterOutOfRange { register: dst, available: base_regs.len() });
        }
        assert(program.spec_base_insts()[i as int].op == inst.op);
        let value = interpret_base_inst(
            inst,
            row,
            runtime.trace.trace_interactions,
            runtime.trace.preprocessed_columns,
            runtime.base_params,
            &base_regs,
        );
        match value {
            Err(e) => {
                return Err(e);
            },
            Ok(v) => {
                base_regs.set(dst, v);
            },
        }
        i = i + 1;
    }

    let mut ext_regs = zero_ext_regs(max_ext_regs);
    let ghost ext_init = limbs_view(ext_regs@);
    let ghost base_final = base_regs@;
    let mut j: usize = 0;
    while j < ext_insts.len()
        invariant
            j <= ext_insts@.len(),
            ext_insts@ == program.spec_ext_insts(),
            base_regs@ == base_final,
            base_regs_canonical(base_regs@),
            ext_regs@.len() == max_ext_regs,
            values_canonical(ext_regs@),
            values_canonical(runtime.ext_params@),
            interpreter_inputs_canonical(*program, runtime),
            eparams == limbs_view(runtime.ext_params@),
            ext_fold(ext_insts@, 0, eparams, base_final, ext_init) == ext_fold(
                ext_insts@,
                j as int,
                eparams,
                base_final,
                limbs_view(ext_regs@),
            ),
        decreases ext_insts@.len() - j,
    {
        let inst = ext_insts[j];
        let dst = inst.dst as usize;
        if dst >= ext_regs.len() {
            return Err(InterpError::ExtRegisterOutOfRange { register: dst, available: ext_regs.len() });
        }
        assert(program.spec_ext_insts()[j as int].op == inst.op);
        match interpret_ext_inst(inst, runtime.ext_params, &base_regs, &ext_regs) {
            Err(e) => {
                return Err(e);
            },
            Ok(v) => {
                let ghost prev = ext_regs@;
                ext_regs.set(dst, v);
                proof {
                    assert(limbs_view(ext_regs@) =~= limbs_view(prev).update(dst as int, v.limbs@));
                }
            },
        }
        j = j + 1;
    }

    let ghost ext_final = limbs_view(ext_regs@);
    let mut acc = secure_zero();
    let mut k: usize = 0;
    while k < roots.len()
        invariant
            k <= roots@.len(),
            roots@ == program.spec_constraint_roots(),
            runtime.random_coeff_powers@.len() == roots@.len(),
            coeffs == limbs_view(runtime.random_coeff_powers@),
            values_canonical(runtime.random_coeff_powers@),
            limbs_view(ext_regs@) == ext_final,
            values_canonical(ext_regs@),
            is_canonical(acc),
            accumulate(roots@, coeffs, ext_final, 0, qm31_zero()) == accumulate(
                roots@,
                coeffs,
                ext_final,
                k as int,
                acc.limbs@,
            ),
        decreases roots@.len() - k,
    {
        let root = roots[k] as usize;
        if root >= ext_regs.len() {
            return Err(InterpError::ConstraintRootOutOfRange { root, available: ext_regs.len() });
        }
        let coeff = runtime.random_coeff_powers[k];
        let value = ext_regs[root];
        assert(coeffs[k as int] == coeff.limbs@);
        assert(ext_final[root as int] == value.limbs@);
        acc = secure_add(acc, secure_mul(coeff, value));
        k = k + 1;
    }
    Ok(acc)
}

/// With no length mismatch from `(i, j)` on, every later trace column holds
/// `n` cells.
proof fn lemma_trace_lengths(inter: Seq<Seq<Seq<u32>>>, n: nat, i: int, j: int)
    requires
        0 <= i,
        0 <= j,
        first_trace_len_mismatch(inter, n, i, j) is None,
    ensures
        forall|a: int, b: int|
            (i < a < inter.len() && 0 <= b < inter[a].len()) || (a == i && i < inter.len() && j <= b
                < inter[a].len()) ==> #[trigger] inter[a][b].len() == n,
    decreases inter.len() - i, inter[i].len() - j,
{
    if i < inter.len() {
        if j >= inter[i].len() {
            lemma_trace_lengths(inter, n, i + 1, 0);
        } else {
            lemma_trace_lengths(inter, n, i, j + 1);
        }
    }
}

/// With no length mismatch from `i` on, every later column holds `n` cells.
proof fn lemma_column_lengths(columns: Seq<Seq<u32>>, n: nat, i: int)
    requires
        0 <= i,
        first_len_mismatch(columns, n, i) is None,
    ensures
        forall|a: int| i <= a < columns.len() ==> #[trigger] columns[a].len() == n,
    decreases columns.len() - i,
{
    if i < columns.len() {
        lemma_column_lengths(columns, n, i + 1);
    }
}

/// Runs `program` on every row of the trace and combines each row's
/// constraint values with the random coefficients.
#[verifier::loop_isolation(false)]
pub fn interpret_metal_evaluation_program_v1(
    program: &OwnedMetalEvaluationProgramV1,
    runtime: MetalEvaluationProgramRuntimeInputsV1,
) -> (r: Result<Vec<MetalSecureFieldValueV1>, InterpError>)
    requires
        interpreter_inputs_canonical(*program, runtime),
        spec_interpret_runtime(*program, runtime) is Some,
    ensures
        match r {
            Ok(rows) => spec_interpret_runtime(*program, runtime) == Some(
                Ok::<Seq<Seq<u32>>, InterpError>(limbs_view(rows@)),
            ),
            Err(e) => spec_interpret_runtime(*program, runtime) == Some(
                Err::<Seq<Seq<u32>>, InterpError>(e),
            ),
        },
{
    let ghost inter = interactions_view(runtime.trace.trace_interactions@);
    let ghost pre = columns_view(runtime.trace.preprocessed_columns@);
    let ghost params = runtime.base_params@;
    let ghost eparams = limbs_view(runtime.ext_params@);
    let ghost coeffs = limbs_view(runtime.random_coeff_powers@);
    let interactions = runtime.trace.trace_interactions;
    let preprocessed = runtime.trace.preprocessed_columns;

    let mut first: usize = 0;
    while first < interactions.len() && interactions[first].len() == 0
        invariant
            first <= interactions@.len(),
            first_nonempty_interaction(inter, 0) == first_nonempty_interaction(inter, first as int),
        decreases interactions@.len() - first,
    {
        assert(inter[first as int].len() == 0);
        first = first + 1;
    }
    if first == interactions.len() {
        return Err(InterpError::EmptyTrace);
    }
    assert(inter[first as int].len() > 0);
    let n_rows = interactions[first][0].len();
    assert(inter[first as int][0].len() == n_rows);

    let mut i: usize = 0;
    while i < interactions.len()
        invariant
            i <= interactions@.len(),
            first_trace_len_mismatch(inter, n_rows as nat, 0, 0) == first_trace_len_mismatch(
                inter,
                n_rows as nat,
                i as int,
                0,
            ),
        decreases interactions@.len() - i,
    {
        let columns = interactions[i];
        let mut j: usize = 0;
        while j < columns.len()
            invariant
                j <= columns@.len(),
                columns@ == interactions@[i as int]@,
                first_trace_len_mismatch(inter, n_rows as nat, 0, 0) == first_trace_len_mismatch(
                    inter,
                    n_rows as nat,
                    i as int,
                    j as int,
                ),
            decreases columns@.len() - j,
        {
            assert(inter[i as int][j as int] == columns@[j as int]@);
            if columns[j].len() != n_rows {
                return Err(
                    InterpError::InconsistentTraceColumnLength { expected_len: n_rows, actual_len: columns[j].len() },
                );
            }
            j = j + 1;
        }
        i = i + 1;
    }
    let mut c: usize = 0;
    while c < preprocessed.len()
        invariant
            c <= preprocessed@.len(),
            first_trace_len_mismatch(inter, n_rows as nat, 0, 0) is None,
            first_len_mismatch(pre, n_rows as nat, 0) == first_len_mismatch(pre, n_rows as nat, c as int),
        decreases preprocessed@.len() - c,
    {
        assert(pre[c as int] == preprocessed@[c as int]@);
        if preprocessed[c].len() != n_rows {
            return Err(
                InterpError::InconsistentPreprocessedColumnLength {
                    expected_len: n_rows,
                    actual_len: preprocessed[c].len(),
                },
            );
        }
        c = c + 1;
    }
    let n_roots = program.constraint_roots().len();
    if runtime.random_coeff_powers.len() != n_roots {
        return Err(
            InterpError::RandomCoeffCountMismatch { expected: n_roots, actual: runtime.random_coeff_powers.len() },
        );
    }
    let header = program.header();
    if interactions.len() != header.n_interactions as usize {
        let wanted = header.n_interactions;
        let interaction = if wanted == 0 { 0 } else { wanted - 1 };
        return Err(
            InterpError::TraceInteractionOutOfRange {
                interaction: interaction as usize,
                available: interactions.len(),
            },
        );
    }
    proof {
        lemma_trace_lengths(inter, n_rows as nat, 0, 0);
        lemma_column_lengths(pre, n_rows as nat, 0);
        assert(row_inputs_ok(inter, pre, params, n_rows as nat));
        assert(limbs_view(Seq::<MetalSecureFieldValueV1>::empty()) =~= Seq::<Seq<u32>>::empty());
    }

    let mut rows: Vec<MetalSecureFieldValueV1> = Vec::new();
    let mut row: usize = 0;
    while row < n_rows
        invariant
            row <= n_rows,
            row_inputs_ok(inter, pre, params, n_rows as nat),
            rows_from(*program, 0, n_rows as int, inter, pre, params, eparams, coeffs, Seq::empty()) == rows_from(
                *program,
                row as int,
                n_rows as int,
                inter,
                pre,
                params,
                eparams,
                coeffs,
                limbs_view(rows@),
            ),
        decreases n_rows - row,
    {
        match interpret_row(program, row, runtime, Ghost(n_rows as nat)) {
            Err(e) => {
                return Err(e);
            },
            Ok(v) => {
                let ghost prev = rows@;
                rows.push(v);
                proof {
                    assert(limbs_view(rows@) =~= limbs_view(prev).push(v.limbs@));
                }
            },
        }
        row = row + 1;
    }
    Ok(rows)
}


// ---------------------------------------------------------------------------
// What the instructions compute.
// ---------------------------------------------------------------------------

#[verifier::spinoff_prover]
proof fn lemma_m31_identities(x: u32)
    requires
        x < M31_P,
    ensures
        m31_mul(x, 0) == 0,
        m31_mul(x, 1) == x,
        m31_mul(1, x) == x,
        m31_mul(0, x) == 0,
        m31_add(x, 0) == x,
        m31_add(0, x) == x,
        m31_sub(x, 0) == x,
        m31_sub(0, 0) == 0,
{
    vstd::arithmetic::div_mod::lemma_small_mod(x as nat, M31_P as nat);
    vstd::arithmetic::div_mod::lemma_mod_add_multiples_vanish(x as int, M31_P as int);
}

#[verifier::spinoff_prover]
proof fn lemma_embed_unit_1(x: u32)
    requires
        x < M31_P,
    ensures
        qm31_mul(embed(x), qm31(0, 1, 0, 0)) == qm31(0, x, 0, 0),
{
    reveal(qm31_mul);
    lemma_m31_identities(x);
    lemma_m31_identities(0);
    lemma_m31_identities(1);
    lemma_m31_identities(2);
    assert(cm31_mul((x, 0), (0, 1)) == (0u32, x));
    assert(cm31_mul((2, 1), (0, 0)) == (0u32, 0u32));
    assert(cm31_mul((0, 0), (0, 0)) == (0u32, 0u32));
    assert(cm31_mul((x, 0), (0, 0)) == (0u32, 0u32));
    assert(cm31_mul((0, 0), (0, 1)) == (0u32, 0u32));
    assert(qm31_mul(embed(x), qm31(0, 1, 0, 0)) =~= qm31(0, x, 0, 0));
}

#[verifier::spinoff_prover]
proof fn lemma_embed_unit_2(x: u32)
    requires
        x < M31_P,
    ensures
        qm31_mul(embed(x), qm31(0, 0, 1, 0)) == qm31(0, 0, x, 0),
{
    reveal(qm31_mul);
    lemma_m31_identities(x);
    lemma_m31_identities(0);
    lemma_m31_identities(1);
    lemma_m31_identities(2);
    assert(cm31_mul((x, 0), (0, 0)) == (0u32, 0u32));
    assert(cm31_mul((2, 1), (0, 0)) == (0u32, 0u32));
    assert(cm31_mul((0, 0), (1, 0)) == (0u32, 0u32));
    assert(cm31_mul((x, 0), (1, 0)) == (x, 0u32));
    assert(cm31_mul((0, 0), (0, 0)) == (0u32, 0u32));
    assert(qm31_mul(embed(x), qm31(0, 0, 1, 0)) =~= qm31(0, 0, x, 0));
}

#[verifier::spinoff_prover]
proof fn lemma_embed_unit_3(x: u32)
    requires
        x < M31_P,
    ensures
        qm31_mul(embed(x), qm31(0, 0, 0, 1)) == qm31(0, 0, 0, x),
{
    reveal(qm31_mul);
    lemma_m31_identities(x);
    lemma_m31_identities(0);
    lemma_m31_identities(1);
    lemma_m31_identities(2);
    assert(cm31_mul((x, 0), (0, 0)) == (0u32, 0u32));
    assert(cm31_mul((2, 1), (0, 0)) == (0u32, 0u32));
    assert(cm31_mul((0, 0), (0, 1)) == (0u32, 0u32));
    assert(cm31_mul((x, 0), (0, 1)) == (0u32, x));
    assert(cm31_mul((0, 0), (0, 0)) == (0u32, 0u32));
    assert(qm31_mul(embed(x), qm31(0, 0, 0, 1)) =~= qm31(0, 0, 0, x));
}

/// A `SecureCol` instruction reads its four base registers as the four
/// coordinates of a secure-field value, in operand order: coordinate 0 is
/// register `a`, 1 is `b`, 2 is `c` and 3 is `d`.
#[verifier::spinoff_prover]
pub proof fn lemma_secure_col_reads_registers_in_order(
    inst: MetalEvaluationProgramExtInstV1,
    params: Seq<Seq<u32>>,
    base_regs: Seq<u32>,
    regs: Seq<Seq<u32>>,
)
    requires
        spec_ext_opcode_from_raw(inst.op) == Some(MetalEvaluationProgramExtOpcodeV1::SecureCol),
        inst.a < base_regs.len(),
        inst.b < base_regs.len(),
        inst.c < base_regs.len(),
        inst.d < base_regs.len(),
        base_regs_canonical(base_regs),
    ensures
        spec_eval_ext_inst(inst, params, base_regs, regs) == Ok::<Seq<u32>, InterpError>(
            seq![base_regs[inst.a as int], base_regs[inst.b as int], base_regs[inst.c as int], base_regs[inst.d as int]],
        ),
{
    let (a, b, c, d) = (base_regs[inst.a as int], base_regs[inst.b as int], base_regs[inst.c as int], base_regs[inst.d as int]);
    lemma_embed_unit_1(b);
    lemma_embed_unit_2(c);
    lemma_embed_unit_3(d);
    lemma_m31_identities(a);
    lemma_m31_identities(b);
    lemma_m31_identities(c);
    lemma_m31_identities(d);
    lemma_m31_identities(0);
    reveal(qm31_from_partial_evals);
    assert(qm31_mul(embed(b), qm31(0, 1, 0, 0)) == qm31(0, b, 0, 0));
    assert(qm31_mul(embed(c), qm31(0, 0, 1, 0)) == qm31(0, 0, c, 0));
    assert(qm31_mul(embed(d), qm31(0, 0, 0, 1)) == qm31(0, 0, 0, d));
    let s1 = qm31_add(embed(a), qm31(0, b, 0, 0));
    assert(s1 =~= qm31(a, b, 0, 0));
    let s2 = qm31_add(s1, qm31(0, 0, c, 0));
    assert(s2 =~= qm31(a, b, c, 0));
    assert(qm31_add(s2, qm31(0, 0, 0, d)) =~= qm31(a, b, c, d));
    assert(qm31_from_partial_evals(embed(a), embed(b), embed(c), embed(d)) == qm31_add(s2, qm31(0, 0, 0, d)));
    assert(qm31_from_partial_evals(embed(a), embed(b), embed(c), embed(d)) =~= seq![a, b, c, d]);
}

/// What a base instruction over registers computes, for canonical
/// registers: a constant is its immediate; a negation added to its operand
/// is zero; a sum, difference and product agree with the operands' modulo
/// `P`, a difference added back to `b` giving `a`. Each result is canonical.
#[verifier::spinoff_prover]
pub proof fn lemma_base_inst_computes(
    inst: MetalEvaluationProgramBaseInstV1,
    row: int,
    inter: Seq<Seq<Seq<u32>>>,
    pre: Seq<Seq<u32>>,
    params: Seq<u32>,
    regs: Seq<u32>,
)
    requires
        inst.a < regs.len(),
        inst.b < regs.len(),
        base_regs_canonical(regs),
    ensures
        ({
            let x = regs[inst.a as int];
            let y = regs[inst.b as int];
            let p = M31_P as int;
            let r = spec_eval_base_inst(inst, row, inter, pre, params, regs);
            &&& spec_base_opcode_from_raw(inst.op) == Some(MetalEvaluationProgramBaseOpcodeV1::Const) ==> r == Some(
                Ok::<u32, InterpError>(inst.a),
            )
            &&& spec_base_opcode_from_raw(inst.op) == Some(MetalEvaluationProgramBaseOpcodeV1::Neg) ==> (r matches Some(
                Ok(v),
            ) && v < M31_P && (x + v) % p == 0)
            &&& spec_base_opcode_from_raw(inst.op) == Some(MetalEvaluationProgramBaseOpcodeV1::Add) ==> (r matches Some(
                Ok(v),
            ) && v < M31_P && (x + y - v) % p == 0)
            &&& spec_base_opcode_from_raw(inst.op) == Some(MetalEvaluationProgramBaseOpcodeV1::Sub) ==> (r matches Some(
                Ok(v),
            ) && v < M31_P && (v + y) % p == x)
            &&& spec_base_opcode_from_raw(inst.op) == Some(MetalEvaluationProgramBaseOpcodeV1::Mul) ==> (r matches Some(
                Ok(v),
            ) && v < M31_P && (x * y - v) % p == 0)
        }),
{
    let x = regs[inst.a as int];
    let y = regs[inst.b as int];
    let p = M31_P as int;
    assert(x < M31_P && y < M31_P);
    if spec_base_opcode_from_raw(inst.op) == Some(MetalEvaluationProgramBaseOpcodeV1::Neg) {
        let v = m31_neg(x);
        if x == 0 {
            assert(v == 0);
        } else {
            assert(v == p - x);
        }
    }
    if spec_base_opcode_from_raw(inst.op) == Some(MetalEvaluationProgramBaseOpcodeV1::Add) {
        let v = m31_add(x, y);
        vstd::arithmetic::div_mod::lemma_fundamental_div_mod(x + y, p);
        assert((x + y) / p == 0 || (x + y) / p == 1) by (nonlinear_arith)
            requires
                0 <= x + y < 2 * p,
                p > 0,
        ;
        assert(x + y - v == p * ((x + y) / p));
        vstd::arithmetic::div_mod::lemma_mod_multiples_basic((x + y) / p, p);
    }
    if spec_base_opcode_from_raw(inst.op) == Some(MetalEvaluationProgramBaseOpcodeV1::Sub) {
        let v = m31_sub(x, y);
        if x >= y {
            assert(v == x - y);
            vstd::arithmetic::div_mod::lemma_small_mod(x as nat, p as nat);
        } else {
            vstd::arithmetic::div_mod::lemma_small_mod((x + p - y) as nat, p as nat);
            assert(v == x + p - y);
            vstd::arithmetic::div_mod::lemma_mod_add_multiples_vanish(x as int, p);
            vstd::arithmetic::div_mod::lemma_small_mod(x as nat, p as nat);
        }
    }
    if spec_base_opcode_from_raw(inst.op) == Some(MetalEvaluationProgramBaseOpcodeV1::Mul) {
        let v = m31_mul(x, y);
        vstd::arithmetic::div_mod::lemma_fundamental_div_mod(x * y, p);
        assert(x * y - v == p * ((x * y) / p));
        vstd::arithmetic::div_mod::lemma_mod_multiples_basic((x * y) / p, p);
    }
}


/// A secure-field value given as four canonical limbs.
pub open spec fn limbs_canonical(v: Seq<u32>) -> bool {
    v.len() == 4 && forall|k: int| 0 <= k < 4 ==> #[trigger] v[k] < M31_P
}

#[verifier::spinoff_prover]
pub(crate) proof fn lemma_m31_inverse_ops(x: u32, y: u32)
    requires
        x < M31_P,
        y < M31_P,
    ensures
        m31_add(m31_sub(x, y), y) == x,
        m31_sub(m31_add(x, y), y) == x,
        m31_add(m31_neg(x), x) == 0,
{
    let p = M31_P as int;
    vstd::arithmetic::div_mod::lemma_small_mod(x as nat, p as nat);
    let d = m31_sub(x, y);
    if x >= y {
        vstd::arithmetic::div_mod::lemma_small_mod((x - y) as nat, p as nat);
        assert(d == x - y);
    } else {
        vstd::arithmetic::div_mod::lemma_small_mod((x + p - y) as nat, p as nat);
        assert(d == x + p - y);
        vstd::arithmetic::div_mod::lemma_mod_add_multiples_vanish(x as int, p);
    }
    let s = m31_add(x, y);
    if x + y < p {
        vstd::arithmetic::div_mod::lemma_small_mod((x + y) as nat, p as nat);
        assert(s == x + y);
        vstd::arithmetic::div_mod::lemma_mod_add_multiples_vanish(x as int, p);
    } else {
        vstd::arithmetic::div_mod::lemma_mod_sub_multiples_vanish((x + y) as int, p);
        vstd::arithmetic::div_mod::lemma_small_mod((x + y - p) as nat, p as nat);
        assert(s == x + y - p);
    }
    let n = m31_neg(x);
    if x == 0 {
        vstd::arithmetic::div_mod::lemma_mod_self_0(p);
        assert(n == 0);
        vstd::arithmetic::div_mod::lemma_small_mod(0, p as nat);
    } else {
        vstd::arithmetic::div_mod::lemma_small_mod((p - x) as nat, p as nat);
        assert(n == p - x);
        vstd::arithmetic::div_mod::lemma_mod_self_0(p);
    }
}

#[verifier::spinoff_prover]
proof fn lemma_qm31_neg_cancels(x: Seq<u32>)
    requires
        limbs_canonical(x),
    ensures
        qm31_add(qm31_neg(x), x) == qm31_zero(),
{
    let (x0, x1, x2, x3) = (x[0], x[1], x[2], x[3]);
    assert(x0 < M31_P && x1 < M31_P && x2 < M31_P && x3 < M31_P);
    lemma_m31_inverse_ops(x0, 0);
    lemma_m31_inverse_ops(x1, 0);
    lemma_m31_inverse_ops(x2, 0);
    lemma_m31_inverse_ops(x3, 0);
    assert(qm31_add(qm31_neg(x), x) =~= qm31_zero());
}

#[verifier::spinoff_prover]
proof fn lemma_qm31_add_sub_cancel(x: Seq<u32>, y: Seq<u32>)
    requires
        limbs_canonical(x),
        limbs_canonical(y),
    ensures
        qm31_sub(qm31_add(x, y), y) == x,
        qm31_add(qm31_sub(x, y), y) == x,
{
    lemma_qm31_sub_of_add(x, y);
    lemma_qm31_add_of_sub(x, y);
}

#[verifier::spinoff_prover]
proof fn lemma_qm31_sub_of_add(x: Seq<u32>, y: Seq<u32>)
    requires
        limbs_canonical(x),
        limbs_canonical(y),
    ensures
        qm31_sub(qm31_add(x, y), y) == x,
{
    assert(x[0] < M31_P && x[1] < M31_P && x[2] < M31_P && x[3] < M31_P);
    assert(y[0] < M31_P && y[1] < M31_P && y[2] < M31_P && y[3] < M31_P);
    lemma_m31_inverse_ops(x[0], y[0]);
    lemma_m31_inverse_ops(x[1], y[1]);
    lemma_m31_inverse_ops(x[2], y[2]);
    lemma_m31_inverse_ops(x[3], y[3]);
    let a = qm31_sub(qm31_add(x, y), y);
    assert(a[0] == x[0] && a[1] == x[1] && a[2] == x[2] && a[3] == x[3]);
    assert(a =~= x);
}

#[verifier::spinoff_prover]
proof fn lemma_qm31_add_of_sub(x: Seq<u32>, y: Seq<u32>)
    requires
        limbs_canonical(x),
        limbs_canonical(y),
    ensures
        qm31_add(qm31_sub(x, y), y) == x,
{
    assert(x[0] < M31_P && x[1] < M31_P && x[2] < M31_P && x[3] < M31_P);
    assert(y[0] < M31_P && y[1] < M31_P && y[2] < M31_P && y[3] < M31_P);
    lemma_m31_inverse_ops(x[0], y[0]);
    lemma_m31_inverse_ops(x[1], y[1]);
    lemma_m31_inverse_ops(x[2], y[2]);
    lemma_m31_inverse_ops(x[3], y[3]);
    let b = qm31_add(qm31_sub(x, y), y);
    assert(b[0] == x[0] && b[1] == x[1] && b[2] == x[2] && b[3] == x[3]);
    assert(b =~= x);
}

/// What an extension instruction over registers computes, for canonical
/// registers: a constant is its four immediates; a parameter is the
/// parameter in slot `a`; a negation added to its operand is zero; a sum
/// minus `b` is `a`, and a difference plus `b` is `a`.
#[verifier::spinoff_prover]
#[verifier::rlimit(40)]
pub proof fn lemma_ext_inst_computes(
    inst: MetalEvaluationProgramExtInstV1,
    params: Seq<Seq<u32>>,
    base_regs: Seq<u32>,
    regs: Seq<Seq<u32>>,
)
    requires
        inst.a < regs.len(),
        inst.b < regs.len(),
        limbs_canonical(regs[inst.a as int]),
        limbs_canonical(regs[inst.b as int]),
    ensures
        ({
            let x = regs[inst.a as int];
            let y = regs[inst.b as int];
            let r = spec_eval_ext_inst(inst, params, base_regs, regs);
            &&& spec_ext_opcode_from_raw(inst.op) == Some(MetalEvaluationProgramExtOpcodeV1::Const) ==> r == Ok::<
                Seq<u32>,
                InterpError,
            >(seq![inst.a, inst.b, inst.c, inst.d])
            &&& spec_ext_opcode_from_raw(inst.op) == Some(MetalEvaluationProgramExtOpcodeV1::Param) && inst.a
                < params.len() ==> r == Ok::<Seq<u32>, InterpError>(params[inst.a as int])
            &&& spec_ext_opcode_from_raw(inst.op) == Some(MetalEvaluationProgramExtOpcodeV1::Neg) ==> (r matches Ok(
                v,
            ) && qm31_add(v, x) == qm31_zero())
            &&& spec_ext_opcode_from_raw(inst.op) == Some(MetalEvaluationProgramExtOpcodeV1::Add) ==> (r matches Ok(
                v,
            ) && qm31_sub(v, y) == x)
            &&& spec_ext_opcode_from_raw(inst.op) == Some(MetalEvaluationProgramExtOpcodeV1::Sub) ==> (r matches Ok(
                v,
            ) && qm31_add(v, y) == x)
        }),
{
    let x = regs[inst.a as int];
    let y = regs[inst.b as int];
    lemma_qm31_neg_cancels(x);
    lemma_qm31_add_sub_cancel(x, y);
    let r = spec_eval_ext_inst(inst, params, base_regs, regs);
    match spec_ext_opcode_from_raw(inst.op) {
        Some(MetalEvaluationProgramExtOpcodeV1::Neg) => {
            assert(r == Ok::<Seq<u32>, InterpError>(qm31_neg(x)));
        },
        Some(MetalEvaluationProgramExtOpcodeV1::Add) => {
            assert(r == Ok::<Seq<u32>, InterpError>(qm31_add(x, y)));
        },
        Some(MetalEvaluationProgramExtOpcodeV1::Sub) => {
            assert(r == Ok::<Seq<u32>, InterpError>(qm31_sub(x, y)));
        },
        _ => {},
    }
}


#[verifier::spinoff_prover]
proof fn lemma_one_times(y: Seq<u32>)
    requires
        limbs_canonical(y),
    ensures
        qm31_mul(qm31(1, 0, 0, 0), y) == y,
{
    reveal(qm31_mul);
    let (y0, y1, y2, y3) = (y[0], y[1], y[2], y[3]);
    assert(y0 < M31_P && y1 < M31_P && y2 < M31_P && y3 < M31_P);
    lemma_m31_identities(y0);
    lemma_m31_identities(y1);
    lemma_m31_identities(y2);
    lemma_m31_identities(y3);
    lemma_m31_identities(0);
    lemma_m31_identities(1);
    lemma_m31_identities(2);
    assert(cm31_mul((1, 0), (y0, y1)) == (y0, y1));
    assert(cm31_mul((2, 1), (0, 0)) == (0u32, 0u32));
    assert(cm31_mul((0, 0), (y2, y3)) == (0u32, 0u32));
    assert(cm31_mul((1, 0), (y2, y3)) == (y2, y3));
    assert(cm31_mul((0, 0), (y0, y1)) == (0u32, 0u32));
    assert(qm31_mul(qm31(1, 0, 0, 0), y) =~= y);
}

/// A row whose one constraint root is weighted by the coefficient one has
/// that root's value as its value.
#[verifier::spinoff_prover]
pub proof fn lemma_single_root_unit_coefficient(regs: Seq<Seq<u32>>, root: u32)
    requires
        root < regs.len(),
        limbs_canonical(regs[root as int]),
    ensures
        accumulate(seq![root], seq![qm31(1, 0, 0, 0)], regs, 0, qm31_zero()) == Ok::<Seq<u32>, InterpError>(
            regs[root as int],
        ),
{
    let y = regs[root as int];
    lemma_one_times(y);
    lemma_m31_identities(y[0]);
    lemma_m31_identities(y[1]);
    lemma_m31_identities(y[2]);
    lemma_m31_identities(y[3]);
    assert(qm31_add(qm31_zero(), y) =~= y);
    assert(accumulate(seq![root], seq![qm31(1, 0, 0, 0)], regs, 1, y) == Ok::<Seq<u32>, InterpError>(y));
}

} // verus!
