use vstd::prelude::*;

use crate::capability::MetalRuntimeSupport;
use crate::eval_dispatch::{
    MetalEvaluationProgramExecutionError, METAL_EVAL_PROGRAM_V1_DEVICE_MAX_BASE_REGS,
    METAL_EVAL_PROGRAM_V1_DEVICE_MAX_EXT_REGS,
};
use crate::eval_interpreter::{
    columns_view, first_len_mismatch, first_nonempty_interaction, first_trace_len_mismatch,
    interactions_view, limbs_view, MetalEvaluationProgramRuntimeInputsV1,
};
use crate::eval_lowering::OwnedMetalEvaluationProgramV1;
use crate::eval_program::{
    spec_base_opcode_from_raw, MetalEvaluationProgramBaseInstV1, MetalEvaluationProgramBaseOpcodeV1,
    MetalEvaluationProgramBudgetV1, MetalEvaluationProgramExtInstV1,
};
use crate::sampled_values::MetalSecureFieldValueV1;

verus! {

type ExecError = MetalEvaluationProgramExecutionError;

/// The device words of a base instruction: opcode, interaction and
/// destination packed into one word, then `a`, `b`, and the offset.
pub open spec fn base_inst_words(inst: MetalEvaluationProgramBaseInstV1) -> Seq<u32> {
    seq![
        (inst.op as u32) | ((inst.interaction as u32) << 8u32) | ((inst.dst as u32) << 16u32),
        inst.a,
        inst.b,
        inst.imm as u32,
    ]
}

/// The device words of an extension instruction: opcode, reserved byte and
/// destination packed into one word, then the four operands.
pub open spec fn ext_inst_words(inst: MetalEvaluationProgramExtInstV1) -> Seq<u32> {
    seq![
        (inst.op as u32) | ((inst.reserved0 as u32) << 8u32) | ((inst.dst as u32) << 16u32),
        inst.a,
        inst.b,
        inst.c,
        inst.d,
    ]
}

/// Packs base instructions into consecutive 4-word device records.
pub fn pack_base_insts(values: &[MetalEvaluationProgramBaseInstV1]) -> (r: Vec<u32>)
    ensures
        r@ == values@.map_values(|i: MetalEvaluationProgramBaseInstV1| base_inst_words(i)).flatten_alt(),
{
    let ghost words = values@.map_values(|i: MetalEvaluationProgramBaseInstV1| base_inst_words(i));
    let mut out: Vec<u32> = Vec::new();
    let mut k: usize = 0;
    while k < values.len()
        invariant
            k <= values@.len(),
            words == values@.map_values(|i: MetalEvaluationProgramBaseInstV1| base_inst_words(i)),
            out@ == words.take(k as int).flatten_alt(),
        decreases values@.len() - k,
    {
        let inst = values[k];
        let ghost before = out@;
        out.push((inst.op as u32) | ((inst.interaction as u32) << 8u32) | ((inst.dst as u32) << 16u32));
        out.push(inst.a);
        out.push(inst.b);
        out.push(inst.imm as u32);
        proof {
            assert(out@ =~= before + base_inst_words(inst));
            assert(words[k as int] == base_inst_words(inst));
            assert(words.take(k + 1).drop_last() =~= words.take(k as int));
        }
        k = k + 1;
    }
    proof {
        assert(words.take(values@.len() as int) =~= words);
    }
    out
}

/// Packs extension instructions into consecutive 5-word device records.
pub fn pack_ext_insts(values: &[MetalEvaluationProgramExtInstV1]) -> (r: Vec<u32>)
    ensures
        r@ == values@.map_values(|i: MetalEvaluationProgramExtInstV1| ext_inst_words(i)).flatten_alt(),
{
    let ghost words = values@.map_values(|i: MetalEvaluationProgramExtInstV1| ext_inst_words(i));
    let mut out: Vec<u32> = Vec::new();
    let mut k: usize = 0;
    while k < values.len()
        invariant
            k <= values@.len(),
            words == values@.map_values(|i: MetalEvaluationProgramExtInstV1| ext_inst_words(i)),
            out@ == words.take(k as int).flatten_alt(),
        decreases values@.len() - k,
    {
        let inst = values[k];
        let ghost before = out@;
        out.push((inst.op as u32) | ((inst.reserved0 as u32) << 8u32) | ((inst.dst as u32) << 16u32));
        out.push(inst.a);
        out.push(inst.b);
        out.push(inst.c);
        out.push(inst.d);
        proof {
            assert(out@ =~= before + ext_inst_words(inst));
            assert(words[k as int] == ext_inst_words(inst));
            assert(words.take(k + 1).drop_last() =~= words.take(k as int));
        }
        k = k + 1;
    }
    proof {
        assert(words.take(values@.len() as int) =~= words);
    }
    out
}

/// Appends `src` to `out`.
fn append_words(out: &mut Vec<u32>, src: &[u32])
    ensures
        final(out)@ == old(out)@ + src@,
{
    let ghost start = out@;
    let mut i: usize = 0;
    while i < src.len()
        invariant
            i <= src@.len(),
            out@ == start + src@.take(i as int),
        decreases src@.len() - i,
    {
        out.push(src[i]);
        proof {
            assert(out@ =~= start + src@.take(i + 1));
        }
        i = i + 1;
    }
    proof {
        assert(src@.take(src@.len() as int) =~= src@);
    }
}

/// The number of columns in the interactions before index `k`.
pub open spec fn columns_before(inter: Seq<Seq<Seq<u32>>>, k: int) -> nat {
    inter.take(k).flatten_alt().len()
}

/// Lays every trace column end to end, interaction by interaction, and
/// records where each interaction's columns start (with the total last).
pub fn flatten_trace_interactions(interactions: &[&[&[u32]]]) -> (r: (Vec<u32>, Vec<u32>))
    requires
        interactions_view(interactions@).flatten_alt().len() <= u32::MAX,
    ensures
        r.0@ == interactions_view(interactions@).flatten_alt().flatten_alt(),
        r.1@ == Seq::new(
            (interactions@.len() + 1) as nat,
            |k: int| columns_before(interactions_view(interactions@), k) as u32,
        ),
{
    let ghost inter = interactions_view(interactions@);
    let mut flat_trace: Vec<u32> = Vec::new();
    let mut offsets: Vec<u32> = Vec::new();
    let mut running_columns: u32 = 0;
    offsets.push(running_columns);
    proof {
        assert(inter.take(0) =~= Seq::<Seq<Seq<u32>>>::empty());
        assert(inter.take(0).flatten_alt() =~= Seq::<Seq<u32>>::empty());
        assert(offsets@ =~= Seq::new(1, |k: int| columns_before(inter, k) as u32));
    }
    let mut i: usize = 0;
    while i < interactions.len()
        invariant
            i <= interactions@.len(),
            inter == interactions_view(interactions@),
            inter.flatten_alt().len() <= u32::MAX,
            running_columns as nat == columns_before(inter, i as int),
            flat_trace@ == inter.take(i as int).flatten_alt().flatten_alt(),
            offsets@ == Seq::new((i + 1) as nat, |k: int| columns_before(inter, k) as u32),
        decreases interactions@.len() - i,
    {
        let columns = interactions[i];
        assert(inter[i as int] == columns_view(columns@));
        let ghost before_cols = inter.take(i as int).flatten_alt();
        let mut j: usize = 0;
        while j < columns.len()
            invariant
                j <= columns@.len(),
                inter[i as int] == columns_view(columns@),
                flat_trace@ == (before_cols + columns_view(columns@).take(j as int)).flatten_alt(),
            decreases columns@.len() - j,
        {
            let ghost prefix = before_cols + columns_view(columns@).take(j as int);
            append_words(&mut flat_trace, columns[j]);
            proof {
                assert(columns_view(columns@)[j as int] == columns@[j as int]@);
                assert(before_cols + columns_view(columns@).take(j + 1) =~= prefix.push(columns@[j as int]@));
                assert(prefix.push(columns@[j as int]@).drop_last() =~= prefix);
            }
            j = j + 1;
        }
        proof {
            assert(columns_view(columns@).take(columns@.len() as int) =~= columns_view(columns@));
            assert(inter.take(i + 1) =~= inter.take(i as int).push(inter[i as int]));
            assert(inter.take(i + 1).drop_last() =~= inter.take(i as int));
            vstd::seq_lib::lemma_flatten_alt_concat(before_cols, columns_view(columns@));
            assert(inter =~= inter.take(i + 1) + inter.skip(i + 1));
            vstd::seq_lib::lemma_flatten_alt_concat(inter.take(i + 1), inter.skip(i + 1));
        }
        running_columns = running_columns + columns.len() as u32;
        offsets.push(running_columns);
        proof {
            assert(offsets@ =~= Seq::new((i + 2) as nat, |k: int| columns_before(inter, k) as u32));
        }
        i = i + 1;
    }
    proof {
        assert(inter.take(interactions@.len() as int) =~= inter);
    }
    (flat_trace, offsets)
}


/// The register budget of the device interpreter.
pub open spec fn device_budget() -> MetalEvaluationProgramBudgetV1 {
    MetalEvaluationProgramBudgetV1 {
        max_base_regs: METAL_EVAL_PROGRAM_V1_DEVICE_MAX_BASE_REGS,
        max_ext_regs: METAL_EVAL_PROGRAM_V1_DEVICE_MAX_EXT_REGS,
    }
}

/// The offset of the first base instruction from `k` on that reads a trace
/// column at a non-zero row offset.
pub open spec fn first_offset_trace_read(insts: Seq<MetalEvaluationProgramBaseInstV1>, k: int) -> Option<i32>
    decreases insts.len() - k,
{
    if k < 0 || k >= insts.len() {
        None
    } else if spec_base_opcode_from_raw(insts[k].op) == Some(MetalEvaluationProgramBaseOpcodeV1::TraceCol)
        && insts[k].imm != 0 {
        Some(insts[k].imm)
    } else {
        first_offset_trace_read(insts, k + 1)
    }
}

/// The checks both device paths make first, in their order: the runtime,
/// the register budget, a non-empty trace, the interaction count and the
/// length of every trace column. `Ok` carries the row count: the length of
/// the first column of the first interaction that has one.
pub open spec fn spec_device_trace_check(
    program: OwnedMetalEvaluationProgramV1,
    support: MetalRuntimeSupport,
    inter: Seq<Seq<Seq<u32>>>,
) -> Result<nat, ExecError> {
    let header = program.spec_header();
    if support != MetalRuntimeSupport::Available {
        Err(ExecError::RuntimeUnavailable(support))
    } else if program.spec_validate(device_budget()) is Err {
        Err(
            ExecError::RegisterBudgetExceeded {
                required_base: header.max_base_regs,
                required_ext: header.max_ext_regs,
                supported_base: METAL_EVAL_PROGRAM_V1_DEVICE_MAX_BASE_REGS,
                supported_ext: METAL_EVAL_PROGRAM_V1_DEVICE_MAX_EXT_REGS,
            },
        )
    } else {
        match first_nonempty_interaction(inter, 0) {
            None => Err(ExecError::EmptyTrace),
            Some(i0) => {
                let n = inter[i0][0].len();
                if inter.len() != header.n_interactions {
                    Err(
                        ExecError::TraceInteractionCountMismatch {
                            expected: header.n_interactions as usize,
                            actual: inter.len() as usize,
                        },
                    )
                } else if let Some(actual) = first_trace_len_mismatch(inter, n, 0, 0) {
                    Err(
                        ExecError::InconsistentTraceColumnLength {
                            expected_len: n as usize,
                            actual_len: actual as usize,
                        },
                    )
                } else {
                    Ok(n)
                }
            },
        }
    }
}

pub open spec fn base_param_check(program: OwnedMetalEvaluationProgramV1, n_base_params: nat) -> Option<ExecError> {
    if n_base_params != program.spec_header().n_base_params {
        Some(
            ExecError::BaseParamCountMismatch {
                expected: program.spec_header().n_base_params as usize,
                actual: n_base_params as usize,
            },
        )
    } else {
        None
    }
}

pub open spec fn ext_param_check(program: OwnedMetalEvaluationProgramV1, n_ext_params: nat) -> Option<ExecError> {
    if n_ext_params != program.spec_header().n_ext_params {
        Some(
            ExecError::ExtParamCountMismatch {
                expected: program.spec_header().n_ext_params as usize,
                actual: n_ext_params as usize,
            },
        )
    } else {
        None
    }
}

pub open spec fn coeff_check(program: OwnedMetalEvaluationProgramV1, n_coeffs: nat) -> Option<ExecError> {
    if n_coeffs != program.spec_constraint_roots().len() {
        Some(
            ExecError::RandomCoeffCountMismatch {
                expected: program.spec_constraint_roots().len() as usize,
                actual: n_coeffs as usize,
            },
        )
    } else {
        None
    }
}

pub open spec fn offset_check(program: OwnedMetalEvaluationProgramV1) -> Option<ExecError> {
    match first_offset_trace_read(program.spec_base_insts(), 0) {
        Some(offset) => Some(ExecError::UnsupportedNonZeroTraceOffset { offset }),
        None => None,
    }
}

/// What the reference device interpreter checks before it uploads anything:
/// the trace checks, the preprocessed column lengths, the parameter counts,
/// the coefficient count, and that no trace read has a row offset. `Ok`
/// carries the row count.
pub open spec fn spec_device_precheck(
    program: OwnedMetalEvaluationProgramV1,
    support: MetalRuntimeSupport,
    inter: Seq<Seq<Seq<u32>>>,
    pre: Seq<Seq<u32>>,
    n_base_params: nat,
    n_ext_params: nat,
    n_coeffs: nat,
) -> Result<nat, ExecError> {
    match spec_device_trace_check(program, support, inter) {
        Err(e) => Err(e),
        Ok(n) => {
            if let Some(actual) = first_len_mismatch(pre, n, 0) {
                Err(
                    ExecError::InconsistentPreprocessedColumnLength {
                        expected_len: n as usize,
                        actual_len: actual as usize,
                    },
                )
            } else if let Some(e) = base_param_check(program, n_base_params) {
                Err(e)
            } else if let Some(e) = ext_param_check(program, n_ext_params) {
                Err(e)
            } else if let Some(e) = coeff_check(program, n_coeffs) {
                Err(e)
            } else if let Some(e) = offset_check(program) {
                Err(e)
            } else {
                Ok(n)
            }
        },
    }
}

/// What the wide-Fibonacci overlay checks before it uploads anything: the
/// trace checks, the coefficient count, the parameter counts, and that no
/// trace read has a row offset. `Ok` carries the row count.
pub open spec fn spec_overlay_precheck(
    program: OwnedMetalEvaluationProgramV1,
    support: MetalRuntimeSupport,
    inter: Seq<Seq<Seq<u32>>>,
    n_base_params: nat,
    n_ext_params: nat,
    n_coeffs: nat,
) -> Result<nat, ExecError> {
    match spec_device_trace_check(program, support, inter) {
        Err(e) => Err(e),
        Ok(n) => {
            if let Some(e) = coeff_check(program, n_coeffs) {
                Err(e)
            } else if let Some(e) = base_param_check(program, n_base_params) {
                Err(e)
            } else if let Some(e) = ext_param_check(program, n_ext_params) {
                Err(e)
            } else if let Some(e) = offset_check(program) {
                Err(e)
            } else {
                Ok(n)
            }
        },
    }
}

/// The device interpreter's checks on `runtime`, over views of its inputs.
pub open spec fn spec_device_precheck_runtime(
    program: OwnedMetalEvaluationProgramV1,
    runtime: MetalEvaluationProgramRuntimeInputsV1,
    support: MetalRuntimeSupport,
) -> Result<nat, ExecError> {
    spec_device_precheck(
        program,
        support,
        interactions_view(runtime.trace.trace_interactions@),
        columns_view(runtime.trace.preprocessed_columns@),
        runtime.base_params@.len(),
        runtime.ext_params@.len(),
        runtime.random_coeff_powers@.len(),
    )
}

/// The flat buffers and counts the device interpreter is dispatched with.
pub struct MetalEvaluationProgramDeviceInputsV1 {
    pub trace_values: Vec<u32>,
    pub interaction_offsets: Vec<u32>,
    pub preprocessed_values: Vec<u32>,
    pub base_params: Vec<u32>,
    pub ext_params: Vec<u32>,
    pub random_coeff_powers: Vec<u32>,
    pub base_insts: Vec<u32>,
    pub ext_insts: Vec<u32>,
    pub constraint_roots: Vec<u32>,
    pub n_rows: usize,
    pub n_interactions: u32,
    pub n_preprocessed_columns: u32,
    pub n_base_params: u32,
    pub n_ext_params: u32,
    pub n_base_insts: u32,
    pub n_ext_insts: u32,
    pub n_constraint_roots: u32,
}

/// Lays the columns end to end.
fn flatten_columns(columns: &[&[u32]]) -> (r: Vec<u32>)
    ensures
        r@ == columns_view(columns@).flatten_alt(),
{
    let ghost cols = columns_view(columns@);
    let mut out: Vec<u32> = Vec::new();
    let mut j: usize = 0;
    while j < columns.len()
        invariant
            j <= columns@.len(),
            cols == columns_view(columns@),
            out@ == cols.take(j as int).flatten_alt(),
        decreases columns@.len() - j,
    {
        append_words(&mut out, columns[j]);
        proof {
            assert(cols[j as int] == columns@[j as int]@);
            assert(cols.take(j + 1).drop_last() =~= cols.take(j as int));
        }
        j = j + 1;
    }
    proof {
        assert(cols.take(columns@.len() as int) =~= cols);
    }
    out
}

/// Lays the limbs of secure-field values end to end, four per value.
pub fn flatten_secure_limbs(values: &[MetalSecureFieldValueV1]) -> (r: Vec<u32>)
    ensures
        r@ == limbs_view(values@).flatten_alt(),
{
    let ghost limbs = limbs_view(values@);
    let mut out: Vec<u32> = Vec::new();
    let mut k: usize = 0;
    while k < values.len()
        invariant
            k <= values@.len(),
            limbs == limbs_view(values@),
            out@ == limbs.take(k as int).flatten_alt(),
        decreases values@.len() - k,
    {
        let v = values[k];
        let ghost before = out@;
        out.push(v.limbs[0]);
        out.push(v.limbs[1]);
        out.push(v.limbs[2]);
        out.push(v.limbs[3]);
        proof {
            assert(limbs[k as int] == v.limbs@);
            assert(out@ =~= before + v.limbs@);
            assert(limbs.take(k + 1).drop_last() =~= limbs.take(k as int));
        }
        k = k + 1;
    }
    proof {
        assert(limbs.take(values@.len() as int) =~= limbs);
    }
    out
}

/// Reads back the device's output: each four consecutive words are the limbs
/// of one secure-field value; a trailing partial group is dropped.
pub fn secure_values_from_device_words(raw: &[u32]) -> (r: Vec<MetalSecureFieldValueV1>)
    ensures
        r@.len() == raw@.len() / 4,
        forall|k: int|
            0 <= k < r@.len() ==> (#[trigger] r@[k]).limbs@ == raw@.subrange(4 * k, 4 * k + 4),
{
    let mut out: Vec<MetalSecureFieldValueV1> = Vec::new();
    let len = raw.len();
    let n = len / 4;
    let mut k: usize = 0;
    while k < n
        invariant
            k <= n,
            len == raw@.len(),
            n == len / 4,
            4 * n <= len,
            out@.len() == k,
            forall|j: int| 0 <= j < k ==> (#[trigger] out@[j]).limbs@ == raw@.subrange(4 * j, 4 * j + 4),
        decreases n - k,
    {
        let b = 4 * k;
        let v = MetalSecureFieldValueV1 { limbs: [raw[b], raw[b + 1], raw[b + 2], raw[b + 3]] };
        assert(v.limbs@ =~= raw@.subrange(4 * k, 4 * k + 4));
        out.push(v);
        k = k + 1;
    }
    out
}

/// The trace checks both device paths make first; `Ok` carries the row count.
#[verifier::loop_isolation(false)]
fn check_device_trace(
    program: &OwnedMetalEvaluationProgramV1,
    interactions: &[&[&[u32]]],
    runtime_support: MetalRuntimeSupport,
) -> (r: Result<usize, ExecError>)
    ensures
        match r {
            Ok(n) => spec_device_trace_check(*program, runtime_support, interactions_view(interactions@))
                == Ok::<nat, ExecError>(n as nat),
            Err(e) => spec_device_trace_check(*program, runtime_support, interactions_view(interactions@))
                == Err::<nat, ExecError>(e),
        },
{
    let ghost inter = interactions_view(interactions@);
    if runtime_support != MetalRuntimeSupport::Available {
        return Err(ExecError::RuntimeUnavailable(runtime_support));
    }
    let header = program.header();
    let budget = MetalEvaluationProgramBudgetV1::new(
        METAL_EVAL_PROGRAM_V1_DEVICE_MAX_BASE_REGS,
        METAL_EVAL_PROGRAM_V1_DEVICE_MAX_EXT_REGS,
    );
    assert(budget == device_budget());
    if program.validate(budget).is_err() {
        return Err(
            ExecError::RegisterBudgetExceeded {
                required_base: header.max_base_regs,
                required_ext: header.max_ext_regs,
                supported_base: METAL_EVAL_PROGRAM_V1_DEVICE_MAX_BASE_REGS,
                supported_ext: METAL_EVAL_PROGRAM_V1_DEVICE_MAX_EXT_REGS,
            },
        );
    }
    let mut first: usize = 0;
    while first < interactions.len() && interactions[first].len() == 0
        invariant
            first <= interactions@.len(),
            inter == interactions_view(interactions@),
            first_nonempty_interaction(inter, 0) == first_nonempty_interaction(inter, first as int),
        decreases interactions@.len() - first,
    {
        assert(inter[first as int].len() == 0);
        first = first + 1;
    }
    if first == interactions.len() {
        return Err(ExecError::EmptyTrace);
    }
    assert(inter[first as int].len() > 0);
    let n_rows = interactions[first][0].len();
    assert(inter[first as int][0].len() == n_rows);
    if interactions.len() != header.n_interactions as usize {
        return Err(
            ExecError::TraceInteractionCountMismatch {
                expected: header.n_interactions as usize,
                actual: interactions.len(),
            },
        );
    }
    let mut i: usize = 0;
    while i < interactions.len()
        invariant
            i <= interactions@.len(),
            inter == interactions_view(interactions@),
            first_trace_len_mismatch(inter, n_rows as nat, 0, 0) == first_trace_len_mismatch(
                inter,
                n_rows as nat,
                i as int,
                0,
            ),
        decreases interactions@.len() - i,
    {
        let columns = interactions[i];
        let mut j: usize = 0;
        while j < columns.len()
            invariant
                j <= columns@.len(),
                inter == interactions_view(interactions@),
                i < interactions@.len(),
                columns@ == interactions@[i as int]@,
                first_trace_len_mismatch(inter, n_rows as nat, 0, 0) == first_trace_len_mismatch(
                    inter,
                    n_rows as nat,
                    i as int,
                    j as int,
                ),
            decreases columns@.len() - j,
        {
            assert(inter[i as int][j as int] == columns@[j as int]@);
            if columns[j].len() != n_rows {
                return Err(
                    ExecError::InconsistentTraceColumnLength { expected_len: n_rows, actual_len: columns[j].len() },
                );
            }
            j = j + 1;
        }
        i = i + 1;
    }
    Ok(n_rows)
}

/// The offset of the first trace read at a non-zero row offset, if any.
fn first_trace_offset(program: &OwnedMetalEvaluationProgramV1) -> (r: Option<i32>)
    ensures
        r == first_offset_trace_read(program.spec_base_insts(), 0),
{
    let base = program.base_insts();
    let mut k: usize = 0;
    while k < base.len()
        invariant
            k <= base@.len(),
            base@ == program.spec_base_insts(),
            first_offset_trace_read(base@, 0) == first_offset_trace_read(base@, k as int),
        decreases base@.len() - k,
    {
        let inst = base[k];
        match MetalEvaluationProgramBaseOpcodeV1::from_raw(inst.op) {
            Some(MetalEvaluationProgramBaseOpcodeV1::TraceCol) => {
                if inst.imm != 0 {
                    return Some(inst.imm);
                }
            },
            _ => {},
        }
        k = k + 1;
    }
    None
}

/// Checks `runtime` against `program` as the reference device interpreter
/// does before a dispatch and, when every check passes, lays out the buffers
/// it is dispatched with.
#[verifier::loop_isolation(false)]
pub fn prepare_metal_evaluation_program_device_inputs_v1(
    program: &OwnedMetalEvaluationProgramV1,
    runtime: MetalEvaluationProgramRuntimeInputsV1,
    runtime_support: MetalRuntimeSupport,
) -> (r: Result<MetalEvaluationProgramDeviceInputsV1, ExecError>)
    requires
        interactions_view(runtime.trace.trace_interactions@).flatten_alt().len() <= u32::MAX,
    ensures
        match r {
            Err(e) => spec_device_precheck_runtime(*program, runtime, runtime_support) == Err::<nat, ExecError>(e),
            Ok(d) => {
                let inter = interactions_view(runtime.trace.trace_interactions@);
                &&& spec_device_precheck_runtime(*program, runtime, runtime_support) == Ok::<nat, ExecError>(
                    d.n_rows as nat,
                )
                &&& d.trace_values@ == inter.flatten_alt().flatten_alt()
                &&& d.interaction_offsets@ == Seq::new(
                    (inter.len() + 1) as nat,
                    |k: int| columns_before(inter, k) as u32,
                )
                &&& d.preprocessed_values@ == columns_view(runtime.trace.preprocessed_columns@).flatten_alt()
                &&& d.base_params@ == runtime.base_params@
                &&& d.ext_params@ == limbs_view(runtime.ext_params@).flatten_alt()
                &&& d.random_coeff_powers@ == limbs_view(runtime.random_coeff_powers@).flatten_alt()
                &&& d.base_insts@ == program.spec_base_insts().map_values(
                    |i: MetalEvaluationProgramBaseInstV1| base_inst_words(i),
                ).flatten_alt()
                &&& d.ext_insts@ == program.spec_ext_insts().map_values(
                    |i: MetalEvaluationProgramExtInstV1| ext_inst_words(i),
                ).flatten_alt()
                &&& d.constraint_roots@ == program.spec_constraint_roots()
                &&& d.n_interactions == runtime.trace.trace_interactions@.len() as u32
                &&& d.n_preprocessed_columns == runtime.trace.preprocessed_columns@.len() as u32
                &&& d.n_base_params == runtime.base_params@.len() as u32
                &&& d.n_ext_params == runtime.ext_params@.len() as u32
                &&& d.n_base_insts == program.spec_base_insts().len() as u32
                &&& d.n_ext_insts == program.spec_ext_insts().len() as u32
                &&& d.n_constraint_roots == program.spec_constraint_roots().len() as u32
            },
        },
{
    let ghost pre = columns_view(runtime.trace.preprocessed_columns@);
    let interactions = runtime.trace.trace_interactions;
    let preprocessed = runtime.trace.preprocessed_columns;
    let n_rows = match check_device_trace(program, interactions, runtime_support) {
        Err(e) => {
            return Err(e);
        },
        Ok(n) => n,
    };
    let mut c: usize = 0;
    while c < preprocessed.len()
        invariant
            c <= preprocessed@.len(),
            pre == columns_view(preprocessed@),
            first_len_mismatch(pre, n_rows as nat, 0) == first_len_mismatch(pre, n_rows as nat, c as int),
        decreases preprocessed@.len() - c,
    {
        assert(pre[c as int] == preprocessed@[c as int]@);
        if preprocessed[c].len() != n_rows {
            return Err(
                ExecError::InconsistentPreprocessedColumnLength {
                    expected_len: n_rows,
                    actual_len: preprocessed[c].len(),
                },
            );
        }
        c = c + 1;
    }
    let header = program.header();
    if runtime.base_params.len() != header.n_base_params as usize {
        return Err(
            ExecError::BaseParamCountMismatch {
                expected: header.n_base_params as usize,
                actual: runtime.base_params.len(),
            },
        );
    }
    if runtime.ext_params.len() != header.n_ext_params as usize {
        return Err(
            ExecError::ExtParamCountMismatch {
                expected: header.n_ext_params as usize,
                actual: runtime.ext_params.len(),
            },
        );
    }
    let roots = program.constraint_roots();
    if runtime.random_coeff_powers.len() != roots.len() {
        return Err(
            ExecError::RandomCoeffCountMismatch {
                expected: roots.len(),
                actual: runtime.random_coeff_powers.len(),
            },
        );
    }
    if let Some(offset) = first_trace_offset(program) {
        return Err(ExecError::UnsupportedNonZeroTraceOffset { offset });
    }
    let (trace_values, interaction_offsets) = flatten_trace_interactions(interactions);
    let preprocessed_values = flatten_columns(preprocessed);
    let mut base_params: Vec<u32> = Vec::new();
    append_words(&mut base_params, runtime.base_params);
    assert(base_params@ =~= runtime.base_params@);
    let ext_params = flatten_secure_limbs(runtime.ext_params);
    let random_coeff_powers = flatten_secure_limbs(runtime.random_coeff_powers);
    let base = program.base_insts();
    let base_insts = pack_base_insts(base);
    let ext_insts = pack_ext_insts(program.ext_insts());
    let mut constraint_roots: Vec<u32> = Vec::new();
    append_words(&mut constraint_roots, roots);
    assert(constraint_roots@ =~= roots@);
    Ok(
        MetalEvaluationProgramDeviceInputsV1 {
            trace_values,
            interaction_offsets,
            preprocessed_values,
            base_params,
            ext_params,
            random_coeff_powers,
            base_insts,
            ext_insts,
            constraint_roots,
            n_rows,
            n_interactions: interactions.len() as u32,
            n_preprocessed_columns: preprocessed.len() as u32,
            n_base_params: runtime.base_params.len() as u32,
            n_ext_params: runtime.ext_params.len() as u32,
            n_base_insts: base.len() as u32,
            n_ext_insts: program.ext_insts().len() as u32,
            n_constraint_roots: roots.len() as u32,
        },
    )
}

/// The flat buffers and counts the wide-Fibonacci overlay kernel is
/// dispatched with.
pub struct MetalWideFibonacciOverlayDeviceInputsV1 {
    pub trace_values: Vec<u32>,
    pub interaction_offsets: Vec<u32>,
    pub random_coeff_powers: Vec<u32>,
    pub n_rows: usize,
    pub n_interactions: u32,
    pub n_constraint_roots: u32,
}

/// Checks `runtime` against `program` as the wide-Fibonacci overlay does
/// before a dispatch and, when every check passes, lays out the buffers its
/// kernel is dispatched with.
pub fn prepare_wide_fibonacci_overlay_device_inputs_v1(
    program: &OwnedMetalEvaluationProgramV1,
    runtime: MetalEvaluationProgramRuntimeInputsV1,
    runtime_support: MetalRuntimeSupport,
) -> (r: Result<MetalWideFibonacciOverlayDeviceInputsV1, ExecError>)
    requires
        interactions_view(runtime.trace.trace_interactions@).flatten_alt().len() <= u32::MAX,
    ensures
        ({
            let inter = interactions_view(runtime.trace.trace_interactions@);
            let verdict = spec_overlay_precheck(
                *program,
                runtime_support,
                inter,
                runtime.base_params@.len(),
                runtime.ext_params@.len(),
                runtime.random_coeff_powers@.len(),
            );
            match r {
                Err(e) => verdict == Err::<nat, ExecError>(e),
                Ok(d) => {
                    &&& verdict == Ok::<nat, ExecError>(d.n_rows as nat)
                    &&& d.trace_values@ == inter.flatten_alt().flatten_alt()
                    &&& d.interaction_offsets@ == Seq::new(
                        (inter.len() + 1) as nat,
                        |k: int| columns_before(inter, k) as u32,
                    )
                    &&& d.random_coeff_powers@ == limbs_view(runtime.random_coeff_powers@).flatten_alt()
                    &&& d.n_interactions == runtime.trace.trace_interactions@.len() as u32
                    &&& d.n_constraint_roots == program.spec_constraint_roots().len() as u32
                },
            }
        }),
{
    let interactions = runtime.trace.trace_interactions;
    let n_rows = match check_device_trace(program, interactions, runtime_support) {
        Err(e) => {
            return Err(e);
        },
        Ok(n) => n,
    };
    let header = program.header();
    let roots = program.constraint_roots();
    if runtime.random_coeff_powers.len() != roots.len() {
        return Err(
            ExecError::RandomCoeffCountMismatch {
                expected: roots.len(),
                actual: runtime.random_coeff_powers.len(),
            },
        );
    }
    if runtime.base_params.len() != header.n_base_params as usize {
        return Err(
            ExecError::BaseParamCountMismatch {
                expected: header.n_base_params as usize,
                actual: runtime.base_params.len(),
            },
        );
    }
    if runtime.ext_params.len() != header.n_ext_params as usize {
        return Err(
            ExecError::ExtParamCountMismatch {
                expected: header.n_ext_params as usize,
                actual: runtime.ext_params.len(),
            },
        );
    }
    if let Some(offset) = first_trace_offset(program) {
        return Err(ExecError::UnsupportedNonZeroTraceOffset { offset });
    }
    let (trace_values, interaction_offsets) = flatten_trace_interactions(interactions);
    let random_coeff_powers = flatten_secure_limbs(runtime.random_coeff_powers);
    Ok(
        MetalWideFibonacciOverlayDeviceInputsV1 {
            trace_values,
            interaction_offsets,
            random_coeff_powers,
            n_rows,
            n_interactions: interactions.len() as u32,
            n_constraint_roots: roots.len() as u32,
        },
    )
}

} // verus!
