use stwo_metal::constraint_dag::{OpRef, RecordedOp, RecordingEval};
use stwo_metal::eval_program::{MetalEvaluationProgramBaseOpcodeV1, MetalEvaluationProgramExtOpcodeV1};
use stwo_metal::recording::{
    fold_base_constants, group_logup_batches, logup_batching_in_pairs, logup_batching_single, RecordedBaseOperandV1,
    RecordedExtOperandV1, RecordingState,
};
use stwo_metal::sampled_values::MetalSecureFieldValueV1;

const BASE_ADD: u8 = 4;
const BASE_SUB: u8 = 5;
const BASE_CONST: u8 = 3;
const BASE_TRACE_COL: u8 = 0;
const BASE_PARAM: u8 = 2;
const EXT_SECURE_COL: u8 = 0;
const EXT_CONST: u8 = 2;
const EXT_ADD: u8 = 3;
const EXT_MUL: u8 = 5;
const EXT_NEG: u8 = 6;

fn limbs(a: u32, b: u32, c: u32, d: u32) -> MetalSecureFieldValueV1 {
    MetalSecureFieldValueV1 { limbs: [a, b, c, d] }
}

/// Reads one column of interaction 1 at offset 0, as a trace mask does.
fn next_trace_reg(state: &mut RecordingState) -> u16 {
    state.record_interaction_mask(1, &[0])[0]
}

/// Reads four columns and combines them into an extension value.
fn combined_ext(state: &mut RecordingState) -> RecordedExtOperandV1 {
    let a = next_trace_reg(state);
    let b = next_trace_reg(state);
    let c = next_trace_reg(state);
    let d = next_trace_reg(state);
    RecordedExtOperandV1::Realized { reg: state.combine_ef([a, b, c, d]) }
}

#[test]
fn recording_evaluator_emits_trace_col_for_next_trace_mask() {
    let mut state = RecordingState::new();
    let regs = state.record_interaction_mask(1, &[0]);
    assert_eq!(regs, vec![0]);
    assert_eq!(state.base_insts().len(), 1);
    assert_eq!(state.base_insts()[0].op, BASE_TRACE_COL);
    assert_eq!(state.base_insts()[0].interaction, 1);
    assert_eq!(state.base_insts()[0].a, 0);
}

#[test]
fn recording_evaluator_emits_param_for_inject_base_param() {
    let mut state = RecordingState::new();
    let reg = state.inject_base_param(0, 0);
    assert_eq!(reg, 0);
    assert_eq!(state.base_insts().len(), 1);
    assert_eq!(state.base_insts()[0].op, BASE_PARAM);
    assert_eq!(state.n_base_params(), 1);
}

#[test]
fn recorded_base_values_emit_binary_ops() {
    let mut state = RecordingState::new();
    let a = next_trace_reg(&mut state);
    let b = next_trace_reg(&mut state);
    let c = state.emit_base_binary_op(
        MetalEvaluationProgramBaseOpcodeV1::Add,
        RecordedBaseOperandV1::Register { reg: a },
        RecordedBaseOperandV1::Register { reg: b },
    );
    assert_eq!(c, RecordedBaseOperandV1::Register { reg: 2 });
    assert_eq!(state.base_insts().len(), 3);
    assert_eq!(state.base_insts()[2].op, BASE_ADD);
}

#[test]
fn ext_add_emits_ext_add_instruction() {
    let mut state = RecordingState::new();
    let ext1 = combined_ext(&mut state);
    let ext2 = combined_ext(&mut state);
    let result = state.add_ext(ext1, ext2);
    assert_eq!(result, RecordedExtOperandV1::Realized { reg: 2 });
    assert_eq!(state.base_insts().len(), 8);
    assert_eq!(state.ext_insts().len(), 3);
    assert_eq!(state.ext_insts()[2].op, EXT_ADD);
}

#[test]
fn ext_from_securefield_creates_lazy_const() {
    let mut state = RecordingState::new();
    let constant = RecordedExtOperandV1::Constant { value: limbs(1, 2, 3, 4) };
    // A constant stays lazy: negating it emits nothing.
    let negated = state.neg_ext(constant);
    assert!(matches!(negated, RecordedExtOperandV1::Constant { .. }));
    assert_eq!(state.ext_insts().len(), 0);
}

#[test]
fn ext_lazy_const_realizes_on_arithmetic() {
    let mut state = RecordingState::new();
    let ext1 = combined_ext(&mut state);
    let constant = RecordedExtOperandV1::Constant { value: limbs(5, 6, 7, 8) };
    let result = state.add_ext(ext1, constant);
    assert!(matches!(result, RecordedExtOperandV1::Realized { .. }));
    assert_eq!(state.ext_insts().len(), 3);
    assert_eq!(state.ext_insts()[0].op, EXT_SECURE_COL);
    assert_eq!(state.ext_insts()[1].op, EXT_CONST);
    assert_eq!(state.ext_insts()[1].a, 5);
    assert_eq!(state.ext_insts()[1].d, 8);
    assert_eq!(state.ext_insts()[2].op, EXT_ADD);
}

#[test]
fn base_value_add_securefield() {
    let mut state = RecordingState::new();
    let a = next_trace_reg(&mut state);
    state.base_with_secure_constant(
        MetalEvaluationProgramExtOpcodeV1::Add,
        RecordedBaseOperandV1::Register { reg: a },
        limbs(1, 2, 3, 4),
    );
    // base: the trace read and the zero padding constant.
    assert_eq!(state.base_insts().len(), 2);
    assert_eq!(state.base_insts()[1].op, BASE_CONST);
    assert!(state.ext_insts().len() >= 3);
    assert_eq!(state.ext_insts()[0].op, EXT_SECURE_COL);
    assert_eq!(state.ext_insts()[1].op, EXT_CONST);
    assert_eq!(state.ext_insts()[2].op, EXT_ADD);
}

#[test]
fn base_value_mul_securefield() {
    let mut state = RecordingState::new();
    let a = next_trace_reg(&mut state);
    state.base_with_secure_constant(
        MetalEvaluationProgramExtOpcodeV1::Mul,
        RecordedBaseOperandV1::Register { reg: a },
        limbs(1, 2, 3, 4),
    );
    let mul_count = state.ext_insts().iter().filter(|i| i.op == EXT_MUL).count();
    assert_eq!(mul_count, 1);
}

#[test]
fn add_constraint_with_ext_value_uses_direct_reg() {
    let mut state = RecordingState::new();
    let ext = combined_ext(&mut state);
    state.add_constraint(ext);
    assert_eq!(state.constraint_roots().len(), 1);
    assert_eq!(state.constraint_roots()[0], 0);
    assert_eq!(state.ext_insts().len(), 1);
}

#[test]
fn add_constraint_with_base_value_emits_secure_col() {
    let mut state = RecordingState::new();
    let a = next_trace_reg(&mut state);
    let b = next_trace_reg(&mut state);
    let c = state.emit_base_binary_op(
        MetalEvaluationProgramBaseOpcodeV1::Sub,
        RecordedBaseOperandV1::Register { reg: a },
        RecordedBaseOperandV1::Register { reg: b },
    );
    let ext = state.base_to_ext(c);
    state.add_constraint(ext);
    assert_eq!(state.base_insts()[2].op, BASE_SUB);
    assert_eq!(state.constraint_roots().len(), 1);
    assert_eq!(state.ext_insts().len(), 1);
    assert_eq!(state.ext_insts()[0].op, EXT_SECURE_COL);
}

#[test]
fn ext_zero_add_returns_rhs() {
    let mut state = RecordingState::new();
    let ext = combined_ext(&mut state);
    let result = state.add_ext(RecordedExtOperandV1::Zero, ext);
    assert_eq!(result, ext);
    assert_eq!(state.ext_insts().len(), 1);
}

#[test]
fn ext_neg_emits_neg_instruction() {
    let mut state = RecordingState::new();
    let ext = combined_ext(&mut state);
    state.neg_ext(ext);
    assert_eq!(state.ext_insts().len(), 2);
    assert_eq!(state.ext_insts()[1].op, EXT_NEG);
}

#[test]
fn ext_mul_base_emits_promote_and_mul() {
    let mut state = RecordingState::new();
    let ext = combined_ext(&mut state);
    let e = next_trace_reg(&mut state);
    state.mul_ext_base(ext, RecordedBaseOperandV1::Register { reg: e });
    assert_eq!(state.ext_insts().len(), 3);
    assert_eq!(state.ext_insts()[1].op, EXT_SECURE_COL);
    assert_eq!(state.ext_insts()[2].op, EXT_MUL);
}

#[test]
fn pending_base_constants_fold_at_record_time() {
    let mut state = RecordingState::new();
    let sum = state.emit_base_binary_op(
        MetalEvaluationProgramBaseOpcodeV1::Add,
        RecordedBaseOperandV1::Pending { value: 2147483646 },
        RecordedBaseOperandV1::Pending { value: 3 },
    );
    assert_eq!(sum, RecordedBaseOperandV1::Pending { value: 2 });
    assert_eq!(fold_base_constants(MetalEvaluationProgramBaseOpcodeV1::Sub, 1, 2), Some(2147483646));
    assert_eq!(fold_base_constants(MetalEvaluationProgramBaseOpcodeV1::Mul, 65536, 65536), Some(2));
    assert_eq!(fold_base_constants(MetalEvaluationProgramBaseOpcodeV1::Inv, 1, 2), None);
    assert_eq!(state.base_insts().len(), 0);
    let neg = state.neg_base(RecordedBaseOperandV1::Pending { value: 5 });
    assert_eq!(neg, RecordedBaseOperandV1::Pending { value: 2147483642 });
}

#[test]
fn pending_constant_is_emitted_before_a_register_operand() {
    let mut state = RecordingState::new();
    let a = next_trace_reg(&mut state);
    let r = state.emit_base_binary_op(
        MetalEvaluationProgramBaseOpcodeV1::Mul,
        RecordedBaseOperandV1::Pending { value: 7 },
        RecordedBaseOperandV1::Register { reg: a },
    );
    assert_eq!(r, RecordedBaseOperandV1::Register { reg: 2 });
    assert_eq!(state.base_insts()[1].op, BASE_CONST);
    assert_eq!(state.base_insts()[1].a, 7);
    assert_eq!(state.base_insts()[2].a, 1);
    assert_eq!(state.base_insts()[2].b, 0);
}

#[test]
fn zero_constant_is_shared_by_promotions() {
    let mut state = RecordingState::new();
    let a = next_trace_reg(&mut state);
    let b = next_trace_reg(&mut state);
    let p = state.promote_base_to_ext(a);
    let q = state.promote_base_to_ext(b);
    assert_eq!((p, q), (0, 1));
    let zero_consts = state.base_insts().iter().filter(|i| i.op == BASE_CONST && i.a == 0).count();
    assert_eq!(zero_consts, 1);
    assert_eq!(state.ext_insts()[1].b, 2);
    assert_eq!(state.max_base_regs(), 3);
    assert_eq!(state.max_ext_regs(), 2);
}

#[test]
fn columns_are_tracked_per_interaction() {
    let mut state = RecordingState::new();
    assert_eq!(state.tracker_next_column(2), 0);
    assert_eq!(state.tracker_next_column(2), 1);
    assert_eq!(state.tracker_next_column(0), 0);
    let regs = state.record_interaction_mask(2, &[-1, 0]);
    assert_eq!(regs, vec![0, 1]);
    assert_eq!(state.base_insts()[0].a, 2);
    assert_eq!(state.base_insts()[0].imm, -1);
    assert_eq!(state.n_interactions(), 3);
}

#[test]
fn empty_recording_has_no_interactions() {
    let state = RecordingState::new();
    assert_eq!(state.n_interactions(), 0);
    assert_eq!(state.n_ext_params(), 0);
}

#[test]
fn ext_plus_pending_base_folds_into_constant() {
    let mut state = RecordingState::new();
    let r = state.add_ext_base(RecordedExtOperandV1::Constant { value: limbs(1, 2, 3, 4) }, RecordedBaseOperandV1::Pending { value: 10 });
    assert_eq!(r, RecordedExtOperandV1::Constant { value: limbs(11, 2, 3, 4) });
    let m = state.mul_ext_base(RecordedExtOperandV1::Constant { value: limbs(1, 2, 3, 4) }, RecordedBaseOperandV1::Pending { value: 3 });
    assert_eq!(m, RecordedExtOperandV1::Constant { value: limbs(3, 6, 9, 12) });
    assert_eq!(state.ext_insts().len(), 0);
}

#[test]
fn logup_batches_group_fractions_by_batch() {
    let groups = group_logup_batches(&[0, 1, 0, 2, 1]);
    assert_eq!(groups, vec![vec![0, 2], vec![1, 4], vec![3]]);
    assert_eq!(logup_batching_single(3), vec![0, 1, 2]);
    assert_eq!(logup_batching_in_pairs(5), vec![0, 0, 1, 1, 2]);
    assert_eq!(group_logup_batches(&logup_batching_in_pairs(3)), vec![vec![0, 1], vec![2]]);
}

/// Records `N` wide-Fibonacci columns: each column after the first two is
/// constrained to the sum of the squares of the two before it.
fn record_wide_fibonacci(n: usize) -> stwo_metal::constraint_dag::RecordedConstraintDag {
    let mut eval = RecordingEval::new();
    let mut a = eval.next_interaction_mask(1, &[0])[0];
    let mut b = eval.next_interaction_mask(1, &[0])[0];
    for _ in 2..n {
        let c = eval.next_interaction_mask(1, &[0])[0];
        let a2 = eval.mul(a, a);
        let b2 = eval.mul(b, b);
        let sum = eval.add(a2, b2);
        let diff = eval.sub(c, sum);
        eval.add_constraint(diff);
        a = b;
        b = c;
    }
    eval.finish()
}

#[test]
fn test_record_wide_fibonacci_4() {
    let dag = record_wide_fibonacci(4);
    assert_eq!(dag.n_trace_columns, 4, "expected 4 trace columns");
    assert_eq!(dag.n_constraints, 2, "expected 2 constraints");
    assert_eq!(dag.n_preprocessed_columns, 0, "expected 0 preprocessed cols");
    let count = |f: fn(&RecordedOp) -> bool| dag.ops.iter().filter(|op| f(op)).count();
    assert_eq!(count(|op| matches!(op, RecordedOp::TraceCol { .. })), 4);
    assert_eq!(count(|op| matches!(op, RecordedOp::AddConstraint { .. })), 2);
    assert!(count(|op| matches!(op, RecordedOp::Mul { .. })) >= 4);
    assert!(count(|op| matches!(op, RecordedOp::Add { .. })) >= 2);
    assert!(count(|op| matches!(op, RecordedOp::Sub { .. })) >= 2);
}

#[test]
fn test_record_wide_fibonacci_8() {
    let dag = record_wide_fibonacci(8);
    assert_eq!(dag.n_trace_columns, 8, "expected 8 trace columns");
    assert_eq!(dag.n_constraints, 6, "expected 6 constraints for N=8");
}

#[test]
fn test_single_interaction() {
    let dag = record_wide_fibonacci(4);
    assert_eq!(dag.n_interactions, 2, "interactions should span up to index 1");
    for op in &dag.ops {
        if let RecordedOp::TraceCol { interaction, .. } = op {
            assert_eq!(*interaction, 1, "all columns should be in interaction 1");
        }
    }
}

#[test]
fn test_op_refs_are_valid() {
    let dag = record_wide_fibonacci(4);
    let n_ops = dag.ops.len();
    for (i, op) in dag.ops.iter().enumerate() {
        match op {
            RecordedOp::Add { lhs, rhs } | RecordedOp::Sub { lhs, rhs } | RecordedOp::Mul { lhs, rhs } => {
                assert!(lhs.0 < i);
                assert!(rhs.0 < i);
            }
            RecordedOp::Inv { operand } => assert!(operand.0 < i),
            RecordedOp::AddConstraint { expr } => {
                assert!(expr.0 < i);
                assert!(expr.0 < n_ops);
            }
            _ => {}
        }
    }
}

#[test]
fn detached_constraints_are_moved_past_existing_ops() {
    let mut eval = RecordingEval::new();
    let a = eval.next_interaction_mask(0, &[0])[0];
    assert_eq!(a, OpRef(0));
    let detached = [RecordedOp::Const { value: 3 }, RecordedOp::Inv { operand: OpRef(0) }];
    eval.add_detached_constraint(&detached, OpRef(1));
    assert_eq!(
        eval.ops(),
        &[
            RecordedOp::TraceCol { interaction: 0, col_index: 0, offset: 0 },
            RecordedOp::Const { value: 3 },
            RecordedOp::Inv { operand: OpRef(1) },
            RecordedOp::AddConstraint { expr: OpRef(2) },
        ]
    );
    let p = eval.get_preprocessed_column();
    assert_eq!(p, OpRef(4));
    let n = eval.neg(p);
    assert_eq!(n, OpRef(6));
    let dag = eval.finish();
    assert_eq!(dag.n_constraints, 1);
    assert_eq!(dag.n_preprocessed_columns, 1);
    assert_eq!(dag.n_trace_columns, 1);
    assert_eq!(dag.n_interactions, 1);
    assert_eq!(dag.ops[5], RecordedOp::Const { value: 0 });
}

#[test]
fn recorded_operators_append_one_op_each() {
    let mut eval = RecordingEval::new();
    let one = eval.constant(1);
    let x = eval.next_interaction_mask(0, &[0])[0];
    let inv = eval.inverse(x);
    let prod = eval.mul(inv, one);
    assert_eq!(prod, OpRef(3));
    assert_eq!(
        eval.ops(),
        &[
            RecordedOp::Const { value: 1 },
            RecordedOp::TraceCol { interaction: 0, col_index: 0, offset: 0 },
            RecordedOp::Inv { operand: OpRef(1) },
            RecordedOp::Mul { lhs: OpRef(2), rhs: OpRef(0) },
        ]
    );
}

#[test]
fn recorded_registers_are_dense() {
    let mut state = RecordingState::new();
    let a = next_trace_reg(&mut state);
    let b = next_trace_reg(&mut state);
    let sum = state.emit_base_binary(MetalEvaluationProgramBaseOpcodeV1::Add, a, b);
    let _param = state.inject_base_param(0, 0);
    let e = combined_ext(&mut state);
    let _root = state.add_constraint(e);
    assert_eq!(sum, 2);
    assert_eq!(state.max_base_regs() as usize, state.base_insts().len());
    assert_eq!(state.max_ext_regs() as usize, state.ext_insts().len());
    for (i, inst) in state.base_insts().iter().enumerate() {
        assert_eq!(inst.dst as usize, i);
    }
    for (j, inst) in state.ext_insts().iter().enumerate() {
        assert_eq!(inst.dst as usize, j);
    }
}
