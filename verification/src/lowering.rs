use vstd::prelude::*;

use crate::text::str_eq;
use crate::eval_lowering::{
    build_owned_program_v1, lemma_owned_program_validation, OwnedMetalEvaluationProgramV1,
};
use crate::eval_program::{
    spec_base_binary, spec_base_opcode_raw, spec_const_value, spec_secure_col, spec_trace_col,
    MetalEvaluationProgramBaseInstV1, MetalEvaluationProgramBaseOpcodeV1,
    MetalEvaluationProgramExtInstV1, MetalEvaluationProgramHeaderV1,
    MetalEvaluationProgramSectionDescV1, MetalEvaluationProgramBudgetV1,
    STWO_METAL_EVAL_PROGRAM_ALL_CAPS_V1, STWO_METAL_EVAL_PROGRAM_CAP_PREFINALIZED_LOGUP_V1,
};

verus! {

/// The component and trace shape a program is lowered for.
#[derive(Copy, Clone, Debug, PartialEq, Eq, Structural)]
pub struct MetalEvaluationProgramSpecializationV1 {
    pub log_n_rows: u32,
    pub n_columns: u32,
}

#[derive(Copy, Clone, Debug, PartialEq, Eq)]
pub enum MetalEvaluationProgramLoweringError {
    UnsupportedComponent { component_name: &'static str },
    InvalidWideFibonacciColumnCount { n_columns: u32 },
    InvalidVirtualSnosColumnCount { n_columns: u32 },
    RegisterBudgetOverflow,
    AbiLayoutMismatch { record: &'static str, expected_size: usize, actual_size: usize },
    AbiAlignmentMismatch { record: &'static str, expected_align: usize, actual_align: usize },
    AbiFieldOffsetMismatch { record: &'static str },
}

/// The largest register index a `u16` register operand can name, plus one.
pub const MAX_REGISTERS_V1: u32 = 65535u32;

// ---------------------------------------------------------------------------
// Wide fibonacci: for each column triple (a, b, c): c - (a^2 + b^2) == 0.
// ---------------------------------------------------------------------------

/// Base instruction `i` of the wide-fibonacci program. Register 0 holds zero;
/// constraint `k` uses registers `7k + 1 ..= 7k + 7`: the three trace cells,
/// the two squares, their sum, and the residue.
pub open spec fn wide_fibonacci_base_inst(i: int) -> MetalEvaluationProgramBaseInstV1 {
    if i == 0 {
        spec_const_value(0, 0)
    } else {
        let k = (i - 1) / 7;
        let j = (i - 1) % 7;
        if j == 0 {
            spec_trace_col(i as u16, 1, k as u32, 0)
        } else if j == 1 {
            spec_trace_col(i as u16, 1, (k + 1) as u32, 0)
        } else if j == 2 {
            spec_trace_col(i as u16, 1, (k + 2) as u32, 0)
        } else if j == 3 || j == 4 {
            spec_base_binary(MetalEvaluationProgramBaseOpcodeV1::Mul, i as u16, (i - 3) as u32, (i - 3) as u32)
        } else if j == 5 {
            spec_base_binary(MetalEvaluationProgramBaseOpcodeV1::Add, i as u16, (i - 2) as u32, (i - 1) as u32)
        } else {
            spec_base_binary(MetalEvaluationProgramBaseOpcodeV1::Sub, i as u16, (i - 4) as u32, (i - 1) as u32)
        }
    }
}

/// Extension instruction `k`: lifts the residue of constraint `k`.
pub open spec fn wide_fibonacci_ext_inst(k: int) -> MetalEvaluationProgramExtInstV1 {
    spec_secure_col(k as u16, (7 * k + 7) as u32, 0, 0, 0)
}

/// `p` is the wide-fibonacci program with `n` constraints.
pub open spec fn is_wide_fibonacci_program(p: OwnedMetalEvaluationProgramV1, n: nat) -> bool {
    &&& p.wf()
    &&& p.spec_base_consts() == Seq::<u32>::empty()
    &&& p.spec_ext_consts() == Seq::<[u32; 4]>::empty()
    &&& p.spec_base_insts() == Seq::new(1 + 7 * n, |i: int| wide_fibonacci_base_inst(i))
    &&& p.spec_ext_insts() == Seq::new(n, |k: int| wide_fibonacci_ext_inst(k))
    &&& p.spec_constraint_roots() == Seq::new(n, |k: int| k as u32)
    &&& p.spec_header().capability_bits == STWO_METAL_EVAL_PROGRAM_ALL_CAPS_V1
    &&& p.spec_header().n_interactions == 2
    &&& p.spec_header().n_base_params == 0
    &&& p.spec_header().n_ext_params == 0
    &&& p.spec_header().max_base_regs == 1 + 7 * n
    &&& p.spec_header().max_ext_regs == n
}

/// Why wide-fibonacci lowering refuses `n_columns`, if it does.
pub open spec fn wide_fibonacci_lowering_error(n_columns: u32) -> Option<MetalEvaluationProgramLoweringError> {
    if n_columns < 3 {
        Some(MetalEvaluationProgramLoweringError::InvalidWideFibonacciColumnCount { n_columns })
    } else if 1 + 7 * (n_columns - 2) > MAX_REGISTERS_V1 {
        Some(MetalEvaluationProgramLoweringError::RegisterBudgetOverflow)
    } else {
        None
    }
}

/// `r` is what wide-fibonacci lowering gives for `n_columns`.
pub open spec fn wide_fibonacci_outcome(
    r: Result<OwnedMetalEvaluationProgramV1, MetalEvaluationProgramLoweringError>,
    n_columns: u32,
) -> bool {
    match r {
        Ok(p) => wide_fibonacci_lowering_error(n_columns) is None && is_wide_fibonacci_program(
            p,
            (n_columns - 2) as nat,
        ),
        Err(e) => wide_fibonacci_lowering_error(n_columns) == Some(e),
    }
}

/// Lowers the wide-fibonacci constraints over `n_columns` columns: one
/// constraint per column triple.
pub fn lower_wide_fibonacci_evaluation_program_v1(
    specialization: MetalEvaluationProgramSpecializationV1,
) -> (r: Result<OwnedMetalEvaluationProgramV1, MetalEvaluationProgramLoweringError>)
    ensures
        wide_fibonacci_outcome(r, specialization.n_columns),
{
    let n_columns = specialization.n_columns;
    if n_columns < 3 {
        return Err(MetalEvaluationProgramLoweringError::InvalidWideFibonacciColumnCount { n_columns });
    }
    let n_constraints = n_columns - 2;
    if n_constraints > (MAX_REGISTERS_V1 - 1) / 7 {
        return Err(MetalEvaluationProgramLoweringError::RegisterBudgetOverflow);
    }
    let base_regs_required: u32 = 1 + 7 * n_constraints;
    let ext_regs_required: u32 = n_constraints;

    let mut base_insts: Vec<MetalEvaluationProgramBaseInstV1> = Vec::new();
    let mut ext_insts: Vec<MetalEvaluationProgramExtInstV1> = Vec::new();
    let mut constraint_roots: Vec<u32> = Vec::new();

    let zero_reg: u16 = 0;
    base_insts.push(MetalEvaluationProgramBaseInstV1::const_value(zero_reg, 0));
    proof {
        assert(base_insts@ =~= Seq::new(1, |i: int| wide_fibonacci_base_inst(i)));
        assert(ext_insts@ =~= Seq::new(0, |k: int| wide_fibonacci_ext_inst(k)));
        assert(constraint_roots@ =~= Seq::new(0, |k: int| k as u32));
    }

    let mut next_base_reg: u16 = 1;
    let mut next_ext_reg: u16 = 0;
    let mut column: u32 = 2;
    while column < n_columns
        invariant
            2 <= column <= n_columns,
            zero_reg == 0,
            n_constraints == n_columns - 2,
            1 + 7 * n_constraints <= MAX_REGISTERS_V1,
            next_base_reg == 1 + 7 * (column - 2),
            next_ext_reg == column - 2,
            base_insts@ == Seq::new((1 + 7 * (column - 2)) as nat, |i: int| wide_fibonacci_base_inst(i)),
            ext_insts@ == Seq::new((column - 2) as nat, |k: int| wide_fibonacci_ext_inst(k)),
            constraint_roots@ == Seq::new((column - 2) as nat, |k: int| k as u32),
        decreases n_columns - column,
    {
        let ghost old_base = base_insts@;
        let ghost k: int = column - 2;
        let reg_a = next_base_reg;
        next_base_reg = next_base_reg + 1;
        base_insts.push(MetalEvaluationProgramBaseInstV1::trace_col(reg_a, 1, column - 2, 0));
        let reg_b = next_base_reg;
        next_base_reg = next_base_reg + 1;
        base_insts.push(MetalEvaluationProgramBaseInstV1::trace_col(reg_b, 1, column - 1, 0));
        let reg_c = next_base_reg;
        next_base_reg = next_base_reg + 1;
        base_insts.push(MetalEvaluationProgramBaseInstV1::trace_col(reg_c, 1, column, 0));
        let reg_a_sq = next_base_reg;
        next_base_reg = next_base_reg + 1;
        base_insts.push(
            MetalEvaluationProgramBaseInstV1::binary(
                MetalEvaluationProgramBaseOpcodeV1::Mul,
                reg_a_sq,
                reg_a as u32,
                reg_a as u32,
            ),
        );
        let reg_b_sq = next_base_reg;
        next_base_reg = next_base_reg + 1;
        base_insts.push(
            MetalEvaluationProgramBaseInstV1::binary(
                MetalEvaluationProgramBaseOpcodeV1::Mul,
                reg_b_sq,
                reg_b as u32,
                reg_b as u32,
            ),
        );
        let reg_sum = next_base_reg;
        next_base_reg = next_base_reg + 1;
        base_insts.push(
            MetalEvaluationProgramBaseInstV1::binary(
                MetalEvaluationProgramBaseOpcodeV1::Add,
                reg_sum,
                reg_a_sq as u32,
                reg_b_sq as u32,
            ),
        );
        let reg_constraint = next_base_reg;
        next_base_reg = next_base_reg + 1;
        base_insts.push(
            MetalEvaluationProgramBaseInstV1::binary(
                MetalEvaluationProgramBaseOpcodeV1::Sub,
                reg_constraint,
                reg_c as u32,
                reg_sum as u32,
            ),
        );
        let ext_reg = next_ext_reg;
        next_ext_reg = next_ext_reg + 1;
        ext_insts.push(
            MetalEvaluationProgramExtInstV1::secure_col(
                ext_reg,
                reg_constraint as u32,
                zero_reg as u32,
                zero_reg as u32,
                zero_reg as u32,
            ),
        );
        constraint_roots.push(ext_reg as u32);
        proof {
            let n = 1 + 7 * k;
            assert(base_insts@[n + 0] == wide_fibonacci_base_inst(n + 0));
            assert(base_insts@[n + 1] == wide_fibonacci_base_inst(n + 1));
            assert(base_insts@[n + 2] == wide_fibonacci_base_inst(n + 2));
            assert(base_insts@[n + 3] == wide_fibonacci_base_inst(n + 3));
            assert(base_insts@[n + 4] == wide_fibonacci_base_inst(n + 4));
            assert(base_insts@[n + 5] == wide_fibonacci_base_inst(n + 5));
            assert(base_insts@[n + 6] == wide_fibonacci_base_inst(n + 6));
            assert(base_insts@ =~= Seq::new((1 + 7 * (k + 1)) as nat, |i: int| wide_fibonacci_base_inst(i)));

            assert(ext_insts@ =~= Seq::new((k + 1) as nat, |x: int| wide_fibonacci_ext_inst(x)));
            assert(constraint_roots@ =~= Seq::new((k + 1) as nat, |x: int| x as u32));
        }
        column = column + 1;
    }

    Ok(
        build_owned_program_v1(
            STWO_METAL_EVAL_PROGRAM_ALL_CAPS_V1,
            2,
            0,
            0,
            base_regs_required,
            ext_regs_required,
            Vec::new(),
            Vec::new(),
            base_insts,
            ext_insts,
            constraint_roots,
        ),
    )
}

// ---------------------------------------------------------------------------
// Virtual snos: for each column pair (a, b): a + b - param_0 == 0.
// ---------------------------------------------------------------------------

/// Loads base parameter slot 0 into `dst`.
pub open spec fn spec_param_zero(dst: u16) -> MetalEvaluationProgramBaseInstV1 {
    MetalEvaluationProgramBaseInstV1 {
        op: spec_base_opcode_raw(MetalEvaluationProgramBaseOpcodeV1::Param),
        interaction: 0,
        dst,
        a: 0,
        b: 0,
        imm: 0,
    }
}

/// Base instruction `i` of the virtual-snos program. Register 0 holds zero,
/// the padding of each lifted residue; constraint `k` uses registers
/// `5k + 1 ..= 5k + 5`: the parameter, the two trace cells, their sum, and the
/// residue.
pub open spec fn virtual_snos_base_inst(i: int) -> MetalEvaluationProgramBaseInstV1 {
    let k = (i - 1) / 5;
    let j = (i - 1) % 5;
    if i == 0 {
        spec_const_value(0, 0)
    } else if j == 0 {
        spec_param_zero(i as u16)
    } else if j == 1 {
        spec_trace_col(i as u16, 1, k as u32, 0)
    } else if j == 2 {
        spec_trace_col(i as u16, 1, (k + 1) as u32, 0)
    } else if j == 3 {
        spec_base_binary(MetalEvaluationProgramBaseOpcodeV1::Add, i as u16, (i - 2) as u32, (i - 1) as u32)
    } else {
        spec_base_binary(MetalEvaluationProgramBaseOpcodeV1::Sub, i as u16, (i - 1) as u32, (i - 4) as u32)
    }
}

/// Extension instruction `k`: lifts the residue of constraint `k`.
pub open spec fn virtual_snos_ext_inst(k: int) -> MetalEvaluationProgramExtInstV1 {
    spec_secure_col(k as u16, (5 * k + 5) as u32, 0, 0, 0)
}

/// `p` is the virtual-snos program with `n` constraints.
pub open spec fn is_virtual_snos_program(p: OwnedMetalEvaluationProgramV1, n: nat) -> bool {
    &&& p.wf()
    &&& p.spec_base_consts() == Seq::<u32>::empty()
    &&& p.spec_ext_consts() == Seq::<[u32; 4]>::empty()
    &&& p.spec_base_insts() == Seq::new(1 + 5 * n, |i: int| virtual_snos_base_inst(i))
    &&& p.spec_ext_insts() == Seq::new(n, |k: int| virtual_snos_ext_inst(k))
    &&& p.spec_constraint_roots() == Seq::new(n, |k: int| k as u32)
    &&& p.spec_header().capability_bits == STWO_METAL_EVAL_PROGRAM_ALL_CAPS_V1
    &&& p.spec_header().n_interactions == 2
    &&& p.spec_header().n_base_params == 1
    &&& p.spec_header().n_ext_params == 0
    &&& p.spec_header().max_base_regs == 1 + 5 * n
    &&& p.spec_header().max_ext_regs == n
}

/// Why virtual-snos lowering refuses `n_columns`, if it does.
pub open spec fn virtual_snos_lowering_error(n_columns: u32) -> Option<MetalEvaluationProgramLoweringError> {
    if n_columns < 2 {
        Some(MetalEvaluationProgramLoweringError::InvalidVirtualSnosColumnCount { n_columns })
    } else if 1 + 5 * (n_columns - 1) > MAX_REGISTERS_V1 {
        Some(MetalEvaluationProgramLoweringError::RegisterBudgetOverflow)
    } else {
        None
    }
}

/// `r` is what virtual-snos lowering gives for `n_columns`.
pub open spec fn virtual_snos_outcome(
    r: Result<OwnedMetalEvaluationProgramV1, MetalEvaluationProgramLoweringError>,
    n_columns: u32,
) -> bool {
    match r {
        Ok(p) => virtual_snos_lowering_error(n_columns) is None && is_virtual_snos_program(
            p,
            (n_columns - 1) as nat,
        ),
        Err(e) => virtual_snos_lowering_error(n_columns) == Some(e),
    }
}

/// Lowers the virtual-snos column-pair sum check: for each consecutive
/// column pair of interaction 1, the pair's sum minus base parameter 0.
pub fn lower_virtual_snos_evaluation_program_v1(
    specialization: MetalEvaluationProgramSpecializationV1,
) -> (r: Result<OwnedMetalEvaluationProgramV1, MetalEvaluationProgramLoweringError>)
    ensures
        virtual_snos_outcome(r, specialization.n_columns),
{
    let n_columns = specialization.n_columns;
    if n_columns < 2 {
        return Err(MetalEvaluationProgramLoweringError::InvalidVirtualSnosColumnCount { n_columns });
    }
    let n_constraints = n_columns - 1;
    if n_constraints > (MAX_REGISTERS_V1 - 1) / 5 {
        return Err(MetalEvaluationProgramLoweringError::RegisterBudgetOverflow);
    }
    let base_regs_required: u32 = 1 + 5 * n_constraints;
    let ext_regs_required: u32 = n_constraints;

    let mut base_insts: Vec<MetalEvaluationProgramBaseInstV1> = Vec::new();
    let mut ext_insts: Vec<MetalEvaluationProgramExtInstV1> = Vec::new();
    let mut constraint_roots: Vec<u32> = Vec::new();
    let zero_reg: u16 = 0;
    base_insts.push(MetalEvaluationProgramBaseInstV1::const_value(zero_reg, 0));
    proof {
        assert(base_insts@ =~= Seq::new(1, |i: int| virtual_snos_base_inst(i)));
        assert(ext_insts@ =~= Seq::new(0, |k: int| virtual_snos_ext_inst(k)));
        assert(constraint_roots@ =~= Seq::new(0, |k: int| k as u32));
    }

    let mut next_base_reg: u16 = 1;
    let mut next_ext_reg: u16 = 0;
    let mut col: u32 = 0;
    while col < n_constraints
        invariant
            col <= n_constraints,
            n_constraints == n_columns - 1,
            1 + 5 * n_constraints <= MAX_REGISTERS_V1,
            zero_reg == 0,
            next_base_reg == 1 + 5 * col,
            next_ext_reg == col,
            base_insts@ == Seq::new((1 + 5 * col) as nat, |i: int| virtual_snos_base_inst(i)),
            ext_insts@ == Seq::new(col as nat, |k: int| virtual_snos_ext_inst(k)),
            constraint_roots@ == Seq::new(col as nat, |k: int| k as u32),
        decreases n_constraints - col,
    {
        let ghost k: int = col as int;
        let reg_param = next_base_reg;
        next_base_reg = next_base_reg + 1;
        base_insts.push(
            MetalEvaluationProgramBaseInstV1 {
                op: MetalEvaluationProgramBaseOpcodeV1::Param.to_raw(),
                interaction: 0,
                dst: reg_param,
                a: 0,
                b: 0,
                imm: 0,
            },
        );
        let reg_a = next_base_reg;
        next_base_reg = next_base_reg + 1;
        base_insts.push(MetalEvaluationProgramBaseInstV1::trace_col(reg_a, 1, col, 0));
        let reg_b = next_base_reg;
        next_base_reg = next_base_reg + 1;
        base_insts.push(MetalEvaluationProgramBaseInstV1::trace_col(reg_b, 1, col + 1, 0));
        let reg_sum = next_base_reg;
        next_base_reg = next_base_reg + 1;
        base_insts.push(
            MetalEvaluationProgramBaseInstV1::binary(
                MetalEvaluationProgramBaseOpcodeV1::Add,
                reg_sum,
                reg_a as u32,
                reg_b as u32,
            ),
        );
        let reg_constraint = next_base_reg;
        next_base_reg = next_base_reg + 1;
        base_insts.push(
            MetalEvaluationProgramBaseInstV1::binary(
                MetalEvaluationProgramBaseOpcodeV1::Sub,
                reg_constraint,
                reg_sum as u32,
                reg_param as u32,
            ),
        );
        let ext_reg = next_ext_reg;
        next_ext_reg = next_ext_reg + 1;
        ext_insts.push(
            MetalEvaluationProgramExtInstV1::secure_col(
                ext_reg,
                reg_constraint as u32,
                zero_reg as u32,
                zero_reg as u32,
                zero_reg as u32,
            ),
        );
        constraint_roots.push(ext_reg as u32);
        proof {
            let n = 1 + 5 * k;
            assert(base_insts@[n] == virtual_snos_base_inst(n));
            assert(base_insts@[n + 1] == virtual_snos_base_inst(n + 1));
            assert(base_insts@[n + 2] == virtual_snos_base_inst(n + 2));
            assert(base_insts@[n + 3] == virtual_snos_base_inst(n + 3));
            assert(base_insts@[n + 4] == virtual_snos_base_inst(n + 4));
            assert(base_insts@ =~= Seq::new((1 + 5 * (k + 1)) as nat, |i: int| virtual_snos_base_inst(i)));
            assert(ext_insts@ =~= Seq::new((k + 1) as nat, |x: int| virtual_snos_ext_inst(x)));
            assert(constraint_roots@ =~= Seq::new((k + 1) as nat, |x: int| x as u32));
        }
        col = col + 1;
    }

    Ok(
        build_owned_program_v1(
            STWO_METAL_EVAL_PROGRAM_ALL_CAPS_V1,
            2,
            1,
            0,
            base_regs_required,
            ext_regs_required,
            Vec::new(),
            Vec::new(),
            base_insts,
            ext_insts,
            constraint_roots,
        ),
    )
}

// ---------------------------------------------------------------------------
// Host/device record layout.
// ---------------------------------------------------------------------------

/// The verdict on the sizes and alignments of the records shared with the
/// device: each record is checked for its size, then its alignment, in the
/// order header, section descriptor, base instruction, extension instruction.
pub open spec fn spec_abi_layout_v1() -> Result<(), MetalEvaluationProgramLoweringError> {
    if vstd::layout::size_of::<MetalEvaluationProgramHeaderV1>() != 96 {
        Err(
            MetalEvaluationProgramLoweringError::AbiLayoutMismatch {
                record: "MetalEvaluationProgramHeaderV1",
                expected_size: 96,
                actual_size: vstd::layout::size_of::<MetalEvaluationProgramHeaderV1>() as usize,
            },
        )
    } else if vstd::layout::align_of::<MetalEvaluationProgramHeaderV1>() != 8 {
        Err(
            MetalEvaluationProgramLoweringError::AbiAlignmentMismatch {
                record: "MetalEvaluationProgramHeaderV1",
                expected_align: 8,
                actual_align: vstd::layout::align_of::<MetalEvaluationProgramHeaderV1>() as usize,
            },
        )
    } else if vstd::layout::size_of::<MetalEvaluationProgramSectionDescV1>() != 24 {
        Err(
            MetalEvaluationProgramLoweringError::AbiLayoutMismatch {
                record: "MetalEvaluationProgramSectionDescV1",
                expected_size: 24,
                actual_size: vstd::layout::size_of::<MetalEvaluationProgramSectionDescV1>() as usize,
            },
        )
    } else if vstd::layout::align_of::<MetalEvaluationProgramSectionDescV1>() != 8 {
        Err(
            MetalEvaluationProgramLoweringError::AbiAlignmentMismatch {
                record: "MetalEvaluationProgramSectionDescV1",
                expected_align: 8,
                actual_align: vstd::layout::align_of::<MetalEvaluationProgramSectionDescV1>() as usize,
            },
        )
    } else if vstd::layout::size_of::<MetalEvaluationProgramBaseInstV1>() != 16 {
        Err(
            MetalEvaluationProgramLoweringError::AbiLayoutMismatch {
                record: "MetalEvaluationProgramBaseInstV1",
                expected_size: 16,
                actual_size: vstd::layout::size_of::<MetalEvaluationProgramBaseInstV1>() as usize,
            },
        )
    } else if vstd::layout::align_of::<MetalEvaluationProgramBaseInstV1>() != 4 {
        Err(
            MetalEvaluationProgramLoweringError::AbiAlignmentMismatch {
                record: "MetalEvaluationProgramBaseInstV1",
                expected_align: 4,
                actual_align: vstd::layout::align_of::<MetalEvaluationProgramBaseInstV1>() as usize,
            },
        )
    } else if vstd::layout::size_of::<MetalEvaluationProgramExtInstV1>() != 20 {
        Err(
            MetalEvaluationProgramLoweringError::AbiLayoutMismatch {
                record: "MetalEvaluationProgramExtInstV1",
                expected_size: 20,
                actual_size: vstd::layout::size_of::<MetalEvaluationProgramExtInstV1>() as usize,
            },
        )
    } else if vstd::layout::align_of::<MetalEvaluationProgramExtInstV1>() != 4 {
        Err(
            MetalEvaluationProgramLoweringError::AbiAlignmentMismatch {
                record: "MetalEvaluationProgramExtInstV1",
                expected_align: 4,
                actual_align: vstd::layout::align_of::<MetalEvaluationProgramExtInstV1>() as usize,
            },
        )
    } else {
        Ok(())
    }
}

/// Checks the sizes and alignments of the records shared with the device.
pub fn validate_eval_program_abi_layout_v1() -> (r: Result<(), MetalEvaluationProgramLoweringError>)
    ensures
        r == spec_abi_layout_v1(),
{
    let size = core::mem::size_of::<MetalEvaluationProgramHeaderV1>();
    if size != 96 {
        return Err(
            MetalEvaluationProgramLoweringError::AbiLayoutMismatch {
                record: "MetalEvaluationProgramHeaderV1",
                expected_size: 96,
                actual_size: size,
            },
        );
    }
    let align = core::mem::align_of::<MetalEvaluationProgramHeaderV1>();
    if align != 8 {
        return Err(
            MetalEvaluationProgramLoweringError::AbiAlignmentMismatch {
                record: "MetalEvaluationProgramHeaderV1",
                expected_align: 8,
                actual_align: align,
            },
        );
    }
    let size = core::mem::size_of::<MetalEvaluationProgramSectionDescV1>();
    if size != 24 {
        return Err(
            MetalEvaluationProgramLoweringError::AbiLayoutMismatch {
                record: "MetalEvaluationProgramSectionDescV1",
                expected_size: 24,
                actual_size: size,
            },
        );
    }
    let align = core::mem::align_of::<MetalEvaluationProgramSectionDescV1>();
    if align != 8 {
        return Err(
            MetalEvaluationProgramLoweringError::AbiAlignmentMismatch {
                record: "MetalEvaluationProgramSectionDescV1",
                expected_align: 8,
                actual_align: align,
            },
        );
    }
    let size = core::mem::size_of::<MetalEvaluationProgramBaseInstV1>();
    if size != 16 {
        return Err(
            MetalEvaluationProgramLoweringError::AbiLayoutMismatch {
                record: "MetalEvaluationProgramBaseInstV1",
                expected_size: 16,
                actual_size: size,
            },
        );
    }
    let align = core::mem::align_of::<MetalEvaluationProgramBaseInstV1>();
    if align != 4 {
        return Err(
            MetalEvaluationProgramLoweringError::AbiAlignmentMismatch {
                record: "MetalEvaluationProgramBaseInstV1",
                expected_align: 4,
                actual_align: align,
            },
        );
    }
    let size = core::mem::size_of::<MetalEvaluationProgramExtInstV1>();
    if size != 20 {
        return Err(
            MetalEvaluationProgramLoweringError::AbiLayoutMismatch {
                record: "MetalEvaluationProgramExtInstV1",
                expected_size: 20,
                actual_size: size,
            },
        );
    }
    let align = core::mem::align_of::<MetalEvaluationProgramExtInstV1>();
    if align != 4 {
        return Err(
            MetalEvaluationProgramLoweringError::AbiAlignmentMismatch {
                record: "MetalEvaluationProgramExtInstV1",
                expected_align: 4,
                actual_align: align,
            },
        );
    }
    Ok(())
}

/// What lowering `component_name` gives, once the record layout is checked.
pub open spec fn registered_lowering_outcome(
    r: Result<OwnedMetalEvaluationProgramV1, MetalEvaluationProgramLoweringError>,
    component_name: &'static str,
    specialization: MetalEvaluationProgramSpecializationV1,
) -> bool {
    match spec_abi_layout_v1() {
        Err(e) => r == Err::<OwnedMetalEvaluationProgramV1, MetalEvaluationProgramLoweringError>(e),
        Ok(_) => if component_name@ == "fibonacci_example"@ {
            wide_fibonacci_outcome(r, specialization.n_columns)
        } else if component_name@ == "virtual_snos"@ {
            virtual_snos_outcome(r, specialization.n_columns)
        } else {
            r == Err::<OwnedMetalEvaluationProgramV1, MetalEvaluationProgramLoweringError>(
                MetalEvaluationProgramLoweringError::UnsupportedComponent { component_name },
            )
        },
    }
}

/// Lowers the registered component `component_name`, after checking the
/// host/device record layout.
pub fn lower_registered_metal_evaluation_program_v1(
    component_name: &'static str,
    specialization: MetalEvaluationProgramSpecializationV1,
) -> (r: Result<OwnedMetalEvaluationProgramV1, MetalEvaluationProgramLoweringError>)
    ensures
        registered_lowering_outcome(r, component_name, specialization),
{
    match validate_eval_program_abi_layout_v1() {
        Err(e) => return Err(e),
        Ok(()) => {},
    }
    if str_eq(component_name, "fibonacci_example") {
        lower_wide_fibonacci_evaluation_program_v1(specialization)
    } else if str_eq(component_name, "virtual_snos") {
        lower_virtual_snos_evaluation_program_v1(specialization)
    } else {
        Err(MetalEvaluationProgramLoweringError::UnsupportedComponent { component_name })
    }
}

/// Every lowered wide-fibonacci program with `n` constraints validates
/// against exactly the budgets with at least `1 + 7n` base and `n` extension
/// registers.
pub proof fn lemma_wide_fibonacci_program_validation(
    p: OwnedMetalEvaluationProgramV1,
    n: nat,
    budget: MetalEvaluationProgramBudgetV1,
)
    requires
        is_wide_fibonacci_program(p, n),
    ensures
        p.spec_validate(budget) is Ok <==> (1 + 7 * n <= budget.max_base_regs && n <= budget.max_ext_regs),
{
    lemma_all_caps_declare_prefinalized_logup();
    lemma_owned_program_validation(p, budget);
}

/// Every lowered virtual-snos program with `n` constraints validates against
/// exactly the budgets with at least `1 + 5n` base and `n` extension
/// registers.
pub proof fn lemma_virtual_snos_program_validation(
    p: OwnedMetalEvaluationProgramV1,
    n: nat,
    budget: MetalEvaluationProgramBudgetV1,
)
    requires
        is_virtual_snos_program(p, n),
    ensures
        p.spec_validate(budget) is Ok <==> (1 + 5 * n <= budget.max_base_regs && n <= budget.max_ext_regs),
{
    lemma_all_caps_declare_prefinalized_logup();
    lemma_owned_program_validation(p, budget);
}

proof fn lemma_all_caps_declare_prefinalized_logup()
    ensures
        STWO_METAL_EVAL_PROGRAM_ALL_CAPS_V1 & STWO_METAL_EVAL_PROGRAM_CAP_PREFINALIZED_LOGUP_V1 != 0,
{
    assert(7u64 & 4u64 != 0) by (bit_vector);
}

} // verus!
