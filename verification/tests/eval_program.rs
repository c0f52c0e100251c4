use std::mem::{align_of, size_of};

type BaseField = stwo::core::fields::m31::BaseField;
type SecureField = stwo::core::fields::qm31::SecureField;

use stwo_metal::capability::MetalRuntimeSupport;
use stwo_metal::eval_dispatch::{
    lookup_metal_evaluation_program_overlay_v1, metal_evaluation_program_overlays_v1,
    select_metal_evaluation_program_dispatch_v1, MetalEvaluationProgramCapabilityProfileV1,
    MetalEvaluationProgramDispatchKindV1, MetalEvaluationProgramExecutionError,
};
use stwo_metal::eval_device::{
    pack_base_insts, pack_ext_insts, prepare_metal_evaluation_program_device_inputs_v1,
    prepare_wide_fibonacci_overlay_device_inputs_v1, secure_values_from_device_words,
};
use stwo_metal::eval_interpreter::{
    interpret_metal_evaluation_program_v1, MetalEvaluationProgramInterpreterError,
    MetalEvaluationProgramRuntimeInputsV1, MetalEvaluationProgramTraceViewV1,
};
use stwo_metal::eval_lowering::{build_owned_program_v1, OwnedMetalEvaluationProgramV1};
use stwo_metal::eval_program::{
    MetalEvaluationProgramBaseInstV1, MetalEvaluationProgramBaseOpcodeV1,
    MetalEvaluationProgramBudgetV1, MetalEvaluationProgramExtInstV1,
    MetalEvaluationProgramHeaderV1, MetalEvaluationProgramSectionDescV1,
    MetalEvaluationProgramSectionKindV1, STWO_METAL_EVAL_PROGRAM_ABI_MAJOR_V1,
    STWO_METAL_EVAL_PROGRAM_CAP_BASE_INV_V1, STWO_METAL_EVAL_PROGRAM_CAP_EXT_MUL_V1,
    STWO_METAL_EVAL_PROGRAM_CAP_PREFINALIZED_LOGUP_V1,
    STWO_METAL_EVAL_PROGRAM_FLAG_PREFINALIZED_LOGUP_V1, STWO_METAL_EVAL_PROGRAM_MAGIC_V1,
    STWO_METAL_EVAL_PROGRAM_SECURE_EXT_DEGREE_V1,
};
use stwo_metal::eval_validation::{
    validate_metal_evaluation_program_v1, MetalEvaluationProgramValidationError,
};
use stwo_metal::lowering::{
    lower_registered_metal_evaluation_program_v1, lower_virtual_snos_evaluation_program_v1,
    lower_wide_fibonacci_evaluation_program_v1, validate_eval_program_abi_layout_v1,
    MetalEvaluationProgramLoweringError, MetalEvaluationProgramSpecializationV1,
};
use stwo_metal::sampled_values::MetalSecureFieldValueV1;
use stwo_metal::semantic_hash::metal_evaluation_program_semantic_hash_v1;

fn limbs(value: SecureField) -> MetalSecureFieldValueV1 {
    MetalSecureFieldValueV1 { limbs: value.to_m31_array().map(|limb| limb.0) }
}

fn wide_fibonacci_trace(n_rows: usize, n_columns: usize) -> Vec<Vec<BaseField>> {
    let mut columns = vec![vec![BaseField::from_u32_unchecked(0); n_rows]; n_columns];
    for row in 0..n_rows {
        let mut a = BaseField::from_u32_unchecked(1);
        let mut b = BaseField::from_u32_unchecked((row as u32) + 2);
        columns[0][row] = a;
        columns[1][row] = b;
        for column in columns.iter_mut().skip(2) {
            let next = stwo::core::fields::FieldExpOps::square(&a) + stwo::core::fields::FieldExpOps::square(&b);
            column[row] = next;
            a = b;
            b = next;
        }
    }
    columns
}

fn wide_fibonacci_row_residues(columns: &[Vec<BaseField>], random_coeff_powers: &[SecureField]) -> Vec<SecureField> {
    let n_rows = columns[0].len();
    let n_constraints = columns.len() - 2;
    (0..n_rows)
        .map(|row| {
            let mut acc = SecureField::from_u32_unchecked(0, 0, 0, 0);
            for constraint in 0..n_constraints {
                let a = columns[constraint][row];
                let b = columns[constraint + 1][row];
                let c = columns[constraint + 2][row];
                let residue = c - (stwo::core::fields::FieldExpOps::square(&a) + stwo::core::fields::FieldExpOps::square(&b));
                let zero = SecureField::from_u32_unchecked(0, 0, 0, 0);
                acc += SecureField::from_partial_evals([SecureField::from(residue), zero, zero, zero])
                    * random_coeff_powers[constraint];
            }
            acc
        })
        .collect()
}

fn raw_columns(columns: &[Vec<BaseField>]) -> Vec<Vec<u32>> {
    columns.iter().map(|column| column.iter().map(|value| value.0).collect()).collect()
}

fn valid_header() -> MetalEvaluationProgramHeaderV1 {
    let semantic_hash = metal_evaluation_program_semantic_hash_v1(&[b"base", b"ext"]);
    MetalEvaluationProgramHeaderV1 {
        magic: STWO_METAL_EVAL_PROGRAM_MAGIC_V1,
        abi_major: STWO_METAL_EVAL_PROGRAM_ABI_MAJOR_V1,
        abi_minor: 0,
        n_sections: 5,
        flags: STWO_METAL_EVAL_PROGRAM_FLAG_PREFINALIZED_LOGUP_V1,
        semantic_hash,
        capability_bits: STWO_METAL_EVAL_PROGRAM_CAP_BASE_INV_V1
            | STWO_METAL_EVAL_PROGRAM_CAP_EXT_MUL_V1
            | STWO_METAL_EVAL_PROGRAM_CAP_PREFINALIZED_LOGUP_V1,
        n_interactions: 2,
        n_base_params: 3,
        n_ext_params: 1,
        n_constraints: 4,
        max_base_regs: 16,
        max_ext_regs: 8,
        secure_ext_degree: STWO_METAL_EVAL_PROGRAM_SECURE_EXT_DEGREE_V1,
        reserved: [0; 8],
    }
}

fn valid_sections() -> [MetalEvaluationProgramSectionDescV1; 5] {
    [
        MetalEvaluationProgramSectionDescV1::new(MetalEvaluationProgramSectionKindV1::BaseConsts, 4, 0, 8),
        MetalEvaluationProgramSectionDescV1::new(MetalEvaluationProgramSectionKindV1::ExtConsts, 16, 32, 2),
        MetalEvaluationProgramSectionDescV1::new(MetalEvaluationProgramSectionKindV1::BaseInsts, 16, 64, 6),
        MetalEvaluationProgramSectionDescV1::new(MetalEvaluationProgramSectionKindV1::ExtInsts, 20, 160, 3),
        MetalEvaluationProgramSectionDescV1::new(MetalEvaluationProgramSectionKindV1::ConstraintRoots, 4, 220, 4),
    ]
}

fn specialization(log_n_rows: u32, n_columns: u32) -> MetalEvaluationProgramSpecializationV1 {
    MetalEvaluationProgramSpecializationV1 { log_n_rows, n_columns }
}

/// The same program with base instruction `index` replaced.
fn with_base_inst(
    program: &OwnedMetalEvaluationProgramV1,
    index: usize,
    inst: MetalEvaluationProgramBaseInstV1,
) -> OwnedMetalEvaluationProgramV1 {
    let header = program.header();
    let mut base_insts = program.base_insts().to_vec();
    base_insts[index] = inst;
    build_owned_program_v1(
        header.capability_bits,
        header.n_interactions,
        header.n_base_params,
        header.n_ext_params,
        header.max_base_regs,
        header.max_ext_regs,
        program.base_consts().to_vec(),
        program.ext_consts().to_vec(),
        base_insts,
        program.ext_insts().to_vec(),
        program.constraint_roots().to_vec(),
    )
}

#[test]
fn header_layout_matches_v1_contract() {
    assert_eq!(size_of::<MetalEvaluationProgramHeaderV1>(), 96);
    assert_eq!(align_of::<MetalEvaluationProgramHeaderV1>(), 8);
}

#[test]
fn section_descriptor_layout_matches_v1_contract() {
    assert_eq!(size_of::<MetalEvaluationProgramSectionDescV1>(), 24);
    assert_eq!(align_of::<MetalEvaluationProgramSectionDescV1>(), 8);
}

#[test]
fn semantic_hash_is_deterministic_for_identical_semantic_chunks() {
    let a = metal_evaluation_program_semantic_hash_v1(&[b"base", b"ext", &[1, 2, 3]]);
    let b = metal_evaluation_program_semantic_hash_v1(&[b"base", b"ext", &[1, 2, 3]]);
    let c = metal_evaluation_program_semantic_hash_v1(&[b"base", b"ext", &[1, 2, 4]]);
    assert_eq!(a, b);
    assert_ne!(a, c);
}

#[test]
fn semantic_hash_of_no_bytes_is_the_fnv_offset_basis() {
    assert_eq!(metal_evaluation_program_semantic_hash_v1(&[]), 0xcbf2_9ce4_8422_2325);
    assert_eq!(metal_evaluation_program_semantic_hash_v1(&[b"a"]), 0xaf63_dc4c_8601_ec8c);
    assert_eq!(
        metal_evaluation_program_semantic_hash_v1(&[b"ba", b"se"]),
        metal_evaluation_program_semantic_hash_v1(&[b"base"])
    );
}

#[test]
fn validator_accepts_minimal_valid_program() {
    validate_metal_evaluation_program_v1(
        valid_header(),
        &valid_sections(),
        236,
        MetalEvaluationProgramBudgetV1::new(32, 16),
    )
    .unwrap();
}

#[test]
fn validator_rejects_missing_prefinalized_flag() {
    let mut header = valid_header();
    header.flags = 0;
    let error = validate_metal_evaluation_program_v1(
        header,
        &valid_sections(),
        236,
        MetalEvaluationProgramBudgetV1::new(32, 16),
    )
    .unwrap_err();
    assert_eq!(error, MetalEvaluationProgramValidationError::MissingPrefinalizedLogupFlag);
}

#[test]
fn validator_rejects_missing_required_section() {
    let mut header = valid_header();
    header.n_sections = 4;
    let sections = [
        MetalEvaluationProgramSectionDescV1::new(MetalEvaluationProgramSectionKindV1::BaseConsts, 4, 0, 8),
        MetalEvaluationProgramSectionDescV1::new(MetalEvaluationProgramSectionKindV1::ExtConsts, 16, 32, 2),
        MetalEvaluationProgramSectionDescV1::new(MetalEvaluationProgramSectionKindV1::BaseInsts, 16, 64, 6),
        MetalEvaluationProgramSectionDescV1::new(MetalEvaluationProgramSectionKindV1::ExtInsts, 20, 160, 3),
    ];
    let error = validate_metal_evaluation_program_v1(
        header,
        &sections,
        236,
        MetalEvaluationProgramBudgetV1::new(32, 16),
    )
    .unwrap_err();
    assert_eq!(
        error,
        MetalEvaluationProgramValidationError::MissingRequiredSection {
            kind: MetalEvaluationProgramSectionKindV1::ConstraintRoots,
        }
    );
}

#[test]
fn validator_rejects_out_of_bounds_section() {
    let mut sections = valid_sections();
    sections[3] = MetalEvaluationProgramSectionDescV1::new(MetalEvaluationProgramSectionKindV1::ExtInsts, 20, 220, 3);
    let error = validate_metal_evaluation_program_v1(
        valid_header(),
        &sections,
        236,
        MetalEvaluationProgramBudgetV1::new(32, 16),
    )
    .unwrap_err();
    assert_eq!(
        error,
        MetalEvaluationProgramValidationError::SectionOutOfBounds {
            kind: MetalEvaluationProgramSectionKindV1::ExtInsts,
            end_offset: 280,
            payload_len_bytes: 236,
        }
    );
}

#[test]
fn validator_rejects_register_budget_exhaustion() {
    let error = validate_metal_evaluation_program_v1(
        valid_header(),
        &valid_sections(),
        236,
        MetalEvaluationProgramBudgetV1::new(8, 16),
    )
    .unwrap_err();
    assert_eq!(
        error,
        MetalEvaluationProgramValidationError::BaseRegisterBudgetExceeded { required: 16, supported: 8 }
    );
}

#[test]
fn validator_reports_header_errors_in_order() {
    let mut header = valid_header();
    header.magic = 7;
    header.abi_major = 9;
    assert_eq!(
        validate_metal_evaluation_program_v1(header, &valid_sections(), 236, MetalEvaluationProgramBudgetV1::new(32, 16)),
        Err(MetalEvaluationProgramValidationError::InvalidMagic { found: 7 })
    );
    let mut header = valid_header();
    header.abi_major = 9;
    assert_eq!(
        validate_metal_evaluation_program_v1(header, &valid_sections(), 236, MetalEvaluationProgramBudgetV1::new(32, 16)),
        Err(MetalEvaluationProgramValidationError::UnsupportedAbiMajor { found: 9 })
    );
    let mut header = valid_header();
    header.capability_bits = STWO_METAL_EVAL_PROGRAM_CAP_BASE_INV_V1;
    assert_eq!(
        validate_metal_evaluation_program_v1(header, &valid_sections(), 236, MetalEvaluationProgramBudgetV1::new(32, 16)),
        Err(MetalEvaluationProgramValidationError::MissingPrefinalizedLogupCapability)
    );
    let mut sections = valid_sections();
    sections[4] = MetalEvaluationProgramSectionDescV1::new(MetalEvaluationProgramSectionKindV1::BaseConsts, 4, 220, 4);
    assert_eq!(
        validate_metal_evaluation_program_v1(valid_header(), &sections, 236, MetalEvaluationProgramBudgetV1::new(32, 16)),
        Err(MetalEvaluationProgramValidationError::DuplicateSection {
            kind: MetalEvaluationProgramSectionKindV1::BaseConsts
        })
    );
}

#[test]
fn wide_fibonacci_lowering_builds_dense_v1_program() {
    let program = lower_wide_fibonacci_evaluation_program_v1(specialization(20, 100)).unwrap();
    assert_eq!(program.header().n_interactions, 2);
    assert_eq!(program.header().n_constraints, 98);
    assert_eq!(program.header().max_base_regs, 1 + 98 * 7);
    assert_eq!(program.header().max_ext_regs, 98);
    assert!(program.base_consts().is_empty());
    assert!(program.ext_consts().is_empty());
    assert_eq!(program.base_insts().len(), 1 + 98 * 7);
    assert_eq!(program.ext_insts().len(), 98);
    assert_eq!(program.constraint_roots().len(), 98);

    let first_const = &program.base_insts()[0];
    assert_eq!(first_const.op, MetalEvaluationProgramBaseOpcodeV1::Const.to_raw());
    assert_eq!(first_const.a, 0);

    let first_trace = &program.base_insts()[1];
    assert_eq!(first_trace.op, MetalEvaluationProgramBaseOpcodeV1::TraceCol.to_raw());
    assert_eq!(first_trace.interaction, 1);
    assert_eq!(first_trace.a, 0);
    assert_eq!(first_trace.imm, 0);

    program.validate(MetalEvaluationProgramBudgetV1::new(2048, 512)).unwrap();
}

#[test]
fn wide_fibonacci_lowering_rejects_too_few_columns() {
    assert_eq!(
        lower_wide_fibonacci_evaluation_program_v1(specialization(4, 2)).map(|p| p.header()),
        Err(MetalEvaluationProgramLoweringError::InvalidWideFibonacciColumnCount { n_columns: 2 })
    );
}

#[test]
fn wide_fibonacci_lowering_lays_out_one_constraint() {
    let program = lower_wide_fibonacci_evaluation_program_v1(specialization(3, 3)).unwrap();
    let mul = MetalEvaluationProgramBaseOpcodeV1::Mul;
    assert_eq!(
        program.base_insts(),
        &[
            MetalEvaluationProgramBaseInstV1::const_value(0, 0),
            MetalEvaluationProgramBaseInstV1::trace_col(1, 1, 0, 0),
            MetalEvaluationProgramBaseInstV1::trace_col(2, 1, 1, 0),
            MetalEvaluationProgramBaseInstV1::trace_col(3, 1, 2, 0),
            MetalEvaluationProgramBaseInstV1::binary(mul, 4, 1, 1),
            MetalEvaluationProgramBaseInstV1::binary(mul, 5, 2, 2),
            MetalEvaluationProgramBaseInstV1::binary(MetalEvaluationProgramBaseOpcodeV1::Add, 6, 4, 5),
            MetalEvaluationProgramBaseInstV1::binary(MetalEvaluationProgramBaseOpcodeV1::Sub, 7, 3, 6),
        ]
    );
    assert_eq!(program.ext_insts(), &[MetalEvaluationProgramExtInstV1::secure_col(0, 7, 0, 0, 0)]);
    assert_eq!(program.constraint_roots(), &[0]);
    assert_eq!(program.sections().len(), 5);
    assert_eq!(program.payload_len_bytes(), 8 * 16 + 20 + 4);
}

#[test]
fn wide_fibonacci_lowering_reports_register_overflow() {
    // 1 + 7 * (9364 - 2) = 65535 registers still fit; one more column does not.
    assert_eq!(
        lower_wide_fibonacci_evaluation_program_v1(specialization(4, 9364)).map(|p| p.header().max_base_regs),
        Ok(65535)
    );
    assert_eq!(
        lower_wide_fibonacci_evaluation_program_v1(specialization(4, 9365)).map(|p| p.header()),
        Err(MetalEvaluationProgramLoweringError::RegisterBudgetOverflow)
    );
    assert_eq!(
        lower_virtual_snos_evaluation_program_v1(specialization(4, 13107)).map(|p| p.header().max_base_regs),
        Ok(65531)
    );
    assert_eq!(
        lower_virtual_snos_evaluation_program_v1(specialization(4, 13108)).map(|p| p.header()),
        Err(MetalEvaluationProgramLoweringError::RegisterBudgetOverflow)
    );
}

#[test]
fn lowered_programs_validate_exactly_against_covering_budgets() {
    let program = lower_wide_fibonacci_evaluation_program_v1(specialization(3, 5)).unwrap();
    assert_eq!(program.validate(MetalEvaluationProgramBudgetV1::new(22, 3)), Ok(()));
    assert_eq!(
        program.validate(MetalEvaluationProgramBudgetV1::new(21, 3)),
        Err(MetalEvaluationProgramValidationError::BaseRegisterBudgetExceeded { required: 22, supported: 21 })
    );
    assert_eq!(
        program.validate(MetalEvaluationProgramBudgetV1::new(22, 2)),
        Err(MetalEvaluationProgramValidationError::ExtensionRegisterBudgetExceeded { required: 3, supported: 2 })
    );
}

#[test]
fn registered_lowering_rejects_unsupported_component() {
    assert_eq!(
        lower_registered_metal_evaluation_program_v1("poseidon_example", specialization(8, 16)).map(|p| p.header()),
        Err(MetalEvaluationProgramLoweringError::UnsupportedComponent { component_name: "poseidon_example" })
    );
}

#[test]
fn virtual_snos_lowering_succeeds_with_valid_columns() {
    let program = lower_registered_metal_evaluation_program_v1("virtual_snos", specialization(4, 4)).unwrap();
    let header = program.header();
    assert_eq!(header.n_interactions, 2);
    assert_eq!(header.n_base_params, 1);
    assert_eq!(header.n_ext_params, 0);
    assert_eq!(header.n_constraints, 3);
}

#[test]
fn virtual_snos_lowering_rejects_single_column() {
    assert_eq!(
        lower_virtual_snos_evaluation_program_v1(specialization(4, 1)).map(|p| p.header()),
        Err(MetalEvaluationProgramLoweringError::InvalidVirtualSnosColumnCount { n_columns: 1 })
    );
}

#[test]
fn registered_lowering_routes_fibonacci_example_to_wide_fibonacci() {
    let registered = lower_registered_metal_evaluation_program_v1("fibonacci_example", specialization(4, 6)).unwrap();
    let direct = lower_wide_fibonacci_evaluation_program_v1(specialization(4, 6)).unwrap();
    assert_eq!(registered.header(), direct.header());
    assert_eq!(registered.base_insts(), direct.base_insts());
}

#[test]
fn virtual_snos_interpreter_produces_zero_for_satisfied_constraints() {
    let n_rows = 8usize;
    let n_columns = 4u32;
    let columns: Vec<Vec<u32>> =
        (0..n_columns).map(|i| (0..n_rows).map(|_| if i % 2 == 0 { 2 } else { 3 }).collect()).collect();
    let trace_columns = columns.iter().map(Vec::as_slice).collect::<Vec<_>>();
    let trace_interactions = [&[][..], trace_columns.as_slice()];
    let random_coeff_powers: Vec<MetalSecureFieldValueV1> =
        (0..3).map(|i| MetalSecureFieldValueV1 { limbs: [i + 1, 0, 0, 0] }).collect();
    let program = lower_virtual_snos_evaluation_program_v1(specialization(3, n_columns)).unwrap();
    let interpreted = interpret_metal_evaluation_program_v1(
        &program,
        MetalEvaluationProgramRuntimeInputsV1 {
            trace: MetalEvaluationProgramTraceViewV1 { trace_interactions: &trace_interactions, preprocessed_columns: &[] },
            base_params: &[5],
            ext_params: &[],
            random_coeff_powers: &random_coeff_powers,
        },
    )
    .unwrap();
    assert_eq!(interpreted.len(), n_rows);
    for residue in interpreted {
        assert_eq!(residue, MetalSecureFieldValueV1 { limbs: [0, 0, 0, 0] });
    }
}

#[test]
fn wide_fibonacci_interpreter_matches_manual_row_residues() {
    let columns = wide_fibonacci_trace(8, 6);
    let raw = raw_columns(&columns);
    let trace_columns = raw.iter().map(Vec::as_slice).collect::<Vec<_>>();
    let trace_interactions = [&[][..], trace_columns.as_slice()];
    let random_coeff_powers =
        (0..4).map(|i| SecureField::from(BaseField::from_u32_unchecked((i + 1) as u32))).collect::<Vec<_>>();
    let coeffs = random_coeff_powers.iter().copied().map(limbs).collect::<Vec<_>>();
    let program = lower_wide_fibonacci_evaluation_program_v1(specialization(3, 6)).unwrap();
    let interpreted = interpret_metal_evaluation_program_v1(
        &program,
        MetalEvaluationProgramRuntimeInputsV1 {
            trace: MetalEvaluationProgramTraceViewV1 { trace_interactions: &trace_interactions, preprocessed_columns: &[] },
            base_params: &[],
            ext_params: &[],
            random_coeff_powers: &coeffs,
        },
    )
    .unwrap();
    let expected =
        wide_fibonacci_row_residues(&columns, &random_coeff_powers).into_iter().map(limbs).collect::<Vec<_>>();
    assert_eq!(interpreted, expected);
    assert!(interpreted.iter().all(|value| value.limbs == [0, 0, 0, 0]));
}

#[test]
fn wide_fibonacci_interpreter_detects_tampered_trace_rows() {
    let mut columns = wide_fibonacci_trace(8, 6);
    columns[4][3] += BaseField::from_u32_unchecked(7);
    let raw = raw_columns(&columns);
    let trace_columns = raw.iter().map(Vec::as_slice).collect::<Vec<_>>();
    let trace_interactions = [&[][..], trace_columns.as_slice()];
    let random_coeff_powers =
        (0..4).map(|i| SecureField::from(BaseField::from_u32_unchecked((i + 3) as u32))).collect::<Vec<_>>();
    let coeffs = random_coeff_powers.iter().copied().map(limbs).collect::<Vec<_>>();
    let program = lower_wide_fibonacci_evaluation_program_v1(specialization(3, 6)).unwrap();
    let interpreted = interpret_metal_evaluation_program_v1(
        &program,
        MetalEvaluationProgramRuntimeInputsV1 {
            trace: MetalEvaluationProgramTraceViewV1 { trace_interactions: &trace_interactions, preprocessed_columns: &[] },
            base_params: &[],
            ext_params: &[],
            random_coeff_powers: &coeffs,
        },
    )
    .unwrap();
    let expected =
        wide_fibonacci_row_residues(&columns, &random_coeff_powers).into_iter().map(limbs).collect::<Vec<_>>();
    assert_eq!(interpreted, expected);
    assert!(interpreted.iter().any(|value| value.limbs != [0, 0, 0, 0]));
}

#[test]
fn interpreter_matches_stwo_on_random_coefficients() {
    let columns = wide_fibonacci_trace(4, 5);
    let mut tampered = columns.clone();
    tampered[2][1] += BaseField::from_u32_unchecked(123_456_789);
    tampered[4][3] = BaseField::from_u32_unchecked(2_000_000_000);
    let raw = raw_columns(&tampered);
    let trace_columns = raw.iter().map(Vec::as_slice).collect::<Vec<_>>();
    let trace_interactions = [&[][..], trace_columns.as_slice()];
    let random_coeff_powers = vec![
        SecureField::from_u32_unchecked(3, 5, 7, 11),
        SecureField::from_u32_unchecked(13, 17, 19, 23),
        SecureField::from_u32_unchecked(2_147_483_000, 31, 1_000_000_007, 41),
    ];
    let coeffs = random_coeff_powers.iter().copied().map(limbs).collect::<Vec<_>>();
    let program = lower_wide_fibonacci_evaluation_program_v1(specialization(2, 5)).unwrap();
    let interpreted = interpret_metal_evaluation_program_v1(
        &program,
        MetalEvaluationProgramRuntimeInputsV1 {
            trace: MetalEvaluationProgramTraceViewV1 { trace_interactions: &trace_interactions, preprocessed_columns: &[] },
            base_params: &[],
            ext_params: &[],
            random_coeff_powers: &coeffs,
        },
    )
    .unwrap();
    let expected =
        wide_fibonacci_row_residues(&tampered, &random_coeff_powers).into_iter().map(limbs).collect::<Vec<_>>();
    assert_eq!(interpreted, expected);
}

#[test]
fn interpreter_rejects_non_zero_trace_offsets_for_v1_reference_lane() {
    let program = lower_wide_fibonacci_evaluation_program_v1(specialization(3, 3)).unwrap();
    let mut inst = program.base_insts()[1];
    inst.imm = 1;
    let program = with_base_inst(&program, 1, inst);
    let columns = raw_columns(&wide_fibonacci_trace(8, 3));
    let trace_columns = columns.iter().map(Vec::as_slice).collect::<Vec<_>>();
    let trace_interactions = [&[][..], trace_columns.as_slice()];
    let error = interpret_metal_evaluation_program_v1(
        &program,
        MetalEvaluationProgramRuntimeInputsV1 {
            trace: MetalEvaluationProgramTraceViewV1 { trace_interactions: &trace_interactions, preprocessed_columns: &[] },
            base_params: &[],
            ext_params: &[],
            random_coeff_powers: &[MetalSecureFieldValueV1 { limbs: [1, 0, 0, 0] }],
        },
    )
    .unwrap_err();
    assert_eq!(error, MetalEvaluationProgramInterpreterError::NonZeroTraceOffsetUnsupported { offset: 1 });
}

#[test]
fn interpreter_reports_trace_shape_errors() {
    let program = lower_wide_fibonacci_evaluation_program_v1(specialization(3, 3)).unwrap();
    let one = [MetalSecureFieldValueV1 { limbs: [1, 0, 0, 0] }];
    let empty: [&[&[u32]]; 2] = [&[], &[]];
    let run = |interactions: &[&[&[u32]]], coeffs: &[MetalSecureFieldValueV1]| {
        interpret_metal_evaluation_program_v1(
            &program,
            MetalEvaluationProgramRuntimeInputsV1 {
                trace: MetalEvaluationProgramTraceViewV1 { trace_interactions: interactions, preprocessed_columns: &[] },
                base_params: &[],
                ext_params: &[],
                random_coeff_powers: coeffs,
            },
        )
    };
    assert_eq!(run(&empty, &one), Err(MetalEvaluationProgramInterpreterError::EmptyTrace));
    let short: [&[u32]; 3] = [&[1, 2], &[1], &[1, 2]];
    assert_eq!(
        run(&[&[], &short], &one),
        Err(MetalEvaluationProgramInterpreterError::InconsistentTraceColumnLength { expected_len: 2, actual_len: 1 })
    );
    let good: [&[u32]; 3] = [&[1, 2], &[1, 2], &[2, 8]];
    assert_eq!(
        run(&[&[], &good], &[]),
        Err(MetalEvaluationProgramInterpreterError::RandomCoeffCountMismatch { expected: 1, actual: 0 })
    );
    assert_eq!(
        run(&[&good], &one),
        Err(MetalEvaluationProgramInterpreterError::TraceInteractionOutOfRange { interaction: 1, available: 1 })
    );
    assert_eq!(run(&[&[], &good], &one).map(|rows| rows.len()), Ok(2));
}

#[test]
fn selection_defaults_to_generic_metal_interpreter_when_no_overlay_is_registered() {
    let program = lower_wide_fibonacci_evaluation_program_v1(specialization(3, 5)).unwrap();
    let profile = MetalEvaluationProgramCapabilityProfileV1::new(
        MetalRuntimeSupport::Available,
        STWO_METAL_EVAL_PROGRAM_CAP_BASE_INV_V1
            | STWO_METAL_EVAL_PROGRAM_CAP_EXT_MUL_V1
            | STWO_METAL_EVAL_PROGRAM_CAP_PREFINALIZED_LOGUP_V1,
        1024,
        256,
    );
    assert_eq!(lookup_metal_evaluation_program_overlay_v1(&program, profile), None);
    assert_eq!(
        select_metal_evaluation_program_dispatch_v1(&program, profile).unwrap(),
        MetalEvaluationProgramDispatchKindV1::GenericMetalInterpreter
    );
}

#[test]
fn selection_fails_closed_when_runtime_is_unavailable() {
    let program = lower_wide_fibonacci_evaluation_program_v1(specialization(3, 5)).unwrap();
    let profile = MetalEvaluationProgramCapabilityProfileV1::new(
        MetalRuntimeSupport::DisabledByConfiguration,
        STWO_METAL_EVAL_PROGRAM_CAP_BASE_INV_V1
            | STWO_METAL_EVAL_PROGRAM_CAP_EXT_MUL_V1
            | STWO_METAL_EVAL_PROGRAM_CAP_PREFINALIZED_LOGUP_V1,
        1024,
        256,
    );
    let error = select_metal_evaluation_program_dispatch_v1(&program, profile).unwrap_err();
    assert_eq!(error, MetalEvaluationProgramExecutionError::RuntimeUnavailable(MetalRuntimeSupport::DisabledByConfiguration));
}

#[test]
fn selection_uses_the_wide_fibonacci_overlay_for_its_specialization() {
    let program = lower_wide_fibonacci_evaluation_program_v1(specialization(20, 100)).unwrap();
    let overlays = metal_evaluation_program_overlays_v1();
    assert_eq!(overlays.len(), 1);
    assert_eq!(overlays[0].name, "wide_fibonacci_eval_v1");
    assert_eq!(overlays[0].semantic_hash, program.header().semantic_hash);
    let profile = MetalEvaluationProgramCapabilityProfileV1::current(MetalRuntimeSupport::Available);
    assert_eq!(
        select_metal_evaluation_program_dispatch_v1(&program, profile).unwrap(),
        MetalEvaluationProgramDispatchKindV1::GeneratedOverlay(overlays[0])
    );
    let limited = MetalEvaluationProgramCapabilityProfileV1::new(MetalRuntimeSupport::Available, 3, 1024, 256);
    assert_eq!(lookup_metal_evaluation_program_overlay_v1(&program, limited), None);
    let small = MetalEvaluationProgramCapabilityProfileV1::new(MetalRuntimeSupport::Available, 7, 16, 256);
    assert_eq!(
        select_metal_evaluation_program_dispatch_v1(&program, small),
        Err(MetalEvaluationProgramExecutionError::RegisterBudgetExceeded {
            required_base: 687,
            required_ext: 98,
            supported_base: 16,
            supported_ext: 256,
        })
    );
}

#[test]
fn eval_program_abi_layout_v1_passes() {
    validate_eval_program_abi_layout_v1().unwrap();
}

#[test]
fn device_interpreter_rejects_non_zero_trace_offsets_for_v1_reference_lane() {
    let program = lower_wide_fibonacci_evaluation_program_v1(specialization(3, 3)).unwrap();
    let mut inst = program.base_insts()[1];
    inst.imm = 1;
    let program = with_base_inst(&program, 1, inst);
    let columns = raw_columns(&wide_fibonacci_trace(8, 3));
    let trace_columns = columns.iter().map(Vec::as_slice).collect::<Vec<_>>();
    let trace_interactions = [&[][..], trace_columns.as_slice()];
    let error = prepare_metal_evaluation_program_device_inputs_v1(
        &program,
        MetalEvaluationProgramRuntimeInputsV1 {
            trace: MetalEvaluationProgramTraceViewV1 { trace_interactions: &trace_interactions, preprocessed_columns: &[] },
            base_params: &[],
            ext_params: &[],
            random_coeff_powers: &[MetalSecureFieldValueV1 { limbs: [1, 0, 0, 0] }],
        },
        MetalRuntimeSupport::Available,
    )
    .err()
    .unwrap();
    assert_eq!(error, MetalEvaluationProgramExecutionError::UnsupportedNonZeroTraceOffset { offset: 1 });
}

#[test]
fn device_inputs_lay_out_every_buffer_of_the_reference_kernel() {
    let program = lower_wide_fibonacci_evaluation_program_v1(specialization(2, 4)).unwrap();
    let columns: Vec<Vec<u32>> = (0..4u32).map(|c| (0..4u32).map(|r| 10 * c + r).collect()).collect();
    let trace_columns = columns.iter().map(Vec::as_slice).collect::<Vec<_>>();
    let trace_interactions = [&[][..], trace_columns.as_slice()];
    let coeffs = [MetalSecureFieldValueV1 { limbs: [1, 2, 3, 4] }, MetalSecureFieldValueV1 { limbs: [5, 6, 7, 8] }];
    let inputs = prepare_metal_evaluation_program_device_inputs_v1(
        &program,
        MetalEvaluationProgramRuntimeInputsV1 {
            trace: MetalEvaluationProgramTraceViewV1 { trace_interactions: &trace_interactions, preprocessed_columns: &[] },
            base_params: &[],
            ext_params: &[],
            random_coeff_powers: &coeffs,
        },
        MetalRuntimeSupport::Available,
    )
    .ok()
    .unwrap();
    assert_eq!(inputs.n_rows, 4);
    assert_eq!(inputs.trace_values, (0..4u32).flat_map(|c| (0..4u32).map(move |r| 10 * c + r)).collect::<Vec<_>>());
    assert_eq!(inputs.interaction_offsets, vec![0, 0, 4]);
    assert_eq!(inputs.random_coeff_powers, vec![1, 2, 3, 4, 5, 6, 7, 8]);
    assert!(inputs.preprocessed_values.is_empty());
    assert_eq!(inputs.base_insts, pack_base_insts(program.base_insts()));
    assert_eq!(inputs.ext_insts, pack_ext_insts(program.ext_insts()));
    assert_eq!(inputs.constraint_roots, program.constraint_roots().to_vec());
    assert_eq!(inputs.n_interactions, 2);
    assert_eq!(inputs.n_base_insts as usize, program.base_insts().len());
    assert_eq!(inputs.n_constraint_roots, 2);
}

#[test]
fn device_checks_run_in_order_before_any_upload() {
    let program = lower_wide_fibonacci_evaluation_program_v1(specialization(2, 4)).unwrap();
    let columns: Vec<Vec<u32>> = vec![vec![1; 4]; 4];
    let trace_columns = columns.iter().map(Vec::as_slice).collect::<Vec<_>>();
    let one = [MetalSecureFieldValueV1 { limbs: [1, 0, 0, 0] }];
    let run = |interactions: &[&[&[u32]]], coeffs: &[MetalSecureFieldValueV1], support: MetalRuntimeSupport| {
        prepare_metal_evaluation_program_device_inputs_v1(
            &program,
            MetalEvaluationProgramRuntimeInputsV1 {
                trace: MetalEvaluationProgramTraceViewV1 { trace_interactions: interactions, preprocessed_columns: &[] },
                base_params: &[],
                ext_params: &[],
                random_coeff_powers: coeffs,
            },
            support,
        )
        .err()
    };
    assert_eq!(
        run(&[&[], &trace_columns], &one, MetalRuntimeSupport::DisabledByConfiguration),
        Some(MetalEvaluationProgramExecutionError::RuntimeUnavailable(MetalRuntimeSupport::DisabledByConfiguration))
    );
    assert_eq!(run(&[&[], &[]], &one, MetalRuntimeSupport::Available), Some(MetalEvaluationProgramExecutionError::EmptyTrace));
    assert_eq!(
        run(&[&trace_columns], &one, MetalRuntimeSupport::Available),
        Some(MetalEvaluationProgramExecutionError::TraceInteractionCountMismatch { expected: 2, actual: 1 })
    );
    let short: [&[u32]; 2] = [&[1, 2, 3, 4], &[1]];
    assert_eq!(
        run(&[&[], &short], &one, MetalRuntimeSupport::Available),
        Some(MetalEvaluationProgramExecutionError::InconsistentTraceColumnLength { expected_len: 4, actual_len: 1 })
    );
    assert_eq!(
        run(&[&[], &trace_columns], &one, MetalRuntimeSupport::Available),
        Some(MetalEvaluationProgramExecutionError::RandomCoeffCountMismatch { expected: 2, actual: 1 })
    );
    let big = lower_wide_fibonacci_evaluation_program_v1(specialization(20, 100)).unwrap();
    let error = prepare_metal_evaluation_program_device_inputs_v1(
        &big,
        MetalEvaluationProgramRuntimeInputsV1 {
            trace: MetalEvaluationProgramTraceViewV1 { trace_interactions: &[&[], &trace_columns], preprocessed_columns: &[] },
            base_params: &[],
            ext_params: &[],
            random_coeff_powers: &one,
        },
        MetalRuntimeSupport::Available,
    )
    .err();
    assert_eq!(
        error,
        Some(MetalEvaluationProgramExecutionError::RandomCoeffCountMismatch { expected: 98, actual: 1 })
    );
}

#[test]
fn overlay_inputs_check_coefficients_before_parameters() {
    let program = lower_virtual_snos_evaluation_program_v1(specialization(2, 4)).unwrap();
    let columns: Vec<Vec<u32>> = vec![vec![1; 4]; 4];
    let trace_columns = columns.iter().map(Vec::as_slice).collect::<Vec<_>>();
    let trace_interactions = [&[][..], trace_columns.as_slice()];
    let run = |base_params: &[u32], coeffs: &[MetalSecureFieldValueV1]| {
        prepare_wide_fibonacci_overlay_device_inputs_v1(
            &program,
            MetalEvaluationProgramRuntimeInputsV1 {
                trace: MetalEvaluationProgramTraceViewV1 { trace_interactions: &trace_interactions, preprocessed_columns: &[] },
                base_params,
                ext_params: &[],
                random_coeff_powers: coeffs,
            },
            MetalRuntimeSupport::Available,
        )
    };
    let n_roots = program.constraint_roots().len();
    let coeffs = vec![MetalSecureFieldValueV1 { limbs: [1, 0, 0, 0] }; n_roots];
    assert_eq!(
        run(&[], &coeffs[..1]).err(),
        Some(MetalEvaluationProgramExecutionError::RandomCoeffCountMismatch { expected: n_roots, actual: 1 })
    );
    assert_eq!(
        run(&[], &coeffs).err(),
        Some(MetalEvaluationProgramExecutionError::BaseParamCountMismatch { expected: 1, actual: 0 })
    );
    let inputs = run(&[5], &coeffs).ok().unwrap();
    assert_eq!(inputs.n_rows, 4);
    assert_eq!(inputs.interaction_offsets, vec![0, 0, 4]);
    assert_eq!(inputs.n_constraint_roots as usize, n_roots);
    assert_eq!(inputs.random_coeff_powers.len(), 4 * n_roots);
}

#[test]
fn device_words_read_back_as_secure_values() {
    let values = secure_values_from_device_words(&[1, 2, 3, 4, 5, 6, 7, 8, 9]);
    assert_eq!(
        values,
        vec![MetalSecureFieldValueV1 { limbs: [1, 2, 3, 4] }, MetalSecureFieldValueV1 { limbs: [5, 6, 7, 8] }]
    );
    assert!(secure_values_from_device_words(&[]).is_empty());
}
