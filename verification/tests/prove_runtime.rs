use stwo_metal::eval_program::MetalEvaluationProgramBudgetV1;
use stwo_metal::lowering::{lower_registered_metal_evaluation_program_v1, MetalEvaluationProgramSpecializationV1};
use stwo_metal::planner::MetalExecutionPlan;
use stwo_metal::prove_runtime::{
    check_composition_row_count, check_composition_trace_columns, validate_prove_runtime_lane_v1,
    MetalProveRuntimeCompositionError, MetalProveRuntimeContextV1, MetalProveRuntimeLaneError,
};
use stwo_metal::workload_contract::{MetalWorkloadOwnership, MetalWorkloadStage};

fn make_test_context(log_n_rows: u32, n_columns: u32) -> MetalProveRuntimeContextV1 {
    let program = lower_registered_metal_evaluation_program_v1(
        "fibonacci_example",
        MetalEvaluationProgramSpecializationV1 { log_n_rows, n_columns },
    )
    .unwrap();
    program.validate(MetalEvaluationProgramBudgetV1::new(2048, 512)).unwrap();
    MetalProveRuntimeContextV1::new(program, log_n_rows)
}

#[test]
fn prove_runtime_context_exposes_program_shape() {
    let ctx = make_test_context(3, 6);
    assert_eq!(ctx.log_n_rows(), 3);
    assert_eq!(ctx.n_constraints(), 4);
}

#[test]
fn prove_runtime_context_toggles_reference_sanity_check() {
    let ctx = make_test_context(3, 6);
    assert!(!ctx.skip_reference_sanity_check());
    let ctx = ctx.with_skip_reference_sanity_check(true);
    assert!(ctx.skip_reference_sanity_check());
    assert_eq!(ctx.program().header().n_constraints, 4);
}

#[test]
fn lane_validation_rejects_cpu_only_plan() {
    let err = validate_prove_runtime_lane_v1(
        "test",
        MetalExecutionPlan::CpuOnly,
        Some(MetalWorkloadOwnership::CpuOwned),
        Some(MetalWorkloadOwnership::MetalNative),
    )
    .unwrap_err();
    assert!(matches!(err, MetalProveRuntimeLaneError::PlanNotMetalCapable { .. }));
}

#[test]
fn lane_validation_accepts_hybrid_plan() {
    validate_prove_runtime_lane_v1(
        "test",
        MetalExecutionPlan::MetalFriHybrid,
        Some(MetalWorkloadOwnership::CpuOwned),
        Some(MetalWorkloadOwnership::MetalNative),
    )
    .unwrap();
}

#[test]
fn lane_validation_names_the_stage_with_the_wrong_owner() {
    assert_eq!(
        validate_prove_runtime_lane_v1(
            "test",
            MetalExecutionPlan::MetalFull,
            Some(MetalWorkloadOwnership::MetalNative),
            Some(MetalWorkloadOwnership::MetalNative),
        ),
        Err(MetalProveRuntimeLaneError::UnsupportedWitnessOwnership {
            workload_name: "test",
            stage: MetalWorkloadStage::WitnessMain
        })
    );
    assert_eq!(
        validate_prove_runtime_lane_v1("test", MetalExecutionPlan::MetalFull, Some(MetalWorkloadOwnership::CpuOwned), None),
        Err(MetalProveRuntimeLaneError::UnsupportedFriOwnership { workload_name: "test", stage: MetalWorkloadStage::FriBlake2s })
    );
}

#[test]
fn composition_shape_checks_report_counts() {
    assert!(check_composition_trace_columns(4, 6).is_ok());
    match check_composition_trace_columns(4, 5) {
        Err(MetalProveRuntimeCompositionError::CompositionShape { message }) => assert_eq!(
            message,
            "V1 runtime composition expected 6 trace columns (n_constraints=4 + 2), got 5"
        ),
        other => panic!("unexpected {other:?}"),
    }
    assert!(check_composition_row_count(16, 16).is_ok());
    match check_composition_row_count(16, 12) {
        Err(MetalProveRuntimeCompositionError::CompositionShape { message }) => {
            assert_eq!(message, "V1 runtime composition expected 16 eval rows, got 12")
        }
        other => panic!("unexpected {other:?}"),
    }
}
