use stwo_metal::artifact::{MetalGeneratedRouteKind, MetalRegisteredBenchmarkOperation};
use stwo_metal::benchmark::{
    benchmark_evaluation_program_v1, benchmark_route, check_benchmark_trace_shape, check_benchmark_witness_inputs,
    declare_wide_fibonacci_benchmark_boundary, registered_benchmark_operation, validate_benchmark_prove_values_lane,
    wide_fibonacci_prove_log20_target, wide_fibonacci_trace_log20_target, MetalBenchmarkInputError,
    MetalBenchmarkLaneError, MetalBenchmarkOperation, MetalBenchmarkProgramError, MetalBenchmarkReferencePlatform,
    MetalBenchmarkTarget, MetalBenchmarkTraceShapeError,
};
use stwo_metal::execution_plan::registered_execution_seed;
use stwo_metal::planner::{MetalExecutionIntent, MetalExecutionPlan, MetalPlannerError, UnsupportedGeneratedMetalRoute};
use stwo_metal::workload_contract::{stage_ownership_in, MetalWorkloadOwnership, MetalWorkloadStage};

type BaseField = stwo::core::fields::m31::BaseField;

#[test]
fn wide_fibonacci_targets_are_fixed_to_log20_and_rtx4090_reference() {
    let trace = wide_fibonacci_trace_log20_target();
    let prove = wide_fibonacci_prove_log20_target();
    assert_eq!(trace.log_n_instances, 20);
    assert_eq!(trace.n_columns, 100);
    assert_eq!(trace.reference_platform, MetalBenchmarkReferencePlatform::Rtx4090Cuda);
    assert_eq!(prove.log_n_instances, 20);
    assert_eq!(prove.n_columns, 100);
    assert_eq!(prove.reference_elapsed_ms as f64, 90.0);
    assert_eq!(prove.operation, MetalBenchmarkOperation::ProveVerify);
}

#[test]
fn benchmark_operations_route_to_their_generated_routes() {
    assert_eq!(benchmark_route(MetalBenchmarkOperation::TraceGeneration), MetalGeneratedRouteKind::BenchmarkTraceGeneration);
    assert_eq!(benchmark_route(MetalBenchmarkOperation::ProveVerify), MetalGeneratedRouteKind::BenchmarkProveVerify);
    assert_eq!(
        registered_benchmark_operation(MetalBenchmarkOperation::ProveVerify),
        MetalRegisteredBenchmarkOperation::ProveVerify
    );
}

#[test]
fn wide_fibonacci_benchmark_boundary_validates_input_lengths() {
    let boundary =
        declare_wide_fibonacci_benchmark_boundary(MetalExecutionIntent::PreferMetal, wide_fibonacci_trace_log20_target())
            .unwrap();
    let ok_len = 1usize << 20;
    let input_a = vec![BaseField::from_u32_unchecked(1); ok_len];
    let input_b = vec![BaseField::from_u32_unchecked(2); ok_len - 1];

    let error = boundary.ingest_cpu_witness_inputs(&input_a, &input_b).unwrap_err();

    assert_eq!(
        error,
        MetalBenchmarkInputError::InputLengthMismatch { expected_len: ok_len, actual_a: ok_len, actual_b: ok_len - 1 }
    );
}

#[test]
fn benchmark_witness_inputs_carry_registered_execution_seed() {
    let target = MetalBenchmarkTarget { log_n_instances: 3, n_columns: 8, ..wide_fibonacci_trace_log20_target() };
    let boundary = declare_wide_fibonacci_benchmark_boundary(MetalExecutionIntent::PreferMetal, target).unwrap();
    let input_a = vec![BaseField::from_u32_unchecked(1); 1 << target.log_n_instances];
    let input_b = vec![BaseField::from_u32_unchecked(2); 1 << target.log_n_instances];

    let inputs = boundary.ingest_cpu_witness_inputs(&input_a, &input_b).unwrap();
    let request = inputs
        .execution_seed
        .wide_fibonacci_trace_request(inputs.input_a(), inputs.input_b(), inputs.n_columns())
        .unwrap();

    assert_eq!(inputs.execution_seed.component_name, "fibonacci_example");
    assert_eq!(inputs.execution_seed.plan, boundary.workload_boundary().plan);
    assert_eq!(request.n_columns, target.n_columns);
}

#[test]
fn benchmark_witness_checks_report_column_counts() {
    let target = wide_fibonacci_trace_log20_target();
    let seed = registered_execution_seed(MetalExecutionIntent::PreferMetal, target.workload_name, benchmark_route(target.operation))
        .unwrap();
    assert_eq!(check_benchmark_witness_inputs(seed, 3, 8, 8, 8), Ok(3));
    assert_eq!(
        check_benchmark_witness_inputs(seed, 3, 2, 8, 8),
        Err(MetalBenchmarkInputError::InvalidColumnCount { n_columns: 2 })
    );
}

#[test]
fn benchmark_boundary_rejects_trace_shape_drift_for_v1_execution() {
    let target = wide_fibonacci_prove_log20_target();
    assert_eq!(
        check_benchmark_trace_shape(target.log_n_instances, target.n_columns, 1 << 3, 6),
        Err(MetalBenchmarkTraceShapeError::LengthMismatch { expected_len: 1 << 20, actual_len: 1 << 3 })
    );
    assert_eq!(
        check_benchmark_trace_shape(3, 8, 8, 6),
        Err(MetalBenchmarkTraceShapeError::ColumnCountMismatch { expected_columns: 8, actual_columns: 6 })
    );
    assert_eq!(check_benchmark_trace_shape(3, 6, 8, 6), Ok(()));
}

#[test]
fn benchmark_boundary_rejects_prove_values_lane_for_cpu_plan() {
    let boundary =
        declare_wide_fibonacci_benchmark_boundary(MetalExecutionIntent::ForceCpu, wide_fibonacci_prove_log20_target())
            .unwrap();

    assert_eq!(
        boundary.validate_prove_values_lane(),
        Err(MetalBenchmarkLaneError::PlanNotMetalCapable {
            workload_name: "fibonacci_example",
            plan: MetalExecutionPlan::CpuOnly,
        })
    );
    let seed = registered_execution_seed(
        MetalExecutionIntent::ForceCpu,
        "fibonacci_example",
        benchmark_route(MetalBenchmarkOperation::ProveVerify),
    )
    .unwrap();
    assert_eq!(validate_benchmark_prove_values_lane("fibonacci_example", seed), boundary.validate_prove_values_lane());
}

#[test]
fn wide_fibonacci_benchmark_boundary_is_hybrid_and_cpu_witness_owned() {
    let boundary =
        declare_wide_fibonacci_benchmark_boundary(MetalExecutionIntent::PreferMetal, wide_fibonacci_prove_log20_target())
            .unwrap();

    assert_eq!(boundary.workload_boundary().plan, MetalExecutionPlan::MetalFriHybrid);
    assert_eq!(
        stage_ownership_in(boundary.workload_boundary().stage_assignments, MetalWorkloadStage::WitnessMain),
        Some(MetalWorkloadOwnership::CpuOwned)
    );
    assert_eq!(boundary.workload_boundary().generated_inventory.registration_key, "fibonacci_example");
    assert_eq!(boundary.workload_boundary().generated_inventory.specialization_keys, &["log_n_instances", "n_columns"]);
    assert_eq!(boundary.validate_prove_values_lane(), Ok("fibonacci_example"));
    assert_eq!(boundary.target().n_columns, 100);
}

#[test]
fn benchmark_boundary_fails_closed_for_unsupported_generated_route() {
    let error = declare_wide_fibonacci_benchmark_boundary(
        MetalExecutionIntent::PreferMetal,
        MetalBenchmarkTarget {
            workload_name: "poseidon_example",
            family: "poseidon",
            operation: MetalBenchmarkOperation::ProveVerify,
            ..wide_fibonacci_prove_log20_target()
        },
    )
    .unwrap_err();

    assert_eq!(
        error,
        MetalPlannerError::UnsupportedGeneratedRoute(UnsupportedGeneratedMetalRoute {
            component_name: "poseidon_example",
            route: MetalGeneratedRouteKind::BenchmarkProveVerify,
        })
    );
}

#[test]
fn benchmark_programs_are_lowered_for_the_target_shape() {
    let program = benchmark_evaluation_program_v1("fibonacci_example", 3, 6).unwrap();
    assert_eq!(program.header().n_constraints, 4);
    let target = MetalBenchmarkTarget { log_n_instances: 3, n_columns: 6, ..wide_fibonacci_prove_log20_target() };
    let boundary = declare_wide_fibonacci_benchmark_boundary(MetalExecutionIntent::PreferMetal, target).unwrap();
    assert_eq!(boundary.evaluation_program_v1().unwrap().header().n_constraints, 4);
    assert_eq!(
        benchmark_evaluation_program_v1("poseidon_example", 3, 6).err(),
        Some(MetalBenchmarkProgramError::UnsupportedComponent { workload_name: "poseidon_example" })
    );
    assert_eq!(
        benchmark_evaluation_program_v1("fibonacci_example", 3, 2).err(),
        Some(MetalBenchmarkProgramError::InvalidSpecialization { workload_name: "fibonacci_example", n_columns: 2 })
    );
}
