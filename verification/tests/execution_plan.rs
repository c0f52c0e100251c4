type BaseField = stwo::core::fields::m31::BaseField;

use stwo_metal::field::MetalCircleDomain;
use stwo_metal::artifact::{MetalGeneratedRouteKind, MetalRegisteredBenchmarkOperation};
use stwo_metal::execution_plan::{
    plan_registered_metal_prove, registered_execution_binding, registered_execution_seed,
    registered_generated_component, registered_runtime_plan_input,
    registered_workload_boundary_input, RegisteredMetalExecutionSeedError,
};
use stwo_metal::planner::{
    MetalExecutionIntent, MetalExecutionPlan, MetalOperationKind, MetalPlannerError,
    UnknownMetalComponent, UnsupportedGeneratedMetalRoute,
};

#[test]
fn registered_planner_chooses_hybrid_for_known_fibonacci_component() {
    let plan = plan_registered_metal_prove(MetalExecutionIntent::PreferMetal, &["fibonacci_example"]).unwrap();
    assert_eq!(plan.plan, MetalExecutionPlan::MetalFriHybrid);
}

#[test]
fn registered_planner_fails_closed_for_unknown_components() {
    let error = plan_registered_metal_prove(MetalExecutionIntent::PreferMetal, &["missing_example"]).unwrap_err();
    assert_eq!(
        error,
        MetalPlannerError::UnknownComponent(UnknownMetalComponent {
            component_name: "missing_example",
            operation: MetalOperationKind::Prove,
        })
    );
}

#[test]
fn single_component_registered_planner_supports_declared_components() {
    let plan = plan_registered_metal_prove(MetalExecutionIntent::PreferMetal, &["poseidon_example"]).unwrap();
    assert_eq!(plan.plan, MetalExecutionPlan::MetalFriHybrid);
}

#[test]
fn registered_generated_component_fails_closed_for_unsupported_route() {
    let error =
        registered_generated_component("poseidon_example", MetalGeneratedRouteKind::BenchmarkProveVerify).unwrap_err();
    assert_eq!(
        error,
        MetalPlannerError::UnsupportedGeneratedRoute(UnsupportedGeneratedMetalRoute {
            component_name: "poseidon_example",
            route: MetalGeneratedRouteKind::BenchmarkProveVerify,
        })
    );
}

#[test]
fn registered_generated_component_exposes_inventory_for_lowering() {
    let registration =
        registered_generated_component("fibonacci_example", MetalGeneratedRouteKind::WorkloadBoundary).unwrap();
    assert_eq!(registration.component_name(), "fibonacci_example");
    assert_eq!(registration.route, MetalGeneratedRouteKind::WorkloadBoundary);
    assert_eq!(
        registration.generated_inventory().abi_symbols,
        &["metal.trace.wide_fibonacci.v1", "metal.quotient.wide_fibonacci.v1", "metal.fri.blake2s.v1"]
    );
    assert_eq!(registration.generated_inventory().specialization_keys, &["log_n_instances", "n_columns"]);
    let lowering_input = registration.lowering_input();
    assert_eq!(lowering_input.component_name, "fibonacci_example");
    assert_eq!(lowering_input.workload_family, "wide_fibonacci");
    assert_eq!(lowering_input.abi_family, "wide_fibonacci");
    assert_eq!(
        lowering_input.build_modules,
        &["planner_manifest_v1_generated", "witness", "quotient", "fri", "benchmark"]
    );
    assert_eq!(lowering_input.witness_hook, Some("ingest_cpu_wide_fibonacci_witness"));
}

#[test]
fn registered_runtime_plan_input_consumes_lowering_input() {
    let registration =
        registered_generated_component("fibonacci_example", MetalGeneratedRouteKind::RegisteredProve).unwrap();
    let runtime_input = registered_runtime_plan_input(
        "fibonacci_example",
        MetalGeneratedRouteKind::RegisteredProve,
        MetalOperationKind::Prove,
    )
    .unwrap();
    assert_eq!(runtime_input.operation, MetalOperationKind::Prove);
    assert_eq!(runtime_input.plan_input.component_name, "fibonacci_example");
    assert_eq!(registration.lowering_input().specialization_keys, &["log_n_instances", "n_columns"]);
}

#[test]
fn registered_workload_boundary_input_consumes_lowering_and_runtime_inputs() {
    let boundary_input =
        registered_workload_boundary_input(MetalExecutionIntent::PreferMetal, "fibonacci_example").unwrap();
    assert_eq!(boundary_input.lowering.component_name, "fibonacci_example");
    assert_eq!(boundary_input.lowering.route, MetalGeneratedRouteKind::WorkloadBoundary);
    assert_eq!(boundary_input.plan, MetalExecutionPlan::MetalFriHybrid);
    assert_eq!(boundary_input.generated_inventory.registration_key, "fibonacci_example");
    assert_eq!(boundary_input.generated_inventory.specialization_keys, &["log_n_instances", "n_columns"]);
    assert_eq!(boundary_input.stage_assignments.len(), 5);
}

#[test]
fn registered_execution_binding_reuses_workload_boundary_input_for_benchmarks() {
    let binding = registered_execution_binding(
        MetalExecutionIntent::PreferMetal,
        "fibonacci_example",
        MetalGeneratedRouteKind::BenchmarkProveVerify,
    )
    .unwrap();
    assert_eq!(binding.workload_boundary.generated_inventory.registration_key, "fibonacci_example");
    assert_eq!(binding.workload_boundary.generated_inventory.abi_family, "wide_fibonacci");
    assert_eq!(binding.declaration_lowering.component_name, "fibonacci_example");
    assert_eq!(binding.declaration_lowering.workload_family, "wide_fibonacci");
    assert_eq!(binding.declaration_route, MetalGeneratedRouteKind::BenchmarkProveVerify);
    assert!(binding.supported_benchmark_operations.contains(&MetalRegisteredBenchmarkOperation::ProveVerify));
    assert_eq!(binding.workload_boundary.plan, MetalExecutionPlan::MetalFriHybrid);
}

#[test]
fn registered_execution_binding_packages_shared_boundary_inputs() {
    let binding = registered_execution_binding(
        MetalExecutionIntent::PreferMetal,
        "fibonacci_example",
        MetalGeneratedRouteKind::BenchmarkTraceGeneration,
    )
    .unwrap();
    assert_eq!(binding.workload_boundary.plan, MetalExecutionPlan::MetalFriHybrid);
    assert_eq!(binding.declaration_lowering.component_name, "fibonacci_example");
    assert_eq!(binding.declaration_route, MetalGeneratedRouteKind::BenchmarkTraceGeneration);
    assert!(binding.supported_benchmark_operations.contains(&MetalRegisteredBenchmarkOperation::TraceGeneration));
}

#[test]
fn registered_execution_seed_flattens_binding_for_scheduling() {
    let seed = registered_execution_seed(
        MetalExecutionIntent::PreferMetal,
        "fibonacci_example",
        MetalGeneratedRouteKind::BenchmarkTraceGeneration,
    )
    .unwrap();
    assert_eq!(seed.component_name, "fibonacci_example");
    assert_eq!(seed.route, MetalGeneratedRouteKind::BenchmarkTraceGeneration);
    assert_eq!(seed.plan, MetalExecutionPlan::MetalFriHybrid);
    assert!(seed.abi_symbols.iter().all(|symbol| symbol.starts_with("metal.")));
    assert!(seed.build_modules.contains(&"benchmark"));
    assert_eq!(seed.specialization_keys, &["log_n_instances", "n_columns"]);
    assert_eq!(seed.witness_hook, Some("ingest_cpu_wide_fibonacci_witness"));
}

#[test]
fn registered_execution_seed_builds_wide_fibonacci_trace_request() {
    let seed = registered_execution_seed(
        MetalExecutionIntent::PreferMetal,
        "fibonacci_example",
        MetalGeneratedRouteKind::BenchmarkTraceGeneration,
    )
    .unwrap();
    let input_a = [BaseField::from_u32_unchecked(1), BaseField::from_u32_unchecked(2)];
    let input_b = [BaseField::from_u32_unchecked(3), BaseField::from_u32_unchecked(4)];
    let request = seed.wide_fibonacci_trace_request(&input_a, &input_b, 8).unwrap();
    assert_eq!(request.input_a, &input_a);
    assert_eq!(request.input_b, &input_b);
    assert_eq!(request.n_columns, 8);
}

#[test]
fn registered_execution_seed_validates_wide_fibonacci_witness_shape() {
    let seed = registered_execution_seed(
        MetalExecutionIntent::PreferMetal,
        "fibonacci_example",
        MetalGeneratedRouteKind::BenchmarkTraceGeneration,
    )
    .unwrap();
    let log_n_instances = seed.validate_wide_fibonacci_witness_shape(1 << 6, 1 << 6, 8).unwrap();
    assert_eq!(log_n_instances, 6);
}

#[test]
fn registered_execution_seed_rejects_wide_fibonacci_length_mismatch() {
    let seed = registered_execution_seed(
        MetalExecutionIntent::PreferMetal,
        "fibonacci_example",
        MetalGeneratedRouteKind::BenchmarkTraceGeneration,
    )
    .unwrap();
    let error = seed.validate_wide_fibonacci_witness_shape(1 << 6, (1 << 6) - 1, 8).unwrap_err();
    assert_eq!(
        error,
        RegisteredMetalExecutionSeedError::WitnessInputLengthMismatch {
            component_name: "fibonacci_example",
            input_a_len: 1 << 6,
            input_b_len: (1 << 6) - 1,
        }
    );
}

#[test]
fn registered_execution_seed_rejects_wrong_witness_hook() {
    let seed =
        registered_execution_seed(MetalExecutionIntent::PreferMetal, "blake_example", MetalGeneratedRouteKind::WorkloadBoundary)
            .unwrap();
    let input_a = [BaseField::from_u32_unchecked(1)];
    let input_b = [BaseField::from_u32_unchecked(2)];
    let error = seed.wide_fibonacci_trace_request(&input_a, &input_b, 8).unwrap_err();
    assert_eq!(
        error,
        RegisteredMetalExecutionSeedError::UnsupportedWitnessHook { component_name: "blake_example", witness_hook: None }
    );
}

#[test]
fn registered_execution_seed_allows_canonic_cpu_handoffs_for_hybrid_fibonacci() {
    let seed = registered_execution_seed(
        MetalExecutionIntent::PreferMetal,
        "fibonacci_example",
        MetalGeneratedRouteKind::WorkloadBoundary,
    )
    .unwrap();
    let domain = library_domain(stwo::core::poly::circle::CanonicCoset::new(5).circle_domain());
    assert_eq!(seed.allow_cpu_fri_ready_evaluation(domain), Ok(()));
    assert_eq!(seed.allow_cpu_quotient_evaluation(domain), Ok(()));
    assert_eq!(seed.allow_cpu_wide_fibonacci_witness(), Ok(()));
    assert!(seed.supports_hybrid_fri_lane());
}

#[test]
fn registered_execution_seed_rejects_cpu_handoffs_for_cpu_only_plan() {
    let seed = registered_execution_seed(
        MetalExecutionIntent::ForceCpu,
        "fibonacci_example",
        MetalGeneratedRouteKind::WorkloadBoundary,
    )
    .unwrap();
    let domain = library_domain(stwo::core::poly::circle::CanonicCoset::new(5).circle_domain());
    assert_eq!(
        seed.allow_cpu_fri_ready_evaluation(domain),
        Err(RegisteredMetalExecutionSeedError::PlanNotMetalCapable {
            component_name: "fibonacci_example",
            plan: MetalExecutionPlan::CpuOnly,
        })
    );
    assert!(!seed.supports_hybrid_fri_lane());
}

#[test]
fn registered_execution_seed_rejects_non_canonic_domains() {
    let seed = registered_execution_seed(
        MetalExecutionIntent::PreferMetal,
        "fibonacci_example",
        MetalGeneratedRouteKind::WorkloadBoundary,
    )
    .unwrap();
    assert_eq!(
        seed.allow_cpu_fri_ready_evaluation_for(false),
        Err(RegisteredMetalExecutionSeedError::NonCanonicDomain { component_name: "fibonacci_example" })
    );
    assert_eq!(
        seed.validate_wide_fibonacci_witness_shape(6, 6, 8),
        Err(RegisteredMetalExecutionSeedError::WitnessInputLengthNotPowerOfTwo {
            component_name: "fibonacci_example",
            input_len: 6,
        })
    );
}

fn library_domain(domain: stwo::core::poly::circle::CircleDomain) -> MetalCircleDomain {
    MetalCircleDomain {
        half_coset_initial_index: domain.half_coset.initial_index.0,
        half_coset_step_size: domain.half_coset.step_size.0,
        half_coset_log_size: domain.half_coset.log_size,
    }
}

#[test]
fn canonicity_agrees_with_stwo() {
    let domains = [
        stwo::core::poly::circle::CanonicCoset::new(1).circle_domain(),
        stwo::core::poly::circle::CanonicCoset::new(5).circle_domain(),
        stwo::core::poly::circle::CanonicCoset::new(20).circle_domain(),
        stwo::core::poly::circle::CircleDomain::new(stwo::core::circle::Coset::subgroup(4)),
        stwo::core::poly::circle::CircleDomain::new(stwo::core::circle::Coset::odds(4)),
        stwo::core::poly::circle::CircleDomain::new(stwo::core::circle::Coset::new(
            stwo::core::circle::CirclePointIndex(3),
            6,
        )),
    ];
    for domain in domains {
        assert_eq!(library_domain(domain).is_canonic(), domain.is_canonic());
    }
    assert!(library_domain(stwo::core::poly::circle::CanonicCoset::new(5).circle_domain()).is_canonic());
    assert!(!library_domain(stwo::core::poly::circle::CircleDomain::new(stwo::core::circle::Coset::subgroup(4)))
        .is_canonic());
}

#[test]
fn registered_execution_seed_rejects_non_canonic_domain_values() {
    let seed = registered_execution_seed(
        MetalExecutionIntent::PreferMetal,
        "fibonacci_example",
        MetalGeneratedRouteKind::WorkloadBoundary,
    )
    .unwrap();
    let domain = library_domain(stwo::core::poly::circle::CircleDomain::new(stwo::core::circle::Coset::subgroup(4)));
    assert_eq!(
        seed.allow_cpu_fri_ready_evaluation(domain),
        Err(RegisteredMetalExecutionSeedError::NonCanonicDomain { component_name: "fibonacci_example" })
    );
}
