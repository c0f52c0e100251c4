use stwo_metal::capability::{
    metal_backend_surface_detail, metal_backend_surface_status, stwo_metal_backend_surfaces_v1,
    MetalBackendSurfaceStatus,
};
use stwo_metal::manifest::stwo_metal_planner_components_v1;
use stwo_metal::artifact::{
    stwo_metal_artifact_registry_v1, MetalArtifactLookupError, MetalArtifactSupportError,
    MetalGeneratedRouteKind, MetalRegisteredBenchmarkOperation,
    STWO_METAL_ARTIFACT_SCHEMA_VERSION_V1,
};
use stwo_metal::generated_policy::{
    resolve_generated_route_policy, MetalGeneratedRoutePolicy, UnsupportedGeneratedComponent,
    UnsupportedGeneratedComponentReason,
};
use stwo_metal::planner::{
    plan_exemplar_metal_prove_by_name, plan_metal_operation, MetalComponentCapability,
    MetalComponentPlanInput, MetalExecutionIntent, MetalExecutionPlan, MetalOperationKind,
    MetalPlannerError, MetalSupportTier, UnknownMetalComponent, UnsupportedMetalPlan,
};

const FRI_ONLY: &[MetalComponentCapability] = &[MetalComponentCapability::FriBlake2sSubpath];
const FIBONACCI_REQUIRED: &[MetalComponentCapability] = &[
    MetalComponentCapability::FriBlake2sSubpath,
    MetalComponentCapability::WitnessMain,
    MetalComponentCapability::QuotientEval,
    MetalComponentCapability::PcsCommitment,
];

fn fibonacci_input() -> [MetalComponentPlanInput<'static>; 1] {
    [MetalComponentPlanInput {
        component_name: "fibonacci_example",
        support_tier: MetalSupportTier::FriOnly,
        declared_capabilities: FRI_ONLY,
        required_capabilities: FIBONACCI_REQUIRED,
    }]
}

#[test]
fn artifact_registry_reports_schema_mismatch_explicitly() {
    let error = stwo_metal_artifact_registry_v1()
        .artifact_supporting_generated_route(
            "fibonacci_example",
            STWO_METAL_ARTIFACT_SCHEMA_VERSION_V1 + 1,
            MetalGeneratedRouteKind::RegisteredProve,
        )
        .unwrap_err();
    assert_eq!(
        error,
        MetalArtifactSupportError::Lookup(MetalArtifactLookupError::SchemaMismatch {
            expected: STWO_METAL_ARTIFACT_SCHEMA_VERSION_V1 + 1,
            found: STWO_METAL_ARTIFACT_SCHEMA_VERSION_V1,
        })
    );
}

#[test]
fn artifact_registry_materializes_component_artifact_for_known_component() {
    let artifact = stwo_metal_artifact_registry_v1()
        .artifact_supporting_generated_route(
            "fibonacci_example",
            STWO_METAL_ARTIFACT_SCHEMA_VERSION_V1,
            MetalGeneratedRouteKind::RegisteredProve,
        )
        .unwrap();
    assert_eq!(artifact.component_name, "fibonacci_example");
    assert_eq!(artifact.workload_family, "wide_fibonacci");
    assert_eq!(artifact.support_tier, MetalSupportTier::FriOnly);
    assert_eq!(
        artifact.required_prove_capabilities,
        &[
            MetalComponentCapability::FriBlake2sSubpath,
            MetalComponentCapability::WitnessMain,
            MetalComponentCapability::QuotientEval,
            MetalComponentCapability::PcsCommitment,
        ]
    );
    assert_eq!(artifact.as_plan_input(MetalOperationKind::Prove).component_name, "fibonacci_example");
    assert_eq!(
        artifact.supported_benchmark_operations,
        &[MetalRegisteredBenchmarkOperation::TraceGeneration, MetalRegisteredBenchmarkOperation::ProveVerify]
    );
    assert_eq!(artifact.stage_assignments.len(), 5);
    assert!(artifact.supported_generated_routes.contains(&MetalGeneratedRouteKind::RegisteredProve));
    assert_eq!(artifact.generated_inventory.registration_key, "fibonacci_example");
    assert_eq!(artifact.generated_inventory.abi_family, "wide_fibonacci");
    assert_eq!(
        artifact.generated_inventory.abi_symbols,
        &["metal.trace.wide_fibonacci.v1", "metal.quotient.wide_fibonacci.v1", "metal.fri.blake2s.v1"]
    );
    assert_eq!(artifact.generated_inventory.manifest_lookup_fn, "STWO_METAL_PLANNER_COMPONENTS_V1.iter().find");
    assert!(artifact.generated_inventory.build_modules.contains(&"fri"));
    assert_eq!(artifact.generated_inventory.witness_hook, Some("ingest_cpu_wide_fibonacci_witness"));
    assert_eq!(artifact.generated_inventory.specialization_keys, &["log_n_instances", "n_columns"]);
}

#[test]
fn artifact_registry_rejects_unsupported_generated_route_explicitly() {
    let error = stwo_metal_artifact_registry_v1()
        .artifact_supporting_generated_route(
            "poseidon_example",
            STWO_METAL_ARTIFACT_SCHEMA_VERSION_V1,
            MetalGeneratedRouteKind::BenchmarkProveVerify,
        )
        .unwrap_err();
    assert_eq!(
        error,
        MetalArtifactSupportError::UnsupportedGeneratedRoute {
            component_name: "poseidon_example",
            route: MetalGeneratedRouteKind::BenchmarkProveVerify,
        }
    );
}

#[test]
fn artifact_registry_exposes_generated_inventory_without_route_lookup() {
    let inventory = stwo_metal_artifact_registry_v1()
        .generated_inventory_by_name("xor_example", STWO_METAL_ARTIFACT_SCHEMA_VERSION_V1)
        .unwrap();
    assert_eq!(inventory.registration_key, "xor_example");
    assert_eq!(inventory.abi_family, "xor");
    assert_eq!(inventory.abi_symbols, &["metal.acceptance.simd_bridge.v1"]);
    assert_eq!(inventory.specialization_keys, &[] as &[&str]);
}

#[test]
fn artifact_registry_reports_unknown_components() {
    let registry = stwo_metal_artifact_registry_v1();
    assert_eq!(
        registry.artifact_by_name("missing_example", STWO_METAL_ARTIFACT_SCHEMA_VERSION_V1).map(|a| a.component_name),
        Err(MetalArtifactLookupError::UnknownComponent { component_name: "missing_example" })
    );
    assert_eq!(registry.schema_version(), STWO_METAL_ARTIFACT_SCHEMA_VERSION_V1);
}

#[test]
fn generated_policy_uses_registered_artifact_for_supported_route() {
    let decision = resolve_generated_route_policy(
        &stwo_metal_artifact_registry_v1(),
        STWO_METAL_ARTIFACT_SCHEMA_VERSION_V1,
        "fibonacci_example",
        MetalGeneratedRouteKind::BenchmarkProveVerify,
    );
    match decision {
        MetalGeneratedRoutePolicy::UseRegisteredArtifact(artifact) => {
            assert_eq!(artifact.component_name, "fibonacci_example");
        }
        MetalGeneratedRoutePolicy::Reject(problem) => {
            panic!("expected registered artifact, got rejection: {problem:?}");
        }
    }
}

#[test]
fn generated_policy_rejects_missing_component_explicitly() {
    let decision = resolve_generated_route_policy(
        &stwo_metal_artifact_registry_v1(),
        STWO_METAL_ARTIFACT_SCHEMA_VERSION_V1,
        "missing_example",
        MetalGeneratedRouteKind::RegisteredProve,
    );
    assert_eq!(
        decision,
        MetalGeneratedRoutePolicy::Reject(UnsupportedGeneratedComponent {
            component_name: "missing_example",
            reason: UnsupportedGeneratedComponentReason::ArtifactNotRegistered,
        })
    );
}

#[test]
fn generated_policy_rejects_unsupported_route_explicitly() {
    let decision = resolve_generated_route_policy(
        &stwo_metal_artifact_registry_v1(),
        STWO_METAL_ARTIFACT_SCHEMA_VERSION_V1,
        "poseidon_example",
        MetalGeneratedRouteKind::BenchmarkProveVerify,
    );
    assert_eq!(
        decision,
        MetalGeneratedRoutePolicy::Reject(UnsupportedGeneratedComponent {
            component_name: "poseidon_example",
            reason: UnsupportedGeneratedComponentReason::UnsupportedRoute(MetalGeneratedRouteKind::BenchmarkProveVerify),
        })
    );
}

#[test]
fn force_cpu_always_chooses_cpu_plan() {
    let plan =
        plan_metal_operation(MetalExecutionIntent::ForceCpu, MetalOperationKind::Prove, &fibonacci_input()).unwrap();
    assert_eq!(plan, MetalExecutionPlan::CpuOnly);
}

#[test]
fn prefer_metal_chooses_hybrid_when_fri_subpath_is_available() {
    let plan =
        plan_metal_operation(MetalExecutionIntent::PreferMetal, MetalOperationKind::Prove, &fibonacci_input()).unwrap();
    assert_eq!(plan, MetalExecutionPlan::MetalFriHybrid);
}

#[test]
fn require_metal_fails_when_non_fri_capabilities_are_missing() {
    let error = plan_metal_operation(MetalExecutionIntent::RequireMetal, MetalOperationKind::Prove, &fibonacci_input())
        .unwrap_err();
    assert_eq!(
        error,
        UnsupportedMetalPlan {
            component_name: "fibonacci_example",
            missing_capability: MetalComponentCapability::WitnessMain,
            intent: MetalExecutionIntent::RequireMetal,
            operation: MetalOperationKind::Prove,
        }
    );
}

#[test]
fn exemplar_planner_reports_hybrid_fri_for_fibonacci() {
    let plan = plan_exemplar_metal_prove_by_name(MetalExecutionIntent::PreferMetal, &["fibonacci_example"]).unwrap();
    assert_eq!(plan, MetalExecutionPlan::MetalFriHybrid);
}

#[test]
fn exemplar_planner_reports_unknown_components() {
    assert_eq!(
        plan_exemplar_metal_prove_by_name(MetalExecutionIntent::PreferMetal, &["missing_example"]),
        Err(MetalPlannerError::UnknownComponent(UnknownMetalComponent {
            component_name: "missing_example",
            operation: MetalOperationKind::Prove,
        }))
    );
}

#[test]
fn surface_details_are_distinct_and_name_the_cpu_bridge_exactly_on_bridge_surfaces() {
    let surfaces = stwo_metal_backend_surfaces_v1();
    for (i, &s) in surfaces.iter().enumerate() {
        let detail = metal_backend_surface_detail(s);
        assert!(!detail.is_empty());
        assert_eq!(
            detail.contains("explicit CPU bridge"),
            metal_backend_surface_status(s) == MetalBackendSurfaceStatus::SupportedExplicitCpuBridge
        );
        for &t in &surfaces[i + 1..] {
            assert_ne!(detail, metal_backend_surface_detail(t));
        }
    }
}

#[test]
fn version_one_rows_hold_their_declared_fields() {
    let rows = stwo_metal_planner_components_v1();
    assert_eq!(rows[0].workload_family, "wide_fibonacci");
    assert_eq!(rows[1].generated_inventory.specialization_keys, &["log_size", "interaction_columns"]);
    assert_eq!(rows[2].stage_assignments.len(), 5);
    assert_eq!(rows[4].generated_inventory.abi_symbols, &["metal.acceptance.simd_bridge.v1"]);
    assert_eq!(rows[5].supported_generated_routes, &[MetalGeneratedRouteKind::RegisteredProve]);
}
