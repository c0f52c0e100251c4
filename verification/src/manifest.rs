use vstd::prelude::*;

use crate::artifact::{MetalGeneratedRouteKind, MetalRegisteredBenchmarkOperation};
use crate::planner::{MetalComponentCapability, MetalSupportTier};
use crate::workload_contract::{
    MetalWorkloadOwnership, MetalWorkloadStage, MetalWorkloadStageAssignment,
};

verus! {

/// What the generated manifest records about how a component is built and bound.
#[derive(Copy, Clone, Debug, PartialEq, Eq)]
pub struct GeneratedMetalInventoryEntry {
    pub registration_key: &'static str,
    pub abi_family: &'static str,
    pub abi_symbols: &'static [&'static str],
    pub build_modules: &'static [&'static str],
    pub witness_hook: Option<&'static str>,
    pub specialization_keys: &'static [&'static str],
}

/// One row of the generated planner manifest (schema version 1, manifest version 1).
#[derive(Copy, Clone, Debug, PartialEq, Eq)]
pub struct GeneratedMetalPlannerComponent {
    pub component_name: &'static str,
    pub workload_family: &'static str,
    pub support_tier: MetalSupportTier,
    pub declared_capabilities: &'static [MetalComponentCapability],
    pub required_prove_capabilities: &'static [MetalComponentCapability],
    pub supported_benchmark_operations: &'static [MetalRegisteredBenchmarkOperation],
    pub supported_generated_routes: &'static [MetalGeneratedRouteKind],
    pub stage_assignments: &'static [MetalWorkloadStageAssignment],
    pub generated_inventory: GeneratedMetalInventoryEntry,
}

/// The `fibonacci_example` row of the generated planner manifest, field by field.
pub open spec fn is_fibonacci_example_row(c: GeneratedMetalPlannerComponent) -> bool {
    &&& c.component_name == "fibonacci_example"
    &&& c.workload_family == "wide_fibonacci"
    &&& c.support_tier == MetalSupportTier::FriOnly
    &&& c.declared_capabilities@ =~= seq![MetalComponentCapability::FriBlake2sSubpath]
    &&& c.required_prove_capabilities@ =~= seq![MetalComponentCapability::FriBlake2sSubpath, MetalComponentCapability::WitnessMain, MetalComponentCapability::QuotientEval, MetalComponentCapability::PcsCommitment]
    &&& c.supported_benchmark_operations@ =~= seq![MetalRegisteredBenchmarkOperation::TraceGeneration, MetalRegisteredBenchmarkOperation::ProveVerify]
    &&& c.supported_generated_routes@ =~= seq![MetalGeneratedRouteKind::RegisteredProve, MetalGeneratedRouteKind::WorkloadBoundary, MetalGeneratedRouteKind::BenchmarkTraceGeneration, MetalGeneratedRouteKind::BenchmarkProveVerify]
    &&& c.stage_assignments@ =~= seq![MetalWorkloadStageAssignment { stage: MetalWorkloadStage::WitnessMain, ownership: MetalWorkloadOwnership::CpuOwned, detail: "The main trace witness path remains CPU-owned for the declared Fibonacci workload boundary.", }, MetalWorkloadStageAssignment { stage: MetalWorkloadStage::WitnessInteraction, ownership: MetalWorkloadOwnership::NotApplicable, detail: "The declared Fibonacci workload boundary has no interaction trace stage.", }, MetalWorkloadStageAssignment { stage: MetalWorkloadStage::QuotientEval, ownership: MetalWorkloadOwnership::CpuOwned, detail: "Constraint quotient evaluation remains outside the declared Metal workload boundary.", }, MetalWorkloadStageAssignment { stage: MetalWorkloadStage::PcsCommitment, ownership: MetalWorkloadOwnership::CpuOwned, detail: "PCS commitment ownership remains CPU-side for the declared Fibonacci workload boundary.", }, MetalWorkloadStageAssignment { stage: MetalWorkloadStage::FriBlake2s, ownership: MetalWorkloadOwnership::MetalNative, detail: "The bounded Blake2s FRI sub-path is owned by the native Metal lane for the declared Fibonacci workload boundary.", }]
    &&& c.generated_inventory.registration_key == "fibonacci_example"
    &&& c.generated_inventory.abi_family == "wide_fibonacci"
    &&& c.generated_inventory.abi_symbols@ =~= seq!["metal.trace.wide_fibonacci.v1", "metal.quotient.wide_fibonacci.v1", "metal.fri.blake2s.v1"]
    &&& c.generated_inventory.build_modules@ =~= seq!["planner_manifest_v1_generated", "witness", "quotient", "fri", "benchmark"]
    &&& c.generated_inventory.witness_hook == Some("ingest_cpu_wide_fibonacci_witness")
    &&& c.generated_inventory.specialization_keys@ =~= seq!["log_n_instances", "n_columns"]
}

/// The `poseidon_example` row of the generated planner manifest, field by field.
pub open spec fn is_poseidon_example_row(c: GeneratedMetalPlannerComponent) -> bool {
    &&& c.component_name == "poseidon_example"
    &&& c.workload_family == "poseidon"
    &&& c.support_tier == MetalSupportTier::FriOnly
    &&& c.declared_capabilities@ =~= seq![MetalComponentCapability::FriBlake2sSubpath]
    &&& c.required_prove_capabilities@ =~= seq![MetalComponentCapability::FriBlake2sSubpath, MetalComponentCapability::WitnessMain, MetalComponentCapability::WitnessInteraction, MetalComponentCapability::QuotientEval, MetalComponentCapability::PcsCommitment]
    &&& c.supported_benchmark_operations@.len() == 0
    &&& c.supported_generated_routes@ =~= seq![MetalGeneratedRouteKind::RegisteredProve, MetalGeneratedRouteKind::WorkloadBoundary]
    &&& c.stage_assignments@ =~= seq![MetalWorkloadStageAssignment { stage: MetalWorkloadStage::WitnessMain, ownership: MetalWorkloadOwnership::CpuOwned, detail: "The main Poseidon witness path remains CPU-owned for the declared workload boundary.", }, MetalWorkloadStageAssignment { stage: MetalWorkloadStage::WitnessInteraction, ownership: MetalWorkloadOwnership::CpuOwned, detail: "The interaction witness path remains CPU-owned for the declared Poseidon workload boundary.", }, MetalWorkloadStageAssignment { stage: MetalWorkloadStage::QuotientEval, ownership: MetalWorkloadOwnership::CpuOwned, detail: "Constraint quotient evaluation remains outside the declared Metal workload boundary.", }, MetalWorkloadStageAssignment { stage: MetalWorkloadStage::PcsCommitment, ownership: MetalWorkloadOwnership::CpuOwned, detail: "PCS commitment ownership remains CPU-side for the declared Poseidon workload boundary.", }, MetalWorkloadStageAssignment { stage: MetalWorkloadStage::FriBlake2s, ownership: MetalWorkloadOwnership::MetalNative, detail: "The bounded Blake2s FRI sub-path is owned by the native Metal lane for the declared Poseidon workload boundary.", }]
    &&& c.generated_inventory.registration_key == "poseidon_example"
    &&& c.generated_inventory.abi_family == "poseidon"
    &&& c.generated_inventory.abi_symbols@ =~= seq!["metal.poseidon.acceptance.v1", "metal.fri.blake2s.v1"]
    &&& c.generated_inventory.build_modules@ =~= seq!["planner_manifest_v1_generated", "fri", "workload"]
    &&& c.generated_inventory.witness_hook.is_none()
    &&& c.generated_inventory.specialization_keys@ =~= seq!["log_size", "interaction_columns"]
}

/// The `state_machine_example` row of the generated planner manifest, field by field.
pub open spec fn is_state_machine_example_row(c: GeneratedMetalPlannerComponent) -> bool {
    &&& c.component_name == "state_machine_example"
    &&& c.workload_family == "state_machine"
    &&& c.support_tier == MetalSupportTier::FullWorkload
    &&& c.declared_capabilities@ =~= seq![MetalComponentCapability::FriBlake2sSubpath, MetalComponentCapability::WitnessMain, MetalComponentCapability::WitnessInteraction, MetalComponentCapability::QuotientEval, MetalComponentCapability::PcsCommitment]
    &&& c.required_prove_capabilities@ =~= seq![MetalComponentCapability::FriBlake2sSubpath, MetalComponentCapability::WitnessMain, MetalComponentCapability::WitnessInteraction, MetalComponentCapability::QuotientEval, MetalComponentCapability::PcsCommitment]
    &&& c.supported_benchmark_operations@.len() == 0
    &&& c.supported_generated_routes@ =~= seq![MetalGeneratedRouteKind::RegisteredProve, MetalGeneratedRouteKind::WorkloadBoundary]
    &&& c.stage_assignments@ =~= seq![MetalWorkloadStageAssignment { stage: MetalWorkloadStage::WitnessMain, ownership: MetalWorkloadOwnership::CpuOwned, detail: "The main state-machine trace remains upstream-owned and CPU-prepared in the acceptance lane.", }, MetalWorkloadStageAssignment { stage: MetalWorkloadStage::WitnessInteraction, ownership: MetalWorkloadOwnership::CpuOwned, detail: "The interaction trace remains upstream-owned and CPU-prepared in the acceptance lane.", }, MetalWorkloadStageAssignment { stage: MetalWorkloadStage::QuotientEval, ownership: MetalWorkloadOwnership::MetalNative, detail: "Constraint quotient evaluation runs through MetalBackend in the acceptance lane.", }, MetalWorkloadStageAssignment { stage: MetalWorkloadStage::PcsCommitment, ownership: MetalWorkloadOwnership::MetalNative, detail: "PCS commitment runs through MetalBackend in the acceptance lane.", }, MetalWorkloadStageAssignment { stage: MetalWorkloadStage::FriBlake2s, ownership: MetalWorkloadOwnership::MetalNative, detail: "FRI and Blake2s commitment stay on the Metal lane in the acceptance path.", }]
    &&& c.generated_inventory.registration_key == "state_machine_example"
    &&& c.generated_inventory.abi_family == "state_machine"
    &&& c.generated_inventory.abi_symbols@ =~= seq!["metal.acceptance.framework_bridge.v1"]
    &&& c.generated_inventory.build_modules@ =~= seq!["planner_manifest_v1_generated", "acceptance_bridge"]
    &&& c.generated_inventory.witness_hook.is_none()
    &&& c.generated_inventory.specialization_keys@.len() == 0
}

/// The `blake_example` row of the generated planner manifest, field by field.
pub open spec fn is_blake_example_row(c: GeneratedMetalPlannerComponent) -> bool {
    &&& c.component_name == "blake_example"
    &&& c.workload_family == "blake"
    &&& c.support_tier == MetalSupportTier::FullWorkload
    &&& c.declared_capabilities@ =~= seq![MetalComponentCapability::FriBlake2sSubpath, MetalComponentCapability::WitnessMain, MetalComponentCapability::WitnessInteraction, MetalComponentCapability::QuotientEval, MetalComponentCapability::PcsCommitment]
    &&& c.required_prove_capabilities@ =~= seq![MetalComponentCapability::FriBlake2sSubpath, MetalComponentCapability::WitnessMain, MetalComponentCapability::WitnessInteraction, MetalComponentCapability::QuotientEval, MetalComponentCapability::PcsCommitment]
    &&& c.supported_benchmark_operations@.len() == 0
    &&& c.supported_generated_routes@ =~= seq![MetalGeneratedRouteKind::RegisteredProve, MetalGeneratedRouteKind::WorkloadBoundary]
    &&& c.stage_assignments@ =~= seq![MetalWorkloadStageAssignment { stage: MetalWorkloadStage::WitnessMain, ownership: MetalWorkloadOwnership::CpuOwned, detail: "The main state-machine trace remains upstream-owned and CPU-prepared in the acceptance lane.", }, MetalWorkloadStageAssignment { stage: MetalWorkloadStage::WitnessInteraction, ownership: MetalWorkloadOwnership::CpuOwned, detail: "The interaction trace remains upstream-owned and CPU-prepared in the acceptance lane.", }, MetalWorkloadStageAssignment { stage: MetalWorkloadStage::QuotientEval, ownership: MetalWorkloadOwnership::MetalNative, detail: "Constraint quotient evaluation runs through MetalBackend in the acceptance lane.", }, MetalWorkloadStageAssignment { stage: MetalWorkloadStage::PcsCommitment, ownership: MetalWorkloadOwnership::MetalNative, detail: "PCS commitment runs through MetalBackend in the acceptance lane.", }, MetalWorkloadStageAssignment { stage: MetalWorkloadStage::FriBlake2s, ownership: MetalWorkloadOwnership::MetalNative, detail: "FRI and Blake2s commitment stay on the Metal lane in the acceptance path.", }]
    &&& c.generated_inventory.registration_key == "blake_example"
    &&& c.generated_inventory.abi_family == "blake"
    &&& c.generated_inventory.abi_symbols@ =~= seq!["metal.acceptance.framework_bridge.v1"]
    &&& c.generated_inventory.build_modules@ =~= seq!["planner_manifest_v1_generated", "acceptance_bridge"]
    &&& c.generated_inventory.witness_hook.is_none()
    &&& c.generated_inventory.specialization_keys@.len() == 0
}

/// The `xor_example` row of the generated planner manifest, field by field.
pub open spec fn is_xor_example_row(c: GeneratedMetalPlannerComponent) -> bool {
    &&& c.component_name == "xor_example"
    &&& c.workload_family == "xor"
    &&& c.support_tier == MetalSupportTier::FullWorkload
    &&& c.declared_capabilities@ =~= seq![MetalComponentCapability::FriBlake2sSubpath, MetalComponentCapability::WitnessMain, MetalComponentCapability::QuotientEval, MetalComponentCapability::PcsCommitment]
    &&& c.required_prove_capabilities@ =~= seq![MetalComponentCapability::FriBlake2sSubpath, MetalComponentCapability::WitnessMain, MetalComponentCapability::QuotientEval, MetalComponentCapability::PcsCommitment]
    &&& c.supported_benchmark_operations@.len() == 0
    &&& c.supported_generated_routes@ =~= seq![MetalGeneratedRouteKind::RegisteredProve, MetalGeneratedRouteKind::WorkloadBoundary]
    &&& c.stage_assignments@ =~= seq![MetalWorkloadStageAssignment { stage: MetalWorkloadStage::WitnessMain, ownership: MetalWorkloadOwnership::CpuOwned, detail: "The XOR MLE traces remain upstream-owned and CPU/SIMD-prepared in the acceptance lane.", }, MetalWorkloadStageAssignment { stage: MetalWorkloadStage::WitnessInteraction, ownership: MetalWorkloadOwnership::NotApplicable, detail: "The declared XOR MLE workload boundary has no separate interaction witness stage.", }, MetalWorkloadStageAssignment { stage: MetalWorkloadStage::QuotientEval, ownership: MetalWorkloadOwnership::MetalNative, detail: "Constraint quotient evaluation runs through MetalBackend in the acceptance lane.", }, MetalWorkloadStageAssignment { stage: MetalWorkloadStage::PcsCommitment, ownership: MetalWorkloadOwnership::MetalNative, detail: "PCS commitment runs through MetalBackend in the acceptance lane.", }, MetalWorkloadStageAssignment { stage: MetalWorkloadStage::FriBlake2s, ownership: MetalWorkloadOwnership::MetalNative, detail: "FRI and Blake2s commitment stay on the Metal lane in the acceptance path.", }]
    &&& c.generated_inventory.registration_key == "xor_example"
    &&& c.generated_inventory.abi_family == "xor"
    &&& c.generated_inventory.abi_symbols@ =~= seq!["metal.acceptance.simd_bridge.v1"]
    &&& c.generated_inventory.build_modules@ =~= seq!["planner_manifest_v1_generated", "acceptance_bridge"]
    &&& c.generated_inventory.witness_hook.is_none()
    &&& c.generated_inventory.specialization_keys@.len() == 0
}

/// The `virtual_snos` row of the generated planner manifest, field by field.
pub open spec fn is_virtual_snos_row(c: GeneratedMetalPlannerComponent) -> bool {
    &&& c.component_name == "virtual_snos"
    &&& c.workload_family == "stwo_cairo"
    &&& c.support_tier == MetalSupportTier::FriOnly
    &&& c.declared_capabilities@ =~= seq![MetalComponentCapability::FriBlake2sSubpath, MetalComponentCapability::WitnessMain, MetalComponentCapability::WitnessInteraction, MetalComponentCapability::QuotientEval, MetalComponentCapability::PcsCommitment]
    &&& c.required_prove_capabilities@ =~= seq![MetalComponentCapability::FriBlake2sSubpath, MetalComponentCapability::WitnessMain, MetalComponentCapability::WitnessInteraction, MetalComponentCapability::QuotientEval, MetalComponentCapability::PcsCommitment]
    &&& c.supported_benchmark_operations@.len() == 0
    &&& c.supported_generated_routes@ =~= seq![MetalGeneratedRouteKind::RegisteredProve]
    &&& c.stage_assignments@ =~= seq![MetalWorkloadStageAssignment { stage: MetalWorkloadStage::WitnessMain, ownership: MetalWorkloadOwnership::CpuOwned, detail: "The main VIRTUAL_SNOS witness is produced by stwo-cairo and arrives CPU-side.", }, MetalWorkloadStageAssignment { stage: MetalWorkloadStage::WitnessInteraction, ownership: MetalWorkloadOwnership::CpuOwned, detail: "The interaction trace for VIRTUAL_SNOS remains CPU-owned pending V1 contract hardening.", }, MetalWorkloadStageAssignment { stage: MetalWorkloadStage::QuotientEval, ownership: MetalWorkloadOwnership::CpuOwned, detail: "Constraint quotient evaluation remains CPU-owned until the V1 evaluation program supports VIRTUAL_SNOS lowering.", }, MetalWorkloadStageAssignment { stage: MetalWorkloadStage::PcsCommitment, ownership: MetalWorkloadOwnership::CpuOwned, detail: "PCS commitment remains CPU-side pending downstream hardening.", }, MetalWorkloadStageAssignment { stage: MetalWorkloadStage::FriBlake2s, ownership: MetalWorkloadOwnership::MetalNative, detail: "The bounded Blake2s FRI sub-path is Metal-native for VIRTUAL_SNOS, matching the converged V1 runtime.", }]
    &&& c.generated_inventory.registration_key == "virtual_snos"
    &&& c.generated_inventory.abi_family == "stwo_cairo"
    &&& c.generated_inventory.abi_symbols@ =~= seq!["metal.stwo_cairo.virtual_snos.v1", "metal.fri.blake2s.v1"]
    &&& c.generated_inventory.build_modules@ =~= seq!["planner_manifest_v1_generated"]
    &&& c.generated_inventory.witness_hook.is_none()
    &&& c.generated_inventory.specialization_keys@ =~= seq!["log_n_rows"]
}

/// The generated planner manifest of version 1: its six rows, in
/// registration order.
pub open spec fn is_planner_manifest_v1(rows: Seq<GeneratedMetalPlannerComponent>) -> bool {
    &&& rows.len() == 6
    &&& is_fibonacci_example_row(rows[0])
    &&& is_poseidon_example_row(rows[1])
    &&& is_state_machine_example_row(rows[2])
    &&& is_blake_example_row(rows[3])
    &&& is_xor_example_row(rows[4])
    &&& is_virtual_snos_row(rows[5])
}

fn all_capabilities() -> (r: &'static [MetalComponentCapability])
    ensures
        r@ == seq![
            MetalComponentCapability::FriBlake2sSubpath,
            MetalComponentCapability::WitnessMain,
            MetalComponentCapability::WitnessInteraction,
            MetalComponentCapability::QuotientEval,
            MetalComponentCapability::PcsCommitment,
        ],
{
    &[
        MetalComponentCapability::FriBlake2sSubpath,
        MetalComponentCapability::WitnessMain,
        MetalComponentCapability::WitnessInteraction,
        MetalComponentCapability::QuotientEval,
        MetalComponentCapability::PcsCommitment,
    ]
}

fn no_interaction_capabilities() -> (r: &'static [MetalComponentCapability])
    ensures
        r@ == seq![
            MetalComponentCapability::FriBlake2sSubpath,
            MetalComponentCapability::WitnessMain,
            MetalComponentCapability::QuotientEval,
            MetalComponentCapability::PcsCommitment,
        ],
{
    &[
        MetalComponentCapability::FriBlake2sSubpath,
        MetalComponentCapability::WitnessMain,
        MetalComponentCapability::QuotientEval,
        MetalComponentCapability::PcsCommitment,
    ]
}

fn fri_only_capabilities() -> (r: &'static [MetalComponentCapability])
    ensures
        r@ == seq![MetalComponentCapability::FriBlake2sSubpath],
{
    &[MetalComponentCapability::FriBlake2sSubpath]
}

fn acceptance_only_routes() -> (r: &'static [MetalGeneratedRouteKind])
    ensures
        r@ == seq![MetalGeneratedRouteKind::RegisteredProve, MetalGeneratedRouteKind::WorkloadBoundary],
{
    &[MetalGeneratedRouteKind::RegisteredProve, MetalGeneratedRouteKind::WorkloadBoundary]
}

fn fibonacci_example_component() -> (r: GeneratedMetalPlannerComponent)
    ensures
        is_fibonacci_example_row(r),
{
    GeneratedMetalPlannerComponent {
        component_name: "fibonacci_example",
        workload_family: "wide_fibonacci",
        support_tier: MetalSupportTier::FriOnly,
        declared_capabilities: fri_only_capabilities(),
        required_prove_capabilities: no_interaction_capabilities(),
        supported_benchmark_operations: &[
            MetalRegisteredBenchmarkOperation::TraceGeneration,
            MetalRegisteredBenchmarkOperation::ProveVerify,
        ],
        supported_generated_routes: &[
            MetalGeneratedRouteKind::RegisteredProve,
            MetalGeneratedRouteKind::WorkloadBoundary,
            MetalGeneratedRouteKind::BenchmarkTraceGeneration,
            MetalGeneratedRouteKind::BenchmarkProveVerify,
        ],
        stage_assignments: &[
            MetalWorkloadStageAssignment {
                stage: MetalWorkloadStage::WitnessMain,
                ownership: MetalWorkloadOwnership::CpuOwned,
                detail: "The main trace witness path remains CPU-owned for the declared Fibonacci workload boundary.",
            },
            MetalWorkloadStageAssignment {
                stage: MetalWorkloadStage::WitnessInteraction,
                ownership: MetalWorkloadOwnership::NotApplicable,
                detail: "The declared Fibonacci workload boundary has no interaction trace stage.",
            },
            MetalWorkloadStageAssignment {
                stage: MetalWorkloadStage::QuotientEval,
                ownership: MetalWorkloadOwnership::CpuOwned,
                detail: "Constraint quotient evaluation remains outside the declared Metal workload boundary.",
            },
            MetalWorkloadStageAssignment {
                stage: MetalWorkloadStage::PcsCommitment,
                ownership: MetalWorkloadOwnership::CpuOwned,
                detail: "PCS commitment ownership remains CPU-side for the declared Fibonacci workload boundary.",
            },
            MetalWorkloadStageAssignment {
                stage: MetalWorkloadStage::FriBlake2s,
                ownership: MetalWorkloadOwnership::MetalNative,
                detail: "The bounded Blake2s FRI sub-path is owned by the native Metal lane for the declared Fibonacci workload boundary.",
            },
        ],
        generated_inventory: GeneratedMetalInventoryEntry {
            registration_key: "fibonacci_example",
            abi_family: "wide_fibonacci",
            abi_symbols: &[
                "metal.trace.wide_fibonacci.v1",
                "metal.quotient.wide_fibonacci.v1",
                "metal.fri.blake2s.v1",
            ],
            build_modules: &[
                "planner_manifest_v1_generated",
                "witness",
                "quotient",
                "fri",
                "benchmark",
            ],
            witness_hook: Some("ingest_cpu_wide_fibonacci_witness"),
            specialization_keys: &["log_n_instances", "n_columns"],
        },
    }
}

fn poseidon_example_component() -> (r: GeneratedMetalPlannerComponent)
    ensures
        is_poseidon_example_row(r),
{
    GeneratedMetalPlannerComponent {
        component_name: "poseidon_example",
        workload_family: "poseidon",
        support_tier: MetalSupportTier::FriOnly,
        declared_capabilities: fri_only_capabilities(),
        required_prove_capabilities: all_capabilities(),
        supported_benchmark_operations: &[],
        supported_generated_routes: acceptance_only_routes(),
        stage_assignments: &[
            MetalWorkloadStageAssignment {
                stage: MetalWorkloadStage::WitnessMain,
                ownership: MetalWorkloadOwnership::CpuOwned,
                detail: "The main Poseidon witness path remains CPU-owned for the declared workload boundary.",
            },
            MetalWorkloadStageAssignment {
                stage: MetalWorkloadStage::WitnessInteraction,
                ownership: MetalWorkloadOwnership::CpuOwned,
                detail: "The interaction witness path remains CPU-owned for the declared Poseidon workload boundary.",
            },
            MetalWorkloadStageAssignment {
                stage: MetalWorkloadStage::QuotientEval,
                ownership: MetalWorkloadOwnership::CpuOwned,
                detail: "Constraint quotient evaluation remains outside the declared Metal workload boundary.",
            },
            MetalWorkloadStageAssignment {
                stage: MetalWorkloadStage::PcsCommitment,
                ownership: MetalWorkloadOwnership::CpuOwned,
                detail: "PCS commitment ownership remains CPU-side for the declared Poseidon workload boundary.",
            },
            MetalWorkloadStageAssignment {
                stage: MetalWorkloadStage::FriBlake2s,
                ownership: MetalWorkloadOwnership::MetalNative,
                detail: "The bounded Blake2s FRI sub-path is owned by the native Metal lane for the declared Poseidon workload boundary.",
            },
        ],
        generated_inventory: GeneratedMetalInventoryEntry {
            registration_key: "poseidon_example",
            abi_family: "poseidon",
            abi_symbols: &["metal.poseidon.acceptance.v1", "metal.fri.blake2s.v1"],
            build_modules: &["planner_manifest_v1_generated", "fri", "workload"],
            witness_hook: None,
            specialization_keys: &["log_size", "interaction_columns"],
        },
    }
}

fn acceptance_lane_assignments() -> (r: &'static [MetalWorkloadStageAssignment])
    ensures
        r@ == seq![MetalWorkloadStageAssignment { stage: MetalWorkloadStage::WitnessMain, ownership: MetalWorkloadOwnership::CpuOwned, detail: "The main state-machine trace remains upstream-owned and CPU-prepared in the acceptance lane.", }, MetalWorkloadStageAssignment { stage: MetalWorkloadStage::WitnessInteraction, ownership: MetalWorkloadOwnership::CpuOwned, detail: "The interaction trace remains upstream-owned and CPU-prepared in the acceptance lane.", }, MetalWorkloadStageAssignment { stage: MetalWorkloadStage::QuotientEval, ownership: MetalWorkloadOwnership::MetalNative, detail: "Constraint quotient evaluation runs through MetalBackend in the acceptance lane.", }, MetalWorkloadStageAssignment { stage: MetalWorkloadStage::PcsCommitment, ownership: MetalWorkloadOwnership::MetalNative, detail: "PCS commitment runs through MetalBackend in the acceptance lane.", }, MetalWorkloadStageAssignment { stage: MetalWorkloadStage::FriBlake2s, ownership: MetalWorkloadOwnership::MetalNative, detail: "FRI and Blake2s commitment stay on the Metal lane in the acceptance path.", }],
{
    &[
        MetalWorkloadStageAssignment {
            stage: MetalWorkloadStage::WitnessMain,
            ownership: MetalWorkloadOwnership::CpuOwned,
            detail: "The main state-machine trace remains upstream-owned and CPU-prepared in the acceptance lane.",
        },
        MetalWorkloadStageAssignment {
            stage: MetalWorkloadStage::WitnessInteraction,
            ownership: MetalWorkloadOwnership::CpuOwned,
            detail: "The interaction trace remains upstream-owned and CPU-prepared in the acceptance lane.",
        },
        MetalWorkloadStageAssignment {
            stage: MetalWorkloadStage::QuotientEval,
            ownership: MetalWorkloadOwnership::MetalNative,
            detail: "Constraint quotient evaluation runs through MetalBackend in the acceptance lane.",
        },
        MetalWorkloadStageAssignment {
            stage: MetalWorkloadStage::PcsCommitment,
            ownership: MetalWorkloadOwnership::MetalNative,
            detail: "PCS commitment runs through MetalBackend in the acceptance lane.",
        },
        MetalWorkloadStageAssignment {
            stage: MetalWorkloadStage::FriBlake2s,
            ownership: MetalWorkloadOwnership::MetalNative,
            detail: "FRI and Blake2s commitment stay on the Metal lane in the acceptance path.",
        },
    ]
}

fn state_machine_example_component() -> (r: GeneratedMetalPlannerComponent)
    ensures
        is_state_machine_example_row(r),
{
    GeneratedMetalPlannerComponent {
        component_name: "state_machine_example",
        workload_family: "state_machine",
        support_tier: MetalSupportTier::FullWorkload,
        declared_capabilities: all_capabilities(),
        required_prove_capabilities: all_capabilities(),
        supported_benchmark_operations: &[],
        supported_generated_routes: acceptance_only_routes(),
        stage_assignments: acceptance_lane_assignments(),
        generated_inventory: GeneratedMetalInventoryEntry {
            registration_key: "state_machine_example",
            abi_family: "state_machine",
            abi_symbols: &["metal.acceptance.framework_bridge.v1"],
            build_modules: &["planner_manifest_v1_generated", "acceptance_bridge"],
            witness_hook: None,
            specialization_keys: &[],
        },
    }
}

fn blake_example_component() -> (r: GeneratedMetalPlannerComponent)
    ensures
        is_blake_example_row(r),
{
    GeneratedMetalPlannerComponent {
        component_name: "blake_example",
        workload_family: "blake",
        support_tier: MetalSupportTier::FullWorkload,
        declared_capabilities: all_capabilities(),
        required_prove_capabilities: all_capabilities(),
        supported_benchmark_operations: &[],
        supported_generated_routes: acceptance_only_routes(),
        stage_assignments: acceptance_lane_assignments(),
        generated_inventory: GeneratedMetalInventoryEntry {
            registration_key: "blake_example",
            abi_family: "blake",
            abi_symbols: &["metal.acceptance.framework_bridge.v1"],
            build_modules: &["planner_manifest_v1_generated", "acceptance_bridge"],
            witness_hook: None,
            specialization_keys: &[],
        },
    }
}

fn xor_example_component() -> (r: GeneratedMetalPlannerComponent)
    ensures
        is_xor_example_row(r),
{
    GeneratedMetalPlannerComponent {
        component_name: "xor_example",
        workload_family: "xor",
        support_tier: MetalSupportTier::FullWorkload,
        declared_capabilities: no_interaction_capabilities(),
        required_prove_capabilities: no_interaction_capabilities(),
        supported_benchmark_operations: &[],
        supported_generated_routes: acceptance_only_routes(),
        stage_assignments: &[
            MetalWorkloadStageAssignment {
                stage: MetalWorkloadStage::WitnessMain,
                ownership: MetalWorkloadOwnership::CpuOwned,
                detail: "The XOR MLE traces remain upstream-owned and CPU/SIMD-prepared in the acceptance lane.",
            },
            MetalWorkloadStageAssignment {
                stage: MetalWorkloadStage::WitnessInteraction,
                ownership: MetalWorkloadOwnership::NotApplicable,
                detail: "The declared XOR MLE workload boundary has no separate interaction witness stage.",
            },
            MetalWorkloadStageAssignment {
                stage: MetalWorkloadStage::QuotientEval,
                ownership: MetalWorkloadOwnership::MetalNative,
                detail: "Constraint quotient evaluation runs through MetalBackend in the acceptance lane.",
            },
            MetalWorkloadStageAssignment {
                stage: MetalWorkloadStage::PcsCommitment,
                ownership: MetalWorkloadOwnership::MetalNative,
                detail: "PCS commitment runs through MetalBackend in the acceptance lane.",
            },
            MetalWorkloadStageAssignment {
                stage: MetalWorkloadStage::FriBlake2s,
                ownership: MetalWorkloadOwnership::MetalNative,
                detail: "FRI and Blake2s commitment stay on the Metal lane in the acceptance path.",
            },
        ],
        generated_inventory: GeneratedMetalInventoryEntry {
            registration_key: "xor_example",
            abi_family: "xor",
            abi_symbols: &["metal.acceptance.simd_bridge.v1"],
            build_modules: &["planner_manifest_v1_generated", "acceptance_bridge"],
            witness_hook: None,
            specialization_keys: &[],
        },
    }
}

/// The downstream stwo-cairo VIRTUAL_SNOS row: registered for planning, lowered
/// through the synthetic column-pair program.
fn virtual_snos_component() -> (r: GeneratedMetalPlannerComponent)
    ensures
        is_virtual_snos_row(r),
{
    GeneratedMetalPlannerComponent {
        component_name: "virtual_snos",
        workload_family: "stwo_cairo",
        support_tier: MetalSupportTier::FriOnly,
        declared_capabilities: all_capabilities(),
        required_prove_capabilities: all_capabilities(),
        supported_benchmark_operations: &[],
        supported_generated_routes: &[MetalGeneratedRouteKind::RegisteredProve],
        stage_assignments: &[
            MetalWorkloadStageAssignment {
                stage: MetalWorkloadStage::WitnessMain,
                ownership: MetalWorkloadOwnership::CpuOwned,
                detail: "The main VIRTUAL_SNOS witness is produced by stwo-cairo and arrives CPU-side.",
            },
            MetalWorkloadStageAssignment {
                stage: MetalWorkloadStage::WitnessInteraction,
                ownership: MetalWorkloadOwnership::CpuOwned,
                detail: "The interaction trace for VIRTUAL_SNOS remains CPU-owned pending V1 contract hardening.",
            },
            MetalWorkloadStageAssignment {
                stage: MetalWorkloadStage::QuotientEval,
                ownership: MetalWorkloadOwnership::CpuOwned,
                detail: "Constraint quotient evaluation remains CPU-owned until the V1 evaluation program supports VIRTUAL_SNOS lowering.",
            },
            MetalWorkloadStageAssignment {
                stage: MetalWorkloadStage::PcsCommitment,
                ownership: MetalWorkloadOwnership::CpuOwned,
                detail: "PCS commitment remains CPU-side pending downstream hardening.",
            },
            MetalWorkloadStageAssignment {
                stage: MetalWorkloadStage::FriBlake2s,
                ownership: MetalWorkloadOwnership::MetalNative,
                detail: "The bounded Blake2s FRI sub-path is Metal-native for VIRTUAL_SNOS, matching the converged V1 runtime.",
            },
        ],
        generated_inventory: GeneratedMetalInventoryEntry {
            registration_key: "virtual_snos",
            abi_family: "stwo_cairo",
            abi_symbols: &["metal.stwo_cairo.virtual_snos.v1", "metal.fri.blake2s.v1"],
            build_modules: &["planner_manifest_v1_generated"],
            witness_hook: None,
            specialization_keys: &["log_n_rows"],
        },
    }
}

/// The generated planner manifest, in registration order.
pub fn stwo_metal_planner_components_v1() -> (r: Vec<GeneratedMetalPlannerComponent>)
    ensures
        is_planner_manifest_v1(r@),
{
    vec![
        fibonacci_example_component(),
        poseidon_example_component(),
        state_machine_example_component(),
        blake_example_component(),
        xor_example_component(),
        virtual_snos_component(),
    ]
}

} // verus!
