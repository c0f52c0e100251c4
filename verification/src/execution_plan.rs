use vstd::prelude::*;

use crate::artifact::{
    is_artifact_registry_v1, lemma_artifact_registry_v1_unique, spec_artifact_registry_v1,
    stwo_metal_artifact_registry_v1, MetalArtifactRegistry, MetalComponentArtifact,
    MetalGeneratedInventory, MetalGeneratedRouteKind, MetalRegisteredBenchmarkOperation,
    spec_as_plan_input, STWO_METAL_ARTIFACT_SCHEMA_VERSION_V1,
};
use crate::arith::{exact_log2, spec_is_power_of_two};
use crate::field::{spec_is_canonic, MetalCircleDomain};
use vstd::arithmetic::power2::pow2;
use crate::generated_policy::{
    resolve_generated_route_policy, spec_route_policy, MetalGeneratedRoutePolicy,
    UnsupportedGeneratedComponentReason,
};
use crate::planner::{
    plan_metal_operation, spec_plan_metal_operation, MetalComponentPlanInput,
    MetalExecutionIntent, MetalExecutionPlan, MetalOperationKind, MetalPlannerError,
    UnknownMetalComponent, UnsupportedGeneratedMetalRoute,
};
use crate::text::{str_eq, str_slice_contains};
use crate::workload_contract::{
    spec_stage_ownership, stage_ownership_in, MetalWorkloadOwnership, MetalWorkloadStage,
    MetalWorkloadStageAssignment,
};

verus! {

#[derive(Copy, Clone, Debug, PartialEq, Eq)]
pub struct RegisteredMetalExecutionPlan {
    pub schema_version: u16,
    pub operation: MetalOperationKind,
    pub plan: MetalExecutionPlan,
}

/// A manifest artifact accepted for one generated route.
#[derive(Copy, Clone, Debug, PartialEq, Eq)]
pub struct RegisteredMetalComponent {
    pub schema_version: u16,
    pub route: MetalGeneratedRouteKind,
    pub artifact: MetalComponentArtifact,
}

#[derive(Copy, Clone, Debug, PartialEq, Eq)]
pub struct RegisteredMetalLoweringInput {
    pub schema_version: u16,
    pub route: MetalGeneratedRouteKind,
    pub component_name: &'static str,
    pub workload_family: &'static str,
    pub abi_family: &'static str,
    pub abi_symbols: &'static [&'static str],
    pub build_modules: &'static [&'static str],
    pub witness_hook: Option<&'static str>,
    pub specialization_keys: &'static [&'static str],
}

#[derive(Copy, Clone, Debug)]
pub struct RegisteredMetalRuntimePlanInput {
    pub operation: MetalOperationKind,
    pub plan_input: MetalComponentPlanInput<'static>,
}

#[derive(Copy, Clone, Debug, PartialEq, Eq)]
pub struct RegisteredMetalWorkloadBoundaryInput {
    pub lowering: RegisteredMetalLoweringInput,
    pub plan: MetalExecutionPlan,
    pub stage_assignments: &'static [MetalWorkloadStageAssignment],
    pub generated_inventory: MetalGeneratedInventory,
}

#[derive(Copy, Clone, Debug, PartialEq, Eq)]
pub struct RegisteredMetalExecutionBinding {
    pub workload_boundary: RegisteredMetalWorkloadBoundaryInput,
    pub declaration_lowering: RegisteredMetalLoweringInput,
    pub declaration_route: MetalGeneratedRouteKind,
    pub supported_benchmark_operations: &'static [MetalRegisteredBenchmarkOperation],
}

/// The flattened scheduling record of an execution binding.
#[derive(Copy, Clone, Debug, PartialEq, Eq)]
pub struct RegisteredMetalExecutionSeed {
    pub component_name: &'static str,
    pub route: MetalGeneratedRouteKind,
    pub plan: MetalExecutionPlan,
    pub abi_symbols: &'static [&'static str],
    pub build_modules: &'static [&'static str],
    pub specialization_keys: &'static [&'static str],
    pub stage_assignments: &'static [MetalWorkloadStageAssignment],
    pub witness_hook: Option<&'static str>,
}

#[derive(Copy, Clone, Debug, PartialEq, Eq)]
pub enum RegisteredMetalExecutionSeedError {
    UnsupportedWitnessHook { component_name: &'static str, witness_hook: Option<&'static str> },
    MissingSpecializationKey { component_name: &'static str, missing_key: &'static str },
    PlanNotMetalCapable { component_name: &'static str, plan: MetalExecutionPlan },
    UnsupportedCpuOwnership { component_name: &'static str, stage: MetalWorkloadStage },
    NonCanonicDomain { component_name: &'static str },
    WitnessInputLengthMismatch { component_name: &'static str, input_a_len: usize, input_b_len: usize },
    WitnessInputLengthNotPowerOfTwo { component_name: &'static str, input_len: usize },
    InvalidWitnessColumnCount { component_name: &'static str, n_columns: u32 },
}

/// The request handed to wide-fibonacci trace generation once the seed accepts it.
#[derive(Copy, Clone, Debug)]
pub struct MetalWideFibonacciTraceRequest<'a> {
    pub input_a: &'a [stwo::core::fields::m31::M31],
    pub input_b: &'a [stwo::core::fields::m31::M31],
    pub n_columns: u32,
}

pub open spec fn spec_lowering_input(c: RegisteredMetalComponent) -> RegisteredMetalLoweringInput {
    RegisteredMetalLoweringInput {
        schema_version: c.schema_version,
        route: c.route,
        component_name: c.artifact.component_name,
        workload_family: c.artifact.workload_family,
        abi_family: c.artifact.generated_inventory.abi_family,
        abi_symbols: c.artifact.generated_inventory.abi_symbols,
        build_modules: c.artifact.generated_inventory.build_modules,
        witness_hook: c.artifact.generated_inventory.witness_hook,
        specialization_keys: c.artifact.generated_inventory.specialization_keys,
    }
}

impl RegisteredMetalComponent {
    pub fn component_name(self) -> (r: &'static str)
        ensures
            r == self.artifact.component_name,
    {
        self.artifact.component_name
    }

    pub fn generated_inventory(self) -> (r: MetalGeneratedInventory)
        ensures
            r == self.artifact.generated_inventory,
    {
        self.artifact.generated_inventory
    }

    /// The inputs that lowering needs from this registration.
    pub fn lowering_input(self) -> (r: RegisteredMetalLoweringInput)
        ensures
            r == spec_lowering_input(self),
    {
        let inventory = self.generated_inventory();
        RegisteredMetalLoweringInput {
            schema_version: self.schema_version,
            route: self.route,
            component_name: self.component_name(),
            workload_family: self.artifact.workload_family,
            abi_family: inventory.abi_family,
            abi_symbols: inventory.abi_symbols,
            build_modules: inventory.build_modules,
            witness_hook: inventory.witness_hook,
            specialization_keys: inventory.specialization_keys,
        }
    }

    /// The planner input of this registration for `operation`.
    pub fn runtime_plan_input(self, operation: MetalOperationKind) -> (r:
        RegisteredMetalRuntimePlanInput)
        ensures
            r.operation == operation,
            r.plan_input == spec_as_plan_input(self.artifact, operation),
    {
        RegisteredMetalRuntimePlanInput {
            operation,
            plan_input: self.artifact.as_plan_input(operation),
        }
    }
}

/// What registering `component_name` for `route` in `registry` gives.
pub open spec fn spec_registered_component_in_registry<'a>(
    registry: MetalArtifactRegistry,
    expected_schema_version: u16,
    component_name: &'a str,
    route: MetalGeneratedRouteKind,
) -> Result<RegisteredMetalComponent, MetalPlannerError<'a>> {
    match spec_route_policy(
        registry.spec_artifact_supporting_generated_route(
            component_name,
            expected_schema_version,
            route,
        ),
        component_name,
    ) {
        MetalGeneratedRoutePolicy::UseRegisteredArtifact(artifact) => Ok(
            RegisteredMetalComponent { schema_version: registry.spec_schema_version(), route, artifact },
        ),
        MetalGeneratedRoutePolicy::Reject(problem) => match problem.reason {
            UnsupportedGeneratedComponentReason::UnsupportedRoute(rejected) => Err(
                MetalPlannerError::UnsupportedGeneratedRoute(
                    UnsupportedGeneratedMetalRoute { component_name, route: rejected },
                ),
            ),
            _ => Err(
                MetalPlannerError::UnknownComponent(
                    UnknownMetalComponent { component_name, operation: MetalOperationKind::Prove },
                ),
            ),
        },
    }
}

/// Registrations read a registry only through its schema version and rows,
/// so two registries with the same contents register alike.
pub proof fn lemma_registrations_agree(a: MetalArtifactRegistry, b: MetalArtifactRegistry)
    requires
        a.same_contents(b),
    ensures
        forall|v: u16, name: &str, route: MetalGeneratedRouteKind|
            #[trigger] spec_registered_component_in_registry(a, v, name, route)
                == spec_registered_component_in_registry(b, v, name, route),
        forall|v: u16, op: MetalOperationKind, names: Seq<&str>, i: int|
            #[trigger] spec_plan_inputs_from(a, v, op, names, i) == spec_plan_inputs_from(b, v, op, names, i),
{
    assert forall|v: u16, name: &str, route: MetalGeneratedRouteKind|
        #[trigger] spec_registered_component_in_registry(a, v, name, route)
            == spec_registered_component_in_registry(b, v, name, route) by {
        assert(a.spec_artifact_supporting_generated_route(name, v, route)
            == b.spec_artifact_supporting_generated_route(name, v, route));
    }
    assert forall|v: u16, op: MetalOperationKind, names: Seq<&str>, i: int|
        #[trigger] spec_plan_inputs_from(a, v, op, names, i) == spec_plan_inputs_from(b, v, op, names, i) by {
        lemma_plan_inputs_agree(a, b, v, op, names, i);
    }
}

proof fn lemma_plan_inputs_agree(
    a: MetalArtifactRegistry,
    b: MetalArtifactRegistry,
    v: u16,
    op: MetalOperationKind,
    names: Seq<&str>,
    i: int,
)
    requires
        a.same_contents(b),
    ensures
        spec_plan_inputs_from(a, v, op, names, i) == spec_plan_inputs_from(b, v, op, names, i),
    decreases names.len() - i,
{
    if 0 <= i < names.len() {
        lemma_plan_inputs_agree(a, b, v, op, names, i + 1);
        assert(a.spec_artifact_supporting_generated_route(names[i], v, MetalGeneratedRouteKind::RegisteredProve)
            == b.spec_artifact_supporting_generated_route(names[i], v, MetalGeneratedRouteKind::RegisteredProve));
    }
}

/// Takes the version-1 registry, whose contents are those of the spec registry.
fn registry_v1() -> (r: MetalArtifactRegistry)
    ensures
        is_artifact_registry_v1(r),
        is_artifact_registry_v1(spec_artifact_registry_v1()),
        forall|v: u16, name: &str, route: MetalGeneratedRouteKind|
            #[trigger] spec_registered_component_in_registry(r, v, name, route)
                == spec_registered_component_in_registry(spec_artifact_registry_v1(), v, name, route),
        forall|v: u16, op: MetalOperationKind, names: Seq<&str>, i: int|
            #[trigger] spec_plan_inputs_from(r, v, op, names, i)
                == spec_plan_inputs_from(spec_artifact_registry_v1(), v, op, names, i),
        r.spec_schema_version() == spec_artifact_registry_v1().spec_schema_version(),
{
    let r = stwo_metal_artifact_registry_v1();
    proof {
        lemma_registrations_agree(r, spec_artifact_registry_v1());
    }
    r
}

/// Registers `component_name` for `route` against `registry`.
///
/// Unknown components and schema mismatches are reported as unknown
/// components; a registered component without `route` as an unsupported route.
pub fn registered_generated_component_in_registry<'a>(
    registry: &MetalArtifactRegistry,
    expected_schema_version: u16,
    component_name: &'a str,
    route: MetalGeneratedRouteKind,
) -> (r: Result<RegisteredMetalComponent, MetalPlannerError<'a>>)
    ensures
        r == spec_registered_component_in_registry(
            *registry,
            expected_schema_version,
            component_name,
            route,
        ),
{
    match resolve_generated_route_policy(registry, expected_schema_version, component_name, route) {
        MetalGeneratedRoutePolicy::UseRegisteredArtifact(artifact) => {
            Ok(RegisteredMetalComponent { schema_version: registry.schema_version(), route, artifact })
        },
        MetalGeneratedRoutePolicy::Reject(problem) => match problem.reason {
            UnsupportedGeneratedComponentReason::UnsupportedRoute(rejected) => Err(
                MetalPlannerError::UnsupportedGeneratedRoute(
                    UnsupportedGeneratedMetalRoute { component_name, route: rejected },
                ),
            ),
            _ => Err(
                MetalPlannerError::UnknownComponent(
                    UnknownMetalComponent { component_name, operation: MetalOperationKind::Prove },
                ),
            ),
        },
    }
}

/// Registers `component_name` for `route` against the version-1 registry.
pub fn registered_generated_component<'a>(component_name: &'a str, route: MetalGeneratedRouteKind) -> (r:
    Result<RegisteredMetalComponent, MetalPlannerError<'a>>)
    ensures
        is_artifact_registry_v1(spec_artifact_registry_v1()),
        r == spec_registered_component_in_registry(
                spec_artifact_registry_v1(),
                STWO_METAL_ARTIFACT_SCHEMA_VERSION_V1,
                component_name,
                route,
            ),
{
    let registry = registry_v1();
    let r = registered_generated_component_in_registry(
        &registry,
        STWO_METAL_ARTIFACT_SCHEMA_VERSION_V1,
        component_name,
        route,
    );
    r
}


/// The planner input for `component_name` registered for `route`.
pub open spec fn spec_runtime_plan_input_in<'a>(
    registry: MetalArtifactRegistry,
    component_name: &'a str,
    route: MetalGeneratedRouteKind,
    operation: MetalOperationKind,
) -> Result<MetalComponentPlanInput<'static>, MetalPlannerError<'a>> {
    match spec_registered_component_in_registry(
        registry,
        STWO_METAL_ARTIFACT_SCHEMA_VERSION_V1,
        component_name,
        route,
    ) {
        Ok(c) => Ok(spec_as_plan_input(c.artifact, operation)),
        Err(e) => Err(e),
    }
}

fn registered_runtime_plan_input_in<'a>(
    registry: &MetalArtifactRegistry,
    component_name: &'a str,
    route: MetalGeneratedRouteKind,
    operation: MetalOperationKind,
) -> (r: Result<RegisteredMetalRuntimePlanInput, MetalPlannerError<'a>>)
    ensures
        match (r, spec_runtime_plan_input_in(*registry, component_name, route, operation)) {
            (Ok(x), Ok(p)) => x.operation == operation && x.plan_input == p,
            (Err(e), Err(f)) => e == f,
            _ => false,
        },
{
    match registered_generated_component_in_registry(
        registry,
        STWO_METAL_ARTIFACT_SCHEMA_VERSION_V1,
        component_name,
        route,
    ) {
        Ok(registration) => Ok(registration.runtime_plan_input(operation)),
        Err(e) => Err(e),
    }
}

/// The planner input of `component_name` registered for `route`, against the
/// version-1 registry.
pub fn registered_runtime_plan_input<'a>(
    component_name: &'a str,
    route: MetalGeneratedRouteKind,
    operation: MetalOperationKind,
) -> (r: Result<RegisteredMetalRuntimePlanInput, MetalPlannerError<'a>>)
    ensures
        is_artifact_registry_v1(spec_artifact_registry_v1()),
        match (
                r,
                spec_runtime_plan_input_in(spec_artifact_registry_v1(), component_name, route, operation),
            ) {
                (Ok(x), Ok(p)) => x.operation == operation && x.plan_input == p,
                (Err(e), Err(f)) => e == f,
                _ => false,
            },
{
    let registry = registry_v1();
    let r = registered_runtime_plan_input_in(&registry, component_name, route, operation);
    r
}

/// The workload-boundary input of `component_name`: its boundary registration
/// plus the plan chosen for proving it.
pub open spec fn spec_workload_boundary_input_in(
    registry: MetalArtifactRegistry,
    intent: MetalExecutionIntent,
    component_name: &'static str,
) -> Result<RegisteredMetalWorkloadBoundaryInput, MetalPlannerError<'static>> {
    match spec_registered_component_in_registry(
        registry,
        STWO_METAL_ARTIFACT_SCHEMA_VERSION_V1,
        component_name,
        MetalGeneratedRouteKind::WorkloadBoundary,
    ) {
        Err(e) => Err(e),
        Ok(boundary) => match spec_runtime_plan_input_in(
            registry,
            component_name,
            MetalGeneratedRouteKind::RegisteredProve,
            MetalOperationKind::Prove,
        ) {
            Err(e) => Err(e),
            Ok(input) => match spec_plan_metal_operation(
                intent,
                MetalOperationKind::Prove,
                seq![input],
            ) {
                Err(problem) => Err(MetalPlannerError::Unsupported(problem)),
                Ok(plan) => Ok(
                    RegisteredMetalWorkloadBoundaryInput {
                        lowering: spec_lowering_input(boundary),
                        plan,
                        stage_assignments: boundary.artifact.stage_assignments,
                        generated_inventory: boundary.artifact.generated_inventory,
                    },
                ),
            },
        },
    }
}

fn registered_workload_boundary_input_in(
    registry: &MetalArtifactRegistry,
    intent: MetalExecutionIntent,
    component_name: &'static str,
) -> (r: Result<RegisteredMetalWorkloadBoundaryInput, MetalPlannerError<'static>>)
    ensures
        r == spec_workload_boundary_input_in(*registry, intent, component_name),
{
    let boundary_registration = match registered_generated_component_in_registry(
        registry,
        STWO_METAL_ARTIFACT_SCHEMA_VERSION_V1,
        component_name,
        MetalGeneratedRouteKind::WorkloadBoundary,
    ) {
        Ok(b) => b,
        Err(e) => return Err(e),
    };
    let runtime_input = match registered_runtime_plan_input_in(
        registry,
        component_name,
        MetalGeneratedRouteKind::RegisteredProve,
        MetalOperationKind::Prove,
    ) {
        Ok(x) => x,
        Err(e) => return Err(e),
    };
    let inputs = [runtime_input.plan_input];
    let plan = match plan_metal_operation(intent, runtime_input.operation, &inputs) {
        Ok(plan) => plan,
        Err(problem) => {
            assert(inputs@ == seq![runtime_input.plan_input]);
            return Err(MetalPlannerError::Unsupported(problem));
        },
    };
    assert(inputs@ == seq![runtime_input.plan_input]);
    Ok(
        RegisteredMetalWorkloadBoundaryInput {
            lowering: boundary_registration.lowering_input(),
            plan,
            stage_assignments: boundary_registration.artifact.stage_assignments,
            generated_inventory: boundary_registration.generated_inventory(),
        },
    )
}

/// The workload-boundary input of `component_name` against the version-1 registry.
pub fn registered_workload_boundary_input(
    intent: MetalExecutionIntent,
    component_name: &'static str,
) -> (r: Result<RegisteredMetalWorkloadBoundaryInput, MetalPlannerError<'static>>)
    ensures
        is_artifact_registry_v1(spec_artifact_registry_v1()),
        r == spec_workload_boundary_input_in(
                spec_artifact_registry_v1(),
                intent,
                component_name,
            ),
{
    let registry = registry_v1();
    let r = registered_workload_boundary_input_in(&registry, intent, component_name);
    r
}

/// The execution binding of `component_name` for a declaration route: the
/// declaration's lowering input next to the shared workload boundary.
pub open spec fn spec_execution_binding_in(
    registry: MetalArtifactRegistry,
    intent: MetalExecutionIntent,
    component_name: &'static str,
    declaration_route: MetalGeneratedRouteKind,
) -> Result<RegisteredMetalExecutionBinding, MetalPlannerError<'static>> {
    match spec_registered_component_in_registry(
        registry,
        STWO_METAL_ARTIFACT_SCHEMA_VERSION_V1,
        component_name,
        declaration_route,
    ) {
        Err(e) => Err(e),
        Ok(declaration) => match spec_workload_boundary_input_in(registry, intent, component_name) {
            Err(e) => Err(e),
            Ok(workload_boundary) => Ok(
                RegisteredMetalExecutionBinding {
                    workload_boundary,
                    declaration_lowering: spec_lowering_input(declaration),
                    declaration_route,
                    supported_benchmark_operations: declaration.artifact.supported_benchmark_operations,
                },
            ),
        },
    }
}

fn registered_execution_binding_in(
    registry: &MetalArtifactRegistry,
    intent: MetalExecutionIntent,
    component_name: &'static str,
    declaration_route: MetalGeneratedRouteKind,
) -> (r: Result<RegisteredMetalExecutionBinding, MetalPlannerError<'static>>)
    ensures
        r == spec_execution_binding_in(*registry, intent, component_name, declaration_route),
        r is Ok ==> r->Ok_0.declaration_lowering.abi_family
            == r->Ok_0.workload_boundary.generated_inventory.abi_family,
        r is Ok ==> r->Ok_0.declaration_lowering.abi_symbols
            == r->Ok_0.workload_boundary.generated_inventory.abi_symbols,
{
    let declaration_registration = match registered_generated_component_in_registry(
        registry,
        STWO_METAL_ARTIFACT_SCHEMA_VERSION_V1,
        component_name,
        declaration_route,
    ) {
        Ok(d) => d,
        Err(e) => return Err(e),
    };
    let workload_boundary = match registered_workload_boundary_input_in(
        registry,
        intent,
        component_name,
    ) {
        Ok(w) => w,
        Err(e) => return Err(e),
    };
    // Both registrations come from the same manifest row, so their inventories agree.
    assert(declaration_registration.artifact.generated_inventory
        == workload_boundary.generated_inventory);
    Ok(
        RegisteredMetalExecutionBinding {
            workload_boundary,
            declaration_lowering: declaration_registration.lowering_input(),
            declaration_route,
            supported_benchmark_operations: declaration_registration.artifact.supported_benchmark_operations,
        },
    )
}


/// The execution binding of `component_name` for `declaration_route` against
/// the version-1 registry.
///
/// The declaration and the workload boundary always resolve to the same
/// manifest row, so their inventories agree.
pub fn registered_execution_binding(
    intent: MetalExecutionIntent,
    component_name: &'static str,
    declaration_route: MetalGeneratedRouteKind,
) -> (r: Result<RegisteredMetalExecutionBinding, MetalPlannerError<'static>>)
    ensures
        is_artifact_registry_v1(spec_artifact_registry_v1()),
        r == spec_execution_binding_in(
                spec_artifact_registry_v1(),
                intent,
                component_name,
                declaration_route,
            ),
        r is Ok ==> r->Ok_0.declaration_lowering.abi_family
            == r->Ok_0.workload_boundary.generated_inventory.abi_family,
        r is Ok ==> r->Ok_0.declaration_lowering.abi_symbols
            == r->Ok_0.workload_boundary.generated_inventory.abi_symbols,
{
    let registry = registry_v1();
    let r = registered_execution_binding_in(&registry, intent, component_name, declaration_route);
    r
}

pub open spec fn spec_execution_seed(b: RegisteredMetalExecutionBinding) -> RegisteredMetalExecutionSeed {
    RegisteredMetalExecutionSeed {
        component_name: b.declaration_lowering.component_name,
        route: b.declaration_route,
        plan: b.workload_boundary.plan,
        abi_symbols: b.declaration_lowering.abi_symbols,
        build_modules: b.declaration_lowering.build_modules,
        specialization_keys: b.declaration_lowering.specialization_keys,
        stage_assignments: b.workload_boundary.stage_assignments,
        witness_hook: b.declaration_lowering.witness_hook,
    }
}

impl RegisteredMetalExecutionBinding {
    /// Flattens the binding into a scheduling seed.
    pub fn execution_seed(self) -> (r: RegisteredMetalExecutionSeed)
        ensures
            r == spec_execution_seed(self),
    {
        RegisteredMetalExecutionSeed {
            component_name: self.declaration_lowering.component_name,
            route: self.declaration_route,
            plan: self.workload_boundary.plan,
            abi_symbols: self.declaration_lowering.abi_symbols,
            build_modules: self.declaration_lowering.build_modules,
            specialization_keys: self.declaration_lowering.specialization_keys,
            stage_assignments: self.workload_boundary.stage_assignments,
            witness_hook: self.declaration_lowering.witness_hook,
        }
    }
}

/// The execution seed of `component_name` for `declaration_route` against the
/// version-1 registry.
pub fn registered_execution_seed(
    intent: MetalExecutionIntent,
    component_name: &'static str,
    declaration_route: MetalGeneratedRouteKind,
) -> (r: Result<RegisteredMetalExecutionSeed, MetalPlannerError<'static>>)
    ensures
        is_artifact_registry_v1(spec_artifact_registry_v1()),
        r == (match spec_execution_binding_in(
                spec_artifact_registry_v1(),
                intent,
                component_name,
                declaration_route,
            ) {
                Ok(b) => Ok(spec_execution_seed(b)),
                Err(e) => Err(e),
            }),
{
    let registry = registry_v1();
    let r = match registered_execution_binding_in(&registry, intent, component_name, declaration_route) {
        Ok(b) => Ok(b.execution_seed()),
        Err(e) => Err(e),
    };
    r
}

/// A plan that puts at least the FRI sub-path on Metal.
pub open spec fn is_metal_capable(plan: MetalExecutionPlan) -> bool {
    plan == MetalExecutionPlan::MetalFriHybrid || plan == MetalExecutionPlan::MetalFull
}

/// What the seed accepts for a CPU-produced, FRI-ready evaluation.
pub open spec fn spec_allow_cpu_fri_ready(seed: RegisteredMetalExecutionSeed, domain_is_canonic: bool) -> Result<
    (),
    RegisteredMetalExecutionSeedError,
> {
    if !is_metal_capable(seed.plan) {
        Err(
            RegisteredMetalExecutionSeedError::PlanNotMetalCapable {
                component_name: seed.component_name,
                plan: seed.plan,
            },
        )
    } else if !domain_is_canonic {
        Err(RegisteredMetalExecutionSeedError::NonCanonicDomain { component_name: seed.component_name })
    } else {
        Ok(())
    }
}

/// What the seed accepts for a CPU-produced quotient evaluation.
pub open spec fn spec_allow_cpu_quotient(seed: RegisteredMetalExecutionSeed, domain_is_canonic: bool) -> Result<
    (),
    RegisteredMetalExecutionSeedError,
> {
    if spec_stage_ownership(seed.stage_assignments@, MetalWorkloadStage::QuotientEval) != Some(
        MetalWorkloadOwnership::CpuOwned,
    ) {
        Err(
            RegisteredMetalExecutionSeedError::UnsupportedCpuOwnership {
                component_name: seed.component_name,
                stage: MetalWorkloadStage::QuotientEval,
            },
        )
    } else {
        spec_allow_cpu_fri_ready(seed, domain_is_canonic)
    }
}

/// What the seed accepts as a CPU-owned wide-fibonacci witness.
pub open spec fn spec_allow_cpu_wide_fibonacci_witness(seed: RegisteredMetalExecutionSeed) -> Result<
    (),
    RegisteredMetalExecutionSeedError,
> {
    if spec_stage_ownership(seed.stage_assignments@, MetalWorkloadStage::WitnessMain) != Some(
        MetalWorkloadOwnership::CpuOwned,
    ) {
        Err(
            RegisteredMetalExecutionSeedError::UnsupportedCpuOwnership {
                component_name: seed.component_name,
                stage: MetalWorkloadStage::WitnessMain,
            },
        )
    } else if !(seed.component_name@ == "fibonacci_example"@ && seed.witness_hook is Some
        && seed.witness_hook->Some_0@ == "ingest_cpu_wide_fibonacci_witness"@) {
        Err(
            RegisteredMetalExecutionSeedError::UnsupportedWitnessHook {
                component_name: seed.component_name,
                witness_hook: seed.witness_hook,
            },
        )
    } else {
        Ok(())
    }
}

/// What the seed answers for a wide-fibonacci witness of the given shape.
pub open spec fn spec_validate_wide_fibonacci_witness_shape(
    seed: RegisteredMetalExecutionSeed,
    input_a_len: usize,
    input_b_len: usize,
    n_columns: u32,
) -> Result<(), RegisteredMetalExecutionSeedError> {
    match spec_allow_cpu_wide_fibonacci_witness(seed) {
        Err(e) => Err(e),
        Ok(_) => if input_a_len != input_b_len {
            Err(
                RegisteredMetalExecutionSeedError::WitnessInputLengthMismatch {
                    component_name: seed.component_name,
                    input_a_len,
                    input_b_len,
                },
            )
        } else if !spec_is_power_of_two(input_a_len as nat) {
            Err(
                RegisteredMetalExecutionSeedError::WitnessInputLengthNotPowerOfTwo {
                    component_name: seed.component_name,
                    input_len: input_a_len,
                },
            )
        } else if n_columns < 2 {
            Err(
                RegisteredMetalExecutionSeedError::InvalidWitnessColumnCount {
                    component_name: seed.component_name,
                    n_columns,
                },
            )
        } else {
            Ok(())
        },
    }
}

impl RegisteredMetalExecutionSeed {
    /// The ownership that the seed's stage assignments declare for `stage`.
    pub fn stage_ownership(self, stage: MetalWorkloadStage) -> (r: Option<MetalWorkloadOwnership>)
        ensures
            r == spec_stage_ownership(self.stage_assignments@, stage),
    {
        stage_ownership_in(self.stage_assignments, stage)
    }

    /// Accepts a CPU-produced FRI-ready evaluation over a domain whose
    /// canonicity has been determined.
    pub fn allow_cpu_fri_ready_evaluation_for(self, domain_is_canonic: bool) -> (r: Result<
        (),
        RegisteredMetalExecutionSeedError,
    >)
        ensures
            r == spec_allow_cpu_fri_ready(self, domain_is_canonic),
    {
        if !(self.plan == MetalExecutionPlan::MetalFriHybrid || self.plan
            == MetalExecutionPlan::MetalFull) {
            return Err(
                RegisteredMetalExecutionSeedError::PlanNotMetalCapable {
                    component_name: self.component_name,
                    plan: self.plan,
                },
            );
        }
        if !domain_is_canonic {
            return Err(
                RegisteredMetalExecutionSeedError::NonCanonicDomain {
                    component_name: self.component_name,
                },
            );
        }
        Ok(())
    }

    /// Accepts a CPU-produced FRI-ready evaluation over `domain`.
    pub fn allow_cpu_fri_ready_evaluation(
        self,
        domain: MetalCircleDomain,
    ) -> (r: Result<(), RegisteredMetalExecutionSeedError>)
        ensures
            r == spec_allow_cpu_fri_ready(self, spec_is_canonic(domain)),
    {
        let canonic = domain.is_canonic();
        self.allow_cpu_fri_ready_evaluation_for(canonic)
    }

    /// Accepts a CPU-produced quotient evaluation over a domain whose
    /// canonicity has been determined.
    pub fn allow_cpu_quotient_evaluation_for(self, domain_is_canonic: bool) -> (r: Result<
        (),
        RegisteredMetalExecutionSeedError,
    >)
        ensures
            r == spec_allow_cpu_quotient(self, domain_is_canonic),
    {
        if self.stage_ownership(MetalWorkloadStage::QuotientEval) != Some(
            MetalWorkloadOwnership::CpuOwned,
        ) {
            return Err(
                RegisteredMetalExecutionSeedError::UnsupportedCpuOwnership {
                    component_name: self.component_name,
                    stage: MetalWorkloadStage::QuotientEval,
                },
            );
        }
        self.allow_cpu_fri_ready_evaluation_for(domain_is_canonic)
    }

    /// Accepts a CPU-produced quotient evaluation over `domain`.
    pub fn allow_cpu_quotient_evaluation(
        self,
        domain: MetalCircleDomain,
    ) -> (r: Result<(), RegisteredMetalExecutionSeedError>)
        ensures
            r == spec_allow_cpu_quotient(self, spec_is_canonic(domain)),
    {
        let canonic = domain.is_canonic();
        self.allow_cpu_quotient_evaluation_for(canonic)
    }

    /// The FRI sub-path runs natively on Metal under a Metal-capable plan.
    pub fn supports_hybrid_fri_lane(self) -> (r: bool)
        ensures
            r == (is_metal_capable(self.plan) && spec_stage_ownership(
                self.stage_assignments@,
                MetalWorkloadStage::FriBlake2s,
            ) == Some(MetalWorkloadOwnership::MetalNative)),
    {
        (self.plan == MetalExecutionPlan::MetalFriHybrid || self.plan
            == MetalExecutionPlan::MetalFull) && self.stage_ownership(MetalWorkloadStage::FriBlake2s)
            == Some(MetalWorkloadOwnership::MetalNative)
    }

    /// Accepts a CPU-owned wide-fibonacci witness for this seed.
    pub fn allow_cpu_wide_fibonacci_witness(self) -> (r: Result<(), RegisteredMetalExecutionSeedError>)
        ensures
            r == spec_allow_cpu_wide_fibonacci_witness(self),
    {
        if self.stage_ownership(MetalWorkloadStage::WitnessMain) != Some(
            MetalWorkloadOwnership::CpuOwned,
        ) {
            return Err(
                RegisteredMetalExecutionSeedError::UnsupportedCpuOwnership {
                    component_name: self.component_name,
                    stage: MetalWorkloadStage::WitnessMain,
                },
            );
        }
        let hook_matches = match self.witness_hook {
            Some(hook) => str_eq(hook, "ingest_cpu_wide_fibonacci_witness"),
            None => false,
        };
        if !str_eq(self.component_name, "fibonacci_example") || !hook_matches {
            return Err(
                RegisteredMetalExecutionSeedError::UnsupportedWitnessHook {
                    component_name: self.component_name,
                    witness_hook: self.witness_hook,
                },
            );
        }
        Ok(())
    }

    /// Checks a wide-fibonacci witness shape and returns `log2` of its length.
    pub fn validate_wide_fibonacci_witness_shape(
        self,
        input_a_len: usize,
        input_b_len: usize,
        n_columns: u32,
    ) -> (r: Result<u32, RegisteredMetalExecutionSeedError>)
        ensures
            match (r, spec_validate_wide_fibonacci_witness_shape(self, input_a_len, input_b_len, n_columns)) {
                (Ok(log_n_instances), Ok(_)) => pow2(log_n_instances as nat) == input_a_len as nat,
                (Err(e), Err(f)) => e == f,
                _ => false,
            },
    {
        match self.allow_cpu_wide_fibonacci_witness() {
            Ok(_) => {},
            Err(e) => return Err(e),
        }
        if input_a_len != input_b_len {
            return Err(
                RegisteredMetalExecutionSeedError::WitnessInputLengthMismatch {
                    component_name: self.component_name,
                    input_a_len,
                    input_b_len,
                },
            );
        }
        let log = match exact_log2(input_a_len) {
            Some(k) => k,
            None => {
                return Err(
                    RegisteredMetalExecutionSeedError::WitnessInputLengthNotPowerOfTwo {
                        component_name: self.component_name,
                        input_len: input_a_len,
                    },
                );
            },
        };
        if n_columns < 2 {
            return Err(
                RegisteredMetalExecutionSeedError::InvalidWitnessColumnCount {
                    component_name: self.component_name,
                    n_columns,
                },
            );
        }
        Ok(log)
    }

    /// Builds the trace-generation request once the seed accepts the witness
    /// and declares both wide-fibonacci specialization keys.
    pub fn wide_fibonacci_trace_request<'a>(
        self,
        input_a: &'a [stwo::core::fields::m31::M31],
        input_b: &'a [stwo::core::fields::m31::M31],
        n_columns: u32,
    ) -> (r: Result<MetalWideFibonacciTraceRequest<'a>, RegisteredMetalExecutionSeedError>)
        ensures
            match spec_validate_wide_fibonacci_witness_shape(
                self,
                input_a@.len() as usize,
                input_b@.len() as usize,
                n_columns,
            ) {
                Err(e) => r == Err::<MetalWideFibonacciTraceRequest<'a>, _>(e),
                Ok(_) => if !(exists|i: int|
                    0 <= i < self.specialization_keys@.len()
                        && #[trigger] self.specialization_keys@[i]@ == "log_n_instances"@) {
                    r == Err::<MetalWideFibonacciTraceRequest<'a>, _>(
                        RegisteredMetalExecutionSeedError::MissingSpecializationKey {
                            component_name: self.component_name,
                            missing_key: "log_n_instances",
                        },
                    )
                } else if !(exists|i: int|
                    0 <= i < self.specialization_keys@.len()
                        && #[trigger] self.specialization_keys@[i]@ == "n_columns"@) {
                    r == Err::<MetalWideFibonacciTraceRequest<'a>, _>(
                        RegisteredMetalExecutionSeedError::MissingSpecializationKey {
                            component_name: self.component_name,
                            missing_key: "n_columns",
                        },
                    )
                } else {
                    r is Ok && r->Ok_0.input_a@ == input_a@ && r->Ok_0.input_b@ == input_b@
                        && r->Ok_0.n_columns == n_columns
                },
            },
    {
        match self.validate_wide_fibonacci_witness_shape(input_a.len(), input_b.len(), n_columns) {
            Ok(_) => {},
            Err(e) => return Err(e),
        }
        if !str_slice_contains(self.specialization_keys, "log_n_instances") {
            return Err(
                RegisteredMetalExecutionSeedError::MissingSpecializationKey {
                    component_name: self.component_name,
                    missing_key: "log_n_instances",
                },
            );
        }
        if !str_slice_contains(self.specialization_keys, "n_columns") {
            return Err(
                RegisteredMetalExecutionSeedError::MissingSpecializationKey {
                    component_name: self.component_name,
                    missing_key: "n_columns",
                },
            );
        }
        Ok(MetalWideFibonacciTraceRequest { input_a, input_b, n_columns })
    }
}

/// The plan for `operation` over the named components, each registered for
/// the registered-prove route.
pub open spec fn spec_plan_inputs_from<'a>(
    registry: MetalArtifactRegistry,
    expected_schema_version: u16,
    operation: MetalOperationKind,
    names: Seq<&'a str>,
    i: int,
) -> Result<Seq<MetalComponentPlanInput<'static>>, MetalPlannerError<'a>>
    decreases names.len() - i,
{
    if i < 0 || i >= names.len() {
        Ok(Seq::empty())
    } else {
        match spec_registered_component_in_registry(
            registry,
            expected_schema_version,
            names[i],
            MetalGeneratedRouteKind::RegisteredProve,
        ) {
            Err(e) => Err(e),
            Ok(c) => match spec_plan_inputs_from(
                registry,
                expected_schema_version,
                operation,
                names,
                i + 1,
            ) {
                Err(e) => Err(e),
                Ok(rest) => Ok(seq![spec_as_plan_input(c.artifact, operation)] + rest),
            },
        }
    }
}

pub open spec fn spec_plan_registered_operation<'a>(
    registry: MetalArtifactRegistry,
    expected_schema_version: u16,
    intent: MetalExecutionIntent,
    operation: MetalOperationKind,
    names: Seq<&'a str>,
) -> Result<RegisteredMetalExecutionPlan, MetalPlannerError<'a>> {
    match spec_plan_inputs_from(registry, expected_schema_version, operation, names, 0) {
        Err(e) => Err(e),
        Ok(inputs) => match spec_plan_metal_operation(intent, operation, inputs) {
            Err(problem) => Err(MetalPlannerError::Unsupported(problem)),
            Ok(plan) => Ok(
                RegisteredMetalExecutionPlan {
                    schema_version: registry.spec_schema_version(),
                    operation,
                    plan,
                },
            ),
        },
    }
}

/// Plans `operation` over registered components: the first name that fails to
/// register decides the error; otherwise the planner decides.
pub fn plan_registered_metal_operation<'a>(
    registry: &MetalArtifactRegistry,
    expected_schema_version: u16,
    intent: MetalExecutionIntent,
    operation: MetalOperationKind,
    component_names: &'a [&'a str],
) -> (r: Result<RegisteredMetalExecutionPlan, MetalPlannerError<'a>>)
    ensures
        r == spec_plan_registered_operation(
            *registry,
            expected_schema_version,
            intent,
            operation,
            component_names@,
        ),
{
    let mut inputs: Vec<MetalComponentPlanInput<'static>> = Vec::new();
    let mut i: usize = 0;
    while i < component_names.len()
        invariant
            i <= component_names@.len(),
            spec_plan_inputs_from(*registry, expected_schema_version, operation, component_names@, 0)
                == (match spec_plan_inputs_from(
                *registry,
                expected_schema_version,
                operation,
                component_names@,
                i as int,
            ) {
                Ok(rest) => Ok(inputs@ + rest),
                Err(e) => Err(e),
            }),
        decreases component_names@.len() - i,
    {
        match registered_generated_component_in_registry(
            registry,
            expected_schema_version,
            component_names[i],
            MetalGeneratedRouteKind::RegisteredProve,
        ) {
            Ok(registration) => {
                let input = registration.runtime_plan_input(operation).plan_input;
                proof {
                    let tail = spec_plan_inputs_from(
                        *registry,
                        expected_schema_version,
                        operation,
                        component_names@,
                        i + 1,
                    );
                    if tail is Ok {
                        assert(inputs@.push(input) + tail->Ok_0 == inputs@ + (seq![input]
                            + tail->Ok_0));
                    }
                }
                inputs.push(input);
            },
            Err(e) => return Err(e),
        }
        i = i + 1;
    }
    assert(inputs@ + Seq::<MetalComponentPlanInput<'static>>::empty() == inputs@);
    match plan_metal_operation(intent, operation, inputs.as_slice()) {
        Ok(plan) => Ok(
            RegisteredMetalExecutionPlan {
                schema_version: registry.schema_version(),
                operation,
                plan,
            },
        ),
        Err(problem) => Err(MetalPlannerError::Unsupported(problem)),
    }
}

/// Plans proving of the named components against the version-1 registry.
pub fn plan_registered_metal_prove<'a>(
    intent: MetalExecutionIntent,
    component_names: &'a [&'a str],
) -> (r: Result<RegisteredMetalExecutionPlan, MetalPlannerError<'a>>)
    ensures
        is_artifact_registry_v1(spec_artifact_registry_v1()),
        r == spec_plan_registered_operation(
                spec_artifact_registry_v1(),
                STWO_METAL_ARTIFACT_SCHEMA_VERSION_V1,
                intent,
                MetalOperationKind::Prove,
                component_names@,
            ),
{
    let registry = registry_v1();
    let r = plan_registered_metal_operation(
        &registry,
        STWO_METAL_ARTIFACT_SCHEMA_VERSION_V1,
        intent,
        MetalOperationKind::Prove,
        component_names,
    );
    r
}

} // verus!
