use vstd::prelude::*;

use crate::manifest::{
    is_blake_example_row, is_fibonacci_example_row, is_planner_manifest_v1, is_poseidon_example_row,
    is_state_machine_example_row, is_virtual_snos_row, is_xor_example_row, stwo_metal_planner_components_v1,
    GeneratedMetalInventoryEntry, GeneratedMetalPlannerComponent,
};
use crate::planner::{
    MetalComponentCapability, MetalComponentPlanInput, MetalOperationKind, MetalSupportTier,
};
use crate::text::str_eq;
use crate::workload_contract::MetalWorkloadStageAssignment;

verus! {

pub const STWO_METAL_ARTIFACT_SCHEMA_VERSION_V1: u16 = 1;

#[derive(Copy, Clone, Debug, PartialEq, Eq)]
pub struct MetalProducerIdentity {
    pub producer_name: &'static str,
    pub producer_version: &'static str,
    pub provenance: &'static str,
}

/// Where a component's generated code comes from and what it exposes.
#[derive(Copy, Clone, Debug, PartialEq, Eq)]
pub struct MetalGeneratedInventory {
    pub manifest_module: &'static str,
    pub manifest_lookup_fn: &'static str,
    pub manifest_version: u16,
    pub registration_key: &'static str,
    pub abi_family: &'static str,
    pub abi_symbols: &'static [&'static str],
    pub build_modules: &'static [&'static str],
    pub witness_hook: Option<&'static str>,
    pub specialization_keys: &'static [&'static str],
}

#[derive(Copy, Clone, Debug, PartialEq, Eq, Structural)]
pub enum MetalRegisteredBenchmarkOperation {
    TraceGeneration,
    ProveVerify,
}

#[derive(Copy, Clone, Debug, PartialEq, Eq, Structural)]
pub enum MetalGeneratedRouteKind {
    RegisteredProve,
    WorkloadBoundary,
    BenchmarkTraceGeneration,
    BenchmarkProveVerify,
}

/// A registered component as materialized from the manifest.
#[derive(Copy, Clone, Debug, PartialEq, Eq)]
pub struct MetalComponentArtifact {
    pub schema_version: u16,
    pub producer: MetalProducerIdentity,
    pub component_name: &'static str,
    pub workload_family: &'static str,
    pub support_tier: MetalSupportTier,
    pub declared_capabilities: &'static [MetalComponentCapability],
    pub required_prove_capabilities: &'static [MetalComponentCapability],
    pub supported_benchmark_operations: &'static [MetalRegisteredBenchmarkOperation],
    pub supported_generated_routes: &'static [MetalGeneratedRouteKind],
    pub stage_assignments: &'static [MetalWorkloadStageAssignment],
    pub generated_inventory: MetalGeneratedInventory,
}

pub open spec fn spec_as_plan_input(
    artifact: MetalComponentArtifact,
    operation: MetalOperationKind,
) -> MetalComponentPlanInput<'static> {
    MetalComponentPlanInput {
        component_name: artifact.component_name,
        support_tier: artifact.support_tier,
        declared_capabilities: artifact.declared_capabilities,
        required_capabilities: match operation {
            MetalOperationKind::Prove => artifact.required_prove_capabilities,
        },
    }
}

impl MetalComponentArtifact {
    /// The planner's view of this artifact for `operation`.
    pub fn as_plan_input(self, operation: MetalOperationKind) -> (r: MetalComponentPlanInput<
        'static,
    >)
        ensures
            r == spec_as_plan_input(self, operation),
    {
        let required_capabilities = match operation {
            MetalOperationKind::Prove => self.required_prove_capabilities,
        };
        MetalComponentPlanInput {
            component_name: self.component_name,
            support_tier: self.support_tier,
            declared_capabilities: self.declared_capabilities,
            required_capabilities,
        }
    }
}

#[derive(Copy, Clone, Debug, PartialEq, Eq)]
pub enum MetalArtifactLookupError<'a> {
    SchemaMismatch { expected: u16, found: u16 },
    UnknownComponent { component_name: &'a str },
}

#[derive(Copy, Clone, Debug, PartialEq, Eq)]
pub enum MetalArtifactSupportError<'a> {
    Lookup(MetalArtifactLookupError<'a>),
    UnsupportedGeneratedRoute { component_name: &'a str, route: MetalGeneratedRouteKind },
}

/// The registry of component artifacts, bound to one schema version.
#[derive(Clone, Debug)]
pub struct MetalArtifactRegistry {
    schema_version: u16,
    producer: MetalProducerIdentity,
    artifacts: Vec<GeneratedMetalPlannerComponent>,
}

/// The producer the version-1 registry names.
pub open spec fn spec_producer_v1() -> MetalProducerIdentity {
    MetalProducerIdentity {
        producer_name: "stwo-metal",
        producer_version: "planner-manifest-v1",
        provenance: "crates/stwo-metal/src/backend/metal/planner_manifest_v1_generated.rs",
    }
}

/// The version-1 registry: schema version 1, its producer, and the six rows
/// of the generated planner manifest.
pub open spec fn is_artifact_registry_v1(registry: MetalArtifactRegistry) -> bool {
    &&& registry.spec_schema_version() == STWO_METAL_ARTIFACT_SCHEMA_VERSION_V1
    &&& registry.spec_producer() == spec_producer_v1()
    &&& is_planner_manifest_v1(registry.spec_artifacts())
}

/// The version-1 registry, as the registry that the definition above pins down.
pub open spec fn spec_artifact_registry_v1() -> MetalArtifactRegistry {
    choose|registry: MetalArtifactRegistry| is_artifact_registry_v1(registry)
}

/// The version-1 registry over the generated planner manifest.
pub fn stwo_metal_artifact_registry_v1() -> (r: MetalArtifactRegistry)
    ensures
        is_artifact_registry_v1(r),
        is_artifact_registry_v1(spec_artifact_registry_v1()),
        r.same_contents(spec_artifact_registry_v1()),
{
    let r = MetalArtifactRegistry {
        schema_version: STWO_METAL_ARTIFACT_SCHEMA_VERSION_V1,
        producer: MetalProducerIdentity {
            producer_name: "stwo-metal",
            producer_version: "planner-manifest-v1",
            provenance: "crates/stwo-metal/src/backend/metal/planner_manifest_v1_generated.rs",
        },
        artifacts: stwo_metal_planner_components_v1(),
    };
    proof {
        lemma_artifact_registry_v1_unique(r, spec_artifact_registry_v1());
    }
    r
}

proof fn lemma_row_unique(a: GeneratedMetalPlannerComponent, b: GeneratedMetalPlannerComponent, k: int)
    requires
        0 <= k < 6,
        k == 0 ==> is_fibonacci_example_row(a) && is_fibonacci_example_row(b),
        k == 1 ==> is_poseidon_example_row(a) && is_poseidon_example_row(b),
        k == 2 ==> is_state_machine_example_row(a) && is_state_machine_example_row(b),
        k == 3 ==> is_blake_example_row(a) && is_blake_example_row(b),
        k == 4 ==> is_xor_example_row(a) && is_xor_example_row(b),
        k == 5 ==> is_virtual_snos_row(a) && is_virtual_snos_row(b),
    ensures
        a == b,
{
    assert(a.declared_capabilities =~= b.declared_capabilities);
    assert(a.required_prove_capabilities =~= b.required_prove_capabilities);
    assert(a.supported_benchmark_operations =~= b.supported_benchmark_operations);
    assert(a.supported_generated_routes =~= b.supported_generated_routes);
    assert(a.stage_assignments =~= b.stage_assignments);
    assert(a.generated_inventory.abi_symbols =~= b.generated_inventory.abi_symbols);
    assert(a.generated_inventory.build_modules =~= b.generated_inventory.build_modules);
    assert(a.generated_inventory.specialization_keys =~= b.generated_inventory.specialization_keys);
    assert(a.generated_inventory == b.generated_inventory);
}

/// Any two version-1 registries hold the same schema, producer and rows; so
/// there is one, and the spec registry is one.
pub proof fn lemma_artifact_registry_v1_unique(a: MetalArtifactRegistry, b: MetalArtifactRegistry)
    requires
        is_artifact_registry_v1(a),
    ensures
        is_artifact_registry_v1(spec_artifact_registry_v1()),
        is_artifact_registry_v1(b) ==> a.same_contents(b),
{
    assert(exists|r: MetalArtifactRegistry| is_artifact_registry_v1(r));
    if is_artifact_registry_v1(b) {
        let (x, y) = (a.spec_artifacts(), b.spec_artifacts());
        assert forall|k: int| 0 <= k < 6 implies #[trigger] x[k] == y[k] by {
            lemma_row_unique(x[k], y[k], k);
        }
        assert(x =~= y);
    }
}

/// The index of the first manifest row (from `i` on) named `name`.
pub open spec fn first_named_from(
    artifacts: Seq<GeneratedMetalPlannerComponent>,
    name: Seq<char>,
    i: int,
) -> Option<int>
    decreases artifacts.len() - i,
{
    if i < 0 || i >= artifacts.len() {
        None
    } else if artifacts[i].component_name@ == name {
        Some(i)
    } else {
        first_named_from(artifacts, name, i + 1)
    }
}

pub open spec fn spec_generated_inventory(entry: GeneratedMetalInventoryEntry) -> MetalGeneratedInventory {
    MetalGeneratedInventory {
        manifest_module: "planner_manifest_v1_generated",
        manifest_lookup_fn: "STWO_METAL_PLANNER_COMPONENTS_V1.iter().find",
        manifest_version: 1,
        registration_key: entry.registration_key,
        abi_family: entry.abi_family,
        abi_symbols: entry.abi_symbols,
        build_modules: entry.build_modules,
        witness_hook: entry.witness_hook,
        specialization_keys: entry.specialization_keys,
    }
}

impl MetalArtifactRegistry {
    pub closed spec fn spec_schema_version(&self) -> u16 {
        self.schema_version
    }

    pub closed spec fn spec_producer(&self) -> MetalProducerIdentity {
        self.producer
    }

    pub closed spec fn spec_artifacts(&self) -> Seq<GeneratedMetalPlannerComponent> {
        self.artifacts@
    }

    /// Two registries with the same schema version, producer and rows.
    pub open spec fn same_contents(&self, other: MetalArtifactRegistry) -> bool {
        &&& self.spec_schema_version() == other.spec_schema_version()
        &&& self.spec_producer() == other.spec_producer()
        &&& self.spec_artifacts() == other.spec_artifacts()
    }

    /// The artifact materialized from one manifest row.
    pub open spec fn spec_component_artifact(
        &self,
        component: GeneratedMetalPlannerComponent,
    ) -> MetalComponentArtifact {
        MetalComponentArtifact {
            schema_version: self.spec_schema_version(),
            producer: self.spec_producer(),
            component_name: component.component_name,
            workload_family: component.workload_family,
            support_tier: component.support_tier,
            declared_capabilities: component.declared_capabilities,
            required_prove_capabilities: component.required_prove_capabilities,
            supported_benchmark_operations: component.supported_benchmark_operations,
            supported_generated_routes: component.supported_generated_routes,
            stage_assignments: component.stage_assignments,
            generated_inventory: spec_generated_inventory(component.generated_inventory),
        }
    }

    /// What a lookup by name and expected schema version gives.
    pub open spec fn spec_artifact_by_name<'a>(
        &self,
        component_name: &'a str,
        expected_schema_version: u16,
    ) -> Result<MetalComponentArtifact, MetalArtifactLookupError<'a>> {
        if self.spec_schema_version() != expected_schema_version {
            Err(
                MetalArtifactLookupError::SchemaMismatch {
                    expected: expected_schema_version,
                    found: self.spec_schema_version(),
                },
            )
        } else {
            match first_named_from(self.spec_artifacts(), component_name@, 0) {
                None => Err(MetalArtifactLookupError::UnknownComponent { component_name }),
                Some(i) => Ok(self.spec_component_artifact(self.spec_artifacts()[i])),
            }
        }
    }

    /// What a lookup that also demands support for `route` gives.
    pub open spec fn spec_artifact_supporting_generated_route<'a>(
        &self,
        component_name: &'a str,
        expected_schema_version: u16,
        route: MetalGeneratedRouteKind,
    ) -> Result<MetalComponentArtifact, MetalArtifactSupportError<'a>> {
        match self.spec_artifact_by_name(component_name, expected_schema_version) {
            Err(e) => Err(MetalArtifactSupportError::Lookup(e)),
            Ok(artifact) => if artifact.supported_generated_routes@.contains(route) {
                Ok(artifact)
            } else {
                Err(MetalArtifactSupportError::UnsupportedGeneratedRoute { component_name, route })
            },
        }
    }

    pub fn schema_version(&self) -> (r: u16)
        ensures
            r == self.spec_schema_version(),
    {
        self.schema_version
    }

    /// Fails with `SchemaMismatch` exactly when the registry's schema differs.
    pub fn require_schema<'a>(&self, expected_schema_version: u16) -> (r: Result<
        (),
        MetalArtifactLookupError<'a>,
    >)
        ensures
            r == (if self.spec_schema_version() == expected_schema_version {
                Ok::<(), MetalArtifactLookupError<'a>>(())
            } else {
                Err(
                    MetalArtifactLookupError::SchemaMismatch {
                        expected: expected_schema_version,
                        found: self.spec_schema_version(),
                    },
                )
            }),
    {
        if self.schema_version != expected_schema_version {
            return Err(
                MetalArtifactLookupError::SchemaMismatch {
                    expected: expected_schema_version,
                    found: self.schema_version,
                },
            );
        }
        Ok(())
    }

    /// Looks up the first manifest row named `component_name`.
    pub fn artifact_by_name<'a>(&self, component_name: &'a str, expected_schema_version: u16) -> (r:
        Result<MetalComponentArtifact, MetalArtifactLookupError<'a>>)
        ensures
            r == self.spec_artifact_by_name(component_name, expected_schema_version),
    {
        if let Err(e) = self.require_schema(expected_schema_version) {
            return Err(e);
        }
        let mut i: usize = 0;
        while i < self.artifacts.len()
            invariant
                i <= self.artifacts@.len(),
                self.spec_schema_version() == expected_schema_version,
                first_named_from(self.artifacts@, component_name@, 0) == first_named_from(
                    self.artifacts@,
                    component_name@,
                    i as int,
                ),
            decreases self.artifacts@.len() - i,
        {
            if str_eq(self.artifacts[i].component_name, component_name) {
                return Ok(self.component_artifact(&self.artifacts[i]));
            }
            i = i + 1;
        }
        Err(MetalArtifactLookupError::UnknownComponent { component_name })
    }

    /// Looks up `component_name` and requires that it supports `route`.
    pub fn artifact_supporting_generated_route<'a>(
        &self,
        component_name: &'a str,
        expected_schema_version: u16,
        route: MetalGeneratedRouteKind,
    ) -> (r: Result<MetalComponentArtifact, MetalArtifactSupportError<'a>>)
        ensures
            r == self.spec_artifact_supporting_generated_route(
                component_name,
                expected_schema_version,
                route,
            ),
    {
        let artifact = match self.artifact_by_name(component_name, expected_schema_version) {
            Ok(a) => a,
            Err(e) => return Err(MetalArtifactSupportError::Lookup(e)),
        };
        if !routes_contain(artifact.supported_generated_routes, route) {
            return Err(MetalArtifactSupportError::UnsupportedGeneratedRoute { component_name, route });
        }
        Ok(artifact)
    }

    /// The generated inventory of the component named `component_name`.
    pub fn generated_inventory_by_name<'a>(
        &self,
        component_name: &'a str,
        expected_schema_version: u16,
    ) -> (r: Result<MetalGeneratedInventory, MetalArtifactLookupError<'a>>)
        ensures
            r == (match self.spec_artifact_by_name(component_name, expected_schema_version) {
                Ok(a) => Ok(a.generated_inventory),
                Err(e) => Err(e),
            }),
    {
        match self.artifact_by_name(component_name, expected_schema_version) {
            Ok(a) => Ok(a.generated_inventory),
            Err(e) => Err(e),
        }
    }

    fn component_artifact(&self, component: &GeneratedMetalPlannerComponent) -> (r:
        MetalComponentArtifact)
        ensures
            r == self.spec_component_artifact(*component),
    {
        MetalComponentArtifact {
            schema_version: self.schema_version,
            producer: self.producer,
            component_name: component.component_name,
            workload_family: component.workload_family,
            support_tier: component.support_tier,
            declared_capabilities: component.declared_capabilities,
            required_prove_capabilities: component.required_prove_capabilities,
            supported_benchmark_operations: component.supported_benchmark_operations,
            supported_generated_routes: component.supported_generated_routes,
            stage_assignments: component.stage_assignments,
            generated_inventory: self.generated_inventory(component.generated_inventory),
        }
    }

    fn generated_inventory(&self, entry: GeneratedMetalInventoryEntry) -> (r: MetalGeneratedInventory)
        ensures
            r == spec_generated_inventory(entry),
    {
        MetalGeneratedInventory {
            manifest_module: "planner_manifest_v1_generated",
            manifest_lookup_fn: "STWO_METAL_PLANNER_COMPONENTS_V1.iter().find",
            manifest_version: 1,
            registration_key: entry.registration_key,
            abi_family: entry.abi_family,
            abi_symbols: entry.abi_symbols,
            build_modules: entry.build_modules,
            witness_hook: entry.witness_hook,
            specialization_keys: entry.specialization_keys,
        }
    }
}

/// Whether `routes` holds `route`.
pub fn routes_contain(routes: &[MetalGeneratedRouteKind], route: MetalGeneratedRouteKind) -> (r: bool)
    ensures
        r == routes@.contains(route),
{
    let mut i: usize = 0;
    while i < routes.len()
        invariant
            i <= routes@.len(),
            forall|j: int| 0 <= j < i ==> routes@[j] != route,
        decreases routes@.len() - i,
    {
        if routes[i] == route {
            return true;
        }
        i = i + 1;
    }
    false
}

} // verus!
