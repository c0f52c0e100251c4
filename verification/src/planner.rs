use vstd::prelude::*;

use crate::artifact::{MetalArtifactRegistry, MetalGeneratedRouteKind, STWO_METAL_ARTIFACT_SCHEMA_VERSION_V1};
use crate::artifact::{is_artifact_registry_v1, spec_artifact_registry_v1};
use crate::execution_plan::{plan_registered_metal_prove, spec_plan_registered_operation};

verus! {

/// How strongly the caller wants the operation to run on Metal.
#[derive(Copy, Clone, Debug, PartialEq, Eq, Structural)]
pub enum MetalExecutionIntent {
    ForceCpu,
    PreferMetal,
    RequireMetal,
}

#[derive(Copy, Clone, Debug, PartialEq, Eq, Structural)]
pub enum MetalOperationKind {
    Prove,
}

#[derive(Copy, Clone, Debug, PartialEq, Eq, Structural, Hash)]
pub enum MetalComponentCapability {
    FriBlake2sSubpath,
    QuotientEval,
    WitnessMain,
    WitnessInteraction,
    PcsCommitment,
}

#[derive(Copy, Clone, Debug, PartialEq, Eq, Structural)]
pub enum MetalSupportTier {
    FriOnly,
    HybridFriMetal,
    FullWorkload,
}

#[derive(Copy, Clone, Debug, PartialEq, Eq, Structural)]
pub enum MetalExecutionPlan {
    CpuOnly,
    MetalFriHybrid,
    MetalFull,
}

#[derive(Copy, Clone, Debug, PartialEq, Eq)]
pub struct UnsupportedMetalPlan<'a> {
    pub component_name: &'a str,
    pub missing_capability: MetalComponentCapability,
    pub intent: MetalExecutionIntent,
    pub operation: MetalOperationKind,
}

#[derive(Copy, Clone, Debug, PartialEq, Eq)]
pub struct UnknownMetalComponent<'a> {
    pub component_name: &'a str,
    pub operation: MetalOperationKind,
}

#[derive(Copy, Clone, Debug, PartialEq, Eq)]
pub struct UnsupportedGeneratedMetalRoute<'a> {
    pub component_name: &'a str,
    pub route: MetalGeneratedRouteKind,
}

#[derive(Copy, Clone, Debug, PartialEq, Eq)]
pub enum MetalPlannerError<'a> {
    UnknownComponent(UnknownMetalComponent<'a>),
    Unsupported(UnsupportedMetalPlan<'a>),
    UnsupportedGeneratedRoute(UnsupportedGeneratedMetalRoute<'a>),
}

/// One component's declared and required capabilities, as the planner sees it.
#[derive(Copy, Clone, Debug)]
pub struct MetalComponentPlanInput<'a> {
    pub component_name: &'a str,
    pub support_tier: MetalSupportTier,
    pub declared_capabilities: &'a [MetalComponentCapability],
    pub required_capabilities: &'a [MetalComponentCapability],
}

/// The first capability of `required`, from index `i` on, that `declared` lacks.
pub open spec fn first_missing_from(
    declared: Seq<MetalComponentCapability>,
    required: Seq<MetalComponentCapability>,
    i: int,
) -> Option<MetalComponentCapability>
    decreases required.len() - i,
{
    if i < 0 || i >= required.len() {
        None
    } else if !declared.contains(required[i]) {
        Some(required[i])
    } else {
        first_missing_from(declared, required, i + 1)
    }
}

/// The first required capability that the component does not declare.
pub open spec fn spec_first_missing_capability(input: MetalComponentPlanInput) -> Option<
    MetalComponentCapability,
> {
    first_missing_from(input.declared_capabilities@, input.required_capabilities@, 0)
}

/// The first component (from index `i` on) with a missing capability, as a planning problem.
pub open spec fn first_problem_from<'a>(
    intent: MetalExecutionIntent,
    operation: MetalOperationKind,
    components: Seq<MetalComponentPlanInput<'a>>,
    i: int,
) -> Option<UnsupportedMetalPlan<'a>>
    decreases components.len() - i,
{
    if i < 0 || i >= components.len() {
        None
    } else {
        match spec_first_missing_capability(components[i]) {
            Some(missing_capability) => Some(
                UnsupportedMetalPlan {
                    component_name: components[i].component_name,
                    missing_capability,
                    intent,
                    operation,
                },
            ),
            None => first_problem_from(intent, operation, components, i + 1),
        }
    }
}

/// Every component declares the bounded Blake2s FRI sub-path.
pub open spec fn all_declare_fri_subpath(components: Seq<MetalComponentPlanInput>) -> bool {
    forall|i: int|
        0 <= i < components.len() ==> #[trigger] components[i].declared_capabilities@.contains(
            MetalComponentCapability::FriBlake2sSubpath,
        )
}

/// The plan chosen for an operation over the given components.
pub open spec fn spec_plan_metal_operation<'a>(
    intent: MetalExecutionIntent,
    operation: MetalOperationKind,
    components: Seq<MetalComponentPlanInput<'a>>,
) -> Result<MetalExecutionPlan, UnsupportedMetalPlan<'a>> {
    if intent == MetalExecutionIntent::ForceCpu {
        Ok(MetalExecutionPlan::CpuOnly)
    } else {
        match first_problem_from(intent, operation, components, 0) {
            None => Ok(MetalExecutionPlan::MetalFull),
            Some(problem) => if intent == MetalExecutionIntent::PreferMetal {
                if all_declare_fri_subpath(components) {
                    Ok(MetalExecutionPlan::MetalFriHybrid)
                } else {
                    Ok(MetalExecutionPlan::CpuOnly)
                }
            } else {
                Err(problem)
            },
        }
    }
}

/// Whether `caps` holds `cap`.
pub fn capabilities_contain(caps: &[MetalComponentCapability], cap: MetalComponentCapability) -> (r:
    bool)
    ensures
        r == caps@.contains(cap),
{
    let mut i: usize = 0;
    while i < caps.len()
        invariant
            i <= caps@.len(),
            forall|j: int| 0 <= j < i ==> caps@[j] != cap,
        decreases caps@.len() - i,
    {
        if caps[i] == cap {
            return true;
        }
        i = i + 1;
    }
    false
}

impl<'a> MetalComponentPlanInput<'a> {
    /// The first required capability that this component does not declare.
    pub fn first_missing_capability(self) -> (r: Option<MetalComponentCapability>)
        ensures
            r == spec_first_missing_capability(self),
    {
        let mut i: usize = 0;
        while i < self.required_capabilities.len()
            invariant
                i <= self.required_capabilities@.len(),
                spec_first_missing_capability(self) == first_missing_from(
                    self.declared_capabilities@,
                    self.required_capabilities@,
                    i as int,
                ),
            decreases self.required_capabilities@.len() - i,
        {
            let required = self.required_capabilities[i];
            if !capabilities_contain(self.declared_capabilities, required) {
                return Some(required);
            }
            i = i + 1;
        }
        None
    }
}

/// The first component that lacks a required capability, as a planning problem.
fn first_planning_problem<'a>(
    intent: MetalExecutionIntent,
    operation: MetalOperationKind,
    components: &[MetalComponentPlanInput<'a>],
) -> (r: Option<UnsupportedMetalPlan<'a>>)
    ensures
        r == first_problem_from(intent, operation, components@, 0),
{
    let mut i: usize = 0;
    while i < components.len()
        invariant
            i <= components@.len(),
            first_problem_from(intent, operation, components@, 0) == first_problem_from(
                intent,
                operation,
                components@,
                i as int,
            ),
        decreases components@.len() - i,
    {
        let component = components[i];
        match component.first_missing_capability() {
            Some(missing_capability) => {
                return Some(
                    UnsupportedMetalPlan {
                        component_name: component.component_name,
                        missing_capability,
                        intent,
                        operation,
                    },
                );
            },
            None => {},
        }
        i = i + 1;
    }
    None
}

/// Chooses CPU, hybrid FRI, or full Metal execution for an operation.
///
/// `ForceCpu` always plans CPU; a component set with no missing capability plans
/// full Metal; otherwise `PreferMetal` falls back to the FRI hybrid when every
/// component declares the FRI sub-path (else CPU), and `RequireMetal` reports
/// the first component's first missing capability.
pub fn plan_metal_operation<'a>(
    intent: MetalExecutionIntent,
    operation: MetalOperationKind,
    components: &[MetalComponentPlanInput<'a>],
) -> (r: Result<MetalExecutionPlan, UnsupportedMetalPlan<'a>>)
    ensures
        r == spec_plan_metal_operation(intent, operation, components@),
{
    if intent == MetalExecutionIntent::ForceCpu {
        return Ok(MetalExecutionPlan::CpuOnly);
    }
    let missing = first_planning_problem(intent, operation, components);
    match missing {
        None => Ok(MetalExecutionPlan::MetalFull),
        Some(problem) => {
            if intent == MetalExecutionIntent::PreferMetal {
                let mut all_fri = true;
                let mut k: usize = 0;
                while k < components.len()
                    invariant
                        k <= components@.len(),
                        all_fri == (forall|j: int|
                            0 <= j < k ==> #[trigger] components@[j].declared_capabilities@.contains(
                                MetalComponentCapability::FriBlake2sSubpath,
                            )),
                    decreases components@.len() - k,
                {
                    if !capabilities_contain(
                        components[k].declared_capabilities,
                        MetalComponentCapability::FriBlake2sSubpath,
                    ) {
                        all_fri = false;
                    }
                    k = k + 1;
                }
                if all_fri {
                    Ok(MetalExecutionPlan::MetalFriHybrid)
                } else {
                    Ok(MetalExecutionPlan::CpuOnly)
                }
            } else {
                Err(problem)
            }
        },
    }
}


/// Plans proving of the named exemplar components against the version-1 registry.
pub fn plan_exemplar_metal_prove_by_name<'a>(
    intent: MetalExecutionIntent,
    component_names: &'a [&'a str],
) -> (r: Result<MetalExecutionPlan, MetalPlannerError<'a>>)
    ensures
        is_artifact_registry_v1(spec_artifact_registry_v1()),
        r == (match spec_plan_registered_operation(
                spec_artifact_registry_v1(),
                STWO_METAL_ARTIFACT_SCHEMA_VERSION_V1,
                intent,
                MetalOperationKind::Prove,
                component_names@,
            ) {
                Ok(p) => Ok(p.plan),
                Err(e) => Err(e),
            }),
{
    match plan_registered_metal_prove(intent, component_names) {
        Ok(p) => Ok(p.plan),
        Err(e) => Err(e),
    }
}


/// Whether the component declares every capability it requires.
pub open spec fn declares_all_required(input: MetalComponentPlanInput) -> bool {
    forall|k: int|
        0 <= k < input.required_capabilities@.len() ==> input.declared_capabilities@.contains(
            #[trigger] input.required_capabilities@[k],
        )
}

proof fn lemma_first_missing_from(
    declared: Seq<MetalComponentCapability>,
    required: Seq<MetalComponentCapability>,
    i: int,
)
    requires
        0 <= i,
    ensures
        first_missing_from(declared, required, i) is None <==> (forall|k: int|
            i <= k < required.len() ==> declared.contains(#[trigger] required[k])),
        first_missing_from(declared, required, i) matches Some(c) ==> required.contains(c) && !declared.contains(c),
    decreases required.len() - i,
{
    if i < required.len() {
        lemma_first_missing_from(declared, required, i + 1);
        if !declared.contains(required[i]) {
            assert(required.contains(required[i]));
        } else if forall|k: int| i + 1 <= k < required.len() ==> declared.contains(#[trigger] required[k]) {
            assert forall|k: int| i <= k < required.len() implies declared.contains(#[trigger] required[k]) by {
                if k > i {
                    assert(i + 1 <= k);
                }
            }
        }
    }
}

proof fn lemma_first_problem_from<'a>(
    intent: MetalExecutionIntent,
    operation: MetalOperationKind,
    components: Seq<MetalComponentPlanInput<'a>>,
    i: int,
)
    requires
        0 <= i,
    ensures
        first_problem_from(intent, operation, components, i) is None <==> (forall|k: int|
            i <= k < components.len() ==> declares_all_required(#[trigger] components[k])),
        first_problem_from(intent, operation, components, i) matches Some(p) ==> exists|k: int|
            i <= k < components.len() && p.component_name == (#[trigger] components[k]).component_name
                && components[k].required_capabilities@.contains(p.missing_capability)
                && !components[k].declared_capabilities@.contains(p.missing_capability) && p.intent == intent
                && p.operation == operation,
    decreases components.len() - i,
{
    if i < components.len() {
        lemma_first_problem_from(intent, operation, components, i + 1);
        let c = components[i];
        lemma_first_missing_from(c.declared_capabilities@, c.required_capabilities@, 0);
        if spec_first_missing_capability(c) is None && (forall|k: int|
            i + 1 <= k < components.len() ==> declares_all_required(#[trigger] components[k])) {
            assert forall|k: int| i <= k < components.len() implies declares_all_required(#[trigger] components[k]) by {
                if k == i {
                    assert(declares_all_required(c));
                }
            }
        }
        if spec_first_missing_capability(c) is Some {
            assert(!declares_all_required(c));
        }
    }
}

/// How the planner decides. Forcing the CPU always plans `CpuOnly`.
/// Otherwise, when every component declares each capability it requires,
/// the plan is `MetalFull`. When some component lacks one, a Metal
/// preference falls back to the FRI hybrid if every component declares the
/// Blake2s FRI sub-path and to the CPU if not, while a Metal requirement
/// fails naming a component, a capability it requires but does not
/// declare, and the intent and operation.
pub proof fn lemma_plan_decision<'a>(
    intent: MetalExecutionIntent,
    operation: MetalOperationKind,
    components: Seq<MetalComponentPlanInput<'a>>,
)
    ensures
        intent == MetalExecutionIntent::ForceCpu ==> spec_plan_metal_operation(intent, operation, components) == Ok::<
            MetalExecutionPlan,
            UnsupportedMetalPlan<'a>,
        >(MetalExecutionPlan::CpuOnly),
        intent != MetalExecutionIntent::ForceCpu && (forall|k: int|
            0 <= k < components.len() ==> declares_all_required(#[trigger] components[k]))
            ==> spec_plan_metal_operation(intent, operation, components) == Ok::<
            MetalExecutionPlan,
            UnsupportedMetalPlan<'a>,
        >(MetalExecutionPlan::MetalFull),
        intent == MetalExecutionIntent::PreferMetal && (exists|k: int|
            0 <= k < components.len() && !declares_all_required(#[trigger] components[k]))
            ==> spec_plan_metal_operation(intent, operation, components) == Ok::<
            MetalExecutionPlan,
            UnsupportedMetalPlan<'a>,
        >(
            if all_declare_fri_subpath(components) {
                MetalExecutionPlan::MetalFriHybrid
            } else {
                MetalExecutionPlan::CpuOnly
            },
        ),
        intent == MetalExecutionIntent::RequireMetal && (exists|k: int|
            0 <= k < components.len() && !declares_all_required(#[trigger] components[k]))
            ==> (spec_plan_metal_operation(intent, operation, components) matches Err(p) && exists|k: int|
            0 <= k < components.len() && p.component_name == (#[trigger] components[k]).component_name
                && components[k].required_capabilities@.contains(p.missing_capability)
                && !components[k].declared_capabilities@.contains(p.missing_capability) && p.intent == intent
                && p.operation == operation),
{
    lemma_first_problem_from(intent, operation, components, 0);
}

} // verus!
