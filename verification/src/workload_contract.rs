use vstd::prelude::*;

verus! {

/// A stage of a proving workload whose ownership is declared explicitly.
#[derive(Copy, Clone, Debug, PartialEq, Eq, Structural, Hash)]
pub enum MetalWorkloadStage {
    WitnessMain,
    WitnessInteraction,
    QuotientEval,
    PcsCommitment,
    FriBlake2s,
}

/// Who executes a workload stage.
#[derive(Copy, Clone, Debug, PartialEq, Eq, Structural, Hash)]
pub enum MetalWorkloadOwnership {
    CpuOwned,
    MetalNative,
    NotApplicable,
}

/// The declared owner of one workload stage, with a human-readable reason.
#[derive(Copy, Clone, Debug, PartialEq, Eq)]
pub struct MetalWorkloadStageAssignment {
    pub stage: MetalWorkloadStage,
    pub ownership: MetalWorkloadOwnership,
    pub detail: &'static str,
}

/// The ownership recorded for `stage` by the first assignment that names it.
pub open spec fn stage_ownership_from(
    assignments: Seq<MetalWorkloadStageAssignment>,
    stage: MetalWorkloadStage,
    i: int,
) -> Option<MetalWorkloadOwnership>
    decreases assignments.len() - i,
{
    if i < 0 || i >= assignments.len() {
        None
    } else if assignments[i].stage == stage {
        Some(assignments[i].ownership)
    } else {
        stage_ownership_from(assignments, stage, i + 1)
    }
}

pub open spec fn spec_stage_ownership(
    assignments: Seq<MetalWorkloadStageAssignment>,
    stage: MetalWorkloadStage,
) -> Option<MetalWorkloadOwnership> {
    stage_ownership_from(assignments, stage, 0)
}

/// Looks up the ownership of `stage` in `assignments` (first match wins).
pub fn stage_ownership_in(
    assignments: &[MetalWorkloadStageAssignment],
    stage: MetalWorkloadStage,
) -> (r: Option<MetalWorkloadOwnership>)
    ensures
        r == spec_stage_ownership(assignments@, stage),
{
    let mut i: usize = 0;
    while i < assignments.len()
        invariant
            i <= assignments@.len(),
            stage_ownership_from(assignments@, stage, 0) == stage_ownership_from(
                assignments@,
                stage,
                i as int,
            ),
        decreases assignments@.len() - i,
    {
        if assignments[i].stage == stage {
            return Some(assignments[i].ownership);
        }
        i = i + 1;
    }
    None
}

} // verus!
