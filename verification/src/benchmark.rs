use vstd::prelude::*;
use vstd::arithmetic::power2::pow2;

use crate::artifact::{MetalGeneratedRouteKind, MetalRegisteredBenchmarkOperation};
use crate::eval_lowering::OwnedMetalEvaluationProgramV1;
use crate::eval_program::MetalEvaluationProgramBudgetV1;
use crate::execution_plan::{
    registered_execution_binding, spec_execution_binding_in, spec_execution_seed,
    spec_validate_wide_fibonacci_witness_shape, RegisteredMetalExecutionSeed,
    RegisteredMetalExecutionSeedError, RegisteredMetalWorkloadBoundaryInput,
};
use crate::artifact::{is_artifact_registry_v1, spec_artifact_registry_v1, MetalArtifactRegistry};
use crate::planner::{MetalExecutionIntent, MetalPlannerError};
use crate::lowering::{
    lower_registered_metal_evaluation_program_v1, registered_lowering_outcome,
    MetalEvaluationProgramLoweringError, MetalEvaluationProgramSpecializationV1,
};
use crate::planner::MetalExecutionPlan;
use crate::workload_contract::{spec_stage_ownership, MetalWorkloadOwnership, MetalWorkloadStage};

verus! {

#[derive(Copy, Clone, Debug, PartialEq, Eq, Structural)]
pub enum MetalBenchmarkOperation {
    TraceGeneration,
    ProveVerify,
}

#[derive(Copy, Clone, Debug, PartialEq, Eq, Structural)]
pub enum MetalBenchmarkReferencePlatform {
    Rtx4090Cuda,
}

/// A benchmark the Metal backend is measured against: what it runs, at
/// which size, and the reference platform's time in whole milliseconds.
#[derive(Copy, Clone, Debug, PartialEq, Eq)]
pub struct MetalBenchmarkTarget {
    pub benchmark_id: &'static str,
    pub workload_name: &'static str,
    pub family: &'static str,
    pub operation: MetalBenchmarkOperation,
    pub log_n_instances: u32,
    pub n_columns: u32,
    pub reference_platform: MetalBenchmarkReferencePlatform,
    pub reference_elapsed_ms: u32,
}

/// Wide-Fibonacci trace generation at `2^20` instances of 100 columns,
/// against 90 ms on an RTX 4090.
pub fn wide_fibonacci_trace_log20_target() -> (r: MetalBenchmarkTarget)
    ensures
        r.benchmark_id@ == "wide_fibonacci_trace_generation_v1"@,
        r.workload_name@ == "fibonacci_example"@,
        r.family@ == "wide_fibonacci"@,
        r.operation == MetalBenchmarkOperation::TraceGeneration,
        r.log_n_instances == 20,
        r.n_columns == 100,
        r.reference_platform == MetalBenchmarkReferencePlatform::Rtx4090Cuda,
        r.reference_elapsed_ms == 90,
{
    MetalBenchmarkTarget {
        benchmark_id: "wide_fibonacci_trace_generation_v1",
        workload_name: "fibonacci_example",
        family: "wide_fibonacci",
        operation: MetalBenchmarkOperation::TraceGeneration,
        log_n_instances: 20,
        n_columns: 100,
        reference_platform: MetalBenchmarkReferencePlatform::Rtx4090Cuda,
        reference_elapsed_ms: 90,
    }
}

/// Wide-Fibonacci proving and verification at `2^20` instances of 100
/// columns, against 90 ms on an RTX 4090.
pub fn wide_fibonacci_prove_log20_target() -> (r: MetalBenchmarkTarget)
    ensures
        r.benchmark_id@ == "wide_fibonacci_prove_verify_v1"@,
        r.workload_name@ == "fibonacci_example"@,
        r.family@ == "wide_fibonacci"@,
        r.operation == MetalBenchmarkOperation::ProveVerify,
        r.log_n_instances == 20,
        r.n_columns == 100,
        r.reference_platform == MetalBenchmarkReferencePlatform::Rtx4090Cuda,
        r.reference_elapsed_ms == 90,
{
    MetalBenchmarkTarget {
        benchmark_id: "wide_fibonacci_prove_verify_v1",
        workload_name: "fibonacci_example",
        family: "wide_fibonacci",
        operation: MetalBenchmarkOperation::ProveVerify,
        log_n_instances: 20,
        n_columns: 100,
        reference_platform: MetalBenchmarkReferencePlatform::Rtx4090Cuda,
        reference_elapsed_ms: 90,
    }
}

#[derive(Copy, Clone, Debug, PartialEq, Eq)]
pub enum MetalBenchmarkLaneError {
    PlanNotMetalCapable { workload_name: &'static str, plan: MetalExecutionPlan },
    UnsupportedWitnessOwnership { workload_name: &'static str, stage: MetalWorkloadStage },
    UnsupportedFriOwnership { workload_name: &'static str, stage: MetalWorkloadStage },
}

#[derive(Copy, Clone, Debug, PartialEq, Eq, Structural)]
pub enum MetalBenchmarkInputError {
    UnsupportedWitnessOwnership,
    InvalidColumnCount { n_columns: u32 },
    InputLengthMismatch { expected_len: usize, actual_a: usize, actual_b: usize },
}

#[derive(Copy, Clone, Debug, PartialEq, Eq)]
pub enum MetalBenchmarkProgramError {
    UnsupportedComponent { workload_name: &'static str },
    InvalidSpecialization { workload_name: &'static str, n_columns: u32 },
    RegisterBudgetOverflow { workload_name: &'static str },
    InvalidProgramContract { workload_name: &'static str },
}

#[derive(Copy, Clone, Debug, PartialEq, Eq, Structural)]
pub enum MetalBenchmarkTraceShapeError {
    LengthMismatch { expected_len: usize, actual_len: usize },
    ColumnCountMismatch { expected_columns: u32, actual_columns: u32 },
}

/// The generated route a benchmark operation runs through.
pub open spec fn spec_benchmark_route(operation: MetalBenchmarkOperation) -> MetalGeneratedRouteKind {
    match operation {
        MetalBenchmarkOperation::TraceGeneration => MetalGeneratedRouteKind::BenchmarkTraceGeneration,
        MetalBenchmarkOperation::ProveVerify => MetalGeneratedRouteKind::BenchmarkProveVerify,
    }
}

/// The generated route a benchmark operation runs through.
pub fn benchmark_route(operation: MetalBenchmarkOperation) -> (r: MetalGeneratedRouteKind)
    ensures
        r == spec_benchmark_route(operation),
{
    match operation {
        MetalBenchmarkOperation::TraceGeneration => MetalGeneratedRouteKind::BenchmarkTraceGeneration,
        MetalBenchmarkOperation::ProveVerify => MetalGeneratedRouteKind::BenchmarkProveVerify,
    }
}

/// The registered benchmark operation an artifact must support for
/// `operation`.
pub fn registered_benchmark_operation(operation: MetalBenchmarkOperation) -> (r: MetalRegisteredBenchmarkOperation)
    ensures
        r == (match operation {
            MetalBenchmarkOperation::TraceGeneration => MetalRegisteredBenchmarkOperation::TraceGeneration,
            MetalBenchmarkOperation::ProveVerify => MetalRegisteredBenchmarkOperation::ProveVerify,
        }),
{
    match operation {
        MetalBenchmarkOperation::TraceGeneration => MetalRegisteredBenchmarkOperation::TraceGeneration,
        MetalBenchmarkOperation::ProveVerify => MetalRegisteredBenchmarkOperation::ProveVerify,
    }
}

/// The verdict on a benchmark's prove-values lane: a Metal-capable plan, a
/// CPU-owned witness, and a Metal-native FRI, checked in that order.
pub open spec fn spec_benchmark_prove_values_lane(
    workload_name: &'static str,
    seed: RegisteredMetalExecutionSeed,
) -> Result<&'static str, MetalBenchmarkLaneError> {
    if seed.plan != MetalExecutionPlan::MetalFriHybrid && seed.plan != MetalExecutionPlan::MetalFull {
        Err(MetalBenchmarkLaneError::PlanNotMetalCapable { workload_name, plan: seed.plan })
    } else if spec_stage_ownership(seed.stage_assignments@, MetalWorkloadStage::WitnessMain) != Some(
        MetalWorkloadOwnership::CpuOwned,
    ) {
        Err(MetalBenchmarkLaneError::UnsupportedWitnessOwnership { workload_name, stage: MetalWorkloadStage::WitnessMain })
    } else if spec_stage_ownership(seed.stage_assignments@, MetalWorkloadStage::FriBlake2s) != Some(
        MetalWorkloadOwnership::MetalNative,
    ) {
        Err(MetalBenchmarkLaneError::UnsupportedFriOwnership { workload_name, stage: MetalWorkloadStage::FriBlake2s })
    } else {
        Ok(workload_name)
    }
}

/// Checks that a benchmark's execution seed supports the prove-values lane;
/// gives the workload name.
pub fn validate_benchmark_prove_values_lane(
    workload_name: &'static str,
    seed: RegisteredMetalExecutionSeed,
) -> (r: Result<&'static str, MetalBenchmarkLaneError>)
    ensures
        r == spec_benchmark_prove_values_lane(workload_name, seed),
{
    match seed.plan {
        MetalExecutionPlan::MetalFriHybrid | MetalExecutionPlan::MetalFull => {},
        _ => {
            return Err(MetalBenchmarkLaneError::PlanNotMetalCapable { workload_name, plan: seed.plan });
        },
    }
    if seed.stage_ownership(MetalWorkloadStage::WitnessMain) != Some(MetalWorkloadOwnership::CpuOwned) {
        return Err(
            MetalBenchmarkLaneError::UnsupportedWitnessOwnership { workload_name, stage: MetalWorkloadStage::WitnessMain },
        );
    }
    if seed.stage_ownership(MetalWorkloadStage::FriBlake2s) != Some(MetalWorkloadOwnership::MetalNative) {
        return Err(
            MetalBenchmarkLaneError::UnsupportedFriOwnership { workload_name, stage: MetalWorkloadStage::FriBlake2s },
        );
    }
    Ok(workload_name)
}

/// The verdict on CPU witness inputs of lengths `input_a_len` and
/// `input_b_len` for a benchmark of `2^log_n_instances` instances over
/// `n_columns` columns: the seed's witness-shape check first (its errors
/// mapped to benchmark errors), then the column count, then the exact lengths. On success,
/// the instance log-size.
pub open spec fn spec_benchmark_witness_inputs(
    seed: RegisteredMetalExecutionSeed,
    log_n_instances: u32,
    n_columns: u32,
    input_a_len: usize,
    input_b_len: usize,
) -> Result<u32, MetalBenchmarkInputError> {
    let expected_len = pow2(log_n_instances as nat) as usize;
    match spec_validate_wide_fibonacci_witness_shape(seed, input_a_len, input_b_len, n_columns) {
        Err(RegisteredMetalExecutionSeedError::InvalidWitnessColumnCount { n_columns, .. }) => Err(
            MetalBenchmarkInputError::InvalidColumnCount { n_columns },
        ),
        Err(RegisteredMetalExecutionSeedError::WitnessInputLengthMismatch { input_a_len, input_b_len, .. }) => Err(
            MetalBenchmarkInputError::InputLengthMismatch { expected_len, actual_a: input_a_len, actual_b: input_b_len },
        ),
        Err(RegisteredMetalExecutionSeedError::WitnessInputLengthNotPowerOfTwo { input_len, .. }) => Err(
            MetalBenchmarkInputError::InputLengthMismatch { expected_len, actual_a: input_len, actual_b: input_b_len },
        ),
        Err(_) => Err(MetalBenchmarkInputError::UnsupportedWitnessOwnership),
        Ok(_) => if n_columns < 3 {
            Err(MetalBenchmarkInputError::InvalidColumnCount { n_columns })
        } else if input_a_len != expected_len || input_b_len != expected_len {
            Err(
                MetalBenchmarkInputError::InputLengthMismatch {
                    expected_len,
                    actual_a: input_a_len,
                    actual_b: input_b_len,
                },
            )
        } else {
            Ok(log_n_instances)
        },
    }
}

/// Checks CPU witness inputs against a benchmark's seed and target shape;
/// gives the instance log-size.
pub fn check_benchmark_witness_inputs(
    seed: RegisteredMetalExecutionSeed,
    log_n_instances: u32,
    n_columns: u32,
    input_a_len: usize,
    input_b_len: usize,
) -> (r: Result<u32, MetalBenchmarkInputError>)
    requires
        log_n_instances < usize::BITS,
    ensures
        r == spec_benchmark_witness_inputs(seed, log_n_instances, n_columns, input_a_len, input_b_len),
{
    let shift: usize = log_n_instances as usize;
    proof {
        vstd::bits::lemma_usize_pow2_no_overflow(shift as nat);
        vstd::bits::lemma_usize_shl_is_mul(1, shift);
    }
    let expected_len: usize = 1usize << shift;
    let log = match seed.validate_wide_fibonacci_witness_shape(input_a_len, input_b_len, n_columns) {
        Err(RegisteredMetalExecutionSeedError::InvalidWitnessColumnCount { n_columns, .. }) => {
            return Err(MetalBenchmarkInputError::InvalidColumnCount { n_columns });
        },
        Err(RegisteredMetalExecutionSeedError::WitnessInputLengthMismatch { input_a_len, input_b_len, .. }) => {
            return Err(
                MetalBenchmarkInputError::InputLengthMismatch {
                    expected_len,
                    actual_a: input_a_len,
                    actual_b: input_b_len,
                },
            );
        },
        Err(RegisteredMetalExecutionSeedError::WitnessInputLengthNotPowerOfTwo { input_len, .. }) => {
            return Err(
                MetalBenchmarkInputError::InputLengthMismatch { expected_len, actual_a: input_len, actual_b: input_b_len },
            );
        },
        Err(_) => {
            return Err(MetalBenchmarkInputError::UnsupportedWitnessOwnership);
        },
        Ok(log) => log,
    };
    if n_columns < 3 {
        return Err(MetalBenchmarkInputError::InvalidColumnCount { n_columns });
    }
    if log != log_n_instances || input_a_len != expected_len || input_b_len != expected_len {
        proof {
            if log < log_n_instances {
                vstd::arithmetic::power2::lemma_pow2_strictly_increases(log as nat, log_n_instances as nat);
            } else if log > log_n_instances {
                vstd::arithmetic::power2::lemma_pow2_strictly_increases(log_n_instances as nat, log as nat);
            }
        }
        return Err(
            MetalBenchmarkInputError::InputLengthMismatch { expected_len, actual_a: input_a_len, actual_b: input_b_len },
        );
    }
    Ok(log)
}

/// Register budget benchmark programs are checked against.
pub const BENCHMARK_PROGRAM_MAX_BASE_REGS: u32 = 2048u32;
pub const BENCHMARK_PROGRAM_MAX_EXT_REGS: u32 = 512u32;

/// The benchmark error for a lowering error.
pub open spec fn spec_benchmark_program_error(
    workload_name: &'static str,
    e: MetalEvaluationProgramLoweringError,
) -> MetalBenchmarkProgramError {
    match e {
        MetalEvaluationProgramLoweringError::UnsupportedComponent { .. } => MetalBenchmarkProgramError::UnsupportedComponent {
            workload_name,
        },
        MetalEvaluationProgramLoweringError::InvalidWideFibonacciColumnCount { n_columns } =>
            MetalBenchmarkProgramError::InvalidSpecialization { workload_name, n_columns },
        MetalEvaluationProgramLoweringError::InvalidVirtualSnosColumnCount { n_columns } =>
            MetalBenchmarkProgramError::InvalidSpecialization { workload_name, n_columns },
        MetalEvaluationProgramLoweringError::RegisterBudgetOverflow => MetalBenchmarkProgramError::RegisterBudgetOverflow {
            workload_name,
        },
        _ => MetalBenchmarkProgramError::InvalidProgramContract { workload_name },
    }
}

/// Lowers the benchmark's workload program and checks it against the
/// benchmark register budget.
pub fn benchmark_evaluation_program_v1(
    workload_name: &'static str,
    log_n_instances: u32,
    n_columns: u32,
) -> (r: Result<OwnedMetalEvaluationProgramV1, MetalBenchmarkProgramError>)
    ensures
        exists|lowered: Result<OwnedMetalEvaluationProgramV1, MetalEvaluationProgramLoweringError>|
            registered_lowering_outcome(
                lowered,
                workload_name,
                MetalEvaluationProgramSpecializationV1 { log_n_rows: log_n_instances, n_columns },
            ) && match lowered {
                Err(e) => r == Err::<OwnedMetalEvaluationProgramV1, MetalBenchmarkProgramError>(
                    spec_benchmark_program_error(workload_name, e),
                ),
                Ok(p) => if p.spec_validate(
                    MetalEvaluationProgramBudgetV1 {
                        max_base_regs: BENCHMARK_PROGRAM_MAX_BASE_REGS,
                        max_ext_regs: BENCHMARK_PROGRAM_MAX_EXT_REGS,
                    },
                ) is Ok {
                    r == Ok::<OwnedMetalEvaluationProgramV1, MetalBenchmarkProgramError>(p)
                } else {
                    r == Err::<OwnedMetalEvaluationProgramV1, MetalBenchmarkProgramError>(
                        MetalBenchmarkProgramError::InvalidProgramContract { workload_name },
                    )
                },
            },
{
    let lowered = lower_registered_metal_evaluation_program_v1(
        workload_name,
        MetalEvaluationProgramSpecializationV1 { log_n_rows: log_n_instances, n_columns },
    );
    let program = match lowered {
        Err(e) => {
            let mapped = match e {
                MetalEvaluationProgramLoweringError::UnsupportedComponent { .. } =>
                    MetalBenchmarkProgramError::UnsupportedComponent { workload_name },
                MetalEvaluationProgramLoweringError::InvalidWideFibonacciColumnCount { n_columns } =>
                    MetalBenchmarkProgramError::InvalidSpecialization { workload_name, n_columns },
                MetalEvaluationProgramLoweringError::InvalidVirtualSnosColumnCount { n_columns } =>
                    MetalBenchmarkProgramError::InvalidSpecialization { workload_name, n_columns },
                MetalEvaluationProgramLoweringError::RegisterBudgetOverflow =>
                    MetalBenchmarkProgramError::RegisterBudgetOverflow { workload_name },
                _ => MetalBenchmarkProgramError::InvalidProgramContract { workload_name },
            };
            return Err(mapped);
        },
        Ok(program) => program,
    };
    match program.validate(
        MetalEvaluationProgramBudgetV1::new(BENCHMARK_PROGRAM_MAX_BASE_REGS, BENCHMARK_PROGRAM_MAX_EXT_REGS),
    ) {
        Err(_) => Err(MetalBenchmarkProgramError::InvalidProgramContract { workload_name }),
        Ok(()) => Ok(program),
    }
}

/// The verdict on a generated trace's shape against the benchmark target:
/// `2^log_n_instances` rows, then `n_columns` columns.
pub open spec fn spec_benchmark_trace_shape(
    log_n_instances: u32,
    n_columns: u32,
    trace_input_len: usize,
    trace_n_columns: u32,
) -> Result<(), MetalBenchmarkTraceShapeError> {
    let expected_len = pow2(log_n_instances as nat) as usize;
    if trace_input_len != expected_len {
        Err(MetalBenchmarkTraceShapeError::LengthMismatch { expected_len, actual_len: trace_input_len })
    } else if trace_n_columns != n_columns {
        Err(
            MetalBenchmarkTraceShapeError::ColumnCountMismatch {
                expected_columns: n_columns,
                actual_columns: trace_n_columns,
            },
        )
    } else {
        Ok(())
    }
}

/// Checks a generated trace's shape against the benchmark target.
pub fn check_benchmark_trace_shape(
    log_n_instances: u32,
    n_columns: u32,
    trace_input_len: usize,
    trace_n_columns: u32,
) -> (r: Result<(), MetalBenchmarkTraceShapeError>)
    requires
        log_n_instances < usize::BITS,
    ensures
        r == spec_benchmark_trace_shape(log_n_instances, n_columns, trace_input_len, trace_n_columns),
{
    let shift: usize = log_n_instances as usize;
    proof {
        vstd::bits::lemma_usize_pow2_no_overflow(shift as nat);
        vstd::bits::lemma_usize_shl_is_mul(1, shift);
    }
    let expected_len: usize = 1usize << shift;
    if trace_input_len != expected_len {
        return Err(MetalBenchmarkTraceShapeError::LengthMismatch { expected_len, actual_len: trace_input_len });
    }
    if trace_n_columns != n_columns {
        return Err(
            MetalBenchmarkTraceShapeError::ColumnCountMismatch {
                expected_columns: n_columns,
                actual_columns: trace_n_columns,
            },
        );
    }
    Ok(())
}


// ---------------------------------------------------------------------------
// The wide-Fibonacci benchmark boundary.
// ---------------------------------------------------------------------------

/// CPU witness inputs accepted by a benchmark boundary, with the execution
/// seed that will generate the trace from them.
#[derive(Clone, Debug)]
pub struct MetalWideFibonacciWitnessInputs {
    log_n_instances: u32,
    n_columns: u32,
    input_a: Vec<stwo::core::fields::m31::M31>,
    input_b: Vec<stwo::core::fields::m31::M31>,
    pub execution_seed: RegisteredMetalExecutionSeed,
}

impl MetalWideFibonacciWitnessInputs {
    pub closed spec fn spec_log_n_instances(&self) -> u32 {
        self.log_n_instances
    }

    pub closed spec fn spec_n_columns(&self) -> u32 {
        self.n_columns
    }

    pub closed spec fn spec_input_a(&self) -> Seq<stwo::core::fields::m31::M31> {
        self.input_a@
    }

    pub closed spec fn spec_input_b(&self) -> Seq<stwo::core::fields::m31::M31> {
        self.input_b@
    }

    pub closed spec fn spec_seed(&self) -> RegisteredMetalExecutionSeed {
        self.execution_seed
    }

    pub fn log_n_instances(&self) -> (r: u32)
        ensures
            r == self.spec_log_n_instances(),
    {
        self.log_n_instances
    }

    pub fn n_columns(&self) -> (r: u32)
        ensures
            r == self.spec_n_columns(),
    {
        self.n_columns
    }

    pub fn input_a(&self) -> (r: &[stwo::core::fields::m31::M31])
        ensures
            r@ == self.spec_input_a(),
    {
        self.input_a.as_slice()
    }

    pub fn input_b(&self) -> (r: &[stwo::core::fields::m31::M31])
        ensures
            r@ == self.spec_input_b(),
    {
        self.input_b.as_slice()
    }
}

/// The declared boundary of a wide-Fibonacci benchmark: the workload's
/// registered boundary, the benchmark target, and the execution seed of the
/// benchmark's route.
#[derive(Clone, Debug)]
pub struct MetalWideFibonacciBenchmarkBoundary {
    workload_boundary: RegisteredMetalWorkloadBoundaryInput,
    target: MetalBenchmarkTarget,
    execution_seed: RegisteredMetalExecutionSeed,
}

impl MetalWideFibonacciBenchmarkBoundary {
    pub closed spec fn spec_workload_boundary(&self) -> RegisteredMetalWorkloadBoundaryInput {
        self.workload_boundary
    }

    pub closed spec fn spec_target(&self) -> MetalBenchmarkTarget {
        self.target
    }

    pub closed spec fn spec_execution_seed(&self) -> RegisteredMetalExecutionSeed {
        self.execution_seed
    }

    pub fn workload_boundary(&self) -> (r: &RegisteredMetalWorkloadBoundaryInput)
        ensures
            *r == self.spec_workload_boundary(),
    {
        &self.workload_boundary
    }

    pub fn target(&self) -> (r: &MetalBenchmarkTarget)
        ensures
            *r == self.spec_target(),
    {
        &self.target
    }

    /// Checks that the benchmark's seed supports the prove-values lane;
    /// gives the workload name.
    pub fn validate_prove_values_lane(&self) -> (r: Result<&'static str, MetalBenchmarkLaneError>)
        ensures
            r == spec_benchmark_prove_values_lane(
                self.spec_workload_boundary().lowering.component_name,
                self.spec_execution_seed(),
            ),
    {
        validate_benchmark_prove_values_lane(self.workload_boundary.lowering.component_name, self.execution_seed)
    }

    /// Accepts CPU witness inputs of the target's shape, keeping a copy of
    /// them with the execution seed.
    pub fn ingest_cpu_witness_inputs(
        &self,
        input_a: &[stwo::core::fields::m31::M31],
        input_b: &[stwo::core::fields::m31::M31],
    ) -> (r: Result<MetalWideFibonacciWitnessInputs, MetalBenchmarkInputError>)
        requires
            self.spec_target().log_n_instances < usize::BITS,
        ensures
            match spec_benchmark_witness_inputs(
                self.spec_execution_seed(),
                self.spec_target().log_n_instances,
                self.spec_target().n_columns,
                input_a@.len() as usize,
                input_b@.len() as usize,
            ) {
                Err(e) => r == Err::<MetalWideFibonacciWitnessInputs, _>(e),
                Ok(log) => r is Ok && {
                    let inputs = r->Ok_0;
                    &&& inputs.spec_log_n_instances() == log
                    &&& inputs.spec_n_columns() == self.spec_target().n_columns
                    &&& inputs.spec_input_a() == input_a@
                    &&& inputs.spec_input_b() == input_b@
                    &&& inputs.spec_seed() == self.spec_execution_seed()
                },
            },
    {
        let log = match check_benchmark_witness_inputs(
            self.execution_seed,
            self.target.log_n_instances,
            self.target.n_columns,
            input_a.len(),
            input_b.len(),
        ) {
            Err(e) => {
                return Err(e);
            },
            Ok(log) => log,
        };
        Ok(
            MetalWideFibonacciWitnessInputs {
                log_n_instances: log,
                n_columns: self.target.n_columns,
                input_a: copy_field_values(input_a),
                input_b: copy_field_values(input_b),
                execution_seed: self.execution_seed,
            },
        )
    }

    /// Lowers the benchmark's workload program at the target's shape and
    /// checks it against the benchmark register budget.
    pub fn evaluation_program_v1(&self) -> (r: Result<OwnedMetalEvaluationProgramV1, MetalBenchmarkProgramError>)
        ensures
            exists|lowered: Result<OwnedMetalEvaluationProgramV1, MetalEvaluationProgramLoweringError>|
                registered_lowering_outcome(
                    lowered,
                    self.spec_workload_boundary().lowering.component_name,
                    MetalEvaluationProgramSpecializationV1 {
                        log_n_rows: self.spec_target().log_n_instances,
                        n_columns: self.spec_target().n_columns,
                    },
                ) && match lowered {
                    Err(e) => r == Err::<OwnedMetalEvaluationProgramV1, MetalBenchmarkProgramError>(
                        spec_benchmark_program_error(self.spec_workload_boundary().lowering.component_name, e),
                    ),
                    Ok(p) => if p.spec_validate(
                        MetalEvaluationProgramBudgetV1 {
                            max_base_regs: BENCHMARK_PROGRAM_MAX_BASE_REGS,
                            max_ext_regs: BENCHMARK_PROGRAM_MAX_EXT_REGS,
                        },
                    ) is Ok {
                        r == Ok::<OwnedMetalEvaluationProgramV1, MetalBenchmarkProgramError>(p)
                    } else {
                        r == Err::<OwnedMetalEvaluationProgramV1, MetalBenchmarkProgramError>(
                            MetalBenchmarkProgramError::InvalidProgramContract {
                                workload_name: self.spec_workload_boundary().lowering.component_name,
                            },
                        )
                    },
                },
    {
        benchmark_evaluation_program_v1(
            self.workload_boundary.lowering.component_name,
            self.target.log_n_instances,
            self.target.n_columns,
        )
    }
}

/// Copies a slice of field elements.
fn copy_field_values(src: &[stwo::core::fields::m31::M31]) -> (r: Vec<stwo::core::fields::m31::M31>)
    ensures
        r@ == src@,
{
    let mut out: Vec<stwo::core::fields::m31::M31> = Vec::new();
    let mut i: usize = 0;
    while i < src.len()
        invariant
            i <= src@.len(),
            out@ == src@.take(i as int),
        decreases src@.len() - i,
    {
        out.push(src[i]);
        assert(out@ =~= src@.take(i + 1));
        i = i + 1;
    }
    assert(src@.take(src@.len() as int) =~= src@);
    out
}

/// The registered binding of a benchmark target's route, when it has one,
/// agrees with the target: same workload family in the boundary and the
/// declaration, and the target's operation among the supported ones.
pub open spec fn benchmark_target_agrees(
    registry: MetalArtifactRegistry,
    intent: MetalExecutionIntent,
    target: MetalBenchmarkTarget,
) -> bool {
    match spec_execution_binding_in(registry, intent, target.workload_name, spec_benchmark_route(target.operation)) {
        Ok(b) => {
            &&& b.workload_boundary.lowering.workload_family@ == target.family@
            &&& b.declaration_lowering.workload_family@ == target.family@
            &&& b.supported_benchmark_operations@.contains(
                match target.operation {
                    MetalBenchmarkOperation::TraceGeneration => MetalRegisteredBenchmarkOperation::TraceGeneration,
                    MetalBenchmarkOperation::ProveVerify => MetalRegisteredBenchmarkOperation::ProveVerify,
                },
            )
        },
        Err(_) => true,
    }
}

/// Declares the boundary of a wide-Fibonacci benchmark: the registered
/// binding of the target's benchmark route, or the planner's refusal.
///
/// A target that its registered binding contradicts (another workload
/// family, or an operation the artifact does not support) is no valid input.
pub fn declare_wide_fibonacci_benchmark_boundary(
    intent: MetalExecutionIntent,
    target: MetalBenchmarkTarget,
) -> (r: Result<MetalWideFibonacciBenchmarkBoundary, MetalPlannerError<'static>>)
    requires
        benchmark_target_agrees(spec_artifact_registry_v1(), intent, target),
    ensures
        is_artifact_registry_v1(spec_artifact_registry_v1()),
        match spec_execution_binding_in(
                spec_artifact_registry_v1(),
                intent,
                target.workload_name,
                spec_benchmark_route(target.operation),
            ) {
                Ok(b) => r is Ok && {
                    let boundary = r->Ok_0;
                    &&& boundary.spec_workload_boundary() == b.workload_boundary
                    &&& boundary.spec_target() == target
                    &&& boundary.spec_execution_seed() == spec_execution_seed(b)
                },
                Err(e) => r == Err::<MetalWideFibonacciBenchmarkBoundary, MetalPlannerError<'static>>(e),
            },
{
    let route = benchmark_route(target.operation);
    let binding = registered_execution_binding(intent, target.workload_name, route);
    match binding {
        Err(e) => Err(e),
        Ok(b) => Ok(
            MetalWideFibonacciBenchmarkBoundary {
                workload_boundary: b.workload_boundary,
                target,
                execution_seed: b.execution_seed(),
            },
        ),
    }
}

} // verus!
