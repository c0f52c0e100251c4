use vstd::prelude::*;
use vstd::string::StringExecFns;

use crate::eval_dispatch::MetalEvaluationProgramExecutionError;
use crate::eval_interpreter::MetalEvaluationProgramInterpreterError;
use crate::eval_lowering::OwnedMetalEvaluationProgramV1;
use crate::field_ops::{
    base_inverse, base_mul, is_canonical, m31_inverse, m31_mul, qm31, qm31_mul, secure_mul, MetalSecureCirclePointV1,
    M31_P,
};
use crate::quotient_staging::{bit_reverse_index, bit_reverse_spec, lemma_bit_reverse_below};
use vstd::arithmetic::power2::pow2;
use crate::planner::MetalExecutionPlan;
use crate::sampled_values::{
    all_values_canonical, interpret_metal_sampled_values_v1_reference, is_lowering_of,
    lower_metal_sampled_values_v1, lowering_error_from, nested_view, shape_outcome,
    spec_sampled_values_abi_layout_v1, wide_fibonacci_post_composition_value,
    MetalSampledValuesExecutionError,
    MetalSampledValuesLoweringError, MetalSecureFieldValueV1, OwnedMetalSampledValuesV1,
};
use crate::text::{decimal_chars, push_decimal};
use crate::workload_contract::{MetalWorkloadOwnership, MetalWorkloadStage};

verus! {

/// A lowered evaluation program with the workload shape the prove flow needs.
pub struct MetalProveRuntimeContextV1 {
    program: OwnedMetalEvaluationProgramV1,
    log_n_rows: u32,
    skip_reference_sanity_check: bool,
}

impl MetalProveRuntimeContextV1 {
    pub closed spec fn spec_program(&self) -> OwnedMetalEvaluationProgramV1 {
        self.program
    }

    pub closed spec fn spec_log_n_rows(&self) -> u32 {
        self.log_n_rows
    }

    pub closed spec fn spec_skip_reference_sanity_check(&self) -> bool {
        self.skip_reference_sanity_check
    }

    /// A context that keeps the reference sanity check.
    pub fn new(program: OwnedMetalEvaluationProgramV1, log_n_rows: u32) -> (r: Self)
        ensures
            r.spec_program() == program,
            r.spec_log_n_rows() == log_n_rows,
            !r.spec_skip_reference_sanity_check(),
    {
        Self { program, log_n_rows, skip_reference_sanity_check: false }
    }

    pub fn program(&self) -> (r: &OwnedMetalEvaluationProgramV1)
        ensures
            *r == self.spec_program(),
    {
        &self.program
    }

    pub fn log_n_rows(&self) -> (r: u32)
        ensures
            r == self.spec_log_n_rows(),
    {
        self.log_n_rows
    }

    /// The number of constraints the program declares.
    pub fn n_constraints(&self) -> (r: u32)
        ensures
            r == self.spec_program().spec_header().n_constraints,
    {
        self.program.header().n_constraints
    }

    /// The same context, skipping (or not) the reference-interpreter
    /// cross-check of the selected sampled-values result.
    pub fn with_skip_reference_sanity_check(self, skip: bool) -> (r: Self)
        ensures
            r.spec_program() == self.spec_program(),
            r.spec_log_n_rows() == self.spec_log_n_rows(),
            r.spec_skip_reference_sanity_check() == skip,
    {
        Self { program: self.program, log_n_rows: self.log_n_rows, skip_reference_sanity_check: skip }
    }

    pub fn skip_reference_sanity_check(&self) -> (r: bool)
        ensures
            r == self.spec_skip_reference_sanity_check(),
    {
        self.skip_reference_sanity_check
    }
}

/// What one component contributes to a standalone composition: its program,
/// trace size, and parameters.
pub struct MetalComponentContextV1 {
    pub program: OwnedMetalEvaluationProgramV1,
    pub log_n_rows: u32,
    pub base_params: Vec<u32>,
    pub ext_params: Vec<MetalSecureFieldValueV1>,
}

impl MetalComponentContextV1 {
    pub fn new(
        program: OwnedMetalEvaluationProgramV1,
        log_n_rows: u32,
        base_params: Vec<u32>,
        ext_params: Vec<MetalSecureFieldValueV1>,
    ) -> (r: Self)
        ensures
            r.program == program,
            r.log_n_rows == log_n_rows,
            r.base_params@ == base_params@,
            r.ext_params@ == ext_params@,
    {
        Self { program, log_n_rows, base_params, ext_params }
    }

    pub fn program(&self) -> (r: &OwnedMetalEvaluationProgramV1)
        ensures
            *r == self.program,
    {
        &self.program
    }

    pub fn log_n_rows(&self) -> (r: u32)
        ensures
            r == self.log_n_rows,
    {
        self.log_n_rows
    }

    pub fn n_constraints(&self) -> (r: u32)
        ensures
            r == self.program.spec_header().n_constraints,
    {
        self.program.header().n_constraints
    }
}

/// Post-composition sampled values in the version-1 device layout.
#[derive(Clone, Debug)]
pub struct MetalPostCompositionSampledValuesV1 {
    sampled_values: OwnedMetalSampledValuesV1,
}

impl MetalPostCompositionSampledValuesV1 {
    pub closed spec fn spec_sampled_values(&self) -> OwnedMetalSampledValuesV1 {
        self.sampled_values
    }

    pub fn from_owned(sampled_values: OwnedMetalSampledValuesV1) -> (r: Self)
        ensures
            r.spec_sampled_values() == sampled_values,
    {
        Self { sampled_values }
    }

    pub fn sampled_values(&self) -> (r: &OwnedMetalSampledValuesV1)
        ensures
            *r == self.spec_sampled_values(),
    {
        &self.sampled_values
    }
}

/// Lays post-composition sampled values out in the version-1 device layout.
pub fn lower_post_composition_sampled_values_v1(
    sampled_values: &Vec<Vec<Vec<MetalSecureFieldValueV1>>>,
) -> (r: Result<MetalPostCompositionSampledValuesV1, MetalSampledValuesLoweringError>)
    ensures
        match spec_sampled_values_abi_layout_v1() {
            Err(e) => r == Err::<MetalPostCompositionSampledValuesV1, MetalSampledValuesLoweringError>(e),
            Ok(_) => match lowering_error_from(nested_view(*sampled_values), 0) {
                Some(e) => r == Err::<MetalPostCompositionSampledValuesV1, MetalSampledValuesLoweringError>(e),
                None => r matches Ok(p) && is_lowering_of(p.spec_sampled_values(), nested_view(*sampled_values)),
            },
        },
{
    match lower_metal_sampled_values_v1(sampled_values) {
        Ok(sampled_values) => Ok(MetalPostCompositionSampledValuesV1 { sampled_values }),
        Err(e) => Err(e),
    }
}

/// Evaluates the post-composition value with the host reference interpreter.
pub fn interpret_post_composition_sampled_values_v1_reference(
    point: MetalSecureCirclePointV1,
    sampled_values: &MetalPostCompositionSampledValuesV1,
    max_log_degree_bound: u32,
) -> (r: Result<MetalSecureFieldValueV1, MetalSampledValuesExecutionError>)
    requires
        max_log_degree_bound >= 1,
        is_canonical(point.x),
        is_canonical(point.y),
        all_values_canonical(sampled_values.spec_sampled_values()),
    ensures
        match r {
            Ok(value) => {
                let p = sampled_values.spec_sampled_values();
                let fc = p.spec_tree_descs().last().first_column as int;
                &&& shape_outcome(p, Ok(fc as usize))
                &&& value.limbs@ == wide_fibonacci_post_composition_value(
                    Seq::new(8, |k: int| p.spec_values()[p.spec_column_descs()[fc + k].first_value as int]),
                    point,
                    max_log_degree_bound,
                )
            },
            Err(e) => shape_outcome(sampled_values.spec_sampled_values(), Err(e)),
        },
{
    interpret_metal_sampled_values_v1_reference(point, &sampled_values.sampled_values, max_log_degree_bound)
}

/// Proof size by part, in bytes.
#[derive(Copy, Clone, Debug, PartialEq, Eq, Structural)]
pub struct MetalProofSizeBreakdown {
    pub oods_samples: usize,
    pub queries_values: usize,
    pub fri_samples: usize,
    pub fri_decommitments: usize,
    pub trace_decommitments: usize,
}

/// What a finished proof reports about itself.
#[derive(Copy, Clone, Debug, PartialEq, Eq, Structural)]
pub struct MetalProofMetadata {
    pub size_estimate_bytes: usize,
    pub commitments: usize,
    pub security_bits: u32,
    pub fri_queries: usize,
    pub pow_bits: u32,
    pub size_breakdown_bytes: MetalProofSizeBreakdown,
}

#[derive(Copy, Clone, Debug, PartialEq, Eq)]
pub enum MetalProveRuntimeLaneError {
    PlanNotMetalCapable { workload_name: &'static str, plan: MetalExecutionPlan },
    UnsupportedWitnessOwnership { workload_name: &'static str, stage: MetalWorkloadStage },
    UnsupportedFriOwnership { workload_name: &'static str, stage: MetalWorkloadStage },
}

/// The verdict on a prove-runtime lane: a Metal-capable plan, a CPU-owned
/// witness, and a Metal-native FRI, checked in that order.
pub open spec fn spec_prove_runtime_lane(
    workload_name: &'static str,
    plan: MetalExecutionPlan,
    witness_ownership: Option<MetalWorkloadOwnership>,
    fri_ownership: Option<MetalWorkloadOwnership>,
) -> Result<(), MetalProveRuntimeLaneError> {
    if plan != MetalExecutionPlan::MetalFriHybrid && plan != MetalExecutionPlan::MetalFull {
        Err(MetalProveRuntimeLaneError::PlanNotMetalCapable { workload_name, plan })
    } else if witness_ownership != Some(MetalWorkloadOwnership::CpuOwned) {
        Err(
            MetalProveRuntimeLaneError::UnsupportedWitnessOwnership {
                workload_name,
                stage: MetalWorkloadStage::WitnessMain,
            },
        )
    } else if fri_ownership != Some(MetalWorkloadOwnership::MetalNative) {
        Err(MetalProveRuntimeLaneError::UnsupportedFriOwnership { workload_name, stage: MetalWorkloadStage::FriBlake2s })
    } else {
        Ok(())
    }
}

/// Checks that the execution environment supports the version-1 prove runtime.
pub fn validate_prove_runtime_lane_v1(
    workload_name: &'static str,
    plan: MetalExecutionPlan,
    witness_ownership: Option<MetalWorkloadOwnership>,
    fri_ownership: Option<MetalWorkloadOwnership>,
) -> (r: Result<(), MetalProveRuntimeLaneError>)
    ensures
        r == spec_prove_runtime_lane(workload_name, plan, witness_ownership, fri_ownership),
{
    match plan {
        MetalExecutionPlan::MetalFriHybrid | MetalExecutionPlan::MetalFull => {},
        _ => {
            return Err(MetalProveRuntimeLaneError::PlanNotMetalCapable { workload_name, plan });
        },
    }
    match witness_ownership {
        Some(MetalWorkloadOwnership::CpuOwned) => {},
        _ => {
            return Err(
                MetalProveRuntimeLaneError::UnsupportedWitnessOwnership {
                    workload_name,
                    stage: MetalWorkloadStage::WitnessMain,
                },
            );
        },
    }
    match fri_ownership {
        Some(MetalWorkloadOwnership::MetalNative) => Ok(()),
        _ => Err(
            MetalProveRuntimeLaneError::UnsupportedFriOwnership {
                workload_name,
                stage: MetalWorkloadStage::FriBlake2s,
            },
        ),
    }
}

/// Why the composition polynomial could not be generated.
#[derive(Debug)]
pub enum MetalProveRuntimeCompositionError {
    ProgramExecution { source: MetalEvaluationProgramExecutionError },
    ReferenceExecution { source: MetalEvaluationProgramInterpreterError },
    CompositionShape { message: String },
}

/// Checks that the main trace holds one column per constraint plus two.
pub fn check_composition_trace_columns(n_constraints: u32, n_trace_columns: usize) -> (r: Result<
    (),
    MetalProveRuntimeCompositionError,
>)
    ensures
        match r {
            Ok(()) => n_trace_columns == n_constraints + 2,
            Err(MetalProveRuntimeCompositionError::CompositionShape { message }) => n_trace_columns
                != n_constraints + 2 && message@ == "V1 runtime composition expected "@ + decimal_chars(
                (n_constraints + 2) as nat,
            ) + " trace columns (n_constraints="@ + decimal_chars(n_constraints as nat) + " + 2), got "@
                + decimal_chars(n_trace_columns as nat),
            Err(_) => false,
        },
{
    let expected: u64 = n_constraints as u64 + 2;
    if n_trace_columns as u64 != expected {
        let mut message = String::from_str("V1 runtime composition expected ");
        push_decimal(&mut message, expected);
        message.append(" trace columns (n_constraints=");
        push_decimal(&mut message, n_constraints as u64);
        message.append(" + 2), got ");
        push_decimal(&mut message, n_trace_columns as u64);
        proof {
            assert(message@ =~= "V1 runtime composition expected "@ + decimal_chars((n_constraints + 2) as nat)
                + " trace columns (n_constraints="@ + decimal_chars(n_constraints as nat) + " + 2), got "@
                + decimal_chars(n_trace_columns as nat));
        }
        return Err(MetalProveRuntimeCompositionError::CompositionShape { message });
    }
    Ok(())
}

/// Checks that the program produced one value per evaluation-domain row.
pub fn check_composition_row_count(eval_domain_size: usize, n_rows: usize) -> (r: Result<
    (),
    MetalProveRuntimeCompositionError,
>)
    ensures
        match r {
            Ok(()) => n_rows == eval_domain_size,
            Err(MetalProveRuntimeCompositionError::CompositionShape { message }) => n_rows != eval_domain_size
                && message@ == "V1 runtime composition expected "@ + decimal_chars(eval_domain_size as nat)
                + " eval rows, got "@ + decimal_chars(n_rows as nat),
            Err(_) => false,
        },
{
    if n_rows != eval_domain_size {
        let mut message = String::from_str("V1 runtime composition expected ");
        push_decimal(&mut message, eval_domain_size as u64);
        message.append(" eval rows, got ");
        push_decimal(&mut message, n_rows as u64);
        proof {
            assert(message@ =~= "V1 runtime composition expected "@ + decimal_chars(eval_domain_size as nat)
                + " eval rows, got "@ + decimal_chars(n_rows as nat));
        }
        return Err(MetalProveRuntimeCompositionError::CompositionShape { message });
    }
    Ok(())
}

// ---------------------------------------------------------------------------
// Random coefficients and denominators of the composition.
// ---------------------------------------------------------------------------

/// `x^k` in the secure field, multiplied out from one.
pub open spec fn qm31_pow(x: Seq<u32>, k: nat) -> Seq<u32>
    decreases k,
{
    if k == 0 {
        qm31(1, 0, 0, 0)
    } else {
        qm31_mul(qm31_pow(x, (k - 1) as nat), x)
    }
}

/// The first `n_powers` powers of `felt`: `1, felt, felt^2, ...`.
pub fn generate_secure_powers(felt: MetalSecureFieldValueV1, n_powers: usize) -> (r: Vec<MetalSecureFieldValueV1>)
    requires
        is_canonical(felt),
    ensures
        r@.len() == n_powers,
        forall|k: int| 0 <= k < n_powers ==> (#[trigger] r@[k]).limbs@ == qm31_pow(felt.limbs@, k as nat),
        forall|k: int| 0 <= k < n_powers ==> is_canonical(#[trigger] r@[k]),
{
    let mut out: Vec<MetalSecureFieldValueV1> = Vec::new();
    let mut acc = MetalSecureFieldValueV1 { limbs: [1, 0, 0, 0] };
    assert(acc.limbs@ =~= qm31_pow(felt.limbs@, 0));
    let mut k: usize = 0;
    while k < n_powers
        invariant
            k <= n_powers,
            is_canonical(felt),
            is_canonical(acc),
            acc.limbs@ == qm31_pow(felt.limbs@, k as nat),
            out@.len() == k,
            forall|j: int| 0 <= j < k ==> (#[trigger] out@[j]).limbs@ == qm31_pow(felt.limbs@, j as nat),
            forall|j: int| 0 <= j < k ==> is_canonical(#[trigger] out@[j]),
        decreases n_powers - k,
    {
        out.push(acc);
        acc = secure_mul(acc, felt);
        k = k + 1;
    }
    out
}

/// The random-coefficient powers of a composition over `n_constraints`
/// constraints, highest power first: constraint `k` gets
/// `random_coeff^(n_constraints - 1 - k)`.
pub fn composition_random_coeff_powers(random_coeff: MetalSecureFieldValueV1, n_constraints: usize) -> (r: Vec<
    MetalSecureFieldValueV1,
>)
    requires
        is_canonical(random_coeff),
    ensures
        r@.len() == n_constraints,
        forall|k: int|
            0 <= k < n_constraints ==> (#[trigger] r@[k]).limbs@ == qm31_pow(
                random_coeff.limbs@,
                (n_constraints - 1 - k) as nat,
            ),
{
    let powers = generate_secure_powers(random_coeff, n_constraints);
    let mut out: Vec<MetalSecureFieldValueV1> = Vec::new();
    let mut k: usize = 0;
    while k < n_constraints
        invariant
            k <= n_constraints,
            powers@.len() == n_constraints,
            forall|j: int| 0 <= j < n_constraints ==> (#[trigger] powers@[j]).limbs@ == qm31_pow(random_coeff.limbs@, j as nat),
            out@.len() == k,
            forall|j: int|
                0 <= j < k ==> (#[trigger] out@[j]).limbs@ == qm31_pow(random_coeff.limbs@, (n_constraints - 1 - j) as nat),
        decreases n_constraints - k,
    {
        out.push(powers[n_constraints - 1 - k]);
        k = k + 1;
    }
    out
}

/// The value of the vanishing polynomial of the canonic trace coset of
/// `2^log_n_rows` points at point `index` of the canonic circle domain of
/// `2^eval_domain_log_size` points.
pub uninterp spec fn trace_vanishing_at_eval_point(log_n_rows: u32, eval_domain_log_size: u32, index: usize) -> u32;

/// The vanishing polynomial of the canonic trace coset at one point of the
/// canonic evaluation domain.
///
/// Trusted: calls stwo's `coset_vanishing` with the coset of
/// `CanonicCoset::new(log_n_rows)` and point `index` of
/// `CanonicCoset::new(eval_domain_log_size).circle_domain()`. The contract
/// claims that the result is a function of the three arguments and a
/// reduced, non-zero field element: the evaluation domain's points lie off
/// the smaller trace coset, where alone that polynomial vanishes.
#[verifier::external_body]
fn trace_vanishing_at(log_n_rows: u32, eval_domain_log_size: u32, index: usize) -> (r: u32)
    requires
        1 <= log_n_rows < eval_domain_log_size <= 30,
        index < pow2(eval_domain_log_size as nat),
    ensures
        r == trace_vanishing_at_eval_point(log_n_rows, eval_domain_log_size, index),
        0 < r < M31_P,
{
    let trace_coset = stwo::core::poly::circle::CanonicCoset::new(log_n_rows).coset();
    let point = stwo::core::poly::circle::CanonicCoset::new(eval_domain_log_size).circle_domain().at(index);
    stwo::core::constraints::coset_vanishing(trace_coset, point).0
}

/// The denominator inverses of a composition over a trace of
/// `2^log_n_rows` rows on a domain of `2^eval_domain_log_size` points:
/// entry `p` inverts the trace vanishing polynomial at evaluation-domain
/// point `bit_reverse(p)`, over `2^(eval_domain_log_size - log_n_rows)`
/// entries.
pub open spec fn eval_domain_denominator_inverses(log_n_rows: u32, eval_domain_log_size: u32) -> Seq<u32> {
    let k = (eval_domain_log_size - log_n_rows) as nat;
    Seq::new(
        pow2(k),
        |p: int| m31_inverse(
            trace_vanishing_at_eval_point(log_n_rows, eval_domain_log_size, bit_reverse_spec(p as nat, k) as usize),
        ),
    )
}

/// The inverses of the trace vanishing polynomial over the first
/// `2^(eval_domain_log_size - log_n_rows)` points of the evaluation domain,
/// in bit-reversed order.
fn denominator_inverses_for_eval_domain(log_n_rows: u32, eval_domain_log_size: u32) -> (r: Vec<u32>)
    requires
        1 <= log_n_rows < eval_domain_log_size <= 30,
    ensures
        r@ == eval_domain_denominator_inverses(log_n_rows, eval_domain_log_size),
        r@.len() == pow2((eval_domain_log_size - log_n_rows) as nat),
        forall|i: int| 0 <= i < r@.len() ==> #[trigger] r@[i] < M31_P,
{
    let k: u32 = eval_domain_log_size - log_n_rows;
    proof {
        vstd::arithmetic::power2::lemma2_to64();
        if k < 30 {
            vstd::arithmetic::power2::lemma_pow2_strictly_increases(k as nat, 30);
        }
        if (k as nat) < (eval_domain_log_size as nat) {
            vstd::arithmetic::power2::lemma_pow2_strictly_increases(k as nat, eval_domain_log_size as nat);
        }
    }
    let shift = k as usize;
    let n: usize = 1usize << shift;
    assert(n == pow2(k as nat)) by {
        vstd::bits::lemma_usize_shl_is_mul(1, shift);
    }
    let mut inverses: Vec<u32> = Vec::new();
    let mut i: usize = 0;
    while i < n
        invariant
            i <= n,
            n == pow2(k as nat),
            n <= pow2(eval_domain_log_size as nat),
            k == eval_domain_log_size - log_n_rows,
            1 <= log_n_rows < eval_domain_log_size <= 30,
            inverses@.len() == i,
            forall|j: int|
                0 <= j < i ==> #[trigger] inverses@[j] == m31_inverse(
                    trace_vanishing_at_eval_point(log_n_rows, eval_domain_log_size, j as usize),
                ),
            forall|j: int| 0 <= j < i ==> #[trigger] inverses@[j] < M31_P,
        decreases n - i,
    {
        let v = trace_vanishing_at(log_n_rows, eval_domain_log_size, i);
        let inv = base_inverse(v);
        inverses.push(inv);
        i = i + 1;
    }
    let mut out: Vec<u32> = Vec::new();
    let mut q: usize = 0;
    while q < n
        invariant
            q <= n,
            n == pow2(k as nat),
            k == eval_domain_log_size - log_n_rows,
            k <= 30,
            inverses@.len() == n,
            forall|j: int|
                0 <= j < n ==> #[trigger] inverses@[j] == m31_inverse(
                    trace_vanishing_at_eval_point(log_n_rows, eval_domain_log_size, j as usize),
                ),
            forall|j: int| 0 <= j < n ==> #[trigger] inverses@[j] < M31_P,
            out@ == eval_domain_denominator_inverses(log_n_rows, eval_domain_log_size).take(q as int),
            forall|j: int| 0 <= j < q ==> #[trigger] out@[j] < M31_P,
        decreases n - q,
    {
        proof {
            lemma_bit_reverse_below(q as nat, k as nat);
        }
        let src = bit_reverse_index(q, k);
        out.push(inverses[src]);
        proof {
            assert(out@ =~= eval_domain_denominator_inverses(log_n_rows, eval_domain_log_size).take(q + 1));
        }
        q = q + 1;
    }
    proof {
        assert(eval_domain_denominator_inverses(log_n_rows, eval_domain_log_size).take(n as int)
            =~= eval_domain_denominator_inverses(log_n_rows, eval_domain_log_size));
    }
    out
}

/// A secure-field value times the base-field value `x`, limb by limb.
pub open spec fn scale_by_base(v: Seq<u32>, x: u32) -> Seq<u32> {
    qm31(m31_mul(v[0], x), m31_mul(v[1], x), m31_mul(v[2], x), m31_mul(v[3], x))
}

/// Divides each row of a composition by its denominator: row `i` is
/// multiplied by the inverse at `i >> log_n_rows`.
pub fn apply_denominator_inverses(
    rows: &[MetalSecureFieldValueV1],
    inverses: &[u32],
    log_n_rows: u32,
) -> (r: Vec<MetalSecureFieldValueV1>)
    requires
        log_n_rows < usize::BITS,
        forall|i: int| 0 <= i < rows@.len() ==> is_canonical(#[trigger] rows@[i]),
        forall|i: int| 0 <= i < inverses@.len() ==> #[trigger] inverses@[i] < M31_P,
        rows@.len() <= inverses@.len() * pow2(log_n_rows as nat),
    ensures
        r@.len() == rows@.len(),
        forall|i: int|
            0 <= i < rows@.len() ==> (#[trigger] r@[i]).limbs@ == scale_by_base(
                rows@[i].limbs@,
                inverses@[i / pow2(log_n_rows as nat) as int],
            ),
{
    let mut out: Vec<MetalSecureFieldValueV1> = Vec::new();
    let mut i: usize = 0;
    proof {
        vstd::arithmetic::power2::lemma_pow2_pos(log_n_rows as nat);
    }
    while i < rows.len()
        invariant
            i <= rows@.len(),
            log_n_rows < usize::BITS,
            pow2(log_n_rows as nat) > 0,
            forall|j: int| 0 <= j < rows@.len() ==> is_canonical(#[trigger] rows@[j]),
            forall|j: int| 0 <= j < inverses@.len() ==> #[trigger] inverses@[j] < M31_P,
            rows@.len() <= inverses@.len() * pow2(log_n_rows as nat),
            out@.len() == i,
            forall|j: int|
                0 <= j < i ==> (#[trigger] out@[j]).limbs@ == scale_by_base(
                    rows@[j].limbs@,
                    inverses@[j / pow2(log_n_rows as nat) as int],
                ),
        decreases rows@.len() - i,
    {
        let shift = log_n_rows as usize;
        let slot = i >> shift;
        proof {
            vstd::bits::lemma_usize_shr_is_div(i, shift);
            let p = pow2(log_n_rows as nat) as int;
            assert((i as int) / p < inverses@.len()) by (nonlinear_arith)
                requires
                    p > 0,
                    i < rows@.len(),
                    rows@.len() <= inverses@.len() * p,
            ;
        }
        let x = inverses[slot];
        let v = rows[i];
        assert(is_canonical(v));
        assert(v.limbs[0] < M31_P && v.limbs[1] < M31_P && v.limbs[2] < M31_P && v.limbs[3] < M31_P);
        let scaled = MetalSecureFieldValueV1 {
            limbs: [base_mul(v.limbs[0], x), base_mul(v.limbs[1], x), base_mul(v.limbs[2], x), base_mul(v.limbs[3], x)],
        };
        assert(scaled.limbs@ =~= scale_by_base(v.limbs@, x));
        out.push(scaled);
        i = i + 1;
    }
    out
}

/// Divides the rows of a composition over a trace of `2^log_n_rows` rows,
/// evaluated on a domain of `2^eval_domain_log_size` points, by their
/// denominators: row `i` is multiplied by inverse `i >> log_n_rows`.
pub fn divide_rows_by_denominators(
    rows: &[MetalSecureFieldValueV1],
    log_n_rows: u32,
    eval_domain_log_size: u32,
) -> (r: Vec<MetalSecureFieldValueV1>)
    requires
        1 <= log_n_rows < eval_domain_log_size <= 30,
        forall|i: int| 0 <= i < rows@.len() ==> is_canonical(#[trigger] rows@[i]),
        rows@.len() <= pow2(eval_domain_log_size as nat),
    ensures
        r@.len() == rows@.len(),
        forall|i: int|
            0 <= i < rows@.len() ==> (#[trigger] r@[i]).limbs@ == scale_by_base(
                rows@[i].limbs@,
                eval_domain_denominator_inverses(log_n_rows, eval_domain_log_size)[i / pow2(log_n_rows as nat) as int],
            ),
{
    let inverses = denominator_inverses_for_eval_domain(log_n_rows, eval_domain_log_size);
    proof {
        vstd::arithmetic::power2::lemma_pow2_adds(
            (eval_domain_log_size - log_n_rows) as nat,
            log_n_rows as nat,
        );
        assert((eval_domain_log_size - log_n_rows) as nat + log_n_rows as nat == eval_domain_log_size as nat);
    }
    apply_denominator_inverses(rows, inverses.as_slice(), log_n_rows)
}

/// The number of trailing zero bits of `n`; all of them for zero.
pub open spec fn trailing_zeros_spec(n: nat, bits: nat) -> nat
    decreases bits,
{
    if bits == 0 || n % 2 == 1 {
        0
    } else {
        1 + trailing_zeros_spec(n / 2, (bits - 1) as nat)
    }
}

/// The number of trailing zero bits of `n` as a `usize`.
pub fn usize_trailing_zeros(n: usize) -> (r: u32)
    ensures
        r == trailing_zeros_spec(n as nat, usize::BITS as nat),
{
    let mut v = n;
    let mut k: u32 = 0;
    while k < usize::BITS && v % 2 == 0
        invariant
            k <= usize::BITS,
            trailing_zeros_spec(n as nat, usize::BITS as nat) == k + trailing_zeros_spec(
                v as nat,
                (usize::BITS - k) as nat,
            ),
        decreases usize::BITS - k,
    {
        v = v / 2;
        k = k + 1;
    }
    k
}

/// The length of the first column of a component's trace, interactions
/// first, then preprocessed columns.
pub open spec fn first_column_len(inter: Seq<Seq<Seq<u32>>>, pre: Seq<Seq<u32>>) -> Option<nat> {
    if inter.flatten_alt().len() > 0 {
        Some(inter.flatten_alt()[0].len())
    } else if pre.len() > 0 {
        Some(pre[0].len())
    } else {
        None
    }
}

/// The evaluation-domain size (as a base-2 logarithm) of a component: that
/// of its first column, or the trace size with its blow-up when it has none.
pub fn component_eval_domain_log_size(
    interactions: &[&[&[u32]]],
    preprocessed: &[&[u32]],
    log_n_rows: u32,
    log_blowup_factor: u32,
) -> (r: u32)
    requires
        log_n_rows + 1 + log_blowup_factor <= u32::MAX,
    ensures
        r == match first_column_len(
            crate::eval_interpreter::interactions_view(interactions@),
            crate::eval_interpreter::columns_view(preprocessed@),
        ) {
            Some(len) => trailing_zeros_spec(len, usize::BITS as nat),
            None => (log_n_rows + 1 + log_blowup_factor) as nat,
        },
{
    let ghost inter = crate::eval_interpreter::interactions_view(interactions@);
    let mut i: usize = 0;
    while i < interactions.len()
        invariant
            i <= interactions@.len(),
            inter == crate::eval_interpreter::interactions_view(interactions@),
            forall|j: int| 0 <= j < i ==> (#[trigger] inter[j]).len() == 0,
        decreases interactions@.len() - i,
    {
        if interactions[i].len() > 0 {
            proof {
                assert forall|j: int| 0 <= j < i implies (#[trigger] inter[j]).len() == 0 by {}
                assert(inter =~= inter.take(i as int) + inter.skip(i as int));
                vstd::seq_lib::lemma_flatten_alt_concat(inter.take(i as int), inter.skip(i as int));
                assert(inter.take(i as int).flatten_alt().len() == 0) by {
                    lemma_flatten_empty(inter.take(i as int));
                }
                let rest = inter.skip(i as int);
                assert(rest =~= seq![rest[0]] + rest.skip(1));
                vstd::seq_lib::lemma_flatten_alt_concat(seq![rest[0]], rest.skip(1));
                assert(seq![rest[0]].flatten_alt() =~= rest[0]) by {
                    vstd::seq_lib::lemma_flatten_alt_concat(Seq::<Seq<Seq<u32>>>::empty(), seq![rest[0]]);
                    assert(seq![rest[0]].drop_last() =~= Seq::<Seq<Seq<u32>>>::empty());
                }
                assert(inter.flatten_alt()[0] == inter[i as int][0]);
                assert(inter[i as int][0] == interactions@[i as int]@[0]@);
            }
            return usize_trailing_zeros(interactions[i][0].len());
        }
        i = i + 1;
    }
    proof {
        assert(inter.take(i as int) =~= inter);
        lemma_flatten_empty(inter);
    }
    if preprocessed.len() > 0 {
        return usize_trailing_zeros(preprocessed[0].len());
    }
    log_n_rows + 1 + log_blowup_factor
}

proof fn lemma_flatten_empty(s: Seq<Seq<Seq<u32>>>)
    requires
        forall|j: int| 0 <= j < s.len() ==> (#[trigger] s[j]).len() == 0,
    ensures
        s.flatten_alt().len() == 0,
    decreases s.len(),
{
    if s.len() > 0 {
        lemma_flatten_empty(s.drop_last());
    }
}

/// The sum of the constraint counts of the components before index `k`.
pub open spec fn constraints_before(counts: Seq<u32>, k: int) -> nat
    decreases k,
{
    if k <= 0 || k > counts.len() {
        0
    } else {
        constraints_before(counts, k - 1) + counts[k - 1] as nat
    }
}

/// The random-coefficient powers of each component of a composition:
/// every constraint of every component gets a distinct power, the highest
/// first, component by component.
pub fn component_random_coeff_powers(random_coeff: MetalSecureFieldValueV1, counts: &[u32]) -> (r: Vec<
    Vec<MetalSecureFieldValueV1>,
>)
    requires
        is_canonical(random_coeff),
        constraints_before(counts@, counts@.len() as int) <= usize::MAX,
    ensures
        r@.len() == counts@.len(),
        forall|c: int|
            0 <= c < counts@.len() ==> (#[trigger] r@[c])@.len() == counts@[c] && forall|k: int|
                0 <= k < counts@[c] ==> (#[trigger] r@[c]@[k]).limbs@ == qm31_pow(
                    random_coeff.limbs@,
                    (constraints_before(counts@, counts@.len() as int) - 1 - (constraints_before(counts@, c) + k)) as nat,
                ),
{
    let ghost total = constraints_before(counts@, counts@.len() as int);
    let mut sum: usize = 0;
    let mut i: usize = 0;
    while i < counts.len()
        invariant
            i <= counts@.len(),
            total == constraints_before(counts@, counts@.len() as int),
            total <= usize::MAX,
            sum == constraints_before(counts@, i as int),
        decreases counts@.len() - i,
    {
        proof {
            lemma_constraints_before_monotone(counts@, i + 1, counts@.len() as int);
        }
        sum = sum + counts[i] as usize;
        i = i + 1;
    }
    let all = composition_random_coeff_powers(random_coeff, sum);
    let mut out: Vec<Vec<MetalSecureFieldValueV1>> = Vec::new();
    let mut offset: usize = 0;
    let mut c: usize = 0;
    while c < counts.len()
        invariant
            c <= counts@.len(),
            total == constraints_before(counts@, counts@.len() as int),
            sum == total,
            total <= usize::MAX,
            all@.len() == total,
            forall|k: int| 0 <= k < total ==> (#[trigger] all@[k]).limbs@ == qm31_pow(random_coeff.limbs@, (total - 1 - k) as nat),
            offset == constraints_before(counts@, c as int),
            out@.len() == c,
            forall|d: int|
                0 <= d < c ==> (#[trigger] out@[d])@.len() == counts@[d] && forall|k: int|
                    0 <= k < counts@[d] ==> (#[trigger] out@[d]@[k]).limbs@ == qm31_pow(
                        random_coeff.limbs@,
                        (total - 1 - (constraints_before(counts@, d) + k)) as nat,
                    ),
        decreases counts@.len() - c,
    {
        proof {
            lemma_constraints_before_monotone(counts@, c + 1, counts@.len() as int);
        }
        let n = counts[c] as usize;
        let mut part: Vec<MetalSecureFieldValueV1> = Vec::new();
        let mut k: usize = 0;
        while k < n
            invariant
                k <= n,
                n == counts@[c as int],
                offset + n <= total,
                total <= usize::MAX,
                all@.len() == total,
                part@.len() == k,
                forall|j: int| 0 <= j < k ==> (#[trigger] part@[j]) == all@[offset + j],
            decreases n - k,
        {
            part.push(all[offset + k]);
            k = k + 1;
        }
        out.push(part);
        offset = offset + n;
        c = c + 1;
    }
    out
}

proof fn lemma_constraints_before_monotone(counts: Seq<u32>, i: int, j: int)
    requires
        0 <= i <= j <= counts.len(),
    ensures
        constraints_before(counts, i) <= constraints_before(counts, j),
    decreases j - i,
{
    if i < j {
        lemma_constraints_before_monotone(counts, i, j - 1);
    }
}

} // verus!
