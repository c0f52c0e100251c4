use vstd::prelude::*;

use crate::capability::MetalRuntimeSupport;
use crate::eval_lowering::{program_semantic_hash, OwnedMetalEvaluationProgramV1};
use crate::eval_program::{MetalEvaluationProgramBudgetV1, STWO_METAL_EVAL_PROGRAM_ALL_CAPS_V1};
use crate::lowering::{
    lower_wide_fibonacci_evaluation_program_v1, wide_fibonacci_base_inst, wide_fibonacci_ext_inst,
    MetalEvaluationProgramSpecializationV1,
};

verus! {

/// Base registers offered by the device interpreter.
pub const METAL_EVAL_PROGRAM_V1_DEVICE_MAX_BASE_REGS: u32 = 1024u32;
/// Extension registers offered by the device interpreter.
pub const METAL_EVAL_PROGRAM_V1_DEVICE_MAX_EXT_REGS: u32 = 256u32;

/// Why a program could not be run on the device.
#[derive(Debug, PartialEq, Eq)]
pub enum MetalEvaluationProgramExecutionError {
    RuntimeUnavailable(MetalRuntimeSupport),
    MetalRuntime { message: String },
    EmptyTrace,
    InconsistentTraceColumnLength { expected_len: usize, actual_len: usize },
    InconsistentPreprocessedColumnLength { expected_len: usize, actual_len: usize },
    TraceInteractionCountMismatch { expected: usize, actual: usize },
    RandomCoeffCountMismatch { expected: usize, actual: usize },
    BaseParamCountMismatch { expected: usize, actual: usize },
    ExtParamCountMismatch { expected: usize, actual: usize },
    UnsupportedNonZeroTraceOffset { offset: i32 },
    RegisterBudgetExceeded {
        required_base: u32,
        required_ext: u32,
        supported_base: u32,
        supported_ext: u32,
    },
}

/// What an executor offers: runtime availability, capabilities, registers.
#[derive(Copy, Clone, Debug, PartialEq, Eq, Structural)]
pub struct MetalEvaluationProgramCapabilityProfileV1 {
    pub runtime_support: MetalRuntimeSupport,
    pub capability_bits: u64,
    pub max_base_regs: u32,
    pub max_ext_regs: u32,
}

impl MetalEvaluationProgramCapabilityProfileV1 {
    pub fn new(
        runtime_support: MetalRuntimeSupport,
        capability_bits: u64,
        max_base_regs: u32,
        max_ext_regs: u32,
    ) -> (r: Self)
        ensures
            r == (Self { runtime_support, capability_bits, max_base_regs, max_ext_regs }),
    {
        Self { runtime_support, capability_bits, max_base_regs, max_ext_regs }
    }

    /// The device interpreter's profile under the given runtime support:
    /// every version-1 capability and the device register file.
    pub fn current(runtime_support: MetalRuntimeSupport) -> (r: Self)
        ensures
            r == (Self {
                runtime_support,
                capability_bits: STWO_METAL_EVAL_PROGRAM_ALL_CAPS_V1,
                max_base_regs: METAL_EVAL_PROGRAM_V1_DEVICE_MAX_BASE_REGS,
                max_ext_regs: METAL_EVAL_PROGRAM_V1_DEVICE_MAX_EXT_REGS,
            }),
    {
        Self {
            runtime_support,
            capability_bits: STWO_METAL_EVAL_PROGRAM_ALL_CAPS_V1,
            max_base_regs: METAL_EVAL_PROGRAM_V1_DEVICE_MAX_BASE_REGS,
            max_ext_regs: METAL_EVAL_PROGRAM_V1_DEVICE_MAX_EXT_REGS,
        }
    }

    /// The register budget of this profile.
    pub fn budget(self) -> (r: MetalEvaluationProgramBudgetV1)
        ensures
            r == (MetalEvaluationProgramBudgetV1 {
                max_base_regs: self.max_base_regs,
                max_ext_regs: self.max_ext_regs,
            }),
    {
        MetalEvaluationProgramBudgetV1::new(self.max_base_regs, self.max_ext_regs)
    }
}

/// A specialised device kernel that replaces the generic interpreter for
/// one program, identified by its semantic hash.
#[derive(Copy, Clone, Debug, PartialEq, Eq)]
pub struct MetalEvaluationProgramOverlayV1 {
    pub name: &'static str,
    pub semantic_hash: u64,
    pub required_capability_bits: u64,
}

#[derive(Copy, Clone, Debug, PartialEq, Eq)]
pub enum MetalEvaluationProgramDispatchKindV1 {
    GenericMetalInterpreter,
    GeneratedOverlay(MetalEvaluationProgramOverlayV1),
}

/// The semantic hash of the wide-fibonacci program with `n` constraints.
pub open spec fn wide_fibonacci_semantic_hash(n: nat) -> u64 {
    program_semantic_hash(
        Seq::empty(),
        Seq::empty(),
        Seq::new(1 + 7 * n, |i: int| wide_fibonacci_base_inst(i)),
        Seq::new(n, |k: int| wide_fibonacci_ext_inst(k)),
        Seq::new(n, |k: int| k as u32),
    )
}

/// The registered overlays: one, for the wide-fibonacci program over 100
/// columns.
pub open spec fn spec_overlays_v1() -> Seq<MetalEvaluationProgramOverlayV1> {
    seq![
        MetalEvaluationProgramOverlayV1 {
            name: "wide_fibonacci_eval_v1",
            semantic_hash: wide_fibonacci_semantic_hash(98),
            required_capability_bits: STWO_METAL_EVAL_PROGRAM_ALL_CAPS_V1,
        },
    ]
}

/// The registered overlays.
pub fn metal_evaluation_program_overlays_v1() -> (r: Vec<MetalEvaluationProgramOverlayV1>)
    ensures
        r@ == spec_overlays_v1(),
{
    let lowered = lower_wide_fibonacci_evaluation_program_v1(
        MetalEvaluationProgramSpecializationV1 { log_n_rows: 20, n_columns: 100 },
    );
    let semantic_hash = match lowered {
        Ok(program) => program.header().semantic_hash,
        Err(_) => {
            assert(false);
            0
        },
    };
    vec![
        MetalEvaluationProgramOverlayV1 {
            name: "wide_fibonacci_eval_v1",
            semantic_hash,
            required_capability_bits: STWO_METAL_EVAL_PROGRAM_ALL_CAPS_V1,
        },
    ]
}

/// `overlay` serves a program with hash `semantic_hash` on a profile with
/// `capability_bits`.
pub open spec fn overlay_applies(
    overlay: MetalEvaluationProgramOverlayV1,
    semantic_hash: u64,
    capability_bits: u64,
) -> bool {
    overlay.semantic_hash == semantic_hash && capability_bits & overlay.required_capability_bits
        == overlay.required_capability_bits
}

/// The first overlay from index `i` on that applies.
pub open spec fn first_applicable_overlay(
    overlays: Seq<MetalEvaluationProgramOverlayV1>,
    semantic_hash: u64,
    capability_bits: u64,
    i: int,
) -> Option<MetalEvaluationProgramOverlayV1>
    decreases overlays.len() - i,
{
    if i < 0 || i >= overlays.len() {
        None
    } else if overlay_applies(overlays[i], semantic_hash, capability_bits) {
        Some(overlays[i])
    } else {
        first_applicable_overlay(overlays, semantic_hash, capability_bits, i + 1)
    }
}

/// The overlay, if any, that serves `program` under `profile`.
pub fn lookup_metal_evaluation_program_overlay_v1(
    program: &OwnedMetalEvaluationProgramV1,
    profile: MetalEvaluationProgramCapabilityProfileV1,
) -> (r: Option<MetalEvaluationProgramOverlayV1>)
    ensures
        r == first_applicable_overlay(
            spec_overlays_v1(),
            program.spec_header().semantic_hash,
            profile.capability_bits,
            0,
        ),
{
    let overlays = metal_evaluation_program_overlays_v1();
    let semantic_hash = program.header().semantic_hash;
    let mut i: usize = 0;
    while i < overlays.len()
        invariant
            i <= overlays@.len(),
            overlays@ == spec_overlays_v1(),
            semantic_hash == program.spec_header().semantic_hash,
            first_applicable_overlay(overlays@, semantic_hash, profile.capability_bits, 0)
                == first_applicable_overlay(overlays@, semantic_hash, profile.capability_bits, i as int),
        decreases overlays@.len() - i,
    {
        let overlay = overlays[i];
        if overlay.semantic_hash == semantic_hash && profile.capability_bits
            & overlay.required_capability_bits == overlay.required_capability_bits {
            return Some(overlay);
        }
        i = i + 1;
    }
    None
}

/// How `program` is dispatched under `profile`: refused when the runtime is
/// unavailable or the program does not validate against the profile's
/// budget; otherwise its overlay, or the generic interpreter.
pub open spec fn spec_select_dispatch(
    program: OwnedMetalEvaluationProgramV1,
    profile: MetalEvaluationProgramCapabilityProfileV1,
) -> Result<MetalEvaluationProgramDispatchKindV1, MetalEvaluationProgramExecutionError> {
    if profile.runtime_support != MetalRuntimeSupport::Available {
        Err(MetalEvaluationProgramExecutionError::RuntimeUnavailable(profile.runtime_support))
    } else if program.spec_validate(
        MetalEvaluationProgramBudgetV1 {
            max_base_regs: profile.max_base_regs,
            max_ext_regs: profile.max_ext_regs,
        },
    ) is Err {
        Err(
            MetalEvaluationProgramExecutionError::RegisterBudgetExceeded {
                required_base: program.spec_header().max_base_regs,
                required_ext: program.spec_header().max_ext_regs,
                supported_base: profile.max_base_regs,
                supported_ext: profile.max_ext_regs,
            },
        )
    } else {
        match first_applicable_overlay(
            spec_overlays_v1(),
            program.spec_header().semantic_hash,
            profile.capability_bits,
            0,
        ) {
            Some(overlay) => Ok(MetalEvaluationProgramDispatchKindV1::GeneratedOverlay(overlay)),
            None => Ok(MetalEvaluationProgramDispatchKindV1::GenericMetalInterpreter),
        }
    }
}

/// Chooses how to run `program` under `profile`.
pub fn select_metal_evaluation_program_dispatch_v1(
    program: &OwnedMetalEvaluationProgramV1,
    profile: MetalEvaluationProgramCapabilityProfileV1,
) -> (r: Result<MetalEvaluationProgramDispatchKindV1, MetalEvaluationProgramExecutionError>)
    ensures
        r == spec_select_dispatch(*program, profile),
{
    if profile.runtime_support != MetalRuntimeSupport::Available {
        return Err(MetalEvaluationProgramExecutionError::RuntimeUnavailable(profile.runtime_support));
    }
    match program.validate(profile.budget()) {
        Err(_) => {
            let header = program.header();
            return Err(
                MetalEvaluationProgramExecutionError::RegisterBudgetExceeded {
                    required_base: header.max_base_regs,
                    required_ext: header.max_ext_regs,
                    supported_base: profile.max_base_regs,
                    supported_ext: profile.max_ext_regs,
                },
            );
        },
        Ok(()) => {},
    }
    match lookup_metal_evaluation_program_overlay_v1(program, profile) {
        Some(overlay) => Ok(MetalEvaluationProgramDispatchKindV1::GeneratedOverlay(overlay)),
        None => Ok(MetalEvaluationProgramDispatchKindV1::GenericMetalInterpreter),
    }
}

} // verus!
