use vstd::prelude::*;

verus! {

/// A bounded surface of the Metal backend whose support status is declared.
#[non_exhaustive]
#[derive(Copy, Clone, Debug, PartialEq, Eq, Structural, Hash)]
pub enum MetalBackendSurface {
    WideFibonacciBenchmarkTargetDeclared,
    WideFibonacciWitnessInputBoundaryDeclared,
    WideFibonacciTraceGenerationNative,
    WideFibonacciTraceCpuBridge,
    PolyOpsCpuBridge,
    AccumulationOpsCpuBridge,
    QuotientOpsCpuBridge,
    FriOpsCpuBridge,
    MleOpsCpuBridge,
    GkrOpsCpuBridge,
    Blake2sHashColumnCpuBridge,
    Blake2sMerkleOpsLiftedCpuBridge,
    Blake2sGrindCpuBridge,
    Blake2sBackendForChannelCpuBridge,
    BaseFieldColumnSet,
    BaseFieldColumnFromIterator,
    BaseFieldColumnBitReverse,
    BaseFieldTwiddlePrecomputeNative,
    BaseFieldCosetToCircleDomainBitReverse,
    SecureFieldColumnSet,
    SecureFieldColumnFromIterator,
    SecureFieldColumnBitReverse,
    FriFirstLayerFoldCircleIntoLine,
    FriFirstLayerProofNative,
    FriLineFold,
    FriFirstInnerLayerCommitmentNative,
    FriFirstInnerLayerDecommitNative,
    FriFirstInnerLayerProofRowNative,
    FriInnerLayerSequenceNative,
    FriCommitmentSliceBounded,
    FriInnerProofSliceBounded,
    FriProofSliceBounded,
    FriProverTranscriptOwnedBounded,
    FriBlake2sSubpathDeclared,
    WorkloadBoundaryHybridDeclared,
    WorkloadWideFibonacciWitnessCpuHandoff,
    WideFibonacciQuotientAccumulateNative,
    WorkloadFriReadyEvaluationCpuHandoff,
    WorkloadQuotientEvaluationCpuHandoff,
    FriFirstInnerLayerCommitmentCpuBridge,
    QuotientAccumulate,
}

#[non_exhaustive]
#[derive(Copy, Clone, Debug, PartialEq, Eq, Structural)]
pub enum MetalBackendSurfaceStatus {
    Supported,
    SupportedExplicitCpuBridge,
    UnsupportedPlanned,
}

/// Whether the Metal runtime can be used on this machine, as the runtime
/// reports it.
#[derive(Copy, Clone, Debug, PartialEq, Eq, Structural, Hash)]
pub enum MetalRuntimeSupport {
    Available,
    DisabledByConfiguration,
}

/// Every declared backend surface, in declaration order.
pub fn stwo_metal_backend_surfaces_v1() -> (r: &'static [MetalBackendSurface])
    ensures
        r@.len() == 41,
        forall|s: MetalBackendSurface| #[trigger] r@.contains(s),
{
    let r: &'static [MetalBackendSurface] = &[
        MetalBackendSurface::WideFibonacciBenchmarkTargetDeclared,
        MetalBackendSurface::WideFibonacciWitnessInputBoundaryDeclared,
        MetalBackendSurface::WideFibonacciTraceGenerationNative,
        MetalBackendSurface::WideFibonacciTraceCpuBridge,
        MetalBackendSurface::PolyOpsCpuBridge,
        MetalBackendSurface::AccumulationOpsCpuBridge,
        MetalBackendSurface::QuotientOpsCpuBridge,
        MetalBackendSurface::FriOpsCpuBridge,
        MetalBackendSurface::MleOpsCpuBridge,
        MetalBackendSurface::GkrOpsCpuBridge,
        MetalBackendSurface::Blake2sHashColumnCpuBridge,
        MetalBackendSurface::Blake2sMerkleOpsLiftedCpuBridge,
        MetalBackendSurface::Blake2sGrindCpuBridge,
        MetalBackendSurface::Blake2sBackendForChannelCpuBridge,
        MetalBackendSurface::BaseFieldColumnSet,
        MetalBackendSurface::BaseFieldColumnFromIterator,
        MetalBackendSurface::BaseFieldColumnBitReverse,
        MetalBackendSurface::BaseFieldTwiddlePrecomputeNative,
        MetalBackendSurface::BaseFieldCosetToCircleDomainBitReverse,
        MetalBackendSurface::SecureFieldColumnSet,
        MetalBackendSurface::SecureFieldColumnFromIterator,
        MetalBackendSurface::SecureFieldColumnBitReverse,
        MetalBackendSurface::FriFirstLayerFoldCircleIntoLine,
        MetalBackendSurface::FriFirstLayerProofNative,
        MetalBackendSurface::FriLineFold,
        MetalBackendSurface::FriFirstInnerLayerCommitmentNative,
        MetalBackendSurface::FriFirstInnerLayerDecommitNative,
        MetalBackendSurface::FriFirstInnerLayerProofRowNative,
        MetalBackendSurface::FriInnerLayerSequenceNative,
        MetalBackendSurface::FriCommitmentSliceBounded,
        MetalBackendSurface::FriInnerProofSliceBounded,
        MetalBackendSurface::FriProofSliceBounded,
        MetalBackendSurface::FriProverTranscriptOwnedBounded,
        MetalBackendSurface::FriBlake2sSubpathDeclared,
        MetalBackendSurface::WorkloadBoundaryHybridDeclared,
        MetalBackendSurface::WorkloadWideFibonacciWitnessCpuHandoff,
        MetalBackendSurface::WideFibonacciQuotientAccumulateNative,
        MetalBackendSurface::WorkloadFriReadyEvaluationCpuHandoff,
        MetalBackendSurface::WorkloadQuotientEvaluationCpuHandoff,
        MetalBackendSurface::FriFirstInnerLayerCommitmentCpuBridge,
        MetalBackendSurface::QuotientAccumulate,
    ];
    proof {
        assert forall|s: MetalBackendSurface| #[trigger] r@.contains(s) by {
            match s {
                MetalBackendSurface::WideFibonacciBenchmarkTargetDeclared => assert(r@[0] == s),
                MetalBackendSurface::WideFibonacciWitnessInputBoundaryDeclared => assert(r@[1] == s),
                MetalBackendSurface::WideFibonacciTraceGenerationNative => assert(r@[2] == s),
                MetalBackendSurface::WideFibonacciTraceCpuBridge => assert(r@[3] == s),
                MetalBackendSurface::PolyOpsCpuBridge => assert(r@[4] == s),
                MetalBackendSurface::AccumulationOpsCpuBridge => assert(r@[5] == s),
                MetalBackendSurface::QuotientOpsCpuBridge => assert(r@[6] == s),
                MetalBackendSurface::FriOpsCpuBridge => assert(r@[7] == s),
                MetalBackendSurface::MleOpsCpuBridge => assert(r@[8] == s),
                MetalBackendSurface::GkrOpsCpuBridge => assert(r@[9] == s),
                MetalBackendSurface::Blake2sHashColumnCpuBridge => assert(r@[10] == s),
                MetalBackendSurface::Blake2sMerkleOpsLiftedCpuBridge => assert(r@[11] == s),
                MetalBackendSurface::Blake2sGrindCpuBridge => assert(r@[12] == s),
                MetalBackendSurface::Blake2sBackendForChannelCpuBridge => assert(r@[13] == s),
                MetalBackendSurface::BaseFieldColumnSet => assert(r@[14] == s),
                MetalBackendSurface::BaseFieldColumnFromIterator => assert(r@[15] == s),
                MetalBackendSurface::BaseFieldColumnBitReverse => assert(r@[16] == s),
                MetalBackendSurface::BaseFieldTwiddlePrecomputeNative => assert(r@[17] == s),
                MetalBackendSurface::BaseFieldCosetToCircleDomainBitReverse => assert(r@[18] == s),
                MetalBackendSurface::SecureFieldColumnSet => assert(r@[19] == s),
                MetalBackendSurface::SecureFieldColumnFromIterator => assert(r@[20] == s),
                MetalBackendSurface::SecureFieldColumnBitReverse => assert(r@[21] == s),
                MetalBackendSurface::FriFirstLayerFoldCircleIntoLine => assert(r@[22] == s),
                MetalBackendSurface::FriFirstLayerProofNative => assert(r@[23] == s),
                MetalBackendSurface::FriLineFold => assert(r@[24] == s),
                MetalBackendSurface::FriFirstInnerLayerCommitmentNative => assert(r@[25] == s),
                MetalBackendSurface::FriFirstInnerLayerDecommitNative => assert(r@[26] == s),
                MetalBackendSurface::FriFirstInnerLayerProofRowNative => assert(r@[27] == s),
                MetalBackendSurface::FriInnerLayerSequenceNative => assert(r@[28] == s),
                MetalBackendSurface::FriCommitmentSliceBounded => assert(r@[29] == s),
                MetalBackendSurface::FriInnerProofSliceBounded => assert(r@[30] == s),
                MetalBackendSurface::FriProofSliceBounded => assert(r@[31] == s),
                MetalBackendSurface::FriProverTranscriptOwnedBounded => assert(r@[32] == s),
                MetalBackendSurface::FriBlake2sSubpathDeclared => assert(r@[33] == s),
                MetalBackendSurface::WorkloadBoundaryHybridDeclared => assert(r@[34] == s),
                MetalBackendSurface::WorkloadWideFibonacciWitnessCpuHandoff => assert(r@[35] == s),
                MetalBackendSurface::WideFibonacciQuotientAccumulateNative => assert(r@[36] == s),
                MetalBackendSurface::WorkloadFriReadyEvaluationCpuHandoff => assert(r@[37] == s),
                MetalBackendSurface::WorkloadQuotientEvaluationCpuHandoff => assert(r@[38] == s),
                MetalBackendSurface::FriFirstInnerLayerCommitmentCpuBridge => assert(r@[39] == s),
                MetalBackendSurface::QuotientAccumulate => assert(r@[40] == s),
            }
        }
    }
    r
}

/// The declared support status of each surface.
pub open spec fn spec_surface_status(surface: MetalBackendSurface) -> MetalBackendSurfaceStatus {
    match surface {
        MetalBackendSurface::WideFibonacciBenchmarkTargetDeclared
        | MetalBackendSurface::WideFibonacciWitnessInputBoundaryDeclared
        | MetalBackendSurface::WideFibonacciTraceGenerationNative
        | MetalBackendSurface::WideFibonacciTraceCpuBridge
        | MetalBackendSurface::BaseFieldColumnSet
        | MetalBackendSurface::BaseFieldColumnFromIterator
        | MetalBackendSurface::BaseFieldColumnBitReverse
        | MetalBackendSurface::BaseFieldTwiddlePrecomputeNative
        | MetalBackendSurface::BaseFieldCosetToCircleDomainBitReverse
        | MetalBackendSurface::SecureFieldColumnSet
        | MetalBackendSurface::SecureFieldColumnFromIterator
        | MetalBackendSurface::SecureFieldColumnBitReverse
        | MetalBackendSurface::FriFirstLayerFoldCircleIntoLine
        | MetalBackendSurface::FriFirstLayerProofNative
        | MetalBackendSurface::FriLineFold
        | MetalBackendSurface::FriFirstInnerLayerCommitmentNative
        | MetalBackendSurface::FriFirstInnerLayerDecommitNative
        | MetalBackendSurface::FriFirstInnerLayerProofRowNative
        | MetalBackendSurface::FriInnerLayerSequenceNative
        | MetalBackendSurface::FriCommitmentSliceBounded
        | MetalBackendSurface::FriInnerProofSliceBounded
        | MetalBackendSurface::FriProofSliceBounded
        | MetalBackendSurface::FriProverTranscriptOwnedBounded
        | MetalBackendSurface::FriBlake2sSubpathDeclared
        | MetalBackendSurface::WorkloadBoundaryHybridDeclared
        | MetalBackendSurface::WorkloadWideFibonacciWitnessCpuHandoff
        | MetalBackendSurface::WideFibonacciQuotientAccumulateNative
        | MetalBackendSurface::WorkloadFriReadyEvaluationCpuHandoff
        | MetalBackendSurface::WorkloadQuotientEvaluationCpuHandoff => {
            MetalBackendSurfaceStatus::Supported
        }
        MetalBackendSurface::FriFirstInnerLayerCommitmentCpuBridge
        | MetalBackendSurface::PolyOpsCpuBridge => {
            MetalBackendSurfaceStatus::SupportedExplicitCpuBridge
        }
        MetalBackendSurface::AccumulationOpsCpuBridge
        | MetalBackendSurface::QuotientOpsCpuBridge
        | MetalBackendSurface::FriOpsCpuBridge
        | MetalBackendSurface::MleOpsCpuBridge
        | MetalBackendSurface::GkrOpsCpuBridge
        | MetalBackendSurface::Blake2sHashColumnCpuBridge
        | MetalBackendSurface::Blake2sMerkleOpsLiftedCpuBridge
        | MetalBackendSurface::Blake2sGrindCpuBridge
        | MetalBackendSurface::Blake2sBackendForChannelCpuBridge => {
            MetalBackendSurfaceStatus::SupportedExplicitCpuBridge
        }
        MetalBackendSurface::QuotientAccumulate => MetalBackendSurfaceStatus::UnsupportedPlanned,
    }
}

/// The support status of `surface`.
pub fn metal_backend_surface_status(surface: MetalBackendSurface) -> (r: MetalBackendSurfaceStatus)
    ensures
        r == spec_surface_status(surface),
{
    match surface {
        MetalBackendSurface::WideFibonacciBenchmarkTargetDeclared
        | MetalBackendSurface::WideFibonacciWitnessInputBoundaryDeclared
        | MetalBackendSurface::WideFibonacciTraceGenerationNative
        | MetalBackendSurface::WideFibonacciTraceCpuBridge
        | MetalBackendSurface::BaseFieldColumnSet
        | MetalBackendSurface::BaseFieldColumnFromIterator
        | MetalBackendSurface::BaseFieldColumnBitReverse
        | MetalBackendSurface::BaseFieldTwiddlePrecomputeNative
        | MetalBackendSurface::BaseFieldCosetToCircleDomainBitReverse
        | MetalBackendSurface::SecureFieldColumnSet
        | MetalBackendSurface::SecureFieldColumnFromIterator
        | MetalBackendSurface::SecureFieldColumnBitReverse
        | MetalBackendSurface::FriFirstLayerFoldCircleIntoLine
        | MetalBackendSurface::FriFirstLayerProofNative
        | MetalBackendSurface::FriLineFold
        | MetalBackendSurface::FriFirstInnerLayerCommitmentNative
        | MetalBackendSurface::FriFirstInnerLayerDecommitNative
        | MetalBackendSurface::FriFirstInnerLayerProofRowNative
        | MetalBackendSurface::FriInnerLayerSequenceNative
        | MetalBackendSurface::FriCommitmentSliceBounded
        | MetalBackendSurface::FriInnerProofSliceBounded
        | MetalBackendSurface::FriProofSliceBounded
        | MetalBackendSurface::FriProverTranscriptOwnedBounded
        | MetalBackendSurface::FriBlake2sSubpathDeclared
        | MetalBackendSurface::WorkloadBoundaryHybridDeclared
        | MetalBackendSurface::WorkloadWideFibonacciWitnessCpuHandoff
        | MetalBackendSurface::WideFibonacciQuotientAccumulateNative
        | MetalBackendSurface::WorkloadFriReadyEvaluationCpuHandoff
        | MetalBackendSurface::WorkloadQuotientEvaluationCpuHandoff => {
            MetalBackendSurfaceStatus::Supported
        }
        MetalBackendSurface::FriFirstInnerLayerCommitmentCpuBridge
        | MetalBackendSurface::PolyOpsCpuBridge => {
            MetalBackendSurfaceStatus::SupportedExplicitCpuBridge
        }
        MetalBackendSurface::AccumulationOpsCpuBridge
        | MetalBackendSurface::QuotientOpsCpuBridge
        | MetalBackendSurface::FriOpsCpuBridge
        | MetalBackendSurface::MleOpsCpuBridge
        | MetalBackendSurface::GkrOpsCpuBridge
        | MetalBackendSurface::Blake2sHashColumnCpuBridge
        | MetalBackendSurface::Blake2sMerkleOpsLiftedCpuBridge
        | MetalBackendSurface::Blake2sGrindCpuBridge
        | MetalBackendSurface::Blake2sBackendForChannelCpuBridge => {
            MetalBackendSurfaceStatus::SupportedExplicitCpuBridge
        }
        MetalBackendSurface::QuotientAccumulate => MetalBackendSurfaceStatus::UnsupportedPlanned,
    }
}

/// The declared explanation of each surface.
pub open spec fn spec_surface_detail(surface: MetalBackendSurface) -> &'static str {
    match surface {
        MetalBackendSurface::WideFibonacciBenchmarkTargetDeclared => {
            "A declared wide-fibonacci benchmark target is supported as a formal Metal port objective."
        }
        MetalBackendSurface::WideFibonacciWitnessInputBoundaryDeclared => {
            "A witness-input boundary is supported for the declared wide-fibonacci benchmark target."
        }
        MetalBackendSurface::WideFibonacciTraceGenerationNative => {
            "Wide-fibonacci trace generation is implemented through a native `.metal` kernel that writes a contiguous column-major trace buffer."
        }
        MetalBackendSurface::WideFibonacciTraceCpuBridge => {
            "The native Metal wide-fibonacci trace CPU bridge is supported and materializes ordinary CPU circle evaluations for unchanged upstream example prove/verify wiring."
        }
        MetalBackendSurface::PolyOpsCpuBridge => {
            "The `PolyOps` boundary is supported through an explicit CPU bridge over Metal-owned column storage; native Metal twiddle precompute is implemented, but interpolation and evaluation still bridge through the vendored CPU backend."
        }
        MetalBackendSurface::AccumulationOpsCpuBridge => {
            "The `AccumulationOps` boundary is supported through an explicit CPU bridge over Metal-owned secure-column storage."
        }
        MetalBackendSurface::QuotientOpsCpuBridge => {
            "The `QuotientOps` boundary is supported through an explicit CPU bridge over Metal-owned evaluation and accumulation storage."
        }
        MetalBackendSurface::FriOpsCpuBridge => {
            "The `FriOps` boundary is supported through an explicit CPU bridge that repacks Metal-owned secure columns into the bounded Metal fold kernels and uses the vendored CPU backend for decomposition."
        }
        MetalBackendSurface::MleOpsCpuBridge => {
            "The `MleOps` boundary is supported through an explicit CPU bridge over Metal-owned multilinear-evaluation storage."
        }
        MetalBackendSurface::GkrOpsCpuBridge => {
            "The `GkrOps` boundary is supported through an explicit CPU bridge over Metal-owned lookup-layer storage and CPU-owned oracle evaluation."
        }
        MetalBackendSurface::Blake2sHashColumnCpuBridge => {
            "The `ColumnOps<Blake2sHash>` boundary is supported through an explicit CPU bridge over host-owned Blake2s hash columns."
        }
        MetalBackendSurface::Blake2sMerkleOpsLiftedCpuBridge => {
            "The lifted Blake2s Merkle boundary is supported through an explicit CPU bridge over Metal-owned base-field columns."
        }
        MetalBackendSurface::Blake2sGrindCpuBridge => {
            "The Blake2s proof-of-work boundary is supported through an explicit CPU bridge."
        }
        MetalBackendSurface::Blake2sBackendForChannelCpuBridge => {
            "The Blake2s `BackendForChannel` boundary is supported through an explicit CPU bridge over Merkle and proof-of-work surfaces."
        }
        MetalBackendSurface::BaseFieldColumnSet => "Base-field Metal column mutation is supported.",
        MetalBackendSurface::BaseFieldColumnFromIterator => {
            "Base-field Metal column construction from iterators is supported."
        }
        MetalBackendSurface::BaseFieldColumnBitReverse => {
            "Base-field bit reversal is implemented through a native Metal kernel."
        }
        MetalBackendSurface::BaseFieldTwiddlePrecomputeNative => {
            "Base-field twiddle precompute and inverse-twiddle generation are implemented through native Metal kernels and parity-tested against the vendored CPU oracle."
        }
        MetalBackendSurface::BaseFieldCosetToCircleDomainBitReverse => {
            "Base-field coset-order to circle-domain bit-reversed permutation is implemented through a native Metal kernel."
        }
        MetalBackendSurface::SecureFieldColumnSet => {
            "Secure-field Metal column mutation is supported."
        }
        MetalBackendSurface::SecureFieldColumnFromIterator => {
            "Secure-field Metal column construction from iterators is supported."
        }
        MetalBackendSurface::SecureFieldColumnBitReverse => {
            "Secure-field bit reversal is implemented through a native Metal kernel."
        }
        MetalBackendSurface::FriFirstLayerFoldCircleIntoLine => {
            "The bounded FRI first-layer fold from circle evaluation into line evaluation is implemented through a native Metal kernel."
        }
        MetalBackendSurface::FriFirstLayerProofNative => {
            "The bounded FRI first-layer circle commitment and decommit boundary is implemented through a native stwo-metal proof surface."
        }
        MetalBackendSurface::FriLineFold => {
            "The bounded FRI line-fold path is implemented through native Metal kernels with host-orchestrated repeated folding."
        }
        MetalBackendSurface::FriFirstInnerLayerCommitmentNative => {
            "The first inner FRI-layer commitment is implemented through a stwo-metal-owned native line-evaluation and commitment boundary."
        }
        MetalBackendSurface::FriFirstInnerLayerDecommitNative => {
            "The first inner FRI-layer query and decommit boundary is implemented through the native stwo-metal line-commitment surface."
        }
        MetalBackendSurface::FriFirstInnerLayerProofRowNative => {
            "The first inner FRI layer is implemented as a native proof-facing row with a stable root and decommit API."
        }
        MetalBackendSurface::FriInnerLayerSequenceNative => {
            "A bounded native inner-layer FRI sequence is implemented on top of the first proof-facing row."
        }
        MetalBackendSurface::FriCommitmentSliceBounded => {
            "A bounded FRI commitment slice is implemented on top of the native inner-layer sequence."
        }
        MetalBackendSurface::FriInnerProofSliceBounded => {
            "A bounded proof-facing inner FRI proof slice is implemented on top of the commitment slice."
        }
        MetalBackendSurface::FriProofSliceBounded => {
            "A bounded full FRI proof slice is implemented by composing the native first-layer proof boundary with the inner proof slice."
        }
        MetalBackendSurface::FriProverTranscriptOwnedBounded => {
            "A bounded transcript-owned Metal FRI prover is implemented with vendored channel ordering for commit and decommit."
        }
        MetalBackendSurface::FriBlake2sSubpathDeclared => {
            "A declared bounded Blake2s FRI proving sub-path is implemented on top of the transcript-owned Metal prover."
        }
        MetalBackendSurface::WorkloadBoundaryHybridDeclared => {
            "A declared Stwo workload boundary is supported for routing one workload through the Metal FRI sub-path while keeping witness, quotient, and PCS ownership explicit."
        }
        MetalBackendSurface::WorkloadWideFibonacciWitnessCpuHandoff => {
            "A CPU-owned wide-fibonacci witness handoff is supported for feeding the native Metal trace boundary before quotient accumulation."
        }
        MetalBackendSurface::WideFibonacciQuotientAccumulateNative => {
            "A bounded wide-fibonacci quotient accumulation primitive is implemented through a native `.metal` kernel with explicit host/CUDA output bridging in the current benchmark path."
        }
        MetalBackendSurface::WorkloadFriReadyEvaluationCpuHandoff => {
            "A CPU-owned FRI-ready evaluation handoff is supported for the declared Metal hybrid workload boundary with explicit ownership."
        }
        MetalBackendSurface::WorkloadQuotientEvaluationCpuHandoff => {
            "A CPU-owned quotient evaluation handoff is supported for the declared Metal hybrid workload boundary with explicit ownership."
        }
        MetalBackendSurface::FriFirstInnerLayerCommitmentCpuBridge => {
            "The first inner FRI-layer line-evaluation and commitment handoff is available only through an explicit CPU bridge."
        }
        MetalBackendSurface::QuotientAccumulate => {
            "Constraint quotient accumulation remains in the planned Metal migration set."
        }
    }
}

/// The word a detail uses for a surface that goes through the CPU.
pub open spec fn cpu_bridge_phrase() -> Seq<char> {
    "explicit CPU bridge"@
}

/// Whether `detail` holds the CPU-bridge phrase at position `i`.
pub open spec fn cpu_bridge_phrase_at(detail: Seq<char>, i: int) -> bool {
    0 <= i && i + cpu_bridge_phrase().len() <= detail.len() && detail.subrange(i, i + cpu_bridge_phrase().len())
        == cpu_bridge_phrase()
}

/// Whether `detail` holds the CPU-bridge phrase at some position.
pub open spec fn mentions_cpu_bridge(detail: Seq<char>) -> bool {
    exists|i: int| #[trigger] cpu_bridge_phrase_at(detail, i)
}

/// Every surface has a non-empty detail, and the detail of each surface
/// supported through an explicit CPU bridge names that bridge.
#[verifier::rlimit(100)]
#[verifier::spinoff_prover]
pub proof fn lemma_surface_details_describe(a: MetalBackendSurface)
    ensures
        spec_surface_detail(a)@.len() > 0,
        spec_surface_status(a) == MetalBackendSurfaceStatus::SupportedExplicitCpuBridge ==> mentions_cpu_bridge(
            spec_surface_detail(a)@,
        ),
{
    reveal_strlit("A declared wide-fibonacci benchmark target is supported as a formal Metal port objective.");
    reveal_strlit("A witness-input boundary is supported for the declared wide-fibonacci benchmark target.");
    reveal_strlit("Wide-fibonacci trace generation is implemented through a native `.metal` kernel that writes a contiguous column-major trace buffer.");
    reveal_strlit("The native Metal wide-fibonacci trace CPU bridge is supported and materializes ordinary CPU circle evaluations for unchanged upstream example prove/verify wiring.");
    reveal_strlit("The `PolyOps` boundary is supported through an explicit CPU bridge over Metal-owned column storage; native Metal twiddle precompute is implemented, but interpolation and evaluation still bridge through the vendored CPU backend.");
    reveal_strlit("The `AccumulationOps` boundary is supported through an explicit CPU bridge over Metal-owned secure-column storage.");
    reveal_strlit("The `QuotientOps` boundary is supported through an explicit CPU bridge over Metal-owned evaluation and accumulation storage.");
    reveal_strlit("The `FriOps` boundary is supported through an explicit CPU bridge that repacks Metal-owned secure columns into the bounded Metal fold kernels and uses the vendored CPU backend for decomposition.");
    reveal_strlit("The `MleOps` boundary is supported through an explicit CPU bridge over Metal-owned multilinear-evaluation storage.");
    reveal_strlit("The `GkrOps` boundary is supported through an explicit CPU bridge over Metal-owned lookup-layer storage and CPU-owned oracle evaluation.");
    reveal_strlit("The `ColumnOps<Blake2sHash>` boundary is supported through an explicit CPU bridge over host-owned Blake2s hash columns.");
    reveal_strlit("The lifted Blake2s Merkle boundary is supported through an explicit CPU bridge over Metal-owned base-field columns.");
    reveal_strlit("The Blake2s proof-of-work boundary is supported through an explicit CPU bridge.");
    reveal_strlit("The Blake2s `BackendForChannel` boundary is supported through an explicit CPU bridge over Merkle and proof-of-work surfaces.");
    reveal_strlit("Base-field Metal column mutation is supported.");
    reveal_strlit("Base-field Metal column construction from iterators is supported.");
    reveal_strlit("Base-field bit reversal is implemented through a native Metal kernel.");
    reveal_strlit("Base-field twiddle precompute and inverse-twiddle generation are implemented through native Metal kernels and parity-tested against the vendored CPU oracle.");
    reveal_strlit("Base-field coset-order to circle-domain bit-reversed permutation is implemented through a native Metal kernel.");
    reveal_strlit("Secure-field Metal column mutation is supported.");
    reveal_strlit("Secure-field Metal column construction from iterators is supported.");
    reveal_strlit("Secure-field bit reversal is implemented through a native Metal kernel.");
    reveal_strlit("The bounded FRI first-layer fold from circle evaluation into line evaluation is implemented through a native Metal kernel.");
    reveal_strlit("The bounded FRI first-layer circle commitment and decommit boundary is implemented through a native stwo-metal proof surface.");
    reveal_strlit("The bounded FRI line-fold path is implemented through native Metal kernels with host-orchestrated repeated folding.");
    reveal_strlit("The first inner FRI-layer commitment is implemented through a stwo-metal-owned native line-evaluation and commitment boundary.");
    reveal_strlit("The first inner FRI-layer query and decommit boundary is implemented through the native stwo-metal line-commitment surface.");
    reveal_strlit("The first inner FRI layer is implemented as a native proof-facing row with a stable root and decommit API.");
    reveal_strlit("A bounded native inner-layer FRI sequence is implemented on top of the first proof-facing row.");
    reveal_strlit("A bounded FRI commitment slice is implemented on top of the native inner-layer sequence.");
    reveal_strlit("A bounded proof-facing inner FRI proof slice is implemented on top of the commitment slice.");
    reveal_strlit("A bounded full FRI proof slice is implemented by composing the native first-layer proof boundary with the inner proof slice.");
    reveal_strlit("A bounded transcript-owned Metal FRI prover is implemented with vendored channel ordering for commit and decommit.");
    reveal_strlit("A declared bounded Blake2s FRI proving sub-path is implemented on top of the transcript-owned Metal prover.");
    reveal_strlit("A declared Stwo workload boundary is supported for routing one workload through the Metal FRI sub-path while keeping witness, quotient, and PCS ownership explicit.");
    reveal_strlit("A CPU-owned wide-fibonacci witness handoff is supported for feeding the native Metal trace boundary before quotient accumulation.");
    reveal_strlit("A bounded wide-fibonacci quotient accumulation primitive is implemented through a native `.metal` kernel with explicit host/CUDA output bridging in the current benchmark path.");
    reveal_strlit("A CPU-owned FRI-ready evaluation handoff is supported for the declared Metal hybrid workload boundary with explicit ownership.");
    reveal_strlit("A CPU-owned quotient evaluation handoff is supported for the declared Metal hybrid workload boundary with explicit ownership.");
    reveal_strlit("The first inner FRI-layer line-evaluation and commitment handoff is available only through an explicit CPU bridge.");
    reveal_strlit("Constraint quotient accumulation remains in the planned Metal migration set.");
    reveal_strlit("explicit CPU bridge");
    let d = spec_surface_detail(a)@;
    match a {
        MetalBackendSurface::PolyOpsCpuBridge => {
            assert(d.subrange(47int, 47int + 19) =~= cpu_bridge_phrase());
            assert(cpu_bridge_phrase_at(d, 47));
        },
        MetalBackendSurface::AccumulationOpsCpuBridge => {
            assert(d.subrange(55int, 55int + 19) =~= cpu_bridge_phrase());
            assert(cpu_bridge_phrase_at(d, 55));
        },
        MetalBackendSurface::QuotientOpsCpuBridge => {
            assert(d.subrange(51int, 51int + 19) =~= cpu_bridge_phrase());
            assert(cpu_bridge_phrase_at(d, 51));
        },
        MetalBackendSurface::FriOpsCpuBridge => {
            assert(d.subrange(46int, 46int + 19) =~= cpu_bridge_phrase());
            assert(cpu_bridge_phrase_at(d, 46));
        },
        MetalBackendSurface::MleOpsCpuBridge => {
            assert(d.subrange(46int, 46int + 19) =~= cpu_bridge_phrase());
            assert(cpu_bridge_phrase_at(d, 46));
        },
        MetalBackendSurface::GkrOpsCpuBridge => {
            assert(d.subrange(46int, 46int + 19) =~= cpu_bridge_phrase());
            assert(cpu_bridge_phrase_at(d, 46));
        },
        MetalBackendSurface::Blake2sHashColumnCpuBridge => {
            assert(d.subrange(62int, 62int + 19) =~= cpu_bridge_phrase());
            assert(cpu_bridge_phrase_at(d, 62));
        },
        MetalBackendSurface::Blake2sMerkleOpsLiftedCpuBridge => {
            assert(d.subrange(59int, 59int + 19) =~= cpu_bridge_phrase());
            assert(cpu_bridge_phrase_at(d, 59));
        },
        MetalBackendSurface::Blake2sGrindCpuBridge => {
            assert(d.subrange(59int, 59int + 19) =~= cpu_bridge_phrase());
            assert(cpu_bridge_phrase_at(d, 59));
        },
        MetalBackendSurface::Blake2sBackendForChannelCpuBridge => {
            assert(d.subrange(65int, 65int + 19) =~= cpu_bridge_phrase());
            assert(cpu_bridge_phrase_at(d, 65));
        },
        MetalBackendSurface::FriFirstInnerLayerCommitmentCpuBridge => {
            assert(d.subrange(94int, 94int + 19) =~= cpu_bridge_phrase());
            assert(cpu_bridge_phrase_at(d, 94));
        },
        _ => {},
    }
}

/// A length, a position and the character there that set each surface's
/// detail apart from every other surface's.
pub open spec fn surface_detail_key(surface: MetalBackendSurface) -> (nat, int, char) {
    match surface {
        MetalBackendSurface::WideFibonacciBenchmarkTargetDeclared => (89, 0, 'A'),
        MetalBackendSurface::WideFibonacciWitnessInputBoundaryDeclared => (87, 0, 'A'),
        MetalBackendSurface::WideFibonacciTraceGenerationNative => (131, 0, 'W'),
        MetalBackendSurface::WideFibonacciTraceCpuBridge => (162, 0, 'T'),
        MetalBackendSurface::PolyOpsCpuBridge => (227, 0, 'T'),
        MetalBackendSurface::AccumulationOpsCpuBridge => (114, 5, 'A'),
        MetalBackendSurface::QuotientOpsCpuBridge => (124, 4, '`'),
        MetalBackendSurface::FriOpsCpuBridge => (194, 0, 'T'),
        MetalBackendSurface::MleOpsCpuBridge => (114, 5, 'M'),
        MetalBackendSurface::GkrOpsCpuBridge => (136, 0, 'T'),
        MetalBackendSurface::Blake2sHashColumnCpuBridge => (119, 0, 'T'),
        MetalBackendSurface::Blake2sMerkleOpsLiftedCpuBridge => (115, 4, 'l'),
        MetalBackendSurface::Blake2sGrindCpuBridge => (79, 0, 'T'),
        MetalBackendSurface::Blake2sBackendForChannelCpuBridge => (124, 4, 'B'),
        MetalBackendSurface::BaseFieldColumnSet => (46, 0, 'B'),
        MetalBackendSurface::BaseFieldColumnFromIterator => (65, 0, 'B'),
        MetalBackendSurface::BaseFieldColumnBitReverse => (69, 0, 'B'),
        MetalBackendSurface::BaseFieldTwiddlePrecomputeNative => (156, 0, 'B'),
        MetalBackendSurface::BaseFieldCosetToCircleDomainBitReverse => (110, 0, 'B'),
        MetalBackendSurface::SecureFieldColumnSet => (48, 0, 'S'),
        MetalBackendSurface::SecureFieldColumnFromIterator => (67, 0, 'S'),
        MetalBackendSurface::SecureFieldColumnBitReverse => (71, 0, 'S'),
        MetalBackendSurface::FriFirstLayerFoldCircleIntoLine => (122, 0, 'T'),
        MetalBackendSurface::FriFirstLayerProofNative => (125, 0, 'T'),
        MetalBackendSurface::FriLineFold => (115, 4, 'b'),
        MetalBackendSurface::FriFirstInnerLayerCommitmentNative => (126, 0, 'T'),
        MetalBackendSurface::FriFirstInnerLayerDecommitNative => (123, 0, 'T'),
        MetalBackendSurface::FriFirstInnerLayerProofRowNative => (106, 0, 'T'),
        MetalBackendSurface::FriInnerLayerSequenceNative => (94, 0, 'A'),
        MetalBackendSurface::FriCommitmentSliceBounded => (88, 0, 'A'),
        MetalBackendSurface::FriInnerProofSliceBounded => (91, 0, 'A'),
        MetalBackendSurface::FriProofSliceBounded => (124, 4, 'u'),
        MetalBackendSurface::FriProverTranscriptOwnedBounded => (114, 5, 'n'),
        MetalBackendSurface::FriBlake2sSubpathDeclared => (107, 0, 'A'),
        MetalBackendSurface::WorkloadBoundaryHybridDeclared => (163, 0, 'A'),
        MetalBackendSurface::WorkloadWideFibonacciWitnessCpuHandoff => (129, 0, 'A'),
        MetalBackendSurface::WideFibonacciQuotientAccumulateNative => (175, 0, 'A'),
        MetalBackendSurface::WorkloadFriReadyEvaluationCpuHandoff => (126, 0, 'A'),
        MetalBackendSurface::WorkloadQuotientEvaluationCpuHandoff => (125, 0, 'A'),
        MetalBackendSurface::FriFirstInnerLayerCommitmentCpuBridge => (114, 5, 'i'),
        MetalBackendSurface::QuotientAccumulate => (76, 0, 'C'),
    }
}

proof fn lemma_surface_detail_key(a: MetalBackendSurface)
    ensures
        spec_surface_detail(a)@.len() == surface_detail_key(a).0,
        spec_surface_detail(a)@[surface_detail_key(a).1] == surface_detail_key(a).2,
{
    match a {
        MetalBackendSurface::WideFibonacciBenchmarkTargetDeclared => {
            reveal_strlit("A declared wide-fibonacci benchmark target is supported as a formal Metal port objective.");
        },
        MetalBackendSurface::WideFibonacciWitnessInputBoundaryDeclared => {
            reveal_strlit("A witness-input boundary is supported for the declared wide-fibonacci benchmark target.");
        },
        MetalBackendSurface::WideFibonacciTraceGenerationNative => {
            reveal_strlit("Wide-fibonacci trace generation is implemented through a native `.metal` kernel that writes a contiguous column-major trace buffer.");
        },
        MetalBackendSurface::WideFibonacciTraceCpuBridge => {
            reveal_strlit("The native Metal wide-fibonacci trace CPU bridge is supported and materializes ordinary CPU circle evaluations for unchanged upstream example prove/verify wiring.");
        },
        MetalBackendSurface::PolyOpsCpuBridge => {
            reveal_strlit("The `PolyOps` boundary is supported through an explicit CPU bridge over Metal-owned column storage; native Metal twiddle precompute is implemented, but interpolation and evaluation still bridge through the vendored CPU backend.");
        },
        MetalBackendSurface::AccumulationOpsCpuBridge => {
            reveal_strlit("The `AccumulationOps` boundary is supported through an explicit CPU bridge over Metal-owned secure-column storage.");
        },
        MetalBackendSurface::QuotientOpsCpuBridge => {
            reveal_strlit("The `QuotientOps` boundary is supported through an explicit CPU bridge over Metal-owned evaluation and accumulation storage.");
        },
        MetalBackendSurface::FriOpsCpuBridge => {
            reveal_strlit("The `FriOps` boundary is supported through an explicit CPU bridge that repacks Metal-owned secure columns into the bounded Metal fold kernels and uses the vendored CPU backend for decomposition.");
        },
        MetalBackendSurface::MleOpsCpuBridge => {
            reveal_strlit("The `MleOps` boundary is supported through an explicit CPU bridge over Metal-owned multilinear-evaluation storage.");
        },
        MetalBackendSurface::GkrOpsCpuBridge => {
            reveal_strlit("The `GkrOps` boundary is supported through an explicit CPU bridge over Metal-owned lookup-layer storage and CPU-owned oracle evaluation.");
        },
        MetalBackendSurface::Blake2sHashColumnCpuBridge => {
            reveal_strlit("The `ColumnOps<Blake2sHash>` boundary is supported through an explicit CPU bridge over host-owned Blake2s hash columns.");
        },
        MetalBackendSurface::Blake2sMerkleOpsLiftedCpuBridge => {
            reveal_strlit("The lifted Blake2s Merkle boundary is supported through an explicit CPU bridge over Metal-owned base-field columns.");
        },
        MetalBackendSurface::Blake2sGrindCpuBridge => {
            reveal_strlit("The Blake2s proof-of-work boundary is supported through an explicit CPU bridge.");
        },
        MetalBackendSurface::Blake2sBackendForChannelCpuBridge => {
            reveal_strlit("The Blake2s `BackendForChannel` boundary is supported through an explicit CPU bridge over Merkle and proof-of-work surfaces.");
        },
        MetalBackendSurface::BaseFieldColumnSet => {
            reveal_strlit("Base-field Metal column mutation is supported.");
        },
        MetalBackendSurface::BaseFieldColumnFromIterator => {
            reveal_strlit("Base-field Metal column construction from iterators is supported.");
        },
        MetalBackendSurface::BaseFieldColumnBitReverse => {
            reveal_strlit("Base-field bit reversal is implemented through a native Metal kernel.");
        },
        MetalBackendSurface::BaseFieldTwiddlePrecomputeNative => {
            reveal_strlit("Base-field twiddle precompute and inverse-twiddle generation are implemented through native Metal kernels and parity-tested against the vendored CPU oracle.");
        },
        MetalBackendSurface::BaseFieldCosetToCircleDomainBitReverse => {
            reveal_strlit("Base-field coset-order to circle-domain bit-reversed permutation is implemented through a native Metal kernel.");
        },
        MetalBackendSurface::SecureFieldColumnSet => {
            reveal_strlit("Secure-field Metal column mutation is supported.");
        },
        MetalBackendSurface::SecureFieldColumnFromIterator => {
            reveal_strlit("Secure-field Metal column construction from iterators is supported.");
        },
        MetalBackendSurface::SecureFieldColumnBitReverse => {
            reveal_strlit("Secure-field bit reversal is implemented through a native Metal kernel.");
        },
        MetalBackendSurface::FriFirstLayerFoldCircleIntoLine => {
            reveal_strlit("The bounded FRI first-layer fold from circle evaluation into line evaluation is implemented through a native Metal kernel.");
        },
        MetalBackendSurface::FriFirstLayerProofNative => {
            reveal_strlit("The bounded FRI first-layer circle commitment and decommit boundary is implemented through a native stwo-metal proof surface.");
        },
        MetalBackendSurface::FriLineFold => {
            reveal_strlit("The bounded FRI line-fold path is implemented through native Metal kernels with host-orchestrated repeated folding.");
        },
        MetalBackendSurface::FriFirstInnerLayerCommitmentNative => {
            reveal_strlit("The first inner FRI-layer commitment is implemented through a stwo-metal-owned native line-evaluation and commitment boundary.");
        },
        MetalBackendSurface::FriFirstInnerLayerDecommitNative => {
            reveal_strlit("The first inner FRI-layer query and decommit boundary is implemented through the native stwo-metal line-commitment surface.");
        },
        MetalBackendSurface::FriFirstInnerLayerProofRowNative => {
            reveal_strlit("The first inner FRI layer is implemented as a native proof-facing row with a stable root and decommit API.");
        },
        MetalBackendSurface::FriInnerLayerSequenceNative => {
            reveal_strlit("A bounded native inner-layer FRI sequence is implemented on top of the first proof-facing row.");
        },
        MetalBackendSurface::FriCommitmentSliceBounded => {
            reveal_strlit("A bounded FRI commitment slice is implemented on top of the native inner-layer sequence.");
        },
        MetalBackendSurface::FriInnerProofSliceBounded => {
            reveal_strlit("A bounded proof-facing inner FRI proof slice is implemented on top of the commitment slice.");
        },
        MetalBackendSurface::FriProofSliceBounded => {
            reveal_strlit("A bounded full FRI proof slice is implemented by composing the native first-layer proof boundary with the inner proof slice.");
        },
        MetalBackendSurface::FriProverTranscriptOwnedBounded => {
            reveal_strlit("A bounded transcript-owned Metal FRI prover is implemented with vendored channel ordering for commit and decommit.");
        },
        MetalBackendSurface::FriBlake2sSubpathDeclared => {
            reveal_strlit("A declared bounded Blake2s FRI proving sub-path is implemented on top of the transcript-owned Metal prover.");
        },
        MetalBackendSurface::WorkloadBoundaryHybridDeclared => {
            reveal_strlit("A declared Stwo workload boundary is supported for routing one workload through the Metal FRI sub-path while keeping witness, quotient, and PCS ownership explicit.");
        },
        MetalBackendSurface::WorkloadWideFibonacciWitnessCpuHandoff => {
            reveal_strlit("A CPU-owned wide-fibonacci witness handoff is supported for feeding the native Metal trace boundary before quotient accumulation.");
        },
        MetalBackendSurface::WideFibonacciQuotientAccumulateNative => {
            reveal_strlit("A bounded wide-fibonacci quotient accumulation primitive is implemented through a native `.metal` kernel with explicit host/CUDA output bridging in the current benchmark path.");
        },
        MetalBackendSurface::WorkloadFriReadyEvaluationCpuHandoff => {
            reveal_strlit("A CPU-owned FRI-ready evaluation handoff is supported for the declared Metal hybrid workload boundary with explicit ownership.");
        },
        MetalBackendSurface::WorkloadQuotientEvaluationCpuHandoff => {
            reveal_strlit("A CPU-owned quotient evaluation handoff is supported for the declared Metal hybrid workload boundary with explicit ownership.");
        },
        MetalBackendSurface::FriFirstInnerLayerCommitmentCpuBridge => {
            reveal_strlit("The first inner FRI-layer line-evaluation and commitment handoff is available only through an explicit CPU bridge.");
        },
        MetalBackendSurface::QuotientAccumulate => {
            reveal_strlit("Constraint quotient accumulation remains in the planned Metal migration set.");
        },
    }
}

/// No two surfaces share a detail.
pub proof fn lemma_surface_details_distinct(a: MetalBackendSurface, b: MetalBackendSurface)
    ensures
        a != b ==> spec_surface_detail(a)@ != spec_surface_detail(b)@,
{
    lemma_surface_detail_key(a);
    lemma_surface_detail_key(b);
}

/// A human-readable explanation of how `surface` is supported.
pub fn metal_backend_surface_detail(surface: MetalBackendSurface) -> (r: &'static str)
    ensures
        r == spec_surface_detail(surface),
{
    match surface {
        MetalBackendSurface::WideFibonacciBenchmarkTargetDeclared => {
            "A declared wide-fibonacci benchmark target is supported as a formal Metal port objective."
        }
        MetalBackendSurface::WideFibonacciWitnessInputBoundaryDeclared => {
            "A witness-input boundary is supported for the declared wide-fibonacci benchmark target."
        }
        MetalBackendSurface::WideFibonacciTraceGenerationNative => {
            "Wide-fibonacci trace generation is implemented through a native `.metal` kernel that writes a contiguous column-major trace buffer."
        }
        MetalBackendSurface::WideFibonacciTraceCpuBridge => {
            "The native Metal wide-fibonacci trace CPU bridge is supported and materializes ordinary CPU circle evaluations for unchanged upstream example prove/verify wiring."
        }
        MetalBackendSurface::PolyOpsCpuBridge => {
            "The `PolyOps` boundary is supported through an explicit CPU bridge over Metal-owned column storage; native Metal twiddle precompute is implemented, but interpolation and evaluation still bridge through the vendored CPU backend."
        }
        MetalBackendSurface::AccumulationOpsCpuBridge => {
            "The `AccumulationOps` boundary is supported through an explicit CPU bridge over Metal-owned secure-column storage."
        }
        MetalBackendSurface::QuotientOpsCpuBridge => {
            "The `QuotientOps` boundary is supported through an explicit CPU bridge over Metal-owned evaluation and accumulation storage."
        }
        MetalBackendSurface::FriOpsCpuBridge => {
            "The `FriOps` boundary is supported through an explicit CPU bridge that repacks Metal-owned secure columns into the bounded Metal fold kernels and uses the vendored CPU backend for decomposition."
        }
        MetalBackendSurface::MleOpsCpuBridge => {
            "The `MleOps` boundary is supported through an explicit CPU bridge over Metal-owned multilinear-evaluation storage."
        }
        MetalBackendSurface::GkrOpsCpuBridge => {
            "The `GkrOps` boundary is supported through an explicit CPU bridge over Metal-owned lookup-layer storage and CPU-owned oracle evaluation."
        }
        MetalBackendSurface::Blake2sHashColumnCpuBridge => {
            "The `ColumnOps<Blake2sHash>` boundary is supported through an explicit CPU bridge over host-owned Blake2s hash columns."
        }
        MetalBackendSurface::Blake2sMerkleOpsLiftedCpuBridge => {
            "The lifted Blake2s Merkle boundary is supported through an explicit CPU bridge over Metal-owned base-field columns."
        }
        MetalBackendSurface::Blake2sGrindCpuBridge => {
            "The Blake2s proof-of-work boundary is supported through an explicit CPU bridge."
        }
        MetalBackendSurface::Blake2sBackendForChannelCpuBridge => {
            "The Blake2s `BackendForChannel` boundary is supported through an explicit CPU bridge over Merkle and proof-of-work surfaces."
        }
        MetalBackendSurface::BaseFieldColumnSet => "Base-field Metal column mutation is supported.",
        MetalBackendSurface::BaseFieldColumnFromIterator => {
            "Base-field Metal column construction from iterators is supported."
        }
        MetalBackendSurface::BaseFieldColumnBitReverse => {
            "Base-field bit reversal is implemented through a native Metal kernel."
        }
        MetalBackendSurface::BaseFieldTwiddlePrecomputeNative => {
            "Base-field twiddle precompute and inverse-twiddle generation are implemented through native Metal kernels and parity-tested against the vendored CPU oracle."
        }
        MetalBackendSurface::BaseFieldCosetToCircleDomainBitReverse => {
            "Base-field coset-order to circle-domain bit-reversed permutation is implemented through a native Metal kernel."
        }
        MetalBackendSurface::SecureFieldColumnSet => {
            "Secure-field Metal column mutation is supported."
        }
        MetalBackendSurface::SecureFieldColumnFromIterator => {
            "Secure-field Metal column construction from iterators is supported."
        }
        MetalBackendSurface::SecureFieldColumnBitReverse => {
            "Secure-field bit reversal is implemented through a native Metal kernel."
        }
        MetalBackendSurface::FriFirstLayerFoldCircleIntoLine => {
            "The bounded FRI first-layer fold from circle evaluation into line evaluation is implemented through a native Metal kernel."
        }
        MetalBackendSurface::FriFirstLayerProofNative => {
            "The bounded FRI first-layer circle commitment and decommit boundary is implemented through a native stwo-metal proof surface."
        }
        MetalBackendSurface::FriLineFold => {
            "The bounded FRI line-fold path is implemented through native Metal kernels with host-orchestrated repeated folding."
        }
        MetalBackendSurface::FriFirstInnerLayerCommitmentNative => {
            "The first inner FRI-layer commitment is implemented through a stwo-metal-owned native line-evaluation and commitment boundary."
        }
        MetalBackendSurface::FriFirstInnerLayerDecommitNative => {
            "The first inner FRI-layer query and decommit boundary is implemented through the native stwo-metal line-commitment surface."
        }
        MetalBackendSurface::FriFirstInnerLayerProofRowNative => {
            "The first inner FRI layer is implemented as a native proof-facing row with a stable root and decommit API."
        }
        MetalBackendSurface::FriInnerLayerSequenceNative => {
            "A bounded native inner-layer FRI sequence is implemented on top of the first proof-facing row."
        }
        MetalBackendSurface::FriCommitmentSliceBounded => {
            "A bounded FRI commitment slice is implemented on top of the native inner-layer sequence."
        }
        MetalBackendSurface::FriInnerProofSliceBounded => {
            "A bounded proof-facing inner FRI proof slice is implemented on top of the commitment slice."
        }
        MetalBackendSurface::FriProofSliceBounded => {
            "A bounded full FRI proof slice is implemented by composing the native first-layer proof boundary with the inner proof slice."
        }
        MetalBackendSurface::FriProverTranscriptOwnedBounded => {
            "A bounded transcript-owned Metal FRI prover is implemented with vendored channel ordering for commit and decommit."
        }
        MetalBackendSurface::FriBlake2sSubpathDeclared => {
            "A declared bounded Blake2s FRI proving sub-path is implemented on top of the transcript-owned Metal prover."
        }
        MetalBackendSurface::WorkloadBoundaryHybridDeclared => {
            "A declared Stwo workload boundary is supported for routing one workload through the Metal FRI sub-path while keeping witness, quotient, and PCS ownership explicit."
        }
        MetalBackendSurface::WorkloadWideFibonacciWitnessCpuHandoff => {
            "A CPU-owned wide-fibonacci witness handoff is supported for feeding the native Metal trace boundary before quotient accumulation."
        }
        MetalBackendSurface::WideFibonacciQuotientAccumulateNative => {
            "A bounded wide-fibonacci quotient accumulation primitive is implemented through a native `.metal` kernel with explicit host/CUDA output bridging in the current benchmark path."
        }
        MetalBackendSurface::WorkloadFriReadyEvaluationCpuHandoff => {
            "A CPU-owned FRI-ready evaluation handoff is supported for the declared Metal hybrid workload boundary with explicit ownership."
        }
        MetalBackendSurface::WorkloadQuotientEvaluationCpuHandoff => {
            "A CPU-owned quotient evaluation handoff is supported for the declared Metal hybrid workload boundary with explicit ownership."
        }
        MetalBackendSurface::FriFirstInnerLayerCommitmentCpuBridge => {
            "The first inner FRI-layer line-evaluation and commitment handoff is available only through an explicit CPU bridge."
        }
        MetalBackendSurface::QuotientAccumulate => {
            "Constraint quotient accumulation remains in the planned Metal migration set."
        }
    }
}

} // verus!
