use vstd::prelude::*;

use crate::eval_program::{
    spec_section_kind_from_raw, spec_section_kind_raw, MetalEvaluationProgramBudgetV1,
    MetalEvaluationProgramHeaderV1, MetalEvaluationProgramSectionDescV1,
    MetalEvaluationProgramSectionKindV1, STWO_METAL_EVAL_PROGRAM_ABI_MAJOR_V1,
    STWO_METAL_EVAL_PROGRAM_ABI_MINOR_V1, STWO_METAL_EVAL_PROGRAM_CAP_PREFINALIZED_LOGUP_V1,
    STWO_METAL_EVAL_PROGRAM_FLAG_PREFINALIZED_LOGUP_V1, STWO_METAL_EVAL_PROGRAM_MAGIC_V1,
    STWO_METAL_EVAL_PROGRAM_SECURE_EXT_DEGREE_V1,
};

verus! {

/// A borrowed evaluation program: header, section table, and payload length.
#[derive(Copy, Clone, Debug, PartialEq, Eq)]
pub struct MetalEvaluationProgramV1<'a> {
    pub header: MetalEvaluationProgramHeaderV1,
    pub sections: &'a [MetalEvaluationProgramSectionDescV1],
    pub payload_len_bytes: u64,
}

#[derive(Copy, Clone, Debug, PartialEq, Eq)]
pub enum MetalEvaluationProgramValidationError {
    InvalidMagic { found: u32 },
    UnsupportedAbiMajor { found: u16 },
    UnsupportedAbiMinor { found: u16 },
    MissingPrefinalizedLogupFlag,
    MissingPrefinalizedLogupCapability,
    UnsupportedSecureExtDegree { found: u32 },
    SectionCountMismatch { header_count: u32, actual_count: usize },
    UnknownSectionKind { raw_kind: u32 },
    DuplicateSection { kind: MetalEvaluationProgramSectionKindV1 },
    MissingRequiredSection { kind: MetalEvaluationProgramSectionKindV1 },
    ZeroSizedSection { kind: MetalEvaluationProgramSectionKindV1 },
    SectionOutOfBounds {
        kind: MetalEvaluationProgramSectionKindV1,
        end_offset: u64,
        payload_len_bytes: u64,
    },
    BaseRegisterBudgetExceeded { required: u32, supported: u32 },
    ExtensionRegisterBudgetExceeded { required: u32, supported: u32 },
}

/// The end offset of a section, as an unbounded integer.
pub open spec fn section_end(s: MetalEvaluationProgramSectionDescV1) -> int {
    s.offset_bytes as int + s.count as int * s.elem_size as int
}

/// Scans sections from index `i` on, given the kinds already `seen`; returns
/// every kind seen, or the first section error.
pub open spec fn scan_sections_from(
    sections: Seq<MetalEvaluationProgramSectionDescV1>,
    payload_len_bytes: u64,
    i: int,
    seen: Set<MetalEvaluationProgramSectionKindV1>,
) -> Result<Set<MetalEvaluationProgramSectionKindV1>, MetalEvaluationProgramValidationError>
    decreases sections.len() - i,
{
    if i < 0 || i >= sections.len() {
        Ok(seen)
    } else {
        let section = sections[i];
        match spec_section_kind_from_raw(section.kind) {
            None => Err(MetalEvaluationProgramValidationError::UnknownSectionKind { raw_kind: section.kind }),
            Some(kind) => if seen.contains(kind) {
                Err(MetalEvaluationProgramValidationError::DuplicateSection { kind })
            } else if section.elem_size == 0 {
                Err(MetalEvaluationProgramValidationError::ZeroSizedSection { kind })
            } else if section_end(section) > u64::MAX {
                Err(
                    MetalEvaluationProgramValidationError::SectionOutOfBounds {
                        kind,
                        end_offset: u64::MAX,
                        payload_len_bytes,
                    },
                )
            } else if section_end(section) > payload_len_bytes {
                Err(
                    MetalEvaluationProgramValidationError::SectionOutOfBounds {
                        kind,
                        end_offset: section_end(section) as u64,
                        payload_len_bytes,
                    },
                )
            } else {
                scan_sections_from(sections, payload_len_bytes, i + 1, seen.insert(kind))
            },
        }
    }
}

/// The first required section kind missing from `seen`.
pub open spec fn first_missing_required(seen: Set<MetalEvaluationProgramSectionKindV1>) -> Option<
    MetalEvaluationProgramSectionKindV1,
> {
    if !seen.contains(MetalEvaluationProgramSectionKindV1::BaseConsts) {
        Some(MetalEvaluationProgramSectionKindV1::BaseConsts)
    } else if !seen.contains(MetalEvaluationProgramSectionKindV1::ExtConsts) {
        Some(MetalEvaluationProgramSectionKindV1::ExtConsts)
    } else if !seen.contains(MetalEvaluationProgramSectionKindV1::BaseInsts) {
        Some(MetalEvaluationProgramSectionKindV1::BaseInsts)
    } else if !seen.contains(MetalEvaluationProgramSectionKindV1::ExtInsts) {
        Some(MetalEvaluationProgramSectionKindV1::ExtInsts)
    } else if !seen.contains(MetalEvaluationProgramSectionKindV1::ConstraintRoots) {
        Some(MetalEvaluationProgramSectionKindV1::ConstraintRoots)
    } else {
        None
    }
}

/// The verdict on a program: header checks in order, then budget checks,
/// then the section table, then the required sections.
pub open spec fn spec_validate_program(
    header: MetalEvaluationProgramHeaderV1,
    sections: Seq<MetalEvaluationProgramSectionDescV1>,
    payload_len_bytes: u64,
    budget: MetalEvaluationProgramBudgetV1,
) -> Result<(), MetalEvaluationProgramValidationError> {
    if header.magic != STWO_METAL_EVAL_PROGRAM_MAGIC_V1 {
        Err(MetalEvaluationProgramValidationError::InvalidMagic { found: header.magic })
    } else if header.abi_major != STWO_METAL_EVAL_PROGRAM_ABI_MAJOR_V1 {
        Err(MetalEvaluationProgramValidationError::UnsupportedAbiMajor { found: header.abi_major })
    } else if header.abi_minor > STWO_METAL_EVAL_PROGRAM_ABI_MINOR_V1 {
        Err(MetalEvaluationProgramValidationError::UnsupportedAbiMinor { found: header.abi_minor })
    } else if header.flags & STWO_METAL_EVAL_PROGRAM_FLAG_PREFINALIZED_LOGUP_V1 == 0 {
        Err(MetalEvaluationProgramValidationError::MissingPrefinalizedLogupFlag)
    } else if header.capability_bits & STWO_METAL_EVAL_PROGRAM_CAP_PREFINALIZED_LOGUP_V1 == 0 {
        Err(MetalEvaluationProgramValidationError::MissingPrefinalizedLogupCapability)
    } else if header.secure_ext_degree != STWO_METAL_EVAL_PROGRAM_SECURE_EXT_DEGREE_V1 {
        Err(
            MetalEvaluationProgramValidationError::UnsupportedSecureExtDegree {
                found: header.secure_ext_degree,
            },
        )
    } else if header.n_sections as int != sections.len() {
        Err(
            MetalEvaluationProgramValidationError::SectionCountMismatch {
                header_count: header.n_sections,
                actual_count: sections.len() as usize,
            },
        )
    } else if header.max_base_regs > budget.max_base_regs {
        Err(
            MetalEvaluationProgramValidationError::BaseRegisterBudgetExceeded {
                required: header.max_base_regs,
                supported: budget.max_base_regs,
            },
        )
    } else if header.max_ext_regs > budget.max_ext_regs {
        Err(
            MetalEvaluationProgramValidationError::ExtensionRegisterBudgetExceeded {
                required: header.max_ext_regs,
                supported: budget.max_ext_regs,
            },
        )
    } else {
        match scan_sections_from(sections, payload_len_bytes, 0, Set::empty()) {
            Err(e) => Err(e),
            Ok(seen) => match first_missing_required(seen) {
                Some(kind) => Err(MetalEvaluationProgramValidationError::MissingRequiredSection { kind }),
                None => Ok(()),
            },
        }
    }
}

spec fn kind_index(kind: MetalEvaluationProgramSectionKindV1) -> int {
    spec_section_kind_raw(kind) - 1
}

impl<'a> MetalEvaluationProgramV1<'a> {
    /// Checks the program against the version-1 contract and `budget`.
    #[verifier::loop_isolation(false)]
    pub fn validate(self, budget: MetalEvaluationProgramBudgetV1) -> (r: Result<
        (),
        MetalEvaluationProgramValidationError,
    >)
        ensures
            r == spec_validate_program(self.header, self.sections@, self.payload_len_bytes, budget),
    {
        let header = self.header;
        if header.magic != STWO_METAL_EVAL_PROGRAM_MAGIC_V1 {
            return Err(MetalEvaluationProgramValidationError::InvalidMagic { found: header.magic });
        }
        if header.abi_major != STWO_METAL_EVAL_PROGRAM_ABI_MAJOR_V1 {
            return Err(
                MetalEvaluationProgramValidationError::UnsupportedAbiMajor { found: header.abi_major },
            );
        }
        if header.abi_minor > STWO_METAL_EVAL_PROGRAM_ABI_MINOR_V1 {
            return Err(
                MetalEvaluationProgramValidationError::UnsupportedAbiMinor { found: header.abi_minor },
            );
        }
        if header.flags & STWO_METAL_EVAL_PROGRAM_FLAG_PREFINALIZED_LOGUP_V1 == 0 {
            return Err(MetalEvaluationProgramValidationError::MissingPrefinalizedLogupFlag);
        }
        if header.capability_bits & STWO_METAL_EVAL_PROGRAM_CAP_PREFINALIZED_LOGUP_V1 == 0 {
            return Err(MetalEvaluationProgramValidationError::MissingPrefinalizedLogupCapability);
        }
        if header.secure_ext_degree != STWO_METAL_EVAL_PROGRAM_SECURE_EXT_DEGREE_V1 {
            return Err(
                MetalEvaluationProgramValidationError::UnsupportedSecureExtDegree {
                    found: header.secure_ext_degree,
                },
            );
        }
        if header.n_sections as usize != self.sections.len() || (header.n_sections as u64)
            != (self.sections.len() as u64) {
            return Err(
                MetalEvaluationProgramValidationError::SectionCountMismatch {
                    header_count: header.n_sections,
                    actual_count: self.sections.len(),
                },
            );
        }
        if header.max_base_regs > budget.max_base_regs {
            return Err(
                MetalEvaluationProgramValidationError::BaseRegisterBudgetExceeded {
                    required: header.max_base_regs,
                    supported: budget.max_base_regs,
                },
            );
        }
        if header.max_ext_regs > budget.max_ext_regs {
            return Err(
                MetalEvaluationProgramValidationError::ExtensionRegisterBudgetExceeded {
                    required: header.max_ext_regs,
                    supported: budget.max_ext_regs,
                },
            );
        }
        let mut seen_kinds = [false, false, false, false, false, false, false, false];
        let ghost mut seen: Set<MetalEvaluationProgramSectionKindV1> = Set::empty();
        let mut i: usize = 0;
        while i < self.sections.len()
            invariant
                i <= self.sections@.len(),
                forall|k: MetalEvaluationProgramSectionKindV1|
                    #![trigger seen.contains(k)]
                    seen_kinds@[kind_index(k)] == seen.contains(k),
                seen_kinds@.len() == 8,
                scan_sections_from(self.sections@, self.payload_len_bytes, 0, Set::empty())
                    == scan_sections_from(self.sections@, self.payload_len_bytes, i as int, seen),
            decreases self.sections@.len() - i,
        {
            let section = self.sections[i];
            let kind = match section.section_kind() {
                Some(kind) => kind,
                None => {
                    return Err(
                        MetalEvaluationProgramValidationError::UnknownSectionKind {
                            raw_kind: section.kind,
                        },
                    );
                },
            };
            let kind_idx = (kind.to_raw() - 1) as usize;
            assert(seen_kinds@[kind_index(kind)] == seen.contains(kind));
            if seen_kinds[kind_idx] {
                return Err(MetalEvaluationProgramValidationError::DuplicateSection { kind });
            }
            seen_kinds.set(kind_idx, true);
            proof {
                seen = seen.insert(kind);
                assert forall|k: MetalEvaluationProgramSectionKindV1|
                    #![trigger seen.contains(k)]
                    seen_kinds@[kind_index(k)] == seen.contains(k) by {
                    if k != kind {
                        assert(kind_index(k) != kind_index(kind));
                    }
                }
            }
            if section.elem_size == 0 {
                return Err(MetalEvaluationProgramValidationError::ZeroSizedSection { kind });
            }
            let byte_len = match section.count.checked_mul(section.elem_size as u64) {
                Some(len) => section.offset_bytes.checked_add(len),
                None => None,
            };
            let byte_len = match byte_len {
                Some(b) => b,
                None => {
                    proof {
                        assert(section.count as int * section.elem_size as int >= 0) by (nonlinear_arith);
                    }
                    return Err(
                        MetalEvaluationProgramValidationError::SectionOutOfBounds {
                            kind,
                            end_offset: u64::MAX,
                            payload_len_bytes: self.payload_len_bytes,
                        },
                    );
                },
            };
            if byte_len > self.payload_len_bytes {
                return Err(
                    MetalEvaluationProgramValidationError::SectionOutOfBounds {
                        kind,
                        end_offset: byte_len,
                        payload_len_bytes: self.payload_len_bytes,
                    },
                );
            }
            i = i + 1;
        }
        let required = MetalEvaluationProgramSectionKindV1::required();
        let mut j: usize = 0;
        while j < 5
            invariant
                j <= 5,
                required@ == seq![
                    MetalEvaluationProgramSectionKindV1::BaseConsts,
                    MetalEvaluationProgramSectionKindV1::ExtConsts,
                    MetalEvaluationProgramSectionKindV1::BaseInsts,
                    MetalEvaluationProgramSectionKindV1::ExtInsts,
                    MetalEvaluationProgramSectionKindV1::ConstraintRoots,
                ],
                forall|k: MetalEvaluationProgramSectionKindV1|
                    #![trigger seen.contains(k)]
                    seen_kinds@[kind_index(k)] == seen.contains(k),
                seen_kinds@.len() == 8,
                forall|m: int| 0 <= m < j ==> #[trigger] seen.contains(required@[m]),
            decreases 5 - j,
        {
            let kind = required[j];
            assert(seen_kinds@[kind_index(kind)] == seen.contains(kind));
            if !seen_kinds[(kind.to_raw() - 1) as usize] {
                return Err(MetalEvaluationProgramValidationError::MissingRequiredSection { kind });
            }
            j = j + 1;
        }
        proof {
            assert(seen.contains(required@[0]));
            assert(seen.contains(required@[1]));
            assert(seen.contains(required@[2]));
            assert(seen.contains(required@[3]));
            assert(seen.contains(required@[4]));
        }
        Ok(())
    }
}

/// Checks `header`, `sections`, and `payload_len_bytes` against the version-1
/// contract and `budget`.
pub fn validate_metal_evaluation_program_v1(
    header: MetalEvaluationProgramHeaderV1,
    sections: &[MetalEvaluationProgramSectionDescV1],
    payload_len_bytes: u64,
    budget: MetalEvaluationProgramBudgetV1,
) -> (r: Result<(), MetalEvaluationProgramValidationError>)
    ensures
        r == spec_validate_program(header, sections@, payload_len_bytes, budget),
{
    MetalEvaluationProgramV1 { header, sections, payload_len_bytes }.validate(budget)
}

} // verus!
