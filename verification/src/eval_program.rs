use vstd::prelude::*;

verus! {

/// `b"STP1"` read as a little-endian `u32`.
pub const STWO_METAL_EVAL_PROGRAM_MAGIC_V1: u32 = 0x3150_5453u32;
pub const STWO_METAL_EVAL_PROGRAM_ABI_MAJOR_V1: u16 = 1;
pub const STWO_METAL_EVAL_PROGRAM_ABI_MINOR_V1: u16 = 0;

pub const STWO_METAL_EVAL_PROGRAM_FLAG_PREFINALIZED_LOGUP_V1: u32 = 1u32;
pub const STWO_METAL_EVAL_PROGRAM_FLAG_DEBUG_PRESENT_V1: u32 = 2u32;

pub const STWO_METAL_EVAL_PROGRAM_CAP_BASE_INV_V1: u64 = 1u64;
pub const STWO_METAL_EVAL_PROGRAM_CAP_EXT_MUL_V1: u64 = 2u64;
pub const STWO_METAL_EVAL_PROGRAM_CAP_PREFINALIZED_LOGUP_V1: u64 = 4u64;

/// The three capabilities that every program lowered here declares.
pub const STWO_METAL_EVAL_PROGRAM_ALL_CAPS_V1: u64 = 7u64;

pub const STWO_METAL_EVAL_PROGRAM_SECURE_EXT_DEGREE_V1: u32 = 4;

/// Opcodes of base-field (M31) instructions; the encoded byte is the variant's position.
#[derive(Copy, Clone, Debug, PartialEq, Eq, Structural, Hash)]
pub enum MetalEvaluationProgramBaseOpcodeV1 {
    TraceCol,
    PreprocessedCol,
    Param,
    Const,
    Add,
    Sub,
    Mul,
    Neg,
    Inv,
}

pub open spec fn spec_base_opcode_raw(op: MetalEvaluationProgramBaseOpcodeV1) -> u8 {
    match op {
        MetalEvaluationProgramBaseOpcodeV1::TraceCol => 0,
        MetalEvaluationProgramBaseOpcodeV1::PreprocessedCol => 1,
        MetalEvaluationProgramBaseOpcodeV1::Param => 2,
        MetalEvaluationProgramBaseOpcodeV1::Const => 3,
        MetalEvaluationProgramBaseOpcodeV1::Add => 4,
        MetalEvaluationProgramBaseOpcodeV1::Sub => 5,
        MetalEvaluationProgramBaseOpcodeV1::Mul => 6,
        MetalEvaluationProgramBaseOpcodeV1::Neg => 7,
        MetalEvaluationProgramBaseOpcodeV1::Inv => 8,
    }
}

/// The base opcode encoded as `value`, if any.
pub open spec fn spec_base_opcode_from_raw(value: u8) -> Option<MetalEvaluationProgramBaseOpcodeV1> {
    if value == 0 {
        Some(MetalEvaluationProgramBaseOpcodeV1::TraceCol)
    } else if value == 1 {
        Some(MetalEvaluationProgramBaseOpcodeV1::PreprocessedCol)
    } else if value == 2 {
        Some(MetalEvaluationProgramBaseOpcodeV1::Param)
    } else if value == 3 {
        Some(MetalEvaluationProgramBaseOpcodeV1::Const)
    } else if value == 4 {
        Some(MetalEvaluationProgramBaseOpcodeV1::Add)
    } else if value == 5 {
        Some(MetalEvaluationProgramBaseOpcodeV1::Sub)
    } else if value == 6 {
        Some(MetalEvaluationProgramBaseOpcodeV1::Mul)
    } else if value == 7 {
        Some(MetalEvaluationProgramBaseOpcodeV1::Neg)
    } else if value == 8 {
        Some(MetalEvaluationProgramBaseOpcodeV1::Inv)
    } else {
        None
    }
}

impl MetalEvaluationProgramBaseOpcodeV1 {
    /// The opcode whose encoding is `value`, if any.
    pub fn from_raw(value: u8) -> (r: Option<Self>)
        ensures
            r == spec_base_opcode_from_raw(value),
            match r {
                Some(op) => spec_base_opcode_raw(op) == value,
                None => value > 8,
            },
    {
        match value {
            0 => Some(Self::TraceCol),
            1 => Some(Self::PreprocessedCol),
            2 => Some(Self::Param),
            3 => Some(Self::Const),
            4 => Some(Self::Add),
            5 => Some(Self::Sub),
            6 => Some(Self::Mul),
            7 => Some(Self::Neg),
            8 => Some(Self::Inv),
            _ => None,
        }
    }

    /// The encoded byte of this opcode.
    pub fn to_raw(self) -> (r: u8)
        ensures
            r == spec_base_opcode_raw(self),
    {
        match self {
            Self::TraceCol => 0,
            Self::PreprocessedCol => 1,
            Self::Param => 2,
            Self::Const => 3,
            Self::Add => 4,
            Self::Sub => 5,
            Self::Mul => 6,
            Self::Neg => 7,
            Self::Inv => 8,
        }
    }
}

/// One base-field instruction: 16 bytes in the device ABI.
#[derive(Copy, Clone, Debug, PartialEq, Eq, Structural)]
pub struct MetalEvaluationProgramBaseInstV1 {
    pub op: u8,
    pub interaction: u8,
    pub dst: u16,
    pub a: u32,
    pub b: u32,
    pub imm: i32,
}

pub open spec fn spec_trace_col(dst: u16, interaction: u8, column: u32, offset: i32) -> MetalEvaluationProgramBaseInstV1 {
    MetalEvaluationProgramBaseInstV1 { op: 0, interaction, dst, a: column, b: 0, imm: offset }
}

pub open spec fn spec_const_value(dst: u16, value: u32) -> MetalEvaluationProgramBaseInstV1 {
    MetalEvaluationProgramBaseInstV1 { op: 3, interaction: 0, dst, a: value, b: 0, imm: 0 }
}

pub open spec fn spec_base_binary(
    op: MetalEvaluationProgramBaseOpcodeV1,
    dst: u16,
    a: u32,
    b: u32,
) -> MetalEvaluationProgramBaseInstV1 {
    MetalEvaluationProgramBaseInstV1 { op: spec_base_opcode_raw(op), interaction: 0, dst, a, b, imm: 0 }
}

impl MetalEvaluationProgramBaseInstV1 {
    /// Loads `column` of trace interaction `interaction` at row offset `offset`.
    pub fn trace_col(dst: u16, interaction: u8, column: u32, offset: i32) -> (r: Self)
        ensures
            r == spec_trace_col(dst, interaction, column, offset),
    {
        Self { op: MetalEvaluationProgramBaseOpcodeV1::TraceCol.to_raw(), interaction, dst, a: column, b: 0, imm: offset }
    }

    /// Loads the constant `value`.
    pub fn const_value(dst: u16, value: u32) -> (r: Self)
        ensures
            r == spec_const_value(dst, value),
    {
        Self { op: MetalEvaluationProgramBaseOpcodeV1::Const.to_raw(), interaction: 0, dst, a: value, b: 0, imm: 0 }
    }

    /// Applies `op` to registers `a` and `b`.
    pub fn binary(op: MetalEvaluationProgramBaseOpcodeV1, dst: u16, a: u32, b: u32) -> (r: Self)
        ensures
            r == spec_base_binary(op, dst, a, b),
    {
        Self { op: op.to_raw(), interaction: 0, dst, a, b, imm: 0 }
    }
}

/// Opcodes of extension-field (QM31) instructions; the encoded byte is the variant's position.
#[derive(Copy, Clone, Debug, PartialEq, Eq, Structural, Hash)]
pub enum MetalEvaluationProgramExtOpcodeV1 {
    SecureCol,
    Param,
    Const,
    Add,
    Sub,
    Mul,
    Neg,
}

pub open spec fn spec_ext_opcode_raw(op: MetalEvaluationProgramExtOpcodeV1) -> u8 {
    match op {
        MetalEvaluationProgramExtOpcodeV1::SecureCol => 0,
        MetalEvaluationProgramExtOpcodeV1::Param => 1,
        MetalEvaluationProgramExtOpcodeV1::Const => 2,
        MetalEvaluationProgramExtOpcodeV1::Add => 3,
        MetalEvaluationProgramExtOpcodeV1::Sub => 4,
        MetalEvaluationProgramExtOpcodeV1::Mul => 5,
        MetalEvaluationProgramExtOpcodeV1::Neg => 6,
    }
}

/// The extension opcode encoded as `value`, if any.
pub open spec fn spec_ext_opcode_from_raw(value: u8) -> Option<MetalEvaluationProgramExtOpcodeV1> {
    if value == 0 {
        Some(MetalEvaluationProgramExtOpcodeV1::SecureCol)
    } else if value == 1 {
        Some(MetalEvaluationProgramExtOpcodeV1::Param)
    } else if value == 2 {
        Some(MetalEvaluationProgramExtOpcodeV1::Const)
    } else if value == 3 {
        Some(MetalEvaluationProgramExtOpcodeV1::Add)
    } else if value == 4 {
        Some(MetalEvaluationProgramExtOpcodeV1::Sub)
    } else if value == 5 {
        Some(MetalEvaluationProgramExtOpcodeV1::Mul)
    } else if value == 6 {
        Some(MetalEvaluationProgramExtOpcodeV1::Neg)
    } else {
        None
    }
}

impl MetalEvaluationProgramExtOpcodeV1 {
    /// The opcode whose encoding is `value`, if any.
    pub fn from_raw(value: u8) -> (r: Option<Self>)
        ensures
            r == spec_ext_opcode_from_raw(value),
            match r {
                Some(op) => spec_ext_opcode_raw(op) == value,
                None => value > 6,
            },
    {
        match value {
            0 => Some(Self::SecureCol),
            1 => Some(Self::Param),
            2 => Some(Self::Const),
            3 => Some(Self::Add),
            4 => Some(Self::Sub),
            5 => Some(Self::Mul),
            6 => Some(Self::Neg),
            _ => None,
        }
    }

    /// The encoded byte of this opcode.
    pub fn to_raw(self) -> (r: u8)
        ensures
            r == spec_ext_opcode_raw(self),
    {
        match self {
            Self::SecureCol => 0,
            Self::Param => 1,
            Self::Const => 2,
            Self::Add => 3,
            Self::Sub => 4,
            Self::Mul => 5,
            Self::Neg => 6,
        }
    }
}

/// One extension-field instruction: 20 bytes in the device ABI.
#[derive(Copy, Clone, Debug, PartialEq, Eq, Structural)]
pub struct MetalEvaluationProgramExtInstV1 {
    pub op: u8,
    pub reserved0: u8,
    pub dst: u16,
    pub a: u32,
    pub b: u32,
    pub c: u32,
    pub d: u32,
}

pub open spec fn spec_secure_col(dst: u16, a: u32, b: u32, c: u32, d: u32) -> MetalEvaluationProgramExtInstV1 {
    MetalEvaluationProgramExtInstV1 { op: 0, reserved0: 0, dst, a, b, c, d }
}

impl MetalEvaluationProgramExtInstV1 {
    /// Combines four base registers into one secure-field register.
    pub fn secure_col(dst: u16, a: u32, b: u32, c: u32, d: u32) -> (r: Self)
        ensures
            r == spec_secure_col(dst, a, b, c, d),
    {
        Self { op: MetalEvaluationProgramExtOpcodeV1::SecureCol.to_raw(), reserved0: 0, dst, a, b, c, d }
    }
}

/// Kinds of payload sections; encoded as 1 through 8 in declaration order.
#[derive(Copy, Clone, Debug, PartialEq, Eq, Structural, Hash)]
pub enum MetalEvaluationProgramSectionKindV1 {
    BaseConsts,
    ExtConsts,
    BaseInsts,
    ExtInsts,
    ConstraintRoots,
    DebugStrings,
    ParamDebugMap,
    NodeDebugMap,
}

pub open spec fn spec_section_kind_raw(kind: MetalEvaluationProgramSectionKindV1) -> u32 {
    match kind {
        MetalEvaluationProgramSectionKindV1::BaseConsts => 1,
        MetalEvaluationProgramSectionKindV1::ExtConsts => 2,
        MetalEvaluationProgramSectionKindV1::BaseInsts => 3,
        MetalEvaluationProgramSectionKindV1::ExtInsts => 4,
        MetalEvaluationProgramSectionKindV1::ConstraintRoots => 5,
        MetalEvaluationProgramSectionKindV1::DebugStrings => 6,
        MetalEvaluationProgramSectionKindV1::ParamDebugMap => 7,
        MetalEvaluationProgramSectionKindV1::NodeDebugMap => 8,
    }
}

pub open spec fn spec_section_kind_from_raw(value: u32) -> Option<MetalEvaluationProgramSectionKindV1> {
    if value == 1 {
        Some(MetalEvaluationProgramSectionKindV1::BaseConsts)
    } else if value == 2 {
        Some(MetalEvaluationProgramSectionKindV1::ExtConsts)
    } else if value == 3 {
        Some(MetalEvaluationProgramSectionKindV1::BaseInsts)
    } else if value == 4 {
        Some(MetalEvaluationProgramSectionKindV1::ExtInsts)
    } else if value == 5 {
        Some(MetalEvaluationProgramSectionKindV1::ConstraintRoots)
    } else if value == 6 {
        Some(MetalEvaluationProgramSectionKindV1::DebugStrings)
    } else if value == 7 {
        Some(MetalEvaluationProgramSectionKindV1::ParamDebugMap)
    } else if value == 8 {
        Some(MetalEvaluationProgramSectionKindV1::NodeDebugMap)
    } else {
        None
    }
}

impl MetalEvaluationProgramSectionKindV1 {
    /// The sections that every program must carry, in the order they are checked.
    pub fn required() -> (r: [Self; 5])
        ensures
            r@ == seq![
                Self::BaseConsts,
                Self::ExtConsts,
                Self::BaseInsts,
                Self::ExtInsts,
                Self::ConstraintRoots,
            ],
    {
        [Self::BaseConsts, Self::ExtConsts, Self::BaseInsts, Self::ExtInsts, Self::ConstraintRoots]
    }

    /// The section kind encoded as `value`, if any.
    pub fn from_raw(value: u32) -> (r: Option<Self>)
        ensures
            r == spec_section_kind_from_raw(value),
            r is Some ==> spec_section_kind_raw(r->Some_0) == value,
    {
        match value {
            1 => Some(Self::BaseConsts),
            2 => Some(Self::ExtConsts),
            3 => Some(Self::BaseInsts),
            4 => Some(Self::ExtInsts),
            5 => Some(Self::ConstraintRoots),
            6 => Some(Self::DebugStrings),
            7 => Some(Self::ParamDebugMap),
            8 => Some(Self::NodeDebugMap),
            _ => None,
        }
    }

    /// The encoding of this kind.
    pub fn to_raw(self) -> (r: u32)
        ensures
            r == spec_section_kind_raw(self),
            spec_section_kind_from_raw(r) == Some(self),
    {
        match self {
            Self::BaseConsts => 1,
            Self::ExtConsts => 2,
            Self::BaseInsts => 3,
            Self::ExtInsts => 4,
            Self::ConstraintRoots => 5,
            Self::DebugStrings => 6,
            Self::ParamDebugMap => 7,
            Self::NodeDebugMap => 8,
        }
    }
}

/// The fixed header of an evaluation program: 96 bytes in the device ABI.
#[derive(Copy, Clone, Debug, PartialEq, Eq)]
pub struct MetalEvaluationProgramHeaderV1 {
    pub magic: u32,
    pub abi_major: u16,
    pub abi_minor: u16,
    pub n_sections: u32,
    pub flags: u32,
    pub semantic_hash: u64,
    pub capability_bits: u64,
    pub n_interactions: u32,
    pub n_base_params: u32,
    pub n_ext_params: u32,
    pub n_constraints: u32,
    pub max_base_regs: u32,
    pub max_ext_regs: u32,
    pub secure_ext_degree: u32,
    pub reserved: [u32; 8],
}

/// `h` is the version-1 header that `new` builds from these counts.
pub open spec fn is_new_header(
    h: MetalEvaluationProgramHeaderV1,
    n_sections: u32,
    semantic_hash: u64,
    capability_bits: u64,
    n_interactions: u32,
    n_base_params: u32,
    n_ext_params: u32,
    n_constraints: u32,
    max_base_regs: u32,
    max_ext_regs: u32,
) -> bool {
    &&& h.magic == STWO_METAL_EVAL_PROGRAM_MAGIC_V1
    &&& h.abi_major == STWO_METAL_EVAL_PROGRAM_ABI_MAJOR_V1
    &&& h.abi_minor == STWO_METAL_EVAL_PROGRAM_ABI_MINOR_V1
    &&& h.n_sections == n_sections
    &&& h.flags == STWO_METAL_EVAL_PROGRAM_FLAG_PREFINALIZED_LOGUP_V1
    &&& h.semantic_hash == semantic_hash
    &&& h.capability_bits == capability_bits
    &&& h.n_interactions == n_interactions
    &&& h.n_base_params == n_base_params
    &&& h.n_ext_params == n_ext_params
    &&& h.n_constraints == n_constraints
    &&& h.max_base_regs == max_base_regs
    &&& h.max_ext_regs == max_ext_regs
    &&& h.secure_ext_degree == STWO_METAL_EVAL_PROGRAM_SECURE_EXT_DEGREE_V1
    &&& h.reserved@ == Seq::new(8, |i: int| 0u32)
}

impl MetalEvaluationProgramHeaderV1 {
    /// A version-1 header with the prefinalized-logup flag and an all-zero reserved area.
    pub fn new(
        n_sections: u32,
        semantic_hash: u64,
        capability_bits: u64,
        n_interactions: u32,
        n_base_params: u32,
        n_ext_params: u32,
        n_constraints: u32,
        max_base_regs: u32,
        max_ext_regs: u32,
    ) -> (r: Self)
        ensures
            is_new_header(
                r,
                n_sections,
                semantic_hash,
                capability_bits,
                n_interactions,
                n_base_params,
                n_ext_params,
                n_constraints,
                max_base_regs,
                max_ext_regs,
            ),
    {
        let reserved = [0u32, 0u32, 0u32, 0u32, 0u32, 0u32, 0u32, 0u32];
        assert(reserved@ =~= Seq::new(8, |i: int| 0u32));
        Self {
            magic: STWO_METAL_EVAL_PROGRAM_MAGIC_V1,
            abi_major: STWO_METAL_EVAL_PROGRAM_ABI_MAJOR_V1,
            abi_minor: STWO_METAL_EVAL_PROGRAM_ABI_MINOR_V1,
            n_sections,
            flags: STWO_METAL_EVAL_PROGRAM_FLAG_PREFINALIZED_LOGUP_V1,
            semantic_hash,
            capability_bits,
            n_interactions,
            n_base_params,
            n_ext_params,
            n_constraints,
            max_base_regs,
            max_ext_regs,
            secure_ext_degree: STWO_METAL_EVAL_PROGRAM_SECURE_EXT_DEGREE_V1,
            reserved,
        }
    }
}

/// Describes where one section lives in the payload: 24 bytes in the device ABI.
#[derive(Copy, Clone, Debug, PartialEq, Eq, Structural)]
pub struct MetalEvaluationProgramSectionDescV1 {
    pub kind: u32,
    pub elem_size: u32,
    pub offset_bytes: u64,
    pub count: u64,
}

impl MetalEvaluationProgramSectionDescV1 {
    pub fn new(kind: MetalEvaluationProgramSectionKindV1, elem_size: u32, offset_bytes: u64, count: u64) -> (r:
        Self)
        ensures
            r == (Self { kind: spec_section_kind_raw(kind), elem_size, offset_bytes, count }),
    {
        Self { kind: kind.to_raw(), elem_size, offset_bytes, count }
    }

    /// The decoded kind of this section, if its encoding is known.
    pub fn section_kind(self) -> (r: Option<MetalEvaluationProgramSectionKindV1>)
        ensures
            r == spec_section_kind_from_raw(self.kind),
    {
        MetalEvaluationProgramSectionKindV1::from_raw(self.kind)
    }
}

/// The register file that an executor offers.
#[derive(Copy, Clone, Debug, PartialEq, Eq, Structural)]
pub struct MetalEvaluationProgramBudgetV1 {
    pub max_base_regs: u32,
    pub max_ext_regs: u32,
}

impl MetalEvaluationProgramBudgetV1 {
    pub fn new(max_base_regs: u32, max_ext_regs: u32) -> (r: Self)
        ensures
            r.max_base_regs == max_base_regs,
            r.max_ext_regs == max_ext_regs,
    {
        Self { max_base_regs, max_ext_regs }
    }
}

} // verus!
