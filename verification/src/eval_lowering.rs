use vstd::prelude::*;

use crate::eval_program::{
    is_new_header, MetalEvaluationProgramBaseInstV1, MetalEvaluationProgramBudgetV1,
    MetalEvaluationProgramExtInstV1, MetalEvaluationProgramHeaderV1, MetalEvaluationProgramSectionDescV1,
    MetalEvaluationProgramSectionKindV1, STWO_METAL_EVAL_PROGRAM_CAP_PREFINALIZED_LOGUP_V1,
};
use crate::eval_validation::{
    first_missing_required, scan_sections_from, section_end, spec_validate_program, validate_metal_evaluation_program_v1,
    MetalEvaluationProgramValidationError,
};
use crate::semantic_hash::{
    base_insts_le, concat_chunks, chunk_views, ext_insts_le, fnv1a, hash_base_insts,
    hash_ext_insts, hash_u32s, hash_u32x4s, metal_evaluation_program_semantic_hash_v1, u32s_le,
    u32x4s_le,
};

verus! {

/// The section table of a program whose five required sections are packed
/// back to back in the order base constants, extension constants, base
/// instructions, extension instructions, constraint roots.
pub open spec fn packed_sections(
    n_base_consts: nat,
    n_ext_consts: nat,
    n_base_insts: nat,
    n_ext_insts: nat,
    n_roots: nat,
) -> Seq<MetalEvaluationProgramSectionDescV1> {
    let o1 = 4 * n_base_consts;
    let o2 = o1 + 16 * n_ext_consts;
    let o3 = o2 + 16 * n_base_insts;
    let o4 = o3 + 20 * n_ext_insts;
    seq![
        MetalEvaluationProgramSectionDescV1 { kind: 1, elem_size: 4, offset_bytes: 0, count: n_base_consts as u64 },
        MetalEvaluationProgramSectionDescV1 { kind: 2, elem_size: 16, offset_bytes: o1 as u64, count: n_ext_consts as u64 },
        MetalEvaluationProgramSectionDescV1 { kind: 3, elem_size: 16, offset_bytes: o2 as u64, count: n_base_insts as u64 },
        MetalEvaluationProgramSectionDescV1 { kind: 4, elem_size: 20, offset_bytes: o3 as u64, count: n_ext_insts as u64 },
        MetalEvaluationProgramSectionDescV1 { kind: 5, elem_size: 4, offset_bytes: o4 as u64, count: n_roots as u64 },
    ]
}

/// The total payload bytes of the packed sections.
pub open spec fn packed_payload_len(
    n_base_consts: nat,
    n_ext_consts: nat,
    n_base_insts: nat,
    n_ext_insts: nat,
    n_roots: nat,
) -> nat {
    4 * n_base_consts + 16 * n_ext_consts + 16 * n_base_insts + 20 * n_ext_insts + 4 * n_roots
}

/// The semantic hash of a program's semantic content.
pub open spec fn program_semantic_hash(
    base_consts: Seq<u32>,
    ext_consts: Seq<[u32; 4]>,
    base_insts: Seq<MetalEvaluationProgramBaseInstV1>,
    ext_insts: Seq<MetalEvaluationProgramExtInstV1>,
    constraint_roots: Seq<u32>,
) -> u64 {
    fnv1a(
        u32s_le(base_consts) + u32x4s_le(ext_consts) + base_insts_le(base_insts) + ext_insts_le(
            ext_insts,
        ) + u32s_le(constraint_roots),
    )
}

/// The section ends of a packed table grow from section to section, and the
/// last one is the payload length.
proof fn lemma_packed_section_ends(a: nat, b: nat, c: nat, d: nat, e: nat)
    ensures
        ({
            let t = packed_sections(a, b, c, d, e);
            let total = packed_payload_len(a, b, c, d, e);
            &&& t.len() == 5
            &&& (total <= u64::MAX ==> forall|k: int| 0 <= k < 5 ==> section_end(#[trigger] t[k]) <= total)
            &&& (total <= u64::MAX ==> forall|k: int| 0 < k < 5 ==> section_end(t[k - 1]) <= section_end(#[trigger] t[k]))
            &&& (total <= u64::MAX ==> section_end(t[4]) == total)
        }),
{
    let t = packed_sections(a, b, c, d, e);
    let total = packed_payload_len(a, b, c, d, e);
    if total <= u64::MAX {
        assert(a <= u64::MAX && b <= u64::MAX && c <= u64::MAX && d <= u64::MAX && e <= u64::MAX);
        assert((a as u64) as int == a);
        assert((e as u64) as int == e);
        assert(t[0].count as int == a && t[0].elem_size == 4 && t[0].offset_bytes == 0);
        assert(t[4].count as int == e && t[4].elem_size == 4);
        assert(section_end(t[0]) == 4 * a);
        assert(section_end(t[1]) == 4 * a + 16 * b);
        assert(section_end(t[2]) == 4 * a + 16 * b + 16 * c);
        assert(section_end(t[3]) == 4 * a + 16 * b + 16 * c + 20 * d);
        assert(section_end(t[4]) == total);
    }
}

/// An evaluation program that owns its sections.
#[derive(Debug)]
pub struct OwnedMetalEvaluationProgramV1 {
    header: MetalEvaluationProgramHeaderV1,
    sections: Vec<MetalEvaluationProgramSectionDescV1>,
    base_consts: Vec<u32>,
    ext_consts: Vec<[u32; 4]>,
    base_insts: Vec<MetalEvaluationProgramBaseInstV1>,
    ext_insts: Vec<MetalEvaluationProgramExtInstV1>,
    constraint_roots: Vec<u32>,
}

impl OwnedMetalEvaluationProgramV1 {
    pub closed spec fn spec_header(&self) -> MetalEvaluationProgramHeaderV1 {
        self.header
    }

    pub closed spec fn spec_sections(&self) -> Seq<MetalEvaluationProgramSectionDescV1> {
        self.sections@
    }

    pub closed spec fn spec_base_consts(&self) -> Seq<u32> {
        self.base_consts@
    }

    pub closed spec fn spec_ext_consts(&self) -> Seq<[u32; 4]> {
        self.ext_consts@
    }

    pub closed spec fn spec_base_insts(&self) -> Seq<MetalEvaluationProgramBaseInstV1> {
        self.base_insts@
    }

    pub closed spec fn spec_ext_insts(&self) -> Seq<MetalEvaluationProgramExtInstV1> {
        self.ext_insts@
    }

    pub closed spec fn spec_constraint_roots(&self) -> Seq<u32> {
        self.constraint_roots@
    }

    /// The payload length: the packed length of the five sections.
    pub open spec fn spec_payload_len(&self) -> nat {
        packed_payload_len(
            self.spec_base_consts().len(),
            self.spec_ext_consts().len(),
            self.spec_base_insts().len(),
            self.spec_ext_insts().len(),
            self.spec_constraint_roots().len(),
        )
    }

    /// Every owned program is packed: its header and section table describe its
    /// own content, and the payload fits in a `u64`.
    pub open spec fn wf(&self) -> bool {
        &&& self.spec_payload_len() <= u64::MAX
        &&& self.spec_sections() == packed_sections(
            self.spec_base_consts().len(),
            self.spec_ext_consts().len(),
            self.spec_base_insts().len(),
            self.spec_ext_insts().len(),
            self.spec_constraint_roots().len(),
        )
        &&& is_new_header(
            self.spec_header(),
            5,
            program_semantic_hash(
                self.spec_base_consts(),
                self.spec_ext_consts(),
                self.spec_base_insts(),
                self.spec_ext_insts(),
                self.spec_constraint_roots(),
            ),
            self.spec_header().capability_bits,
            self.spec_header().n_interactions,
            self.spec_header().n_base_params,
            self.spec_header().n_ext_params,
            self.spec_constraint_roots().len() as u32,
            self.spec_header().max_base_regs,
            self.spec_header().max_ext_regs,
        )
    }

    #[verifier::type_invariant]
    closed spec fn type_inv(self) -> bool {
        self.wf()
    }

    pub fn header(&self) -> (r: MetalEvaluationProgramHeaderV1)
        ensures
            r == self.spec_header(),
            self.wf(),
    {
        proof {
            use_type_invariant(self);
        }
        self.header
    }

    pub fn sections(&self) -> (r: &[MetalEvaluationProgramSectionDescV1])
        ensures
            r@ == self.spec_sections(),
    {
        self.sections.as_slice()
    }

    pub fn base_consts(&self) -> (r: &[u32])
        ensures
            r@ == self.spec_base_consts(),
    {
        self.base_consts.as_slice()
    }

    pub fn ext_consts(&self) -> (r: &[[u32; 4]])
        ensures
            r@ == self.spec_ext_consts(),
    {
        self.ext_consts.as_slice()
    }

    pub fn base_insts(&self) -> (r: &[MetalEvaluationProgramBaseInstV1])
        ensures
            r@ == self.spec_base_insts(),
    {
        self.base_insts.as_slice()
    }

    pub fn ext_insts(&self) -> (r: &[MetalEvaluationProgramExtInstV1])
        ensures
            r@ == self.spec_ext_insts(),
    {
        self.ext_insts.as_slice()
    }

    pub fn constraint_roots(&self) -> (r: &[u32])
        ensures
            r@ == self.spec_constraint_roots(),
    {
        self.constraint_roots.as_slice()
    }

    /// The largest section end offset (zero without sections).
    pub fn payload_len_bytes(&self) -> (r: u64)
        ensures
            r == self.spec_payload_len(),
    {
        proof {
            use_type_invariant(self);
            lemma_packed_section_ends(
                self.base_consts@.len(),
                self.ext_consts@.len(),
                self.base_insts@.len(),
                self.ext_insts@.len(),
                self.constraint_roots@.len(),
            );
        }
        let mut max: u64 = 0;
        let mut i: usize = 0;
        while i < self.sections.len()
            invariant
                i <= self.sections@.len(),
                self.sections@.len() == 5,
                forall|k: int| 0 <= k < 5 ==> section_end(#[trigger] self.sections@[k]) <= self.spec_payload_len(),
                forall|k: int| 0 < k < 5 ==> section_end(self.sections@[k - 1]) <= section_end(#[trigger] self.sections@[k]),
                section_end(self.sections@[4]) == self.spec_payload_len(),
                self.spec_payload_len() <= u64::MAX,
                max as int == (if i == 0 { 0 } else { section_end(self.sections@[i - 1]) }),
            decreases self.sections@.len() - i,
        {
            let section = self.sections[i];
            assert(section_end(self.sections@[i as int]) <= self.spec_payload_len());
            let end = section.offset_bytes + section.count * (section.elem_size as u64);
            if end > max {
                max = end;
            }
            i = i + 1;
        }
        max
    }

    /// The verdict of validating this program against `budget`.
    pub open spec fn spec_validate(&self, budget: MetalEvaluationProgramBudgetV1) -> Result<
        (),
        MetalEvaluationProgramValidationError,
    > {
        spec_validate_program(
            self.spec_header(),
            self.spec_sections(),
            self.spec_payload_len() as u64,
            budget,
        )
    }

    /// Checks the program against the version-1 contract and `budget`.
    pub fn validate(&self, budget: MetalEvaluationProgramBudgetV1) -> (r: Result<
        (),
        MetalEvaluationProgramValidationError,
    >)
        ensures
            r == self.spec_validate(budget),
    {
        let payload = self.payload_len_bytes();
        validate_metal_evaluation_program_v1(self.header, self.sections.as_slice(), payload, budget)
    }
}

/// `concat_chunks` of five chunks is their concatenation.
proof fn lemma_concat_five(a: Seq<u8>, b: Seq<u8>, c: Seq<u8>, d: Seq<u8>, e: Seq<u8>)
    ensures
        concat_chunks(seq![a, b, c, d, e]) == a + b + c + d + e,
{
    let s5 = seq![a, b, c, d, e];
    let s4 = seq![a, b, c, d];
    let s3 = seq![a, b, c];
    let s2 = seq![a, b];
    let s1 = seq![a];
    assert(s5.drop_last() =~= s4);
    assert(s4.drop_last() =~= s3);
    assert(s3.drop_last() =~= s2);
    assert(s2.drop_last() =~= s1);
    assert(s1.drop_last() =~= Seq::<Seq<u8>>::empty());
    assert(concat_chunks(Seq::<Seq<u8>>::empty()) =~= Seq::<u8>::empty());
    assert(concat_chunks(s1) =~= a);
    assert(concat_chunks(s2) =~= a + b);
    assert(concat_chunks(s3) =~= a + b + c);
    assert(concat_chunks(s4) =~= a + b + c + d);
}

/// Packs the five sections back to back, hashes their semantic content, and
/// wraps them with a fresh version-1 header.
pub fn build_owned_program_v1(
    capability_bits: u64,
    n_interactions: u32,
    n_base_params: u32,
    n_ext_params: u32,
    max_base_regs: u32,
    max_ext_regs: u32,
    base_consts: Vec<u32>,
    ext_consts: Vec<[u32; 4]>,
    base_insts: Vec<MetalEvaluationProgramBaseInstV1>,
    ext_insts: Vec<MetalEvaluationProgramExtInstV1>,
    constraint_roots: Vec<u32>,
) -> (r: OwnedMetalEvaluationProgramV1)
    requires
        packed_payload_len(
            base_consts@.len(),
            ext_consts@.len(),
            base_insts@.len(),
            ext_insts@.len(),
            constraint_roots@.len(),
        ) <= u64::MAX,
        constraint_roots@.len() <= u32::MAX,
    ensures
        r.wf(),
        r.spec_base_consts() == base_consts@,
        r.spec_ext_consts() == ext_consts@,
        r.spec_base_insts() == base_insts@,
        r.spec_ext_insts() == ext_insts@,
        r.spec_constraint_roots() == constraint_roots@,
        r.spec_header().capability_bits == capability_bits,
        r.spec_header().n_interactions == n_interactions,
        r.spec_header().n_base_params == n_base_params,
        r.spec_header().n_ext_params == n_ext_params,
        r.spec_header().max_base_regs == max_base_regs,
        r.spec_header().max_ext_regs == max_ext_regs,
{
    let base_consts_bytes = hash_u32s(base_consts.as_slice());
    let ext_consts_bytes = hash_u32x4s(ext_consts.as_slice());
    let base_insts_bytes = hash_base_insts(base_insts.as_slice());
    let ext_insts_bytes = hash_ext_insts(ext_insts.as_slice());
    let constraint_roots_bytes = hash_u32s(constraint_roots.as_slice());
    let chunks: [&[u8]; 5] = [
        base_consts_bytes.as_slice(),
        ext_consts_bytes.as_slice(),
        base_insts_bytes.as_slice(),
        ext_insts_bytes.as_slice(),
        constraint_roots_bytes.as_slice(),
    ];
    let semantic_hash = metal_evaluation_program_semantic_hash_v1(chunks.as_slice());
    proof {
        assert(chunk_views(chunks@) =~= seq![
            base_consts_bytes@,
            ext_consts_bytes@,
            base_insts_bytes@,
            ext_insts_bytes@,
            constraint_roots_bytes@,
        ]);
        lemma_concat_five(
            base_consts_bytes@,
            ext_consts_bytes@,
            base_insts_bytes@,
            ext_insts_bytes@,
            constraint_roots_bytes@,
        );
    }

    let n0 = base_consts.len() as u64;
    let n1 = ext_consts.len() as u64;
    let n2 = base_insts.len() as u64;
    let n3 = ext_insts.len() as u64;
    let n4 = constraint_roots.len() as u64;
    let o1 = 4 * n0;
    let o2 = o1 + 16 * n1;
    let o3 = o2 + 16 * n2;
    let o4 = o3 + 20 * n3;
    let sections = vec![
        MetalEvaluationProgramSectionDescV1::new(MetalEvaluationProgramSectionKindV1::BaseConsts, 4, 0, n0),
        MetalEvaluationProgramSectionDescV1::new(MetalEvaluationProgramSectionKindV1::ExtConsts, 16, o1, n1),
        MetalEvaluationProgramSectionDescV1::new(MetalEvaluationProgramSectionKindV1::BaseInsts, 16, o2, n2),
        MetalEvaluationProgramSectionDescV1::new(MetalEvaluationProgramSectionKindV1::ExtInsts, 20, o3, n3),
        MetalEvaluationProgramSectionDescV1::new(
            MetalEvaluationProgramSectionKindV1::ConstraintRoots,
            4,
            o4,
            n4,
        ),
    ];
    proof {
        assert(sections@ =~= packed_sections(
            base_consts@.len(),
            ext_consts@.len(),
            base_insts@.len(),
            ext_insts@.len(),
            constraint_roots@.len(),
        ));
    }
    let header = MetalEvaluationProgramHeaderV1::new(
        5,
        semantic_hash,
        capability_bits,
        n_interactions,
        n_base_params,
        n_ext_params,
        constraint_roots.len() as u32,
        max_base_regs,
        max_ext_regs,
    );
    OwnedMetalEvaluationProgramV1 {
        header,
        sections,
        base_consts,
        ext_consts,
        base_insts,
        ext_insts,
        constraint_roots,
    }
}

/// The budget verdict on a program's register counts: the base budget is
/// checked first, then the extension budget.
pub open spec fn spec_budget_verdict(
    header: MetalEvaluationProgramHeaderV1,
    budget: MetalEvaluationProgramBudgetV1,
) -> Result<(), MetalEvaluationProgramValidationError> {
    if header.max_base_regs > budget.max_base_regs {
        Err(
            MetalEvaluationProgramValidationError::BaseRegisterBudgetExceeded {
                required: header.max_base_regs,
                supported: budget.max_base_regs,
            },
        )
    } else if header.max_ext_regs > budget.max_ext_regs {
        Err(
            MetalEvaluationProgramValidationError::ExtensionRegisterBudgetExceeded {
                required: header.max_ext_regs,
                supported: budget.max_ext_regs,
            },
        )
    } else {
        Ok(())
    }
}

/// An owned program that declares the prefinalized-logup capability passes
/// validation against exactly the budgets that cover its register counts;
/// otherwise it is refused with the budget error.
pub proof fn lemma_owned_program_validation(
    p: OwnedMetalEvaluationProgramV1,
    budget: MetalEvaluationProgramBudgetV1,
)
    requires
        p.wf(),
        p.spec_header().capability_bits & STWO_METAL_EVAL_PROGRAM_CAP_PREFINALIZED_LOGUP_V1 != 0,
    ensures
        p.spec_validate(budget) == spec_budget_verdict(p.spec_header(), budget),
{
    let h = p.spec_header();
    let flags = h.flags;
    assert(flags & 1u32 != 0) by (bit_vector)
        requires
            flags == 1u32,
    ;
    let t = p.spec_sections();
    let total = p.spec_payload_len();
    lemma_packed_section_ends(
        p.spec_base_consts().len(),
        p.spec_ext_consts().len(),
        p.spec_base_insts().len(),
        p.spec_ext_insts().len(),
        p.spec_constraint_roots().len(),
    );
    assert(section_end(t[0]) <= total);
    assert(section_end(t[1]) <= total);
    assert(section_end(t[2]) <= total);
    assert(section_end(t[3]) <= total);
    assert(section_end(t[4]) <= total);
    let pl = total as u64;
    let e0 = Set::<MetalEvaluationProgramSectionKindV1>::empty();
    let e1 = e0.insert(MetalEvaluationProgramSectionKindV1::BaseConsts);
    let e2 = e1.insert(MetalEvaluationProgramSectionKindV1::ExtConsts);
    let e3 = e2.insert(MetalEvaluationProgramSectionKindV1::BaseInsts);
    let e4 = e3.insert(MetalEvaluationProgramSectionKindV1::ExtInsts);
    let e5 = e4.insert(MetalEvaluationProgramSectionKindV1::ConstraintRoots);
    assert(scan_sections_from(t, pl, 5, e5) == Ok::<Set<MetalEvaluationProgramSectionKindV1>, MetalEvaluationProgramValidationError>(e5));
    assert(scan_sections_from(t, pl, 4, e4) == scan_sections_from(t, pl, 5, e5));
    assert(scan_sections_from(t, pl, 3, e3) == scan_sections_from(t, pl, 4, e4));
    assert(scan_sections_from(t, pl, 2, e2) == scan_sections_from(t, pl, 3, e3));
    assert(scan_sections_from(t, pl, 1, e1) == scan_sections_from(t, pl, 2, e2));
    assert(scan_sections_from(t, pl, 0, e0) == scan_sections_from(t, pl, 1, e1));
    assert(first_missing_required(e5) is None);
}

} // verus!
