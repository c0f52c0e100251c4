use vstd::prelude::*;

use crate::eval_program::{MetalEvaluationProgramBaseInstV1, MetalEvaluationProgramExtInstV1};

verus! {

pub const FNV_OFFSET_BASIS: u64 = 0xcbf2_9ce4_8422_2325u64;
pub const FNV_PRIME: u64 = 0x0000_0100_0000_01b3u64;

/// One FNV-1a step: fold the byte in, then multiply modulo 2^64.
pub open spec fn fnv1a_step(hash: u64, byte: u8) -> u64 {
    (hash ^ (byte as u64)).wrapping_mul(FNV_PRIME)
}

/// 64-bit FNV-1a of `bytes`.
pub open spec fn fnv1a(bytes: Seq<u8>) -> u64
    decreases bytes.len(),
{
    if bytes.len() == 0 {
        FNV_OFFSET_BASIS
    } else {
        fnv1a_step(fnv1a(bytes.drop_last()), bytes.last())
    }
}

/// The inverse of the FNV prime modulo 2^64.
pub open spec fn fnv_prime_inverse() -> int {
    0xce96_5057_aff6_957b
}

proof fn lemma_fnv_step_injective(x: u64, y: u64)
    requires
        ((x as nat * FNV_PRIME as nat) % 0x1_0000_0000_0000_0000) == ((y as nat * FNV_PRIME as nat)
            % 0x1_0000_0000_0000_0000),
    ensures
        x == y,
{
    let m: int = 0x1_0000_0000_0000_0000;
    let p: int = FNV_PRIME as int;
    let q: int = fnv_prime_inverse();
    assert((p * q) % m == 1);
    assert forall|z: int| 0 <= z < m implies #[trigger] (((z * p) % m) * q) % m == z by {
        vstd::arithmetic::div_mod::lemma_mul_mod_noop_left(z * p, q, m);
        assert((z * p) * q == z * (p * q)) by (nonlinear_arith);
        vstd::arithmetic::div_mod::lemma_mul_mod_noop_right(z, p * q, m);
        assert(z * 1 == z);
        vstd::arithmetic::div_mod::lemma_small_mod(z as nat, m as nat);
    }
    assert((((x as int * p) % m) * q) % m == x as int);
    assert((((y as int * p) % m) * q) % m == y as int);
}

/// Hashes that agree on all bytes but the last differ: changing the last
/// byte of the input always changes its FNV-1a hash, since the byte is
/// folded in by exclusive or and the prime is invertible modulo 2^64.
pub proof fn lemma_fnv1a_last_byte_distinguishes(prefix: Seq<u8>, a: u8, b: u8)
    requires
        a != b,
    ensures
        fnv1a(prefix.push(a)) != fnv1a(prefix.push(b)),
{
    let h = fnv1a(prefix);
    assert(prefix.push(a).drop_last() =~= prefix);
    assert(prefix.push(b).drop_last() =~= prefix);
    let x = h ^ (a as u64);
    let y = h ^ (b as u64);
    assert(x != y) by (bit_vector)
        requires
            x == h ^ (a as u64),
            y == h ^ (b as u64),
            a != b,
    ;
    if fnv1a(prefix.push(a)) == fnv1a(prefix.push(b)) {
        lemma_fnv_step_injective(x, y);
    }
}

/// The byte chunks laid end to end.
pub open spec fn concat_chunks(chunks: Seq<Seq<u8>>) -> Seq<u8>
    decreases chunks.len(),
{
    if chunks.len() == 0 {
        Seq::empty()
    } else {
        concat_chunks(chunks.drop_last()) + chunks.last()
    }
}

pub open spec fn chunk_views(chunks: Seq<&[u8]>) -> Seq<Seq<u8>> {
    chunks.map_values(|c: &[u8]| c@)
}

/// The semantic hash of a program: FNV-1a over its serialized semantic chunks.
pub fn metal_evaluation_program_semantic_hash_v1(chunks: &[&[u8]]) -> (r: u64)
    ensures
        r == fnv1a(concat_chunks(chunk_views(chunks@))),
{
    let mut hash: u64 = FNV_OFFSET_BASIS;
    let mut i: usize = 0;
    while i < chunks.len()
        invariant
            i <= chunks@.len(),
            hash == fnv1a(concat_chunks(chunk_views(chunks@.take(i as int)))),
        decreases chunks@.len() - i,
    {
        let chunk = chunks[i];
        let ghost prefix = concat_chunks(chunk_views(chunks@.take(i as int)));
        let mut j: usize = 0;
        while j < chunk.len()
            invariant
                j <= chunk@.len(),
                hash == fnv1a(prefix + chunk@.take(j as int)),
            decreases chunk@.len() - j,
        {
            proof {
                let next = prefix + chunk@.take(j + 1);
                assert(next.drop_last() =~= prefix + chunk@.take(j as int));
                assert(next.last() == chunk@[j as int]);
            }
            hash = (hash ^ (chunk[j] as u64)).wrapping_mul(FNV_PRIME);
            j = j + 1;
        }
        proof {
            assert(chunk@.take(chunk@.len() as int) =~= chunk@);
            let views = chunk_views(chunks@.take(i + 1));
            assert(views.drop_last() =~= chunk_views(chunks@.take(i as int)));
            assert(views.last() == chunk@);
        }
        i = i + 1;
    }
    proof {
        assert(chunks@.take(chunks@.len() as int) =~= chunks@);
    }
    hash
}

/// The little-endian bytes of a `u32`.
pub open spec fn u32_le(x: u32) -> Seq<u8> {
    seq![x as u8, (x >> 8u32) as u8, (x >> 16u32) as u8, (x >> 24u32) as u8]
}

/// The little-endian bytes of a `u16`.
pub open spec fn u16_le(x: u16) -> Seq<u8> {
    seq![x as u8, (x >> 8u16) as u8]
}

/// The values' little-endian bytes, in order.
pub open spec fn u32s_le(values: Seq<u32>) -> Seq<u8>
    decreases values.len(),
{
    if values.len() == 0 {
        Seq::empty()
    } else {
        u32s_le(values.drop_last()) + u32_le(values.last())
    }
}

/// The limbs' little-endian bytes, value by value and limb by limb.
pub open spec fn u32x4s_le(values: Seq<[u32; 4]>) -> Seq<u8>
    decreases values.len(),
{
    if values.len() == 0 {
        Seq::empty()
    } else {
        u32x4s_le(values.drop_last()) + u32s_le(values.last()@)
    }
}

/// The 16 serialized bytes of a base instruction.
pub open spec fn base_inst_le(inst: MetalEvaluationProgramBaseInstV1) -> Seq<u8> {
    seq![inst.op, inst.interaction] + u16_le(inst.dst) + u32_le(inst.a) + u32_le(inst.b) + u32_le(
        inst.imm as u32,
    )
}

/// The 20 serialized bytes of an extension instruction.
pub open spec fn ext_inst_le(inst: MetalEvaluationProgramExtInstV1) -> Seq<u8> {
    seq![inst.op, inst.reserved0] + u16_le(inst.dst) + u32_le(inst.a) + u32_le(inst.b) + u32_le(
        inst.c,
    ) + u32_le(inst.d)
}

pub open spec fn base_insts_le(insts: Seq<MetalEvaluationProgramBaseInstV1>) -> Seq<u8>
    decreases insts.len(),
{
    if insts.len() == 0 {
        Seq::empty()
    } else {
        base_insts_le(insts.drop_last()) + base_inst_le(insts.last())
    }
}

pub open spec fn ext_insts_le(insts: Seq<MetalEvaluationProgramExtInstV1>) -> Seq<u8>
    decreases insts.len(),
{
    if insts.len() == 0 {
        Seq::empty()
    } else {
        ext_insts_le(insts.drop_last()) + ext_inst_le(insts.last())
    }
}

fn push_u32_le(out: &mut Vec<u8>, x: u32)
    ensures
        final(out)@ == old(out)@ + u32_le(x),
{
    out.push(x as u8);
    out.push((x >> 8u32) as u8);
    out.push((x >> 16u32) as u8);
    out.push((x >> 24u32) as u8);
    assert(final(out)@ =~= old(out)@ + u32_le(x));
}

fn push_u16_le(out: &mut Vec<u8>, x: u16)
    ensures
        final(out)@ == old(out)@ + u16_le(x),
{
    out.push(x as u8);
    out.push((x >> 8u16) as u8);
    assert(final(out)@ =~= old(out)@ + u16_le(x));
}

/// Serializes `values` as consecutive little-endian words.
pub fn hash_u32s(values: &[u32]) -> (r: Vec<u8>)
    ensures
        r@ == u32s_le(values@),
{
    let mut out: Vec<u8> = Vec::new();
    let mut i: usize = 0;
    while i < values.len()
        invariant
            i <= values@.len(),
            out@ == u32s_le(values@.take(i as int)),
        decreases values@.len() - i,
    {
        push_u32_le(&mut out, values[i]);
        proof {
            assert(values@.take(i + 1).drop_last() =~= values@.take(i as int));
        }
        i = i + 1;
    }
    assert(values@.take(values@.len() as int) =~= values@);
    out
}

/// Serializes four-limb values as consecutive little-endian words.
pub fn hash_u32x4s(values: &[[u32; 4]]) -> (r: Vec<u8>)
    ensures
        r@ == u32x4s_le(values@),
{
    let mut out: Vec<u8> = Vec::new();
    let mut i: usize = 0;
    while i < values.len()
        invariant
            i <= values@.len(),
            out@ == u32x4s_le(values@.take(i as int)),
        decreases values@.len() - i,
    {
        let value = values[i];
        let ghost before = out@;
        push_u32_le(&mut out, value[0]);
        push_u32_le(&mut out, value[1]);
        push_u32_le(&mut out, value[2]);
        push_u32_le(&mut out, value[3]);
        proof {
            let limbs = value@;
            assert(limbs.take(1).drop_last() =~= limbs.take(0));
            assert(limbs.take(2).drop_last() =~= limbs.take(1));
            assert(limbs.take(3).drop_last() =~= limbs.take(2));
            assert(limbs.take(4).drop_last() =~= limbs.take(3));
            assert(limbs.take(4) =~= limbs);
            assert(u32s_le(limbs) =~= u32_le(limbs[0]) + u32_le(limbs[1]) + u32_le(limbs[2])
                + u32_le(limbs[3])) by {
                reveal_with_fuel(u32s_le, 5);
                assert(u32s_le(limbs.take(0)) =~= Seq::empty());
            }
            assert(out@ =~= before + u32s_le(limbs));
            assert(values@.take(i + 1).drop_last() =~= values@.take(i as int));
        }
        i = i + 1;
    }
    assert(values@.take(values@.len() as int) =~= values@);
    out
}

/// Serializes base instructions in their 16-byte device layout.
pub fn hash_base_insts(values: &[MetalEvaluationProgramBaseInstV1]) -> (r: Vec<u8>)
    ensures
        r@ == base_insts_le(values@),
{
    let mut out: Vec<u8> = Vec::new();
    let mut i: usize = 0;
    while i < values.len()
        invariant
            i <= values@.len(),
            out@ == base_insts_le(values@.take(i as int)),
        decreases values@.len() - i,
    {
        let inst = values[i];
        let ghost before = out@;
        out.push(inst.op);
        out.push(inst.interaction);
        push_u16_le(&mut out, inst.dst);
        push_u32_le(&mut out, inst.a);
        push_u32_le(&mut out, inst.b);
        push_u32_le(&mut out, inst.imm as u32);
        proof {
            assert(out@ =~= before + base_inst_le(inst));
            assert(values@.take(i + 1).drop_last() =~= values@.take(i as int));
        }
        i = i + 1;
    }
    assert(values@.take(values@.len() as int) =~= values@);
    out
}

/// Serializes extension instructions in their 20-byte device layout.
pub fn hash_ext_insts(values: &[MetalEvaluationProgramExtInstV1]) -> (r: Vec<u8>)
    ensures
        r@ == ext_insts_le(values@),
{
    let mut out: Vec<u8> = Vec::new();
    let mut i: usize = 0;
    while i < values.len()
        invariant
            i <= values@.len(),
            out@ == ext_insts_le(values@.take(i as int)),
        decreases values@.len() - i,
    {
        let inst = values[i];
        let ghost before = out@;
        out.push(inst.op);
        out.push(inst.reserved0);
        push_u16_le(&mut out, inst.dst);
        push_u32_le(&mut out, inst.a);
        push_u32_le(&mut out, inst.b);
        push_u32_le(&mut out, inst.c);
        push_u32_le(&mut out, inst.d);
        proof {
            assert(out@ =~= before + ext_inst_le(inst));
            assert(values@.take(i + 1).drop_last() =~= values@.take(i as int));
        }
        i = i + 1;
    }
    assert(values@.take(values@.len() as int) =~= values@);
    out
}

} // verus!
