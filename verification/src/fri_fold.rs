use vstd::prelude::*;
use vstd::arithmetic::power2::{lemma2_to64, lemma_pow2_strictly_increases, pow2};

use crate::field_ops::{base_inverse, is_canonical, m31_inverse, qm31_mul, secure_mul, M31_P};
use crate::quotient_staging::{
    bit_reverse_index, bit_reverse_spec, canonic_circle_domain_at, canonic_domain_point, lemma_bit_reverse_below,
};
use crate::sampled_values::MetalSecureFieldValueV1;

verus! {

/// The `x` coordinate of point `index` of the FRI line domain of size
/// `2^log_size`, the `x` coordinates of the half-odds coset of that size.
pub uninterp spec fn line_domain_point_x(log_size: u32, index: usize) -> u32;

/// Point `index` of the FRI line domain of size `2^log_size`.
///
/// Trusted: calls `stwo::core::poly::line::LineDomain::new` on
/// `Coset::half_odds(log_size)` and `LineDomain::at`. The contract claims
/// that the result is a function of the two arguments and a reduced,
/// non-zero field element: the coset's point indices are `2^(29 - log_size)`
/// times numbers one above a multiple of four, and only the indices `2^29`
/// and `3 * 2^29` have `x = 0`, which for `log_size >= 1` none is.
/// `Coset::half_odds` asserts `log_size + 2 <= 31`.
#[verifier::external_body]
fn line_domain_x_at(log_size: u32, index: usize) -> (r: u32)
    requires
        1 <= log_size <= 29,
    ensures
        r == line_domain_point_x(log_size, index),
        0 < r < M31_P,
{
    stwo::core::poly::line::LineDomain::new(stwo::core::circle::Coset::half_odds(log_size)).at(index).0
}

/// The factors one fold of a line evaluation over the FRI line domain of
/// size `2^log_size` reads: entry `i` inverts the `x` coordinate of the
/// domain point in row `2i` of bit-reversed order.
pub open spec fn line_fold_factors(log_size: u32) -> Seq<u32> {
    Seq::new(
        pow2((log_size - 1) as nat),
        |i: int| m31_inverse(line_domain_point_x(log_size, bit_reverse_spec((2 * i) as nat, log_size as nat) as usize)),
    )
}

/// The factors the first FRI fold, from the canonic circle domain of size
/// `2^log_size` into a line, reads: entry `i` inverts the `y` coordinate of
/// the domain point in row `2i` of bit-reversed order.
pub open spec fn circle_fold_factors(log_size: u32) -> Seq<u32> {
    Seq::new(
        pow2((log_size - 1) as nat),
        |i: int| m31_inverse(canonic_domain_point(log_size, bit_reverse_spec((2 * i) as nat, log_size as nat) as usize).1),
    )
}

proof fn lemma_half_size(log_size: u32)
    requires
        1 <= log_size <= 30,
    ensures
        pow2(log_size as nat) == 2 * pow2((log_size - 1) as nat),
        pow2(log_size as nat) <= 0x4000_0000,
{
    vstd::arithmetic::power2::lemma_pow2_unfold(log_size as nat);
    lemma2_to64();
    if log_size < 30 {
        lemma_pow2_strictly_increases(log_size as nat, 30);
    }
}

/// The inverse `x` factors of one fold over the FRI line domain of size
/// `2^log_size`.
pub fn line_fold_inverse_factors(log_size: u32) -> (r: Vec<u32>)
    requires
        1 <= log_size <= 29,
    ensures
        r@ == line_fold_factors(log_size),
{
    proof {
        lemma_half_size(log_size);
    }
    let half: usize = 1usize << ((log_size - 1) as usize);
    assert(half == pow2((log_size - 1) as nat)) by {
        vstd::bits::lemma_usize_shl_is_mul(1, (log_size - 1) as usize);
    }
    let mut out: Vec<u32> = Vec::new();
    let mut i: usize = 0;
    while i < half
        invariant
            i <= half,
            half == pow2((log_size - 1) as nat),
            2 * half <= 0x4000_0000,
            1 <= log_size <= 29,
            out@ == line_fold_factors(log_size).take(i as int),
        decreases half - i,
    {
        proof {
            lemma_bit_reverse_below((2 * i) as nat, log_size as nat);
        }
        let row = bit_reverse_index(2 * i, log_size);
        let x = line_domain_x_at(log_size, row);
        out.push(base_inverse(x));
        proof {
            assert(out@ =~= line_fold_factors(log_size).take(i + 1));
        }
        i = i + 1;
    }
    proof {
        assert(line_fold_factors(log_size).take(half as int) =~= line_fold_factors(log_size));
    }
    out
}

/// The inverse `y` factors of the first FRI fold, from the canonic circle
/// domain of size `2^log_size` into a line.
pub fn circle_fold_inverse_factors(log_size: u32) -> (r: Vec<u32>)
    requires
        1 <= log_size <= 30,
    ensures
        r@ == circle_fold_factors(log_size),
{
    proof {
        lemma_half_size(log_size);
    }
    let half: usize = 1usize << ((log_size - 1) as usize);
    assert(half == pow2((log_size - 1) as nat)) by {
        vstd::bits::lemma_usize_shl_is_mul(1, (log_size - 1) as usize);
    }
    let mut out: Vec<u32> = Vec::new();
    let mut i: usize = 0;
    while i < half
        invariant
            i <= half,
            half == pow2((log_size - 1) as nat),
            2 * half <= 0x4000_0000,
            1 <= log_size <= 30,
            out@ == circle_fold_factors(log_size).take(i as int),
        decreases half - i,
    {
        proof {
            lemma_bit_reverse_below((2 * i) as nat, log_size as nat);
        }
        let row = bit_reverse_index(2 * i, log_size);
        let point = canonic_circle_domain_at(log_size, row);
        out.push(base_inverse(point.1));
        proof {
            assert(out@ =~= circle_fold_factors(log_size).take(i + 1));
        }
        i = i + 1;
    }
    proof {
        assert(circle_fold_factors(log_size).take(half as int) =~= circle_fold_factors(log_size));
    }
    out
}

/// `alpha` squared `k` times.
pub open spec fn qm31_square_times(alpha: Seq<u32>, k: nat) -> Seq<u32>
    decreases k,
{
    if k == 0 {
        alpha
    } else {
        let prev = qm31_square_times(alpha, (k - 1) as nat);
        qm31_mul(prev, prev)
    }
}

/// What the device needs for one line fold: the inverse `x` factors of the
/// current domain and the folding challenge of this step.
pub struct MetalLineFoldStep {
    pub inverse_x_factors: Vec<u32>,
    pub alpha: MetalSecureFieldValueV1,
}

/// The steps of folding a line evaluation over the FRI line domain of size
/// `2^log_size` `fold_step` times with challenge `alpha`: step `k` folds the
/// domain of size `2^(log_size - k)` (each fold doubles the domain, halving
/// it) with `alpha` squared `k` times.
pub fn fold_line_steps(log_size: u32, alpha: MetalSecureFieldValueV1, fold_step: u32) -> (r: Vec<MetalLineFoldStep>)
    requires
        1 <= fold_step <= log_size <= 29,
        is_canonical(alpha),
    ensures
        r@.len() == fold_step,
        forall|k: int|
            0 <= k < fold_step ==> (#[trigger] r@[k]).inverse_x_factors@ == line_fold_factors((log_size - k) as u32)
                && r@[k].alpha.limbs@ == qm31_square_times(alpha.limbs@, k as nat),
{
    let mut steps: Vec<MetalLineFoldStep> = Vec::new();
    let mut current_alpha = alpha;
    let mut k: u32 = 0;
    while k < fold_step
        invariant
            k <= fold_step <= log_size <= 29,
            1 <= fold_step,
            is_canonical(current_alpha),
            current_alpha.limbs@ == qm31_square_times(alpha.limbs@, k as nat),
            steps@.len() == k,
            forall|j: int|
                0 <= j < k ==> (#[trigger] steps@[j]).inverse_x_factors@ == line_fold_factors((log_size - j) as u32)
                    && steps@[j].alpha.limbs@ == qm31_square_times(alpha.limbs@, j as nat),
        decreases fold_step - k,
    {
        let factors = line_fold_inverse_factors(log_size - k);
        steps.push(MetalLineFoldStep { inverse_x_factors: factors, alpha: current_alpha });
        current_alpha = secure_mul(current_alpha, current_alpha);
        k = k + 1;
    }
    steps
}

} // verus!
