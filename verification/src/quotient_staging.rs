use vstd::arithmetic::power2::{
    lemma2_to64, lemma_pow2, lemma_pow2_pos, lemma_pow2_strictly_increases, lemma_pow2_unfold, pow2,
};
use vstd::prelude::*;

use crate::field_ops::{
    base_neg, is_canonical, m31_neg, qm31, qm31_add, qm31_mul, qm31_sub, qm31_zero, secure_add, secure_mul,
    secure_sub, secure_zero, MetalSecureCirclePointV1, M31_P,
};
use crate::sampled_values::MetalSecureFieldValueV1;

verus! {

// ---------------------------------------------------------------------------
// Line coefficients of a sample and its complex conjugate.
// ---------------------------------------------------------------------------

/// The complex conjugate of a secure-field value `a + bu`: `a - bu`.
pub open spec fn qm31_conj(x: Seq<u32>) -> Seq<u32> {
    qm31(x[0], x[1], m31_neg(x[2]), m31_neg(x[3]))
}

/// The coefficients `(alpha a, alpha b, alpha c)` of the line through
/// `(y, value)` and its conjugate: `a = conj(value) - value`,
/// `c = conj(y) - y`, `b = value c - a y`.
pub open spec fn line_coeffs(y: Seq<u32>, value: Seq<u32>, alpha: Seq<u32>) -> (Seq<u32>, Seq<u32>, Seq<u32>) {
    let a = qm31_sub(qm31_conj(value), value);
    let c = qm31_sub(qm31_conj(y), y);
    let b = qm31_sub(qm31_mul(value, c), qm31_mul(a, y));
    (qm31_mul(alpha, a), qm31_mul(alpha, b), qm31_mul(alpha, c))
}

/// A point is not its own conjugate: its `y` has a non-zero `u` part.
pub open spec fn not_self_conjugate(p: MetalSecureCirclePointV1) -> bool {
    p.y.limbs[2] != 0 || p.y.limbs[3] != 0
}

fn secure_conj(x: MetalSecureFieldValueV1) -> (r: MetalSecureFieldValueV1)
    requires
        is_canonical(x),
    ensures
        r.limbs@ == qm31_conj(x.limbs@),
        is_canonical(r),
{
    assert(x.limbs[2] < M31_P && x.limbs[3] < M31_P);
    let r = MetalSecureFieldValueV1 { limbs: [x.limbs[0], x.limbs[1], base_neg(x.limbs[2]), base_neg(x.limbs[3])] };
    assert(r.limbs@ =~= qm31_conj(x.limbs@));
    r
}

/// The line coefficients of the sample `value` at `point`, scaled by
/// `alpha`. A point that is its own conjugate spans no line.
pub fn complex_conjugate_line_coeffs(
    point: &MetalSecureCirclePointV1,
    value: MetalSecureFieldValueV1,
    alpha: MetalSecureFieldValueV1,
) -> (r: (MetalSecureFieldValueV1, MetalSecureFieldValueV1, MetalSecureFieldValueV1))
    requires
        is_canonical(point.y),
        is_canonical(value),
        is_canonical(alpha),
        not_self_conjugate(*point),
    ensures
        (r.0.limbs@, r.1.limbs@, r.2.limbs@) == line_coeffs(point.y.limbs@, value.limbs@, alpha.limbs@),
        is_canonical(r.0),
        is_canonical(r.1),
        is_canonical(r.2),
{
    let a = secure_sub(secure_conj(value), value);
    let c = secure_sub(secure_conj(point.y), point.y);
    let b = secure_sub(secure_mul(value, c), secure_mul(a, point.y));
    (secure_mul(alpha, a), secure_mul(alpha, b), secure_mul(alpha, c))
}

// ---------------------------------------------------------------------------
// Staging the partial-numerator terms of sample batches.
// ---------------------------------------------------------------------------

/// A sampled column: its index, its value at the batch's point, and the
/// random coefficient of its quotient.
#[derive(Copy, Clone, Debug, PartialEq, Eq)]
pub struct MetalNumeratorDataV1 {
    pub column_index: usize,
    pub sample_value: MetalSecureFieldValueV1,
    pub random_coeff: MetalSecureFieldValueV1,
}

/// The columns sampled at one point.
#[derive(Clone, Debug)]
pub struct MetalColumnSampleBatchV1 {
    pub point: MetalSecureCirclePointV1,
    pub cols_vals_randpows: Vec<MetalNumeratorDataV1>,
}

/// The line coefficients of one term of a batch sampled at `point`.
pub open spec fn term_coeffs(point: MetalSecureCirclePointV1, d: MetalNumeratorDataV1) -> (
    Seq<u32>,
    Seq<u32>,
    Seq<u32>,
) {
    line_coeffs(point.y.limbs@, d.sample_value.limbs@, d.random_coeff.limbs@)
}

/// The sum of the `a` coefficients of `terms`, added in order from zero.
pub open spec fn first_linear_sum(point: MetalSecureCirclePointV1, terms: Seq<MetalNumeratorDataV1>) -> Seq<u32>
    decreases terms.len(),
{
    if terms.len() == 0 {
        qm31_zero()
    } else {
        qm31_add(first_linear_sum(point, terms.drop_last()), term_coeffs(point, terms.last()).0)
    }
}

pub open spec fn batch_column_indices(b: MetalColumnSampleBatchV1) -> Seq<u32> {
    b.cols_vals_randpows@.map_values(|d: MetalNumeratorDataV1| d.column_index as u32)
}

pub open spec fn batch_b_words(b: MetalColumnSampleBatchV1) -> Seq<u32> {
    b.cols_vals_randpows@.map_values(|d: MetalNumeratorDataV1| term_coeffs(b.point, d).1).flatten_alt()
}

pub open spec fn batch_c_words(b: MetalColumnSampleBatchV1) -> Seq<u32> {
    b.cols_vals_randpows@.map_values(|d: MetalNumeratorDataV1| term_coeffs(b.point, d).2).flatten_alt()
}

/// The number of terms in the batches before index `k`.
pub open spec fn terms_before(batches: Seq<MetalColumnSampleBatchV1>, k: int) -> nat
    decreases k,
{
    if k <= 0 || batches.len() == 0 {
        0
    } else if k > batches.len() {
        terms_before(batches, batches.len() as int)
    } else {
        terms_before(batches, k - 1) + batches[k - 1].cols_vals_randpows@.len()
    }
}

/// A term's column index fits in a word and its values are canonical.
pub open spec fn term_stageable(d: MetalNumeratorDataV1) -> bool {
    &&& d.column_index <= u32::MAX
    &&& is_canonical(d.sample_value)
    &&& is_canonical(d.random_coeff)
}

pub open spec fn terms_stageable(terms: Seq<MetalNumeratorDataV1>) -> bool {
    forall|t: int| 0 <= t < terms.len() ==> #[trigger] term_stageable(terms[t])
}

/// Every value is canonical, no batch point is its own conjugate, and every
/// index, count and offset the staging writes fits in a word.
pub open spec fn sample_batches_stageable(batches: Seq<MetalColumnSampleBatchV1>) -> bool {
    forall|k: int|
        0 <= k < batches.len() ==> {
            let b = #[trigger] batches[k];
            &&& is_canonical(b.point.y)
            &&& not_self_conjugate(b.point)
            &&& terms_before(batches, k) <= u32::MAX
            &&& b.cols_vals_randpows@.len() <= u32::MAX
            &&& terms_stageable(b.cols_vals_randpows@)
        }
}

/// The flat arrays the batched partial-numerator kernel reads.
pub struct MetalPartialNumeratorTermsV1 {
    pub column_indices: Vec<u32>,
    pub b_coeffs: Vec<u32>,
    pub c_coeffs: Vec<u32>,
    pub term_offsets: Vec<u32>,
    pub term_counts: Vec<u32>,
    pub first_linear_terms: Vec<MetalSecureFieldValueV1>,
}

proof fn lemma_terms_before_step(batches: Seq<MetalColumnSampleBatchV1>, k: int)
    requires
        0 <= k < batches.len(),
    ensures
        terms_before(batches, k + 1) == terms_before(batches, k) + batches[k].cols_vals_randpows@.len(),
{
}

/// Appends the four limbs of `v` to `out`.
fn push_limbs(out: &mut Vec<u32>, v: MetalSecureFieldValueV1)
    ensures
        final(out)@ == old(out)@ + v.limbs@,
{
    let ghost start = out@;
    out.push(v.limbs[0]);
    out.push(v.limbs[1]);
    out.push(v.limbs[2]);
    out.push(v.limbs[3]);
    assert(out@ =~= start + v.limbs@);
}

/// The terms of one batch, staged.
fn stage_batch(
    batch: &MetalColumnSampleBatchV1,
    column_indices: &mut Vec<u32>,
    b_coeffs: &mut Vec<u32>,
    c_coeffs: &mut Vec<u32>,
) -> (r: MetalSecureFieldValueV1)
    requires
        is_canonical(batch.point.y),
        not_self_conjugate(batch.point),
        terms_stageable(batch.cols_vals_randpows@),
    ensures
        final(column_indices)@ == old(column_indices)@ + batch_column_indices(*batch),
        final(b_coeffs)@ == old(b_coeffs)@ + batch_b_words(*batch),
        final(c_coeffs)@ == old(c_coeffs)@ + batch_c_words(*batch),
        r.limbs@ == first_linear_sum(batch.point, batch.cols_vals_randpows@),
        is_canonical(r),
{
    let terms = &batch.cols_vals_randpows;
    let ghost bs = terms@.map_values(|d: MetalNumeratorDataV1| term_coeffs(batch.point, d).1);
    let ghost cs = terms@.map_values(|d: MetalNumeratorDataV1| term_coeffs(batch.point, d).2);
    let ghost idx0 = column_indices@;
    let ghost b0 = b_coeffs@;
    let ghost c0 = c_coeffs@;
    let mut acc = secure_zero();
    let mut t: usize = 0;
    while t < terms.len()
        invariant
            t <= terms@.len(),
            terms@ == batch.cols_vals_randpows@,
            is_canonical(batch.point.y),
            not_self_conjugate(batch.point),
            terms_stageable(batch.cols_vals_randpows@),
            bs == terms@.map_values(|d: MetalNumeratorDataV1| term_coeffs(batch.point, d).1),
            cs == terms@.map_values(|d: MetalNumeratorDataV1| term_coeffs(batch.point, d).2),
            column_indices@ == idx0 + batch_column_indices(*batch).take(t as int),
            b_coeffs@ == b0 + bs.take(t as int).flatten_alt(),
            c_coeffs@ == c0 + cs.take(t as int).flatten_alt(),
            acc.limbs@ == first_linear_sum(batch.point, terms@.take(t as int)),
            is_canonical(acc),
        decreases terms@.len() - t,
    {
        let d = terms[t];
        assert(terms@[t as int] == d);
        assert(term_stageable(d));
        let coeffs = complex_conjugate_line_coeffs(&batch.point, d.sample_value, d.random_coeff);
        let ghost bb = b_coeffs@;
        let ghost cb = c_coeffs@;
        column_indices.push(d.column_index as u32);
        push_limbs(b_coeffs, coeffs.1);
        push_limbs(c_coeffs, coeffs.2);
        acc = secure_add(acc, coeffs.0);
        proof {
            assert(batch_column_indices(*batch).take(t + 1) =~= batch_column_indices(*batch).take(
                t as int,
            ).push(d.column_index as u32));
            assert(column_indices@ =~= idx0 + batch_column_indices(*batch).take(t + 1));
            assert(bs[t as int] == coeffs.1.limbs@);
            assert(cs[t as int] == coeffs.2.limbs@);
            assert(bs.take(t + 1).drop_last() =~= bs.take(t as int));
            assert(cs.take(t + 1).drop_last() =~= cs.take(t as int));
            assert(terms@.take(t + 1).drop_last() =~= terms@.take(t as int));
            assert(terms@.take(t + 1).last() == d);
        }
        t = t + 1;
    }
    proof {
        assert(batch_column_indices(*batch).take(terms@.len() as int) =~= batch_column_indices(*batch));
        assert(bs.take(terms@.len() as int) =~= bs);
        assert(cs.take(terms@.len() as int) =~= cs);
        assert(terms@.take(terms@.len() as int) =~= terms@);
    }
    acc
}

/// Lays out the terms of `batches` as the batched partial-numerator kernel
/// reads them: per batch, where its terms start, how many there are, and the
/// sum of their `a` coefficients; per term, its column index and its `b` and
/// `c` coefficients.
pub fn stage_partial_numerator_terms(batches: &[MetalColumnSampleBatchV1]) -> (r: MetalPartialNumeratorTermsV1)
    requires
        sample_batches_stageable(batches@),
    ensures
        r.column_indices@ == batches@.map_values(|b: MetalColumnSampleBatchV1| batch_column_indices(b)).flatten_alt(),
        r.b_coeffs@ == batches@.map_values(|b: MetalColumnSampleBatchV1| batch_b_words(b)).flatten_alt(),
        r.c_coeffs@ == batches@.map_values(|b: MetalColumnSampleBatchV1| batch_c_words(b)).flatten_alt(),
        r.term_offsets@ == Seq::new(batches@.len(), |k: int| terms_before(batches@, k) as u32),
        r.term_counts@ == Seq::new(batches@.len(), |k: int| batches@[k].cols_vals_randpows@.len() as u32),
        r.first_linear_terms@.len() == batches@.len(),
        forall|k: int|
            0 <= k < batches@.len() ==> (#[trigger] r.first_linear_terms@[k]).limbs@ == first_linear_sum(
                batches@[k].point,
                batches@[k].cols_vals_randpows@,
            ),
{
    let ghost is = batches@.map_values(|b: MetalColumnSampleBatchV1| batch_column_indices(b));
    let ghost bw = batches@.map_values(|b: MetalColumnSampleBatchV1| batch_b_words(b));
    let ghost cw = batches@.map_values(|b: MetalColumnSampleBatchV1| batch_c_words(b));
    let mut column_indices: Vec<u32> = Vec::new();
    let mut b_coeffs: Vec<u32> = Vec::new();
    let mut c_coeffs: Vec<u32> = Vec::new();
    let mut term_offsets: Vec<u32> = Vec::new();
    let mut term_counts: Vec<u32> = Vec::new();
    let mut first_linear_terms: Vec<MetalSecureFieldValueV1> = Vec::new();
    let mut k: usize = 0;
    while k < batches.len()
        invariant
            k <= batches@.len(),
            sample_batches_stageable(batches@),
            is == batches@.map_values(|b: MetalColumnSampleBatchV1| batch_column_indices(b)),
            bw == batches@.map_values(|b: MetalColumnSampleBatchV1| batch_b_words(b)),
            cw == batches@.map_values(|b: MetalColumnSampleBatchV1| batch_c_words(b)),
            column_indices@ == is.take(k as int).flatten_alt(),
            b_coeffs@ == bw.take(k as int).flatten_alt(),
            c_coeffs@ == cw.take(k as int).flatten_alt(),
            column_indices@.len() == terms_before(batches@, k as int),
            term_offsets@ == Seq::new(k as nat, |j: int| terms_before(batches@, j) as u32),
            term_counts@ == Seq::new(k as nat, |j: int| batches@[j].cols_vals_randpows@.len() as u32),
            first_linear_terms@.len() == k,
            forall|j: int|
                0 <= j < k ==> (#[trigger] first_linear_terms@[j]).limbs@ == first_linear_sum(
                    batches@[j].point,
                    batches@[j].cols_vals_randpows@,
                ),
        decreases batches@.len() - k,
    {
        let batch = &batches[k];
        assert(batches@[k as int] == *batch);
        let offset = column_indices.len();
        assert(offset <= u32::MAX);
        term_offsets.push(offset as u32);
        term_counts.push(batch.cols_vals_randpows.len() as u32);
        let ghost ib = column_indices@;
        let ghost bb = b_coeffs@;
        let ghost cb = c_coeffs@;
        let sum = stage_batch(batch, &mut column_indices, &mut b_coeffs, &mut c_coeffs);
        first_linear_terms.push(sum);
        proof {
            lemma_terms_before_step(batches@, k as int);
            assert(batch_column_indices(*batch).len() == batch.cols_vals_randpows@.len());
            assert(is[k as int] == batch_column_indices(*batch));
            assert(bw[k as int] == batch_b_words(*batch));
            assert(cw[k as int] == batch_c_words(*batch));
            assert(is.take(k + 1).drop_last() =~= is.take(k as int));
            assert(bw.take(k + 1).drop_last() =~= bw.take(k as int));
            assert(cw.take(k + 1).drop_last() =~= cw.take(k as int));
            assert(term_offsets@ =~= Seq::new((k + 1) as nat, |j: int| terms_before(batches@, j) as u32));
            assert(term_counts@ =~= Seq::new(
                (k + 1) as nat,
                |j: int| batches@[j].cols_vals_randpows@.len() as u32,
            ));
        }
        k = k + 1;
    }
    proof {
        assert(is.take(batches@.len() as int) =~= is);
        assert(bw.take(batches@.len() as int) =~= bw);
        assert(cw.take(batches@.len() as int) =~= cw);
    }
    MetalPartialNumeratorTermsV1 { column_indices, b_coeffs, c_coeffs, term_offsets, term_counts, first_linear_terms }
}

// ---------------------------------------------------------------------------
// Staging the quotient combination.
// ---------------------------------------------------------------------------

/// One accumulation as the combination kernel reads it: the length of its
/// partial numerators, the point it was sampled at and its first linear
/// term.
#[derive(Copy, Clone, Debug, PartialEq, Eq)]
pub struct MetalQuotientAccumulationV1 {
    pub partial_len: usize,
    pub sample_point: MetalSecureCirclePointV1,
    pub first_linear_term: MetalSecureFieldValueV1,
}

/// The words of a secure circle point: the limbs of `x`, then those of `y`.
pub open spec fn point_words(p: MetalSecureCirclePointV1) -> Seq<u32> {
    p.x.limbs@ + p.y.limbs@
}

/// The partial-numerator length of the accumulations before index `k`.
pub open spec fn partials_before(accs: Seq<MetalQuotientAccumulationV1>, k: int) -> nat
    decreases k,
{
    if k <= 0 || accs.len() == 0 {
        0
    } else if k > accs.len() {
        partials_before(accs, accs.len() as int)
    } else {
        partials_before(accs, k - 1) + accs[k - 1].partial_len as nat
    }
}

/// Every partial numerator is non-empty, every offset fits in a word and
/// the total fits in memory.
pub open spec fn accumulations_stageable(accs: Seq<MetalQuotientAccumulationV1>) -> bool {
    &&& forall|k: int|
        0 <= k < accs.len() ==> #[trigger] accs[k].partial_len > 0 && partials_before(accs, k) <= u32::MAX
    &&& partials_before(accs, accs.len() as int) <= usize::MAX
}

/// Where the combination kernel finds each accumulation.
pub struct MetalQuotientCombineLayoutV1 {
    pub total_partial_len: usize,
    pub partial_offsets: Vec<u32>,
    pub partial_log_sizes: Vec<u32>,
    pub sample_points: Vec<u32>,
    pub first_linear_terms: Vec<u32>,
}

/// The base-2 logarithm of `n`, rounded down; zero below two.
pub open spec fn floor_log2_spec(n: nat) -> nat
    decreases n,
{
    if n < 2 {
        0
    } else {
        1 + floor_log2_spec(n / 2)
    }
}

proof fn lemma_floor_log2_below(n: nat, e: nat)
    requires
        n < pow2(e),
        e > 0,
    ensures
        floor_log2_spec(n) < e,
    decreases e,
{
    if n >= 2 {
        lemma_pow2_unfold(e);
        if e == 1 {
            assert(pow2(0) == 1) by {
                lemma_pow2(0);
                vstd::arithmetic::power::lemma_pow0(2);
            }
        } else {
            lemma_floor_log2_below(n / 2, (e - 1) as nat);
        }
    }
}

/// The base-2 logarithm of `n`, rounded down.
pub fn floor_log2(n: usize) -> (r: u32)
    requires
        n > 0,
    ensures
        r == floor_log2_spec(n as nat),
{
    proof {
        lemma2_to64();
        lemma_floor_log2_below(n as nat, 64);
    }
    let mut v = n;
    let mut k: u32 = 0;
    while v >= 2
        invariant
            1 <= v <= n,
            floor_log2_spec(n as nat) < 64,
            floor_log2_spec(n as nat) == k + floor_log2_spec(v as nat),
        decreases v,
    {
        v = v / 2;
        k = k + 1;
    }
    k
}

/// Lays out `accs` as the quotient-combination kernel reads them: the
/// offset and base-2 logarithm of each partial numerator's length, and the
/// words of each sample point and first linear term.
pub fn stage_quotient_combine(accs: &[MetalQuotientAccumulationV1]) -> (r: MetalQuotientCombineLayoutV1)
    requires
        accumulations_stageable(accs@),
    ensures
        r.total_partial_len == partials_before(accs@, accs@.len() as int),
        r.partial_offsets@ == Seq::new(accs@.len(), |k: int| partials_before(accs@, k) as u32),
        r.partial_log_sizes@ == Seq::new(accs@.len(), |k: int| floor_log2_spec(accs@[k].partial_len as nat) as u32),
        r.sample_points@ == accs@.map_values(|a: MetalQuotientAccumulationV1| point_words(a.sample_point)).flatten_alt(),
        r.first_linear_terms@ == accs@.map_values(
            |a: MetalQuotientAccumulationV1| a.first_linear_term.limbs@,
        ).flatten_alt(),
{
    let ghost pw = accs@.map_values(|a: MetalQuotientAccumulationV1| point_words(a.sample_point));
    let ghost fw = accs@.map_values(|a: MetalQuotientAccumulationV1| a.first_linear_term.limbs@);
    let mut offsets: Vec<u32> = Vec::new();
    let mut log_sizes: Vec<u32> = Vec::new();
    let mut points: Vec<u32> = Vec::new();
    let mut terms: Vec<u32> = Vec::new();
    let mut offset: usize = 0;
    let mut k: usize = 0;
    while k < accs.len()
        invariant
            k <= accs@.len(),
            accumulations_stageable(accs@),
            pw == accs@.map_values(|a: MetalQuotientAccumulationV1| point_words(a.sample_point)),
            fw == accs@.map_values(|a: MetalQuotientAccumulationV1| a.first_linear_term.limbs@),
            offset == partials_before(accs@, k as int),
            offsets@ == Seq::new(k as nat, |j: int| partials_before(accs@, j) as u32),
            log_sizes@ == Seq::new(k as nat, |j: int| floor_log2_spec(accs@[j].partial_len as nat) as u32),
            points@ == pw.take(k as int).flatten_alt(),
            terms@ == fw.take(k as int).flatten_alt(),
        decreases accs@.len() - k,
    {
        let acc = accs[k];
        assert(accs@[k as int] == acc);
        assert(acc.partial_len > 0 && partials_before(accs@, k as int) <= u32::MAX);
        offsets.push(offset as u32);
        log_sizes.push(floor_log2(acc.partial_len));
        let ghost pb = points@;
        let ghost tb = terms@;
        points.push(acc.sample_point.x.limbs[0]);
        points.push(acc.sample_point.x.limbs[1]);
        points.push(acc.sample_point.x.limbs[2]);
        points.push(acc.sample_point.x.limbs[3]);
        points.push(acc.sample_point.y.limbs[0]);
        points.push(acc.sample_point.y.limbs[1]);
        points.push(acc.sample_point.y.limbs[2]);
        points.push(acc.sample_point.y.limbs[3]);
        terms.push(acc.first_linear_term.limbs[0]);
        terms.push(acc.first_linear_term.limbs[1]);
        terms.push(acc.first_linear_term.limbs[2]);
        terms.push(acc.first_linear_term.limbs[3]);
        proof {
            assert(partials_before(accs@, k + 1) == partials_before(accs@, k as int) + acc.partial_len);
            lemma_partials_monotone(accs@, k + 1, accs@.len() as int);
            assert(pw[k as int] == point_words(acc.sample_point));
            assert(fw[k as int] == acc.first_linear_term.limbs@);
            assert(points@ =~= pb + point_words(acc.sample_point));
            assert(terms@ =~= tb + acc.first_linear_term.limbs@);
            assert(pw.take(k + 1).drop_last() =~= pw.take(k as int));
            assert(fw.take(k + 1).drop_last() =~= fw.take(k as int));
            assert(offsets@ =~= Seq::new((k + 1) as nat, |j: int| partials_before(accs@, j) as u32));
            assert(log_sizes@ =~= Seq::new((k + 1) as nat, |j: int| floor_log2_spec(accs@[j].partial_len as nat) as u32));
        }
        offset = offset + acc.partial_len;
        k = k + 1;
    }
    proof {
        assert(pw.take(accs@.len() as int) =~= pw);
        assert(fw.take(accs@.len() as int) =~= fw);
    }
    MetalQuotientCombineLayoutV1 {
        total_partial_len: offset,
        partial_offsets: offsets,
        partial_log_sizes: log_sizes,
        sample_points: points,
        first_linear_terms: terms,
    }
}

proof fn lemma_partials_monotone(accs: Seq<MetalQuotientAccumulationV1>, i: int, j: int)
    requires
        0 <= i <= j <= accs.len(),
    ensures
        partials_before(accs, i) <= partials_before(accs, j),
    decreases j - i,
{
    if i < j {
        lemma_partials_monotone(accs, i, j - 1);
    }
}

// ---------------------------------------------------------------------------
// The coordinates of the lifting domain.
// ---------------------------------------------------------------------------

/// The index `i` with its lowest `n` bits in reverse order; higher bits are
/// dropped.
pub open spec fn bit_reverse_spec(i: nat, n: nat) -> nat
    decreases n,
{
    if n == 0 {
        0
    } else {
        (i % 2) * pow2((n - 1) as nat) + bit_reverse_spec(i / 2, (n - 1) as nat)
    }
}

pub(crate) proof fn lemma_bit_reverse_below(i: nat, n: nat)
    ensures
        bit_reverse_spec(i, n) < pow2(n),
    decreases n,
{
    lemma_pow2_pos(n);
    if n > 0 {
        let m = (n - 1) as nat;
        lemma_bit_reverse_below(i / 2, m);
        lemma_pow2_unfold(n);
        assert((i % 2) * pow2(m) <= pow2(m)) by (nonlinear_arith)
            requires
                i % 2 <= 1,
        ;
    }
}

/// The index `i` with its lowest `log_size` bits in reverse order: the
/// position of row `i` in bit-reversed order.
pub(crate) fn bit_reverse_index(i: usize, log_size: u32) -> (r: usize)
    requires
        log_size <= 30,
    ensures
        r == bit_reverse_spec(i as nat, log_size as nat),
{
    proof {
        lemma2_to64();
    }
    let mut rest = i;
    let mut out: usize = 0;
    let mut k: u32 = 0;
    while k < log_size
        invariant
            k <= log_size <= 30,
            pow2(30) == 0x4000_0000,
            pow2(0) == 1,
            out as nat * pow2((log_size - k) as nat) + bit_reverse_spec(rest as nat, (log_size - k) as nat)
                == bit_reverse_spec(i as nat, log_size as nat),
            out < pow2(k as nat),
        decreases log_size - k,
    {
        let ghost m = (log_size - k) as nat;
        proof {
            lemma_pow2_unfold(m);
            lemma_pow2_unfold((k + 1) as nat);
            if k + 1 < 30 {
                lemma_pow2_strictly_increases((k + 1) as nat, 30);
            }
            let p = pow2((m - 1) as nat);
            assert(out as nat * (2 * p) + ((rest as nat % 2) * p + bit_reverse_spec(rest as nat / 2, (m - 1) as nat))
                == (2 * out as nat + rest as nat % 2) * p + bit_reverse_spec(rest as nat / 2, (m - 1) as nat))
                by (nonlinear_arith);
        }
        out = 2 * out + rest % 2;
        rest = rest / 2;
        k = k + 1;
    }
    assert(bit_reverse_spec(rest as nat, 0) == 0);
    assert(out as nat * pow2(0) == out) by (nonlinear_arith)
        requires
            pow2(0) == 1,
    ;
    out
}

/// The coordinates `(x, y)` of point `index` of the canonic circle domain
/// of size `2^log_size`, as stwo orders that domain.
pub uninterp spec fn canonic_domain_point(log_size: u32, index: usize) -> (u32, u32);

/// Point `index` of the canonic circle domain of size `2^log_size`.
///
/// Trusted: calls `stwo::core::poly::circle::CanonicCoset::circle_domain`
/// and `CircleDomain::at`, and claims that the coordinates are a function of
/// `log_size` and `index`, reduced field elements, with a non-zero `y`: the
/// points of a canonic domain of at least two points have indices that are
/// odd multiples of `2^(30 - log_size)`, and only the indices `0` and `2^30`
/// give `y = 0`. `CanonicCoset::new` asserts a positive size and the cosets
/// it builds assert a size of at most `2^30`.
#[verifier::external_body]
pub(crate) fn canonic_circle_domain_at(log_size: u32, index: usize) -> (r: (u32, u32))
    requires
        1 <= log_size <= 30,
    ensures
        r == canonic_domain_point(log_size, index),
        r.0 < M31_P,
        0 < r.1 < M31_P,
{
    let point = stwo::core::poly::circle::CanonicCoset::new(log_size).circle_domain().at(index);
    (point.x.0, point.y.0)
}

/// The point of the canonic domain of size `2^log_size` in row `row` of
/// bit-reversed order.
pub open spec fn domain_row_point(log_size: u32, row: int) -> (u32, u32) {
    canonic_domain_point(log_size, bit_reverse_spec(row as nat, log_size as nat) as usize)
}

/// The `x` and `y` coordinates of the lifting domain of size
/// `2^lifting_log_size`, row by row in bit-reversed order.
pub fn quotient_domain_coords(lifting_log_size: u32) -> (r: (Vec<u32>, Vec<u32>))
    requires
        1 <= lifting_log_size <= 30,
    ensures
        r.0@.len() == pow2(lifting_log_size as nat),
        r.1@.len() == pow2(lifting_log_size as nat),
        forall|j: int|
            0 <= j < r.0@.len() ==> #[trigger] domain_row_point(lifting_log_size, j) == (r.0@[j], r.1@[j]),
{
    proof {
        lemma2_to64();
        if lifting_log_size < 30 {
            lemma_pow2_strictly_increases(lifting_log_size as nat, 30);
        }
    }
    let shift = lifting_log_size as usize;
    let row_count: usize = 1usize << shift;
    assert(row_count == pow2(lifting_log_size as nat)) by {
        vstd::bits::lemma_usize_shl_is_mul(1, shift);
    }
    let mut xs: Vec<u32> = Vec::new();
    let mut ys: Vec<u32> = Vec::new();
    let mut row: usize = 0;
    while row < row_count
        invariant
            row <= row_count,
            row_count == pow2(lifting_log_size as nat),
            1 <= lifting_log_size <= 30,
            xs@.len() == row,
            ys@.len() == row,
            forall|j: int| 0 <= j < row ==> #[trigger] domain_row_point(lifting_log_size, j) == (xs@[j], ys@[j]),
        decreases row_count - row,
    {
        let index = bit_reverse_index(row, lifting_log_size);
        assert(bit_reverse_spec(row as nat, lifting_log_size as nat) as usize == index);
        let p = canonic_circle_domain_at(lifting_log_size, index);
        xs.push(p.0);
        ys.push(p.1);
        assert(domain_row_point(lifting_log_size, row as int) == (xs@[row as int], ys@[row as int]));
        row = row + 1;
    }
    (xs, ys)
}

} // verus!
