use vstd::prelude::*;
use vstd::arithmetic::power2::{lemma_pow2_adds, lemma_pow2_pos, lemma_pow2_unfold, pow2};

use crate::decommit::query_read_index;
use crate::field_ops::{is_canonical, qm31_add, qm31_zero, secure_add, secure_zero};
use crate::quotient_staging::{floor_log2, floor_log2_spec};
use crate::sampled_values::MetalSecureFieldValueV1;

verus! {

/// Every value has canonical limbs.
pub open spec fn all_canonical(values: Seq<MetalSecureFieldValueV1>) -> bool {
    forall|i: int| 0 <= i < values.len() ==> is_canonical(#[trigger] values[i])
}

/// The limbs of each value.
pub open spec fn limb_views(values: Seq<MetalSecureFieldValueV1>) -> Seq<Seq<u32>> {
    values.map_values(|v: MetalSecureFieldValueV1| v.limbs@)
}

/// The coordinate columns of secure-field values: column `c` holds limb
/// `c` of every value.
pub fn metal_secure_column_from_values(values: &[MetalSecureFieldValueV1]) -> (r: Vec<Vec<u32>>)
    ensures
        r@.len() == 4,
        forall|c: int| 0 <= c < 4 ==> (#[trigger] r@[c])@.len() == values@.len(),
        forall|c: int, i: int| 0 <= c < 4 && 0 <= i < values@.len() ==> #[trigger] r@[c]@[i] == values@[i].limbs[c],
{
    let mut columns: Vec<Vec<u32>> = Vec::new();
    let mut c: usize = 0;
    while c < 4
        invariant
            c <= 4,
            columns@.len() == c,
            forall|k: int| 0 <= k < c ==> (#[trigger] columns@[k])@.len() == values@.len(),
            forall|k: int, i: int|
                0 <= k < c && 0 <= i < values@.len() ==> #[trigger] columns@[k]@[i] == values@[i].limbs[k],
        decreases 4 - c,
    {
        let mut column: Vec<u32> = Vec::new();
        let mut i: usize = 0;
        while i < values.len()
            invariant
                c < 4,
                i <= values@.len(),
                column@.len() == i,
                forall|j: int| 0 <= j < i ==> #[trigger] column@[j] == values@[j].limbs[c as int],
            decreases values@.len() - i,
        {
            column.push(values[i].limbs[c]);
            i = i + 1;
        }
        columns.push(column);
        c = c + 1;
    }
    columns
}

/// Adds `other` into `column`, value by value.
pub fn accumulate(column: &mut Vec<MetalSecureFieldValueV1>, other: &[MetalSecureFieldValueV1])
    requires
        old(column)@.len() <= other@.len(),
        all_canonical(old(column)@),
        all_canonical(other@),
    ensures
        final(column)@.len() == old(column)@.len(),
        all_canonical(final(column)@),
        forall|i: int|
            0 <= i < old(column)@.len() ==> (#[trigger] final(column)@[i]).limbs@ == qm31_add(
                old(column)@[i].limbs@,
                other@[i].limbs@,
            ),
{
    let ghost start = column@;
    let mut i: usize = 0;
    while i < column.len()
        invariant
            i <= column@.len(),
            column@.len() == start.len(),
            start.len() <= other@.len(),
            all_canonical(start),
            all_canonical(other@),
            forall|j: int| 0 <= j < column@.len() ==> is_canonical(#[trigger] column@[j]),
            forall|j: int| i <= j < column@.len() ==> #[trigger] column@[j] == start[j],
            forall|j: int|
                0 <= j < i ==> (#[trigger] column@[j]).limbs@ == qm31_add(start[j].limbs@, other@[j].limbs@),
        decreases column@.len() - i,
    {
        let sum = secure_add(column[i], other[i]);
        column.set(i, sum);
        i = i + 1;
    }
}

/// One lifting step: `col` plus the running column `curr`, which is read
/// at each position the way a smaller column is lifted onto a larger one.
pub open spec fn lift_step(col: Seq<Seq<u32>>, curr: Seq<Seq<u32>>) -> Seq<Seq<u32>> {
    let shift = (floor_log2_spec(col.len()) - floor_log2_spec(curr.len())) as usize;
    Seq::new(col.len(), |i: int| qm31_add(col[i], curr[query_read_index(i as usize, shift) as int]))
}

/// The running column after lifting the first `k` columns onto a zero
/// column of two values.
pub open spec fn lifted(cols: Seq<Seq<Seq<u32>>>, k: nat) -> Seq<Seq<u32>>
    decreases k,
{
    if k == 0 {
        Seq::new(2, |i: int| qm31_zero())
    } else {
        lift_step(cols[k - 1], lifted(cols, (k - 1) as nat))
    }
}

/// Columns that can be lifted onto each other: each has a power-of-two
/// length, the first at least two, and none is shorter than the one
/// before it.
pub open spec fn liftable(cols: Seq<Seq<MetalSecureFieldValueV1>>) -> bool {
    &&& forall|k: int| 0 <= k < cols.len() ==> exists|e: nat| #[trigger] cols[k].len() == pow2(e)
    &&& cols.len() > 0 ==> cols[0].len() >= 2
    &&& forall|k: int| 1 <= k < cols.len() ==> cols[k - 1].len() <= (#[trigger] cols[k]).len()
    &&& forall|k: int| 0 <= k < cols.len() ==> all_canonical(#[trigger] cols[k])
}

/// The limbs of each column.
pub open spec fn column_views(cols: Seq<Vec<MetalSecureFieldValueV1>>) -> Seq<Seq<Seq<u32>>> {
    cols.map_values(|c: Vec<MetalSecureFieldValueV1>| limb_views(c@))
}

/// The value views of each column.
pub open spec fn value_columns(cols: Seq<Vec<MetalSecureFieldValueV1>>) -> Seq<Seq<MetalSecureFieldValueV1>> {
    cols.map_values(|c: Vec<MetalSecureFieldValueV1>| c@)
}

pub(crate) proof fn lemma_floor_log2_pow2(e: nat)
    ensures
        floor_log2_spec(pow2(e)) == e,
    decreases e,
{
    if e > 0 {
        lemma_pow2_unfold(e);
        lemma_pow2_pos((e - 1) as nat);
        lemma_floor_log2_pow2((e - 1) as nat);
        assert(pow2(e) / 2 == pow2((e - 1) as nat));
    } else {
        assert(pow2(0) == 1) by {
            vstd::arithmetic::power2::lemma2_to64();
        }
    }
}

/// A position of a column of `2^a` values read in a column of `2^b`
/// values, `1 <= b <= a`, lies in it.
pub(crate) proof fn lemma_lift_index_in_range(i: usize, a: nat, b: nat)
    requires
        1 <= b <= a < usize::BITS,
        i < pow2(a),
    ensures
        ((i >> ((a - b + 1) as usize)) << 1usize) + (i & 1usize) < pow2(b),
        query_read_index(i, (a - b) as usize) < pow2(b),
{
    let s: usize = (a - b + 1) as usize;
    lemma_pow2_adds(s as nat, (b - 1) as nat);
    assert(s + (b - 1) == a);
    let d = pow2(s as nat);
    let m = pow2((b - 1) as nat);
    lemma_pow2_pos(s as nat);
    lemma_pow2_pos((b - 1) as nat);
    vstd::bits::lemma_usize_shr_is_div(i, s);
    let hi = i >> s;
    assert(hi == i as nat / d);
    assert(i as nat / d < m) by (nonlinear_arith)
        requires
            i < d * m,
            d > 0,
            m > 0,
    ;
    lemma_pow2_unfold(b);
    vstd::bits::lemma_usize_pow2_no_overflow(b);
    assert(pow2(1) == 2) by {
        vstd::arithmetic::power2::lemma2_to64();
    }
    assert(hi * 2 <= usize::MAX);
    vstd::bits::lemma_usize_shl_is_mul(hi, 1);
    assert((i & 1usize) <= 1) by (bit_vector);
    assert(((a - b) as usize + 1) as usize == s);
}

/// Lifts each column onto the next larger one, adding them up: starting
/// from a zero column of two values, each column is added to the running
/// column read at the lifted positions. `None` when there is no column.
pub fn lift_and_accumulate(cols: Vec<Vec<MetalSecureFieldValueV1>>) -> (r: Option<Vec<MetalSecureFieldValueV1>>)
    requires
        liftable(value_columns(cols@)),
    ensures
        cols@.len() == 0 ==> r is None,
        cols@.len() > 0 ==> r is Some && limb_views(r->Some_0@) == lifted(column_views(cols@), cols@.len() as nat)
            && all_canonical(r->Some_0@),
{
    if cols.len() == 0 {
        return None;
    }
    let ghost views = column_views(cols@);
    let ghost vcols = value_columns(cols@);
    let z = secure_zero();
    let mut curr: Vec<MetalSecureFieldValueV1> = Vec::new();
    curr.push(z);
    curr.push(z);
    proof {
        assert(limb_views(curr@) =~= lifted(views, 0));
        assert(pow2(1) == 2) by {
            vstd::arithmetic::power2::lemma2_to64();
        }
    }
    let mut k: usize = 0;
    while k < cols.len()
        invariant
            k <= cols@.len(),
            views == column_views(cols@),
            vcols == value_columns(cols@),
            liftable(vcols),
            cols@.len() > 0,
            limb_views(curr@) == lifted(views, k as nat),
            all_canonical(curr@),
            curr@.len() >= 2,
            exists|e: nat| #[trigger] pow2(e) == curr@.len(),
            k > 0 ==> curr@.len() == cols@[k - 1]@.len(),
            k == 0 ==> curr@.len() == 2,
        decreases cols@.len() - k,
    {
        let col = &cols[k];
        let ghost ca: nat = choose|e: nat| vcols[k as int].len() == pow2(e);
        let ghost cb: nat = choose|e: nat| pow2(e) == curr@.len();
        assert(vcols[k as int] == col@);
        proof {
            assert(vcols[k as int].len() == pow2(ca));
            if k == 0 {
                assert(col@.len() >= 2);
            } else {
                assert(vcols[k - 1] == cols@[k - 1]@);
            }
            lemma_floor_log2_pow2(ca);
            lemma_floor_log2_pow2(cb);
            if cb == 0 {
                assert(pow2(0) == 1) by {
                    vstd::arithmetic::power2::lemma2_to64();
                }
            }
            if ca < cb {
                vstd::arithmetic::power2::lemma_pow2_strictly_increases(ca, cb);
            }
            if ca >= usize::BITS {
                if ca > usize::BITS {
                    vstd::arithmetic::power2::lemma_pow2_strictly_increases(usize::BITS as nat, ca);
                }
                vstd::arithmetic::power2::lemma2_to64();
                assert(pow2(usize::BITS as nat) > usize::MAX);
            }
        }
        let col_log = floor_log2(col.len());
        let curr_log = floor_log2(curr.len());
        let log_ratio = col_log - curr_log;
        let shift: usize = log_ratio as usize + 1;
        let mut updated: Vec<MetalSecureFieldValueV1> = Vec::new();
        let mut i: usize = 0;
        while i < col.len()
            invariant
                i <= col@.len(),
                col@.len() == pow2(ca),
                curr@.len() == pow2(cb),
                1 <= cb <= ca < usize::BITS,
                col_log == ca,
                curr_log == cb,
                log_ratio == ca - cb,
                shift == log_ratio + 1,
                all_canonical(col@),
                all_canonical(curr@),
                all_canonical(updated@),
                updated@.len() == i,
                forall|j: int| 0 <= j < i ==> #[trigger] query_read_index(j as usize, log_ratio as usize) < curr@.len(),
                forall|j: int|
                    0 <= j < i ==> (#[trigger] updated@[j]).limbs@ == qm31_add(
                        col@[j].limbs@,
                        curr@[query_read_index(j as usize, log_ratio as usize) as int].limbs@,
                    ),
            decreases col@.len() - i,
        {
            proof {
                lemma_lift_index_in_range(i, ca, cb);
                vstd::bits::lemma_usize_pow2_no_overflow(cb);
                assert(shift == (ca - cb + 1) as usize);
            }
            let index = ((i >> shift) << 1usize) + (i & 1usize);
            assert(index == query_read_index(i, log_ratio as usize));
            let v = secure_add(col[i], curr[index]);
            updated.push(v);
            i = i + 1;
        }
        proof {
            assert(views[k as int] == limb_views(col@));
            assert(floor_log2_spec(col@.len()) - floor_log2_spec(curr@.len()) == log_ratio);
            assert forall|j: int| 0 <= j < updated@.len() implies #[trigger] limb_views(updated@)[j] == lift_step(
                views[k as int],
                limb_views(curr@),
            )[j] by {
                assert(query_read_index(j as usize, log_ratio as usize) < curr@.len());
            }
            assert(limb_views(updated@) =~= lift_step(views[k as int], limb_views(curr@)));
            assert(lifted(views, (k + 1) as nat) == lift_step(views[k as int], lifted(views, k as nat)));
            assert(pow2(ca) == updated@.len());
        }
        curr = updated;
        k = k + 1;
    }
    Some(curr)
}

} // verus!
