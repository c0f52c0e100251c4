use vstd::prelude::*;

use crate::sampled_values::MetalSecureFieldValueV1;

verus! {

/// The Mersenne-31 prime, `2^31 - 1`.
pub const M31_P: u32 = 2147483647u32;

// Base field M31: canonical representatives in `0..P`.

pub open spec fn m31_add(a: u32, b: u32) -> u32 {
    ((a + b) % (M31_P as int)) as u32
}

pub open spec fn m31_sub(a: u32, b: u32) -> u32 {
    ((a + M31_P - b) % (M31_P as int)) as u32
}

pub open spec fn m31_mul(a: u32, b: u32) -> u32 {
    ((a * b) % (M31_P as int)) as u32
}

pub open spec fn m31_neg(a: u32) -> u32 {
    ((M31_P - a) % (M31_P as int)) as u32
}

pub fn base_add(a: u32, b: u32) -> (r: u32)
    requires
        a < M31_P,
        b < M31_P,
    ensures
        r == m31_add(a, b),
        r < M31_P,
{
    let s = a + b;
    if s >= M31_P {
        s - M31_P
    } else {
        s
    }
}

pub fn base_sub(a: u32, b: u32) -> (r: u32)
    requires
        a < M31_P,
        b < M31_P,
    ensures
        r == m31_sub(a, b),
        r < M31_P,
{
    let s = a + (M31_P - b);
    if s >= M31_P {
        s - M31_P
    } else {
        s
    }
}

pub fn base_neg(a: u32) -> (r: u32)
    requires
        a < M31_P,
    ensures
        r == m31_neg(a),
        r < M31_P,
{
    if a == 0 {
        0
    } else {
        M31_P - a
    }
}

pub fn base_mul(a: u32, b: u32) -> (r: u32)
    requires
        a < M31_P,
        b < M31_P,
    ensures
        r == m31_mul(a, b),
        r < M31_P,
{
    assert((a as int) * (b as int) < 0x4000_0000_0000_0000) by (nonlinear_arith)
        requires
            a < 0x8000_0000,
            b < 0x8000_0000,
    ;
    let product: u64 = (a as u64) * (b as u64);
    (product % (M31_P as u64)) as u32
}

/// The inverse of a base field element: `a^(P-2) mod P`.
pub open spec fn m31_inverse(a: u32) -> u32 {
    (vstd::arithmetic::power::pow(a as int, (M31_P - 2) as nat) % (M31_P as int)) as u32
}

/// The inverse of a non-zero base field element.
///
/// Trusted: calls `stwo::core::fields::m31::M31::inverse`, which panics on
/// zero and otherwise raises `a` to the power `P - 2` by a fixed chain of
/// squarings and multiplications. The contract claims that the result is the
/// canonical `a^(P-2) mod P`, the element whose product with `a` is one.
#[verifier::external_body]
pub(crate) fn base_inverse(a: u32) -> (r: u32)
    requires
        0 < a < M31_P,
    ensures
        r == m31_inverse(a),
        r < M31_P,
        (a * r) % (M31_P as int) == 1,
{
    stwo::core::fields::m31::M31::from_u32_unchecked(a).inverse().0
}

// Complex extension CM31 = M31[i] / (i^2 + 1), as pairs.

pub open spec fn cm31_add(a: (u32, u32), b: (u32, u32)) -> (u32, u32) {
    (m31_add(a.0, b.0), m31_add(a.1, b.1))
}

/// `(a + bi)(c + di) = (ac - bd) + (ad + bc)i`.
pub open spec fn cm31_mul(a: (u32, u32), b: (u32, u32)) -> (u32, u32) {
    (m31_sub(m31_mul(a.0, b.0), m31_mul(a.1, b.1)), m31_add(m31_mul(a.0, b.1), m31_mul(a.1, b.0)))
}

fn cm31_mul_exec(a0: u32, a1: u32, b0: u32, b1: u32) -> (r: (u32, u32))
    requires
        a0 < M31_P,
        a1 < M31_P,
        b0 < M31_P,
        b1 < M31_P,
    ensures
        r == cm31_mul((a0, a1), (b0, b1)),
        r.0 < M31_P,
        r.1 < M31_P,
{
    (base_sub(base_mul(a0, b0), base_mul(a1, b1)), base_add(base_mul(a0, b1), base_mul(a1, b0)))
}

// Secure field QM31 = CM31[u] / (u^2 - (2 + i)), as four limbs
// `(a, b, c, d)` standing for `(a + bi) + (c + di)u`.

/// All four limbs are canonical.
pub open spec fn is_canonical(v: MetalSecureFieldValueV1) -> bool {
    forall|k: int| 0 <= k < 4 ==> #[trigger] v.limbs[k] < M31_P
}

pub open spec fn qm31(a: u32, b: u32, c: u32, d: u32) -> Seq<u32> {
    seq![a, b, c, d]
}

pub open spec fn qm31_zero() -> Seq<u32> {
    qm31(0, 0, 0, 0)
}

pub open spec fn qm31_add(x: Seq<u32>, y: Seq<u32>) -> Seq<u32> {
    qm31(m31_add(x[0], y[0]), m31_add(x[1], y[1]), m31_add(x[2], y[2]), m31_add(x[3], y[3]))
}

pub open spec fn qm31_sub(x: Seq<u32>, y: Seq<u32>) -> Seq<u32> {
    qm31(m31_sub(x[0], y[0]), m31_sub(x[1], y[1]), m31_sub(x[2], y[2]), m31_sub(x[3], y[3]))
}

pub open spec fn qm31_neg(x: Seq<u32>) -> Seq<u32> {
    qm31(m31_neg(x[0]), m31_neg(x[1]), m31_neg(x[2]), m31_neg(x[3]))
}

/// `(x0 + x1 u)(y0 + y1 u) = (x0 y0 + (R x1) y1) + (x0 y1 + x1 y0)u` with
/// `R = 2 + i`.
#[verifier::opaque]
pub open spec fn qm31_mul(x: Seq<u32>, y: Seq<u32>) -> Seq<u32> {
    let x0 = (x[0], x[1]);
    let x1 = (x[2], x[3]);
    let y0 = (y[0], y[1]);
    let y1 = (y[2], y[3]);
    let first = cm31_add(cm31_mul(x0, y0), cm31_mul(cm31_mul((2, 1), x1), y1));
    let second = cm31_add(cm31_mul(x0, y1), cm31_mul(x1, y0));
    qm31(first.0, first.1, second.0, second.1)
}

pub fn secure_zero() -> (r: MetalSecureFieldValueV1)
    ensures
        r.limbs@ == qm31_zero(),
        is_canonical(r),
{
    let r = MetalSecureFieldValueV1 { limbs: [0, 0, 0, 0] };
    assert(r.limbs@ =~= qm31_zero());
    r
}

pub fn secure_add(x: MetalSecureFieldValueV1, y: MetalSecureFieldValueV1) -> (r: MetalSecureFieldValueV1)
    requires
        is_canonical(x),
        is_canonical(y),
    ensures
        r.limbs@ == qm31_add(x.limbs@, y.limbs@),
        is_canonical(r),
{
    assert(x.limbs[0] < M31_P && x.limbs[1] < M31_P && x.limbs[2] < M31_P && x.limbs[3] < M31_P);
    assert(y.limbs[0] < M31_P && y.limbs[1] < M31_P && y.limbs[2] < M31_P && y.limbs[3] < M31_P);
    let r = MetalSecureFieldValueV1 {
        limbs: [
            base_add(x.limbs[0], y.limbs[0]),
            base_add(x.limbs[1], y.limbs[1]),
            base_add(x.limbs[2], y.limbs[2]),
            base_add(x.limbs[3], y.limbs[3]),
        ],
    };
    assert(r.limbs@ =~= qm31_add(x.limbs@, y.limbs@));
    r
}

pub fn secure_sub(x: MetalSecureFieldValueV1, y: MetalSecureFieldValueV1) -> (r: MetalSecureFieldValueV1)
    requires
        is_canonical(x),
        is_canonical(y),
    ensures
        r.limbs@ == qm31_sub(x.limbs@, y.limbs@),
        is_canonical(r),
{
    assert(x.limbs[0] < M31_P && x.limbs[1] < M31_P && x.limbs[2] < M31_P && x.limbs[3] < M31_P);
    assert(y.limbs[0] < M31_P && y.limbs[1] < M31_P && y.limbs[2] < M31_P && y.limbs[3] < M31_P);
    let r = MetalSecureFieldValueV1 {
        limbs: [
            base_sub(x.limbs[0], y.limbs[0]),
            base_sub(x.limbs[1], y.limbs[1]),
            base_sub(x.limbs[2], y.limbs[2]),
            base_sub(x.limbs[3], y.limbs[3]),
        ],
    };
    assert(r.limbs@ =~= qm31_sub(x.limbs@, y.limbs@));
    r
}

pub fn secure_neg(x: MetalSecureFieldValueV1) -> (r: MetalSecureFieldValueV1)
    requires
        is_canonical(x),
    ensures
        r.limbs@ == qm31_neg(x.limbs@),
        is_canonical(r),
{
    assert(x.limbs[0] < M31_P && x.limbs[1] < M31_P && x.limbs[2] < M31_P && x.limbs[3] < M31_P);
    let r = MetalSecureFieldValueV1 {
        limbs: [base_neg(x.limbs[0]), base_neg(x.limbs[1]), base_neg(x.limbs[2]), base_neg(x.limbs[3])],
    };
    assert(r.limbs@ =~= qm31_neg(x.limbs@));
    r
}

pub fn secure_mul(x: MetalSecureFieldValueV1, y: MetalSecureFieldValueV1) -> (r: MetalSecureFieldValueV1)
    requires
        is_canonical(x),
        is_canonical(y),
    ensures
        r.limbs@ == qm31_mul(x.limbs@, y.limbs@),
        is_canonical(r),
{
    assert(x.limbs[0] < M31_P && x.limbs[1] < M31_P && x.limbs[2] < M31_P && x.limbs[3] < M31_P);
    assert(y.limbs[0] < M31_P && y.limbs[1] < M31_P && y.limbs[2] < M31_P && y.limbs[3] < M31_P);
    let ac = cm31_mul_exec(x.limbs[0], x.limbs[1], y.limbs[0], y.limbs[1]);
    let rb = cm31_mul_exec(2, 1, x.limbs[2], x.limbs[3]);
    let rbd = cm31_mul_exec(rb.0, rb.1, y.limbs[2], y.limbs[3]);
    let ad = cm31_mul_exec(x.limbs[0], x.limbs[1], y.limbs[2], y.limbs[3]);
    let bc = cm31_mul_exec(x.limbs[2], x.limbs[3], y.limbs[0], y.limbs[1]);
    let r = MetalSecureFieldValueV1 {
        limbs: [base_add(ac.0, rbd.0), base_add(ac.1, rbd.1), base_add(ad.0, bc.0), base_add(ad.1, bc.1)],
    };
    proof {
        reveal(qm31_mul);
    }
    assert(r.limbs@ =~= qm31_mul(x.limbs@, y.limbs@));
    r
}

/// A point on the circle over the secure field.
#[derive(Copy, Clone, Debug, PartialEq, Eq)]
pub struct MetalSecureCirclePointV1 {
    pub x: MetalSecureFieldValueV1,
    pub y: MetalSecureFieldValueV1,
}

/// Point doubling on the circle `x^2 + y^2 = 1`: `(x^2 - y^2, xy + yx)`.
pub open spec fn circle_double(p: (Seq<u32>, Seq<u32>)) -> (Seq<u32>, Seq<u32>) {
    (qm31_sub(qm31_mul(p.0, p.0), qm31_mul(p.1, p.1)), qm31_add(qm31_mul(p.0, p.1), qm31_mul(p.1, p.0)))
}

/// The point doubled `n` times.
pub open spec fn circle_repeated_double(p: (Seq<u32>, Seq<u32>), n: nat) -> (Seq<u32>, Seq<u32>)
    decreases n,
{
    if n == 0 {
        p
    } else {
        circle_double(circle_repeated_double(p, (n - 1) as nat))
    }
}

/// Doubles `p` `n` times.
pub fn circle_point_repeated_double(p: MetalSecureCirclePointV1, n: u32) -> (r: MetalSecureCirclePointV1)
    requires
        is_canonical(p.x),
        is_canonical(p.y),
    ensures
        is_canonical(r.x),
        is_canonical(r.y),
        (r.x.limbs@, r.y.limbs@) == circle_repeated_double((p.x.limbs@, p.y.limbs@), n as nat),
{
    let mut cur = p;
    let mut i: u32 = 0;
    while i < n
        invariant
            i <= n,
            is_canonical(cur.x),
            is_canonical(cur.y),
            (cur.x.limbs@, cur.y.limbs@) == circle_repeated_double((p.x.limbs@, p.y.limbs@), i as nat),
        decreases n - i,
    {
        let x = secure_sub(secure_mul(cur.x, cur.x), secure_mul(cur.y, cur.y));
        let y = secure_add(secure_mul(cur.x, cur.y), secure_mul(cur.y, cur.x));
        cur = MetalSecureCirclePointV1 { x, y };
        i = i + 1;
    }
    cur
}

/// `evals[0] + evals[1] u1 + evals[2] u2 + evals[3] u3`, where `u1, u2, u3`
/// are the secure-field basis elements `(0,1,0,0)`, `(0,0,1,0)`, `(0,0,0,1)`.
#[verifier::opaque]
pub open spec fn qm31_from_partial_evals(e0: Seq<u32>, e1: Seq<u32>, e2: Seq<u32>, e3: Seq<u32>) -> Seq<u32> {
    qm31_add(
        qm31_add(qm31_add(e0, qm31_mul(e1, qm31(0, 1, 0, 0))), qm31_mul(e2, qm31(0, 0, 1, 0))),
        qm31_mul(e3, qm31(0, 0, 0, 1)),
    )
}

/// Combines the values of the four coordinate polynomials of a secure-field
/// polynomial into its value.
pub fn secure_from_partial_evals(
    e0: MetalSecureFieldValueV1,
    e1: MetalSecureFieldValueV1,
    e2: MetalSecureFieldValueV1,
    e3: MetalSecureFieldValueV1,
) -> (r: MetalSecureFieldValueV1)
    requires
        is_canonical(e0),
        is_canonical(e1),
        is_canonical(e2),
        is_canonical(e3),
    ensures
        is_canonical(r),
        r.limbs@ == qm31_from_partial_evals(e0.limbs@, e1.limbs@, e2.limbs@, e3.limbs@),
{
    let u1 = MetalSecureFieldValueV1 { limbs: [0, 1, 0, 0] };
    let u2 = MetalSecureFieldValueV1 { limbs: [0, 0, 1, 0] };
    let u3 = MetalSecureFieldValueV1 { limbs: [0, 0, 0, 1] };
    assert(u1.limbs@ =~= qm31(0, 1, 0, 0));
    assert(u2.limbs@ =~= qm31(0, 0, 1, 0));
    assert(u3.limbs@ =~= qm31(0, 0, 0, 1));
    let mut res = e0;
    res = secure_add(res, secure_mul(e1, u1));
    res = secure_add(res, secure_mul(e2, u2));
    res = secure_add(res, secure_mul(e3, u3));
    proof {
        reveal(qm31_from_partial_evals);
    }
    res
}

/// `2x^2 - 1`: the `x` coordinate of a circle point's double.
pub open spec fn qm31_double_x(x: Seq<u32>) -> Seq<u32> {
    let sq = qm31_mul(x, x);
    qm31_sub(qm31_add(sq, sq), qm31(1, 0, 0, 0))
}

/// `x` doubled `n` times.
pub open spec fn qm31_double_x_times(x: Seq<u32>, n: nat) -> Seq<u32>
    decreases n,
{
    if n == 0 {
        x
    } else {
        qm31_double_x(qm31_double_x_times(x, (n - 1) as nat))
    }
}

/// The folding coordinates of a point before reversal: its `y`, then its
/// `x` doubled zero, one, ... times.
pub open spec fn folding_mapping_at(p: MetalSecureCirclePointV1, j: int) -> Seq<u32> {
    if j == 0 {
        p.y.limbs@
    } else {
        qm31_double_x_times(p.x.limbs@, (j - 1) as nat)
    }
}

/// The coordinates a circle polynomial is folded by when evaluated at
/// `point`, outermost first: the `x` coordinates of the point doubled
/// `log_size - 2`, ..., one and zero times, then its `y` coordinate.
pub fn folding_mappings(point: MetalSecureCirclePointV1, log_size: u32) -> (r: Vec<MetalSecureFieldValueV1>)
    requires
        is_canonical(point.x),
        is_canonical(point.y),
    ensures
        r@.len() == (if log_size == 0 { 1 } else { log_size as int }),
        forall|k: int|
            0 <= k < r@.len() ==> (#[trigger] r@[k]).limbs@ == folding_mapping_at(point, r@.len() - 1 - k),
{
    let n: usize = if log_size == 0 { 1 } else { log_size as usize };
    let mut mappings: Vec<MetalSecureFieldValueV1> = Vec::new();
    mappings.push(point.y);
    let mut x = point.x;
    let one = MetalSecureFieldValueV1 { limbs: [1, 0, 0, 0] };
    assert(one.limbs@ =~= qm31(1, 0, 0, 0));
    let mut j: usize = 1;
    while j < n
        invariant
            1 <= j <= n,
            is_canonical(x),
            x.limbs@ == qm31_double_x_times(point.x.limbs@, (j - 1) as nat),
            one.limbs@ == qm31(1, 0, 0, 0),
            mappings@.len() == j,
            forall|i: int| 0 <= i < j ==> (#[trigger] mappings@[i]).limbs@ == folding_mapping_at(point, i),
        decreases n - j,
    {
        mappings.push(x);
        let sq = secure_mul(x, x);
        x = secure_sub(secure_add(sq, sq), one);
        j = j + 1;
    }
    let mut out: Vec<MetalSecureFieldValueV1> = Vec::new();
    let mut k: usize = 0;
    while k < n
        invariant
            k <= n,
            mappings@.len() == n,
            forall|i: int| 0 <= i < n ==> (#[trigger] mappings@[i]).limbs@ == folding_mapping_at(point, i),
            out@.len() == k,
            forall|i: int| 0 <= i < k ==> (#[trigger] out@[i]).limbs@ == folding_mapping_at(point, n - 1 - i),
        decreases n - k,
    {
        out.push(mappings[n - 1 - k]);
        k = k + 1;
    }
    out
}

} // verus!
