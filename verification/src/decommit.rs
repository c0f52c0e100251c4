use vstd::prelude::*;

use crate::sampled_values::MetalSecureFieldValueV1;

verus! {

// ---------------------------------------------------------------------------
// The Merkle decommitment plan.
// ---------------------------------------------------------------------------

/// The nodes one layer of a decommitment reads, and for each run of queried
/// siblings whether the sibling must be read and the parent it leads to.
#[derive(Clone, Debug)]
pub struct LayerGatherPlan {
    pub gather_indices: Vec<u32>,
    pub chunk_plan: Vec<(bool, usize)>,
}

/// `s` with runs of equal neighbours collapsed to one element.
pub open spec fn dedup_consecutive(s: Seq<usize>) -> Seq<usize>
    decreases s.len(),
{
    if s.len() == 0 {
        s
    } else {
        let d = dedup_consecutive(s.drop_last());
        if d.len() > 0 && d.last() == s.last() {
            d
        } else {
            d.push(s.last())
        }
    }
}

/// The length of the run of siblings starting at `i`: each next query is
/// the sibling (`x ^ 1`) of the one before.
pub open spec fn sibling_run_len(q: Seq<usize>, i: int) -> nat
    decreases q.len() - i,
{
    if 0 <= i && i + 1 < q.len() && q[i] ^ 1 == q[i + 1] {
        1 + sibling_run_len(q, i + 1)
    } else {
        1
    }
}

/// The nodes read for the run starting with `first`: the sibling when the
/// run is a single query, then both children of the parent.
pub open spec fn run_gather(first: usize, single: bool) -> Seq<u32> {
    let parent = first / 2;
    if single {
        seq![(first ^ 1) as u32, (2 * parent) as u32, (2 * parent + 1) as u32]
    } else {
        seq![(2 * parent) as u32, (2 * parent + 1) as u32]
    }
}

/// One layer of the plan from query `i` on: the nodes read, the runs, and
/// the queries of the next layer up.
pub open spec fn layer_from(q: Seq<usize>, i: int) -> (Seq<u32>, Seq<(bool, usize)>, Seq<usize>)
    decreases q.len() - i,
{
    if i < 0 || i >= q.len() {
        (Seq::empty(), Seq::empty(), Seq::empty())
    } else {
        let first = q[i];
        let l = sibling_run_len(q, i);
        proof {
            lemma_run_len_bounds(q, i);
        }
        let rest = layer_from(q, i + l);
        (run_gather(first, l == 1) + rest.0, seq![(l == 1, first / 2)] + rest.1, seq![first / 2] + rest.2)
    }
}

/// The plans of `k` layers, bottom up, starting from queries `q`.
pub open spec fn decommit_plans(q: Seq<usize>, k: nat) -> Seq<(Seq<u32>, Seq<(bool, usize)>)>
    decreases k,
{
    if k == 0 {
        Seq::empty()
    } else {
        let (g, p, next) = layer_from(q, 0);
        seq![(g, p)] + decommit_plans(next, (k - 1) as nat)
    }
}

pub(crate) fn dedup_queries(query_positions: &[usize]) -> (r: Vec<usize>)
    ensures
        r@ == dedup_consecutive(query_positions@),
{
    let mut out: Vec<usize> = Vec::new();
    let mut i: usize = 0;
    while i < query_positions.len()
        invariant
            i <= query_positions@.len(),
            out@ == dedup_consecutive(query_positions@.take(i as int)),
        decreases query_positions@.len() - i,
    {
        assert(query_positions@.take(i + 1).drop_last() =~= query_positions@.take(i as int));
        let q = query_positions[i];
        if out.len() == 0 || out[out.len() - 1] != q {
            out.push(q);
        }
        i = i + 1;
    }
    assert(query_positions@.take(query_positions@.len() as int) =~= query_positions@);
    out
}

pub proof fn lemma_run_len_bounds(q: Seq<usize>, i: int)
    requires
        0 <= i < q.len(),
    ensures
        1 <= sibling_run_len(q, i) <= q.len() - i,
    decreases q.len() - i,
{
    if i + 1 < q.len() && q[i] ^ 1 == q[i + 1] {
        lemma_run_len_bounds(q, i + 1);
    }
}

/// The length of the run of siblings starting at `i`.
fn run_length(q: &Vec<usize>, i: usize) -> (r: usize)
    requires
        i < q@.len(),
    ensures
        r == sibling_run_len(q@, i as int),
{
    proof {
        lemma_run_len_bounds(q@, i as int);
    }
    let len = q.len();
    let mut j = i;
    while j + 1 < len && q[j] ^ 1 == q[j + 1]
        invariant
            len == q@.len(),
            i <= j < q@.len(),
            sibling_run_len(q@, i as int) == (j - i) + sibling_run_len(q@, j as int),
        decreases q@.len() - j,
    {
        j = j + 1;
    }
    j - i + 1
}

/// One layer of the plan: the nodes it reads, its runs, and the queries of
/// the layer above.
fn plan_layer(q: &Vec<usize>) -> (r: (LayerGatherPlan, Vec<usize>))
    ensures
        ({
            let (g, p, next) = layer_from(q@, 0);
            &&& r.0.gather_indices@ == g
            &&& r.0.chunk_plan@ == p
            &&& r.1@ == next
        }),
{
    let mut gather: Vec<u32> = Vec::new();
    let mut chunks: Vec<(bool, usize)> = Vec::new();
    let mut next: Vec<usize> = Vec::new();
    let mut i: usize = 0;
    while i < q.len()
        invariant
            i <= q@.len(),
            ({
                let whole = layer_from(q@, 0);
                let rest = layer_from(q@, i as int);
                &&& whole.0 == gather@ + rest.0
                &&& whole.1 == chunks@ + rest.1
                &&& whole.2 == next@ + rest.2
            }),
        decreases q@.len() - i,
    {
        let l = run_length(q, i);
        proof {
            lemma_run_len_bounds(q@, i as int);
        }
        let first = q[i];
        let parent = first / 2;
        let ghost before = gather@;
        if l == 1 {
            gather.push((first ^ 1) as u32);
        }
        gather.push((2 * parent) as u32);
        gather.push((2 * parent + 1) as u32);
        chunks.push((l == 1, parent));
        next.push(parent);
        proof {
            assert(gather@ =~= before + run_gather(first, l == 1));
            let whole = layer_from(q@, 0);
            let rest = layer_from(q@, i as int);
            let after = layer_from(q@, i + l);
            assert(rest.0 == run_gather(first, l == 1) + after.0);
            assert(whole.0 =~= gather@ + after.0);
            assert(whole.1 =~= chunks@ + after.1);
            assert(whole.2 =~= next@ + after.2);
        }
        i = i + l;
    }
    (LayerGatherPlan { gather_indices: gather, chunk_plan: chunks }, next)
}

/// The whole traversal plan of a decommitment from `query_positions` over a
/// tree of `n_layers` layers, from the layer above the leaves up to the
/// root's children: repeated queries are dropped, then each layer reads the
/// children of every queried parent and the sibling of every lone query.
pub fn compute_decommit_plan(query_positions: &[usize], n_layers: usize) -> (r: Vec<LayerGatherPlan>)
    ensures
        ({
            let n = if n_layers == 0 { 0nat } else { (n_layers - 1) as nat };
            let plans = decommit_plans(dedup_consecutive(query_positions@), n);
            &&& r@.len() == n
            &&& forall|j: int|
                0 <= j < n ==> (#[trigger] r@[j]).gather_indices@ == plans[j].0 && r@[j].chunk_plan@ == plans[j].1
            &&& forall|j: int| 0 <= j < n ==> plan_consistent(#[trigger] r@[j])
        }),
{
    let mut queries = dedup_queries(query_positions);
    let n: usize = if n_layers == 0 { 0 } else { n_layers - 1 };
    let ghost all = decommit_plans(dedup_consecutive(query_positions@), n as nat);
    proof {
        lemma_decommit_plans_len(dedup_consecutive(query_positions@), n as nat);
    }
    let mut plans: Vec<LayerGatherPlan> = Vec::new();
    let mut k: usize = 0;
    while k < n
        invariant
            k <= n,
            all == decommit_plans(dedup_consecutive(query_positions@), n as nat),
            decommit_plans(queries@, (n - k) as nat) =~= all.skip(k as int),
            all.len() == n,
            plans@.len() == k,
            forall|j: int|
                0 <= j < k ==> (#[trigger] plans@[j]).gather_indices@ == all[j].0 && plans@[j].chunk_plan@ == all[j].1,
        decreases n - k,
    {
        let (plan, next) = plan_layer(&queries);
        proof {
            let rest = decommit_plans(queries@, (n - k) as nat);
            assert(rest[0] == (plan.gather_indices@, plan.chunk_plan@));
            assert(rest.skip(1) =~= decommit_plans(next@, (n - k - 1) as nat));
            assert(all.skip(k as int)[0] == all[k as int]);
            assert(all.skip(k + 1) =~= all.skip(k as int).skip(1));
        }
        plans.push(plan);
        queries = next;
        k = k + 1;
    }
    proof {
        lemma_decommit_plans_consistent(dedup_consecutive(query_positions@), n as nat);
        assert forall|j: int| 0 <= j < n implies plan_consistent(#[trigger] plans@[j]) by {
            assert(plans@[j].gather_indices@ == all[j].0);
        }
    }
    plans
}

pub(crate) proof fn lemma_decommit_plans_len(q: Seq<usize>, k: nat)
    ensures
        decommit_plans(q, k).len() == k,
    decreases k,
{
    if k > 0 {
        lemma_decommit_plans_len(layer_from(q, 0).2, (k - 1) as nat);
    }
}

// ---------------------------------------------------------------------------
// Hash words.
// ---------------------------------------------------------------------------

/// Byte `j` of `w` in little-endian order.
pub open spec fn le_byte(w: u32, j: int) -> u8 {
    ((w >> ((8 * j) as u32)) & 0xff) as u8
}

/// The 32 bytes of the hash held by the eight words from `start` on, each
/// word little-endian.
pub open spec fn hash_bytes(words: Seq<u32>, start: int) -> Seq<u8> {
    Seq::new(32, |b: int| le_byte(words[start + b / 4], b % 4))
}

/// The 32 hash bytes held by eight words, each word little-endian.
pub fn decode_hash_words(words: &[u32]) -> (r: [u8; 32])
    requires
        words@.len() >= 8,
    ensures
        forall|i: int, j: int| 0 <= i < 8 && 0 <= j < 4 ==> #[trigger] r@[4 * i + j] == le_byte(words@[i], j),
        r@ == hash_bytes(words@, 0),
{
    let mut bytes = [0u8; 32];
    let mut i: usize = 0;
    while i < 8
        invariant
            i <= 8,
            words@.len() >= 8,
            bytes@.len() == 32,
            forall|a: int, j: int| 0 <= a < i && 0 <= j < 4 ==> #[trigger] bytes@[4 * a + j] == le_byte(words@[a], j),
        decreases 8 - i,
    {
        let w = words[i];
        bytes[4 * i] = (w & 0xff) as u8;
        bytes[4 * i + 1] = ((w >> 8u32) & 0xff) as u8;
        bytes[4 * i + 2] = ((w >> 16u32) & 0xff) as u8;
        bytes[4 * i + 3] = ((w >> 24u32) & 0xff) as u8;
        proof {
            assert(le_byte(w, 0) == (w & 0xff) as u8) by {
                assert(w >> 0u32 == w) by (bit_vector);
            }
            assert(le_byte(w, 1) == ((w >> 8u32) & 0xff) as u8);
            assert(le_byte(w, 2) == ((w >> 16u32) & 0xff) as u8);
            assert(le_byte(w, 3) == ((w >> 24u32) & 0xff) as u8);
        }
        i = i + 1;
    }
    assert forall|b: int| 0 <= b < 32 implies #[trigger] bytes@[b] == hash_bytes(words@, 0)[b] by {
        assert(b == 4 * (b / 4) + b % 4);
        assert(bytes@[4 * (b / 4) + b % 4] == le_byte(words@[b / 4], b % 4));
    }
    assert(bytes@ =~= hash_bytes(words@, 0));
    bytes
}

// ---------------------------------------------------------------------------
// The first FRI layer's decommitment.
// ---------------------------------------------------------------------------

/// The length of the run of queries from `i` on that share a pair
/// (`x / 2`).
pub open spec fn pair_run_len(q: Seq<usize>, i: int) -> nat
    decreases q.len() - i,
{
    if 0 <= i && i + 1 < q.len() && q[i] / 2 == q[i + 1] / 2 {
        1 + pair_run_len(q, i + 1)
    } else {
        1
    }
}

/// The decommitment of the first layer from query `i` on: both positions
/// of every queried pair, and the values of the positions not queried.
pub open spec fn first_layer_from(values: Seq<MetalSecureFieldValueV1>, q: Seq<usize>, i: int) -> (
    Seq<usize>,
    Seq<MetalSecureFieldValueV1>,
)
    decreases q.len() - i,
{
    if i < 0 || i >= q.len() {
        (Seq::empty(), Seq::empty())
    } else {
        let l = pair_run_len(q, i);
        proof {
            lemma_pair_run_len_bounds(q, i);
        }
        let start = (q[i] / 2 * 2) as usize;
        let left_queried = q[i] == start;
        let right_queried = if left_queried {
            l > 1 && q[i + 1] == start + 1
        } else {
            q[i] == start + 1
        };
        let left: Seq<MetalSecureFieldValueV1> = if left_queried {
            Seq::empty()
        } else {
            seq![values[start as int]]
        };
        let right: Seq<MetalSecureFieldValueV1> = if right_queried {
            Seq::empty()
        } else {
            seq![values[start + 1]]
        };
        let rest = first_layer_from(values, q, i + l);
        (seq![start, (start + 1) as usize] + rest.0, left + right + rest.1)
    }
}

pub proof fn lemma_pair_run_len_bounds(q: Seq<usize>, i: int)
    requires
        0 <= i < q.len(),
    ensures
        1 <= pair_run_len(q, i) <= q.len() - i,
    decreases q.len() - i,
{
    if i + 1 < q.len() && q[i] / 2 == q[i + 1] / 2 {
        lemma_pair_run_len_bounds(q, i + 1);
    }
}

/// The decommitment positions of the first FRI layer, the witness values of
/// the positions that were not queried, and every decommitted position with
/// its value. Queries are sorted, and both positions of every queried pair
/// lie in `values`.
pub fn compute_first_layer_positions_and_witness(
    values: &[MetalSecureFieldValueV1],
    query_positions: &[usize],
) -> (r: (Vec<usize>, Vec<MetalSecureFieldValueV1>, Vec<(usize, MetalSecureFieldValueV1)>))
    requires
        forall|a: int, b: int| 0 <= a <= b < query_positions@.len() ==> query_positions@[a] <= query_positions@[b],
        forall|a: int| 0 <= a < query_positions@.len() ==> #[trigger] query_positions@[a] / 2 * 2 + 1 < values@.len(),
    ensures
        ({
            let (positions, witness) = first_layer_from(values@, query_positions@, 0);
            &&& r.0@ == positions
            &&& r.1@ == witness
            &&& r.2@ == positions.map_values(|p: usize| (p, values@[p as int]))
        }),
{
    let q = query_positions;
    let mut positions: Vec<usize> = Vec::new();
    let mut witness: Vec<MetalSecureFieldValueV1> = Vec::new();
    let mut value_map: Vec<(usize, MetalSecureFieldValueV1)> = Vec::new();
    let mut i: usize = 0;
    while i < q.len()
        invariant
            i <= q@.len(),
            forall|a: int| 0 <= a < q@.len() ==> #[trigger] q@[a] / 2 * 2 + 1 < values@.len(),
            ({
                let whole = first_layer_from(values@, q@, 0);
                let rest = first_layer_from(values@, q@, i as int);
                &&& whole.0 == positions@ + rest.0
                &&& whole.1 == witness@ + rest.1
            }),
            value_map@ == positions@.map_values(|p: usize| (p, values@[p as int])),
        decreases q@.len() - i,
    {
        proof {
            lemma_pair_run_len_bounds(q@, i as int);
        }
        let len = q.len();
        let mut j = i;
        while j + 1 < len && q[j] / 2 == q[j + 1] / 2
            invariant
                len == q@.len(),
                i <= j < q@.len(),
                pair_run_len(q@, i as int) == (j - i) + pair_run_len(q@, j as int),
            decreases q@.len() - j,
        {
            j = j + 1;
        }
        let l = j - i + 1;
        let first = q[i];
        assert(first / 2 * 2 + 1 < values@.len());
        let start = first / 2 * 2;
        let left_queried = first == start;
        let right_queried = if left_queried {
            l > 1 && q[i + 1] == start + 1
        } else {
            first == start + 1
        };
        let ghost pw = witness@;
        let ghost pp = positions@;
        positions.push(start);
        value_map.push((start, values[start]));
        if !left_queried {
            witness.push(values[start]);
        }
        positions.push(start + 1);
        value_map.push((start + 1, values[start + 1]));
        if !right_queried {
            witness.push(values[start + 1]);
        }
        proof {
            let rest = first_layer_from(values@, q@, i as int);
            let after = first_layer_from(values@, q@, i + l);
            assert(positions@ =~= pp + seq![start, (start + 1) as usize]);
            assert(rest.0 == seq![start, (start + 1) as usize] + after.0);
            assert(positions@ + after.0 =~= pp + rest.0);
            let left: Seq<MetalSecureFieldValueV1> = if left_queried {
                Seq::empty()
            } else {
                seq![values@[start as int]]
            };
            let right: Seq<MetalSecureFieldValueV1> = if right_queried {
                Seq::empty()
            } else {
                seq![values@[start + 1]]
            };
            assert(witness@ =~= pw + left + right);
            assert(rest.1 == left + right + after.1);
            assert(witness@ + after.1 =~= pw + rest.1);
            assert(value_map@ =~= positions@.map_values(|p: usize| (p, values@[p as int])));
        }
        i = i + l;
    }
    (positions, witness, value_map)
}

// ---------------------------------------------------------------------------
// Reading and assembling a decommitment.
// ---------------------------------------------------------------------------

/// Where a column `shift` layers smaller than the tree reads query `pos`:
/// the query's pair, scaled down by `shift`, keeping which side of the pair
/// it is.
pub open spec fn query_read_index(pos: usize, shift: usize) -> usize {
    (((pos >> ((shift + 1) as usize)) << 1usize) + (pos & 1usize)) as usize
}

/// The positions a column `shift` layers smaller than the tree reads for
/// `query_positions`.
pub fn query_read_indices(query_positions: &[usize], shift: usize) -> (r: Vec<usize>)
    requires
        shift + 1 < usize::BITS,
    ensures
        r@ == query_positions@.map_values(|pos: usize| query_read_index(pos, shift)),
{
    let mut out: Vec<usize> = Vec::new();
    let mut i: usize = 0;
    while i < query_positions.len()
        invariant
            i <= query_positions@.len(),
            shift + 1 < usize::BITS,
            out@ == query_positions@.take(i as int).map_values(|pos: usize| query_read_index(pos, shift)),
        decreases query_positions@.len() - i,
    {
        let pos = query_positions[i];
        let k: usize = shift + 1;
        let high = (pos >> k) << 1usize;
        let low = pos & 1usize;
        assert(high + low <= pos) by (bit_vector)
            requires
                high == (pos >> k) << 1usize,
                low == pos & 1usize,
                1usize <= k,
                k < usize::BITS,
        ;
        out.push(high + low);
        proof {
            assert(out@ =~= query_positions@.take(i + 1).map_values(|pos: usize| query_read_index(pos, shift)));
        }
        i = i + 1;
    }
    proof {
        assert(query_positions@.take(query_positions@.len() as int) =~= query_positions@);
    }
    out
}

/// The gather indices of layer buffer `k` of `n` layers: plan `p` reads
/// layer `n - 1 - p`, so the leaves are read first; a layer no plan reads
/// gathers nothing.
pub open spec fn layer_gather(plans: Seq<LayerGatherPlan>, n: int, k: int) -> Seq<u32> {
    let p = n - 1 - k;
    if 0 <= p < plans.len() {
        plans[p].gather_indices@
    } else {
        Seq::empty()
    }
}

/// Copies `src`.
fn copy_words(src: &Vec<u32>) -> (r: Vec<u32>)
    ensures
        r@ == src@,
{
    let mut out: Vec<u32> = Vec::new();
    let mut i: usize = 0;
    while i < src.len()
        invariant
            i <= src@.len(),
            out@ == src@.take(i as int),
        decreases src@.len() - i,
    {
        out.push(src[i]);
        assert(out@ =~= src@.take(i + 1));
        i = i + 1;
    }
    assert(src@.take(src@.len() as int) =~= src@);
    out
}

/// The gather indices of every layer buffer of a tree of `n_layers`
/// layers, from the root down.
pub fn decommit_layer_indices(plans: &[LayerGatherPlan], n_layers: usize) -> (r: Vec<Vec<u32>>)
    requires
        plans@.len() <= n_layers,
    ensures
        r@.len() == n_layers,
        forall|k: int| 0 <= k < n_layers ==> (#[trigger] r@[k])@ == layer_gather(plans@, n_layers as int, k),
{
    let mut out: Vec<Vec<u32>> = Vec::new();
    let mut k: usize = 0;
    while k < n_layers
        invariant
            k <= n_layers,
            plans@.len() <= n_layers,
            out@.len() == k,
            forall|j: int| 0 <= j < k ==> (#[trigger] out@[j])@ == layer_gather(plans@, n_layers as int, j),
        decreases n_layers - k,
    {
        let p = n_layers - 1 - k;
        if p < plans.len() {
            out.push(copy_words(&plans[p].gather_indices));
        } else {
            out.push(Vec::new());
        }
        k = k + 1;
    }
    out
}

/// Eight words per gathered hash, over the layer buffers before `k`.
pub open spec fn words_before(layers: Seq<Seq<u32>>, k: int) -> nat
    decreases k,
{
    if k <= 0 || k > layers.len() {
        0
    } else {
        words_before(layers, k - 1) + 8 * layers[k - 1].len()
    }
}

pub(crate) proof fn lemma_words_before_monotone(layers: Seq<Seq<u32>>, i: int, j: int)
    requires
        0 <= i <= j <= layers.len(),
    ensures
        words_before(layers, i) <= words_before(layers, j),
    decreases j - i,
{
    if i < j {
        lemma_words_before_monotone(layers, i, j - 1);
    }
}

/// The views of a list of word vectors.
pub open spec fn vec_views(v: Seq<Vec<u32>>) -> Seq<Seq<u32>> {
    v.map_values(|x: Vec<u32>| x@)
}

/// Where each layer buffer's gathered hashes start in the gathered words.
pub fn layer_word_offsets(per_layer: &[Vec<u32>]) -> (r: Vec<usize>)
    requires
        words_before(vec_views(per_layer@), per_layer@.len() as int) <= usize::MAX,
    ensures
        r@.len() == per_layer@.len(),
        forall|k: int| 0 <= k < per_layer@.len() ==> #[trigger] r@[k] == words_before(vec_views(per_layer@), k),
{
    let ghost layers = vec_views(per_layer@);
    let mut out: Vec<usize> = Vec::new();
    let mut running: usize = 0;
    let mut k: usize = 0;
    while k < per_layer.len()
        invariant
            k <= per_layer@.len(),
            layers == vec_views(per_layer@),
            words_before(layers, per_layer@.len() as int) <= usize::MAX,
            running == words_before(layers, k as int),
            out@.len() == k,
            forall|j: int| 0 <= j < k ==> #[trigger] out@[j] == words_before(layers, j),
        decreases per_layer@.len() - k,
    {
        out.push(running);
        proof {
            lemma_words_before_monotone(layers, k + 1, per_layer@.len() as int);
            assert(layers[k as int] == per_layer@[k as int]@);
        }
        running = running + 8 * per_layer[k].len();
        k = k + 1;
    }
    out
}

/// The number of hashes a layer's runs read: the sibling of a lone query,
/// then both children.
pub open spec fn chunk_reads(chunks: Seq<(bool, usize)>) -> nat
    decreases chunks.len(),
{
    if chunks.len() == 0 {
        0
    } else {
        chunk_reads(chunks.drop_last()) + if chunks.last().0 {
            3nat
        } else {
            2nat
        }
    }
}

/// What one layer of a decommitment contributes, reading hashes from word
/// `base` on, from the `cursor`th one: the siblings of lone queries to the
/// witness, and both children of every run to the layer's node values.
pub open spec fn layer_assembly(chunks: Seq<(bool, usize)>, words: Seq<u32>, base: int, cursor: int) -> (
    Seq<Seq<u8>>,
    Seq<(usize, Seq<u8>)>,
)
    decreases chunks.len(),
{
    if chunks.len() == 0 {
        (Seq::empty(), Seq::empty())
    } else {
        let (needs_sibling, parent) = chunks.last();
        let prev = layer_assembly(chunks.drop_last(), words, base, cursor);
        let c = cursor + chunk_reads(chunks.drop_last());
        let c1 = if needs_sibling {
            c + 1
        } else {
            c
        };
        let w: Seq<Seq<u8>> = if needs_sibling {
            seq![hash_bytes(words, base + 8 * c)]
        } else {
            Seq::empty()
        };
        (
            prev.0 + w,
            prev.1 + seq![
                ((2 * parent) as usize, hash_bytes(words, base + 8 * c1)),
                ((2 * parent + 1) as usize, hash_bytes(words, base + 8 * (c1 + 1))),
            ],
        )
    }
}

/// The hash of the eight words from `start` on.
fn hash_at(words: &[u32], start: usize) -> (r: [u8; 32])
    requires
        start + 8 <= words@.len(),
    ensures
        r@ == hash_bytes(words@, start as int),
{
    let n = words.len();
    let mut eight: Vec<u32> = Vec::new();
    let mut i: usize = 0;
    while i < 8
        invariant
            i <= 8,
            n == words@.len(),
            start + 8 <= words@.len(),
            eight@ == words@.subrange(start as int, start + i),
        decreases 8 - i,
    {
        eight.push(words[start + i]);
        assert(eight@ =~= words@.subrange(start as int, start + i + 1));
        i = i + 1;
    }
    let r = decode_hash_words(eight.as_slice());
    assert(hash_bytes(eight@, 0) =~= hash_bytes(words@, start as int));
    r
}

/// The bytes of each hash.
pub open spec fn hash_views(hashes: Seq<[u8; 32]>) -> Seq<Seq<u8>> {
    hashes.map_values(|h: [u8; 32]| h@)
}

/// The node values with their bytes.
pub open spec fn node_views(nodes: Seq<(usize, [u8; 32])>) -> Seq<(usize, Seq<u8>)> {
    nodes.map_values(|n: (usize, [u8; 32])| (n.0, n.1@))
}

/// Every run's parent has both children in range.
pub open spec fn parents_fit(chunks: Seq<(bool, usize)>) -> bool {
    forall|i: int| 0 <= i < chunks.len() ==> 2 * (#[trigger] chunks[i]).1 + 1 <= usize::MAX
}

/// Assembles one layer of a decommitment from the gathered words: the
/// siblings of lone queries are appended to `witness`; the layer's node
/// values are returned in the order they were read.
fn assemble_layer(
    chunks: &[(bool, usize)],
    words: &[u32],
    base: usize,
    witness: &mut Vec<[u8; 32]>,
) -> (r: Vec<(usize, [u8; 32])>)
    requires
        base + 8 * chunk_reads(chunks@) <= words@.len(),
        parents_fit(chunks@),
    ensures
        ({
            let (w, nodes) = layer_assembly(chunks@, words@, base as int, 0);
            &&& hash_views(final(witness)@) == hash_views(old(witness)@) + w
            &&& node_views(r@) == nodes
        }),
{
    let ghost start = witness@;
    let n = words.len();
    let mut nodes: Vec<(usize, [u8; 32])> = Vec::new();
    let mut cursor: usize = 0;
    let mut i: usize = 0;
    while i < chunks.len()
        invariant
            i <= chunks@.len(),
            n == words@.len(),
            base + 8 * chunk_reads(chunks@) <= words@.len(),
            parents_fit(chunks@),
            cursor == chunk_reads(chunks@.take(i as int)),
            ({
                let (w, ns) = layer_assembly(chunks@.take(i as int), words@, base as int, 0);
                &&& hash_views(witness@) == hash_views(start) + w
                &&& node_views(nodes@) == ns
            }),
        decreases chunks@.len() - i,
    {
        proof {
            lemma_chunk_reads_prefix(chunks@, i + 1);
            assert(chunks@.take(i + 1).drop_last() =~= chunks@.take(i as int));
            assert(chunks@.take(i + 1).last() == chunks@[i as int]);
            assert(chunk_reads(chunks@.take(i + 1)) <= chunk_reads(chunks@));
        }
        let (needs_sibling, parent) = chunks[i];
        let ghost w0 = witness@;
        let ghost n0 = nodes@;
        if needs_sibling {
            let h = hash_at(words, base + 8 * cursor);
            witness.push(h);
            cursor = cursor + 1;
            proof {
                assert(hash_views(witness@) =~= hash_views(w0).push(h@));
            }
        }
        assert(2 * parent + 1 <= usize::MAX);
        let left = hash_at(words, base + 8 * cursor);
        nodes.push((2 * parent, left));
        cursor = cursor + 1;
        let right = hash_at(words, base + 8 * cursor);
        nodes.push((2 * parent + 1, right));
        cursor = cursor + 1;
        proof {
            assert(node_views(nodes@) =~= node_views(n0) + seq![
                ((2 * parent) as usize, left@),
                ((2 * parent + 1) as usize, right@),
            ]);
        }
        i = i + 1;
    }
    proof {
        assert(chunks@.take(chunks@.len() as int) =~= chunks@);
    }
    nodes
}

/// The reads of the first `k` runs are at most those of all of them.
proof fn lemma_chunk_reads_prefix(chunks: Seq<(bool, usize)>, k: int)
    requires
        0 <= k <= chunks.len(),
    ensures
        chunk_reads(chunks.take(k)) <= chunk_reads(chunks),
    decreases chunks.len() - k,
{
    if k < chunks.len() {
        lemma_chunk_reads_prefix(chunks, k + 1);
        assert(chunks.take(k + 1).drop_last() =~= chunks.take(k));
    } else {
        assert(chunks.take(k) =~= chunks);
    }
}


/// The gather indices of every layer buffer, from the root down.
pub open spec fn all_gathers(plans: Seq<LayerGatherPlan>, n: int) -> Seq<Seq<u32>> {
    Seq::new(n as nat, |k: int| layer_gather(plans, n, k))
}

/// A plan reads one hash per gathered index, and every parent's children
/// are in range.
pub open spec fn plan_consistent(plan: LayerGatherPlan) -> bool {
    &&& plan.gather_indices@.len() == chunk_reads(plan.chunk_plan@)
    &&& parents_fit(plan.chunk_plan@)
}

/// The decommitment that the first `m` plans assemble from the gathered
/// words: the hash witness, then the node values of each plan's layer.
pub open spec fn decommit_assembly(plans: Seq<LayerGatherPlan>, n: int, words: Seq<u32>, m: int) -> (
    Seq<Seq<u8>>,
    Seq<Seq<(usize, Seq<u8>)>>,
)
    decreases m,
{
    if m <= 0 || m > plans.len() {
        (Seq::empty(), Seq::empty())
    } else {
        let prev = decommit_assembly(plans, n, words, m - 1);
        let base = words_before(all_gathers(plans, n), n - m) as int;
        let (w, nodes) = layer_assembly(plans[m - 1].chunk_plan@, words, base, 0);
        (prev.0 + w, prev.1.push(nodes))
    }
}

/// Assembles a Merkle decommitment from the words gathered for every layer
/// buffer in turn (eight words per hash, the layers from the root down):
/// walking the plans from the leaves up, the sibling of each lone query
/// joins the hash witness and both children of each run join that layer's
/// node values.
pub fn assemble_decommitment(plans: &[LayerGatherPlan], n_layers: usize, gathered: &[u32]) -> (r: (
    Vec<[u8; 32]>,
    Vec<Vec<(usize, [u8; 32])>>,
))
    requires
        plans@.len() <= n_layers,
        forall|p: int| 0 <= p < plans@.len() ==> plan_consistent(#[trigger] plans@[p]),
        words_before(all_gathers(plans@, n_layers as int), n_layers as int) <= gathered@.len(),
    ensures
        ({
            let (w, nodes) = decommit_assembly(plans@, n_layers as int, gathered@, plans@.len() as int);
            &&& hash_views(r.0@) == w
            &&& r.1@.len() == plans@.len()
            &&& forall|p: int| 0 <= p < plans@.len() ==> node_views((#[trigger] r.1@[p])@) == nodes[p]
        }),
{
    let ghost n = n_layers as int;
    let ghost g = all_gathers(plans@, n);
    let per_layer = decommit_layer_indices(plans, n_layers);
    proof {
        assert(vec_views(per_layer@) =~= g);
    }
    let total = gathered.len();
    let offsets = layer_word_offsets(per_layer.as_slice());
    let mut witness: Vec<[u8; 32]> = Vec::new();
    let mut all_nodes: Vec<Vec<(usize, [u8; 32])>> = Vec::new();
    let mut p: usize = 0;
    while p < plans.len()
        invariant
            p <= plans@.len(),
            plans@.len() <= n_layers,
            n == n_layers,
            total == gathered@.len(),
            g == all_gathers(plans@, n),
            forall|q: int| 0 <= q < plans@.len() ==> plan_consistent(#[trigger] plans@[q]),
            words_before(g, n) <= gathered@.len(),
            offsets@.len() == n_layers,
            forall|k: int| 0 <= k < n_layers ==> #[trigger] offsets@[k] == words_before(g, k),
            ({
                let (w, nodes) = decommit_assembly(plans@, n, gathered@, p as int);
                &&& hash_views(witness@) == w
                &&& all_nodes@.len() == p
                &&& nodes.len() == p
                &&& forall|q: int| 0 <= q < p ==> node_views((#[trigger] all_nodes@[q])@) == nodes[q]
            }),
        decreases plans@.len() - p,
    {
        let buf = n_layers - 1 - p;
        let base = offsets[buf];
        proof {
            lemma_words_before_monotone(g, buf + 1, n);
            assert(g[buf as int] == plans@[p as int].gather_indices@);
            assert(plan_consistent(plans@[p as int]));
        }
        let ghost before = all_nodes@;
        let layer = assemble_layer(plans[p].chunk_plan.as_slice(), gathered, base, &mut witness);
        all_nodes.push(layer);
        proof {
            let prev = decommit_assembly(plans@, n, gathered@, p as int);
            let next = decommit_assembly(plans@, n, gathered@, p + 1);
            let step = layer_assembly(plans@[p as int].chunk_plan@, gathered@, base as int, 0);
            assert(next.1 == prev.1.push(step.1));
            assert forall|q: int| 0 <= q < p + 1 implies node_views((#[trigger] all_nodes@[q])@) == next.1[q] by {
                if q < p {
                    assert(all_nodes@[q] == before[q]);
                }
            }
        }
        p = p + 1;
    }
    (witness, all_nodes)
}

/// A run in front adds its own reads.
pub(crate) proof fn lemma_chunk_reads_cons(x: (bool, usize), rest: Seq<(bool, usize)>)
    ensures
        chunk_reads(seq![x] + rest) == chunk_reads(rest) + if x.0 {
            3nat
        } else {
            2nat
        },
    decreases rest.len(),
{
    if rest.len() > 0 {
        lemma_chunk_reads_cons(x, rest.drop_last());
        assert((seq![x] + rest).drop_last() =~= seq![x] + rest.drop_last());
        assert((seq![x] + rest).last() == rest.last());
    } else {
        assert((seq![x] + rest).drop_last() =~= Seq::<(bool, usize)>::empty());
        assert((seq![x] + rest).last() == x);
        assert(chunk_reads(Seq::<(bool, usize)>::empty()) == 0);
    }
}

/// Every layer planned from query `i` on reads one hash per gathered
/// index, and its parents' children are in range.
pub(crate) proof fn lemma_layer_from_consistent(q: Seq<usize>, i: int)
    ensures
        layer_from(q, i).0.len() == chunk_reads(layer_from(q, i).1),
        parents_fit(layer_from(q, i).1),
    decreases q.len() - i,
{
    if 0 <= i < q.len() {
        lemma_run_len_bounds(q, i);
        let l = sibling_run_len(q, i);
        let first = q[i];
        lemma_layer_from_consistent(q, i + l);
        let rest = layer_from(q, i + l);
        lemma_chunk_reads_cons((l == 1, first / 2), rest.1);
        let chunks = layer_from(q, i).1;
        assert(chunks == seq![(l == 1, first / 2)] + rest.1);
        assert forall|j: int| 0 <= j < chunks.len() implies 2 * (#[trigger] chunks[j]).1 + 1 <= usize::MAX by {
            if j > 0 {
                assert(chunks[j] == rest.1[j - 1]);
            }
        }
    }
}

/// Every plan of `k` layers is consistent.
proof fn lemma_decommit_plans_consistent(q: Seq<usize>, k: nat)
    ensures
        forall|j: int|
            0 <= j < k ==> {
                let plan = #[trigger] decommit_plans(q, k)[j];
                &&& plan.0.len() == chunk_reads(plan.1)
                &&& parents_fit(plan.1)
            },
    decreases k,
{
    if k > 0 {
        let next = layer_from(q, 0).2;
        lemma_layer_from_consistent(q, 0);
        lemma_decommit_plans_consistent(next, (k - 1) as nat);
        lemma_decommit_plans_len(next, (k - 1) as nat);
        assert forall|j: int| 0 < j < k implies decommit_plans(q, k)[j] == decommit_plans(next, (k - 1) as nat)[j - 1] by {}
    }
}

} // verus!
