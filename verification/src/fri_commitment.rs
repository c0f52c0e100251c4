use vstd::prelude::*;
use vstd::arithmetic::power2::{lemma_pow2_pos, lemma_pow2_unfold, pow2};

use crate::decommit::{
    all_gathers, chunk_reads, decommit_assembly, decommit_plans, hash_bytes, layer_assembly, lemma_chunk_reads_cons,
    lemma_decommit_plans_len, run_gather, words_before, LayerGatherPlan,
    compute_first_layer_positions_and_witness, dedup_consecutive, dedup_queries, first_layer_from, hash_views,
    layer_from, lemma_pair_run_len_bounds, lemma_run_len_bounds, node_views, pair_run_len, sibling_run_len,
};
use crate::sampled_values::MetalSecureFieldValueV1;

verus! {

// ---------------------------------------------------------------------------
// Blake2s Merkle hashing.
// ---------------------------------------------------------------------------

/// The Blake2s Merkle hash of an inner node from its children's hashes.
pub uninterp spec fn merkle_node_hash(left: Seq<u8>, right: Seq<u8>) -> Seq<u8>;

/// The Blake2s Merkle hash of a leaf holding four base-field coordinates.
pub uninterp spec fn merkle_leaf_hash(coords: Seq<u32>) -> Seq<u8>;

/// Trusted: calls `MerkleHasherLifted::hash_children` of stwo's
/// `Blake2sMerkleHasher`, which hashes the two children's bytes one after
/// the other. Claimed: the result is `merkle_node_hash` of the two
/// children, a function of their bytes alone.
#[verifier::external_body]
fn hash_children(left: [u8; 32], right: [u8; 32]) -> (r: [u8; 32])
    ensures
        r@ == merkle_node_hash(left@, right@),
{
    let children = (stwo::core::vcs::blake2_hash::Blake2sHash(left), stwo::core::vcs::blake2_hash::Blake2sHash(right));
    <stwo::core::vcs_lifted::blake2_merkle::Blake2sMerkleHasher as stwo::core::vcs_lifted::merkle_hasher::MerkleHasherLifted>::hash_children(
        children,
    ).0
}

/// Trusted: hashes one leaf with stwo's `Blake2sMerkleHasher`, as a leaf of
/// the commitment is hashed: a fresh hasher (`Default`), `update_leaf` with
/// the four coordinates as base-field elements, then `finalize`. Claimed:
/// the result is `merkle_leaf_hash` of the coordinates, a function of them
/// alone.
#[verifier::external_body]
fn hash_leaf(coords: [u32; 4]) -> (r: [u8; 32])
    ensures
        r@ == merkle_leaf_hash(coords@),
{
    let column_values = [
        stwo::core::fields::m31::M31::from_u32_unchecked(coords[0]),
        stwo::core::fields::m31::M31::from_u32_unchecked(coords[1]),
        stwo::core::fields::m31::M31::from_u32_unchecked(coords[2]),
        stwo::core::fields::m31::M31::from_u32_unchecked(coords[3]),
    ];
    let mut hasher = stwo::core::vcs_lifted::blake2_merkle::Blake2sMerkleHasher::default();
    stwo::core::vcs_lifted::merkle_hasher::MerkleHasherLifted::update_leaf(&mut hasher, &column_values);
    stwo::core::vcs_lifted::merkle_hasher::MerkleHasherLifted::finalize(hasher).0
}

// ---------------------------------------------------------------------------
// Merkle trees.
// ---------------------------------------------------------------------------

/// The leaf hashes of secure-field values, one leaf per value.
pub open spec fn leaf_hashes(values: Seq<MetalSecureFieldValueV1>) -> Seq<Seq<u8>> {
    values.map_values(|v: MetalSecureFieldValueV1| merkle_leaf_hash(v.limbs@))
}

/// The layer above `layer`: node `i` hashes nodes `2i` and `2i + 1`.
pub open spec fn parent_layer(layer: Seq<Seq<u8>>) -> Seq<Seq<u8>> {
    Seq::new(layer.len() / 2, |i: int| merkle_node_hash(layer[2 * i], layer[2 * i + 1]))
}

/// The layer `j` levels above the leaves.
pub open spec fn layer_above(leaves: Seq<Seq<u8>>, j: nat) -> Seq<Seq<u8>>
    decreases j,
{
    if j == 0 {
        leaves
    } else {
        parent_layer(layer_above(leaves, (j - 1) as nat))
    }
}

/// The Merkle tree over `2^depth` leaves, as its layers from the root down
/// to the leaves.
pub open spec fn merkle_tree(leaves: Seq<Seq<u8>>, depth: nat) -> Seq<Seq<Seq<u8>>> {
    Seq::new(depth + 1, |k: int| layer_above(leaves, (depth - k) as nat))
}

/// The layer `j` levels above `2^depth` leaves has `2^(depth - j)` nodes.
proof fn lemma_layer_above_len(leaves: Seq<Seq<u8>>, depth: nat, j: nat)
    requires
        leaves.len() == pow2(depth),
        j <= depth,
    ensures
        layer_above(leaves, j).len() == pow2((depth - j) as nat),
    decreases j,
{
    if j > 0 {
        lemma_layer_above_len(leaves, depth, (j - 1) as nat);
        lemma_pow2_unfold((depth - j + 1) as nat);
    }
}

/// The leaf hashes of `values`.
fn build_merkle_leaves(values: &[MetalSecureFieldValueV1]) -> (r: Vec<[u8; 32]>)
    ensures
        r@.len() == values@.len(),
        hash_views(r@) == leaf_hashes(values@),
{
    let mut out: Vec<[u8; 32]> = Vec::new();
    let mut i: usize = 0;
    while i < values.len()
        invariant
            i <= values@.len(),
            out@.len() == i,
            hash_views(out@) == leaf_hashes(values@.take(i as int)),
        decreases values@.len() - i,
    {
        let h = hash_leaf(values[i].limbs);
        let ghost before = out@;
        out.push(h);
        proof {
            assert(hash_views(out@) =~= hash_views(before).push(h@));
            assert(leaf_hashes(values@.take(i + 1)) =~= leaf_hashes(values@.take(i as int)).push(
                merkle_leaf_hash(values@[i as int].limbs@),
            ));
        }
        i = i + 1;
    }
    proof {
        assert(values@.take(values@.len() as int) =~= values@);
    }
    out
}

/// The layer above `layer`.
pub(crate) fn hash_pairs(layer: &Vec<[u8; 32]>) -> (r: Vec<[u8; 32]>)
    ensures
        hash_views(r@) == parent_layer(hash_views(layer@)),
{
    let ghost views = hash_views(layer@);
    let len = layer.len();
    let half = len / 2;
    let mut out: Vec<[u8; 32]> = Vec::new();
    let mut i: usize = 0;
    while i < half
        invariant
            i <= half,
            len == layer@.len(),
            half == layer@.len() / 2,
            views == hash_views(layer@),
            hash_views(out@) == parent_layer(views).take(i as int),
        decreases half - i,
    {
        let h = hash_children(layer[2 * i], layer[2 * i + 1]);
        let ghost before = out@;
        out.push(h);
        proof {
            assert(hash_views(out@) =~= hash_views(before).push(h@));
            assert(parent_layer(views).take(i + 1) =~= parent_layer(views).take(i as int).push(
                merkle_node_hash(views[2 * i], views[2 * i + 1]),
            ));
        }
        i = i + 1;
    }
    proof {
        assert(parent_layer(views).take(half as int) =~= parent_layer(views));
    }
    out
}

/// The layers of the Merkle tree over `2^log_size` leaves, from the root
/// down: each layer hashes pairs of the one below until one node is left.
pub(crate) fn merkle_layers_from_leaves(leaves: Vec<[u8; 32]>, log_size: u32) -> (r: Vec<Vec<[u8; 32]>>)
    requires
        leaves@.len() == pow2(log_size as nat),
    ensures
        r@.len() == log_size + 1,
        forall|k: int|
            0 <= k <= log_size ==> hash_views((#[trigger] r@[k])@) == merkle_tree(
                hash_views(leaves@),
                log_size as nat,
            )[k],
{
    let ghost base = hash_views(leaves@);
    let ghost depth = log_size as nat;
    let mut below: Vec<Vec<[u8; 32]>> = Vec::new();
    let mut layer = leaves;
    let mut j: u32 = 0;
    proof {
        lemma_layer_above_len(base, depth, 0);
    }
    while layer.len() > 1
        invariant
            j <= log_size,
            base.len() == pow2(depth),
            depth == log_size,
            hash_views(layer@) == layer_above(base, j as nat),
            layer@.len() == pow2((depth - j) as nat),
            below@.len() == j,
            forall|i: int| 0 <= i < j ==> hash_views((#[trigger] below@[i])@) == layer_above(base, i as nat),
        decreases layer@.len(),
    {
        proof {
            if j == log_size {
                assert(pow2(0) == 1) by {
                    vstd::arithmetic::power2::lemma2_to64();
                }
            }
            lemma_layer_above_len(base, depth, (j + 1) as nat);
            lemma_pow2_unfold((depth - j) as nat);
        }
        let next = hash_pairs(&layer);
        below.push(layer);
        layer = next;
        j = j + 1;
    }
    proof {
        if j < log_size {
            lemma_pow2_unfold((depth - j) as nat);
            lemma_pow2_pos((depth - j - 1) as nat);
        }
    }
    below.push(layer);
    let ghost bottom_up = below@;
    let mut out: Vec<Vec<[u8; 32]>> = Vec::new();
    while below.len() > 0
        invariant
            j == log_size,
            depth == log_size,
            below@ == bottom_up.take(below@.len() as int),
            bottom_up.len() == j + 1,
            out@.len() + below@.len() == j + 1,
            forall|i: int| 0 <= i <= j ==> hash_views((#[trigger] bottom_up[i])@) == layer_above(base, i as nat),
            forall|k: int|
                0 <= k < out@.len() ==> hash_views((#[trigger] out@[k])@) == layer_above(base, (depth - k) as nat),
        decreases below@.len(),
    {
        let top = below.pop().unwrap();
        proof {
            assert(top == bottom_up[below@.len() as int]);
            assert(below@ =~= bottom_up.take(below@.len() as int));
        }
        out.push(top);
    }
    out
}

// ---------------------------------------------------------------------------
// Line evaluations.
// ---------------------------------------------------------------------------

/// The secure-field values of a FRI layer on a line domain of `2^log_size`
/// points.
#[derive(Debug)]
pub struct MetalLineEvaluation {
    values: Vec<MetalSecureFieldValueV1>,
    log_size: u32,
}

impl MetalLineEvaluation {
    /// One value per point of the domain.
    #[verifier::type_invariant]
    spec fn one_value_per_point(self) -> bool {
        &&& self.log_size < usize::BITS
        &&& self.values@.len() == pow2(self.log_size as nat)
    }

    pub closed spec fn spec_values(&self) -> Seq<MetalSecureFieldValueV1> {
        self.values@
    }

    pub closed spec fn spec_log_size(&self) -> u32 {
        self.log_size
    }

    /// The evaluation with the given values on a line domain of
    /// `2^log_size` points, one value per point.
    pub fn new(log_size: u32, values: Vec<MetalSecureFieldValueV1>) -> (r: Self)
        requires
            values@.len() == pow2(log_size as nat),
        ensures
            r.spec_values() == values@,
            r.spec_log_size() == log_size,
    {
        let n = values.len();
        proof {
            if log_size >= usize::BITS {
                if log_size > usize::BITS {
                    vstd::arithmetic::power2::lemma_pow2_strictly_increases(usize::BITS as nat, log_size as nat);
                }
                vstd::arithmetic::power2::lemma2_to64();
            }
        }
        MetalLineEvaluation { values, log_size }
    }

    /// The log-size of the line domain.
    pub fn domain(&self) -> (r: u32)
        ensures
            r == self.spec_log_size(),
    {
        self.log_size
    }

    pub fn len(&self) -> (r: usize)
        ensures
            r == self.spec_values().len(),
            r == pow2(self.spec_log_size() as nat),
    {
        proof {
            use_type_invariant(self);
        }
        self.values.len()
    }

    pub fn values(&self) -> (r: &[MetalSecureFieldValueV1])
        ensures
            r@ == self.spec_values(),
    {
        self.values.as_slice()
    }

    /// The Merkle commitment to the values, which are at least two.
    pub fn commitment(&self) -> (r: MetalLineCommitment)
        requires
            1 <= self.spec_log_size(),
        ensures
            r.spec_layers() == merkle_tree(leaf_hashes(self.spec_values()), self.spec_log_size() as nat),
    {
        MetalLineCommitment::from_line_evaluation(self)
    }
}

/// One inner FRI layer: a line evaluation, its commitment, and how many
/// times it is folded into the next layer.
#[derive(Debug)]
pub struct MetalFriInnerLayerRow {
    evaluation: MetalLineEvaluation,
    commitment: MetalLineCommitment,
    fold_step: u32,
}

impl MetalFriInnerLayerRow {
    pub closed spec fn spec_evaluation(&self) -> MetalLineEvaluation {
        self.evaluation
    }

    pub closed spec fn spec_commitment(&self) -> MetalLineCommitment {
        self.commitment
    }

    pub closed spec fn spec_fold_step(&self) -> u32 {
        self.fold_step
    }

    /// Commits to a line evaluation that is folded `fold_step` times, at
    /// least once and at most the domain's log-size.
    pub fn new(evaluation: MetalLineEvaluation, fold_step: u32) -> (r: Self)
        requires
            1 <= fold_step <= evaluation.spec_log_size(),
        ensures
            r.spec_evaluation() == evaluation,
            r.spec_fold_step() == fold_step,
            r.spec_commitment().spec_layers() == merkle_tree(
                leaf_hashes(evaluation.spec_values()),
                evaluation.spec_log_size() as nat,
            ),
    {
        let commitment = evaluation.commitment();
        MetalFriInnerLayerRow { evaluation, commitment, fold_step }
    }

    /// The root of the layer's commitment.
    pub fn root(&self) -> (r: [u8; 32])
        ensures
            r@ == self.spec_commitment().spec_layers()[0][0],
    {
        self.commitment.root()
    }

    pub fn fold_step(&self) -> (r: u32)
        ensures
            r == self.spec_fold_step(),
    {
        self.fold_step
    }

    pub fn evaluation(&self) -> (r: &MetalLineEvaluation)
        ensures
            *r == self.spec_evaluation(),
    {
        &self.evaluation
    }

    pub fn commitment(&self) -> (r: &MetalLineCommitment)
        ensures
            *r == self.spec_commitment(),
    {
        &self.commitment
    }
}

// ---------------------------------------------------------------------------
// The folding schedule of the inner layers.
// ---------------------------------------------------------------------------

/// The fold steps of the inner FRI layers from a line domain of
/// `2^log_size` points down to the last layer's `2^last_log_size`: full
/// steps of `line_fold_step` while more than one step remains, then one
/// step for the rest; no layer at all when the first line layer is already
/// the last one.
pub open spec fn fold_schedule(log_size: nat, last_log_size: nat, line_fold_step: nat) -> Seq<nat>
    decreases log_size,
{
    if log_size <= last_log_size || line_fold_step == 0 {
        Seq::empty()
    } else if log_size > last_log_size + line_fold_step {
        seq![line_fold_step] + fold_schedule((log_size - line_fold_step) as nat, last_log_size, line_fold_step)
    } else {
        seq![(log_size - last_log_size) as nat]
    }
}

/// The sum of the steps.
pub open spec fn steps_sum(steps: Seq<nat>) -> nat
    decreases steps.len(),
{
    if steps.len() == 0 {
        0
    } else {
        steps[0] + steps_sum(steps.skip(1))
    }
}

/// Folding by the schedule ends exactly at the last layer's size, each
/// step folds at least once and at most `line_fold_step` times, and every
/// step but the last is a full one.
pub proof fn lemma_fold_schedule_reaches_last_layer(log_size: nat, last_log_size: nat, line_fold_step: nat)
    requires
        last_log_size <= log_size,
        line_fold_step >= 1,
    ensures
        steps_sum(fold_schedule(log_size, last_log_size, line_fold_step)) == log_size - last_log_size,
        forall|k: int|
            0 <= k < fold_schedule(log_size, last_log_size, line_fold_step).len() ==> 1 <= #[trigger] fold_schedule(
                log_size,
                last_log_size,
                line_fold_step,
            )[k] <= line_fold_step,
        forall|k: int|
            0 <= k < fold_schedule(log_size, last_log_size, line_fold_step).len() - 1 ==> #[trigger] fold_schedule(
                log_size,
                last_log_size,
                line_fold_step,
            )[k] == line_fold_step,
    decreases log_size,
{
    let s = fold_schedule(log_size, last_log_size, line_fold_step);
    if log_size > last_log_size + line_fold_step {
        let rest = fold_schedule((log_size - line_fold_step) as nat, last_log_size, line_fold_step);
        lemma_fold_schedule_reaches_last_layer((log_size - line_fold_step) as nat, last_log_size, line_fold_step);
        assert(s.skip(1) =~= rest);
        assert forall|k: int| 1 <= k < s.len() implies s[k] == rest[k - 1] by {}
    } else if log_size > last_log_size {
        assert(s.skip(1) =~= Seq::<nat>::empty());
        assert(steps_sum(Seq::<nat>::empty()) == 0);
    }
}

/// The fold step of each inner FRI layer, from a first line layer on a
/// domain of `2^log_size` points down to a last layer on `2^last_log_size`.
pub fn inner_layer_fold_steps(log_size: u32, last_log_size: u32, line_fold_step: u32) -> (r: Vec<u32>)
    requires
        last_log_size <= log_size,
        line_fold_step >= 1,
    ensures
        r@.len() == fold_schedule(log_size as nat, last_log_size as nat, line_fold_step as nat).len(),
        forall|k: int|
            0 <= k < r@.len() ==> #[trigger] r@[k] as nat == fold_schedule(
                log_size as nat,
                last_log_size as nat,
                line_fold_step as nat,
            )[k],
{
    let mut steps: Vec<u32> = Vec::new();
    if log_size == last_log_size {
        return steps;
    }
    let ghost whole = fold_schedule(log_size as nat, last_log_size as nat, line_fold_step as nat);
    let mut current = log_size;
    while current as u64 > last_log_size as u64 + line_fold_step as u64
        invariant
            last_log_size < current <= log_size,
            line_fold_step >= 1,
            whole == fold_schedule(log_size as nat, last_log_size as nat, line_fold_step as nat),
            whole == steps@.map_values(|x: u32| x as nat) + fold_schedule(
                current as nat,
                last_log_size as nat,
                line_fold_step as nat,
            ),
        decreases current,
    {
        let ghost before = steps@;
        steps.push(line_fold_step);
        proof {
            assert(steps@.map_values(|x: u32| x as nat) =~= before.map_values(|x: u32| x as nat).push(
                line_fold_step as nat,
            ));
            assert(whole =~= steps@.map_values(|x: u32| x as nat) + fold_schedule(
                (current - line_fold_step) as nat,
                last_log_size as nat,
                line_fold_step as nat,
            ));
        }
        current = current - line_fold_step;
    }
    let ghost before = steps@;
    steps.push(current - last_log_size);
    proof {
        assert(steps@.map_values(|x: u32| x as nat) =~= before.map_values(|x: u32| x as nat).push(
            (current - last_log_size) as nat,
        ));
        assert(whole =~= steps@.map_values(|x: u32| x as nat));
        assert forall|k: int| 0 <= k < steps@.len() implies #[trigger] steps@[k] as nat == whole[k] by {
            assert(steps@.map_values(|x: u32| x as nat)[k] == steps@[k] as nat);
        }
    }
    steps
}

// ---------------------------------------------------------------------------
// The commitment to a line evaluation.
// ---------------------------------------------------------------------------

/// A Merkle commitment to the values of a FRI line evaluation: the tree's
/// layers from the root down to the leaves.
#[derive(Debug)]
pub struct MetalLineCommitment {
    layers: Vec<Vec<[u8; 32]>>,
}

impl MetalLineCommitment {
    /// There is a root.
    #[verifier::type_invariant]
    spec fn has_root(self) -> bool {
        &&& self.layers@.len() >= 1
        &&& self.layers@[0]@.len() >= 1
    }

    /// The hashes of each layer, from the root down.
    pub closed spec fn spec_layers(&self) -> Seq<Seq<Seq<u8>>> {
        self.layers@.map_values(|l: Vec<[u8; 32]>| hash_views(l@))
    }

    /// Commits to the values of a line evaluation, which has at least two
    /// values.
    pub fn from_line_evaluation(evaluation: &MetalLineEvaluation) -> (r: Self)
        requires
            1 <= evaluation.spec_log_size(),
        ensures
            r.spec_layers() == merkle_tree(leaf_hashes(evaluation.spec_values()), evaluation.spec_log_size() as nat),
    {
        proof {
            use_type_invariant(evaluation);
        }
        let values = evaluation.values.as_slice();
        let log_size = evaluation.log_size;
        let leaves = build_merkle_leaves(values);
        let ghost base = hash_views(leaves@);
        let layers = merkle_layers_from_leaves(leaves, log_size);
        proof {
            lemma_layer_above_len(base, log_size as nat, log_size as nat);
            assert(hash_views(layers@[0]@) == merkle_tree(base, log_size as nat)[0]);
            assert(pow2(0) == 1) by {
                vstd::arithmetic::power2::lemma2_to64();
            }
        }
        let r = MetalLineCommitment { layers };
        proof {
            assert(r.spec_layers() =~= merkle_tree(leaf_hashes(values@), log_size as nat));
        }
        r
    }

    /// The root hash.
    pub fn root(&self) -> (r: [u8; 32])
        ensures
            self.spec_layers().len() > 0,
            r@ == self.spec_layers()[0][0],
    {
        proof {
            use_type_invariant(self);
        }
        self.layers[0][0]
    }

    /// The number of layers, root and leaves included.
    pub fn layer_count(&self) -> (r: usize)
        ensures
            r == self.spec_layers().len(),
    {
        self.layers.len()
    }
}


// ---------------------------------------------------------------------------
// Merkle decommitment from a tree's layers.
// ---------------------------------------------------------------------------

/// One layer of a Merkle decommitment from query `i` on, reading `hashes`:
/// the sibling of every lone query joins the witness, and both children of
/// every run's parent join the layer's node values.
pub open spec fn merkle_layer_from(q: Seq<usize>, i: int, hashes: Seq<Seq<u8>>) -> (
    Seq<Seq<u8>>,
    Seq<(usize, Seq<u8>)>,
)
    decreases q.len() - i,
{
    if i < 0 || i >= q.len() {
        (Seq::empty(), Seq::empty())
    } else {
        let first = q[i];
        let l = sibling_run_len(q, i);
        proof {
            lemma_run_len_bounds(q, i);
        }
        let parent = first / 2;
        let w: Seq<Seq<u8>> = if l == 1 {
            seq![hashes[(first ^ 1usize) as int]]
        } else {
            Seq::empty()
        };
        let rest = merkle_layer_from(q, i + l, hashes);
        (
            w + rest.0,
            seq![
                ((2 * parent) as usize, hashes[2 * parent]),
                ((2 * parent + 1) as usize, hashes[2 * parent + 1]),
            ] + rest.1,
        )
    }
}

/// The Merkle decommitment of queries `q` into layer `j` of a tree given by
/// its layers from the root down, and on up through every layer below the
/// root: the hash witness, then the node values read in each layer.
pub open spec fn merkle_decommitment(q: Seq<usize>, layers: Seq<Seq<Seq<u8>>>, j: int) -> (
    Seq<Seq<u8>>,
    Seq<Seq<(usize, Seq<u8>)>>,
)
    decreases j,
{
    if j <= 0 || j >= layers.len() {
        (Seq::empty(), Seq::empty())
    } else {
        let (w, nodes) = merkle_layer_from(q, 0, layers[j]);
        let rest = merkle_decommitment(layer_from(q, 0).2, layers, j - 1);
        (w + rest.0, seq![nodes] + rest.1)
    }
}

/// The hashes of each layer.
pub open spec fn layer_views(layers: Seq<Vec<[u8; 32]>>) -> Seq<Seq<Seq<u8>>> {
    layers.map_values(|l: Vec<[u8; 32]>| hash_views(l@))
}

/// The node values of each layer with their bytes.
pub open spec fn node_lists(lists: Seq<Vec<(usize, [u8; 32])>>) -> Seq<Seq<(usize, Seq<u8>)>> {
    lists.map_values(|l: Vec<(usize, [u8; 32])>| node_views(l@))
}

/// A query below `len`, an even length, has its sibling and both children
/// of its parent below `len` too.
proof fn lemma_pair_in_range(x: usize, len: int)
    requires
        x < len,
        len % 2 == 0,
    ensures
        (x ^ 1usize) < len,
        2 * (x / 2) + 1 < len,
{
    assert((x ^ 1usize) == (if x % 2 == 0 {
        (x + 1) as usize
    } else {
        (x - 1) as usize
    })) by (bit_vector);
}

/// The parents planned from query `i` on lie below half of any bound of
/// the queries.
proof fn lemma_next_queries_in_range(q: Seq<usize>, i: int, bound: int)
    requires
        forall|a: int| 0 <= a < q.len() ==> #[trigger] q[a] < bound,
    ensures
        forall|k: int| 0 <= k < layer_from(q, i).2.len() ==> 2 * #[trigger] layer_from(q, i).2[k] < bound,
    decreases q.len() - i,
{
    if 0 <= i < q.len() {
        lemma_run_len_bounds(q, i);
        let l = sibling_run_len(q, i);
        lemma_next_queries_in_range(q, i + l, bound);
        let rest = layer_from(q, i + l).2;
        let next = layer_from(q, i).2;
        assert(next == seq![q[i] / 2] + rest);
        assert forall|k: int| 0 <= k < next.len() implies 2 * #[trigger] next[k] < bound by {
            if k > 0 {
                assert(next[k] == rest[k - 1]);
            }
        }
    }
}

/// One layer of a Merkle decommitment: the siblings of lone queries are
/// appended to `witness`; gives the layer's node values and the queries of
/// the layer above.
fn decommit_tree_layer(
    q: &Vec<usize>,
    hashes: &Vec<[u8; 32]>,
    witness: &mut Vec<[u8; 32]>,
) -> (r: (Vec<(usize, [u8; 32])>, Vec<usize>))
    requires
        hashes@.len() % 2 == 0,
        forall|a: int| 0 <= a < q@.len() ==> #[trigger] q@[a] < hashes@.len(),
    ensures
        ({
            let (w, nodes) = merkle_layer_from(q@, 0, hash_views(hashes@));
            &&& hash_views(final(witness)@) == hash_views(old(witness)@) + w
            &&& node_views(r.0@) == nodes
            &&& r.1@ == layer_from(q@, 0).2
        }),
{
    let ghost h = hash_views(hashes@);
    let ghost start = witness@;
    let ghost mut done_w: Seq<Seq<u8>> = Seq::empty();
    let hl = hashes.len();
    let mut nodes: Vec<(usize, [u8; 32])> = Vec::new();
    let mut next: Vec<usize> = Vec::new();
    let mut i: usize = 0;
    while i < q.len()
        invariant
            i <= q@.len(),
            h == hash_views(hashes@),
            hl == hashes@.len(),
            hashes@.len() % 2 == 0,
            forall|a: int| 0 <= a < q@.len() ==> #[trigger] q@[a] < hashes@.len(),
            ({
                let whole = merkle_layer_from(q@, 0, h);
                let rest = merkle_layer_from(q@, i as int, h);
                &&& whole.0 == done_w + rest.0
                &&& hash_views(witness@) == hash_views(start) + done_w
                &&& whole.1 == node_views(nodes@) + rest.1
                &&& layer_from(q@, 0).2 == next@ + layer_from(q@, i as int).2
            }),
        decreases q@.len() - i,
    {
        proof {
            lemma_run_len_bounds(q@, i as int);
        }
        let len = q.len();
        let mut j = i;
        while j + 1 < len && q[j] ^ 1 == q[j + 1]
            invariant
                len == q@.len(),
                i <= j < q@.len(),
                sibling_run_len(q@, i as int) == (j - i) + sibling_run_len(q@, j as int),
            decreases q@.len() - j,
        {
            j = j + 1;
        }
        let l = j - i + 1;
        let first = q[i];
        proof {
            lemma_pair_in_range(first, hl as int);
        }
        let parent = first / 2;
        let ghost w0 = witness@;
        let ghost n0 = nodes@;
        if l == 1 {
            witness.push(hashes[first ^ 1]);
        }
        nodes.push((2 * parent, hashes[2 * parent]));
        nodes.push((2 * parent + 1, hashes[2 * parent + 1]));
        next.push(parent);
        proof {
            let rest = merkle_layer_from(q@, i as int, h);
            let after = merkle_layer_from(q@, i + l, h);
            let w: Seq<Seq<u8>> = if l == 1 {
                seq![h[(first ^ 1usize) as int]]
            } else {
                Seq::empty()
            };
            assert(hash_views(witness@) =~= hash_views(w0) + w);
            assert(rest.0 == w + after.0);
            let pair = seq![
                ((2 * parent) as usize, h[2 * parent]),
                ((2 * parent + 1) as usize, h[2 * parent + 1]),
            ];
            assert(node_views(nodes@) =~= node_views(n0) + pair);
            assert(rest.1 == pair + after.1);
            let whole = merkle_layer_from(q@, 0, h);
            assert(whole.1 =~= node_views(nodes@) + after.1);
            assert(whole.0 =~= (done_w + w) + after.0);
            assert(hash_views(witness@) =~= hash_views(start) + (done_w + w));
            let nx = layer_from(q@, i as int).2;
            assert(nx == seq![parent] + layer_from(q@, i + l).2);
            assert(layer_from(q@, 0).2 =~= next@ + layer_from(q@, i + l).2);
            done_w = done_w + w;
        }
        i = i + l;
    }
    proof {
        assert(done_w + Seq::<Seq<u8>>::empty() =~= done_w);
        assert(next@ =~= layer_from(q@, 0).2);
    }
    (nodes, next)
}

/// The Merkle decommitment of `query_positions` against a tree's layers,
/// from the root down: repeated queries are dropped, then from the leaves
/// up to the root's children each layer gives the siblings of lone queries
/// to the hash witness and the children of every queried parent to its
/// node values.
fn decommit_tree(layers: &Vec<Vec<[u8; 32]>>, query_positions: &[usize]) -> (r: (
    Vec<[u8; 32]>,
    Vec<Vec<(usize, [u8; 32])>>,
))
    requires
        layers@.len() >= 1,
        forall|k: int| 1 <= k < layers@.len() ==> (#[trigger] layers@[k])@.len() == 2 * layers@[k - 1]@.len(),
        forall|a: int|
            0 <= a < query_positions@.len() ==> #[trigger] query_positions@[a] < layers@[layers@.len()
                - 1]@.len(),
    ensures
        ({
            let (w, nodes) = merkle_decommitment(
                dedup_consecutive(query_positions@),
                layer_views(layers@),
                layers@.len() - 1,
            );
            &&& hash_views(r.0@) == w
            &&& node_lists(r.1@) == nodes
        }),
{
    let ghost lv = layer_views(layers@);
    let ghost q0 = dedup_consecutive(query_positions@);
    let mut queries = dedup_queries(query_positions);
    proof {
        assert forall|a: int| 0 <= a < queries@.len() implies #[trigger] queries@[a] < layers@[layers@.len()
            - 1]@.len() by {
            lemma_dedup_in_range(query_positions@, layers@[layers@.len() - 1]@.len() as int, a);
        }
    }
    let mut witness: Vec<[u8; 32]> = Vec::new();
    let mut all_nodes: Vec<Vec<(usize, [u8; 32])>> = Vec::new();
    let mut j: usize = layers.len() - 1;
    while j > 0
        invariant
            j < layers@.len(),
            lv == layer_views(layers@),
            forall|k: int| 1 <= k < layers@.len() ==> (#[trigger] layers@[k])@.len() == 2 * layers@[k - 1]@.len(),
            forall|a: int| 0 <= a < queries@.len() ==> #[trigger] queries@[a] < layers@[j as int]@.len(),
            ({
                let whole = merkle_decommitment(q0, lv, layers@.len() - 1);
                let rest = merkle_decommitment(queries@, lv, j as int);
                &&& whole.0 == hash_views(witness@) + rest.0
                &&& whole.1 == node_lists(all_nodes@) + rest.1
            }),
        decreases j,
    {
        proof {
            assert(layers@[j as int]@.len() % 2 == 0);
            lemma_next_queries_in_range(queries@, 0, layers@[j as int]@.len() as int);
        }
        let ghost wb = witness@;
        let ghost nb = all_nodes@;
        let ghost qb = queries@;
        let (nodes, next) = decommit_tree_layer(&queries, &layers[j], &mut witness);
        all_nodes.push(nodes);
        proof {
            let step = merkle_layer_from(qb, 0, lv[j as int]);
            assert(lv[j as int] == hash_views(layers@[j as int]@));
            let rest = merkle_decommitment(qb, lv, j as int);
            let after = merkle_decommitment(next@, lv, j - 1);
            assert(rest.0 == step.0 + after.0);
            assert(rest.1 == seq![step.1] + after.1);
            assert(node_lists(all_nodes@) =~= node_lists(nb).push(step.1));
            assert(hash_views(witness@) + after.0 =~= hash_views(wb) + rest.0);
            assert(node_lists(all_nodes@) + after.1 =~= node_lists(nb) + rest.1);
            assert forall|a: int| 0 <= a < next@.len() implies #[trigger] next@[a] < layers@[j - 1]@.len() by {
                assert(2 * next@[a] < layers@[j as int]@.len());
            }
        }
        queries = next;
        j = j - 1;
    }
    proof {
        assert(hash_views(witness@) + Seq::<Seq<u8>>::empty() =~= hash_views(witness@));
        assert(node_lists(all_nodes@) + Seq::<Seq<(usize, Seq<u8>)>>::empty() =~= node_lists(all_nodes@));
    }
    (witness, all_nodes)
}

/// Every query kept by deduplication was one of the queries.
proof fn lemma_dedup_in_range(q: Seq<usize>, bound: int, a: int)
    requires
        forall|b: int| 0 <= b < q.len() ==> #[trigger] q[b] < bound,
        0 <= a < dedup_consecutive(q).len(),
    ensures
        dedup_consecutive(q)[a] < bound,
    decreases q.len(),
{
    let d = dedup_consecutive(q.drop_last());
    if a < d.len() {
        lemma_dedup_in_range(q.drop_last(), bound, a);
    } else {
        assert(q[q.len() - 1] < bound);
    }
}

// ---------------------------------------------------------------------------
// The first FRI layer.
// ---------------------------------------------------------------------------

/// Layer `k` of the tree over `2^depth` leaves has `2^k` nodes.
proof fn lemma_merkle_tree_lens(leaves: Seq<Seq<u8>>, depth: nat)
    requires
        leaves.len() == pow2(depth),
    ensures
        merkle_tree(leaves, depth).len() == depth + 1,
        merkle_tree(leaves, depth)[depth as int] == leaves,
        forall|k: int| 0 <= k <= depth ==> (#[trigger] merkle_tree(leaves, depth)[k]).len() == pow2(k as nat),
{
    assert forall|k: int| 0 <= k <= depth implies (#[trigger] merkle_tree(leaves, depth)[k]).len() == pow2(
        k as nat,
    ) by {
        lemma_layer_above_len(leaves, depth, (depth - k) as nat);
    }
}

/// The decommitment of the first FRI layer at some queries: the values of
/// the decommitted positions that were not queried, the Merkle hash
/// witness, the layer's root, every decommitted position with its value,
/// and the node values read in each tree layer.
#[derive(Clone, Debug)]
pub struct MetalFriFirstLayerDecommitment {
    pub fri_witness: Vec<MetalSecureFieldValueV1>,
    pub hash_witness: Vec<[u8; 32]>,
    pub commitment: [u8; 32],
    pub all_values: Vec<(usize, MetalSecureFieldValueV1)>,
    pub all_node_values: Vec<Vec<(usize, [u8; 32])>>,
}

/// The first FRI layer: the secure-field values on a circle domain of
/// `2^log_size` points and the Merkle tree committing to them.
#[derive(Debug)]
pub struct MetalFriFirstLayer {
    values: Vec<MetalSecureFieldValueV1>,
    log_size: u32,
    layers: Vec<Vec<[u8; 32]>>,
}

impl MetalFriFirstLayer {
    /// The tree commits to the values.
    #[verifier::type_invariant]
    spec fn committed(self) -> bool {
        &&& 1 <= self.log_size
        &&& self.values@.len() == pow2(self.log_size as nat)
        &&& layer_views(self.layers@) == merkle_tree(leaf_hashes(self.values@), self.log_size as nat)
    }

    pub closed spec fn spec_values(&self) -> Seq<MetalSecureFieldValueV1> {
        self.values@
    }

    pub closed spec fn spec_log_size(&self) -> u32 {
        self.log_size
    }

    /// The tree's layers, from the root down.
    pub open spec fn spec_layers(&self) -> Seq<Seq<Seq<u8>>> {
        merkle_tree(leaf_hashes(self.spec_values()), self.spec_log_size() as nat)
    }

    /// Commits to the `2^log_size` values of the first layer, which has at
    /// least two values.
    pub fn new(log_size: u32, values: Vec<MetalSecureFieldValueV1>) -> (r: Self)
        requires
            1 <= log_size,
            values@.len() == pow2(log_size as nat),
        ensures
            r.spec_values() == values@,
            r.spec_log_size() == log_size,
    {
        let leaves = build_merkle_leaves(values.as_slice());
        let layers = merkle_layers_from_leaves(leaves, log_size);
        proof {
            assert(layer_views(layers@) =~= merkle_tree(leaf_hashes(values@), log_size as nat));
        }
        MetalFriFirstLayer { values, log_size, layers }
    }

    /// The root of the commitment.
    pub fn root(&self) -> (r: [u8; 32])
        ensures
            r@ == self.spec_layers()[0][0],
    {
        proof {
            use_type_invariant(self);
            lemma_merkle_tree_lens(leaf_hashes(self.values@), self.log_size as nat);
            assert(pow2(0) == 1) by {
                vstd::arithmetic::power2::lemma2_to64();
            }
            assert(hash_views(self.layers@[0]@) == self.spec_layers()[0]);
        }
        self.layers[0][0]
    }

    /// The log-size of the layer's circle domain.
    pub fn log_size(&self) -> (r: u32)
        ensures
            r == self.spec_log_size(),
    {
        self.log_size
    }

    pub fn values(&self) -> (r: &[MetalSecureFieldValueV1])
        ensures
            r@ == self.spec_values(),
    {
        self.values.as_slice()
    }

    /// The Merkle decommitment of sorted query positions: the hash witness
    /// and the node values read in each layer below the root.
    pub fn decommit_merkle(&self, query_positions: &[usize]) -> (r: (Vec<[u8; 32]>, Vec<Vec<(usize, [u8; 32])>>))
        requires
            forall|a: int, b: int|
                0 <= a <= b < query_positions@.len() ==> query_positions@[a] <= query_positions@[b],
            forall|a: int| 0 <= a < query_positions@.len() ==> #[trigger] query_positions@[a] < self.spec_values().len(),
        ensures
            ({
                let (w, nodes) = merkle_decommitment(
                    dedup_consecutive(query_positions@),
                    self.spec_layers(),
                    self.spec_log_size() as int,
                );
                &&& hash_views(r.0@) == w
                &&& node_lists(r.1@) == nodes
            }),
    {
        self.decommit_positions(query_positions)
    }

    /// The Merkle decommitment of query positions, sorted or not.
    fn decommit_positions(&self, query_positions: &[usize]) -> (r: (Vec<[u8; 32]>, Vec<Vec<(usize, [u8; 32])>>))
        requires
            forall|a: int| 0 <= a < query_positions@.len() ==> #[trigger] query_positions@[a] < self.spec_values().len(),
        ensures
            ({
                let (w, nodes) = merkle_decommitment(
                    dedup_consecutive(query_positions@),
                    self.spec_layers(),
                    self.spec_log_size() as int,
                );
                &&& hash_views(r.0@) == w
                &&& node_lists(r.1@) == nodes
            }),
    {
        proof {
            use_type_invariant(self);
            let lv = layer_views(self.layers@);
            lemma_merkle_tree_lens(leaf_hashes(self.values@), self.log_size as nat);
            assert forall|k: int| 1 <= k < self.layers@.len() implies (#[trigger] self.layers@[k])@.len() == 2
                * self.layers@[k - 1]@.len() by {
                assert(lv[k] == hash_views(self.layers@[k]@));
                assert(lv[k - 1] == hash_views(self.layers@[k - 1]@));
                lemma_pow2_unfold(k as nat);
            }
            assert(lv[self.log_size as int] == hash_views(self.layers@[self.log_size as int]@));
        }
        decommit_tree(&self.layers, query_positions)
    }

    /// Decommits the first layer at sorted query positions on its domain:
    /// both positions of every queried pair are decommitted, the values of
    /// those not queried form the FRI witness, and the Merkle tree is opened
    /// at all of them.
    pub fn decommit(&self, query_positions: &[usize], log_domain_size: u32) -> (r: MetalFriFirstLayerDecommitment)
        requires
            log_domain_size == self.spec_log_size(),
            forall|a: int, b: int|
                0 <= a <= b < query_positions@.len() ==> query_positions@[a] <= query_positions@[b],
            forall|a: int| 0 <= a < query_positions@.len() ==> #[trigger] query_positions@[a] < self.spec_values().len(),
        ensures
            ({
                let (positions, fri_witness) = first_layer_from(self.spec_values(), query_positions@, 0);
                let (w, nodes) = merkle_decommitment(
                    dedup_consecutive(positions),
                    self.spec_layers(),
                    self.spec_log_size() as int,
                );
                &&& r.fri_witness@ == fri_witness
                &&& r.all_values@ == positions.map_values(|p: usize| (p, self.spec_values()[p as int]))
                &&& hash_views(r.hash_witness@) == w
                &&& node_lists(r.all_node_values@) == nodes
                &&& r.commitment@ == self.spec_layers()[0][0]
            }),
    {
        let n = self.values.len();
        proof {
            use_type_invariant(self);
            assert forall|a: int| 0 <= a < query_positions@.len() implies #[trigger] query_positions@[a] / 2 * 2 + 1
                < self.values@.len() by {
                lemma_pow2_unfold(self.log_size as nat);
                lemma_pair_in_range(query_positions@[a], n as int);
            }
        }
        let (positions, fri_witness, all_values) = compute_first_layer_positions_and_witness(
            self.values.as_slice(),
            query_positions,
        );
        proof {
            lemma_first_layer_positions_in_range(self.values@, query_positions@, 0);
        }
        let (hash_witness, all_node_values) = self.decommit_positions(positions.as_slice());
        MetalFriFirstLayerDecommitment {
            fri_witness,
            hash_witness,
            commitment: self.root(),
            all_values,
            all_node_values,
        }
    }
}

/// The positions decommitted from query `i` on lie in `values`.
proof fn lemma_first_layer_positions_in_range(values: Seq<MetalSecureFieldValueV1>, q: Seq<usize>, i: int)
    requires
        forall|a: int| 0 <= a < q.len() ==> #[trigger] q[a] / 2 * 2 + 1 < values.len(),
    ensures
        forall|k: int|
            0 <= k < first_layer_from(values, q, i).0.len() ==> #[trigger] first_layer_from(values, q, i).0[k]
                < values.len(),
    decreases q.len() - i,
{
    if 0 <= i < q.len() {
        lemma_pair_run_len_bounds(q, i);
        let l = pair_run_len(q, i);
        lemma_first_layer_positions_in_range(values, q, i + l);
        let start = (q[i] / 2 * 2) as usize;
        let rest = first_layer_from(values, q, i + l).0;
        let here = first_layer_from(values, q, i).0;
        assert(here == seq![start, (start + 1) as usize] + rest);
        assert forall|k: int| 0 <= k < here.len() implies #[trigger] here[k] < values.len() by {
            if k >= 2 {
                assert(here[k] == rest[k - 2]);
            }
        }
    }
}

// ---------------------------------------------------------------------------
// Gathered decommitments agree with the tree.
// ---------------------------------------------------------------------------

/// Assembling a front run first, then the rest from where its reads end.
proof fn lemma_layer_assembly_front(
    x: (bool, usize),
    rest: Seq<(bool, usize)>,
    words: Seq<u32>,
    base: int,
    cursor: int,
)
    ensures
        ({
            let one = layer_assembly(seq![x], words, base, cursor);
            let tail = layer_assembly(rest, words, base, cursor + chunk_reads(seq![x]));
            layer_assembly(seq![x] + rest, words, base, cursor) == (one.0 + tail.0, one.1 + tail.1)
        }),
    decreases rest.len(),
{
    let one = layer_assembly(seq![x], words, base, cursor);
    let s = seq![x] + rest;
    if rest.len() == 0 {
        assert(s =~= seq![x]);
        let tail = layer_assembly(rest, words, base, cursor + chunk_reads(seq![x]));
        assert(one.0 + tail.0 =~= one.0);
        assert(one.1 + tail.1 =~= one.1);
    } else {
        lemma_layer_assembly_front(x, rest.drop_last(), words, base, cursor);
        assert(s.drop_last() =~= seq![x] + rest.drop_last());
        assert(s.last() == rest.last());
        lemma_chunk_reads_cons(x, rest.drop_last());
        assert(seq![x].drop_last() =~= Seq::<(bool, usize)>::empty());
        lemma_chunk_reads_cons(x, Seq::<(bool, usize)>::empty());
        assert(seq![x] + Seq::<(bool, usize)>::empty() =~= seq![x]);
        let prev = layer_assembly(rest.drop_last(), words, base, cursor + chunk_reads(seq![x]));
        let tail = layer_assembly(rest, words, base, cursor + chunk_reads(seq![x]));
        let whole = layer_assembly(s, words, base, cursor);
        let (needs_sibling, parent) = rest.last();
        let c = cursor + chunk_reads(seq![x]) + chunk_reads(rest.drop_last());
        assert(cursor + chunk_reads(s.drop_last()) == c);
        let c1 = if needs_sibling {
            c + 1
        } else {
            c
        };
        let w: Seq<Seq<u8>> = if needs_sibling {
            seq![hash_bytes(words, base + 8 * c)]
        } else {
            Seq::empty()
        };
        let ns = seq![
            ((2 * parent) as usize, hash_bytes(words, base + 8 * c1)),
            ((2 * parent + 1) as usize, hash_bytes(words, base + 8 * (c1 + 1))),
        ];
        assert(tail == (prev.0 + w, prev.1 + ns));
        assert(whole.0 =~= one.0 + tail.0);
        assert(whole.1 =~= one.1 + tail.1);
    }
}

/// One layer assembled from gathered words agrees with the layer read from
/// its hashes, when the words from `cursor` on hold the hashes of the
/// gathered nodes in order.
proof fn lemma_layer_assembly_matches(
    q: Seq<usize>,
    i: int,
    hashes: Seq<Seq<u8>>,
    words: Seq<u32>,
    base: int,
    cursor: int,
)
    requires
        0 <= i,
        forall|a: int| 0 <= a < q.len() ==> #[trigger] q[a] < hashes.len(),
        hashes.len() % 2 == 0,
        hashes.len() <= 0x1_0000_0000,
        forall|c: int|
            0 <= c < layer_from(q, i).0.len() ==> hash_bytes(words, base + 8 * (cursor + c)) == hashes[(
            #[trigger] layer_from(q, i).0[c]) as int],
    ensures
        layer_assembly(layer_from(q, i).1, words, base, cursor) == merkle_layer_from(q, i, hashes),
    decreases q.len() - i,
{
    if i < q.len() {
        lemma_run_len_bounds(q, i);
        let l = sibling_run_len(q, i);
        let first = q[i];
        let parent = first / 2;
        let single = l == 1;
        let x = (single, parent);
        let here = layer_from(q, i);
        let after = layer_from(q, i + l);
        let g = run_gather(first, single);
        assert(here.0 == g + after.0);
        assert(here.1 == seq![x] + after.1);
        lemma_pair_in_range(first, hashes.len() as int);
        assert(seq![x].drop_last() =~= Seq::<(bool, usize)>::empty());
        lemma_chunk_reads_cons(x, Seq::<(bool, usize)>::empty());
        assert(seq![x] + Seq::<(bool, usize)>::empty() =~= seq![x]);
        let reads = chunk_reads(seq![x]);
        assert(reads == g.len());
        assert forall|c: int| 0 <= c < after.0.len() implies hash_bytes(words, base + 8 * ((cursor + reads) + c))
            == hashes[(#[trigger] after.0[c]) as int] by {
            assert(here.0[g.len() + c] == after.0[c]);
            assert(hash_bytes(words, base + 8 * (cursor + (g.len() + c))) == hashes[(here.0[g.len() + c]) as int]);
        }
        lemma_layer_assembly_matches(q, i + l, hashes, words, base, cursor + reads);
        lemma_layer_assembly_front(x, after.1, words, base, cursor);
        let one = layer_assembly(seq![x], words, base, cursor);
        let tail = layer_assembly(after.1, words, base, cursor + reads);
        let m = merkle_layer_from(q, i, hashes);
        let mrest = merkle_layer_from(q, i + l, hashes);
        assert(tail == mrest);
        let pair = seq![
            ((2 * parent) as usize, hashes[2 * parent]),
            ((2 * parent + 1) as usize, hashes[2 * parent + 1]),
        ];
        if single {
            assert(hash_bytes(words, base + 8 * (cursor + 0)) == hashes[(here.0[0]) as int]);
            assert(hash_bytes(words, base + 8 * (cursor + 1)) == hashes[(here.0[1]) as int]);
            assert(hash_bytes(words, base + 8 * (cursor + 2)) == hashes[(here.0[2]) as int]);
            let e = layer_assembly(seq![x].drop_last(), words, base, cursor);
            assert(e.0 =~= Seq::<Seq<u8>>::empty());
            assert(here.0[0] == (first ^ 1usize) as u32);
            assert(((first ^ 1usize) as u32) as int == (first ^ 1usize) as int);
            assert(one.0 =~= seq![hashes[(first ^ 1usize) as int]]);
            assert(one.1 =~= pair);
        } else {
            assert(hash_bytes(words, base + 8 * (cursor + 0)) == hashes[(here.0[0]) as int]);
            assert(hash_bytes(words, base + 8 * (cursor + 1)) == hashes[(here.0[1]) as int]);
            let e = layer_assembly(seq![x].drop_last(), words, base, cursor);
            assert(e.0 =~= Seq::<Seq<u8>>::empty());
            assert(one.0 =~= Seq::<Seq<u8>>::empty());
            assert(one.1 =~= pair);
        }
        assert(m.0 =~= one.0 + mrest.0);
        assert(m.1 =~= one.1 + mrest.1);
    }
}

/// The queries of the layer `p` levels above the first one planned.
pub open spec fn queries_at(q: Seq<usize>, p: nat) -> Seq<usize>
    decreases p,
{
    if p == 0 {
        q
    } else {
        layer_from(queries_at(q, (p - 1) as nat), 0).2
    }
}

proof fn lemma_queries_at_shift(q: Seq<usize>, p: nat)
    ensures
        queries_at(layer_from(q, 0).2, p) == queries_at(q, p + 1),
    decreases p,
{
    assert(queries_at(q, 0) == q);
    assert(queries_at(q, p + 1) == layer_from(queries_at(q, p), 0).2);
    if p > 0 {
        lemma_queries_at_shift(q, (p - 1) as nat);
    }
}

/// Plan `p` reads the layer of the queries `p` levels up.
proof fn lemma_decommit_plans_at(q: Seq<usize>, k: nat, p: int)
    requires
        0 <= p < k,
    ensures
        decommit_plans(q, k)[p] == (layer_from(queries_at(q, p as nat), 0).0, layer_from(queries_at(q, p as nat), 0).1),
    decreases k,
{
    let next = layer_from(q, 0).2;
    lemma_decommit_plans_len(next, (k - 1) as nat);
    if p > 0 {
        lemma_decommit_plans_at(next, (k - 1) as nat, p - 1);
        lemma_queries_at_shift(q, (p - 1) as nat);
        assert(decommit_plans(q, k)[p] == decommit_plans(next, (k - 1) as nat)[p - 1]);
    }
}

/// The queries `p` levels up lie in the layer they read, and no layer is
/// longer than the leaves.
proof fn lemma_queries_at_in_range(q: Seq<usize>, layers: Seq<Seq<Seq<u8>>>, p: nat)
    requires
        layers.len() >= 1,
        p < layers.len(),
        forall|k: int| 1 <= k < layers.len() ==> (#[trigger] layers[k]).len() == 2 * layers[k - 1].len(),
        forall|a: int| 0 <= a < q.len() ==> #[trigger] q[a] < layers[layers.len() - 1].len(),
    ensures
        forall|a: int|
            0 <= a < queries_at(q, p).len() ==> #[trigger] queries_at(q, p)[a] < layers[layers.len() - 1 - p].len(),
        layers[layers.len() - 1 - p].len() <= layers[layers.len() - 1].len(),
    decreases p,
{
    if p > 0 {
        lemma_queries_at_in_range(q, layers, (p - 1) as nat);
        let prev = queries_at(q, (p - 1) as nat);
        let j = layers.len() - p;
        lemma_next_queries_in_range(prev, 0, layers[j].len() as int);
        assert(layers[j].len() == 2 * layers[j - 1].len());
    }
}

/// The first `m` plans assembled from the gathered words, followed by the
/// tree decommitment of the layers above them, give the whole tree
/// decommitment.
#[verifier::spinoff_prover]
#[verifier::rlimit(50)]
proof fn lemma_assembly_prefix(
    q: Seq<usize>,
    layers: Seq<Seq<Seq<u8>>>,
    plans: Seq<LayerGatherPlan>,
    gathered: Seq<u32>,
    m: nat,
)
    requires
        layers.len() >= 1,
        m <= layers.len() - 1,
        forall|k: int| 1 <= k < layers.len() ==> (#[trigger] layers[k]).len() == 2 * layers[k - 1].len(),
        layers[layers.len() - 1].len() <= 0x1_0000_0000,
        forall|a: int| 0 <= a < q.len() ==> #[trigger] q[a] < layers[layers.len() - 1].len(),
        plans.len() == layers.len() - 1,
        forall|p: int|
            0 <= p < plans.len() ==> (#[trigger] plans[p]).gather_indices@ == decommit_plans(
                q,
                (layers.len() - 1) as nat,
            )[p].0 && plans[p].chunk_plan@ == decommit_plans(q, (layers.len() - 1) as nat)[p].1,
        forall|k: int, c: int|
            0 <= k < layers.len() && 0 <= c < all_gathers(plans, layers.len() as int)[k].len() ==> hash_bytes(
                gathered,
                words_before(all_gathers(plans, layers.len() as int), k) + 8 * c,
            ) == layers[k][(#[trigger] all_gathers(plans, layers.len() as int)[k][c]) as int],
    ensures
        ({
            let n = layers.len() as int;
            let da = decommit_assembly(plans, n, gathered, m as int);
            let md = merkle_decommitment(queries_at(q, m), layers, n - 1 - m);
            merkle_decommitment(q, layers, n - 1) == (da.0 + md.0, da.1 + md.1)
        }),
    decreases m,
{
    let n = layers.len() as int;
    if m == 0 {
        let md = merkle_decommitment(q, layers, n - 1);
        assert(Seq::<Seq<u8>>::empty() + md.0 =~= md.0);
        assert(Seq::<Seq<(usize, Seq<u8>)>>::empty() + md.1 =~= md.1);
    } else {
        let p = m - 1;
        lemma_assembly_prefix(q, layers, plans, gathered, p as nat);
        let j = n - 1 - p;
        let qp = queries_at(q, p as nat);
        lemma_queries_at_in_range(q, layers, p as nat);
        lemma_decommit_plans_len(q, (n - 1) as nat);
        lemma_decommit_plans_at(q, (n - 1) as nat, p);
        let g = all_gathers(plans, n);
        assert(g[j] == plans[p].gather_indices@);
        let base = words_before(g, j) as int;
        assert forall|c: int| 0 <= c < layer_from(qp, 0).0.len() implies hash_bytes(gathered, base + 8 * (0 + c))
            == layers[j][(#[trigger] layer_from(qp, 0).0[c]) as int] by {
            assert(g[j][c] == layer_from(qp, 0).0[c]);
        }
        assert(layers[j].len() == 2 * layers[j - 1].len());
        lemma_layer_assembly_matches(qp, 0, layers[j], gathered, base, 0);
        let step = merkle_layer_from(qp, 0, layers[j]);
        let da_p = decommit_assembly(plans, n, gathered, p);
        let da_m = decommit_assembly(plans, n, gathered, m as int);
        assert(n - m == j);
        assert(da_m == (da_p.0 + step.0, da_p.1.push(step.1)));
        let md_p = merkle_decommitment(qp, layers, j);
        let md_m = merkle_decommitment(queries_at(q, m), layers, j - 1);
        assert(md_p == (step.0 + md_m.0, seq![step.1] + md_m.1));
        assert(da_p.0 + md_p.0 =~= da_m.0 + md_m.0);
        assert(da_p.1 + md_p.1 =~= da_m.1 + md_m.1);
    }
}

/// A decommitment assembled from gathered words is the decommitment read
/// from the tree itself: when the plans are those computed for the queries
/// and the words gathered for every layer buffer hold, eight words per
/// node, the hashes of the gathered nodes, assembling them gives exactly
/// the hash witness and node values that walking the tree's layers gives.
pub proof fn lemma_gathered_decommitment_matches_tree(
    query_positions: Seq<usize>,
    layers: Seq<Seq<Seq<u8>>>,
    plans: Seq<LayerGatherPlan>,
    gathered: Seq<u32>,
)
    requires
        layers.len() >= 1,
        forall|k: int| 1 <= k < layers.len() ==> (#[trigger] layers[k]).len() == 2 * layers[k - 1].len(),
        layers[layers.len() - 1].len() <= 0x1_0000_0000,
        forall|a: int| 0 <= a < query_positions.len() ==> #[trigger] query_positions[a] < layers[layers.len() - 1].len(),
        plans.len() == layers.len() - 1,
        forall|p: int|
            0 <= p < plans.len() ==> (#[trigger] plans[p]).gather_indices@ == decommit_plans(
                dedup_consecutive(query_positions),
                (layers.len() - 1) as nat,
            )[p].0 && plans[p].chunk_plan@ == decommit_plans(
                dedup_consecutive(query_positions),
                (layers.len() - 1) as nat,
            )[p].1,
        forall|k: int, c: int|
            0 <= k < layers.len() && 0 <= c < all_gathers(plans, layers.len() as int)[k].len() ==> hash_bytes(
                gathered,
                words_before(all_gathers(plans, layers.len() as int), k) + 8 * c,
            ) == layers[k][(#[trigger] all_gathers(plans, layers.len() as int)[k][c]) as int],
    ensures
        decommit_assembly(plans, layers.len() as int, gathered, plans.len() as int) == merkle_decommitment(
            dedup_consecutive(query_positions),
            layers,
            layers.len() - 1,
        ),
{
    let q = dedup_consecutive(query_positions);
    let n = layers.len() as int;
    assert forall|a: int| 0 <= a < q.len() implies #[trigger] q[a] < layers[n - 1].len() by {
        lemma_dedup_in_range(query_positions, layers[n - 1].len() as int, a);
    }
    lemma_assembly_prefix(q, layers, plans, gathered, (n - 1) as nat);
    let da = decommit_assembly(plans, n, gathered, n - 1);
    let md = merkle_decommitment(queries_at(q, (n - 1) as nat), layers, 0);
    assert(da.0 + md.0 =~= da.0);
    assert(da.1 + md.1 =~= da.1);
}

/// In a Merkle tree every node above the leaves hashes its two children.
pub proof fn lemma_tree_parent_hashes_children(leaves: Seq<Seq<u8>>, depth: nat, k: int, i: int)
    requires
        leaves.len() == pow2(depth),
        0 <= k < depth,
        0 <= i < pow2(k as nat),
    ensures
        merkle_tree(leaves, depth)[k][i] == merkle_node_hash(
            merkle_tree(leaves, depth)[k + 1][2 * i],
            merkle_tree(leaves, depth)[k + 1][2 * i + 1],
        ),
{
    lemma_merkle_tree_lens(leaves, depth);
    let below = layer_above(leaves, (depth - k - 1) as nat);
    assert(merkle_tree(leaves, depth)[k] == parent_layer(below));
}

/// Each node value read in one layer is the hash at its index.
proof fn lemma_layer_nodes_are_hashes(q: Seq<usize>, i: int, hashes: Seq<Seq<u8>>)
    requires
        0 <= i,
        hashes.len() % 2 == 0,
        forall|a: int| 0 <= a < q.len() ==> #[trigger] q[a] < hashes.len(),
    ensures
        forall|e: int|
            0 <= e < merkle_layer_from(q, i, hashes).1.len() ==> {
                let node = #[trigger] merkle_layer_from(q, i, hashes).1[e];
                &&& node.0 < hashes.len()
                &&& node.1 == hashes[node.0 as int]
            },
    decreases q.len() - i,
{
    if i < q.len() {
        lemma_run_len_bounds(q, i);
        let l = sibling_run_len(q, i);
        lemma_layer_nodes_are_hashes(q, i + l, hashes);
        let first = q[i];
        let parent = first / 2;
        lemma_pair_in_range(first, hashes.len() as int);
        let rest = merkle_layer_from(q, i + l, hashes).1;
        let here = merkle_layer_from(q, i, hashes).1;
        let pair = seq![
            ((2 * parent) as usize, hashes[2 * parent]),
            ((2 * parent + 1) as usize, hashes[2 * parent + 1]),
        ];
        assert(here == pair + rest);
        assert forall|e: int| 0 <= e < here.len() implies {
            let node = #[trigger] here[e];
            &&& node.0 < hashes.len()
            &&& node.1 == hashes[node.0 as int]
        } by {
            if e >= 2 {
                assert(here[e] == rest[e - 2]);
            }
        }
    }
}

/// A Merkle decommitment opens the tree truthfully: every node value it
/// reads in the layer `p` levels above the leaves' layer `j` is the hash
/// that layer holds at the node's index.
pub proof fn lemma_decommitment_reads_tree(q: Seq<usize>, layers: Seq<Seq<Seq<u8>>>, j: int)
    requires
        0 <= j < layers.len(),
        forall|k: int| 1 <= k < layers.len() ==> (#[trigger] layers[k]).len() == 2 * layers[k - 1].len(),
        forall|a: int| 0 <= a < q.len() ==> #[trigger] q[a] < layers[j].len(),
    ensures
        ({
            let nodes = merkle_decommitment(q, layers, j).1;
            &&& nodes.len() == j
            &&& forall|p: int, e: int|
                0 <= p < nodes.len() && 0 <= e < nodes[p].len() ==> {
                    let node = #[trigger] nodes[p][e];
                    &&& node.0 < layers[j - p].len()
                    &&& node.1 == layers[j - p][node.0 as int]
                }
        }),
    decreases j,
{
    if j > 0 {
        let next = layer_from(q, 0).2;
        lemma_next_queries_in_range(q, 0, layers[j].len() as int);
        assert(layers[j].len() == 2 * layers[j - 1].len());
        assert forall|a: int| 0 <= a < next.len() implies #[trigger] next[a] < layers[j - 1].len() by {
            assert(2 * next[a] < layers[j].len());
        }
        lemma_decommitment_reads_tree(next, layers, j - 1);
        lemma_layer_nodes_are_hashes(q, 0, layers[j]);
        let nodes = merkle_decommitment(q, layers, j).1;
        let here = merkle_layer_from(q, 0, layers[j]).1;
        let rest = merkle_decommitment(next, layers, j - 1).1;
        assert(nodes == seq![here] + rest);
        assert forall|p: int, e: int| 0 <= p < nodes.len() && 0 <= e < nodes[p].len() implies {
            let node = #[trigger] nodes[p][e];
            &&& node.0 < layers[j - p].len()
            &&& node.1 == layers[j - p][node.0 as int]
        } by {
            if p >= 1 {
                assert(nodes[p] == rest[p - 1]);
                assert(j - p == (j - 1) - (p - 1));
            }
        }
    }
}

} // verus!
