use vstd::prelude::*;
use vstd::arithmetic::power2::{lemma_pow2_pos, pow2};

use crate::accumulation::lemma_lift_index_in_range;
use crate::decommit::{hash_views, le_byte, query_read_index};
use crate::fri_commitment::{
    hash_pairs, layer_views, merkle_layers_from_leaves, merkle_tree, parent_layer,
};
use crate::quotient_staging::{floor_log2, floor_log2_spec};

verus! {

// ---------------------------------------------------------------------------
// Blake2s.
// ---------------------------------------------------------------------------

/// The Blake2s-256 digest of a byte string.
pub uninterp spec fn blake2s_digest(data: Seq<u8>) -> Seq<u8>;

/// Trusted: calls stwo's `Blake2sHasher::hash`, which feeds `data` to a
/// fresh Blake2s-256 state and finalizes it. Claimed: the result is
/// `blake2s_digest` of the bytes, a function of them alone.
#[verifier::external_body]
fn blake2s_hash(data: &[u8]) -> (r: [u8; 32])
    ensures
        r@ == blake2s_digest(data@),
{
    stwo::core::vcs::blake2_hash::Blake2sHasher::hash(data).0
}

// ---------------------------------------------------------------------------
// Lifted leaves.
// ---------------------------------------------------------------------------

/// The four little-endian bytes of a word.
pub open spec fn le_word(w: u32) -> Seq<u8> {
    seq![le_byte(w, 0), le_byte(w, 1), le_byte(w, 2), le_byte(w, 3)]
}

/// The base-2 logarithm of a column's length.
pub open spec fn col_log(c: Seq<u32>) -> nat {
    floor_log2_spec(c.len())
}

/// The bytes hashed into leaf `i` of a tree of `2^log_size` leaves from
/// the first `k` columns: one word of each, read where leaf `i` lifts to in
/// that column.
pub open spec fn leaf_bytes(cols: Seq<Seq<u32>>, log_size: nat, i: usize, k: int) -> Seq<u8>
    decreases k,
{
    if k <= 0 {
        Seq::empty()
    } else {
        let c = cols[k - 1];
        leaf_bytes(cols, log_size, i, k - 1) + le_word(
            c[query_read_index(i, (log_size - col_log(c)) as usize) as int],
        )
    }
}

/// The leaves of the lifted Merkle tree of `2^log_size` leaves over the
/// columns; a single leaf hashing nothing when there is no column.
pub open spec fn lifted_leaves(cols: Seq<Seq<u32>>, log_size: nat) -> Seq<Seq<u8>> {
    if cols.len() == 0 {
        seq![blake2s_digest(Seq::empty())]
    } else {
        Seq::new(pow2(log_size), |i: int| blake2s_digest(leaf_bytes(cols, log_size, i as usize, cols.len() as int)))
    }
}

/// The words of each column.
pub open spec fn column_words(cols: Seq<&[u32]>) -> Seq<Seq<u32>> {
    cols.map_values(|c: &[u32]| c@)
}

/// Columns that can be lifted into a tree of `2^log_size` leaves: each has
/// a power-of-two length of at least two and at most `2^log_size`, in
/// nondecreasing order.
pub open spec fn columns_liftable(cols: Seq<Seq<u32>>, log_size: nat) -> bool {
    &&& log_size < usize::BITS
    &&& forall|k: int| 0 <= k < cols.len() ==> (#[trigger] cols[k]).len() == pow2(col_log(cols[k]))
    &&& forall|k: int| 0 <= k < cols.len() ==> 1 <= col_log(#[trigger] cols[k]) <= log_size
    &&& forall|a: int, b: int| 0 <= a <= b < cols.len() ==> cols[a].len() <= cols[b].len()
}

/// Appends the little-endian bytes of `w`.
fn push_le_word(bytes: &mut Vec<u8>, w: u32)
    ensures
        final(bytes)@ == old(bytes)@ + le_word(w),
{
    bytes.push(((w >> 0u32) & 0xffu32) as u8);
    bytes.push(((w >> 8u32) & 0xffu32) as u8);
    bytes.push(((w >> 16u32) & 0xffu32) as u8);
    bytes.push(((w >> 24u32) & 0xffu32) as u8);
    proof {
        assert(bytes@ =~= old(bytes)@ + le_word(w));
    }
}

/// The leaves of the lifted Merkle tree over columns sorted by size: leaf
/// `i` hashes, column after column, the word that leaf `i` lifts to. With
/// no column, a single leaf hashing nothing.
pub fn build_leaves(columns: &[&[u32]], lifting_log_size: u32) -> (r: Vec<[u8; 32]>)
    requires
        columns_liftable(column_words(columns@), lifting_log_size as nat),
    ensures
        hash_views(r@) == lifted_leaves(column_words(columns@), lifting_log_size as nat),
        r@.len() == lifted_leaves(column_words(columns@), lifting_log_size as nat).len(),
{
    let ghost cols = column_words(columns@);
    let ghost big = lifting_log_size as nat;
    if columns.len() == 0 {
        let empty: Vec<u8> = Vec::new();
        let h = blake2s_hash(empty.as_slice());
        let mut out: Vec<[u8; 32]> = Vec::new();
        out.push(h);
        proof {
            assert(hash_views(out@) =~= lifted_leaves(cols, big));
        }
        return out;
    }
    let mut logs: Vec<u32> = Vec::new();
    let mut c: usize = 0;
    while c < columns.len()
        invariant
            c <= columns@.len(),
            cols == column_words(columns@),
            columns_liftable(cols, big),
            logs@.len() == c,
            forall|k: int| 0 <= k < c ==> #[trigger] logs@[k] == col_log(cols[k]),
        decreases columns@.len() - c,
    {
        proof {
            assert(cols[c as int] == columns@[c as int]@);
            lemma_pow2_pos(col_log(cols[c as int]));
        }
        logs.push(floor_log2(columns[c].len()));
        c = c + 1;
    }
    proof {
        vstd::bits::lemma_usize_pow2_no_overflow(big);
        vstd::bits::lemma_usize_shl_is_mul(1, lifting_log_size as usize);
    }
    let n_leaves: usize = 1usize << lifting_log_size as usize;
    let mut out: Vec<[u8; 32]> = Vec::new();
    let mut i: usize = 0;
    while i < n_leaves
        invariant
            i <= n_leaves,
            n_leaves == pow2(big),
            cols == column_words(columns@),
            cols.len() > 0,
            columns_liftable(cols, big),
            big == lifting_log_size,
            logs@.len() == cols.len(),
            forall|k: int| 0 <= k < cols.len() ==> #[trigger] logs@[k] == col_log(cols[k]),
            out@.len() == i,
            forall|j: int|
                0 <= j < i ==> (#[trigger] out@[j])@ == blake2s_digest(
                    leaf_bytes(cols, big, j as usize, cols.len() as int),
                ),
        decreases n_leaves - i,
    {
        let mut bytes: Vec<u8> = Vec::new();
        let mut k: usize = 0;
        while k < columns.len()
            invariant
                k <= cols.len(),
                i < pow2(big),
                cols == column_words(columns@),
                columns_liftable(cols, big),
                big == lifting_log_size,
                logs@.len() == cols.len(),
                forall|k2: int| 0 <= k2 < cols.len() ==> #[trigger] logs@[k2] == col_log(cols[k2]),
                bytes@ == leaf_bytes(cols, big, i, k as int),
            decreases cols.len() - k,
        {
            let s = logs[k];
            proof {
                assert(cols[k as int] == columns@[k as int]@);
                assert(1 <= col_log(cols[k as int]) <= big);
                lemma_lift_index_in_range(i, big, col_log(cols[k as int]));
                vstd::bits::lemma_usize_pow2_no_overflow(col_log(cols[k as int]));
            }
            let shift: usize = (lifting_log_size - s) as usize + 1;
            let index = ((i >> shift) << 1usize) + (i & 1usize);
            assert(index == query_read_index(i, (big - col_log(cols[k as int])) as usize));
            let w = columns[k][index];
            push_le_word(&mut bytes, w);
            k = k + 1;
        }
        let h = blake2s_hash(bytes.as_slice());
        out.push(h);
        i = i + 1;
    }
    proof {
        assert(hash_views(out@) =~= lifted_leaves(cols, big));
    }
    out
}

// ---------------------------------------------------------------------------
// Inner layers and the whole tree.
// ---------------------------------------------------------------------------

/// The layer above a layer of `2^e` nodes, `e >= 1`: node `i` hashes nodes
/// `2i` and `2i + 1`.
pub fn build_next_layer(prev_layer: &Vec<[u8; 32]>) -> (r: Vec<[u8; 32]>)
    requires
        prev_layer@.len() >= 2,
        exists|e: nat| pow2(e) == prev_layer@.len(),
    ensures
        hash_views(r@) == parent_layer(hash_views(prev_layer@)),
{
    hash_pairs(prev_layer)
}

/// The columns among the first `k` whose length has base-2 logarithm `e`,
/// in order.
pub open spec fn columns_of_log(cols: Seq<Seq<u32>>, e: nat, k: int) -> Seq<Seq<u32>>
    decreases k,
{
    if k <= 0 {
        Seq::empty()
    } else {
        columns_of_log(cols, e, k - 1) + if col_log(cols[k - 1]) == e {
            seq![cols[k - 1]]
        } else {
            Seq::empty()
        }
    }
}

/// The columns of logarithm below `m`, smaller logarithms first, each
/// group in its original order.
pub open spec fn columns_by_size(cols: Seq<Seq<u32>>, m: nat) -> Seq<Seq<u32>>
    decreases m,
{
    if m == 0 {
        Seq::empty()
    } else {
        columns_by_size(cols, (m - 1) as nat) + columns_of_log(cols, (m - 1) as nat, cols.len() as int)
    }
}

/// Each column of one size group is one of the columns, of that size.
proof fn lemma_columns_of_log_members(cols: Seq<Seq<u32>>, e: nat, k: int)
    requires
        0 <= k <= cols.len(),
    ensures
        forall|a: int|
            0 <= a < columns_of_log(cols, e, k).len() ==> col_log(#[trigger] columns_of_log(cols, e, k)[a]) == e
                && exists|j: int| 0 <= j < cols.len() && cols[j] == columns_of_log(cols, e, k)[a],
    decreases k,
{
    if k > 0 {
        lemma_columns_of_log_members(cols, e, k - 1);
        let prev = columns_of_log(cols, e, k - 1);
        let cur = columns_of_log(cols, e, k);
        assert forall|a: int| 0 <= a < cur.len() implies col_log(#[trigger] cur[a]) == e && exists|j: int|
            0 <= j < cols.len() && cols[j] == cur[a] by {
            if a < prev.len() {
                assert(cur[a] == prev[a]);
            } else {
                assert(cur[a] == cols[k - 1]);
            }
        }
    }
}

/// The columns ordered by size are columns, in nondecreasing size.
proof fn lemma_columns_by_size_sorted(cols: Seq<Seq<u32>>, m: nat)
    ensures
        forall|a: int|
            0 <= a < columns_by_size(cols, m).len() ==> col_log(#[trigger] columns_by_size(cols, m)[a]) < m
                && exists|j: int| 0 <= j < cols.len() && cols[j] == columns_by_size(cols, m)[a],
        forall|a: int, b: int|
            0 <= a <= b < columns_by_size(cols, m).len() ==> col_log(columns_by_size(cols, m)[a]) <= col_log(
                columns_by_size(cols, m)[b],
            ),
    decreases m,
{
    if m > 0 {
        lemma_columns_by_size_sorted(cols, (m - 1) as nat);
        lemma_columns_of_log_members(cols, (m - 1) as nat, cols.len() as int);
        let prev = columns_by_size(cols, (m - 1) as nat);
        let group = columns_of_log(cols, (m - 1) as nat, cols.len() as int);
        let cur = columns_by_size(cols, m);
        assert(cur == prev + group);
        assert forall|a: int| 0 <= a < cur.len() implies col_log(#[trigger] cur[a]) < m && exists|j: int|
            0 <= j < cols.len() && cols[j] == cur[a] by {
            if a < prev.len() {
                assert(cur[a] == prev[a]);
            } else {
                assert(cur[a] == group[a - prev.len()]);
            }
        }
        assert forall|a: int, b: int| 0 <= a <= b < cur.len() implies col_log(cur[a]) <= col_log(cur[b]) by {
            if b < prev.len() {
                assert(cur[a] == prev[a]);
                assert(cur[b] == prev[b]);
            } else if a < prev.len() {
                assert(cur[a] == prev[a]);
                assert(cur[b] == group[b - prev.len()]);
            } else {
                assert(cur[a] == group[a - prev.len()]);
                assert(cur[b] == group[b - prev.len()]);
            }
        }
    }
}

/// Orders columns by size, keeping the order of columns of equal size.
fn sort_columns_by_size<'a>(columns: &[&'a [u32]]) -> (r: Vec<&'a [u32]>)
    requires
        forall|k: int| 0 <= k < columns@.len() ==> (#[trigger] columns@[k])@.len() > 0,
    ensures
        column_words(r@) == columns_by_size(column_words(columns@), usize::BITS as nat),
{
    let ghost cols = column_words(columns@);
    let mut out: Vec<&'a [u32]> = Vec::new();
    let mut e: u32 = 0;
    while e < usize::BITS
        invariant
            e <= usize::BITS,
            cols == column_words(columns@),
            forall|k: int| 0 <= k < columns@.len() ==> (#[trigger] columns@[k])@.len() > 0,
            column_words(out@) == columns_by_size(cols, e as nat),
        decreases usize::BITS - e,
    {
        let ghost before = column_words(out@);
        let mut k: usize = 0;
        while k < columns.len()
            invariant
                k <= columns@.len(),
                cols == column_words(columns@),
                forall|k2: int| 0 <= k2 < columns@.len() ==> (#[trigger] columns@[k2])@.len() > 0,
                column_words(out@) == before + columns_of_log(cols, e as nat, k as int),
            decreases columns@.len() - k,
        {
            let ghost o = column_words(out@);
            assert(cols[k as int] == columns@[k as int]@);
            if floor_log2(columns[k].len()) == e {
                out.push(columns[k]);
                proof {
                    assert(column_words(out@) =~= o.push(cols[k as int]));
                }
            }
            proof {
                assert(columns_of_log(cols, e as nat, k + 1) == columns_of_log(cols, e as nat, k as int) + if col_log(
                    cols[k as int],
                ) == e {
                    seq![cols[k as int]]
                } else {
                    Seq::empty()
                });
                assert(column_words(out@) =~= before + columns_of_log(cols, e as nat, k + 1));
            }
            k = k + 1;
        }
        proof {
            assert(columns_by_size(cols, (e + 1) as nat) == columns_by_size(cols, e as nat) + columns_of_log(
                cols,
                e as nat,
                cols.len() as int,
            ));
        }
        e = e + 1;
    }
    out
}

/// The layers, from the root down, of the lifted Merkle tree of
/// `2^lifting_log_size` leaves over the columns ordered by size.
pub open spec fn lifted_merkle_tree(cols: Seq<Seq<u32>>, lifting_log_size: nat) -> Seq<Seq<Seq<u8>>> {
    merkle_tree(lifted_leaves(columns_by_size(cols, usize::BITS as nat), lifting_log_size), lifting_log_size)
}

/// Columns that can be committed to in a tree of `2^log_size` leaves: each
/// has a power-of-two length of at least two and at most `2^log_size`; a
/// tree with no column has a single leaf.
pub open spec fn columns_committable(cols: Seq<Seq<u32>>, log_size: nat) -> bool {
    &&& log_size < usize::BITS
    &&& forall|k: int| 0 <= k < cols.len() ==> (#[trigger] cols[k]).len() == pow2(col_log(cols[k]))
    &&& forall|k: int| 0 <= k < cols.len() ==> 1 <= col_log(#[trigger] cols[k]) <= log_size
    &&& cols.len() == 0 ==> log_size == 0
}

/// Builds the lifted Merkle tree over the columns: the columns are ordered
/// by size, the leaves hash the lifted rows, and each layer above hashes
/// pairs of the one below, up to the root.
pub fn build_merkle_layers(columns: &[&[u32]], lifting_log_size: u32) -> (r: Vec<Vec<[u8; 32]>>)
    requires
        columns_committable(column_words(columns@), lifting_log_size as nat),
    ensures
        layer_views(r@) == lifted_merkle_tree(column_words(columns@), lifting_log_size as nat),
{
    let ghost cols = column_words(columns@);
    let ghost big = lifting_log_size as nat;
    proof {
        assert forall|k: int| 0 <= k < columns@.len() implies (#[trigger] columns@[k])@.len() > 0 by {
            assert(cols[k] == columns@[k]@);
            lemma_pow2_pos(col_log(cols[k]));
        }
    }
    let sorted = sort_columns_by_size(columns);
    let ghost scols = column_words(sorted@);
    proof {
        lemma_columns_by_size_sorted(cols, usize::BITS as nat);
        assert forall|k: int| 0 <= k < scols.len() implies (#[trigger] scols[k]).len() == pow2(col_log(scols[k]))
            && 1 <= col_log(scols[k]) <= big by {
            let j = choose|j: int| 0 <= j < cols.len() && cols[j] == scols[k];
            assert(cols[j] == scols[k]);
        }
        assert forall|a: int, b: int| 0 <= a <= b < scols.len() implies scols[a].len() <= scols[b].len() by {
            assert(col_log(scols[a]) <= col_log(scols[b]));
            if col_log(scols[a]) < col_log(scols[b]) {
                vstd::arithmetic::power2::lemma_pow2_strictly_increases(col_log(scols[a]), col_log(scols[b]));
            }
        }
        if cols.len() > 0 {
            assert(scols.len() > 0) by {
                lemma_sorted_keeps_a_column(cols, 0);
            }
        } else {
            assert(scols.len() == 0) by {
                lemma_columns_by_size_empty(cols, usize::BITS as nat);
            }
        }
    }
    let leaves = build_leaves(sorted.as_slice(), lifting_log_size);
    proof {
        if scols.len() == 0 {
            assert(pow2(0) == 1) by {
                vstd::arithmetic::power2::lemma2_to64();
            }
        }
    }
    let layers = merkle_layers_from_leaves(leaves, lifting_log_size);
    proof {
        assert(layer_views(layers@) =~= lifted_merkle_tree(cols, big));
    }
    layers
}

proof fn lemma_columns_by_size_empty(cols: Seq<Seq<u32>>, m: nat)
    requires
        cols.len() == 0,
    ensures
        columns_by_size(cols, m).len() == 0,
    decreases m,
{
    if m > 0 {
        lemma_columns_by_size_empty(cols, (m - 1) as nat);
    }
}

/// Column `j` is kept by the ordering, in the group of its size.
proof fn lemma_sorted_keeps_a_column(cols: Seq<Seq<u32>>, j: int)
    requires
        0 <= j < cols.len(),
        col_log(cols[j]) < usize::BITS,
    ensures
        columns_by_size(cols, usize::BITS as nat).len() > 0,
{
    let e = col_log(cols[j]);
    lemma_group_nonempty(cols, e, j, cols.len() as int);
    lemma_columns_by_size_grows(cols, (e + 1) as nat, usize::BITS as nat);
}

proof fn lemma_group_nonempty(cols: Seq<Seq<u32>>, e: nat, j: int, k: int)
    requires
        0 <= j < k <= cols.len(),
        col_log(cols[j]) == e,
    ensures
        columns_of_log(cols, e, k).len() > 0,
    decreases k,
{
    if k - 1 > j {
        lemma_group_nonempty(cols, e, j, k - 1);
    }
}

proof fn lemma_columns_by_size_grows(cols: Seq<Seq<u32>>, m1: nat, m2: nat)
    requires
        1 <= m1 <= m2,
        columns_of_log(cols, (m1 - 1) as nat, cols.len() as int).len() > 0,
    ensures
        columns_by_size(cols, m2).len() > 0,
    decreases m2,
{
    if m2 > m1 {
        lemma_columns_by_size_grows(cols, m1, (m2 - 1) as nat);
    }
}

} // verus!
