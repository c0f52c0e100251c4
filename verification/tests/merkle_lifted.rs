type BaseCoord = stwo::core::fields::m31::M31;
type Blake2sMerkleHasher = stwo::core::vcs_lifted::blake2_merkle::Blake2sMerkleHasher;

use stwo_metal::decommit::{assemble_decommitment, compute_decommit_plan, decommit_layer_indices, query_read_indices};
use stwo_metal::merkle_lifted::{build_leaves, build_merkle_layers, build_next_layer};

fn blake2s(bytes: &[u8]) -> [u8; 32] {
    stwo::core::vcs::blake2_hash::Blake2sHasher::hash(bytes).0
}

fn column(log_size: u32, seed: u32) -> Vec<u32> {
    (0..1u32 << log_size).map(|i| (seed * 7919 + i * 31) % 2147483647).collect()
}

fn node(left: [u8; 32], right: [u8; 32]) -> [u8; 32] {
    <Blake2sMerkleHasher as stwo::core::vcs_lifted::merkle_hasher::MerkleHasherLifted>::hash_children((
        stwo::core::vcs::blake2_hash::Blake2sHash(left),
        stwo::core::vcs::blake2_hash::Blake2sHash(right),
    ))
    .0
}

#[test]
fn leaves_hash_the_lifted_rows() {
    let c0 = column(1, 1);
    let c1 = column(2, 2);
    let leaves = build_leaves(&[&c0, &c1], 2);
    assert_eq!(leaves.len(), 4);
    for i in 0..4usize {
        let mut bytes = Vec::new();
        bytes.extend_from_slice(&c0[i & 1].to_le_bytes());
        bytes.extend_from_slice(&c1[i].to_le_bytes());
        assert_eq!(leaves[i], blake2s(&bytes));
    }
}

#[test]
fn leaves_are_lifted_beyond_the_largest_column() {
    let c0 = column(1, 3);
    let leaves = build_leaves(&[&c0], 3);
    assert_eq!(leaves.len(), 8);
    assert_eq!(leaves[5], blake2s(&c0[1].to_le_bytes()));
    assert_eq!(leaves[6], blake2s(&c0[0].to_le_bytes()));
}

#[test]
fn no_column_gives_one_empty_leaf() {
    assert_eq!(build_leaves(&[], 0), vec![blake2s(&[])]);
    let layers = build_merkle_layers(&[], 0);
    assert_eq!(layers, vec![vec![blake2s(&[])]]);
}

#[test]
fn next_layer_hashes_pairs() {
    let layer: Vec<[u8; 32]> = (0..4u8).map(|i| [i; 32]).collect();
    assert_eq!(build_next_layer(&layer), vec![node(layer[0], layer[1]), node(layer[2], layer[3])]);
}

#[test]
fn tree_orders_columns_by_size() {
    let small = column(1, 4);
    let big = column(2, 5);
    let layers = build_merkle_layers(&[&big, &small], 2);
    let leaves = build_leaves(&[&small, &big], 2);
    assert_eq!(layers.len(), 3);
    assert_eq!(layers[2], leaves);
    assert_eq!(layers[1], vec![node(leaves[0], leaves[1]), node(leaves[2], leaves[3])]);
    assert_eq!(layers[0], vec![node(layers[1][0], layers[1][1])]);
}

#[test]
fn gathered_decommitment_of_the_lifted_tree_verifies_against_stwo() {
    let lifting_log_size = 4u32;
    let columns = vec![column(3, 1), column(2, 2), column(4, 3), column(3, 4)];
    let refs: Vec<&[u32]> = columns.iter().map(|c| c.as_slice()).collect();
    let layers = build_merkle_layers(&refs, lifting_log_size);
    let n_layers = layers.len();
    let queries = vec![1usize, 5, 6, 13];
    let plans = compute_decommit_plan(&queries, n_layers);
    let per_layer = decommit_layer_indices(&plans, n_layers);
    let mut gathered = Vec::new();
    for (layer, indices) in layers.iter().zip(per_layer.iter()) {
        for &i in indices {
            for chunk in layer[i as usize].chunks_exact(4) {
                gathered.push(u32::from_le_bytes([chunk[0], chunk[1], chunk[2], chunk[3]]));
            }
        }
    }
    let (witness, _) = assemble_decommitment(&plans, n_layers, &gathered);

    let log_sizes: Vec<u32> = columns.iter().map(|c| c.len().ilog2()).collect();
    let queried_values: Vec<Vec<BaseCoord>> = columns
        .iter()
        .zip(log_sizes.iter())
        .map(|(c, &log)| {
            query_read_indices(&queries, (lifting_log_size - log) as usize)
                .into_iter()
                .map(|i| BaseCoord::from_u32_unchecked(c[i]))
                .collect()
        })
        .collect();
    let verifier = stwo::core::vcs_lifted::verifier::MerkleVerifierLifted::<Blake2sMerkleHasher>::new(
        stwo::core::vcs::blake2_hash::Blake2sHash(layers[0][0]),
        log_sizes,
        Some(lifting_log_size),
    );
    let decommitment = stwo::core::vcs_lifted::verifier::MerkleDecommitmentLifted::<Blake2sMerkleHasher> {
        hash_witness: witness.into_iter().map(stwo::core::vcs::blake2_hash::Blake2sHash).collect(),
    };
    assert!(verifier.verify(&queries, queried_values, decommitment).is_ok());
}

/// Commits to one column with the lifted tree, decommits `queries` from
/// the words gathered for every layer, and checks the result against the
/// tree and against stwo's lifted Merkle verifier.
fn check_gathered_decommitment(log_size: u32, queries: &[usize]) {
    let col: Vec<u32> = (0..1u32 << log_size).collect();
    let layers = build_merkle_layers(&[col.as_slice()], log_size);
    let n_layers = layers.len();
    let plans = compute_decommit_plan(queries, n_layers);
    let per_layer = decommit_layer_indices(&plans, n_layers);
    let mut gathered = Vec::new();
    for (layer, indices) in layers.iter().zip(per_layer.iter()) {
        for &i in indices {
            for chunk in layer[i as usize].chunks_exact(4) {
                gathered.push(u32::from_le_bytes([chunk[0], chunk[1], chunk[2], chunk[3]]));
            }
        }
    }
    let (witness, all_node_values) = assemble_decommitment(&plans, n_layers, &gathered);

    // Every node value is the hash the tree holds there.
    assert_eq!(all_node_values.len(), n_layers - 1);
    for (p, nodes) in all_node_values.iter().enumerate() {
        for &(index, hash) in nodes {
            assert_eq!(hash, layers[n_layers - 1 - p][index]);
        }
    }

    let queried: Vec<BaseCoord> = query_read_indices(queries, 0)
        .into_iter()
        .map(|i| BaseCoord::from_u32_unchecked(col[i]))
        .collect();
    let verifier = stwo::core::vcs_lifted::verifier::MerkleVerifierLifted::<Blake2sMerkleHasher>::new(
        stwo::core::vcs::blake2_hash::Blake2sHash(layers[0][0]),
        vec![log_size],
        None,
    );
    let decommitment = stwo::core::vcs_lifted::verifier::MerkleDecommitmentLifted::<Blake2sMerkleHasher> {
        hash_witness: witness.into_iter().map(stwo::core::vcs::blake2_hash::Blake2sHash).collect(),
    };
    assert!(verifier.verify(queries, vec![queried], decommitment).is_ok());
}

#[test]
fn gpu_decommit_matches_upstream() {
    check_gathered_decommitment(8, &[0, 3, 7, 15, 42, 100, 200, 255]);
}

#[test]
fn gpu_decommit_adjacent_queries() {
    check_gathered_decommitment(6, &[0, 1, 4, 5, 10, 63]);
}
