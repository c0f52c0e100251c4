type BaseCoord = stwo::core::fields::m31::M31;

type Blake2sMerkleHasher = stwo::core::vcs_lifted::blake2_merkle::Blake2sMerkleHasher;
use stwo_metal::fri_commitment::{
    inner_layer_fold_steps, MetalFriFirstLayer, MetalFriInnerLayerRow, MetalLineCommitment, MetalLineEvaluation,
};
use stwo_metal::sampled_values::MetalSecureFieldValueV1;

fn value(i: u32) -> MetalSecureFieldValueV1 {
    MetalSecureFieldValueV1 { limbs: [i, i + 100, i + 200, i + 300] }
}

fn leaf(v: MetalSecureFieldValueV1) -> [u8; 32] {
    let mut hasher = Blake2sMerkleHasher::default();
    let coords: Vec<BaseCoord> = v.limbs.iter().map(|&x| BaseCoord::from_u32_unchecked(x)).collect();
    <Blake2sMerkleHasher as stwo::core::vcs_lifted::merkle_hasher::MerkleHasherLifted>::update_leaf(&mut hasher, &coords);
    <Blake2sMerkleHasher as stwo::core::vcs_lifted::merkle_hasher::MerkleHasherLifted>::finalize(hasher).0
}

fn node(left: [u8; 32], right: [u8; 32]) -> [u8; 32] {
    <Blake2sMerkleHasher as stwo::core::vcs_lifted::merkle_hasher::MerkleHasherLifted>::hash_children((
        stwo::core::vcs::blake2_hash::Blake2sHash(left),
        stwo::core::vcs::blake2_hash::Blake2sHash(right),
    ))
    .0
}

/// The layers of the tree over `values`, from the root down.
fn tree(values: &[MetalSecureFieldValueV1]) -> Vec<Vec<[u8; 32]>> {
    let mut layer: Vec<[u8; 32]> = values.iter().map(|&v| leaf(v)).collect();
    let mut layers = vec![layer.clone()];
    while layer.len() > 1 {
        layer = layer.chunks_exact(2).map(|c| node(c[0], c[1])).collect();
        layers.push(layer.clone());
    }
    layers.reverse();
    layers
}

#[test]
fn line_commitment_root_hashes_the_whole_tree() {
    let values: Vec<MetalSecureFieldValueV1> = (0..8).map(value).collect();
    let evaluation = MetalLineEvaluation::new(3, values.clone());
    let commitment = MetalLineCommitment::from_line_evaluation(&evaluation);
    assert_eq!(commitment.layer_count(), 4);
    let layers = tree(&values);
    assert_eq!(commitment.root(), layers[0][0]);
    let left = node(node(leaf(values[0]), leaf(values[1])), node(leaf(values[2]), leaf(values[3])));
    let right = node(node(leaf(values[4]), leaf(values[5])), node(leaf(values[6]), leaf(values[7])));
    assert_eq!(commitment.root(), node(left, right));
}

#[test]
fn line_commitment_of_two_values_has_two_layers() {
    let values = vec![value(1), value(2)];
    let commitment = MetalLineEvaluation::new(1, values.clone()).commitment();
    assert_eq!(commitment.layer_count(), 2);
    assert_eq!(commitment.root(), node(leaf(values[0]), leaf(values[1])));
}

#[test]
fn first_layer_keeps_its_values_and_root() {
    let values: Vec<MetalSecureFieldValueV1> = (0..4).map(value).collect();
    let layer = MetalFriFirstLayer::new(2, values.clone());
    assert_eq!(layer.values(), &values[..]);
    assert_eq!(layer.log_size(), 2);
    assert_eq!(layer.root(), tree(&values)[0][0]);
}

#[test]
fn first_layer_merkle_decommitment_reads_siblings_and_children() {
    let values: Vec<MetalSecureFieldValueV1> = (0..8).map(value).collect();
    let layers = tree(&values);
    let layer = MetalFriFirstLayer::new(3, values.clone());
    let (witness, nodes) = layer.decommit_merkle(&[1, 1, 4, 5]);
    // Leaves: 1 alone needs 0; 4 and 5 are a pair. Next: parents 0 and 2 need 1 and 3.
    // Then parents 0 and 1 are a pair.
    assert_eq!(witness, vec![layers[3][0], layers[2][1], layers[2][3]]);
    assert_eq!(nodes.len(), 3);
    assert_eq!(nodes[0], vec![(0, layers[3][0]), (1, layers[3][1]), (4, layers[3][4]), (5, layers[3][5])]);
    assert_eq!(nodes[1], vec![(0, layers[2][0]), (1, layers[2][1]), (2, layers[2][2]), (3, layers[2][3])]);
    assert_eq!(nodes[2], vec![(0, layers[1][0]), (1, layers[1][1])]);
}

#[test]
fn first_layer_decommitment_opens_whole_pairs() {
    let values: Vec<MetalSecureFieldValueV1> = (0..8).map(value).collect();
    let layers = tree(&values);
    let layer = MetalFriFirstLayer::new(3, values.clone());
    let decommitment = layer.decommit(&[2, 7], 3);
    assert_eq!(decommitment.fri_witness, vec![values[3], values[6]]);
    assert_eq!(decommitment.all_values, vec![(2, values[2]), (3, values[3]), (6, values[6]), (7, values[7])]);
    assert_eq!(decommitment.commitment, layers[0][0]);
    // Leaves 2, 3 and 6, 7 are pairs; parents 1 and 3 need 0 and 2; then 0 and 1 pair.
    assert_eq!(decommitment.hash_witness, vec![layers[2][0], layers[2][2]]);
    assert_eq!(decommitment.all_node_values.len(), 3);
    assert_eq!(decommitment.all_node_values[2], vec![(0, layers[1][0]), (1, layers[1][1])]);
}

fn gather_words(layers: &[Vec<[u8; 32]>], per_layer: &[Vec<u32>]) -> Vec<u32> {
    let mut words = Vec::new();
    for (layer, indices) in layers.iter().zip(per_layer.iter()) {
        for &i in indices {
            for chunk in layer[i as usize].chunks_exact(4) {
                words.push(u32::from_le_bytes([chunk[0], chunk[1], chunk[2], chunk[3]]));
            }
        }
    }
    words
}

#[test]
fn gathered_decommitment_matches_tree_decommitment() {
    let values: Vec<MetalSecureFieldValueV1> = (0..256).map(value).collect();
    let layers = tree(&values);
    let first_layer = MetalFriFirstLayer::new(8, values.clone());
    let queries = [0usize, 3, 7, 15, 42, 100, 200, 255];
    let plans = stwo_metal::decommit::compute_decommit_plan(&queries, layers.len());
    let per_layer = stwo_metal::decommit::decommit_layer_indices(&plans, layers.len());
    let gathered = gather_words(&layers, &per_layer);
    let (witness, nodes) = stwo_metal::decommit::assemble_decommitment(&plans, layers.len(), &gathered);
    let (tree_witness, tree_nodes) = first_layer.decommit_merkle(&queries);
    assert_eq!(witness, tree_witness);
    assert_eq!(nodes, tree_nodes);
}

#[test]
fn gathered_decommitment_matches_tree_for_adjacent_queries() {
    let values: Vec<MetalSecureFieldValueV1> = (0..64).map(value).collect();
    let layers = tree(&values);
    let first_layer = MetalFriFirstLayer::new(6, values.clone());
    let queries = [0usize, 1, 4, 5, 10, 63];
    let plans = stwo_metal::decommit::compute_decommit_plan(&queries, layers.len());
    let per_layer = stwo_metal::decommit::decommit_layer_indices(&plans, layers.len());
    let gathered = gather_words(&layers, &per_layer);
    let (witness, nodes) = stwo_metal::decommit::assemble_decommitment(&plans, layers.len(), &gathered);
    assert_eq!((witness, nodes), first_layer.decommit_merkle(&queries));
}

#[test]
fn tree_parents_hash_their_children() {
    let values: Vec<MetalSecureFieldValueV1> = (0..4).map(value).collect();
    let layers = tree(&values);
    let first_layer = MetalFriFirstLayer::new(2, values.clone());
    assert_eq!(first_layer.root(), node(layers[1][0], layers[1][1]));
    assert_eq!(layers[1][1], node(leaf(values[2]), leaf(values[3])));
}

#[test]
fn decommitment_node_values_are_the_tree_hashes() {
    let values: Vec<MetalSecureFieldValueV1> = (0..16).map(value).collect();
    let layers = tree(&values);
    let first_layer = MetalFriFirstLayer::new(4, values);
    let (_, nodes) = first_layer.decommit_merkle(&[2, 9, 9, 14]);
    for (p, layer_nodes) in nodes.iter().enumerate() {
        for &(index, hash) in layer_nodes {
            assert_eq!(hash, layers[4 - p][index]);
        }
    }
}

#[test]
fn line_evaluation_keeps_its_domain_and_values() {
    let values: Vec<MetalSecureFieldValueV1> = (0..4).map(value).collect();
    let evaluation = MetalLineEvaluation::new(2, values.clone());
    assert_eq!(evaluation.domain(), 2);
    assert_eq!(evaluation.len(), 4);
    assert_eq!(evaluation.values(), &values[..]);
}

#[test]
fn inner_layer_row_commits_to_its_evaluation() {
    let values: Vec<MetalSecureFieldValueV1> = (0..8).map(value).collect();
    let row = MetalFriInnerLayerRow::new(MetalLineEvaluation::new(3, values.clone()), 2);
    assert_eq!(row.fold_step(), 2);
    assert_eq!(row.root(), tree(&values)[0][0]);
    assert_eq!(row.commitment().layer_count(), 4);
    assert_eq!(row.evaluation().values(), &values[..]);
}

#[test]
fn inner_layers_fold_by_full_steps_then_the_rest() {
    assert_eq!(inner_layer_fold_steps(10, 3, 3), vec![3, 3, 1]);
    assert_eq!(inner_layer_fold_steps(10, 4, 3), vec![3, 3]);
    assert_eq!(inner_layer_fold_steps(6, 5, 2), vec![1]);
    assert_eq!(inner_layer_fold_steps(5, 5, 1), Vec::<u32>::new());
    let steps = inner_layer_fold_steps(20, 2, 4);
    assert_eq!(steps.iter().sum::<u32>(), 18);
    assert!(steps[..steps.len() - 1].iter().all(|&s| s == 4));
}
