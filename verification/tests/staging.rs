type BaseField = stwo::core::fields::m31::BaseField;
type SecureField = stwo::core::fields::qm31::SecureField;
type SecurePoint = stwo::core::circle::CirclePoint<SecureField>;

use stwo_metal::decommit::{
    assemble_decommitment, compute_decommit_plan, compute_first_layer_positions_and_witness, decode_hash_words,
    decommit_layer_indices, layer_word_offsets, query_read_indices,
};
use stwo_metal::field_ops::{folding_mappings, MetalSecureCirclePointV1};
use stwo_metal::interaction_trace::{
    call_opcode_rel_imm_logup_layout, jnz_opcode_taken_logup_layout, jump_opcode_rel_imm_logup_layout,
    opcode_interaction_trace_builder, ret_opcode_logup_layout, ColumnDescriptor, REL_OPCODES,
    big_memory_relation_ids, extract_lookup_elements_for_gpu, finalize_last_logup_column, inclusive_prefix_sum,
    opcode_alpha_powers, shift_last_logup_column, GenericInteractionTraceBuilder,
    small_memory_relation_ids, split_device_columns, stage_columns_zero_padded, InteractionLookupElements,
    InteractionRelationIds,
};
use stwo_metal::prove_runtime::{
    component_eval_domain_log_size, component_random_coeff_powers, composition_random_coeff_powers,
    divide_rows_by_denominators, generate_secure_powers, usize_trailing_zeros,
};
use stwo_metal::quotient_staging::{
    complex_conjugate_line_coeffs, floor_log2, quotient_domain_coords, stage_partial_numerator_terms,
    stage_quotient_combine, MetalColumnSampleBatchV1, MetalNumeratorDataV1, MetalQuotientAccumulationV1,
};
use stwo_metal::sampled_values::MetalSecureFieldValueV1;

const P: u64 = 2147483647;

fn limbs(value: SecureField) -> MetalSecureFieldValueV1 {
    let [a, b, c, d] = value.to_m31_array();
    MetalSecureFieldValueV1 { limbs: [a.0, b.0, c.0, d.0] }
}

fn qm31(a: u32, b: u32, c: u32, d: u32) -> SecureField {
    SecureField::from_u32_unchecked(a, b, c, d)
}

fn point(x: SecureField, y: SecureField) -> MetalSecureCirclePointV1 {
    MetalSecureCirclePointV1 { x: limbs(x), y: limbs(y) }
}

#[test]
fn line_coefficients_match_stwo() {
    let x = qm31(3, 1, 4, 1);
    let y = qm31(5, 9, 2, 6);
    let value = qm31(7, 11, 13, 17);
    let alpha = qm31(19, 23, 29, 31);
    let sample = stwo::core::pcs::quotients::PointSample { point: SecurePoint { x, y }, value };
    let (a, b, c) = stwo::core::constraints::complex_conjugate_line_coeffs(&sample, alpha);
    let ours = complex_conjugate_line_coeffs(&point(x, y), limbs(value), limbs(alpha));
    assert_eq!(ours, (limbs(a), limbs(b), limbs(c)));
}

#[test]
fn partial_numerator_terms_are_staged_per_batch() {
    let p1 = point(qm31(1, 2, 3, 4), qm31(5, 6, 7, 8));
    let p2 = point(qm31(9, 10, 11, 12), qm31(13, 14, 15, 16));
    let term = |column_index: usize, v: u32| MetalNumeratorDataV1 {
        column_index,
        sample_value: limbs(qm31(v, v + 1, v + 2, v + 3)),
        random_coeff: limbs(qm31(v + 4, 1, 0, 2)),
    };
    let batches = [
        MetalColumnSampleBatchV1 { point: p1, cols_vals_randpows: vec![term(0, 20), term(3, 30)] },
        MetalColumnSampleBatchV1 { point: p2, cols_vals_randpows: vec![term(1, 40)] },
    ];
    let staged = stage_partial_numerator_terms(&batches);
    assert_eq!(staged.column_indices, vec![0, 3, 1]);
    assert_eq!(staged.term_offsets, vec![0, 2]);
    assert_eq!(staged.term_counts, vec![2, 1]);
    let c00 = complex_conjugate_line_coeffs(&p1, term(0, 20).sample_value, term(0, 20).random_coeff);
    let c01 = complex_conjugate_line_coeffs(&p1, term(3, 30).sample_value, term(3, 30).random_coeff);
    let c10 = complex_conjugate_line_coeffs(&p2, term(1, 40).sample_value, term(1, 40).random_coeff);
    let mut b = Vec::new();
    b.extend_from_slice(&c00.1.limbs);
    b.extend_from_slice(&c01.1.limbs);
    b.extend_from_slice(&c10.1.limbs);
    assert_eq!(staged.b_coeffs, b);
    assert_eq!(staged.c_coeffs[8..12], c10.2.limbs);
    let to_qm = |v: MetalSecureFieldValueV1| qm31(v.limbs[0], v.limbs[1], v.limbs[2], v.limbs[3]);
    assert_eq!(staged.first_linear_terms[0], limbs(to_qm(c00.0) + to_qm(c01.0)));
    assert_eq!(staged.first_linear_terms[1], c10.0);
}

#[test]
fn quotient_combination_is_staged_with_offsets_and_log_sizes() {
    let acc = |len: usize, v: u32| MetalQuotientAccumulationV1 {
        partial_len: len,
        sample_point: point(qm31(v, 0, 0, 0), qm31(0, v, 0, 0)),
        first_linear_term: limbs(qm31(v, v, v, v)),
    };
    let layout = stage_quotient_combine(&[acc(8, 1), acc(4, 2), acc(16, 3)]);
    assert_eq!(layout.total_partial_len, 28);
    assert_eq!(layout.partial_offsets, vec![0, 8, 12]);
    assert_eq!(layout.partial_log_sizes, vec![3, 2, 4]);
    assert_eq!(layout.sample_points[..8], [1, 0, 0, 0, 0, 1, 0, 0]);
    assert_eq!(layout.first_linear_terms[4..8], [2, 2, 2, 2]);
    assert_eq!(floor_log2(1), 0);
    assert_eq!(floor_log2(1023), 9);
    assert_eq!(floor_log2(usize::MAX), usize::BITS - 1);
}

#[test]
fn quotient_domain_coordinates_follow_bit_reversed_canonic_domain() {
    let (xs, ys) = quotient_domain_coords(3);
    let domain = stwo::core::poly::circle::CanonicCoset::new(3).circle_domain();
    assert_eq!(xs.len(), 8);
    for row in 0..8 {
        let p = domain.at(stwo::core::utils::bit_reverse_index(row, 3));
        assert_eq!((xs[row], ys[row]), (p.x.0, p.y.0));
    }
}

#[test]
fn last_logup_column_is_shifted_to_sum_zero() {
    let rows = 16usize;
    let coords: [Vec<u32>; 4] = std::array::from_fn(|c| (0..rows as u32).map(|r| r * (c as u32 + 1) + 7).collect());
    let (shifted, claimed) = shift_last_logup_column(&coords, 4);
    for c in 0..4 {
        let expected: u64 = coords[c].iter().map(|&v| v as u64).sum::<u64>() % P;
        assert_eq!(claimed.limbs[c] as u64, expected);
        let sum: u64 = shifted[c].iter().map(|&v| v as u64).sum::<u64>() % P;
        assert_eq!(sum, 0);
    }
    let claimed_field = qm31(claimed.limbs[0], claimed.limbs[1], claimed.limbs[2], claimed.limbs[3]);
    let shift = claimed_field / BaseField::from_u32_unchecked(16);
    let shift_limbs = limbs(shift);
    assert_eq!(shifted[2][3], ((coords[2][3] as u64 + P - shift_limbs.limbs[2] as u64) % P) as u32);
}

#[test]
fn memory_trace_inputs_are_staged_column_major() {
    let ids = InteractionRelationIds { range_check_9_9_ids: [1, 2, 3, 4, 5, 6, 7, 8], memory_id_to_big_id: 9 };
    assert_eq!(big_memory_relation_ids(&ids), [1, 2, 3, 4, 5, 6, 7, 8, 9]);
    assert_eq!(small_memory_relation_ids(&ids), [1, 2, 3, 4, 9]);
    let staged = stage_columns_zero_padded(&[vec![1, 2, 3], vec![4]], 3);
    assert_eq!(staged, vec![1, 2, 3, 4, 0, 0]);
    let split = split_device_columns(&[1, 2, 3, 4, 5, 6, 7], 3, 2);
    assert_eq!(split, vec![vec![1, 2, 3], vec![4, 5, 6]]);
}

#[test]
fn lookup_elements_are_extracted_and_uploaded_in_order() {
    let z = limbs(qm31(1, 2, 3, 4));
    let powers = [limbs(qm31(5, 6, 7, 8)), limbs(qm31(9, 10, 11, 12))];
    let lookup = extract_lookup_elements_for_gpu(z, &powers);
    assert_eq!(lookup, InteractionLookupElements { alpha_powers: vec![[5, 6, 7, 8], [9, 10, 11, 12]], z: [1, 2, 3, 4] });
    assert_eq!(opcode_alpha_powers(&lookup, 1), vec![5, 6, 7, 8]);
    assert_eq!(opcode_alpha_powers(&lookup, 5), vec![5, 6, 7, 8, 9, 10, 11, 12]);
}

#[test]
fn secure_powers_match_repeated_multiplication() {
    let felt = qm31(2, 3, 5, 7);
    let powers = generate_secure_powers(limbs(felt), 5);
    let mut acc = qm31(1, 0, 0, 0);
    for p in &powers {
        assert_eq!(*p, limbs(acc));
        acc *= felt;
    }
    let reversed = composition_random_coeff_powers(limbs(felt), 5);
    assert_eq!(reversed, powers.iter().rev().copied().collect::<Vec<_>>());
    let split = component_random_coeff_powers(limbs(felt), &[2, 0, 3]);
    assert_eq!(split, vec![reversed[0..2].to_vec(), vec![], reversed[2..5].to_vec()]);
}

#[test]
fn composition_rows_are_divided_by_the_trace_vanishing_polynomial() {
    let log_n_rows = 3u32;
    let trace_coset = stwo::core::poly::circle::CanonicCoset::new(log_n_rows).coset();
    let eval_domain = stwo::core::poly::circle::CanonicCoset::new(log_n_rows + 1).circle_domain();
    let rows: Vec<MetalSecureFieldValueV1> = (0..16u32).map(|i| limbs(qm31(i + 1, 2 * i, 3, i))).collect();
    let divided = divide_rows_by_denominators(&rows, log_n_rows, log_n_rows + 1);
    let mut inverses: Vec<BaseField> = (0..2)
        .map(|i| stwo::core::fields::FieldExpOps::inverse(&stwo::core::constraints::coset_vanishing(trace_coset, eval_domain.at(i))))
        .collect();
    stwo::core::utils::bit_reverse(&mut inverses);
    for (i, row) in rows.iter().enumerate() {
        let value = qm31(row.limbs[0], row.limbs[1], row.limbs[2], row.limbs[3]);
        assert_eq!(divided[i], limbs(value * inverses[i >> log_n_rows]));
    }
    assert_ne!(divided[0], rows[0]);
    let wider = divide_rows_by_denominators(&rows, 2, 4);
    assert_eq!(wider.len(), 16);
}

#[test]
fn component_eval_domain_size_comes_from_the_first_column() {
    let col = [0u32; 32];
    let pre = [0u32; 8];
    let cols: [&[u32]; 1] = [&col];
    let pres: [&[u32]; 1] = [&pre];
    let with_trace: [&[&[u32]]; 2] = [&[], &cols];
    let without_trace: [&[&[u32]]; 1] = [&[]];
    assert_eq!(component_eval_domain_log_size(&with_trace, &pres, 3, 1), 5);
    assert_eq!(component_eval_domain_log_size(&without_trace, &pres, 3, 1), 3);
    assert_eq!(component_eval_domain_log_size(&[], &[], 3, 1), 5);
    assert_eq!(usize_trailing_zeros(0), usize::BITS);
    assert_eq!(usize_trailing_zeros(12), 2);
}

#[test]
fn folding_mappings_double_the_x_coordinate() {
    let x = qm31(3, 1, 4, 1);
    let y = qm31(5, 9, 2, 6);
    let mappings = folding_mappings(point(x, y), 4);
    let dx = stwo::core::circle::CirclePoint::double_x(x);
    let ddx = stwo::core::circle::CirclePoint::double_x(dx);
    assert_eq!(mappings, vec![limbs(ddx), limbs(dx), limbs(x), limbs(y)]);
    assert_eq!(folding_mappings(point(x, y), 0), vec![limbs(y)]);
}

#[test]
fn decommit_plan_reads_siblings_of_lone_queries() {
    let plans = compute_decommit_plan(&[0, 1, 5, 5, 6], 4);
    assert_eq!(plans.len(), 3);
    assert_eq!(plans[0].gather_indices, vec![0, 1, 4, 4, 5, 7, 6, 7]);
    assert_eq!(plans[0].chunk_plan, vec![(false, 0), (true, 2), (true, 3)]);
    assert_eq!(plans[1].gather_indices, vec![1, 0, 1, 2, 3]);
    assert_eq!(plans[1].chunk_plan, vec![(true, 0), (false, 1)]);
    assert_eq!(plans[2].gather_indices, vec![0, 1]);
    assert_eq!(plans[2].chunk_plan, vec![(false, 0)]);
    assert!(compute_decommit_plan(&[3], 0).is_empty());
    assert!(compute_decommit_plan(&[3], 1).is_empty());
}

#[test]
fn hash_words_decode_little_endian() {
    let words = [0x04030201u32, 0x08070605, 0, 0, 0, 0, 0, 0xffeeddcc];
    let bytes = decode_hash_words(&words);
    assert_eq!(bytes[..8], [1, 2, 3, 4, 5, 6, 7, 8]);
    assert_eq!(bytes[28..], [0xcc, 0xdd, 0xee, 0xff]);
}

#[test]
fn first_layer_decommitment_reads_whole_pairs() {
    let values: Vec<MetalSecureFieldValueV1> = (0..8u32).map(|i| MetalSecureFieldValueV1 { limbs: [i, 0, 0, 0] }).collect();
    let (positions, witness, map) = compute_first_layer_positions_and_witness(&values, &[1, 4, 5, 6]);
    assert_eq!(positions, vec![0, 1, 4, 5, 6, 7]);
    assert_eq!(witness, vec![values[0], values[7]]);
    assert_eq!(map.len(), 6);
    assert_eq!(map[2], (4, values[4]));
}

fn node_hash_words(layer: u32, node: u32) -> Vec<u32> {
    (0..8u32).map(|j| layer * 1000 + node * 10 + j).collect()
}

fn node_hash(layer: u32, node: u32) -> [u8; 32] {
    let mut bytes = [0u8; 32];
    for (j, w) in node_hash_words(layer, node).iter().enumerate() {
        bytes[4 * j..4 * j + 4].copy_from_slice(&w.to_le_bytes());
    }
    bytes
}

#[test]
fn queried_columns_read_scaled_positions() {
    assert_eq!(query_read_indices(&[0, 3, 7, 15, 42], 1), vec![0, 1, 3, 7, 20]);
    assert_eq!(query_read_indices(&[0, 3, 7, 15, 42], 0), vec![0, 3, 7, 15, 42]);
    assert!(query_read_indices(&[], 4).is_empty());
}

#[test]
fn layer_gathers_are_indexed_from_the_root_down() {
    let plans = compute_decommit_plan(&[1], 3);
    let per_layer = decommit_layer_indices(&plans, 3);
    assert_eq!(per_layer, vec![vec![], vec![1, 0, 1], vec![0, 0, 1]]);
    assert_eq!(layer_word_offsets(&per_layer), vec![0, 0, 24]);
}

#[test]
fn decommitment_is_assembled_from_gathered_words() {
    let plans = compute_decommit_plan(&[1], 3);
    let per_layer = decommit_layer_indices(&plans, 3);
    let mut gathered = Vec::new();
    for (layer, indices) in per_layer.iter().enumerate() {
        for &i in indices {
            gathered.extend(node_hash_words(layer as u32, i));
        }
    }
    let (witness, nodes) = assemble_decommitment(&plans, 3, &gathered);
    assert_eq!(witness, vec![node_hash(2, 0), node_hash(1, 1)]);
    assert_eq!(nodes.len(), 2);
    assert_eq!(nodes[0], vec![(0, node_hash(2, 0)), (1, node_hash(2, 1))]);
    assert_eq!(nodes[1], vec![(0, node_hash(1, 0)), (1, node_hash(1, 1))]);
}

#[test]
fn paired_queries_need_no_sibling_in_the_witness() {
    let plans = compute_decommit_plan(&[0, 1, 4, 5, 10, 63], 7);
    let per_layer = decommit_layer_indices(&plans, 7);
    let mut gathered = Vec::new();
    for (layer, indices) in per_layer.iter().enumerate() {
        for &i in indices {
            gathered.extend(node_hash_words(layer as u32, i));
        }
    }
    let (witness, nodes) = assemble_decommitment(&plans, 7, &gathered);
    assert_eq!(witness[..2], [node_hash(6, 11), node_hash(6, 62)]);
    assert_eq!(nodes[0][..4], [(0, node_hash(6, 0)), (1, node_hash(6, 1)), (4, node_hash(6, 4)), (5, node_hash(6, 5))]);
    assert_eq!(nodes.len(), 6);
}

#[test]
fn opcode_layouts_become_descriptors_past_each_relation_id() {
    let (n_fields, layouts) = ret_opcode_logup_layout();
    assert_eq!(n_fields, 82);
    let fields: Vec<Vec<u32>> = (0..n_fields as u32).map(|f| vec![f, f + 1000]).collect();
    let builder = opcode_interaction_trace_builder(fields.clone(), &layouts);
    assert_eq!(builder.n_logup_cols(), 4);
    let descriptors = builder.flat_descriptors();
    assert_eq!(
        descriptors[..8],
        ColumnDescriptor {
            values0_offset: 1,
            values0_count: 7,
            values1_offset: 9,
            values1_count: 2,
            relation_id0: 1719106205,
            relation_id1: 1444891767,
            numerator_type: 0,
            weight_offset: 0,
        }
        .to_u32_array()
    );
    assert_eq!(descriptors[24..], [79, 3, 0, 0, REL_OPCODES, 0, 3, 0]);
    assert_eq!(builder.flat_values(2)[..4], [0, 1000, 1, 1001]);
}

#[test]
fn opcode_layouts_read_their_own_fields() {
    for (n_fields, layouts) in [
        ret_opcode_logup_layout(),
        jump_opcode_rel_imm_logup_layout(),
        jnz_opcode_taken_logup_layout(),
        call_opcode_rel_imm_logup_layout(),
    ] {
        let last = layouts.last().unwrap();
        assert_eq!(last.values0_start + last.values0_count, n_fields);
    }
    assert_eq!(jnz_opcode_taken_logup_layout(), ret_opcode_logup_layout());
}

/// The running sum in coset order of a column given in bit-reversed
/// circle-domain order, written back in that order, built from stwo's
/// order conversions.
fn reference_prefix_sum(column: &[u32]) -> Vec<u32> {
    let n = column.len();
    let mut circle: Vec<u32> = column.to_vec();
    stwo::core::utils::bit_reverse(&mut circle);
    let mut coset = Vec::with_capacity(n);
    for i in 0..n / 2 {
        coset.push(circle[i]);
        coset.push(circle[n - 1 - i]);
    }
    let mut acc: u64 = 0;
    let sums: Vec<BaseField> = coset
        .iter()
        .map(|&v| {
            acc = (acc + v as u64) % P;
            BaseField::from_u32_unchecked(acc as u32)
        })
        .collect();
    let mut back = stwo::core::utils::coset_order_to_circle_domain_order(&sums);
    stwo::core::utils::bit_reverse(&mut back);
    back.iter().map(|v| v.0).collect()
}

#[test]
fn prefix_sum_of_two_rows() {
    assert_eq!(inclusive_prefix_sum(&vec![5, 9], 1), vec![5, 14]);
}

#[test]
fn prefix_sum_runs_in_coset_order() {
    assert_eq!(inclusive_prefix_sum(&vec![1, 2, 3, 4], 2), vec![1, 10, 8, 5]);
    let wrap = vec![2147483646, 3, 0, 0];
    assert_eq!(inclusive_prefix_sum(&wrap, 2), vec![2147483646, 2, 2147483646, 2147483646]);
}

#[test]
fn prefix_sum_matches_stwo_order_conversions() {
    for log_size in 1..=6u32 {
        let n = 1usize << log_size;
        let column: Vec<u32> = (0..n as u32).map(|i| (i * 7919 + 13) % 2147483647).collect();
        assert_eq!(inclusive_prefix_sum(&column, log_size), reference_prefix_sum(&column));
    }
}

#[test]
fn finalized_last_logup_column_ends_at_zero() {
    let rows = 8usize;
    let coords: [Vec<u32>; 4] = std::array::from_fn(|c| (0..rows as u32).map(|r| r * (c as u32 + 3) + 1).collect());
    let (columns, claimed) = finalize_last_logup_column(&coords, 3);
    let (shifted, claimed_shift) = shift_last_logup_column(&coords, 3);
    assert_eq!(claimed, claimed_shift);
    for c in 0..4 {
        assert_eq!(columns[c], reference_prefix_sum(&shifted[c]));
        // The last coset position holds the whole sum, which the shift made zero;
        // it sits at circle index n / 2, bit-reversed to row 1.
        assert_eq!(columns[c][1], 0);
    }
}

#[test]
fn builder_indices_count_value_columns_and_logup_count_counts_descriptors() {
    let mut builder = GenericInteractionTraceBuilder::new();
    assert_eq!(builder.n_logup_cols(), 0);
    assert_eq!(builder.add_column(vec![1, 2]), 0);
    let desc = ColumnDescriptor {
        values0_offset: 0,
        values0_count: 1,
        values1_offset: 1,
        values1_count: 1,
        relation_id0: 7,
        relation_id1: 8,
        numerator_type: 0,
        weight_offset: 0,
    };
    builder.add_logup_column(desc);
    assert_eq!(builder.n_logup_cols(), 1);
    assert_eq!(builder.add_column(vec![3, 4]), 1);
    assert_eq!(builder.n_logup_cols(), 1);
    builder.add_logup_column(desc);
    assert_eq!(builder.add_column(vec![5, 6]), 2);
    assert_eq!(builder.n_logup_cols(), 2);
    assert_eq!(builder.flat_values(2), vec![1, 2, 3, 4, 5, 6]);
}
