type SecureField = stwo::core::fields::qm31::SecureField;

use stwo_metal::accumulation::{accumulate, lift_and_accumulate, metal_secure_column_from_values};
use stwo_metal::sampled_values::MetalSecureFieldValueV1;

fn limbs(value: SecureField) -> MetalSecureFieldValueV1 {
    let [a, b, c, d] = value.to_m31_array();
    MetalSecureFieldValueV1 { limbs: [a.0, b.0, c.0, d.0] }
}

fn qm31(a: u32, b: u32, c: u32, d: u32) -> SecureField {
    SecureField::from_u32_unchecked(a, b, c, d)
}

fn column(len: u32, seed: u32) -> Vec<SecureField> {
    (0..len).map(|i| qm31(seed * 1000 + i, 2147483646 - i, i * 7, seed)).collect()
}

/// Lifting as stwo's CPU backend does it, on field values.
fn lift_reference(cols: &[Vec<SecureField>]) -> Vec<SecureField> {
    let mut curr = vec![qm31(0, 0, 0, 0); 2];
    for col in cols {
        let log_ratio = col.len().ilog2() - curr.len().ilog2();
        curr = (0..col.len()).map(|i| col[i] + curr[(i >> (log_ratio + 1) << 1) + (i & 1)]).collect();
    }
    curr
}

#[test]
fn accumulate_adds_value_by_value() {
    let a = column(4, 1);
    let b = column(4, 2);
    let mut acc: Vec<MetalSecureFieldValueV1> = a.iter().map(|&v| limbs(v)).collect();
    let other: Vec<MetalSecureFieldValueV1> = b.iter().map(|&v| limbs(v)).collect();
    accumulate(&mut acc, &other);
    let expected: Vec<MetalSecureFieldValueV1> = a.iter().zip(b.iter()).map(|(&x, &y)| limbs(x + y)).collect();
    assert_eq!(acc, expected);
}

#[test]
fn lift_and_accumulate_of_no_column_is_none() {
    assert_eq!(lift_and_accumulate(vec![]), None);
}

#[test]
fn lift_and_accumulate_lifts_smaller_columns_onto_larger_ones() {
    let cols = vec![column(2, 1), column(4, 2), column(4, 3), column(16, 4)];
    let staged: Vec<Vec<MetalSecureFieldValueV1>> =
        cols.iter().map(|c| c.iter().map(|&v| limbs(v)).collect()).collect();
    let lifted = lift_and_accumulate(staged).unwrap();
    let expected: Vec<MetalSecureFieldValueV1> = lift_reference(&cols).iter().map(|&v| limbs(v)).collect();
    assert_eq!(lifted, expected);
    assert_eq!(lifted.len(), 16);
}

#[test]
fn a_single_column_is_lifted_onto_zero() {
    let cols = vec![column(8, 5)];
    let staged: Vec<Vec<MetalSecureFieldValueV1>> =
        cols.iter().map(|c| c.iter().map(|&v| limbs(v)).collect()).collect();
    let lifted = lift_and_accumulate(staged).unwrap();
    let expected: Vec<MetalSecureFieldValueV1> = cols[0].iter().map(|&v| limbs(v)).collect();
    assert_eq!(lifted, expected);
}

#[test]
fn secure_columns_are_split_into_coordinates() {
    let values = vec![
        MetalSecureFieldValueV1 { limbs: [1, 2, 3, 4] },
        MetalSecureFieldValueV1 { limbs: [5, 6, 7, 8] },
    ];
    let columns = metal_secure_column_from_values(&values);
    assert_eq!(columns, vec![vec![1, 5], vec![2, 6], vec![3, 7], vec![4, 8]]);
}
