use std::mem::{align_of, size_of};

type Blake2sChannel = stwo::core::channel::Blake2sChannel;
type CirclePoint<F> = stwo::core::circle::CirclePoint<F>;
type BaseField = stwo::core::fields::m31::BaseField;
type SecureField = stwo::core::fields::qm31::SecureField;

use stwo_metal::capability::MetalRuntimeSupport;
use stwo_metal::field_ops::MetalSecureCirclePointV1;
use stwo_metal::sampled_values::{
    interpret_metal_sampled_values_v1_reference, lower_metal_sampled_values_v1,
    select_metal_sampled_values_dispatch_v1, validate_sampled_values_abi_layout_v1,
    MetalSampledValuesColumnDescV1, MetalSampledValuesDispatchKindV1,
    MetalSampledValuesExecutionError, MetalSampledValuesHeaderV1, MetalSampledValuesTreeDescV1,
    MetalSampledValuesValidationError, MetalSecureFieldValueV1, OwnedMetalSampledValuesV1,
    STWO_METAL_SAMPLED_VALUES_MAGIC_V1,
};

fn limbs(value: SecureField) -> MetalSecureFieldValueV1 {
    MetalSecureFieldValueV1 { limbs: value.to_m31_array().map(|limb| limb.0) }
}

fn qm(a: u32, b: u32, c: u32, d: u32) -> SecureField {
    SecureField::from_u32_unchecked(a, b, c, d)
}

fn lower_tree(trees: &[Vec<Vec<SecureField>>]) -> Vec<Vec<Vec<MetalSecureFieldValueV1>>> {
    trees
        .iter()
        .map(|tree| tree.iter().map(|column| column.iter().copied().map(limbs).collect()).collect())
        .collect()
}

fn post_composition_values() -> Vec<Vec<Vec<SecureField>>> {
    vec![
        vec![vec![qm(99, 98, 97, 96)]],
        vec![
            vec![qm(1, 2, 3, 4)],
            vec![qm(5, 6, 7, 8)],
            vec![qm(9, 10, 11, 12)],
            vec![qm(13, 14, 15, 16)],
            vec![qm(17, 18, 19, 20)],
            vec![qm(21, 22, 23, 24)],
            vec![qm(25, 26, 27, 28)],
            vec![qm(29, 30, 31, 32)],
        ],
    ]
}

fn image_with_header(image: &OwnedMetalSampledValuesV1, header: MetalSampledValuesHeaderV1) -> OwnedMetalSampledValuesV1 {
    OwnedMetalSampledValuesV1::from_parts(
        header,
        image.tree_descs().to_vec(),
        image.column_descs().to_vec(),
        image.values().to_vec(),
    )
}

#[test]
fn sampled_values_v1_roundtrip_preserves_tree_order() {
    let sampled_values = vec![
        vec![vec![]],
        vec![vec![qm(1, 2, 3, 4)], vec![qm(5, 6, 7, 8), qm(9, 10, 11, 12)]],
        vec![vec![qm(13, 14, 15, 16)]],
    ];
    let plain = lower_tree(&sampled_values);
    let lowered = lower_metal_sampled_values_v1(&plain).unwrap();
    let restored = lowered.clone().into_tree_vec().unwrap();
    assert_eq!(restored, plain);
    assert_eq!(lowered.header().magic, STWO_METAL_SAMPLED_VALUES_MAGIC_V1);
}

#[test]
fn sampled_values_v1_lowering_lays_out_tables() {
    let plain = lower_tree(&[
        vec![vec![]],
        vec![vec![qm(1, 2, 3, 4)], vec![qm(5, 6, 7, 8), qm(9, 10, 11, 12)]],
    ]);
    let lowered = lower_metal_sampled_values_v1(&plain).unwrap();
    assert_eq!((lowered.header().n_trees, lowered.header().n_columns, lowered.header().n_values), (2, 3, 3));
    assert_eq!(
        lowered.tree_descs(),
        &[MetalSampledValuesTreeDescV1::new(0, 1), MetalSampledValuesTreeDescV1::new(1, 2)]
    );
    assert_eq!(
        lowered.column_descs(),
        &[
            MetalSampledValuesColumnDescV1::new(0, 0),
            MetalSampledValuesColumnDescV1::new(0, 1),
            MetalSampledValuesColumnDescV1::new(1, 2),
        ]
    );
    assert_eq!(lowered.tree_desc_words(), vec![0, 1, 1, 2]);
    assert_eq!(lowered.column_desc_words(), vec![0, 0, 0, 1, 1, 2]);
    assert_eq!(lowered.value_words(), vec![1, 2, 3, 4, 5, 6, 7, 8, 9, 10, 11, 12]);
}

#[test]
fn sampled_values_v1_validation_rejects_count_drift() {
    let sampled_values = lower_tree(&[vec![vec![SecureField::from(BaseField::from_u32_unchecked(1))]]]);
    let lowered = lower_metal_sampled_values_v1(&sampled_values).unwrap();
    let mut header = lowered.header();
    header.n_values += 1;
    let drifted = image_with_header(&lowered, header);
    assert_eq!(
        drifted.validate(),
        Err(MetalSampledValuesValidationError::ValueCountMismatch { expected: 2, actual: 1 })
    );
    assert_eq!(
        drifted.into_tree_vec(),
        Err(MetalSampledValuesValidationError::ValueCountMismatch { expected: 2, actual: 1 })
    );
}

#[test]
fn sampled_values_v1_validation_rejects_ranges() {
    let header = MetalSampledValuesHeaderV1::new(1, 1, 1);
    let value = MetalSecureFieldValueV1 { limbs: [1, 0, 0, 0] };
    let image = OwnedMetalSampledValuesV1::from_parts(
        header,
        vec![MetalSampledValuesTreeDescV1::new(0, 2)],
        vec![MetalSampledValuesColumnDescV1::new(0, 1)],
        vec![value],
    );
    assert_eq!(
        image.validate(),
        Err(MetalSampledValuesValidationError::TreeColumnRangeOutOfBounds { tree_index: 0, end_column: 2, n_columns: 1 })
    );
    let image = OwnedMetalSampledValuesV1::from_parts(
        header,
        vec![MetalSampledValuesTreeDescV1::new(u32::MAX, 1)],
        vec![MetalSampledValuesColumnDescV1::new(0, 1)],
        vec![value],
    );
    assert_eq!(image.validate(), Err(MetalSampledValuesValidationError::TreeRangeOverflow { tree_index: 0 }));
    let image = OwnedMetalSampledValuesV1::from_parts(
        header,
        vec![MetalSampledValuesTreeDescV1::new(0, 1)],
        vec![MetalSampledValuesColumnDescV1::new(1, 1)],
        vec![value],
    );
    assert_eq!(
        image.validate(),
        Err(MetalSampledValuesValidationError::ColumnValueRangeOutOfBounds { column_index: 0, end_value: 2, n_values: 1 })
    );
    let mut bad_magic = header;
    bad_magic.magic = 0;
    let image = OwnedMetalSampledValuesV1::from_parts(
        bad_magic,
        vec![MetalSampledValuesTreeDescV1::new(0, 1)],
        vec![MetalSampledValuesColumnDescV1::new(0, 1)],
        vec![value],
    );
    assert_eq!(image.validate(), Err(MetalSampledValuesValidationError::MagicMismatch { actual: 0 }));
}

#[test]
fn sampled_values_v1_reference_lane_matches_wide_fibonacci_post_composition_formula() {
    let sampled_values = post_composition_values();
    let lowered = lower_metal_sampled_values_v1(&lower_tree(&sampled_values)).unwrap();
    let point = CirclePoint::<SecureField>::get_random_point(&mut Blake2sChannel::default());
    let max_log_degree_bound = 6;
    let plain_point = MetalSecureCirclePointV1 { x: limbs(point.x), y: limbs(point.y) };

    let value = interpret_metal_sampled_values_v1_reference(plain_point, &lowered, max_log_degree_bound).unwrap();
    let expected = {
        let left = SecureField::from_partial_evals([qm(1, 2, 3, 4), qm(5, 6, 7, 8), qm(9, 10, 11, 12), qm(13, 14, 15, 16)]);
        let right =
            SecureField::from_partial_evals([qm(17, 18, 19, 20), qm(21, 22, 23, 24), qm(25, 26, 27, 28), qm(29, 30, 31, 32)]);
        left + point.repeated_double(max_log_degree_bound - 1).x * right
    };
    assert_eq!(value, limbs(expected));
}

#[test]
fn sampled_values_v1_dispatch_follows_runtime_support() {
    let lowered = lower_metal_sampled_values_v1(&lower_tree(&post_composition_values())).unwrap();
    assert_eq!(
        select_metal_sampled_values_dispatch_v1(&lowered, MetalRuntimeSupport::Available),
        Ok(MetalSampledValuesDispatchKindV1::GeneratedOverlayWideFibonacci)
    );
    assert_eq!(
        select_metal_sampled_values_dispatch_v1(&lowered, MetalRuntimeSupport::DisabledByConfiguration),
        Ok(MetalSampledValuesDispatchKindV1::ReferenceInterpreter)
    );
}

#[test]
fn sampled_values_v1_shape_errors_name_the_offending_column() {
    let empty = lower_metal_sampled_values_v1(&vec![]).unwrap();
    assert_eq!(
        select_metal_sampled_values_dispatch_v1(&empty, MetalRuntimeSupport::Available),
        Err(MetalSampledValuesExecutionError::UnsupportedShape {
            message: "sampled-values ABI requires at least one tree".to_owned(),
        })
    );
    let short = lower_metal_sampled_values_v1(&lower_tree(&[vec![vec![qm(1, 0, 0, 0)]; 3]])).unwrap();
    assert_eq!(
        select_metal_sampled_values_dispatch_v1(&short, MetalRuntimeSupport::Available),
        Err(MetalSampledValuesExecutionError::UnsupportedShape {
            message: "wide-fibonacci post-composition lane expects 8 columns in the last tree, got 3".to_owned(),
        })
    );
    let mut values = post_composition_values();
    values[1][5].push(qm(7, 7, 7, 7));
    let multi = lower_metal_sampled_values_v1(&lower_tree(&values)).unwrap();
    assert_eq!(
        select_metal_sampled_values_dispatch_v1(&multi, MetalRuntimeSupport::Available),
        Err(MetalSampledValuesExecutionError::UnsupportedShape {
            message: "wide-fibonacci post-composition lane expects exactly one sampled value per final-tree column; column 6 had 2"
                .to_owned(),
        })
    );
}

#[test]
fn sampled_values_abi_layout_v1_passes() {
    validate_sampled_values_abi_layout_v1().unwrap();
    assert_eq!(size_of::<MetalSampledValuesHeaderV1>(), 36);
    assert_eq!(align_of::<MetalSampledValuesHeaderV1>(), 4);
}
