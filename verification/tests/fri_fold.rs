use stwo_metal::fri_fold::{circle_fold_inverse_factors, fold_line_steps, line_fold_inverse_factors};
use stwo_metal::sampled_values::MetalSecureFieldValueV1;

type SecureField = stwo::core::fields::qm31::SecureField;

fn limbs(value: SecureField) -> MetalSecureFieldValueV1 {
    let [a, b, c, d] = value.to_m31_array();
    MetalSecureFieldValueV1 { limbs: [a.0, b.0, c.0, d.0] }
}

fn stwo_line_factors(log_size: u32) -> Vec<u32> {
    let domain = stwo::core::poly::line::LineDomain::new(stwo::core::circle::Coset::half_odds(log_size));
    (0..(1usize << (log_size - 1)))
        .map(|i| {
            let x = domain.at(stwo::core::utils::bit_reverse_index(i << 1, log_size));
            stwo::core::fields::FieldExpOps::inverse(&x).0
        })
        .collect()
}

#[test]
fn line_fold_factors_match_stwo() {
    for log_size in 1..=6u32 {
        assert_eq!(line_fold_inverse_factors(log_size), stwo_line_factors(log_size));
    }
}

#[test]
fn circle_fold_factors_match_stwo() {
    for log_size in 1..=6u32 {
        let domain = stwo::core::poly::circle::CanonicCoset::new(log_size).circle_domain();
        let expected: Vec<u32> = (0..(1usize << (log_size - 1)))
            .map(|i| {
                let y = domain.at(stwo::core::utils::bit_reverse_index(i << 1, log_size)).y;
                stwo::core::fields::FieldExpOps::inverse(&y).0
            })
            .collect();
        assert_eq!(circle_fold_inverse_factors(log_size), expected);
    }
}

#[test]
fn fold_line_steps_halve_the_domain_and_square_alpha() {
    let alpha = SecureField::from_u32_unchecked(3, 5, 7, 11);
    let steps = fold_line_steps(5, limbs(alpha), 3);
    assert_eq!(steps.len(), 3);
    assert_eq!(steps[0].alpha, limbs(alpha));
    assert_eq!(steps[1].alpha, limbs(alpha * alpha));
    assert_eq!(steps[2].alpha, limbs(alpha * alpha * alpha * alpha));
    assert_eq!(steps[0].inverse_x_factors, stwo_line_factors(5));
    assert_eq!(steps[1].inverse_x_factors, stwo_line_factors(4));
    assert_eq!(steps[2].inverse_x_factors, stwo_line_factors(3));
    assert_eq!(steps[2].inverse_x_factors.len(), 4);
}
