use vstd::prelude::*;


verus! {

/// The Mersenne-31 base field element of stwo, carried opaquely.
#[verifier::external_type_specification]
#[verifier::external_body]
pub struct ExM31(stwo::core::fields::m31::M31);

/// The number of points of the circle group over the Mersenne-31 field;
/// circle point indices are taken modulo it.
pub const CIRCLE_ORDER: u64 = 0x8000_0000;

/// A circle evaluation domain `+-C + <G_n>`, by the point indices of its half
/// coset `C + <G_n>`: the index of `C`, the index of the step `G_n`, and the
/// half coset's log size.
#[derive(Copy, Clone, Debug, PartialEq, Eq)]
pub struct MetalCircleDomain {
    pub half_coset_initial_index: usize,
    pub half_coset_step_size: usize,
    pub half_coset_log_size: u32,
}

/// A domain is canonic when four times the index of its first point, taken
/// modulo the circle order, is its step: its points are then the whole of
/// `G_2n + <G_n>`.
pub open spec fn spec_is_canonic(domain: MetalCircleDomain) -> bool {
    (domain.half_coset_initial_index as int * 4) % (CIRCLE_ORDER as int) == domain.half_coset_step_size as int
}

impl MetalCircleDomain {
    /// Whether the domain is canonic.
    pub fn is_canonic(&self) -> (r: bool)
        ensures
            r == spec_is_canonic(*self),
    {
        let i = self.half_coset_initial_index as u64;
        let quadrupled = ((i % CIRCLE_ORDER) * 4) % CIRCLE_ORDER;
        proof {
            vstd::arithmetic::div_mod::lemma_mul_mod_noop_left(i as int, 4, CIRCLE_ORDER as int);
        }
        quadrupled == self.half_coset_step_size as u64
    }
}

} // verus!
