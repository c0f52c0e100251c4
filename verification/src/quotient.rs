use vstd::prelude::*;
use vstd::string::StringExecFns;

use crate::sampled_values::MetalSecureFieldValueV1;
use crate::text::{decimal_chars, push_decimal};

verus! {

#[derive(Clone, Debug, PartialEq, Eq)]
pub enum MetalWideFibonacciQuotientError {
    NotEnoughTraceColumns { trace_columns: usize },
    InconsistentTraceColumnLength { expected_len: usize, actual_len: usize, column_index: usize },
    InvalidDomainLogSizes { domain_log_size: u32, eval_domain_log_size: u32 },
    RandomCoeffCountMismatch { expected_len: usize, actual_len: usize },
    DenominatorCountMismatch { expected_len: usize, actual_len: usize },
    Runtime { message: String },
}

/// The message that reports `e`.
pub open spec fn quotient_error_message(e: MetalWideFibonacciQuotientError) -> Seq<char> {
    match e {
        MetalWideFibonacciQuotientError::NotEnoughTraceColumns { trace_columns } =>
            "wide-fibonacci quotient accumulation requires at least three trace columns, got "@
                + decimal_chars(trace_columns as nat),
        MetalWideFibonacciQuotientError::InconsistentTraceColumnLength { expected_len, actual_len, column_index } =>
            "wide-fibonacci quotient accumulation requires equal trace column lengths of "@ + decimal_chars(
            expected_len as nat,
        ) + ", but column "@ + decimal_chars(column_index as nat) + " had length "@ + decimal_chars(
            actual_len as nat,
        ),
        MetalWideFibonacciQuotientError::InvalidDomainLogSizes { domain_log_size, eval_domain_log_size } =>
            "wide-fibonacci quotient accumulation requires eval_domain_log_size >= domain_log_size, got "@
                + decimal_chars(eval_domain_log_size as nat) + " < "@ + decimal_chars(domain_log_size as nat),
        MetalWideFibonacciQuotientError::RandomCoeffCountMismatch { expected_len, actual_len } =>
            "wide-fibonacci quotient accumulation requires "@ + decimal_chars(expected_len as nat)
                + " random coefficients, got "@ + decimal_chars(actual_len as nat),
        MetalWideFibonacciQuotientError::DenominatorCountMismatch { expected_len, actual_len } =>
            "wide-fibonacci quotient accumulation requires "@ + decimal_chars(expected_len as nat)
                + " denominator inverses, got "@ + decimal_chars(actual_len as nat),
        MetalWideFibonacciQuotientError::Runtime { message } => message@,
    }
}

impl MetalWideFibonacciQuotientError {
    /// The message that reports this error.
    pub fn to_message(&self) -> (r: String)
        ensures
            r@ == quotient_error_message(*self),
    {
        match self {
            MetalWideFibonacciQuotientError::NotEnoughTraceColumns { trace_columns } => {
                let mut m = String::from_str(
                    "wide-fibonacci quotient accumulation requires at least three trace columns, got ",
                );
                push_decimal(&mut m, *trace_columns as u64);
                m
            },
            MetalWideFibonacciQuotientError::InconsistentTraceColumnLength {
                expected_len,
                actual_len,
                column_index,
            } => {
                let mut m = String::from_str(
                    "wide-fibonacci quotient accumulation requires equal trace column lengths of ",
                );
                push_decimal(&mut m, *expected_len as u64);
                m.append(", but column ");
                push_decimal(&mut m, *column_index as u64);
                m.append(" had length ");
                push_decimal(&mut m, *actual_len as u64);
                assert(m@ =~= quotient_error_message(*self));
                m
            },
            MetalWideFibonacciQuotientError::InvalidDomainLogSizes { domain_log_size, eval_domain_log_size } => {
                let mut m = String::from_str(
                    "wide-fibonacci quotient accumulation requires eval_domain_log_size >= domain_log_size, got ",
                );
                push_decimal(&mut m, *eval_domain_log_size as u64);
                m.append(" < ");
                push_decimal(&mut m, *domain_log_size as u64);
                assert(m@ =~= quotient_error_message(*self));
                m
            },
            MetalWideFibonacciQuotientError::RandomCoeffCountMismatch { expected_len, actual_len } => {
                let mut m = String::from_str("wide-fibonacci quotient accumulation requires ");
                push_decimal(&mut m, *expected_len as u64);
                m.append(" random coefficients, got ");
                push_decimal(&mut m, *actual_len as u64);
                assert(m@ =~= quotient_error_message(*self));
                m
            },
            MetalWideFibonacciQuotientError::DenominatorCountMismatch { expected_len, actual_len } => {
                let mut m = String::from_str("wide-fibonacci quotient accumulation requires ");
                push_decimal(&mut m, *expected_len as u64);
                m.append(" denominator inverses, got ");
                push_decimal(&mut m, *actual_len as u64);
                assert(m@ =~= quotient_error_message(*self));
                m
            },
            MetalWideFibonacciQuotientError::Runtime { message } => message.clone(),
        }
    }
}

/// The first trace column from index `i` on whose length is not `n`, as
/// `(index, length)`.
pub open spec fn first_wrong_length(lens: Seq<usize>, n: nat, i: int) -> Option<(int, nat)>
    decreases lens.len() - i,
{
    if i < 0 || i >= lens.len() {
        None
    } else if lens[i] != n {
        Some((i, lens[i] as nat))
    } else {
        first_wrong_length(lens, n, i + 1)
    }
}

/// The verdict on a wide-fibonacci quotient request's shape: at least three
/// trace columns, an evaluation domain no smaller than the trace domain,
/// every column the size of the evaluation domain, one random coefficient
/// per constraint, and one denominator inverse per trace-domain coset. On
/// success, the evaluation-domain size.
pub open spec fn spec_quotient_request_shape(
    trace_column_lens: Seq<usize>,
    n_random_coeffs: usize,
    n_denominator_inverses: usize,
    domain_log_size: u32,
    eval_domain_log_size: u32,
) -> Result<nat, MetalWideFibonacciQuotientError> {
    let eval_domain_size = vstd::arithmetic::power2::pow2(eval_domain_log_size as nat);
    if trace_column_lens.len() < 3 {
        Err(MetalWideFibonacciQuotientError::NotEnoughTraceColumns { trace_columns: trace_column_lens.len() as usize })
    } else if eval_domain_log_size < domain_log_size {
        Err(MetalWideFibonacciQuotientError::InvalidDomainLogSizes { domain_log_size, eval_domain_log_size })
    } else if let Some((index, len)) = first_wrong_length(trace_column_lens, eval_domain_size, 0) {
        Err(
            MetalWideFibonacciQuotientError::InconsistentTraceColumnLength {
                expected_len: eval_domain_size as usize,
                actual_len: len as usize,
                column_index: index as usize,
            },
        )
    } else if n_random_coeffs != trace_column_lens.len() - 2 {
        Err(
            MetalWideFibonacciQuotientError::RandomCoeffCountMismatch {
                expected_len: (trace_column_lens.len() - 2) as usize,
                actual_len: n_random_coeffs,
            },
        )
    } else if n_denominator_inverses != vstd::arithmetic::power2::pow2((eval_domain_log_size - domain_log_size) as nat) {
        Err(
            MetalWideFibonacciQuotientError::DenominatorCountMismatch {
                expected_len: vstd::arithmetic::power2::pow2((eval_domain_log_size - domain_log_size) as nat) as usize,
                actual_len: n_denominator_inverses,
            },
        )
    } else {
        Ok(eval_domain_size)
    }
}

/// `1 << k` as a `usize`, for `k` below the word size.
fn shift_one(k: u32) -> (r: usize)
    requires
        k < usize::BITS,
    ensures
        r as nat == vstd::arithmetic::power2::pow2(k as nat),
{
    let shift: usize = k as usize;
    proof {
        vstd::bits::lemma_usize_pow2_no_overflow(shift as nat);
        vstd::bits::lemma_usize_shl_is_mul(1, shift);
    }
    1usize << shift
}

/// Checks the shape of a wide-fibonacci quotient request given by its
/// trace-column lengths and counts; gives the evaluation-domain size.
#[verifier::loop_isolation(false)]
pub fn validate_wide_fibonacci_quotient_request(
    trace_column_lens: &[usize],
    n_random_coeffs: usize,
    n_denominator_inverses: usize,
    domain_log_size: u32,
    eval_domain_log_size: u32,
) -> (r: Result<usize, MetalWideFibonacciQuotientError>)
    requires
        eval_domain_log_size < usize::BITS,
    ensures
        match r {
            Ok(size) => spec_quotient_request_shape(
                trace_column_lens@,
                n_random_coeffs,
                n_denominator_inverses,
                domain_log_size,
                eval_domain_log_size,
            ) == Ok::<nat, MetalWideFibonacciQuotientError>(size as nat),
            Err(e) => spec_quotient_request_shape(
                trace_column_lens@,
                n_random_coeffs,
                n_denominator_inverses,
                domain_log_size,
                eval_domain_log_size,
            ) == Err::<nat, MetalWideFibonacciQuotientError>(e),
        },
{
    if trace_column_lens.len() < 3 {
        return Err(MetalWideFibonacciQuotientError::NotEnoughTraceColumns { trace_columns: trace_column_lens.len() });
    }
    if eval_domain_log_size < domain_log_size {
        return Err(MetalWideFibonacciQuotientError::InvalidDomainLogSizes { domain_log_size, eval_domain_log_size });
    }
    let eval_domain_size = shift_one(eval_domain_log_size);
    let mut column_index: usize = 0;
    while column_index < trace_column_lens.len()
        invariant
            column_index <= trace_column_lens@.len(),
            eval_domain_size as nat == vstd::arithmetic::power2::pow2(eval_domain_log_size as nat),
            first_wrong_length(trace_column_lens@, eval_domain_size as nat, 0) == first_wrong_length(
                trace_column_lens@,
                eval_domain_size as nat,
                column_index as int,
            ),
        decreases trace_column_lens@.len() - column_index,
    {
        let len = trace_column_lens[column_index];
        if len != eval_domain_size {
            return Err(
                MetalWideFibonacciQuotientError::InconsistentTraceColumnLength {
                    expected_len: eval_domain_size,
                    actual_len: len,
                    column_index,
                },
            );
        }
        column_index = column_index + 1;
    }
    let expected_coeff_len = trace_column_lens.len() - 2;
    if n_random_coeffs != expected_coeff_len {
        return Err(
            MetalWideFibonacciQuotientError::RandomCoeffCountMismatch {
                expected_len: expected_coeff_len,
                actual_len: n_random_coeffs,
            },
        );
    }
    let expected_denominator_len = shift_one(eval_domain_log_size - domain_log_size);
    if n_denominator_inverses != expected_denominator_len {
        return Err(
            MetalWideFibonacciQuotientError::DenominatorCountMismatch {
                expected_len: expected_denominator_len,
                actual_len: n_denominator_inverses,
            },
        );
    }
    Ok(eval_domain_size)
}

/// Accumulated wide-fibonacci quotients over the evaluation domain.
#[derive(Clone, Debug)]
pub struct MetalWideFibonacciQuotients {
    values: Vec<MetalSecureFieldValueV1>,
    eval_domain_size: usize,
}

impl MetalWideFibonacciQuotients {
    pub closed spec fn spec_values(&self) -> Seq<MetalSecureFieldValueV1> {
        self.values@
    }

    pub closed spec fn spec_eval_domain_size(&self) -> usize {
        self.eval_domain_size
    }

    /// Quotients over an evaluation domain of `values.len()` rows.
    pub fn from_values(values: Vec<MetalSecureFieldValueV1>) -> (r: Self)
        ensures
            r.spec_values() == values@,
            r.spec_eval_domain_size() == values@.len(),
    {
        let eval_domain_size = values.len();
        Self { values, eval_domain_size }
    }

    pub fn len(&self) -> (r: usize)
        ensures
            r == self.spec_eval_domain_size(),
    {
        self.eval_domain_size
    }

    pub fn is_empty(&self) -> (r: bool)
        ensures
            r == (self.spec_eval_domain_size() == 0),
    {
        self.eval_domain_size == 0
    }

    pub fn value(&self, row_index: usize) -> (r: MetalSecureFieldValueV1)
        requires
            row_index < self.spec_values().len(),
        ensures
            r == self.spec_values()[row_index as int],
    {
        self.values[row_index]
    }

    pub fn values(&self) -> (r: &[MetalSecureFieldValueV1])
        ensures
            r@ == self.spec_values(),
    {
        self.values.as_slice()
    }

    pub fn to_vec(&self) -> (r: Vec<MetalSecureFieldValueV1>)
        ensures
            r@ == self.spec_values(),
    {
        let mut out: Vec<MetalSecureFieldValueV1> = Vec::new();
        let mut i: usize = 0;
        while i < self.values.len()
            invariant
                i <= self.values@.len(),
                out@ == self.values@.take(i as int),
            decreases self.values@.len() - i,
        {
            out.push(self.values[i]);
            proof {
                assert(out@ =~= self.values@.take(i + 1));
            }
            i = i + 1;
        }
        proof {
            assert(self.values@.take(self.values@.len() as int) =~= self.values@);
        }
        out
    }

    /// The four coordinate columns: column `k` holds limb `k` of every value.
    pub fn to_coordinate_columns(&self) -> (r: [Vec<u32>; 4])
        ensures
            forall|k: int|
                0 <= k < 4 ==> #[trigger] r[k]@ == self.spec_values().map_values(
                    |v: MetalSecureFieldValueV1| v.limbs[k],
                ),
    {
        let mut c0: Vec<u32> = Vec::new();
        let mut c1: Vec<u32> = Vec::new();
        let mut c2: Vec<u32> = Vec::new();
        let mut c3: Vec<u32> = Vec::new();
        let mut i: usize = 0;
        while i < self.values.len()
            invariant
                i <= self.values@.len(),
                c0@ == self.values@.take(i as int).map_values(|v: MetalSecureFieldValueV1| v.limbs[0]),
                c1@ == self.values@.take(i as int).map_values(|v: MetalSecureFieldValueV1| v.limbs[1]),
                c2@ == self.values@.take(i as int).map_values(|v: MetalSecureFieldValueV1| v.limbs[2]),
                c3@ == self.values@.take(i as int).map_values(|v: MetalSecureFieldValueV1| v.limbs[3]),
            decreases self.values@.len() - i,
        {
            let v = self.values[i];
            c0.push(v.limbs[0]);
            c1.push(v.limbs[1]);
            c2.push(v.limbs[2]);
            c3.push(v.limbs[3]);
            proof {
                let t = self.values@.take(i + 1);
                assert(t =~= self.values@.take(i as int).push(v));
                assert(c0@ =~= t.map_values(|v: MetalSecureFieldValueV1| v.limbs[0]));
                assert(c1@ =~= t.map_values(|v: MetalSecureFieldValueV1| v.limbs[1]));
                assert(c2@ =~= t.map_values(|v: MetalSecureFieldValueV1| v.limbs[2]));
                assert(c3@ =~= t.map_values(|v: MetalSecureFieldValueV1| v.limbs[3]));
            }
            i = i + 1;
        }
        proof {
            assert(self.values@.take(self.values@.len() as int) =~= self.values@);
        }
        let r = [c0, c1, c2, c3];
        assert forall|k: int| 0 <= k < 4 implies #[trigger] r[k]@ == self.spec_values().map_values(
            |v: MetalSecureFieldValueV1| v.limbs[k],
        ) by {
            if k == 0 {
                assert(r[k]@ =~= self.spec_values().map_values(|v: MetalSecureFieldValueV1| v.limbs[k]));
            } else if k == 1 {
                assert(r[k]@ =~= self.spec_values().map_values(|v: MetalSecureFieldValueV1| v.limbs[k]));
            } else if k == 2 {
                assert(r[k]@ =~= self.spec_values().map_values(|v: MetalSecureFieldValueV1| v.limbs[k]));
            } else {
                assert(r[k]@ =~= self.spec_values().map_values(|v: MetalSecureFieldValueV1| v.limbs[k]));
            }
        }
        r
    }

    /// Consumes the quotients into their four coordinate columns.
    pub fn into_coordinate_base_columns(self) -> (r: [Vec<u32>; 4])
        ensures
            forall|k: int|
                0 <= k < 4 ==> #[trigger] r[k]@ == self.spec_values().map_values(
                    |v: MetalSecureFieldValueV1| v.limbs[k],
                ),
    {
        self.to_coordinate_columns()
    }
}

} // verus!
