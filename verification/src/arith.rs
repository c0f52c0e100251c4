use vstd::prelude::*;
use vstd::arithmetic::power2::{pow2, lemma_pow2_strictly_increases, lemma_pow2_unfold};

verus! {

/// `n` is a power of two.
pub open spec fn spec_is_power_of_two(n: nat) -> bool {
    exists|k: nat| #[trigger] pow2(k) == n
}

/// The base-two logarithm of `n` when `n` is a power of two.
pub fn exact_log2(n: usize) -> (r: Option<u32>)
    ensures
        match r {
            Some(k) => pow2(k as nat) == n as nat,
            None => !spec_is_power_of_two(n as nat),
        },
{
    if n == 0 {
        proof {
            assert forall|k: nat| #[trigger] pow2(k) != 0 by {
                vstd::arithmetic::power2::lemma_pow2_pos(k);
            }
        }
        return None;
    }
    let mut m: usize = 1;
    let mut k: u32 = 0;
    proof {
        vstd::arithmetic::power2::lemma2_to64();
    }
    while m < n
        invariant
            0 < n,
            0 < m,
            m as nat == pow2(k as nat),
            k < 64,
            k == 0 || pow2((k - 1) as nat) < n,
        decreases 64 - k,
    {
        if m > usize::MAX / 2 {
            proof {
                assert forall|j: nat| #[trigger] pow2(j) != n as nat by {
                    if j <= k as nat {
                        if j < k as nat {
                            lemma_pow2_strictly_increases(j, k as nat);
                        }
                    } else {
                        lemma_pow2_strictly_increases(k as nat, j);
                        lemma_pow2_unfold((k + 1) as nat);
                        if j > (k + 1) as nat {
                            lemma_pow2_strictly_increases((k + 1) as nat, j);
                        }
                    }
                }
            }
            return None;
        }
        proof {
            lemma_pow2_unfold((k + 1) as nat);
            if k >= 63 {
                vstd::arithmetic::power2::lemma2_to64_rest();
                lemma_pow2_strictly_increases(63, k as nat);
            }
        }
        m = m * 2;
        k = k + 1;
    }
    if m == n {
        Some(k)
    } else {
        proof {
            assert forall|j: nat| #[trigger] pow2(j) != n as nat by {
                if j >= k as nat {
                    if j > k as nat {
                        lemma_pow2_strictly_increases(k as nat, j);
                    }
                } else {
                    if j < (k - 1) as nat {
                        lemma_pow2_strictly_increases(j, (k - 1) as nat);
                    }
                }
            }
        }
        None
    }
}

} // verus!
