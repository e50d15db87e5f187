use vstd::prelude::*;

use crate::error::FieldError;

verus! {

/// `2^k`.
pub open spec fn pow2(k: nat) -> nat
    decreases k,
{
    if k == 0 {
        1
    } else {
        2 * pow2((k - 1) as nat)
    }
}

/// `m` is a power of two.
pub open spec fn is_pow2(m: nat) -> bool {
    exists|k: nat| m == #[trigger] pow2(k)
}

/// The smallest embedding size allowed for `n` points is the smallest power of
/// two that is at least `2(n - 1)`.
pub open spec fn is_start_size(n: nat, m: nat) -> bool {
    &&& is_pow2(m)
    &&& m >= 2 * (n - 1)
    &&& m < 4 * (n - 1)
}

/// Some power of two at least `2(n - 1)` does not exceed `max_size`.
pub open spec fn start_size_fits(n: nat, max_size: nat) -> bool {
    exists|k: nat| 2 * (n - 1) <= #[trigger] pow2(k) <= max_size
}

proof fn lemma_pow2_positive(k: nat)
    ensures
        pow2(k) >= 1,
    decreases k,
{
    if k > 0 {
        lemma_pow2_positive((k - 1) as nat);
    }
}

/// Powers of two grow with the exponent.
pub proof fn lemma_pow2_monotone(j: nat, k: nat)
    requires
        j <= k,
    ensures
        pow2(j) <= pow2(k),
    decreases k - j,
{
    if j < k {
        lemma_pow2_monotone(j, (k - 1) as nat);
        lemma_pow2_positive((k - 1) as nat);
    }
}

/// The starting embedding size is determined by the number of points: two
/// powers of two in `[2(n - 1), 4(n - 1))` are equal.
pub proof fn lemma_start_size_unique(n: nat, a: nat, b: nat)
    requires
        is_start_size(n, a),
        is_start_size(n, b),
    ensures
        a == b,
{
    let j = choose|j: nat| a == #[trigger] pow2(j);
    let k = choose|k: nat| b == #[trigger] pow2(k);
    if j < k {
        lemma_pow2_monotone(j + 1, k);
    } else if k < j {
        lemma_pow2_monotone(k + 1, j);
    }
}

/// Computes the starting embedding size for a field of `n` points: the
/// smallest power of two that is at least `2(n - 1)`, provided it does not
/// exceed `max_size`.
pub fn embedding_size(n: usize, max_size: usize) -> (r: Result<usize, FieldError>)
    ensures
        r == Err::<usize, FieldError>(FieldError::InvalidInput) <==> n < 2,
        r == Err::<usize, FieldError>(FieldError::EmbeddingDivergence) <==> (n >= 2
            && !start_size_fits(n as nat, max_size as nat)),
        r is Ok <==> (n >= 2 && start_size_fits(n as nat, max_size as nat)),
        r matches Ok(m) ==> is_start_size(n as nat, m as nat) && m <= max_size,
        !(r == Err::<usize, FieldError>(FieldError::NumericDegeneracy)),
{
    if n < 2 {
        return Err(FieldError::InvalidInput);
    }
    if n - 1 > usize::MAX / 2 {
        proof {
            assert forall|k: nat| 2 * (n - 1) <= #[trigger] pow2(k) implies pow2(k) > max_size by {}
        }
        return Err(FieldError::EmbeddingDivergence);
    }
    let target: usize = 2 * (n - 1);
    let mut m: usize = 1;
    let ghost mut e: nat = 0;
    while m < target
        invariant
            target == 2 * (n - 1),
            target >= 2,
            m >= 1,
            m as nat == pow2(e),
            m == 1 || m < target * 2,
            m == 1 || m <= max_size,
        decreases 2 * target - m,
    {
        if m > max_size / 2 {
            proof {
                assert forall|k: nat| target <= #[trigger] pow2(k) implies pow2(k) > max_size by {
                    if k <= e {
                        lemma_pow2_monotone(k, e);
                    } else {
                        lemma_pow2_monotone(e + 1, k);
                    }
                }
            }
            return Err(FieldError::EmbeddingDivergence);
        }
        m = m * 2;
        proof {
            e = e + 1;
        }
    }
    proof {
        assert(is_pow2(m as nat));
        assert(start_size_fits(n as nat, max_size as nat));
    }
    Ok(m)
}

} // verus!
