//! Integer square root, the one piece of nonlinear arithmetic the force
//! computation needs: the Coulomb force divides by the distance, and the
//! distance is the square root of a sum of squares.

use vstd::prelude::*;

verus! {

/// Exclusive upper bound on the square roots this module handles;
/// inputs to the executable routine must lie below its square.
pub const SQRT_LIMIT: u128 = 18_014_398_509_481_984;

/// The integer square root: the largest `r` with `r * r <= n`,
/// defined by counting up from zero.
pub open spec fn isqrt(n: nat) -> nat
    decreases n,
{
    if n == 0 {
        0
    } else {
        let r = isqrt((n - 1) as nat);
        if (r + 1) * (r + 1) <= n {
            r + 1
        } else {
            r
        }
    }
}

/// `isqrt(n)` is sound and complete: its square is at most `n`, and the
/// next square is already above `n`.
pub proof fn lemma_isqrt_bounds(n: nat)
    ensures
        isqrt(n) * isqrt(n) <= n,
        n < (isqrt(n) + 1) * (isqrt(n) + 1),
    decreases n,
{
    if n == 0 {
        assert(isqrt(0) == 0);
        assert((isqrt(n) + 1) * (isqrt(n) + 1) == 1) by (nonlinear_arith)
            requires isqrt(n) == 0;
    } else {
        lemma_isqrt_bounds((n - 1) as nat);
        let r = isqrt((n - 1) as nat);
        if (r + 1) * (r + 1) <= n {
            assert(isqrt(n) == r + 1);
            assert(n <= (r + 1) * (r + 1));
            assert((r + 1) * (r + 1) < (r + 2) * (r + 2)) by (nonlinear_arith)
                requires r >= 0;
            assert(n < (isqrt(n) + 1) * (isqrt(n) + 1));
        } else {
            assert(isqrt(n) == r);
            assert(n < (r + 1) * (r + 1));
        }
    }
}

/// No two distinct values satisfy the bracketing bounds, so any `r` with
/// `r * r <= n < (r + 1) * (r + 1)` is `isqrt(n)`.
pub proof fn lemma_isqrt_unique(n: nat, r: nat)
    requires
        r * r <= n,
        n < (r + 1) * (r + 1),
    ensures
        r == isqrt(n),
{
    lemma_isqrt_bounds(n);
    let s = isqrt(n);
    if r < s {
        assert((r + 1) * (r + 1) <= s * s) by (nonlinear_arith)
            requires r + 1 <= s && r >= 0;
    }
    if s < r {
        assert((s + 1) * (s + 1) <= r * r) by (nonlinear_arith)
            requires s + 1 <= r && s >= 0;
    }
}

/// Executable integer square root by binary search.
pub fn isqrt_u128(n: u128) -> (r: u128)
    requires
        n < SQRT_LIMIT * SQRT_LIMIT,
    ensures
        r as nat == isqrt(n as nat),
{
    let mut lo: u128 = 0;
    let mut hi: u128 = SQRT_LIMIT;
    while lo + 1 < hi
        invariant
            lo < hi <= SQRT_LIMIT,
            (lo as nat) * (lo as nat) <= n as nat,
            (n as nat) < (hi as nat) * (hi as nat),
        decreases hi - lo,
    {
        let mid: u128 = lo + (hi - lo) / 2;
        assert(mid * mid <= SQRT_LIMIT * SQRT_LIMIT) by (nonlinear_arith)
            requires 0 <= mid <= SQRT_LIMIT;
        if mid * mid <= n {
            lo = mid;
        } else {
            hi = mid;
        }
    }
    proof {
        lemma_isqrt_unique(n as nat, lo as nat);
    }
    lo
}

} // verus!
