//! Integer numerics: a per-mille sine on milli-degrees and an integer
//! square root, used for paddle-bounce redirection and speed rescaling.

use vstd::prelude::*;
use vstd::arithmetic::div_mod::{lemma_div_is_ordered, lemma_div_multiples_vanish};
use vstd::arithmetic::mul::lemma_mul_inequality;

verus! {

/// Sine of `x` milli-degrees, in per-mille, by the rational one-arc
/// approximation `4x(180 - x) / (40500 - x(180 - x))` (exact at 0, 90 and
/// 180 degrees). Meaningful for `0 <= x <= 180_000`.
pub open spec fn spec_sin_pm(x: int) -> int {
    (4000 * x * (180_000 - x)) / (40_500_000_000 - x * (180_000 - x))
}

/// Computes [`spec_sin_pm`] on `[0, 180_000]` milli-degrees; the result
/// lies in `[0, 1000]`.
pub fn sin_pm(x: u64) -> (r: u64)
    requires
        x <= 180_000,
    ensures
        r == spec_sin_pm(x as int),
        r <= 1000,
{
    proof {
        assert(x * (180_000 - x) <= 8_100_000_000) by (nonlinear_arith)
            requires x <= 180_000;
    }
    let p: u64 = x * (180_000 - x);
    let num: u64 = 4000 * p;
    let den: u64 = 40_500_000_000 - p;
    proof {
        assert(num <= 1000 * den);
        lemma_div_is_ordered(num as int, 1000 * den as int, den as int);
        lemma_div_multiples_vanish(1000, den as int);
        assert(4000 * (x as int) * (180_000 - x as int) == 4000 * (x * (180_000 - x)) as int)
            by (nonlinear_arith);
    }
    num / den
}

/// The integer square root: the unique `r` with `r * r <= n < (r + 1) * (r + 1)`.
pub open spec fn spec_isqrt(n: int) -> int {
    choose|r: int| 0 <= r && #[trigger] (r * r) <= n && n < (r + 1) * (r + 1)
}

/// Any two integer square roots of `n` agree, so [`spec_isqrt`] is the
/// witness produced by [`isqrt`].
pub proof fn lemma_isqrt_unique(n: int, r: int)
    requires
        0 <= r,
        r * r <= n,
        n < (r + 1) * (r + 1),
    ensures
        spec_isqrt(n) == r,
{
    assert(0 <= r && r * r <= n && n < (r + 1) * (r + 1));
    let w = spec_isqrt(n);
    assert(0 <= w && w * w <= n && n < (w + 1) * (w + 1));
    assert(w == r) by (nonlinear_arith)
        requires
            0 <= r,
            r * r <= n,
            n < (r + 1) * (r + 1),
            0 <= w,
            w * w <= n,
            n < (w + 1) * (w + 1),
    ;
}

/// Integer square root by binary search, for `n` up to twice the square
/// of [`crate::params::VEL_LIMIT`].
pub fn isqrt(n: u64) -> (r: u64)
    requires
        n <= 8_000_000_000_000_000_000,
    ensures
        r * r <= n < (r + 1) * (r + 1),
        r == spec_isqrt(n as int),
        r <= 3_000_000_000,
{
    let mut lo: u64 = 0;
    let mut hi: u64 = 3_000_000_000;
    proof {
        assert((3_000_000_000int + 1) * (3_000_000_000int + 1) > 8_000_000_000_000_000_000);
    }
    while lo < hi
        invariant
            lo <= hi <= 3_000_000_000,
            lo * lo <= n,
            n < (hi + 1) * (hi + 1),
        decreases hi - lo,
    {
        let mid: u64 = lo + (hi - lo + 1) / 2;
        proof {
            assert(lo < mid <= hi);
            assert((mid as int) * (mid as int) <= 3_000_000_000int * 3_000_000_000int)
                by (nonlinear_arith)
                requires mid <= 3_000_000_000u64;
        }
        let sq: u128 = (mid as u128) * (mid as u128);
        if sq <= n as u128 {
            lo = mid;
        } else {
            hi = mid - 1;
        }
    }
    proof {
        lemma_isqrt_unique(n as int, lo as int);
    }
    lo
}

} // verus!
