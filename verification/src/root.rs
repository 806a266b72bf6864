//! Square roots rounded to the nearest integer, halves rounded up.

use vstd::prelude::*;

verus! {

/// Whether `h` is the square root of `n` rounded to the nearest integer,
/// halves rounded up: `h - 1/2 <= sqrt(n) < h + 1/2`, written without
/// fractions by doubling both sides and squaring.
pub open spec fn is_rounded_root(n: int, h: int) -> bool {
    &&& 0 <= h
    &&& h == 0 || (2 * h - 1) * (2 * h - 1) <= 4 * n
    &&& 4 * n < (2 * h + 1) * (2 * h + 1)
}

/// The square root of `n` rounded to the nearest integer, halves rounded
/// up. Meaningful for `n >= 0`.
pub open spec fn rounded_root(n: int) -> int {
    choose|h: int| is_rounded_root(n, h)
}

/// At most one integer is the rounded root of `n`.
pub proof fn lemma_rounded_root_unique(n: int, h1: int, h2: int)
    requires
        is_rounded_root(n, h1),
        is_rounded_root(n, h2),
    ensures
        h1 == h2,
{
    if h1 < h2 {
        assert((2 * h1 + 1) * (2 * h1 + 1) <= (2 * h2 - 1) * (2 * h2 - 1)) by (nonlinear_arith)
            requires
                0 <= h1 < h2,
        ;
    } else if h2 < h1 {
        assert((2 * h2 + 1) * (2 * h2 + 1) <= (2 * h1 - 1) * (2 * h1 - 1)) by (nonlinear_arith)
            requires
                0 <= h2 < h1,
        ;
    }
}

/// Every `n >= 0` has a rounded root; the proof constructs it.
pub proof fn lemma_rounded_root_exists(n: int) -> (h: int)
    requires
        0 <= n,
    ensures
        is_rounded_root(n, h),
    decreases n,
{
    if n == 0 {
        assert(is_rounded_root(0, 0)) by (nonlinear_arith);
        0
    } else {
        let below = lemma_rounded_root_exists(n - 1);
        if 4 * n < (2 * below + 1) * (2 * below + 1) {
            below
        } else {
            assert((2 * (below + 1) - 1) * (2 * (below + 1) - 1) == (2 * below + 1) * (2 * below
                + 1)) by (nonlinear_arith);
            assert((2 * below + 1) * (2 * below + 1) + 4 <= (2 * (below + 1) + 1) * (2 * (below
                + 1) + 1)) by (nonlinear_arith)
                requires
                    0 <= below,
            ;
            below + 1
        }
    }
}

/// `rounded_root(n)` is the rounded root of `n`, and nothing else is.
pub proof fn lemma_rounded_root(n: int)
    requires
        0 <= n,
    ensures
        is_rounded_root(n, rounded_root(n)),
        forall|h: int| is_rounded_root(n, h) ==> h == rounded_root(n),
{
    let witness = lemma_rounded_root_exists(n);
    assert(is_rounded_root(n, rounded_root(n)));
    assert forall|h: int| is_rounded_root(n, h) implies h == rounded_root(n) by {
        lemma_rounded_root_unique(n, h, rounded_root(n));
    }
}

/// The rounded root of zero is zero, and the rounded root of `n` never
/// exceeds a number whose square is at least `n`.
pub proof fn lemma_rounded_root_bounds(n: int, r: int)
    requires
        0 <= n <= r * r,
        0 <= r,
    ensures
        0 <= rounded_root(n) <= r,
        n == 0 ==> rounded_root(n) == 0,
        n == r * r ==> rounded_root(n) == r,
{
    lemma_rounded_root(n);
    let h = rounded_root(n);
    if h > r {
        assert((2 * r) * (2 * r) < (2 * h - 1) * (2 * h - 1)) by (nonlinear_arith)
            requires
                0 <= r < h,
        ;
        assert((2 * r) * (2 * r) == 4 * (r * r)) by (nonlinear_arith);
    }
    if n == 0 {
        assert(is_rounded_root(0, 0)) by (nonlinear_arith);
    }
    if n == r * r {
        assert(is_rounded_root(n, r)) by (nonlinear_arith)
            requires
                n == r * r,
                0 <= r,
        ;
    }
}

/// Computes the square root of `n` rounded to the nearest integer,
/// halves rounded up, by bisection.
pub fn nearest_root(n: u64) -> (h: u64)
    ensures
        h == rounded_root(n as int),
        is_rounded_root(n as int, h as int),
{
    let mut low: u64 = 0;
    let mut high: u64 = 4294967296;
    assert(4294967296 * 4294967296 + 4294967296 >= n) by (nonlinear_arith)
        requires
            n <= u64::MAX,
    ;
    while low < high
        invariant
            0 <= low <= high <= 4294967296,
            low == 0 || (low - 1) * (low - 1) + (low - 1) < n,
            n <= high * high + high,
        decreases high - low,
    {
        let middle: u64 = low + (high - low) / 2;
        assert(middle * middle + middle <= 4294967295 * 4294967295 + 4294967295)
            by (nonlinear_arith)
            requires
                0 <= middle <= 4294967295,
        ;
        let reach: u64 = middle * middle + middle;
        if n <= reach {
            high = middle;
        } else {
            low = middle + 1;
        }
    }
    proof {
        let l = low as int;
        assert((2 * l + 1) * (2 * l + 1) == 4 * (l * l + l) + 1) by (nonlinear_arith);
        assert((2 * l - 1) * (2 * l - 1) == 4 * ((l - 1) * (l - 1) + (l - 1)) + 1)
            by (nonlinear_arith);
        assert(is_rounded_root(n as int, l));
        lemma_rounded_root(n as int);
    }
    low
}

} // verus!
