//! Integer square roots, rounded up or down.

use vstd::prelude::*;

verus! {

/// Largest argument that `ceil_sqrt` accepts (2^86).
pub const SQRT_DOMAIN: u128 = 0x4000000000000000000000;

/// Upper end of the search range of `ceil_sqrt` (2^43, whose square is `SQRT_DOMAIN`).
pub const SQRT_SEARCH_TOP: u64 = 0x80000000000;

/// `n` is the least natural number whose square is at least `v`.
pub open spec fn is_ceil_sqrt(v: int, n: int) -> bool {
    &&& n >= 0
    &&& v <= n * n
    &&& (n == 0 || (n - 1) * (n - 1) < v)
}

/// The square root of `v`, rounded up.
pub open spec fn ceil_sqrt_spec(v: int) -> int {
    choose|n: int| is_ceil_sqrt(v, n)
}

/// The rounded-up square root is unique.
pub proof fn lemma_ceil_sqrt_unique(v: int, a: int, b: int)
    requires
        is_ceil_sqrt(v, a),
        is_ceil_sqrt(v, b),
    ensures
        a == b,
{
    if a < b {
        assert(a * a <= (b - 1) * (b - 1)) by (nonlinear_arith)
            requires
                0 <= a <= b - 1,
        ;
    } else if b < a {
        assert(b * b <= (a - 1) * (a - 1)) by (nonlinear_arith)
            requires
                0 <= b <= a - 1,
        ;
    }
}

/// Every natural number has a rounded-up square root.
pub proof fn lemma_ceil_sqrt_exists(v: nat)
    ensures
        is_ceil_sqrt(v as int, ceil_sqrt_spec(v as int)),
    decreases v,
{
    if v == 0 {
        assert(is_ceil_sqrt(0, 0));
    } else {
        lemma_ceil_sqrt_exists((v - 1) as nat);
        let m = ceil_sqrt_spec(v - 1);
        if v <= m * m {
            assert(is_ceil_sqrt(v as int, m));
        } else {
            assert((m + 1) * (m + 1) == m * m + 2 * m + 1) by (nonlinear_arith);
            assert(is_ceil_sqrt(v as int, m + 1));
        }
    }
}

/// Any witness of `is_ceil_sqrt` is the value that `ceil_sqrt_spec` names.
pub proof fn lemma_ceil_sqrt_spec(v: int, n: int)
    requires
        is_ceil_sqrt(v, n),
    ensures
        ceil_sqrt_spec(v) == n,
{
    assert(exists|k: int| is_ceil_sqrt(v, k));
    lemma_ceil_sqrt_unique(v, n, ceil_sqrt_spec(v));
}

/// The square root of `v`, rounded up, found by bisection.
pub fn ceil_sqrt(v: u128) -> (n: u64)
    requires
        v <= SQRT_DOMAIN,
    ensures
        is_ceil_sqrt(v as int, n as int),
        n == ceil_sqrt_spec(v as int),
        n <= SQRT_SEARCH_TOP,
{
    if v == 0 {
        proof {
            lemma_ceil_sqrt_spec(0, 0);
        }
        return 0;
    }
    let mut lo: u64 = 0;
    let mut hi: u64 = SQRT_SEARCH_TOP;
    assert(0x80000000000int * 0x80000000000int == 0x4000000000000000000000int) by (nonlinear_arith);
    while hi - lo > 1
        invariant
            lo < hi <= SQRT_SEARCH_TOP,
            (lo as int) * (lo as int) < v,
            v <= (hi as int) * (hi as int),
        decreases hi - lo,
    {
        let mid: u64 = lo + (hi - lo) / 2;
        assert((mid as int) * (mid as int) <= (SQRT_SEARCH_TOP as int) * (SQRT_SEARCH_TOP as int))
            by (nonlinear_arith)
            requires
                0 <= mid <= SQRT_SEARCH_TOP,
        ;
        let sq: u128 = (mid as u128) * (mid as u128);
        if sq < v {
            lo = mid;
        } else {
            hi = mid;
        }
    }
    proof {
        lemma_ceil_sqrt_spec(v as int, hi as int);
    }
    hi
}

/// `f` is the greatest natural number whose square is at most `v`.
pub open spec fn is_floor_sqrt(v: int, f: int) -> bool {
    &&& f >= 0
    &&& f * f <= v
    &&& v < (f + 1) * (f + 1)
}

/// The square root of `v`, rounded down.
pub open spec fn floor_sqrt_spec(v: int) -> int {
    let n = ceil_sqrt_spec(v);
    if n * n == v {
        n
    } else {
        n - 1
    }
}

/// Every natural number has a rounded-down square root, which `floor_sqrt_spec` names.
pub proof fn lemma_floor_sqrt(v: nat)
    ensures
        is_floor_sqrt(v as int, floor_sqrt_spec(v as int)),
{
    lemma_ceil_sqrt_exists(v);
    let n = ceil_sqrt_spec(v as int);
    assert((n + 1) * (n + 1) == n * n + 2 * n + 1) by (nonlinear_arith);
    if n * n != v {
        assert(n > 0) by (nonlinear_arith)
            requires
                v <= n * n,
                n * n != v,
                v >= 0,
                n >= 0,
        ;
    }
}

/// The square root of `v`, rounded down.
pub fn floor_sqrt(v: u128) -> (f: u64)
    requires
        v <= SQRT_DOMAIN,
    ensures
        is_floor_sqrt(v as int, f as int),
        f == floor_sqrt_spec(v as int),
{
    let n = ceil_sqrt(v);
    assert((n as int) * (n as int) <= (SQRT_SEARCH_TOP as int) * (SQRT_SEARCH_TOP as int)) by (nonlinear_arith)
        requires
            0 <= n <= SQRT_SEARCH_TOP,
    ;
    let sq: u128 = (n as u128) * (n as u128);
    if sq == v {
        assert((n + 1) * (n + 1) == n * n + 2 * n + 1) by (nonlinear_arith);
        n
    } else {
        assert(n > 0) by (nonlinear_arith)
            requires
                v <= n * n,
                n * n != v,
                v >= 0,
                n >= 0,
        ;
        n - 1
    }
}

} // verus!
