//! Rounding and limits, stated by what they guarantee.
use crate::pointer;
use vstd::prelude::*;

verus! {

/// Whether `q` is `n / d` rounded towards zero: at most `n` in magnitude, and less than one step
/// away.
pub open spec fn is_truncated(q: int, n: int, d: int) -> bool {
    &&& n >= 0 ==> 0 <= d * q <= n < d * (q + 1)
    &&& n <= 0 ==> d * (q - 1) < n <= d * q <= 0
}

/// Whether `r` is `n`, or the nearest limit where `n` lies beyond one.
pub open spec fn is_clamped(r: int, n: int, low: int, high: int) -> bool {
    &&& low <= n <= high ==> r == n
    &&& n < low ==> r == low
    &&& n > high ==> r == high
}

/// Division rounds towards zero.
pub proof fn division_rounds_towards_zero(n: int, d: int)
    requires
        d > 0,
    ensures
        is_truncated(pointer::quotient(n, d), n, d),
{
    if n >= 0 {
        assert(d * (n / d) <= n < d * (n / d + 1) && 0 <= d * (n / d)) by (nonlinear_arith)
            requires
                n >= 0,
                d > 0,
        ;
        if n == 0 {
            assert(d * (n / d - 1) < n && n <= d * (n / d) && d * (n / d) <= 0)
                by (nonlinear_arith)
                requires
                    n == 0,
                    d > 0,
            ;
        }
    } else {
        let m = -n;
        let p = m / d;
        assert(d * p <= m < d * (p + 1) && 0 <= d * p) by (nonlinear_arith)
            requires
                m > 0,
                d > 0,
                p == m / d,
        ;
        assert(d * (-p) == -(d * p) && d * (-p - 1) == -(d * (p + 1))) by (nonlinear_arith);
    }
}

/// No two numbers are the same quotient.
pub proof fn quotients_are_unique(p: int, q: int, n: int, d: int)
    requires
        d > 0,
        is_truncated(p, n, d),
        is_truncated(q, n, d),
    ensures
        p == q,
{
    if n >= 0 {
        assert(p == q) by (nonlinear_arith)
            requires
                d > 0,
                d * p <= n < d * (p + 1),
                d * q <= n < d * (q + 1),
        ;
    } else {
        assert(p == q) by (nonlinear_arith)
            requires
                d > 0,
                d * (p - 1) < n <= d * p,
                d * (q - 1) < n <= d * q,
        ;
    }
}

/// A result that does not fit is the nearest that does.
pub proof fn results_are_clamped(n: int)
    ensures
        is_clamped(pointer::saturate(n) as int, n, -0x7fff_ffff, 0x7fff_ffff),
{
}

} // verus!
