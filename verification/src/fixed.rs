//! Fixed-point scalar arithmetic.
//!
//! Scalars carry three fractional decimal digits (milli scale): the integer
//! `1000` stands for one metre, one second, one kilogram, or one metre per
//! second, depending on the quantity. Vector components carry six digits
//! (micro scale), so that the product of a milli-scale axis component and a
//! milli-scale speed lands on the micro scale without any rounding.

use vstd::prelude::*;
use vstd::arithmetic::div_mod::lemma_fundamental_div_mod;
use vstd::arithmetic::div_mod::lemma_mod_division_less_than_divisor;

verus! {

/// One unit on the milli scale; also the scale of the up axis.
pub const MILLI: i64 = 1_000;

/// One unit on the micro scale; also the exact squared length of an up axis.
pub const MICRO: i64 = 1_000_000;

/// Floor division by a positive divisor.
///
/// Rounds toward negative infinity, which matches the mathematical `/` on
/// `int`, so contracts can speak of the result directly.
pub fn fdiv(a: i64, b: i64) -> (r: i64)
    requires
        b > 0,
        a > i64::MIN,
    ensures
        r == a as int / b as int,
{
    proof {
        let ai = a as int;
        let bi = b as int;
        lemma_fundamental_div_mod(ai, bi);
        lemma_mod_division_less_than_divisor(ai, bi);
        let q = ai / bi;
        let m = ai % bi;
        assert(i64::MIN <= q && q <= i64::MAX) by (nonlinear_arith)
            requires
                ai == bi * q + m,
                0 <= m < bi,
                bi > 0,
                i64::MIN < ai <= i64::MAX,
        ;
    }
    match a.checked_div_euclid(b) {
        Some(r) => r,
        None => 0,
    }
}

/// Mathematical floor of the square root of `n` (zero for negative `n`).
pub open spec fn sqrt_floor(n: int) -> int
    decreases n,
{
    if n <= 0 {
        0
    } else {
        let p = sqrt_floor(n - 1);
        if (p + 1) * (p + 1) <= n {
            p + 1
        } else {
            p
        }
    }
}

/// `sqrt_floor` is the greatest integer whose square does not exceed `n`.
pub proof fn lemma_sqrt_floor_bounds(n: int)
    requires
        n >= 0,
    ensures
        sqrt_floor(n) >= 0,
        sqrt_floor(n) * sqrt_floor(n) <= n,
        n < (sqrt_floor(n) + 1) * (sqrt_floor(n) + 1),
    decreases n,
{
    if n == 0 {
    } else {
        lemma_sqrt_floor_bounds(n - 1);
        let p = sqrt_floor(n - 1);
        if (p + 1) * (p + 1) <= n {
            assert(n - 1 < (p + 1) * (p + 1));
            assert(n < (p + 2) * (p + 2)) by (nonlinear_arith)
                requires
                    n == (p + 1) * (p + 1),
                    p >= 0,
            ;
        }
    }
}

/// Two integers that both bracket `n` between their square and the next
/// square are the same integer: the floor square root is unique.
pub proof fn lemma_sqrt_unique(n: int, r: int, s: int)
    by (nonlinear_arith)
    requires
        r >= 0,
        s >= 0,
        r * r <= n < (r + 1) * (r + 1),
        s * s <= n < (s + 1) * (s + 1),
    ensures
        r == s,
{
}

/// Integer square root: the largest `r` with `r * r <= n`.
pub fn isqrt(n: u64) -> (r: u64)
    ensures
        r * r <= n,
        n < (r + 1) * (r + 1),
        r == sqrt_floor(n as int),
{
    let mut lo: u64 = 0;
    let mut hi: u64 = 1 << 32;
    proof {
        assert((1u64 << 32) == 0x1_0000_0000) by (bit_vector);
        assert(n < 0x1_0000_0000u64 * 0x1_0000_0000u64) by (nonlinear_arith)
            requires
                n <= u64::MAX,
        ;
    }
    while lo + 1 < hi
        invariant
            lo < hi,
            hi <= 0x1_0000_0000,
            lo * lo <= n,
            n < hi * hi,
        decreases hi - lo,
    {
        let mid: u64 = lo + (hi - lo) / 2;
        proof {
            assert(mid * mid < 0x1_0000_0000_0000_0000) by (nonlinear_arith)
                requires
                    mid < 0x1_0000_0000,
            ;
        }
        if mid * mid <= n {
            lo = mid;
        } else {
            hi = mid;
        }
    }
    proof {
        lemma_sqrt_floor_bounds(n as int);
        lemma_sqrt_unique(n as int, lo as int, sqrt_floor(n as int));
    }
    lo
}

/// Division by a positive divisor maps `[-m * k, m * k]` into `[-k, k]`.
pub proof fn lemma_fdiv_bound(x: int, m: int, k: int)
    requires
        m > 0,
        k >= 0,
        -(m * k) <= x <= m * k,
    ensures
        -k <= x / m <= k,
{
    assert(m * k == k * m && m * (-k) == -(m * k)) by (nonlinear_arith);
    vstd::arithmetic::div_mod::lemma_div_is_ordered(x, m * k, m);
    vstd::arithmetic::div_mod::lemma_div_is_ordered(-(m * k), x, m);
    vstd::arithmetic::div_mod::lemma_div_multiples_vanish(k, m);
    vstd::arithmetic::div_mod::lemma_div_multiples_vanish(-k, m);
}

} // verus!
