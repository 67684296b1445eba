//! Scalar helpers shared by the geometry code: truncating signed division
//! and an integer square root.

use vstd::prelude::*;

verus! {

/// Fixed-point scale: a vector of squared length `UNIT * UNIT` stands for a
/// unit vector, and a fraction of `UNIT` stands for 1.0.
pub const UNIT: i64 = 1000;

/// Truncating (round-toward-zero) division of `a` by a positive `b`, the
/// rounding that machine signed division performs. Spec-level `/` rounds
/// toward negative infinity, so the two differ on negative dividends.
pub open spec fn div_trunc(a: int, b: int) -> int {
    if a >= 0 {
        a / b
    } else {
        -((-a) / b)
    }
}

/// Divides a signed value by a positive divisor, rounding toward zero.
pub fn div_trunc_i64(a: i64, b: i64) -> (r: i64)
    requires
        b > 0,
        a > i64::MIN,
    ensures
        r == div_trunc(a as int, b as int),
{
    if a >= 0 {
        let q: u64 = (a as u64) / (b as u64);
        q as i64
    } else {
        let m: u64 = (-a) as u64;
        let q: u64 = m / (b as u64);
        -(q as i64)
    }
}

/// Truncating division by a positive divisor never grows a bound on the
/// dividend: `|a| <= m * b` gives `|a / b| <= m`.
pub proof fn lemma_div_trunc_abs_le(a: int, b: int, m: int)
    requires
        b > 0,
        m >= 0,
        -(m * b) <= a <= m * b,
    ensures
        -m <= div_trunc(a, b) <= m,
{
    if a >= 0 {
        vstd::arithmetic::div_mod::lemma_div_is_ordered(a, m * b, b);
        vstd::arithmetic::div_mod::lemma_div_by_multiple(m, b);
        vstd::arithmetic::div_mod::lemma_div_pos_is_pos(a, b);
    } else {
        vstd::arithmetic::div_mod::lemma_div_is_ordered(-a, m * b, b);
        vstd::arithmetic::div_mod::lemma_div_by_multiple(m, b);
        vstd::arithmetic::div_mod::lemma_div_pos_is_pos(-a, b);
    }
}

/// Truncating division by a divisor of at least one never grows the
/// magnitude of the dividend.
pub proof fn lemma_div_trunc_le_abs(a: int, b: int)
    requires
        b >= 1,
    ensures
        div_trunc(a, b) <= vstd::math::abs(a),
        -(vstd::math::abs(a) as int) <= div_trunc(a, b),
{
    let m = vstd::math::abs(a) as int;
    assert(m <= m * b) by (nonlinear_arith)
        requires
            m >= 0,
            b >= 1,
    ;
    lemma_div_trunc_abs_le(a, b, m);
}

/// Stepping a prefix: taking one element more appends exactly the element
/// at the old boundary. What the per-element loops need each iteration.
pub proof fn lemma_take_step<T>(s: Seq<T>, i: int)
    requires
        0 <= i < s.len(),
    ensures
        s.take(i + 1).drop_last() == s.take(i),
        s.take(i + 1).last() == s[i],
{
    assert(s.take(i + 1).drop_last() =~= s.take(i));
}

/// `r` is the integer square root of `n`, rounded down.
pub open spec fn is_sqrt_floor(n: int, r: int) -> bool {
    &&& 0 <= r
    &&& r * r <= n
    &&& n < (r + 1) * (r + 1)
}

/// The integer square root of `n`, rounded down (meaningful for `n >= 0`;
/// see `lemma_sqrt_floor`).
pub open spec fn sqrt_floor(n: int) -> int {
    choose|r: int| #[trigger] is_sqrt_floor(n, r)
}

proof fn lemma_sqrt_floor_exists(n: nat)
    ensures
        exists|r: int| #[trigger] is_sqrt_floor(n as int, r),
    decreases n,
{
    if n == 0 {
        assert(is_sqrt_floor(0, 0));
    } else {
        lemma_sqrt_floor_exists((n - 1) as nat);
        let r = choose|r: int| #[trigger] is_sqrt_floor(n as int - 1, r);
        if (r + 1) * (r + 1) == n {
            assert((r + 2) * (r + 2) > n) by (nonlinear_arith)
                requires
                    r >= 0,
                    (r + 1) * (r + 1) == n,
            ;
            assert(is_sqrt_floor(n as int, r + 1));
        } else {
            assert(is_sqrt_floor(n as int, r));
        }
    }
}

/// There is exactly one integer square root.
pub proof fn lemma_sqrt_floor_unique(n: int, r1: int, r2: int)
    requires
        is_sqrt_floor(n, r1),
        is_sqrt_floor(n, r2),
    ensures
        r1 == r2,
{
    if r1 < r2 {
        assert(r2 * r2 > n) by (nonlinear_arith)
            requires
                0 <= r1 < r2,
                n < (r1 + 1) * (r1 + 1),
        ;
    }
    if r2 < r1 {
        assert(r1 * r1 > n) by (nonlinear_arith)
            requires
                0 <= r2 < r1,
                n < (r2 + 1) * (r2 + 1),
        ;
    }
}

/// `sqrt_floor(n)` really is the rounded-down square root of `n`.
pub proof fn lemma_sqrt_floor(n: int)
    requires
        n >= 0,
    ensures
        is_sqrt_floor(n, sqrt_floor(n)),
{
    lemma_sqrt_floor_exists(n as nat);
}

/// The integer square root, by binary search.
pub fn isqrt(n: u64) -> (r: u64)
    requires
        n < 0x4000_0000_0000_0000,
    ensures
        is_sqrt_floor(n as int, r as int),
        r == sqrt_floor(n as int),
{
    let mut lo: u64 = 0;
    let mut hi: u64 = 0x8000_0000;
    assert(hi * hi == 0x4000_0000_0000_0000) by (nonlinear_arith)
        requires
            hi == 0x8000_0000u64,
    ;
    while lo + 1 < hi
        invariant
            lo < hi <= 0x8000_0000,
            lo * lo <= n,
            n < hi * hi,
        decreases hi - lo,
    {
        let mid: u64 = lo + (hi - lo) / 2;
        assert(mid * mid < 0x8000_0000u64 * 0x8000_0000u64) by (nonlinear_arith)
            requires
                mid < 0x8000_0000u64,
        ;
        if mid * mid <= n {
            lo = mid;
        } else {
            hi = mid;
        }
    }
    proof {
        lemma_sqrt_floor(n as int);
        lemma_sqrt_floor_unique(n as int, lo as int, sqrt_floor(n as int));
    }
    lo
}

} // verus!
