use vstd::prelude::*;
use vstd::arithmetic::div_mod::{lemma_div_is_ordered, lemma_fundamental_div_mod, lemma_fundamental_div_mod_converse};

verus! {

/// Fixed-point scale: one pixel (or one world-space unit) is `FX` units.
/// A quantity `q` in fixed-point units stands for the rational `q / FX`.
pub const FX: i64 = 256;

/// Half a unit: the offset from a pixel's corner to its sample center.
pub const FX_HALF: i64 = 128;

/// The largest magnitude a screen-space coordinate handed to the rasterizer
/// may have. Keeps every edge-function product inside `i64`.
pub const COORD_LIMIT: i64 = 0x400_0000;

/// Truncating (round-toward-zero) division by a positive divisor, as the
/// hardware `/` on signed integers computes it. Spec-level `/` is Euclidean,
/// so the negative case is spelled out.
pub open spec fn tdiv(a: int, b: int) -> int {
    if a >= 0 {
        a / b
    } else {
        -((-a) / b)
    }
}

/// Truncating division never grows the magnitude of a bounded dividend:
/// if `|a| <= m * b` then `|tdiv(a, b)| <= m`.
pub proof fn lemma_tdiv_bound(a: int, b: int, m: int)
    requires
        b > 0,
        0 <= m,
        -(m * b) <= a <= m * b,
    ensures
        -m <= tdiv(a, b) <= m,
{
    if a >= 0 {
        lemma_div_is_ordered(a, m * b, b);
        lemma_div_exact(m, b);
        lemma_div_pos(a, b);
    } else {
        lemma_div_is_ordered(-a, m * b, b);
        lemma_div_exact(m, b);
        lemma_div_pos(-a, b);
    }
}

/// Dividing an exact multiple gives the factor back: `(m * b) / b == m`.
pub proof fn lemma_div_exact(m: int, b: int)
    requires
        b > 0,
    ensures
        (m * b) / b == m,
{
    lemma_fundamental_div_mod_converse(m * b, b, m, 0);
}

/// Euclidean division of a non-negative value by a positive divisor is
/// non-negative.
pub proof fn lemma_div_pos(a: int, b: int)
    requires
        a >= 0,
        b > 0,
    ensures
        a / b >= 0,
        a / b <= a,
    {
    lemma_fundamental_div_mod(a, b);
    if a / b < 0 {
        assert(b * (a / b) <= -b) by (nonlinear_arith)
            requires
                b > 0,
                a / b < 0,
        ;
    }
    if a / b > a {
        assert(b * (a / b) > a) by (nonlinear_arith)
            requires
                b >= 1,
                a / b > a,
                a >= 0,
        ;
    }
}

/// Floor division by a positive divisor, matching the spec-level `/`.
pub fn floor_div(a: i64, b: i64) -> (q: i64)
    requires
        0 < b <= 0x10000,
        -0x4000_0000_0000_0000 < a < 0x4000_0000_0000_0000,
    ensures
        q == a as int / b as int,
{
    if a >= 0 {
        a / b
    } else {
        let n = -a + b - 1;
        let q0 = n / b;
        proof {
            lemma_fundamental_div_mod(n as int, b as int);
            let r = n as int % (b as int);
            assert(a as int == (-q0 as int) * (b as int) + (b - 1 - r)) by (nonlinear_arith)
                requires
                    n as int == b as int * (q0 as int) + r,
                    n as int == -(a as int) + b - 1,
            ;
            lemma_fundamental_div_mod_converse(a as int, b as int, -q0 as int, b - 1 - r);
        }
        -q0
    }
}

/// Ceiling division by a positive divisor.
pub fn ceil_div(a: i64, b: i64) -> (q: i64)
    requires
        0 < b <= 0x10000,
        -0x4000_0000_0000_0000 < a < 0x4000_0000_0000_0000 - 0x10000,
    ensures
        q == (a + b - 1) as int / b as int,
{
    floor_div(a + b - 1, b)
}

/// Integer square root: the floor of the real square root.
pub fn isqrt_u64(n: u64) -> (r: u64)
    ensures
        r * r <= n,
        n < (r + 1) * (r + 1),
        r <= 0xFFFF_FFFF,
{
    let mut lo: u64 = 0;
    let mut hi: u64 = 0xFFFF_FFFF;
    while lo < hi
        invariant
            lo <= hi <= 0xFFFF_FFFF,
            lo * lo <= n,
            n < (hi + 1) * (hi + 1),
        decreases hi - lo,
    {
        let mid = lo + (hi - lo + 1) / 2;
        proof {
            assert(lo < mid <= hi);
            assert(mid * mid <= 0xFFFF_FFFF * 0xFFFF_FFFF) by (nonlinear_arith)
                requires
                    0 <= mid <= 0xFFFF_FFFF,
            ;
        }
        if mid * mid <= n {
            lo = mid;
        } else {
            hi = mid - 1;
        }
    }
    lo
}

/// Clamp a value into `[lo, hi]`.
pub fn clamp_i64(v: i64, lo: i64, hi: i64) -> (r: i64)
    requires
        lo <= hi,
    ensures
        r == clamp_spec(v as int, lo as int, hi as int),
{
    if v < lo {
        lo
    } else if v > hi {
        hi
    } else {
        v
    }
}

pub open spec fn clamp_spec(v: int, lo: int, hi: int) -> int {
    if v < lo {
        lo
    } else if v > hi {
        hi
    } else {
        v
    }
}

pub open spec fn min_spec(a: int, b: int) -> int {
    if a < b {
        a
    } else {
        b
    }
}

pub open spec fn max_spec(a: int, b: int) -> int {
    if a > b {
        a
    } else {
        b
    }
}

pub open spec fn abs_spec(a: int) -> int {
    if a < 0 {
        -a
    } else {
        a
    }
}

} // verus!
