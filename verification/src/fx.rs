//! Signed 16.16 fixed-point scalars.
//!
//! A scalar holds `v * 65536` in an `i64`; products and quotients are
//! rescaled with truncation toward zero. All operations are exact integer
//! functions of their inputs, so matrix and quaternion code built on them
//! is deterministic and can be specified precisely.

use vstd::arithmetic::div_mod::{lemma_div_is_ordered, lemma_div_multiples_vanish};
use vstd::prelude::*;

verus! {

/// One in 16.16 fixed point.
pub const FX_ONE: i64 = 65536;

/// `p` rescaled down by one fixed-point factor, rounded toward zero.
pub open spec fn scale_down(p: int) -> int {
    if p >= 0 {
        p / 65536
    } else {
        -((-p) / 65536)
    }
}

/// The fixed-point product of two scalars.
pub open spec fn fx_mul_spec(a: int, b: int) -> int {
    scale_down(a * b)
}

/// The fixed-point quotient of two scalars (`b > 0`), rounded toward zero.
pub open spec fn fx_div_spec(a: int, b: int) -> int {
    if a >= 0 {
        (a * 65536) / b
    } else {
        -(((-a) * 65536) / b)
    }
}

/// `v` limited to the closed interval `[lo, hi]`.
pub open spec fn clamp_spec(v: int, lo: int, hi: int) -> int {
    if v < lo {
        lo
    } else if v > hi {
        hi
    } else {
        v
    }
}

pub open spec fn abs_spec(a: int) -> int {
    if a >= 0 {
        a
    } else {
        -a
    }
}

pub proof fn lemma_scale_down_bound(p: int, b: int)
    requires
        -b <= p <= b,
        0 <= b,
    ensures
        -(b / 65536) <= scale_down(p) <= b / 65536,
{
    if p >= 0 {
        lemma_div_is_ordered(p, b, 65536);
        assert(p / 65536 >= 0) by (nonlinear_arith)
            requires
                p >= 0,
        ;
    } else {
        lemma_div_is_ordered(-p, b, 65536);
        assert((-p) / 65536 >= 0) by (nonlinear_arith)
            requires
                -p >= 0,
        ;
    }
}

/// Rescaling an exact multiple of the fixed-point factor is lossless.
pub proof fn lemma_scale_down_exact(x: int)
    ensures
        scale_down(x * 65536) == x,
{
    if x >= 0 {
        lemma_div_multiples_vanish(x, 65536);
    } else {
        assert(-(x * 65536) == (-x) * 65536);
        lemma_div_multiples_vanish(-x, 65536);
    }
}

proof fn lemma_abs_mul(a: int, b: int)
    by (nonlinear_arith)
    ensures
        a * b == if (a >= 0) == (b >= 0) {
            abs_spec(a) * abs_spec(b)
        } else {
            -(abs_spec(a) * abs_spec(b))
        },
        abs_spec(a) * abs_spec(b) >= 0,
{
}

/// The magnitude of `a` (exact also for `i64::MIN`).
pub fn abs64(a: i64) -> (r: u64)
    ensures
        r == abs_spec(a as int),
{
    if a >= 0 {
        a as u64
    } else {
        (-(a as i128)) as u64
    }
}

/// The fixed-point product, exact per `fx_mul_spec`.
pub fn fx_mul(a: i64, b: i64) -> (r: i64)
    requires
        i64::MIN <= fx_mul_spec(a as int, b as int) <= i64::MAX,
    ensures
        r == fx_mul_spec(a as int, b as int),
{
    let am: u64 = abs64(a);
    let bm: u64 = abs64(b);
    proof {
        assert((am as int) * (bm as int) <= u128::MAX) by (nonlinear_arith)
            requires
                am <= u64::MAX && bm <= u64::MAX,
        ;
    }
    let pm: u128 = (am as u128) * (bm as u128);
    let qm: u128 = pm / 65536;
    proof {
        lemma_abs_mul(a as int, b as int);
    }
    if (a >= 0) == (b >= 0) {
        qm as i64
    } else {
        (-(qm as i128)) as i64
    }
}

/// The fixed-point quotient of `a` by `b > 0`, exact per `fx_div_spec`.
pub fn fx_div(a: i64, b: i64) -> (r: i64)
    requires
        b > 0,
        i64::MIN <= fx_div_spec(a as int, b as int) <= i64::MAX,
    ensures
        r == fx_div_spec(a as int, b as int),
{
    let am: u64 = abs64(a);
    let pm: u128 = (am as u128) * 65536;
    let qm: u128 = pm / (b as u128);
    proof {
        assert((a as int) * 65536 == if a >= 0 {
            (am as int) * 65536
        } else {
            -((am as int) * 65536)
        });
    }
    if a >= 0 {
        qm as i64
    } else {
        (-(qm as i128)) as i64
    }
}

pub proof fn lemma_scale_down_nonneg(p: int)
    requires
        p >= 0,
    ensures
        scale_down(p) >= 0,
{
    vstd::arithmetic::div_mod::lemma_div_pos_is_pos(p, 65536);
}

/// Division of a non-negative scalar by a positive constant.
pub fn div_floor_nonneg(a: i64, d: i64) -> (r: i64)
    requires
        a >= 0,
        d > 0,
    ensures
        r == a as int / d as int,
        0 <= r <= a,
{
    proof {
        vstd::arithmetic::div_mod::lemma_div_nonincreasing(a as int, d as int);
        vstd::arithmetic::div_mod::lemma_div_pos_is_pos(a as int, d as int);
    }
    ((a as u64) / (d as u64)) as i64
}

/// `v` limited to `[lo, hi]`.
pub fn fx_clamp(v: i64, lo: i64, hi: i64) -> (r: i64)
    requires
        lo <= hi,
    ensures
        r == clamp_spec(v as int, lo as int, hi as int),
{
    if v < lo {
        lo
    } else if v > hi {
        hi
    } else {
        v
    }
}

/// A fixed-point quotient is within the scaled numerator magnitude.
pub proof fn lemma_fx_div_bound(a: int, b: int)
    requires
        b >= 1,
    ensures
        -(abs_spec(a) * 65536) <= fx_div_spec(a, b) <= abs_spec(a) * 65536,
{
    if a >= 0 {
        vstd::arithmetic::div_mod::lemma_div_nonincreasing(a * 65536, b);
        vstd::arithmetic::div_mod::lemma_div_pos_is_pos(a * 65536, b);
    } else {
        vstd::arithmetic::div_mod::lemma_div_nonincreasing((-a) * 65536, b);
        vstd::arithmetic::div_mod::lemma_div_pos_is_pos((-a) * 65536, b);
    }
}

/// `r` is the integer square root of `n`.
pub open spec fn is_int_sqrt(n: int, r: int) -> bool {
    0 <= r && r * r <= n < (r + 1) * (r + 1)
}

/// The integer square root of `n`: the unique `r >= 0` with
/// `r * r <= n < (r + 1) * (r + 1)`.
pub open spec fn int_sqrt(n: int) -> int {
    choose|r: int| is_int_sqrt(n, r)
}

/// There is exactly one integer square root, so a witness pins `int_sqrt`.
pub proof fn lemma_int_sqrt_unique(n: int, r: int)
    requires
        0 <= r,
        r * r <= n,
        n < (r + 1) * (r + 1),
    ensures
        int_sqrt(n) == r,
{
    assert(is_int_sqrt(n, r));
    let c = int_sqrt(n);
    assert(is_int_sqrt(n, c)) by {
        assert(exists|q: int| is_int_sqrt(n, q));
    }
    if c < r {
        assert((c + 1) * (c + 1) <= r * r) by (nonlinear_arith)
            requires
                0 <= c < r,
        ;
    }
    if r < c {
        assert((r + 1) * (r + 1) <= c * c) by (nonlinear_arith)
            requires
                0 <= r < c,
        ;
    }
}

/// The integer square root: the largest `r` with `r * r <= n`.
pub fn isqrt64(n: u64) -> (r: u64)
    ensures
        r * r <= n,
        (r + 1) * (r + 1) > n,
        r <= 0xFFFF_FFFF,
        r == int_sqrt(n as int),
{
    let mut lo: u64 = 0;
    let mut hi: u64 = 0x1_0000_0000;
    proof {
        assert((0x1_0000_0000u64 as int) * (0x1_0000_0000u64 as int) > n as int);
    }
    while hi - lo > 1
        invariant
            lo < hi <= 0x1_0000_0000,
            (lo as int) * (lo as int) <= n as int,
            (hi as int) * (hi as int) > n as int,
        decreases hi - lo,
    {
        let mid: u64 = lo + (hi - lo) / 2;
        proof {
            assert((mid as int) * (mid as int) <= u128::MAX) by (nonlinear_arith)
                requires
                    mid <= 0x1_0000_0000u64,
            ;
        }
        if (mid as u128) * (mid as u128) <= n as u128 {
            lo = mid;
        } else {
            hi = mid;
        }
    }
    proof {
        lemma_int_sqrt_unique(n as int, lo as int);
    }
    lo
}

} // verus!
