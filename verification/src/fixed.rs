//! Exact fixed-point arithmetic helpers.
//!
//! All scaled quantities in this crate are integers with an implicit power-of-
//! ten scale.  Division always rounds toward zero (the behaviour of casting a
//! float to an integer, and of hardware signed division), which `tdiv` states
//! over mathematical integers.

use vstd::prelude::*;

verus! {

/// Division rounding toward zero, for a positive divisor.
pub open spec fn tdiv(a: int, d: int) -> int
    recommends
        d > 0,
{
    if a >= 0 {
        a / d
    } else {
        -((-a) / d)
    }
}

/// Absolute value of a mathematical integer.
pub open spec fn abs(a: int) -> int {
    if a >= 0 {
        a
    } else {
        -a
    }
}

/// Clamp a mathematical integer into an inclusive range.
pub open spec fn clamp(a: int, lo: int, hi: int) -> int
    recommends
        lo <= hi,
{
    if a < lo {
        lo
    } else if a > hi {
        hi
    } else {
        a
    }
}

/// `a / d` rounded toward zero, on `i128` words.
pub fn tdiv_i128(a: i128, d: i128) -> (r: i128)
    requires
        d > 0,
        a > i128::MIN,
    ensures
        r == tdiv(a as int, d as int),
        abs(r as int) <= abs(a as int),
{
    if a >= 0 {
        let q: u128 = (a as u128) / (d as u128);
        proof {
            vstd::arithmetic::div_mod::lemma_div_basics_5(a as int, d as int);
        }
        q as i128
    } else {
        let m: u128 = (-a) as u128;
        let q: u128 = m / (d as u128);
        proof {
            vstd::arithmetic::div_mod::lemma_div_basics_5(m as int, d as int);
        }
        -(q as i128)
    }
}

/// `a * b / d` rounded toward zero, computed without overflow on `i128`
/// intermediates.
pub fn mul_div_i64(a: i64, b: i64, d: i64) -> (r: i64)
    requires
        d > 0,
        -(i64::MAX as int) <= tdiv(a as int * b as int, d as int) <= i64::MAX as int,
    ensures
        r == tdiv(a as int * b as int, d as int),
{
    proof {
        assert(-0x4000_0000_0000_0000_0000_0000_0000_0000 <= a as int * b as int
            <= 0x4000_0000_0000_0000_0000_0000_0000_0000) by (nonlinear_arith)
            requires
                i64::MIN <= a <= i64::MAX,
                i64::MIN <= b <= i64::MAX,
        ;
    }
    let p: i128 = (a as i128) * (b as i128);
    let q: i128 = tdiv_i128(p, d as i128);
    q as i64
}

/// Truncated division shrinks magnitudes: if `|a| <= b` then
/// `|a / d| <= b / d`.
pub proof fn lemma_tdiv_abs_le(a: int, d: int, b: int)
    requires
        d > 0,
        abs(a) <= b,
    ensures
        abs(tdiv(a, d)) <= b / d,
{
    if a >= 0 {
        vstd::arithmetic::div_mod::lemma_div_is_ordered(a, b, d);
        vstd::arithmetic::div_mod::lemma_div_basics_4(a, d);
    } else {
        vstd::arithmetic::div_mod::lemma_div_is_ordered(-a, b, d);
        vstd::arithmetic::div_mod::lemma_div_basics_4(-a, d);
    }
}

/// Whether `n` is a power of two.
pub open spec fn is_pow2(n: int) -> bool
    decreases n,
{
    if n <= 0 {
        false
    } else if n == 1 {
        true
    } else {
        n % 2 == 0 && is_pow2(n / 2)
    }
}

/// The integer square root as a spec value: the greatest `r` with
/// `r * r <= x` (0 for non-positive `x`).
pub open spec fn sqrt_floor(x: int) -> int
    decreases x,
{
    if x <= 0 {
        0
    } else {
        let p = sqrt_floor(x - 1);
        if (p + 1) * (p + 1) <= x {
            p + 1
        } else {
            p
        }
    }
}

/// `sqrt_floor` is non-negative and brackets its argument between
/// consecutive squares.
pub proof fn lemma_sqrt_floor_bracket(x: int)
    requires
        x >= 0,
    ensures
        sqrt_floor(x) >= 0,
        sqrt_floor(x) * sqrt_floor(x) <= x,
        x < (sqrt_floor(x) + 1) * (sqrt_floor(x) + 1),
    decreases x,
{
    if x > 0 {
        lemma_sqrt_floor_bracket(x - 1);
        let p = sqrt_floor(x - 1);
        if (p + 1) * (p + 1) <= x {
            assert(x < (p + 2) * (p + 2)) by (nonlinear_arith)
                requires
                    p >= 0,
                    x - 1 < (p + 1) * (p + 1),
            ;
        }
    }
}

/// Any value bracketed between consecutive squares is the integer square
/// root.
pub proof fn lemma_sqrt_floor_unique(x: int, r: int)
    requires
        x >= 0,
        r >= 0,
        r * r <= x,
        x < (r + 1) * (r + 1),
    ensures
        r == sqrt_floor(x),
{
    lemma_sqrt_floor_bracket(x);
    let s = sqrt_floor(x);
    assert(!(r < s) && !(s < r)) by (nonlinear_arith)
        requires
            r >= 0,
            s >= 0,
            r * r <= x,
            x < (r + 1) * (r + 1),
            s * s <= x,
            x < (s + 1) * (s + 1),
    ;
}

/// Integer square root: the greatest `r` with `r * r <= x`.
pub fn isqrt_u64(x: u64) -> (r: u64)
    ensures
        (r as int) * (r as int) <= x as int,
        (x as int) < (r as int + 1) * (r as int + 1),
        r as int == sqrt_floor(x as int),
{
    let r = isqrt_u64_inner(x);
    proof {
        lemma_sqrt_floor_unique(x as int, r as int);
    }
    r
}

fn isqrt_u64_inner(x: u64) -> (r: u64)
    ensures
        (r as int) * (r as int) <= x as int,
        (x as int) < (r as int + 1) * (r as int + 1),
{
    if x == 0 {
        return 0;
    }
    let mut lo: u64 = 0;
    let mut hi: u64 = 0x1_0000_0000;
    proof {
        assert((hi as int) * (hi as int) > x as int) by (nonlinear_arith)
            requires
                hi == 0x1_0000_0000u64,
                x <= u64::MAX,
        ;
    }
    while lo + 1 < hi
        invariant
            lo < hi <= 0x1_0000_0000u64,
            (lo as int) * (lo as int) <= x as int,
            (x as int) < (hi as int) * (hi as int),
        decreases hi - lo,
    {
        let mid: u64 = lo + (hi - lo) / 2;
        proof {
            assert(mid as int * mid as int <= 0x1_0000_0000_0000_0000) by (nonlinear_arith)
                requires
                    0 <= mid <= 0x1_0000_0000u64,
            ;
        }
        if (mid as u128) * (mid as u128) <= (x as u128) {
            lo = mid;
        } else {
            hi = mid;
        }
    }
    lo
}

/// Integer square root on 128-bit words, for arguments below 2^126.
pub fn isqrt_u128(x: u128) -> (r: u128)
    requires
        x < 0x4000_0000_0000_0000_0000_0000_0000_0000,
    ensures
        (r as int) * (r as int) <= x as int,
        (x as int) < (r as int + 1) * (r as int + 1),
        r as int == sqrt_floor(x as int),
{
    if x == 0 {
        proof {
            lemma_sqrt_floor_unique(0, 0);
        }
        return 0;
    }
    let mut lo: u128 = 0;
    let mut hi: u128 = 0x8000_0000_0000_0000;
    proof {
        assert((hi as int) * (hi as int) > x as int) by (nonlinear_arith)
            requires
                hi == 0x8000_0000_0000_0000u128,
                x < 0x4000_0000_0000_0000_0000_0000_0000_0000,
        ;
    }
    while lo + 1 < hi
        invariant
            lo < hi <= 0x8000_0000_0000_0000u128,
            (lo as int) * (lo as int) <= x as int,
            (x as int) < (hi as int) * (hi as int),
        decreases hi - lo,
    {
        let mid: u128 = lo + (hi - lo) / 2;
        proof {
            assert((mid as int) * (mid as int) < 0x1_0000_0000_0000_0000_0000_0000_0000_0000)
                by (nonlinear_arith)
                requires
                    0 <= mid <= 0x8000_0000_0000_0000u128,
            ;
        }
        if mid * mid <= x {
            lo = mid;
        } else {
            hi = mid;
        }
    }
    proof {
        lemma_sqrt_floor_unique(x as int, lo as int);
    }
    lo
}

/// Sum of a sequence of integers.
pub open spec fn sum_seq(s: Seq<int>) -> int
    decreases s.len(),
{
    if s.len() == 0 {
        0
    } else {
        sum_seq(s.drop_last()) + s.last()
    }
}

/// Extending a prefix by one element adds that element to its sum.
pub proof fn lemma_sum_take_step(s: Seq<int>, i: int)
    requires
        0 <= i < s.len(),
    ensures
        sum_seq(s.take(i + 1)) == sum_seq(s.take(i)) + s[i],
{
    assert(s.take(i + 1).drop_last() =~= s.take(i));
    assert(s.take(i + 1).last() == s[i]);
}

/// A sum of elements bounded in magnitude by `b` is bounded by `len * b`.
pub proof fn lemma_sum_abs_bound(s: Seq<int>, b: int)
    requires
        b >= 0,
        forall|i: int| 0 <= i < s.len() ==> -b <= #[trigger] s[i] <= b,
    ensures
        -(s.len() as int * b) <= sum_seq(s) <= s.len() as int * b,
    decreases s.len(),
{
    if s.len() > 0 {
        lemma_sum_abs_bound(s.drop_last(), b);
        assert(s.drop_last().len() as int * b + b == s.len() as int * b) by (nonlinear_arith)
            requires
                s.drop_last().len() + 1 == s.len(),
        ;
    }
}

/// The sum of an all-zero sequence is zero.
pub proof fn lemma_sum_zero(s: Seq<int>)
    requires
        forall|i: int| 0 <= i < s.len() ==> #[trigger] s[i] == 0,
    ensures
        sum_seq(s) == 0,
    decreases s.len(),
{
    if s.len() > 0 {
        lemma_sum_zero(s.drop_last());
    }
}

/// The sum of `n` copies of `v` is `n * v`.
pub proof fn lemma_sum_constant(s: Seq<int>, v: int)
    requires
        forall|i: int| 0 <= i < s.len() ==> #[trigger] s[i] == v,
    ensures
        sum_seq(s) == s.len() as int * v,
    decreases s.len(),
{
    if s.len() > 0 {
        lemma_sum_constant(s.drop_last(), v);
        assert(s.drop_last().len() as int * v + v == s.len() as int * v) by (nonlinear_arith)
            requires
                s.drop_last().len() + 1 == s.len(),
        ;
    } else {
        assert(s.len() as int * v == 0) by (nonlinear_arith)
            requires
                s.len() == 0,
        ;
    }
}

} // verus!
