//! 16.16 fixed-point scalar arithmetic.
//!
//! A fixed-point value stores a world quantity scaled by 65536, so all of
//! the engine's geometry runs on exact integer arithmetic.  Multiplication
//! and division round toward negative infinity; each operation's contract
//! states the result as an exact integer expression.

use vstd::prelude::*;
use vstd::arithmetic::div_mod::lemma_fundamental_div_mod;
use vstd::arithmetic::div_mod::lemma_fundamental_div_mod_converse;
use vstd::arithmetic::div_mod::lemma_mod_bound;

verus! {

/// The fixed-point representation of 1.0.
pub const ONE: i64 = 65536;

/// Floor division of `a` by a positive divisor `b`.
pub fn floor_div(a: i128, b: i128) -> (r: i128)
    requires
        b > 0,
        a > i128::MIN,
    ensures
        r == a as int / b as int,
{
    if a >= 0 {
        a / b
    } else {
        let neg = -a;
        let q = neg / b;
        let m = neg % b;
        proof {
            lemma_fundamental_div_mod(neg as int, b as int);
            lemma_mod_bound(neg as int, b as int);
            assert(neg == b * q + m);
            if m == 0 {
                assert(a as int == (-q) * b + 0) by (nonlinear_arith)
                    requires
                        a == -neg && neg == b * q + m && m == 0,
                ;
                lemma_fundamental_div_mod_converse(a as int, b as int, -q, 0);
            } else {
                assert(a as int == (-q - 1) * b + (b - m)) by (nonlinear_arith)
                    requires
                        a == -neg && neg == b * q + m,
                ;
                lemma_fundamental_div_mod_converse(a as int, b as int, -q - 1, b - m);
            }
        }
        if m == 0 {
            -q
        } else {
            -q - 1
        }
    }
}

/// Fixed-point product: `(a * b) / 65536`, rounded toward negative infinity.
pub fn fmul(a: i64, b: i64) -> (r: i64)
    requires
        i64::MIN <= (a as int * b as int) / 65536 <= i64::MAX,
    ensures
        r == (a as int * b as int) / 65536,
{
    let p: i128 = (a as i128) * (b as i128);
    let q = floor_div(p, 65536);
    q as i64
}

/// Fixed-point quotient: `(a * 65536) / b`, rounded toward negative
/// infinity, for a positive divisor.
pub fn fdiv(a: i64, b: i64) -> (r: i64)
    requires
        b > 0,
        i64::MIN <= (a as int * 65536) / b as int <= i64::MAX,
    ensures
        r == (a as int * 65536) / b as int,
{
    let p: i128 = (a as i128) * 65536;
    let q = floor_div(p, b as i128);
    q as i64
}

/// Division by a positive divisor never grows a value's magnitude.
pub proof fn lemma_div_bounded(p: int, b: int, c: int)
    requires
        b >= 1,
        0 <= c,
        -c <= p <= c,
    ensures
        -c <= p / b <= c,
{
    lemma_fundamental_div_mod(p, b);
    lemma_mod_bound(p, b);
    let q = p / b;
    let r = p % b;
    assert(-c <= q <= c) by (nonlinear_arith)
        requires
            p == b * q + r,
            0 <= r < b,
            b >= 1,
            0 <= c,
            -c <= p <= c,
    ;
}

/// Division by a positive divisor scales a bound down with it.
pub proof fn lemma_div_shrinks(p: int, b: int, c: int)
    requires
        b >= 1,
        0 <= c,
        -b * c <= p <= b * c,
    ensures
        -c <= p / b <= c,
{
    vstd::arithmetic::div_mod::lemma_div_is_ordered(p, b * c, b);
    vstd::arithmetic::div_mod::lemma_div_is_ordered(-b * c, p, b);
    vstd::arithmetic::div_mod::lemma_div_multiples_vanish(c, b);
    vstd::arithmetic::div_mod::lemma_div_multiples_vanish(-c, b);
    assert(b * c == b * c && -b * c == b * (-c)) by (nonlinear_arith);
}

/// The integer square root, as a mathematical function: the unique
/// non-negative `r` with `r * r <= n < (r + 1) * (r + 1)`.
pub open spec fn sqrt_floor(n: int) -> int {
    choose|r: int| 0 <= r && #[trigger] (r * r) <= n < (r + 1) * (r + 1)
}

/// Any witness of the square-root bounds is the square root.
pub proof fn lemma_sqrt_floor_unique(n: int, r: int)
    requires
        0 <= r,
        r * r <= n < (r + 1) * (r + 1),
    ensures
        r == sqrt_floor(n),
{
    let w = sqrt_floor(n);
    assert(0 <= w && w * w <= n < (w + 1) * (w + 1)) by {
        assert(0 <= r && r * r <= n < (r + 1) * (r + 1));
    }
    if r < w {
        assert((r + 1) * (r + 1) <= w * w) by (nonlinear_arith)
            requires
                0 <= r && r + 1 <= w,
        ;
    }
    if w < r {
        assert((w + 1) * (w + 1) <= r * r) by (nonlinear_arith)
            requires
                0 <= w && w + 1 <= r,
        ;
    }
}

/// Integer square root: the largest `r` with `r * r <= n`.
pub fn isqrt(n: u64) -> (r: u64)
    ensures
        r * r <= n < (r + 1) * (r + 1),
        r == sqrt_floor(n as int),
{
    if n == 0 {
        proof {
            lemma_sqrt_floor_unique(0, 0);
        }
        return 0;
    }
    let mut lo: u64 = 0;
    let mut hi: u64 = 4294967296;
    while lo + 1 < hi
        invariant
            lo < hi <= 4294967296,
            lo * lo <= n,
            n < hi * hi,
        decreases hi - lo,
    {
        let mid = lo + (hi - lo) / 2;
        proof {
            assert(mid * mid < 0x10000000000000000) by (nonlinear_arith)
                requires
                    0 <= mid < 0x100000000,
            ;
        }
        if mid * mid <= n {
            lo = mid;
        } else {
            hi = mid;
        }
    }
    proof {
        lemma_sqrt_floor_unique(n as int, lo as int);
    }
    lo
}

/// Integer square root of a wide value below 2^66.
pub fn isqrt128(n: u128) -> (r: u64)
    requires
        n < 0x40000000000000000,
    ensures
        r * r <= n < (r + 1) * (r + 1),
        r == sqrt_floor(n as int),
{
    if n == 0 {
        proof {
            lemma_sqrt_floor_unique(0, 0);
        }
        return 0;
    }
    let mut lo: u128 = 0;
    let mut hi: u128 = 0x200000000;
    while lo + 1 < hi
        invariant
            lo < hi <= 0x200000000,
            lo * lo <= n,
            n < hi * hi,
        decreases hi - lo,
    {
        let mid = lo + (hi - lo) / 2;
        proof {
            assert(mid * mid < 0x40000000000000001) by (nonlinear_arith)
                requires
                    0 <= mid < 0x200000001,
            ;
        }
        if mid * mid <= n {
            lo = mid;
        } else {
            hi = mid;
        }
    }
    proof {
        lemma_sqrt_floor_unique(n as int, lo as int);
        assert(lo < 0x200000000);
    }
    lo as u64
}

/// Fixed-point square root of a non-negative fixed-point value:
/// the largest fixed-point `r` with `r * r <= n * 65536`.
pub fn fsqrt(n: i64) -> (r: i64)
    requires
        0 <= n <= 0x7fff_ffff_ffff,
    ensures
        0 <= r,
        r * r <= n * 65536 < (r + 1) * (r + 1),
        r == sqrt_floor(n as int * 65536),
{
    let wide: u64 = (n as u64) * 65536;
    let root = isqrt(wide);
    proof {
        assert(root < 0x100000000) by (nonlinear_arith)
            requires
                root * root <= wide && wide < 0x8000000000000000,
        ;
    }
    root as i64
}

/// Absolute value.
pub fn fabs(a: i64) -> (r: i64)
    requires
        a > i64::MIN,
    ensures
        r == if a < 0 { -(a as int) } else { a as int },
        r >= 0,
{
    if a < 0 {
        -a
    } else {
        a
    }
}

} // verus!
