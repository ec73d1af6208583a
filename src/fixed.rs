//! Fixed-point numbers: a real value `v` is held as the integer `v * ONE`,
//! rounded toward zero.
use vstd::prelude::*;
use vstd::arithmetic::div_mod::lemma_div_is_ordered;

verus! {

/// The fixed-point unit: one millionth.
pub const ONE: i64 = 1_000_000;

/// Largest magnitude of a color channel or blend factor that the arithmetic
/// below accepts without overflow.
pub const LIMIT: i64 = 0x100_0000_0000;

/// Division rounding toward zero, as a float-to-integer cast does.
pub open spec fn trunc_div(n: int, d: int) -> int
    recommends
        d > 0,
{
    if n >= 0 {
        n / d
    } else {
        -((-n) / d)
    }
}

/// `v` limited to `[lo, hi]`.
pub open spec fn clamp(v: int, lo: int, hi: int) -> int {
    if v < lo {
        lo
    } else if v > hi {
        hi
    } else {
        v
    }
}

pub open spec fn abs(v: int) -> int {
    if v < 0 {
        -v
    } else {
        v
    }
}

/// Exec form of `trunc_div` on 128-bit values.
pub fn div_toward_zero(n: i128, d: i128) -> (q: i128)
    requires
        d > 0,
        n > i128::MIN,
    ensures
        q == trunc_div(n as int, d as int),
{
    if n >= 0 {
        n / d
    } else {
        let m: i128 = -n;
        -(m / d)
    }
}

/// Absolute value of a fixed-point number.
pub fn fixed_abs(v: i64) -> (r: i64)
    requires
        v > i64::MIN,
    ensures
        r == abs(v as int),
{
    if v < 0 {
        -v
    } else {
        v
    }
}

/// `v` limited to `[lo, hi]`.
pub fn fixed_clamp(v: i64, lo: i64, hi: i64) -> (r: i64)
    requires
        lo <= hi,
    ensures
        r == clamp(v as int, lo as int, hi as int),
{
    if v < lo {
        lo
    } else if v > hi {
        hi
    } else {
        v
    }
}

/// Rounding toward zero never moves a value away from zero.
pub proof fn lemma_trunc_div_shrinks(n: int, d: int)
    requires
        d >= 1,
    ensures
        abs(trunc_div(n, d)) <= abs(n),
        n >= 0 ==> trunc_div(n, d) >= 0,
        n <= 0 ==> trunc_div(n, d) <= 0,
{
    let m = abs(n);
    assert(0 <= m / d <= m) by (nonlinear_arith)
        requires
            m >= 0,
            d >= 1,
    ;
}

/// Rounding toward zero is monotone.
pub proof fn lemma_trunc_div_monotone(x: int, y: int, d: int)
    requires
        x <= y,
        d >= 1,
    ensures
        trunc_div(x, d) <= trunc_div(y, d),
{
    if x >= 0 {
        lemma_div_is_ordered(x, y, d);
    } else if y < 0 {
        lemma_div_is_ordered(-y, -x, d);
    } else {
        lemma_trunc_div_shrinks(x, d);
        lemma_trunc_div_shrinks(y, d);
    }
}

/// Dividing an exact multiple gives the factor back.
pub proof fn lemma_trunc_div_multiple(k: int, d: int)
    requires
        d >= 1,
    ensures
        trunc_div(k * d, d) == k,
{
    if k >= 0 {
        assert((k * d) / d == k) by (nonlinear_arith)
            requires
                d >= 1,
        ;
        assert(k * d >= 0) by (nonlinear_arith)
            requires
                d >= 1,
                k >= 0,
        ;
    } else {
        assert(((-k) * d) / d == -k) by (nonlinear_arith)
            requires
                d >= 1,
        ;
        assert(k * d < 0) by (nonlinear_arith)
            requires
                d >= 1,
                k < 0,
        ;
        assert(-(k * d) == (-k) * d) by (nonlinear_arith);
    }
}

} // verus!
