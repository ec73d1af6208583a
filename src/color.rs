//! RGB colors with integer channels. Blending may leave `[0, 255]`; scaling
//! by an intensity clamps back into it.
use vstd::prelude::*;
use vstd::arithmetic::div_mod::lemma_div_is_ordered;
use crate::fixed::{
    clamp, div_toward_zero, lemma_trunc_div_monotone, lemma_trunc_div_multiple, trunc_div, LIMIT,
    ONE,
};

verus! {

/// An RGB color. A palette color has every channel in `[0, 255]`; a blend may
/// carry channels outside that range until the final intensity scale.
#[derive(Clone, Copy, PartialEq, Eq, Debug)]
pub struct Color {
    pub r: i64,
    pub g: i64,
    pub b: i64,
}

/// One channel of the blend from `a` toward `b` by the fixed-point factor `t`.
pub open spec fn lerp_channel(a: int, b: int, t: int) -> int {
    trunc_div(a * ONE + (b - a) * t, ONE as int)
}

/// One channel scaled by the fixed-point factor `k`, then clamped to `[0, 255]`.
pub open spec fn scale_channel(c: int, k: int) -> int {
    clamp(trunc_div(c * k, ONE as int), 0, 255)
}

pub open spec fn within_limit(v: int) -> bool {
    -LIMIT <= v <= LIMIT
}

impl Color {
    /// Every channel is a displayable value.
    pub open spec fn in_range(self) -> bool {
        0 <= self.r <= 255 && 0 <= self.g <= 255 && 0 <= self.b <= 255
    }

    /// Every channel is small enough to blend or scale without overflow.
    pub open spec fn bounded(self) -> bool {
        within_limit(self.r as int) && within_limit(self.g as int) && within_limit(self.b as int)
    }

    pub open spec fn rgb(r: int, g: int, b: int) -> Color {
        Color { r: r as i64, g: g as i64, b: b as i64 }
    }

    pub open spec fn lerp_spec(self, other: Color, t: int) -> Color {
        Color::rgb(
            lerp_channel(self.r as int, other.r as int, t),
            lerp_channel(self.g as int, other.g as int, t),
            lerp_channel(self.b as int, other.b as int, t),
        )
    }

    pub open spec fn scale_spec(self, k: int) -> Color {
        Color::rgb(
            scale_channel(self.r as int, k),
            scale_channel(self.g as int, k),
            scale_channel(self.b as int, k),
        )
    }

    pub fn new(r: u8, g: u8, b: u8) -> (c: Color)
        ensures
            c == Color::rgb(r as int, g as int, b as int),
            c.in_range(),
    {
        Color { r: r as i64, g: g as i64, b: b as i64 }
    }

    /// Linear blend from `self` toward `other` by the fixed-point factor `t`.
    /// Factors outside `[0, ONE]` extrapolate and the channels are not clamped.
    pub fn lerp(&self, other: &Color, t: i64) -> (c: Color)
        requires
            self.bounded(),
            other.bounded(),
            within_limit(t as int),
        ensures
            c == self.lerp_spec(*other, t as int),
    {
        Color {
            r: lerp_one(self.r, other.r, t),
            g: lerp_one(self.g, other.g, t),
            b: lerp_one(self.b, other.b, t),
        }
    }

    /// Every channel multiplied by the fixed-point factor `k`, then clamped
    /// to `[0, 255]`.
    pub fn scale(&self, k: i64) -> (c: Color)
        requires
            self.bounded(),
            within_limit(k as int),
        ensures
            c == self.scale_spec(k as int),
            c.in_range(),
    {
        Color { r: scale_one(self.r, k), g: scale_one(self.g, k), b: scale_one(self.b, k) }
    }
}

proof fn lemma_product_bound(x: int, y: int)
    requires
        within_limit(x),
        within_limit(y),
    ensures
        -0x1_0000_0000_0000_0000_0000 <= x * y <= 0x1_0000_0000_0000_0000_0000,
{
    assert(-0x1_0000_0000_0000_0000_0000 <= x * y <= 0x1_0000_0000_0000_0000_0000)
        by (nonlinear_arith)
        requires
            -0x100_0000_0000 <= x <= 0x100_0000_0000,
            -0x100_0000_0000 <= y <= 0x100_0000_0000,
    ;
}

fn lerp_one(a: i64, b: i64, t: i64) -> (c: i64)
    requires
        within_limit(a as int),
        within_limit(b as int),
        within_limit(t as int),
    ensures
        c == lerp_channel(a as int, b as int, t as int),
{
    let d: i128 = (b as i128) - (a as i128);
    proof {
        lemma_product_bound(a as int, ONE as int);
        assert(-0x200_0000_0000 <= d <= 0x200_0000_0000);
        assert(-0x2_0000_0000_0000_0000_0000 <= d * t <= 0x2_0000_0000_0000_0000_0000)
            by (nonlinear_arith)
            requires
                -0x200_0000_0000 <= d <= 0x200_0000_0000,
                -0x100_0000_0000 <= t <= 0x100_0000_0000,
        ;
    }
    let n: i128 = (a as i128) * (ONE as i128) + d * (t as i128);
    let q = div_toward_zero(n, ONE as i128);
    proof {
        let m: int = if n >= 0 { n as int } else { -n };
        assert(0 <= m <= 0x3_0000_0000_0000_0000_0000);
        lemma_div_is_ordered(m, 0x3_0000_0000_0000_0000_0000, 1_000_000);
        assert(0x3_0000_0000_0000_0000_0000int / 1_000_000 < 0x7000_0000_0000_0000) by (nonlinear_arith);
        assert(m / 1_000_000 >= 0) by (nonlinear_arith)
            requires
                0 <= m,
        ;
    }
    q as i64
}

fn scale_one(c: i64, k: i64) -> (r: i64)
    requires
        within_limit(c as int),
        within_limit(k as int),
    ensures
        r == scale_channel(c as int, k as int),
        0 <= r <= 255,
{
    proof {
        lemma_product_bound(c as int, k as int);
    }
    let p: i128 = (c as i128) * (k as i128);
    let q = div_toward_zero(p, ONE as i128);
    if q < 0 {
        0
    } else if q > 255 {
        255
    } else {
        q as i64
    }
}

/// A blend of two displayable channels by a factor of magnitude at most
/// `2^32 / ONE` stays far inside the arithmetic limit.
pub proof fn lemma_lerp_channel_small(a: int, b: int, t: int)
    requires
        0 <= a <= 255,
        0 <= b <= 255,
        -0x1_0000_0000 <= t <= 0x1_0000_0000,
    ensures
        within_limit(lerp_channel(a, b, t)),
{
    let n = a * ONE + (b - a) * t;
    assert(-0x200_0000_0000 <= a * 1_000_000 + (b - a) * t <= 0x200_0000_0000)
        by (nonlinear_arith)
        requires
            0 <= a <= 255,
            0 <= b <= 255,
            -0x1_0000_0000 <= t <= 0x1_0000_0000,
    ;
    lemma_trunc_div_monotone(n, 0x200_0000_0000, ONE as int);
    lemma_trunc_div_monotone(-0x200_0000_0000, n, ONE as int);
    assert(trunc_div(0x200_0000_0000, 1_000_000) <= LIMIT);
    assert(trunc_div(-0x200_0000_0000, 1_000_000) >= -LIMIT);
}

/// A blend by a factor in `[0, ONE]` lies between its two ends.
pub proof fn lemma_lerp_channel_between(a: int, b: int, t: int)
    requires
        0 <= t <= ONE,
    ensures
        a <= b ==> a <= lerp_channel(a, b, t) <= b,
        b <= a ==> b <= lerp_channel(a, b, t) <= a,
{
    let n = a * ONE + (b - a) * t;
    let lo = if a <= b { a } else { b };
    let hi = if a <= b { b } else { a };
    assert(lo * 1_000_000 <= a * 1_000_000 + (b - a) * t <= hi * 1_000_000) by (nonlinear_arith)
        requires
            0 <= t <= 1_000_000,
            lo == (if a <= b { a } else { b }),
            hi == (if a <= b { b } else { a }),
    ;
    lemma_trunc_div_monotone(lo * ONE, n, ONE as int);
    lemma_trunc_div_monotone(n, hi * ONE, ONE as int);
    lemma_trunc_div_multiple(lo, ONE as int);
    lemma_trunc_div_multiple(hi, ONE as int);
}

/// A displayable color blended toward another by a factor of magnitude at
/// most `2^32 / ONE` can be blended and scaled again.
pub proof fn lemma_lerp_small(c: Color, d: Color, t: int)
    requires
        c.in_range(),
        d.in_range(),
        -0x1_0000_0000 <= t <= 0x1_0000_0000,
    ensures
        c.lerp_spec(d, t).bounded(),
{
    lemma_lerp_channel_small(c.r as int, d.r as int, t);
    lemma_lerp_channel_small(c.g as int, d.g as int, t);
    lemma_lerp_channel_small(c.b as int, d.b as int, t);
}

/// Blending two bounded colors by a factor in `[0, ONE]` keeps them bounded,
/// and keeps them displayable when both ends are.
pub proof fn lemma_lerp_between(c: Color, d: Color, t: int)
    requires
        c.bounded(),
        d.bounded(),
        0 <= t <= ONE,
    ensures
        c.lerp_spec(d, t).bounded(),
        c.in_range() && d.in_range() ==> c.lerp_spec(d, t).in_range(),
{
    lemma_lerp_channel_between(c.r as int, d.r as int, t);
    lemma_lerp_channel_between(c.g as int, d.g as int, t);
    lemma_lerp_channel_between(c.b as int, d.b as int, t);
}

} // verus!
