//! Properties that relate several calls of the shading functions.
use vstd::prelude::*;
use crate::color::Color;
use crate::fixed::{clamp, lemma_trunc_div_multiple, trunc_div, ONE};
use crate::materials::{Fragment, NoiseSamples};
use crate::shade::{material_base, shade, Uniforms, DEFAULT_SHADER};

verus! {

/// Every channel of `c` clamped to `[0, 255]`.
pub open spec fn clamped(c: Color) -> Color {
    Color::rgb(clamp(c.r as int, 0, 255), clamp(c.g as int, 0, 255), clamp(c.b as int, 0, 255))
}

/// `f` with its intensity replaced by `k`.
pub open spec fn with_intensity(f: Fragment, k: i32) -> Fragment {
    Fragment { intensity: k, ..f }
}

/// Shading is a function of its inputs: two shadings of the same fragment,
/// uniforms, noise and selector give the same color, monochrome included.
pub proof fn lemma_shade_deterministic(
    selector: u8,
    f1: Fragment,
    f2: Fragment,
    u1: Uniforms,
    u2: Uniforms,
    s1: NoiseSamples,
    s2: NoiseSamples,
)
    requires
        f1 == f2,
        u1 == u2,
        s1 == s2,
    ensures
        shade(selector, f1, u1, s1) == shade(selector, f2, u2, s2),
{
}

/// Any selector outside `1..=9` shades exactly as the default material does.
pub proof fn lemma_unrecognized_selector(selector: u8, f: Fragment, u: Uniforms, s: NoiseSamples)
    requires
        selector < 1 || selector > 9,
    ensures
        shade(selector, f, u, s) == shade(DEFAULT_SHADER, f, u, s),
{
}

/// The intensity is applied last and only there: the material's own color
/// does not depend on it, each channel of the result is that color's channel
/// times the intensity, clamped; full intensity gives the material's color
/// clamped, and zero intensity gives black.
pub proof fn lemma_intensity_scaling(selector: u8, f: Fragment, u: Uniforms, s: NoiseSamples, k: i32)
    ensures
        material_base(selector, with_intensity(f, k), u, s) == material_base(selector, f, u, s),
        shade(selector, with_intensity(f, k), u, s) == material_base(selector, f, u, s).scale_spec(
            k as int,
        ),
        shade(selector, with_intensity(f, ONE as i32), u, s) == clamped(
            material_base(selector, f, u, s),
        ),
        shade(selector, with_intensity(f, 0), u, s) == Color::rgb(0, 0, 0),
{
    let c = material_base(selector, f, u, s);
    lemma_trunc_div_multiple(c.r as int, ONE as int);
    lemma_trunc_div_multiple(c.g as int, ONE as int);
    lemma_trunc_div_multiple(c.b as int, ONE as int);
    assert(c.r * ONE == (c.r as int) * (ONE as int));
    assert(trunc_div(0, ONE as int) == 0);
    assert(c.r * 0 == 0 && c.g * 0 == 0 && c.b * 0 == 0);
}

} // verus!
