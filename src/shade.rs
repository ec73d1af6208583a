//! Selecting a material and shading a fragment with it.
use vstd::prelude::*;
use vstd::arithmetic::div_mod::lemma_div_is_ordered;
use rand::rngs::StdRng;
use rand::{Rng, SeedableRng};
use crate::color::Color;
use crate::fixed::{abs, ONE};
use crate::materials::{
    cellular_base, cellular_shader, clay_base, clay_shader, cloud_base, cloud_shader,
    dalmata_shader, dappled_base, fog_base, lava_base, lava_shader, lit, monochrome_base,
    monochrome_color, rainforest_shader, rock_base, rock_shader, solar_base, solar_shader,
    Fragment, NoiseSamples,
};

verus! {

/// Per-frame state read by every material.
#[derive(Clone, Copy, PartialEq, Eq, Debug)]
pub struct Uniforms {
    /// Elapsed frames, advanced by the driver.
    pub time: u32,
}

/// The draw in `[0, 100]` of a generator seeded with `seed`.
pub uninterp spec fn seeded_percent(seed: u64) -> u32;

/// Relies on rand's `StdRng::seed_from_u64` and `Rng::gen_range(0..=100)`:
/// a deterministic generator built from the seed alone, and a draw from the
/// inclusive range.
#[verifier::external_body]
fn draw_percent(seed: u64) -> (r: u32)
    ensures
        r <= 100,
        r == seeded_percent(seed),
{
    let mut rng = StdRng::seed_from_u64(seed);
    rng.gen_range(0..=100)
}

/// Seed of the monochrome generator: `|time * y * x|`, truncated.
pub open spec fn monochrome_seed(f: Fragment, u: Uniforms) -> u64 {
    (abs(u.time * f.y * f.x) / (ONE * ONE)) as u64
}

/// Selector of the material used for any unrecognized selector.
pub const DEFAULT_SHADER: u8 = 5;

/// The color that the material chosen by `selector` gives, before the
/// intensity scale.
pub open spec fn material_base(selector: u8, f: Fragment, u: Uniforms, s: NoiseSamples) -> Color {
    if selector == 1 {
        monochrome_base(seeded_percent(monochrome_seed(f, u)) as int)
    } else if selector == 2 {
        dappled_base(s.first as int)
    } else if selector == 3 {
        cloud_base(s.first as int)
    } else if selector == 4 {
        cellular_base(s.first as int)
    } else if selector == 6 {
        solar_base(s)
    } else if selector == 7 {
        rock_base(s, f)
    } else if selector == 8 {
        fog_base(s, f)
    } else if selector == 9 {
        clay_base(s, f)
    } else {
        lava_base(s)
    }
}

/// The shaded color of a fragment under the material chosen by `selector`.
pub open spec fn shade(selector: u8, f: Fragment, u: Uniforms, s: NoiseSamples) -> Color {
    lit(material_base(selector, f, u, s), f)
}

/// Black or white, from a generator seeded by the time and the fragment's
/// position, so that the same time and position give the same color.
pub fn black_and_white(fragment: &Fragment, uniforms: &Uniforms) -> (c: Color)
    ensures
        c == lit(monochrome_base(seeded_percent(monochrome_seed(*fragment, *uniforms)) as int), *fragment),
{
    proof {
        assert(-0x8000_0000_0000_0000 <= (uniforms.time as int) * (fragment.y as int)
            <= 0x8000_0000_0000_0000) by (nonlinear_arith)
            requires
                0 <= uniforms.time <= 0xffff_ffff,
                -0x8000_0000 <= fragment.y <= 0x7fff_ffff,
        ;
    }
    let ty: i128 = (uniforms.time as i128) * (fragment.y as i128);
    proof {
        assert(-0x1_0000_0000_0000_0000_0000_0000 <= ty * (fragment.x as int)
            <= 0x1_0000_0000_0000_0000_0000_0000) by (nonlinear_arith)
            requires
                -0x8000_0000_0000_0000 <= ty <= 0x8000_0000_0000_0000,
                -0x8000_0000 <= fragment.x <= 0x7fff_ffff,
        ;
    }
    let p: i128 = ty * (fragment.x as i128);
    let m: i128 = if p < 0 {
        -p
    } else {
        p
    };
    proof {
        lemma_div_is_ordered(m as int, 0x1_0000_0000_0000_0000_0000_0000, 1_000_000_000_000);
        assert(0x1_0000_0000_0000_0000_0000_0000int / 1_000_000_000_000 < 0xffff_ffff_ffff_ffff)
            by (nonlinear_arith);
        assert(m / 1_000_000_000_000 >= 0) by (nonlinear_arith)
            requires
                m >= 0,
        ;
    }
    assert(ONE * ONE == 1_000_000_000_000);
    let seed = (m / 1_000_000_000_000) as u64;
    let draw = draw_percent(seed);
    monochrome_color(draw, fragment)
}

/// Shades `fragment` with the material chosen by `current_shader`:
/// 1 monochrome, 2 dappled, 3 cloud, 4 cellular, 5 lava, 6 solar, 7 rock,
/// 8 fog, 9 clay; any other value falls back to lava. `noise` holds the
/// values sampled at the points the chosen material reads.
pub fn fragment_shader(
    fragment: &Fragment,
    uniforms: &Uniforms,
    noise: &NoiseSamples,
    current_shader: u8,
) -> (c: Color)
    ensures
        c == shade(current_shader, *fragment, *uniforms, *noise),
        c.in_range(),
{
    match current_shader {
        1 => black_and_white(fragment, uniforms),
        2 => dalmata_shader(fragment, noise),
        3 => cloud_shader(fragment, noise),
        4 => cellular_shader(fragment, noise),
        6 => solar_shader(fragment, noise),
        7 => rock_shader(fragment, noise),
        8 => rainforest_shader(fragment, noise),
        9 => clay_shader(fragment, noise),
        _ => lava_shader(fragment, noise),
    }
}

} // verus!
