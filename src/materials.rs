//! The nine procedural materials. Each turns the noise sampled for a
//! fragment into a palette color, then scales it by the fragment's intensity.
use vstd::prelude::*;
use crate::color::{lemma_lerp_between, lemma_lerp_small, Color};
use crate::fixed::{
    abs, clamp, div_toward_zero, fixed_abs, fixed_clamp, lemma_trunc_div_shrinks, trunc_div, ONE,
};

verus! {

/// A fragment from the rasterizer, in fixed-point units of `1 / ONE`.
#[derive(Clone, Copy, PartialEq, Eq, Debug)]
pub struct Fragment {
    /// Interpolated position, used as the noise coordinate.
    pub x: i32,
    pub y: i32,
    pub depth: i32,
    /// Interpolated normal.
    pub normal_x: i32,
    pub normal_y: i32,
    pub normal_z: i32,
    /// Lighting factor applied to the final color, `ONE` being full light.
    pub intensity: i32,
}

/// The two noise values sampled for a fragment, in units of `1 / ONE`.
/// Materials that read a single sample use `first`.
#[derive(Clone, Copy, PartialEq, Eq, Debug)]
pub struct NoiseSamples {
    pub first: i32,
    pub second: i32,
}

/// Mean of the two samples, rounded toward zero.
pub open spec fn average(s: NoiseSamples) -> int {
    trunc_div(s.first + s.second, 2)
}

/// The last step of every material: scale by the fragment's intensity.
pub open spec fn lit(c: Color, f: Fragment) -> Color {
    c.scale_spec(f.intensity as int)
}

// ---- monochrome ----

/// Draw in `[0, 100]` below which a monochrome fragment is black.
pub open spec fn monochrome_base(draw: int) -> Color {
    if draw < 50 {
        Color::rgb(0, 0, 0)
    } else {
        Color::rgb(255, 255, 255)
    }
}

// ---- dappled ----

pub open spec fn dappled_base(noise: int) -> Color {
    if noise < 500_000 {
        Color::rgb(255, 255, 255)
    } else {
        Color::rgb(0, 0, 0)
    }
}

// ---- cloud ----

pub open spec fn cloud_base(noise: int) -> Color {
    if noise > 500_000 {
        Color::rgb(255, 255, 255)
    } else {
        Color::rgb(30, 97, 145)
    }
}

// ---- cellular ----

pub open spec fn cellular_base(noise: int) -> Color {
    let v = abs(noise);
    if v < 150_000 {
        Color::rgb(85, 107, 47)
    } else if v < 700_000 {
        Color::rgb(124, 252, 0)
    } else if v < 750_000 {
        Color::rgb(34, 139, 34)
    } else {
        Color::rgb(173, 255, 47)
    }
}

// ---- lava ----

pub open spec fn lava_base(s: NoiseSamples) -> Color {
    Color::rgb(130, 20, 0).lerp_spec(Color::rgb(255, 240, 0), average(s))
}

// ---- solar ----

/// Factor of the blend toward the corona: the mean remapped from `[-1, 1]`
/// to `[0, 1]`, clamped.
pub open spec fn corona_factor(s: NoiseSamples) -> int {
    clamp(trunc_div(average(s), 2) + ONE / 2, 0, ONE as int)
}

pub open spec fn solar_base(s: NoiseSamples) -> Color {
    Color::rgb(255, 255, 200).lerp_spec(Color::rgb(255, 223, 0), abs(average(s))).lerp_spec(
        Color::rgb(255, 140, 0),
        corona_factor(s),
    )
}

// ---- rock ----

pub open spec fn rock_palette(v: int) -> Color {
    if v > 600_000 {
        Color::rgb(245, 222, 179)
    } else if v > 400_000 {
        Color::rgb(222, 184, 135)
    } else if v > 200_000 {
        Color::rgb(210, 180, 140)
    } else if v > 0 {
        Color::rgb(188, 143, 143)
    } else if v > -200_000 {
        Color::rgb(205, 133, 63)
    } else if v > -400_000 {
        Color::rgb(139, 69, 19)
    } else {
        Color::rgb(160, 82, 45)
    }
}

/// Diffuse term: the normal against the unit light direction `(2, 2, 1) / 3`,
/// not below zero.
pub open spec fn diffuse(f: Fragment) -> int {
    let d = trunc_div(2 * f.normal_x + 2 * f.normal_y + f.normal_z, 3);
    if d < 0 {
        0
    } else {
        d
    }
}

/// Relief lighting factor `0.6 + 0.4 * diffuse`.
pub open spec fn relief(f: Fragment) -> int {
    600_000 + trunc_div(4 * diffuse(f), 10)
}

pub open spec fn rock_base(s: NoiseSamples, f: Fragment) -> Color {
    rock_palette(average(s)).scale_spec(relief(f))
}

// ---- fog and clay ----

/// Density gradient `1 - |y|`, clamped to `[0, 1]`.
pub open spec fn gradient(f: Fragment) -> int {
    clamp(ONE - abs(f.y as int), 0, ONE as int)
}

pub open spec fn fog_base(s: NoiseSamples, f: Fragment) -> Color {
    Color::rgb(255, 255, 255).lerp_spec(Color::rgb(120, 120, 120), abs(average(s))).lerp_spec(
        Color::rgb(120, 120, 120),
        ONE - gradient(f),
    )
}

pub open spec fn clay_palette(v: int) -> Color {
    if v > 400_000 {
        Color::rgb(173, 216, 230)
    } else if v > 200_000 {
        Color::rgb(135, 206, 250)
    } else if v > 0 {
        Color::rgb(70, 130, 180)
    } else if v > -200_000 {
        Color::rgb(30, 144, 255)
    } else {
        Color::rgb(0, 105, 148)
    }
}

pub open spec fn clay_base(s: NoiseSamples, f: Fragment) -> Color {
    clay_palette(average(s)).lerp_spec(Color::rgb(0, 105, 148), ONE - gradient(f))
}

fn mean(s: &NoiseSamples) -> (r: i64)
    ensures
        r == average(*s),
        -0x8000_0000 <= r <= 0x8000_0000,
{
    let n: i128 = (s.first as i128) + (s.second as i128);
    proof {
        lemma_trunc_div_shrinks(n as int, 2);
        assert(trunc_div(n as int, 2) == (n as int) / 2 || trunc_div(n as int, 2) == -((-n) / 2));
    }
    div_toward_zero(n, 2) as i64
}

/// Black or white from a draw in `[0, 100]`, scaled by the intensity.
pub fn monochrome_color(draw: u32, fragment: &Fragment) -> (c: Color)
    ensures
        c == lit(monochrome_base(draw as int), *fragment),
{
    let base = if draw < 50 {
        Color::new(0, 0, 0)
    } else {
        Color::new(255, 255, 255)
    };
    base.scale(fragment.intensity as i64)
}

/// White spots where the noise is below one half, black elsewhere.
pub fn dalmata_shader(fragment: &Fragment, noise: &NoiseSamples) -> (c: Color)
    ensures
        c == lit(dappled_base(noise.first as int), *fragment),
{
    let base = if noise.first < 500_000 {
        Color::new(255, 255, 255)
    } else {
        Color::new(0, 0, 0)
    };
    base.scale(fragment.intensity as i64)
}

/// White cloud where the noise is above one half, sky blue elsewhere.
pub fn cloud_shader(fragment: &Fragment, noise: &NoiseSamples) -> (c: Color)
    ensures
        c == lit(cloud_base(noise.first as int), *fragment),
{
    let base = if noise.first > 500_000 {
        Color::new(255, 255, 255)
    } else {
        Color::new(30, 97, 145)
    };
    base.scale(fragment.intensity as i64)
}

/// Four greens by bands of the noise's magnitude.
pub fn cellular_shader(fragment: &Fragment, noise: &NoiseSamples) -> (c: Color)
    ensures
        c == lit(cellular_base(noise.first as int), *fragment),
{
    let v = fixed_abs(noise.first as i64);
    let base = if v < 150_000 {
        Color::new(85, 107, 47)
    } else if v < 700_000 {
        Color::new(124, 252, 0)
    } else if v < 750_000 {
        Color::new(34, 139, 34)
    } else {
        Color::new(173, 255, 47)
    };
    base.scale(fragment.intensity as i64)
}

/// Dark red blended toward bright orange by the mean noise; a negative mean
/// extrapolates past the dark end.
pub fn lava_shader(fragment: &Fragment, noise: &NoiseSamples) -> (c: Color)
    ensures
        c == lit(lava_base(*noise), *fragment),
{
    let v = mean(noise);
    let dark = Color::new(130, 20, 0);
    let bright = Color::new(255, 240, 0);
    proof {
        lemma_lerp_small(dark, bright, v as int);
    }
    let blended = dark.lerp(&bright, v);
    blended.scale(fragment.intensity as i64)
}

/// Core white blended toward gold by the mean's magnitude, then toward the
/// orange corona by the remapped mean.
pub fn solar_shader(fragment: &Fragment, noise: &NoiseSamples) -> (c: Color)
    ensures
        c == lit(solar_base(*noise), *fragment),
{
    let v = mean(noise);
    let core = Color::new(255, 255, 200);
    let mid = Color::new(255, 223, 0);
    let corona = Color::new(255, 140, 0);
    let m = fixed_abs(v);
    proof {
        lemma_lerp_small(core, mid, m as int);
    }
    let first = core.lerp(&mid, m);
    let half = div_toward_zero(v as i128, 2) as i64;
    let t = fixed_clamp(half + ONE / 2, 0, ONE);
    proof {
        lemma_trunc_div_shrinks(v as int, 2);
        lemma_lerp_between(first, corona, t as int);
    }
    let blended = first.lerp(&corona, t);
    blended.scale(fragment.intensity as i64)
}

fn relief_factor(fragment: &Fragment) -> (k: i64)
    ensures
        k == relief(*fragment),
        600_000 <= k <= 0x100_0000_0000,
{
    let n: i128 = 2 * (fragment.normal_x as i128) + 2 * (fragment.normal_y as i128)
        + fragment.normal_z as i128;
    let d = div_toward_zero(n, 3);
    proof {
        lemma_trunc_div_shrinks(n as int, 3);
    }
    let lit_part: i128 = if d < 0 {
        0
    } else {
        d
    };
    proof {
        lemma_trunc_div_shrinks(4 * lit_part, 10);
    }
    let k = 600_000 + div_toward_zero(4 * lit_part, 10);
    k as i64
}

/// Seven earth tones by bands of the mean noise, shaded by a fixed light
/// against the fragment's normal.
pub fn rock_shader(fragment: &Fragment, noise: &NoiseSamples) -> (c: Color)
    ensures
        c == lit(rock_base(*noise, *fragment), *fragment),
{
    let v = mean(noise);
    let base = if v > 600_000 {
        Color::new(245, 222, 179)
    } else if v > 400_000 {
        Color::new(222, 184, 135)
    } else if v > 200_000 {
        Color::new(210, 180, 140)
    } else if v > 0 {
        Color::new(188, 143, 143)
    } else if v > -200_000 {
        Color::new(205, 133, 63)
    } else if v > -400_000 {
        Color::new(139, 69, 19)
    } else {
        Color::new(160, 82, 45)
    };
    let shaded = base.scale(relief_factor(fragment));
    shaded.scale(fragment.intensity as i64)
}

fn density(fragment: &Fragment) -> (g: i64)
    ensures
        g == gradient(*fragment),
        0 <= g <= ONE,
{
    let y = fixed_abs(fragment.y as i64);
    fixed_clamp(ONE - y, 0, ONE)
}

/// White fading to gray by the mean's magnitude, and to gray again away from
/// the horizontal middle.
pub fn rainforest_shader(fragment: &Fragment, noise: &NoiseSamples) -> (c: Color)
    ensures
        c == lit(fog_base(*noise, *fragment), *fragment),
{
    let v = mean(noise);
    let cloud = Color::new(255, 255, 255);
    let fog = Color::new(120, 120, 120);
    let m = fixed_abs(v);
    proof {
        lemma_lerp_small(cloud, fog, m as int);
    }
    let first = cloud.lerp(&fog, m);
    let g = density(fragment);
    proof {
        lemma_lerp_between(first, fog, ONE - g);
    }
    let blended = first.lerp(&fog, ONE - g);
    blended.scale(fragment.intensity as i64)
}

/// Five blues by bands of the mean noise, darkened away from the horizontal
/// middle.
pub fn clay_shader(fragment: &Fragment, noise: &NoiseSamples) -> (c: Color)
    ensures
        c == lit(clay_base(*noise, *fragment), *fragment),
{
    let v = mean(noise);
    let base = if v > 400_000 {
        Color::new(173, 216, 230)
    } else if v > 200_000 {
        Color::new(135, 206, 250)
    } else if v > 0 {
        Color::new(70, 130, 180)
    } else if v > -200_000 {
        Color::new(30, 144, 255)
    } else {
        Color::new(0, 105, 148)
    };
    let deep = Color::new(0, 105, 148);
    let g = density(fragment);
    proof {
        lemma_lerp_between(base, deep, ONE - g);
    }
    let blended = base.lerp(&deep, ONE - g);
    blended.scale(fragment.intensity as i64)
}

} // verus!
