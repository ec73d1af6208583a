//! Where each material samples the noise field: zoom, offsets, the time
//! drift and the pulse folded into the coordinates. Coordinates are
//! fixed-point, in units of `1 / ONE`.
use vstd::prelude::*;
use crate::fixed::{div_toward_zero, lemma_trunc_div_shrinks, trunc_div, ONE};
use crate::materials::Fragment;
use crate::shade::Uniforms;

verus! {

/// A point of the noise field.
#[derive(Clone, Copy, PartialEq, Eq, Debug)]
pub struct Point {
    pub x: i64,
    pub y: i64,
    pub z: i64,
}

/// The noise lookups a material needs.
#[derive(Clone, Copy, PartialEq, Eq, Debug)]
pub enum SamplePlan {
    /// The material reads no noise.
    Unsampled,
    /// One lookup in the 2D field, at `(x, y)`.
    Flat { x: i64, y: i64 },
    /// Two lookups in the 3D field, whose values are averaged.
    Volume { first: Point, second: Point },
}

/// Angular rate of a material's pulse, in millionths of a radian per frame.
pub open spec fn pulse_rate_spec(selector: u8) -> int {
    if selector == 6 {
        10_000
    } else if selector == 7 {
        5_000
    } else if selector == 8 {
        3_000
    } else if selector == 9 {
        6_000
    } else if 2 <= selector <= 4 || selector == 1 {
        0
    } else {
        2_000
    }
}

/// Amplitude of a material's pulse, in units of `1 / ONE`.
pub open spec fn pulse_amplitude(selector: u8) -> int {
    if selector == 6 {
        600_000
    } else if selector == 7 {
        100_000
    } else if selector == 8 {
        500_000
    } else if selector == 9 {
        300_000
    } else if 2 <= selector <= 4 || selector == 1 {
        0
    } else {
        500_000
    }
}

/// The pulse: the sine of the phase times the material's amplitude.
pub open spec fn pulse(selector: u8, sine: int) -> int {
    trunc_div(sine * pulse_amplitude(selector), ONE as int)
}

pub open spec fn point(x: int, y: int, z: int) -> Point {
    Point { x: x as i64, y: y as i64, z: z as i64 }
}

/// Two samples with the pulse on depth, the second shifted by 1000 on
/// every axis.
pub open spec fn shifted_pulse_on_depth(f: Fragment, p: int) -> SamplePlan {
    SamplePlan::Volume {
        first: point(f.x * 1000, f.y * 1000, (f.depth + p) * 1000),
        second: point(
            (f.x + 1000 * ONE) * 1000,
            (f.y + 1000 * ONE) * 1000,
            (f.depth + 1000 * ONE + p) * 1000,
        ),
    }
}

/// Two samples drifting apart: pulse and time added in one, taken away in
/// the other.
pub open spec fn mirrored(f: Fragment, p: int, t: int, zoom: int) -> SamplePlan {
    SamplePlan::Volume {
        first: point((f.x + p) * zoom, (f.y + p) * zoom, f.depth * zoom + t),
        second: point((f.x - p) * zoom, (f.y - p) * zoom, f.depth * zoom - t),
    }
}

/// The lookups of the material chosen by `selector`, given the sine of its
/// pulse phase `time * pulse_rate(selector)`.
pub open spec fn plan(selector: u8, f: Fragment, u: Uniforms, sine: int) -> SamplePlan {
    let p = pulse(selector, sine);
    if selector == 1 {
        SamplePlan::Unsampled
    } else if selector == 2 {
        SamplePlan::Flat { x: (f.x * 100) as i64, y: (f.y * 100) as i64 }
    } else if selector == 3 {
        SamplePlan::Flat {
            x: (f.x * 100 + 100 * ONE + u.time * (ONE / 2)) as i64,
            y: (f.y * 100 + 100 * ONE) as i64,
        }
    } else if selector == 4 {
        SamplePlan::Flat { x: (f.x * 30 + 50 * ONE) as i64, y: (f.y * 30 + 50 * ONE) as i64 }
    } else if selector == 7 {
        SamplePlan::Volume {
            first: point((f.x + p) * 1000, (f.y + p) * 1000, f.depth * 1000 + u.time * 10_000),
            second: point(
                (f.x + 1000 * ONE + p) * 1000,
                (f.y + 1000 * ONE + p) * 1000,
                f.depth * 1000 + u.time * 10_000,
            ),
        }
    } else if selector == 8 {
        mirrored(f, p, u.time * 10_000, 200)
    } else if selector == 9 {
        mirrored(f, p, u.time * 20_000, 500)
    } else {
        shifted_pulse_on_depth(f, p)
    }
}

/// Angular rate of the pulse of the material chosen by `selector`, in
/// millionths of a radian per frame; zero for materials without one.
pub fn pulse_rate(selector: u8) -> (r: i64)
    ensures
        r == pulse_rate_spec(selector),
{
    match selector {
        1 | 2 | 3 | 4 => 0,
        6 => 10_000,
        7 => 5_000,
        8 => 3_000,
        9 => 6_000,
        _ => 2_000,
    }
}

fn pulse_of(selector: u8, sine: i32) -> (p: i64)
    ensures
        p == pulse(selector, sine as int),
        -0x8000_0000 <= p <= 0x8000_0000,
{
    let amplitude: i128 = match selector {
        1 | 2 | 3 | 4 => 0,
        6 => 600_000,
        7 => 100_000,
        8 => 500_000,
        9 => 300_000,
        _ => 500_000,
    };
    let n: i128 = (sine as i128) * amplitude;
    proof {
        lemma_trunc_div_shrinks(n as int, ONE as int);
        assert(trunc_div(n as int, ONE as int) <= 0x8000_0000 && trunc_div(n as int, ONE as int)
            >= -0x8000_0000) by (nonlinear_arith)
            requires
                -0x8000_0000 <= sine <= 0x7fff_ffff,
                0 <= amplitude <= 600_000,
                n == sine * amplitude,
                trunc_div(n as int, ONE as int) == (if n >= 0 { n / 1_000_000 } else { -((-n)
                    / 1_000_000) }),
        ;
    }
    div_toward_zero(n, ONE as i128) as i64
}

/// The noise lookups of the material chosen by `selector`. `sine` is the
/// sine of the phase `time * pulse_rate(selector)`, in units of `1 / ONE`.
pub fn sample_plan(fragment: &Fragment, uniforms: &Uniforms, sine: i32, selector: u8) -> (r:
    SamplePlan)
    ensures
        r == plan(selector, *fragment, *uniforms, sine as int),
{
    let p = pulse_of(selector, sine);
    let x = fragment.x as i64;
    let y = fragment.y as i64;
    let z = fragment.depth as i64;
    let time = uniforms.time as i64;
    match selector {
        1 => SamplePlan::Unsampled,
        2 => SamplePlan::Flat { x: x * 100, y: y * 100 },
        3 => SamplePlan::Flat { x: x * 100 + 100 * ONE + time * (ONE / 2), y: y * 100 + 100 * ONE },
        4 => SamplePlan::Flat { x: x * 30 + 50 * ONE, y: y * 30 + 50 * ONE },
        7 => SamplePlan::Volume {
            first: Point { x: (x + p) * 1000, y: (y + p) * 1000, z: z * 1000 + time * 10_000 },
            second: Point {
                x: (x + 1000 * ONE + p) * 1000,
                y: (y + 1000 * ONE + p) * 1000,
                z: z * 1000 + time * 10_000,
            },
        },
        8 => SamplePlan::Volume {
            first: Point { x: (x + p) * 200, y: (y + p) * 200, z: z * 200 + time * 10_000 },
            second: Point { x: (x - p) * 200, y: (y - p) * 200, z: z * 200 - time * 10_000 },
        },
        9 => SamplePlan::Volume {
            first: Point { x: (x + p) * 500, y: (y + p) * 500, z: z * 500 + time * 20_000 },
            second: Point { x: (x - p) * 500, y: (y - p) * 500, z: z * 500 - time * 20_000 },
        },
        _ => SamplePlan::Volume {
            first: Point { x: x * 1000, y: y * 1000, z: (z + p) * 1000 },
            second: Point {
                x: (x + 1000 * ONE) * 1000,
                y: (y + 1000 * ONE) * 1000,
                z: (z + 1000 * ONE + p) * 1000,
            },
        },
    }
}

} // verus!
