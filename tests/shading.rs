use procshade::color::Color;
use procshade::fixed::ONE;
use procshade::materials::{Fragment, NoiseSamples};
use procshade::sampling::{pulse_rate, sample_plan, Point, SamplePlan};
use procshade::shade::{black_and_white, fragment_shader, Uniforms, DEFAULT_SHADER};

const ONE_I32: i32 = ONE as i32;

fn frag(x: i32, y: i32, intensity: i32) -> Fragment {
    Fragment { x, y, depth: 0, normal_x: 0, normal_y: 0, normal_z: 0, intensity }
}

fn noise(v: i32) -> NoiseSamples {
    NoiseSamples { first: v, second: v }
}

fn rgb(r: i64, g: i64, b: i64) -> Color {
    Color { r, g, b }
}

fn shade_at(selector: u8, v: i32) -> Color {
    fragment_shader(&frag(0, 0, ONE_I32), &Uniforms { time: 0 }, &noise(v), selector)
}

#[test]
fn dappled_low_noise_is_white() {
    assert_eq!(shade_at(2, 300_000), rgb(255, 255, 255));
}

#[test]
fn dappled_high_noise_half_intensity_is_black() {
    let c = fragment_shader(&frag(0, 0, ONE_I32 / 2), &Uniforms { time: 0 }, &noise(800_000), 2);
    assert_eq!(c, rgb(0, 0, 0));
}

#[test]
fn dappled_threshold_is_black() {
    assert_eq!(shade_at(2, 500_000), rgb(0, 0, 0));
    assert_eq!(shade_at(2, 499_999), rgb(255, 255, 255));
}

#[test]
fn monochrome_at_origin_is_reproducible() {
    let f = frag(0, 0, ONE_I32);
    let u = Uniforms { time: 0 };
    let first = fragment_shader(&f, &u, &noise(0), 1);
    assert!(first == rgb(0, 0, 0) || first == rgb(255, 255, 255));
    for _ in 0..10 {
        assert_eq!(fragment_shader(&f, &u, &noise(0), 1), first);
        assert_eq!(black_and_white(&f, &u), first);
    }
}

#[test]
fn monochrome_draws_depend_on_seed() {
    // Seeds 100..=200 are all above the cut; the draws are not.
    let u = Uniforms { time: 1 };
    let mut blacks = 0;
    let mut whites = 0;
    for k in 100..=200 {
        let c = black_and_white(&frag(ONE_I32, k * ONE_I32, ONE_I32), &u);
        if c == rgb(0, 0, 0) {
            blacks += 1;
        } else {
            assert_eq!(c, rgb(255, 255, 255));
            whites += 1;
        }
    }
    assert!(blacks > 0 && whites > 0);
}

#[test]
fn monochrome_zero_intensity_is_black() {
    let c = fragment_shader(&frag(3 * ONE_I32, 5 * ONE_I32, 0), &Uniforms { time: 7 }, &noise(0), 1);
    assert_eq!(c, rgb(0, 0, 0));
}

#[test]
fn unrecognized_selectors_fall_back_to_lava() {
    let f = frag(100, 200, ONE_I32);
    let u = Uniforms { time: 3 };
    let s = NoiseSamples { first: 250_000, second: -100_000 };
    let expected = fragment_shader(&f, &u, &s, DEFAULT_SHADER);
    for sel in [0u8, 10, 99, 255] {
        assert_eq!(fragment_shader(&f, &u, &s, sel), expected);
    }
}

#[test]
fn cloud_threshold() {
    assert_eq!(shade_at(3, 500_000), rgb(30, 97, 145));
    assert_eq!(shade_at(3, 500_001), rgb(255, 255, 255));
}

#[test]
fn cellular_bands_use_magnitude() {
    assert_eq!(shade_at(4, 149_999), rgb(85, 107, 47));
    assert_eq!(shade_at(4, 150_000), rgb(124, 252, 0));
    assert_eq!(shade_at(4, -699_999), rgb(124, 252, 0));
    assert_eq!(shade_at(4, 700_000), rgb(34, 139, 34));
    assert_eq!(shade_at(4, -750_000), rgb(173, 255, 47));
}

#[test]
fn lava_blends_and_extrapolates() {
    assert_eq!(shade_at(5, 0), rgb(130, 20, 0));
    assert_eq!(shade_at(5, ONE_I32), rgb(255, 240, 0));
    assert_eq!(shade_at(5, -ONE_I32), rgb(5, 0, 0));
    let half = fragment_shader(&frag(0, 0, ONE_I32 / 2), &Uniforms { time: 0 }, &noise(0), 5);
    assert_eq!(half, rgb(65, 10, 0));
}

#[test]
fn lava_averages_the_two_samples() {
    let s = NoiseSamples { first: ONE_I32, second: -ONE_I32 };
    let c = fragment_shader(&frag(0, 0, ONE_I32), &Uniforms { time: 0 }, &s, 5);
    assert_eq!(c, rgb(130, 20, 0));
}

#[test]
fn solar_chains_two_blends() {
    assert_eq!(shade_at(6, 0), rgb(255, 197, 100));
    assert_eq!(shade_at(6, ONE_I32), rgb(255, 140, 0));
}

#[test]
fn rock_threshold_bands() {
    // Zero normal: the relief factor is 0.6.
    let cases = [
        (600_001, rgb(245, 222, 179)),
        (600_000, rgb(222, 184, 135)),
        (400_001, rgb(222, 184, 135)),
        (400_000, rgb(210, 180, 140)),
        (200_001, rgb(210, 180, 140)),
        (200_000, rgb(188, 143, 143)),
        (1, rgb(188, 143, 143)),
        (0, rgb(205, 133, 63)),
        (-199_999, rgb(205, 133, 63)),
        (-200_000, rgb(139, 69, 19)),
        (-399_999, rgb(139, 69, 19)),
        (-400_000, rgb(160, 82, 45)),
    ];
    for (v, base) in cases {
        let expected = rgb(base.r * 6 / 10, base.g * 6 / 10, base.b * 6 / 10);
        assert_eq!(shade_at(7, v), expected, "noise {}", v);
    }
}

#[test]
fn rock_lit_by_normal() {
    let mut f = frag(0, 0, ONE_I32);
    f.normal_x = ONE_I32;
    let c = fragment_shader(&f, &Uniforms { time: 0 }, &noise(700_000), 7);
    assert_eq!(c, rgb(212, 192, 155));
}

#[test]
fn fog_follows_gradient() {
    assert_eq!(shade_at(8, 0), rgb(255, 255, 255));
    let edge = fragment_shader(&frag(0, ONE_I32, ONE_I32), &Uniforms { time: 0 }, &noise(0), 8);
    assert_eq!(edge, rgb(120, 120, 120));
    assert_eq!(shade_at(8, -ONE_I32), rgb(120, 120, 120));
}

#[test]
fn clay_threshold_bands() {
    assert_eq!(shade_at(9, 400_001), rgb(173, 216, 230));
    assert_eq!(shade_at(9, 400_000), rgb(135, 206, 250));
    assert_eq!(shade_at(9, 200_000), rgb(70, 130, 180));
    assert_eq!(shade_at(9, 0), rgb(30, 144, 255));
    assert_eq!(shade_at(9, -200_000), rgb(0, 105, 148));
}

#[test]
fn clay_darkens_off_center() {
    let c = fragment_shader(&frag(0, ONE_I32 / 2, ONE_I32), &Uniforms { time: 0 }, &noise(500_000), 9);
    assert_eq!(c, rgb(86, 160, 189));
}

#[test]
fn intensity_scales_channels() {
    let full = shade_at(3, 0);
    let half = fragment_shader(&frag(0, 0, ONE_I32 / 2), &Uniforms { time: 0 }, &noise(0), 3);
    let none = fragment_shader(&frag(0, 0, 0), &Uniforms { time: 0 }, &noise(0), 3);
    assert_eq!(full, rgb(30, 97, 145));
    assert_eq!(half, rgb(15, 48, 72));
    assert_eq!(none, rgb(0, 0, 0));
    let bright = fragment_shader(&frag(0, 0, 2 * ONE_I32), &Uniforms { time: 0 }, &noise(0), 3);
    assert_eq!(bright, rgb(60, 194, 255));
}

#[test]
fn color_lerp_and_scale() {
    let a = Color::new(0, 100, 200);
    let b = Color::new(200, 100, 0);
    assert_eq!(a.lerp(&b, ONE / 4), rgb(50, 100, 150));
    assert_eq!(a.lerp(&b, -ONE), rgb(-200, 100, 400));
    assert_eq!(rgb(-200, 100, 400).scale(ONE), rgb(0, 100, 255));
}

#[test]
fn sampling_plans() {
    let f = Fragment { x: ONE_I32, y: -ONE_I32, depth: 2 * ONE_I32, normal_x: 0, normal_y: 0, normal_z: 0, intensity: ONE_I32 };
    let u = Uniforms { time: 10 };
    assert_eq!(sample_plan(&f, &u, 0, 1), SamplePlan::Unsampled);
    assert_eq!(sample_plan(&f, &u, 0, 2), SamplePlan::Flat { x: 100 * ONE, y: -100 * ONE });
    assert_eq!(sample_plan(&f, &u, 0, 3), SamplePlan::Flat { x: 205 * ONE, y: 0 });
    assert_eq!(sample_plan(&f, &u, 0, 4), SamplePlan::Flat { x: 80 * ONE, y: 20 * ONE });
    // Lava with a full sine: the pulse is one half.
    assert_eq!(
        sample_plan(&f, &u, ONE_I32, 5),
        SamplePlan::Volume {
            first: Point { x: 1000 * ONE, y: -1000 * ONE, z: 2500 * ONE },
            second: Point { x: 1_001_000 * ONE, y: 999_000 * ONE, z: 1_002_500 * ONE },
        }
    );
    assert_eq!(sample_plan(&f, &u, ONE_I32, 200), sample_plan(&f, &u, ONE_I32, 5));
    // Fog: pulse one half, time drift 0.1.
    assert_eq!(
        sample_plan(&f, &u, ONE_I32, 8),
        SamplePlan::Volume {
            first: Point { x: 300 * ONE, y: -100 * ONE, z: 400 * ONE + 100_000 },
            second: Point { x: 100 * ONE, y: -300 * ONE, z: 400 * ONE - 100_000 },
        }
    );
    assert_eq!(pulse_rate(1), 0);
    assert_eq!(pulse_rate(5), 2_000);
    assert_eq!(pulse_rate(0), 2_000);
    assert_eq!(pulse_rate(9), 6_000);
}
