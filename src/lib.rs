//! Procedural surface shading on fixed-point values: palette colors,
//! blending, intensity scaling and the nine materials that turn sampled
//! noise into a fragment color.
pub mod fixed;
pub mod color;
pub mod materials;
pub mod shade;
pub mod sampling;
pub mod laws;
