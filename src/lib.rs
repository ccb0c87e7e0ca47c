//! Light transport core of an offline renderer: a Whitted-style recursive
//! radiance estimator, and material compilers that assemble scattering lobes
//! into an arena-indexed BSDF.
//!
//! Scalars are fixed-point `i64` values with sixteen fraction bits (`ONE` is
//! 1.0); products and quotients round toward zero and saturate. Geometry,
//! lights, textures and the sampler are supplied by the caller through traits.
pub mod geometry;
pub mod spectrum;
pub mod interaction;
pub mod scene;
pub mod reflection;
pub mod texture;
pub mod material;
pub mod uber;
pub mod mirror;
pub mod whitted;
