//! Procedural synthesis of a square RGBA starfield image with a translucent
//! nebula overlay, as a pure function of a canvas size and a 64-bit seed.
//!
//! The pipeline works in three stages: a seeded star-field pass fills an
//! opaque sky buffer, gas clouds are evaluated per pixel from seeded noise
//! samples, and the compositor folds the layers with alpha blending into a
//! 16-bit-per-channel output buffer. All channel arithmetic is carried out in
//! a fixed-point scale of one millionth, so every step has an exact contract.
//! The continuous noise primitive itself is a floating-point capability that
//! the caller supplies as plain sampled values.

pub mod color;
pub mod nebula;
pub mod rng;
pub mod stars;
pub mod fixed;
