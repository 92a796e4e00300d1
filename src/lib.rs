//! Procedural generation of a two-dimensional spiral-galaxy star field.
//!
//! All quantities are fixed-point integers:
//! lengths in thousandths of a parsec, dimensionless ratios in millionths,
//! angles in millionths of a degree and temperatures in thousandths of a kelvin.
//! A uniform draw in `[0, 1)` is a 24-bit numerator `k` standing for `k / 2^24`.
pub mod fixed;
pub mod settings;
pub mod density_wave;
pub mod color;
pub mod random;
pub mod stars;
pub mod generator;
pub mod projection;
pub mod visual;
pub mod ui;
