//! Noise functions that make values from nothing but coordinates.
pub mod constant;
pub mod cylinders;
pub mod fractals;
pub mod open_simplex;
pub mod perlin;
