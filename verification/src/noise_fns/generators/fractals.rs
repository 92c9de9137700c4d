//! Noise functions made of octaves of another.
pub mod ridgedmulti;
