//! What stands between a noise function and a picture: maps of values and
//! the builders that fill them.
pub mod noise_map;
pub mod noise_map_builder;
