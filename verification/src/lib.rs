//! Coherent noise: seeded scalar fields over two, three and four dimensions
//! (Perlin and OpenSimplex), the grids of samples they are evaluated over,
//! serially or in parallel, and the combinators that make new fields from
//! old ones.
//!
//! The library is written over a scalar type that brings its own
//! arithmetic (`scalar`), and says of every value how it is made from that
//! arithmetic. What a scalar cannot bring as an operator (the rounding to
//! the lattice, the power function, the square root, the cosine and the
//! sine) is handed in by the caller. `whole` holds a scalar type of exact
//! whole numbers.
pub mod gradient;
pub mod noise_fns;
pub mod noisefield;
pub mod permutationtable;
pub mod scalar;
pub mod utils;
pub mod whole;
