//! Numeric elements, the matrix container and its multiplication engines.
//!
//! The arithmetic of the elements: `modular`, `numeric`, `integers`, `power`.
//! Matrices as mathematical values and what holds of them: `model`, `entries`, `dot`,
//! `laws`, `product`, `strassen`.
//! The executable library: `matrix`, `multiply`, `lanes`, `matrix_simd`.

pub mod modular;
pub mod numeric;
pub mod integers;
pub mod power;
pub mod model;
pub mod entries;
pub mod dot;
pub mod laws;
pub mod product;
pub mod strassen;
pub mod matrix;
pub mod multiply;
pub mod lanes;
pub mod matrix_simd;
