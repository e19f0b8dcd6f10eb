//! R-compatible random-number generation.
//!
//! The generator stacks used by R 3.5 through R 4.6: Mersenne Twister and
//! L'Ecuyer-CMRG uniforms, the exact double-precision values that R's
//! `unif_rand()` returns, and both the rejection and the pre-R-3.6 rounding
//! integer samplers. The serialized state is compatible with R's
//! `.Random.seed` integer vector.

pub mod error;
pub mod kinds;
pub mod laws;
pub mod lcg;
pub mod lecuyer;
pub mod model;
pub mod mt;
pub mod rng;
pub mod streams;
pub mod uniform;

pub use error::RRngError;
pub use kinds::{MathMode, RUniformKind, RVersion};
pub use rng::RRng;
pub use uniform::RUniform;
