//! The generator, mathematical-library and R-version selections.
use vstd::prelude::*;

verus! {

/// The uniform generator represented by an `RRng`.
#[derive(Clone, Copy, Debug, Eq, Hash, PartialEq, Structural)]
#[non_exhaustive]
pub enum RUniformKind {
    /// R's default MT19937 generator.
    MersenneTwister,
    /// Pierre L'Ecuyer's MRG32k3a generator used by R for parallel streams.
    LecuyerCmrg,
}

impl Default for RUniformKind {
    fn default() -> (kind: Self)
        ensures
            kind == RUniformKind::MersenneTwister,
    {
        RUniformKind::MersenneTwister
    }
}

/// The code of a uniform generator in the first integer of `.Random.seed`.
pub open spec fn mode_code_spec(kind: RUniformKind) -> i32 {
    match kind {
        RUniformKind::MersenneTwister => 3,
        RUniformKind::LecuyerCmrg => 7,
    }
}

impl RUniformKind {
    /// The code of this generator in the first integer of `.Random.seed`.
    pub(crate) fn mode_code(self) -> (code: i32)
        ensures
            code == mode_code_spec(self),
    {
        match self {
            RUniformKind::MersenneTwister => 3,
            RUniformKind::LecuyerCmrg => 7,
        }
    }
}

/// Mathematical-library selection for normal and probability calculations.
#[derive(Clone, Copy, Debug, Eq, Hash, PartialEq, Structural)]
#[non_exhaustive]
pub enum MathMode {
    /// Use the target platform's math library, like a locally compiled R.
    Platform,
    /// Use the pinned pure-Rust math implementation: for finite inputs under
    /// IEEE-754 round-to-nearest semantics, results are bit-stable across
    /// x86-64 and AArch64 and do not depend on FMA availability.
    Deterministic,
}

impl Default for MathMode {
    fn default() -> (mode: Self)
        ensures
            mode == MathMode::Platform,
    {
        MathMode::Platform
    }
}

/// R compatibility mode.
///
/// The uniform and normal algorithms are the same for every listed version.
/// R 3.6.0 changed uniform integer sampling from rounding to rejection.
#[derive(Clone, Copy, Debug, Eq, Hash, PartialEq, Structural)]
#[non_exhaustive]
pub enum RVersion {
    /// R 3.5.x behavior, including the legacy rounding sampler.
    R3_5,
    /// R 3.6.x behavior, with rejection sampling.
    R3_6,
    /// R 4.0.x behavior, with rejection sampling.
    R4_0,
    /// R 4.5.x behavior, with rejection sampling.
    R4_5,
    /// R 4.6.x behavior, with rejection sampling.
    R4_6,
}

impl Default for RVersion {
    fn default() -> (version: Self)
        ensures
            version == RVersion::R4_6,
    {
        RVersion::R4_6
    }
}

/// Every version from R 3.6 on samples integers by rejection; R 3.5 rounds.
pub open spec fn uses_rejection_spec(version: RVersion) -> bool {
    version != RVersion::R3_5
}

impl RVersion {
    /// Whether this version samples integers by rejection.
    pub(crate) fn uses_rejection_sampling(self) -> (r: bool)
        ensures
            r == uses_rejection_spec(self),
    {
        match self {
            RVersion::R3_5 => false,
            _ => true,
        }
    }
}

} // verus!
