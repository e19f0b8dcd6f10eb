//! The generator: construction, state export and import, stream jumps and
//! uniform draws.
use crate::error::RRngError;
use crate::kinds::{MathMode, RUniformKind, RVersion};
use crate::laws::{
    all_distinct, all_in_one_to, holds_value, law_permutation, law_sample_int_values,
};
use crate::lcg::{lcg_iterate, lcg_next};
use crate::lecuyer::{a1p127, a1p76, a2p127, a2p76, lecuyer_jump, LecuyerState, STATE_LEN};
use crate::model::{
    bit_length, decode, draw_digits, draws_with_replacement, encode, encoded_len, identity_values,
    index_draw, kind_of, lemma_unif_rand, normal_probability, random_bits, rejection_index,
    rounding_index, sample_index_outcome, sample_index_within_outcome, sample_int_outcome,
    seed_header, seeded_uniform, shuffle_draws, unif_rand, uniform_wf, words_from, RngModel,
    UniformModel, MAX_R_SAMPLE_N, REJECTION_LIMIT,
};
use crate::mt::{mt_next_exec, MT_LEN};
use crate::uniform::{
    add_whole_then_scale_exec, fix_unit_interval_exec, floor_of_product_exec, lecuyer_double_exec,
    mt_double_exec, pow2_u128, scaled_floor_exec, RUniform,
};
use vstd::arithmetic::power2::*;
use vstd::prelude::*;

verus! {

#[derive(Debug)]
enum UniformState {
    MersenneTwister { words: [u32; MT_LEN], position: usize },
    LecuyerCmrg(LecuyerState),
}

/// An R-compatible random-number generator and its serializable state.
///
/// Random draws require `&mut self`, so parallel code should move independent
/// generators to worker threads.
#[derive(Debug)]
pub struct RRng {
    uniform: UniformState,
    version: RVersion,
    math_mode: MathMode,
}

/// The model of a uniform state.
pub closed spec fn uniform_model(u: UniformState) -> UniformModel {
    match u {
        UniformState::MersenneTwister { words, position } => UniformModel::MersenneTwister {
            words: words@,
            position: position as nat,
        },
        UniformState::LecuyerCmrg(s) => UniformModel::LecuyerCmrg { words: s.words@ },
    }
}

impl Clone for UniformState {
    fn clone(&self) -> (c: Self)
        ensures
            uniform_model(c) == uniform_model(*self),
    {
        match self {
            UniformState::MersenneTwister { words, position } => {
                UniformState::MersenneTwister { words: *words, position: *position }
            },
            UniformState::LecuyerCmrg(state) => UniformState::LecuyerCmrg(*state),
        }
    }
}

impl Clone for RRng {
    /// An independent generator in the same state.
    fn clone(&self) -> (c: Self)
        ensures
            c@ == self@,
    {
        proof {
            use_type_invariant(self);
        }
        RRng { uniform: self.uniform.clone(), version: self.version, math_mode: self.math_mode }
    }
}

impl View for RRng {
    type V = RngModel;

    closed spec fn view(&self) -> RngModel {
        RngModel {
            uniform: uniform_model(self.uniform),
            version: self.version,
            math_mode: self.math_mode,
        }
    }
}

impl RRng {
    /// The uniform state always has the shape its generator needs.
    #[verifier::type_invariant]
    spec fn well_formed(self) -> bool {
        uniform_wf(self@.uniform)
    }


    /// Reproduce `set.seed(seed)` using R's historical seed scrambling.
    ///
    /// `i32::MIN` is R's `NA_integer_` and is not a seed; use
    /// [`Self::try_from_seed`] for unchecked input.
    pub fn from_seed(seed: i32) -> (rng: Self)
        requires
            seed != i32::MIN,
        ensures
            rng@ == (RngModel {
                uniform: seeded_uniform(seed, RUniformKind::MersenneTwister),
                version: RVersion::R4_6,
                math_mode: MathMode::Platform,
            }),
    {
        Self::seeded(seed, RUniformKind::MersenneTwister)
    }

    /// Checked form of [`Self::from_seed`].
    pub fn try_from_seed(seed: i32) -> (r: Result<Self, RRngError>)
        ensures
            seed == i32::MIN ==> r == Err::<Self, RRngError>(RRngError::InvalidSeed(seed)),
            seed != i32::MIN ==> (r matches Ok(rng) && rng@ == (RngModel {
                uniform: seeded_uniform(seed, RUniformKind::MersenneTwister),
                version: RVersion::R4_6,
                math_mode: MathMode::Platform,
            })),
    {
        Self::try_from_seed_with_kind(seed, RUniformKind::MersenneTwister)
    }

    /// Reproduce `RNGkind(kind); set.seed(seed)` for a supported generator.
    pub fn from_seed_with_kind(seed: i32, kind: RUniformKind) -> (rng: Self)
        requires
            seed != i32::MIN,
        ensures
            rng@ == (RngModel {
                uniform: seeded_uniform(seed, kind),
                version: RVersion::R4_6,
                math_mode: MathMode::Platform,
            }),
    {
        Self::seeded(seed, kind)
    }

    /// Checked form of [`Self::from_seed_with_kind`].
    pub fn try_from_seed_with_kind(seed: i32, kind: RUniformKind) -> (r: Result<Self, RRngError>)
        ensures
            seed == i32::MIN ==> r == Err::<Self, RRngError>(RRngError::InvalidSeed(seed)),
            seed != i32::MIN ==> (r matches Ok(rng) && rng@ == (RngModel {
                uniform: seeded_uniform(seed, kind),
                version: RVersion::R4_6,
                math_mode: MathMode::Platform,
            })),
    {
        if seed == i32::MIN {
            return Err(RRngError::InvalidSeed(seed));
        }
        Ok(Self::seeded(seed, kind))
    }

    fn seeded(seed: i32, kind: RUniformKind) -> (rng: Self)
        ensures
            rng@ == (RngModel {
                uniform: seeded_uniform(seed, kind),
                version: RVersion::R4_6,
                math_mode: MathMode::Platform,
            }),
    {
        let mut scrambled = seed as u32;
        let ghost start = seed as u32;
        let mut i: usize = 0;
        while i < 50
            invariant
                i <= 50,
                scrambled == lcg_iterate(start, i as nat),
            decreases 50 - i,
        {
            scrambled = lcg_next(scrambled);
            i = i + 1;
        }
        let ghost s = scrambled;
        let uniform = match kind {
            RUniformKind::MersenneTwister => {
                // The first step yields R's cursor word, which R overwrites.
                scrambled = lcg_next(scrambled);
                assert(lcg_iterate(s, 1) == crate::lcg::lcg_step(lcg_iterate(s, 0)));
                let mut words = [0u32; 624];
                let mut j: usize = 0;
                while j < MT_LEN
                    invariant
                        j <= MT_LEN,
                        scrambled == lcg_iterate(s, (j + 1) as nat),
                        forall|k: int| 0 <= k < j ==> words@[k] == lcg_iterate(s, (k + 2) as nat),
                    decreases MT_LEN - j,
                {
                    scrambled = lcg_next(scrambled);
                    words[j] = scrambled;
                    j = j + 1;
                }
                assert(words@ =~= Seq::new(624, |k: int| lcg_iterate(s, (k + 2) as nat)));
                UniformState::MersenneTwister { words, position: MT_LEN }
            },
            RUniformKind::LecuyerCmrg => UniformState::LecuyerCmrg(
                LecuyerState::from_scrambled_seed(scrambled),
            ),
        };
        RRng { uniform, version: RVersion::R4_6, math_mode: MathMode::Platform }
    }

    /// Select the algorithms associated with an R release; the uniform state
    /// is not re-seeded.
    pub fn with_version(self, version: RVersion) -> (rng: Self)
        ensures
            rng@ == (RngModel { version, ..self@ }),
    {
        let mut rng = self;
        proof {
            use_type_invariant(&rng);
        }
        rng.version = version;
        rng
    }

    /// Change the compatibility mode without changing the uniform state.
    pub fn set_version(&mut self, version: RVersion)
        ensures
            final(self)@ == (RngModel { version, ..old(self)@ }),
    {
        proof {
            use_type_invariant(&*self);
        }
        self.version = version;
    }

    /// The selected compatibility mode.
    pub fn version(&self) -> (v: RVersion)
        ensures
            v == self@.version,
    {
        self.version
    }

    /// Select platform-native or cross-platform deterministic math. This
    /// setting is not part of `.Random.seed`.
    pub fn with_math_mode(self, mode: MathMode) -> (rng: Self)
        ensures
            rng@ == (RngModel { math_mode: mode, ..self@ }),
    {
        let mut rng = self;
        proof {
            use_type_invariant(&rng);
        }
        rng.math_mode = mode;
        rng
    }

    /// Change mathematical evaluation without changing the generator state.
    pub fn set_math_mode(&mut self, mode: MathMode)
        ensures
            final(self)@ == (RngModel { math_mode: mode, ..old(self)@ }),
    {
        proof {
            use_type_invariant(&*self);
        }
        self.math_mode = mode;
    }

    /// The selected mathematical evaluation mode.
    pub fn math_mode(&self) -> (m: MathMode)
        ensures
            m == self@.math_mode,
    {
        self.math_mode
    }

    /// The selected uniform generator.
    ///
    /// Every generator's state is well formed: the Mersenne Twister holds 624
    /// words and a cursor in `1..=624`, and the L'Ecuyer-CMRG words lie below
    /// their moduli.
    pub fn uniform_kind(&self) -> (k: RUniformKind)
        ensures
            k == kind_of(self@.uniform),
            uniform_wf(self@.uniform),
    {
        proof {
            use_type_invariant(self);
        }
        match self.uniform {
            UniformState::MersenneTwister { .. } => RUniformKind::MersenneTwister,
            UniformState::LecuyerCmrg(_) => RUniformKind::LecuyerCmrg,
        }
    }

    /// The exact number of integers that [`Self::write_random_seed`] writes.
    pub fn random_seed_len(&self) -> (n: usize)
        ensures
            n == encoded_len(self@.uniform),
            uniform_wf(self@.uniform),
    {
        proof {
            use_type_invariant(self);
        }
        match self.uniform {
            UniformState::MersenneTwister { .. } => MT_LEN + 2,
            UniformState::LecuyerCmrg(_) => STATE_LEN + 1,
        }
    }

    /// The state in R's `.Random.seed` representation.
    pub fn random_seed(&self) -> (seed: Vec<i32>)
        ensures
            seed@ == encode(self@),
            seed@.len() == encoded_len(self@.uniform),
            uniform_wf(self@.uniform),
    {
        proof {
            use_type_invariant(&*self);
        }
        let n = self.random_seed_len();
        let mut result: Vec<i32> = Vec::new();
        let mut i: usize = 0;
        while i < n
            invariant
                i <= n,
                result.len() == i,
                forall|k: int| 0 <= k < i ==> result@[k] == 0,
            decreases n - i,
        {
            result.push(0);
            i = i + 1;
        }
        let written = self.write_random_seed(result.as_mut_slice());
        assert(result@ =~= encode(self@));
        result
    }

    /// Write the `.Random.seed` representation without allocating.
    ///
    /// Returns the number of integers written; output past them is left
    /// unchanged.
    pub fn write_random_seed(&self, output: &mut [i32]) -> (r: Result<usize, RRngError>)
        ensures
            old(output)@.len() < encoded_len(self@.uniform) ==> r == Err::<usize, RRngError>(
                RRngError::OutputTooSmall {
                    required: encoded_len(self@.uniform) as usize,
                    actual: old(output)@.len() as usize,
                },
            ) && final(output)@ == old(output)@,
            old(output)@.len() >= encoded_len(self@.uniform) ==> r == Ok::<usize, RRngError>(
                encoded_len(self@.uniform) as usize,
            ) && final(output)@ == encode(self@) + old(output)@.subrange(
                encoded_len(self@.uniform) as int,
                old(output)@.len() as int,
            ),
    {
        proof {
            use_type_invariant(&*self);
        }
        let required = self.random_seed_len();
        if output.len() < required {
            return Err(RRngError::OutputTooSmall { required, actual: output.len() });
        }
        let sample_mode: i32 = if self.version.uses_rejection_sampling() {
            1
        } else {
            0
        };
        output[0] = 10_000 * sample_mode + 400 + self.uniform_kind().mode_code();
        match &self.uniform {
            UniformState::MersenneTwister { words, position } => {
                output[1] = *position as i32;
                let mut i: usize = 0;
                while i < MT_LEN
                    invariant
                        i <= MT_LEN,
                        output@.len() == old(output)@.len(),
                        old(output)@.len() >= 626,
                        output@[0] == seed_header(self@.version, kind_of(self@.uniform)),
                        output@[1] == *position as i32,
                        forall|k: int| 0 <= k < i ==> output@[2 + k] == words@[k] as i32,
                        forall|k: int| 2 + i <= k < old(output)@.len() ==> output@[k] == old(output)@[k],
                    decreases MT_LEN - i,
                {
                    output[2 + i] = words[i] as i32;
                    i = i + 1;
                }
                assert(output@ =~= encode(self@) + old(output)@.subrange(626, old(output)@.len() as int));
            },
            UniformState::LecuyerCmrg(state) => {
                state.write_serialized(output, 1);
                assert(output@ =~= encode(self@) + old(output)@.subrange(7, old(output)@.len() as int));
            },
        }
        Ok(required)
    }

    /// Restore a supported inversion-normal `.Random.seed` vector; Mersenne
    /// Twister and L'Ecuyer-CMRG uniform states are accepted.
    pub fn from_random_seed(seed: &[i32]) -> (r: Result<Self, RRngError>)
        ensures
            match decode(seed@) {
                Ok(m) => r matches Ok(rng) && rng@ == m,
                Err(e) => r == Err::<Self, RRngError>(e),
            },
    {
        if seed.len() == 0 {
            return Err(RRngError::InvalidSeedLength { expected: 1, actual: 0 });
        }
        let modes = seed[0];
        if modes < 0 {
            return Err(RRngError::UnsupportedUniformKind(modes));
        }
        let uniform_kind = modes % 100;
        let normal_kind = modes % 10_000 / 100;
        let sample_kind = modes % 100_000 / 10_000;
        let binomial_kind = modes / 100_000;
        if normal_kind != 4 {
            return Err(RRngError::UnsupportedNormalKind(normal_kind));
        }
        if !(sample_kind == 0 || sample_kind == 1) {
            return Err(RRngError::UnsupportedSampleKind(sample_kind));
        }
        if binomial_kind != 0 {
            return Err(RRngError::UnsupportedBinomialKind(binomial_kind));
        }
        let version = if sample_kind == 0 {
            RVersion::R3_5
        } else {
            RVersion::R4_6
        };
        let uniform = if uniform_kind == 3 {
            if seed.len() != MT_LEN + 2 {
                return Err(RRngError::InvalidSeedLength { expected: MT_LEN + 2, actual: seed.len() });
            }
            let position = seed[1];
            if !(1 <= position && position <= 624) {
                return Err(RRngError::InvalidPosition(position));
            }
            let mut words = [0u32; 624];
            let mut all_zero = true;
            let mut i: usize = 0;
            while i < MT_LEN
                invariant
                    i <= MT_LEN,
                    seed@.len() == 626,
                    forall|k: int| 0 <= k < i ==> words@[k] == seed@[2 + k] as u32,
                    all_zero == (forall|k: int| 0 <= k < i ==> words@[k] == 0),
                decreases MT_LEN - i,
            {
                let word = seed[2 + i] as u32;
                let ghost before = words@;
                words[i] = word;
                all_zero = all_zero && word == 0;
                proof {
                    assert(words@[i as int] == word);
                    if all_zero {
                        assert forall|k: int| 0 <= k < i + 1 implies words@[k] == 0 by {
                            if k < i {
                                assert(words@[k] == before[k]);
                            }
                        }
                    } else {
                        if word != 0 {
                            assert(!(forall|k: int| 0 <= k < i + 1 ==> words@[k] == 0));
                        } else {
                            let k0 = choose|k: int| 0 <= k < i && before[k] != 0;
                            assert(words@[k0] == before[k0]);
                        }
                    }
                }
                i = i + 1;
            }
            assert(words@ =~= words_from(seed@, 2, 624));
            if all_zero {
                return Err(RRngError::AllZeroState);
            }
            UniformState::MersenneTwister { words, position: position as usize }
        } else if uniform_kind == 7 {
            if seed.len() != STATE_LEN + 1 {
                return Err(
                    RRngError::InvalidSeedLength { expected: STATE_LEN + 1, actual: seed.len() },
                );
            }
            let state = LecuyerState::from_serialized(seed, 1);
            match state {
                Ok(s) => {
                    assert(s.words@ =~= words_from(seed@, 1, 6));
                    UniformState::LecuyerCmrg(s)
                },
                Err(e) => {
                    return Err(e);
                },
            }
        } else {
            return Err(RRngError::UnsupportedUniformKind(uniform_kind));
        };
        Ok(RRng { uniform, version, math_mode: MathMode::Platform })
    }

    /// A copy advanced by R's `nextRNGStream` jump; only L'Ecuyer-CMRG
    /// generators have streams. The version and math mode are kept.
    pub fn next_rng_stream(&self) -> (r: Result<Self, RRngError>)
        ensures
            match self@.uniform {
                UniformModel::LecuyerCmrg { words } => r matches Ok(next) && next@
                    == (RngModel {
                    uniform: UniformModel::LecuyerCmrg {
                        words: lecuyer_jump(words, a1p127(), a2p127()),
                    },
                    ..self@
                }),
                UniformModel::MersenneTwister { .. } => r == Err::<Self, RRngError>(
                    RRngError::StreamOperationRequiresLecuyer,
                ),
            },
    {
        proof {
            use_type_invariant(&*self);
        }
        match &self.uniform {
            UniformState::LecuyerCmrg(state) => Ok(
                RRng {
                    uniform: UniformState::LecuyerCmrg(state.next_stream()),
                    version: self.version,
                    math_mode: self.math_mode,
                },
            ),
            UniformState::MersenneTwister { .. } => Err(RRngError::StreamOperationRequiresLecuyer),
        }
    }

    /// A copy advanced by R's `nextRNGSubStream` jump; only L'Ecuyer-CMRG
    /// generators have streams. The version and math mode are kept.
    pub fn next_rng_substream(&self) -> (r: Result<Self, RRngError>)
        ensures
            match self@.uniform {
                UniformModel::LecuyerCmrg { words } => r matches Ok(next) && next@
                    == (RngModel {
                    uniform: UniformModel::LecuyerCmrg {
                        words: lecuyer_jump(words, a1p76(), a2p76()),
                    },
                    ..self@
                }),
                UniformModel::MersenneTwister { .. } => r == Err::<Self, RRngError>(
                    RRngError::StreamOperationRequiresLecuyer,
                ),
            },
    {
        proof {
            use_type_invariant(&*self);
        }
        match &self.uniform {
            UniformState::LecuyerCmrg(state) => Ok(
                RRng {
                    uniform: UniformState::LecuyerCmrg(state.next_substream()),
                    version: self.version,
                    math_mode: self.math_mode,
                },
            ),
            UniformState::MersenneTwister { .. } => Err(RRngError::StreamOperationRequiresLecuyer),
        }
    }

    /// One uniform value exactly as R's default `runif(1)` draws it, in exact
    /// form; it lies strictly between 0 and 1.
    pub fn runif(&mut self) -> (u: RUniform)
        ensures
            (final(self)@.uniform, u) == unif_rand(old(self)@.uniform),
            final(self)@.version == old(self)@.version,
            final(self)@.math_mode == old(self)@.math_mode,
            u.in_unit_interval(),
            u.is_double(),
    {
        proof {
            use_type_invariant(&*self);
            lemma_unif_rand(self@.uniform);
        }
        reveal(unif_rand);
        // The state is taken out while it advances; a zero L'Ecuyer-CMRG
        // state holds its place.
        let mut uniform = UniformState::LecuyerCmrg(LecuyerState { words: [0u32; 6] });
        std::mem::swap(&mut uniform, &mut self.uniform);
        let raw = match &mut uniform {
            UniformState::MersenneTwister { words, position } => {
                let y = mt_next_exec(words, position);
                mt_double_exec(y)
            },
            UniformState::LecuyerCmrg(state) => {
                let d = state.next_raw();
                lecuyer_double_exec(d)
            },
        };
        self.uniform = uniform;
        fix_unit_interval_exec(raw)
    }

    /// The probability that R's inversion `rnorm()` turns into a normal
    /// variate: two draws `a` and `b` combined as `(floor(2^27 a) + b) / 2^27`
    /// in double arithmetic. The value is at most 1.
    pub fn rnorm_probability(&mut self) -> (p: RUniform)
        ensures
            (final(self)@.uniform, p) == normal_probability(old(self)@.uniform),
            final(self)@.version == old(self)@.version,
            final(self)@.math_mode == old(self)@.math_mode,
            p.mantissa <= pow2(p.exponent as nat),
    {
        let a = self.runif();
        let b = self.runif();
        let upper = scaled_floor_exec(a, 27);
        add_whole_then_scale_exec(upper, b, 27)
    }

    /// Sample an idiomatic zero-based index from `0..population`, consuming
    /// exactly the draws of `sample.int(population, 1)`.
    ///
    /// `population` must lie in `1..=4.5e15`; use [`Self::try_sample_index`]
    /// for unchecked input. The index always lies in `0..population`: under
    /// the R 3.5 rounding sampler, a product that rounds up to a population
    /// above `i32::MAX` is taken as the last index.
    pub fn sample_index(&mut self, population: usize) -> (i: usize)
        requires
            1 <= population <= MAX_R_SAMPLE_N,
            sample_index_outcome(old(self)@, population as nat).1 is Some,
        ensures
            sample_index_outcome(old(self)@, population as nat) == (
                final(self)@.uniform,
                Some(Ok::<usize, RRngError>(i)),
            ),
            i < population,
            final(self)@.version == old(self)@.version,
            final(self)@.math_mode == old(self)@.math_mode,
    {
        let i = self.unif_index(population as u64);
        i as usize
    }

    /// Checked form of [`Self::sample_index`]. Like it, it requires the
    /// rejection sampler to accept within `REJECTION_LIMIT` candidates;
    /// [`Self::try_sample_index_within`] has no such requirement.
    pub fn try_sample_index(&mut self, population: usize) -> (r: Result<usize, RRngError>)
        requires
            sample_index_outcome(old(self)@, population as nat).1 is Some,
        ensures
            sample_index_outcome(old(self)@, population as nat) == (final(self)@.uniform, Some(r)),
            r matches Ok(i) ==> i < population,
            final(self)@.version == old(self)@.version,
            final(self)@.math_mode == old(self)@.math_mode,
    {
        let valid = Self::validate_nonempty_population(population);
        match valid {
            Err(e) => Err(e),
            Ok(()) => Ok(self.unif_index(population as u64) as usize),
        }
    }

    /// [`Self::try_sample_index`] with at most `candidates` candidates for
    /// the rejection sampler of R 3.6 and later: `None` when none of them is
    /// accepted, after their draws. With `REJECTION_LIMIT` candidates it is
    /// `try_sample_index`; unlike it, it can be called on every state.
    pub fn try_sample_index_within(&mut self, population: usize, candidates: u64) -> (r: Option<
        Result<usize, RRngError>,
    >)
        ensures
            sample_index_within_outcome(old(self)@, population as nat, candidates as nat) == (
                final(self)@.uniform,
                r,
            ),
            candidates == REJECTION_LIMIT ==> sample_index_outcome(old(self)@, population as nat)
                == (final(self)@.uniform, r),
            r matches Some(Ok(i)) ==> i < population,
            final(self)@.version == old(self)@.version,
            final(self)@.math_mode == old(self)@.math_mode,
    {
        let valid = Self::validate_nonempty_population(population);
        if valid.is_err() {
            return Some(Err(RRngError::InvalidPopulationSize(population)));
        }
        let n = population as u64;
        if self.version.uses_rejection_sampling() {
            match self.rejection_index_within(n, candidates) {
                Some(i) => Some(Ok(i as usize)),
                None => None,
            }
        } else {
            let i = self.rounding_index_exec(n);
            Some(Ok(i as usize))
        }
    }

    /// Reproduce uniform `sample.int(population, size, replace)`.
    ///
    /// Values are one-based, as in R, and lie in `1..=population`. Without
    /// replacement R's partial Fisher-Yates procedure consumes the same draws
    /// as R.
    ///
    /// The call must complete: R's rejection sampler draws until a candidate
    /// is accepted, and this one accepts within `REJECTION_LIMIT` candidates.
    /// A caller that cannot show this can draw single indices with
    /// [`Self::try_sample_index_within`].
    pub fn sample_int(&mut self, population: usize, size: usize, replace: bool) -> (r: Result<
        Vec<usize>,
        RRngError,
    >)
        requires
            sample_int_outcome(old(self)@, population as nat, size as nat, replace).1 is Some,
        ensures
            final(self)@.uniform == sample_int_outcome(
                old(self)@,
                population as nat,
                size as nat,
                replace,
            ).0,
            match sample_int_outcome(old(self)@, population as nat, size as nat, replace).1 {
                Some(Ok(s)) => r matches Ok(v) && v@ == s,
                Some(Err(e)) => r == Err::<Vec<usize>, RRngError>(e),
                None => false,
            },
            r matches Ok(v) ==> v@.len() == size,
            !replace ==> (r matches Ok(v) ==> all_distinct(v@)),
            r matches Ok(v) ==> all_in_one_to(v@, population as nat),
            final(self)@.version == old(self)@.version,
            final(self)@.math_mode == old(self)@.math_mode,
    {
        let r = self.sample_int_draws(population, size, replace);
        proof {
            if r is Ok {
                law_sample_int_values(old(self)@, population as nat, size as nat, replace);
            }
        }
        r
    }

    fn sample_int_draws(&mut self, population: usize, size: usize, replace: bool) -> (r: Result<
        Vec<usize>,
        RRngError,
    >)
        requires
            sample_int_outcome(old(self)@, population as nat, size as nat, replace).1 is Some,
        ensures
            final(self)@.uniform == sample_int_outcome(
                old(self)@,
                population as nat,
                size as nat,
                replace,
            ).0,
            match sample_int_outcome(old(self)@, population as nat, size as nat, replace).1 {
                Some(Ok(s)) => r matches Ok(v) && v@ == s,
                Some(Err(e)) => r == Err::<Vec<usize>, RRngError>(e),
                None => false,
            },
            final(self)@.version == old(self)@.version,
            final(self)@.math_mode == old(self)@.math_mode,
    {
        if population as u64 > MAX_R_SAMPLE_N || (population == 0 && size > 0) {
            return Err(RRngError::InvalidPopulationSize(population));
        }
        if !replace && size > population {
            return Err(RRngError::SampleLargerThanPopulation { size, population });
        }
        let ghost u0 = self@.uniform;
        let ghost version = self@.version;
        let n = population as u64;
        if replace || size < 2 {
            let mut result: Vec<usize> = Vec::new();
            let mut k: usize = 0;
            while k < size
                invariant
                    self@.version == version,
                    self@.math_mode == old(self)@.math_mode,
                    u0 == old(self)@.uniform,
                    version == old(self)@.version,
                    n == population,
                    n <= MAX_R_SAMPLE_N,
                    n == 0 ==> size == 0,
                    k <= size,
                    draws_with_replacement(u0, version, n as nat, size as nat, seq![])
                        == draws_with_replacement(
                        self@.uniform,
                        version,
                        n as nat,
                        (size - k) as nat,
                        result@,
                    ),
                    draws_with_replacement(u0, version, n as nat, size as nat, seq![]).1 is Some,
                decreases size - k,
            {
                let i = self.unif_index(n);
                result.push((i + 1) as usize);
                k = k + 1;
            }
            return Ok(result);
        }
        let mut values: Vec<usize> = Vec::new();
        let mut j: usize = 0;
        while j < population
            invariant
                j <= population,
                values.len() == j,
                forall|t: int| 0 <= t < j ==> values@[t] == t,
            decreases population - j,
        {
            values.push(j);
            j = j + 1;
        }
        assert(values@ =~= identity_values(n as nat));
        let mut remaining: usize = population;
        let mut result: Vec<usize> = Vec::new();
        let mut k: usize = 0;
        while k < size
            invariant
                self@.version == version,
                self@.math_mode == old(self)@.math_mode,
                u0 == old(self)@.uniform,
                version == old(self)@.version,
                n == population,
                n <= MAX_R_SAMPLE_N,
                size <= population,
                k <= size,
                remaining == population - k,
                values.len() == population,
                forall|t: int| 0 <= t < values.len() ==> values@[t] < population,
                shuffle_draws(u0, version, identity_values(n as nat), n as nat, size as nat, seq![])
                    == shuffle_draws(
                    self@.uniform,
                    version,
                    values@,
                    remaining as nat,
                    (size - k) as nat,
                    result@,
                ),
                shuffle_draws(
                    u0,
                    version,
                    identity_values(n as nat),
                    n as nat,
                    size as nat,
                    seq![],
                ).1 is Some,
            decreases size - k,
        {
            let index = self.unif_index(remaining as u64) as usize;
            result.push(values[index] + 1);
            remaining = remaining - 1;
            let last = values[remaining];
            values[index] = last;
            k = k + 1;
        }
        Ok(result)
    }

    /// Sample one-based values without replacement, matching R.
    pub fn sample_without_replacement(&mut self, population: usize, size: usize) -> (r: Result<
        Vec<usize>,
        RRngError,
    >)
        requires
            sample_int_outcome(old(self)@, population as nat, size as nat, false).1 is Some,
        ensures
            final(self)@.uniform == sample_int_outcome(
                old(self)@,
                population as nat,
                size as nat,
                false,
            ).0,
            match sample_int_outcome(old(self)@, population as nat, size as nat, false).1 {
                Some(Ok(s)) => r matches Ok(v) && v@ == s,
                Some(Err(e)) => r == Err::<Vec<usize>, RRngError>(e),
                None => false,
            },
            r matches Ok(v) ==> v@.len() == size && all_distinct(v@) && all_in_one_to(
                v@,
                population as nat,
            ),
            final(self)@.version == old(self)@.version,
            final(self)@.math_mode == old(self)@.math_mode,
    {
        self.sample_int(population, size, false)
    }

    /// A one-based random permutation of `1..=population`, matching
    /// `sample.int(population)`: one index draw per element.
    pub fn permutation(&mut self, population: usize) -> (r: Result<Vec<usize>, RRngError>)
        requires
            sample_int_outcome(old(self)@, population as nat, population as nat, false).1 is Some,
        ensures
            final(self)@.uniform == sample_int_outcome(
                old(self)@,
                population as nat,
                population as nat,
                false,
            ).0,
            match sample_int_outcome(old(self)@, population as nat, population as nat, false).1 {
                Some(Ok(s)) => r matches Ok(v) && v@ == s,
                Some(Err(e)) => r == Err::<Vec<usize>, RRngError>(e),
                None => false,
            },
            r matches Ok(v) ==> {
                &&& v@.len() == population
                &&& all_distinct(v@)
                &&& all_in_one_to(v@, population as nat)
                &&& forall|x: nat| 1 <= x <= population ==> #[trigger] holds_value(v@, x)
            },
            final(self)@.version == old(self)@.version,
            final(self)@.math_mode == old(self)@.math_mode,
    {
        proof {
            use_type_invariant(&*self);
        }
        proof {
            if sample_int_outcome(self@, population as nat, population as nat, false).1 matches Some(Ok(_)) {
                law_permutation(self@, population as nat);
            }
        }
        self.sample_int(population, population, false)
    }

    fn validate_nonempty_population(population: usize) -> (r: Result<(), RRngError>)
        ensures
            (population == 0 || population > MAX_R_SAMPLE_N) ==> r == Err::<(), RRngError>(
                RRngError::InvalidPopulationSize(population),
            ),
            !(population == 0 || population > MAX_R_SAMPLE_N) ==> r is Ok,
    {
        if population == 0 || population as u64 > MAX_R_SAMPLE_N {
            Err(RRngError::InvalidPopulationSize(population))
        } else {
            Ok(())
        }
    }

    /// R's `rbits(bits)`: `bits / 16 + 1` draws taken as base-65536 digits,
    /// keeping the low `bits` bits.
    fn random_bits(&mut self, bits: u32) -> (v: u64)
        requires
            bits <= 63,
        ensures
            (final(self)@.uniform, v as nat) == random_bits(old(self)@.uniform, bits as nat),
            final(self)@.version == old(self)@.version,
            final(self)@.math_mode == old(self)@.math_mode,
    {
        let ghost u0 = self@.uniform;
        let mut value: u64 = 0;
        let mut generated: u32 = 0;
        while generated <= bits
            invariant
                self@.version == old(self)@.version,
                self@.math_mode == old(self)@.math_mode,
                u0 == old(self)@.uniform,
                bits <= 63,
                generated % 16 == 0,
                generated <= bits + 16,
                (self@.uniform, value as nat) == draw_digits(u0, (generated / 16) as nat),
                generated == 0 ==> value == 0,
                generated == 16 ==> value < 0x1_0000,
                generated == 32 ==> value < 0x1_0000_0000,
                generated == 48 ==> value < 0x1_0000_0000_0000,
            decreases bits + 16 - generated,
        {
            let x = self.runif();
            proof {
                lemma2_to64();
            }
            let chunk = scaled_floor_exec(x, 16);
            value = 65536 * value + chunk;
            generated = generated + 16;
        }
        proof {
            lemma2_to64();
            lemma2_to64_rest();
            if bits < 63 {
                lemma_pow2_strictly_increases(bits as nat, 63);
            }
        }
        let p = pow2_u128(bits) as u64;
        value % p
    }

    /// The number of binary digits of `x`.
    fn bit_length_exec(x: u64) -> (b: u32)
        requires
            x < MAX_R_SAMPLE_N,
        ensures
            b == bit_length(x as nat),
            b <= 52,
    {
        let mut m = x;
        let mut b: u32 = 0;
        proof {
            lemma2_to64_rest();
            lemma_bit_length_bound(x as nat, 52);
        }
        while m > 0
            invariant
                bit_length(x as nat) == b + bit_length(m as nat),
                bit_length(x as nat) <= 52,
            decreases m,
        {
            m = m / 2;
            b = b + 1;
        }
        b
    }

    /// Rejection sampling from `0..n`, as R 3.6 and later do it, trying at
    /// most `limit` candidates; `None` when none of them is accepted.
    fn rejection_index_within(&mut self, n: u64, limit: u64) -> (r: Option<u64>)
        requires
            1 <= n <= MAX_R_SAMPLE_N,
        ensures
            rejection_index(old(self)@.uniform, n as nat, limit as nat) == (
                final(self)@.uniform,
                match r {
                    Some(i) => Some(i as nat),
                    None => None,
                },
            ),
            r matches Some(i) ==> i < n,
            final(self)@.version == old(self)@.version,
            final(self)@.math_mode == old(self)@.math_mode,
    {
        let bits = Self::bit_length_exec(n - 1);
        let mut attempts: u64 = 0;
        while attempts < limit
            invariant
                self@.version == old(self)@.version,
                self@.math_mode == old(self)@.math_mode,
                1 <= n <= MAX_R_SAMPLE_N,
                bits == bit_length((n - 1) as nat),
                bits <= 52,
                attempts <= limit,
                rejection_index(old(self)@.uniform, n as nat, limit as nat) == rejection_index(
                    self@.uniform,
                    n as nat,
                    (limit - attempts) as nat,
                ),
            decreases limit - attempts,
        {
            let candidate = self.random_bits(bits);
            if candidate < n {
                return Some(candidate);
            }
            attempts = attempts + 1;
        }
        None
    }

    /// Rejection sampling from `0..n`, as R 3.6 and later do it.
    fn rejection_index_exec(&mut self, n: u64) -> (i: u64)
        requires
            1 <= n <= MAX_R_SAMPLE_N,
            rejection_index(old(self)@.uniform, n as nat, REJECTION_LIMIT as nat).1 is Some,
        ensures
            (final(self)@.uniform, Some(i as nat)) == rejection_index(
                old(self)@.uniform,
                n as nat,
                REJECTION_LIMIT as nat,
            ),
            i < n,
            final(self)@.version == old(self)@.version,
            final(self)@.math_mode == old(self)@.math_mode,
    {
        match self.rejection_index_within(n, REJECTION_LIMIT) {
            Some(i) => i,
            None => {
                proof {
                    assert(false);
                }
                0
            },
        }
    }

    /// The pre-R-3.6 rounding sampler.
    fn rounding_index_exec(&mut self, n: u64) -> (i: u64)
        requires
            1 <= n <= MAX_R_SAMPLE_N,
        ensures
            (final(self)@.uniform, i as nat) == rounding_index(old(self)@.uniform, n as nat),
            i < n,
            final(self)@.version == old(self)@.version,
            final(self)@.math_mode == old(self)@.math_mode,
    {
        reveal(rounding_index);
        let x = if n > 0x7fff_ffff {
            let a = self.runif();
            let b = self.runif();
            proof {
                lemma2_to64();
            }
            let j = scaled_floor_exec(a, 25);
            let w = add_whole_then_scale_exec(j, b, 25);
            floor_of_product_exec(n, w)
        } else {
            let a = self.runif();
            floor_of_product_exec(n, a)
        };
        if x < n {
            x
        } else {
            n - 1
        }
    }

    /// R's `R_unif_index(n)` under the selected version.
    #[verifier::rlimit(30)]
    fn unif_index(&mut self, n: u64) -> (i: u64)
        requires
            1 <= n <= MAX_R_SAMPLE_N,
            index_draw(old(self)@.uniform, old(self)@.version, n as nat).1 is Some,
        ensures
            (final(self)@.uniform, Some(i as nat)) == index_draw(
                old(self)@.uniform,
                old(self)@.version,
                n as nat,
            ),
            i < n,
            final(self)@.version == old(self)@.version,
            final(self)@.math_mode == old(self)@.math_mode,
    {
        if !self.version.uses_rejection_sampling() {
            let ghost u0 = self@.uniform;
            let i = self.rounding_index_exec(n);
            assert(index_draw(u0, self@.version, n as nat) == (
                rounding_index(u0, n as nat).0,
                Some(rounding_index(u0, n as nat).1),
            ));
            return i;
        }
        self.rejection_index_exec(n)
    }
}

/// `x < 2^k` has at most `k` binary digits.
proof fn lemma_bit_length_bound(x: nat, k: nat)
    requires
        x < pow2(k),
    ensures
        bit_length(x) <= k,
    decreases x,
{
    if x > 0 {
        if k == 0 {
            lemma2_to64();
        } else {
            lemma_pow2_unfold(k);
            lemma_bit_length_bound(x / 2, (k - 1) as nat);
        }
    }
}

} // verus!
