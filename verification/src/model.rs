//! The mathematical model of a generator: its state, the values it draws, the
//! integers its samplers return and its `.Random.seed` encoding.
use crate::error::RRngError;
use crate::kinds::{mode_code_spec, uses_rejection_spec, MathMode, RUniformKind, RVersion};
use crate::lcg::lcg_iterate;
use crate::lecuyer::{lecuyer_next, lecuyer_nonzero, lecuyer_seeded, lecuyer_valid};
use crate::mt::{lemma_twist_prefix_len, mt_live, mt_next};
use crate::uniform::{
    add_whole_then_scale, clear_of_one, fix_unit_interval, floor_of_product, lecuyer_double,
    lemma_fix_unit_interval, lemma_lecuyer_double, lemma_lecuyer_draw_clear, lemma_mt_draw_clear,
    mt_double, scaled_floor, RUniform,
};
use vstd::arithmetic::power2::pow2;
use vstd::prelude::*;

verus! {

/// Largest population that R's integer samplers accept.
pub const MAX_R_SAMPLE_N: u64 = 4_500_000_000_000_000;

/// Number of candidates the rejection sampler draws before it gives up.
pub const REJECTION_LIMIT: u64 = 0xffff_ffff_ffff_ffff;

/// The state of the uniform generator.
pub enum UniformModel {
    /// The 624 Mersenne Twister words and R's cursor into them.
    MersenneTwister { words: Seq<u32>, position: nat },
    /// The six L'Ecuyer-CMRG words.
    LecuyerCmrg { words: Seq<u32> },
}

/// The whole state of an R-compatible generator.
pub struct RngModel {
    pub uniform: UniformModel,
    pub version: RVersion,
    pub math_mode: MathMode,
}

/// The uniform state has the shape its generator needs.
pub open spec fn uniform_wf(u: UniformModel) -> bool {
    match u {
        UniformModel::MersenneTwister { words, position } => words.len() == 624 && 1 <= position
            <= 624,
        UniformModel::LecuyerCmrg { words } => lecuyer_valid(words),
    }
}

/// The state can be restored from its own `.Random.seed`: no required state
/// component is all zero.
pub open spec fn uniform_nonzero(u: UniformModel) -> bool {
    match u {
        UniformModel::MersenneTwister { words, .. } => exists|i: int|
            0 <= i < 624 && #[trigger] words[i] != 0,
        UniformModel::LecuyerCmrg { words } => lecuyer_nonzero(words),
    }
}

/// The state still drives its generator, and keeps doing so under every call:
/// for the Mersenne Twister some bit that reaches an output is set; for
/// L'Ecuyer-CMRG neither component is all zero.
pub open spec fn uniform_live(u: UniformModel) -> bool {
    match u {
        UniformModel::MersenneTwister { words, .. } => mt_live(words),
        UniformModel::LecuyerCmrg { words } => lecuyer_nonzero(words),
    }
}

/// The generator that a uniform state belongs to.
pub open spec fn kind_of(u: UniformModel) -> RUniformKind {
    match u {
        UniformModel::MersenneTwister { .. } => RUniformKind::MersenneTwister,
        UniformModel::LecuyerCmrg { .. } => RUniformKind::LecuyerCmrg,
    }
}

/// R's `set.seed()` scrambling: fifty steps of the seed generator.
pub open spec fn scrambled_seed(seed: i32) -> u32 {
    lcg_iterate(seed as u32, 50)
}

/// The state that `RNGkind(kind); set.seed(seed)` leaves in R.
///
/// For the Mersenne Twister the generator is stepped once for the cursor word,
/// which R then overwrites with 624, and once for each of the 624 words.
pub open spec fn seeded_uniform(seed: i32, kind: RUniformKind) -> UniformModel {
    let s = scrambled_seed(seed);
    match kind {
        RUniformKind::MersenneTwister => UniformModel::MersenneTwister {
            words: Seq::new(624, |i: int| lcg_iterate(s, (i + 2) as nat)),
            position: 624,
        },
        RUniformKind::LecuyerCmrg => UniformModel::LecuyerCmrg { words: lecuyer_seeded(s) },
    }
}

/// One call of R's `unif_rand()`: the next state and the exact double drawn.
#[verifier::opaque]
pub open spec fn unif_rand(u: UniformModel) -> (UniformModel, RUniform) {
    match u {
        UniformModel::MersenneTwister { words, position } => {
            let (w, p, y) = mt_next(words, position);
            (
                UniformModel::MersenneTwister { words: w, position: p },
                fix_unit_interval(mt_double(y)),
            )
        },
        UniformModel::LecuyerCmrg { words } => {
            let (w, d) = lecuyer_next(words);
            (UniformModel::LecuyerCmrg { words: w }, fix_unit_interval(lecuyer_double(d)))
        },
    }
}

/// The uniform state after `n` calls of `unif_rand()`.
pub open spec fn uniform_after(u: UniformModel, n: nat) -> UniformModel
    decreases n,
{
    if n == 0 {
        u
    } else {
        uniform_after(unif_rand(u).0, (n - 1) as nat)
    }
}

/// A draw keeps the state well formed and the generator kind, and its value
/// lies strictly between 0 and 1.
pub proof fn lemma_unif_rand(u: UniformModel)
    requires
        uniform_wf(u),
    ensures
        uniform_wf(unif_rand(u).0),
        kind_of(unif_rand(u).0) == kind_of(u),
        unif_rand(u).1.in_unit_interval(),
        unif_rand(u).1.is_double(),
        clear_of_one(unif_rand(u).1),
{
    reveal(unif_rand);
    match u {
        UniformModel::MersenneTwister { words, position } => {
            lemma_twist_prefix_len(words, 624);
            let (w, p, y) = mt_next(words, position);
            vstd::arithmetic::power2::lemma2_to64_rest();
            lemma_fix_unit_interval(mt_double(y));
            lemma_mt_draw_clear(y);
        },
        UniformModel::LecuyerCmrg { words } => {
            let (w, d) = lecuyer_next(words);
            lemma_lecuyer_double(d);
            lemma_fix_unit_interval(lecuyer_double(d));
            lemma_lecuyer_draw_clear(d);
        },
    }
}

/// The probability that R's inversion `rnorm()` feeds to the normal quantile:
/// `(floor(2^27 a) + b) / 2^27` for two successive draws `a` and `b`.
pub open spec fn normal_probability(u: UniformModel) -> (UniformModel, RUniform) {
    let (u1, a) = unif_rand(u);
    let (u2, b) = unif_rand(u1);
    (u2, add_whole_then_scale(scaled_floor(a, 27), b, 27))
}

/// `c` draws read as base-65536 digits, most significant first: each draw `x`
/// contributes `floor(65536 x)`.
pub open spec fn draw_digits(u: UniformModel, c: nat) -> (UniformModel, nat)
    decreases c,
{
    if c == 0 {
        (u, 0)
    } else {
        let (u1, v) = draw_digits(u, (c - 1) as nat);
        let (u2, x) = unif_rand(u1);
        (u2, 65536 * v + scaled_floor(x, 16))
    }
}

/// R's `rbits(bits)`: `bits / 16 + 1` digits, keeping the low `bits` bits.
pub open spec fn random_bits(u: UniformModel, bits: nat) -> (UniformModel, nat) {
    let (u1, v) = draw_digits(u, bits / 16 + 1);
    (u1, v % pow2(bits))
}

/// The number of binary digits of `x`.
pub open spec fn bit_length(x: nat) -> nat
    decreases x,
{
    if x == 0 {
        0
    } else {
        1 + bit_length(x / 2)
    }
}

/// Rejection sampling from `0..n` with at most `fuel` candidates: `None` when
/// every candidate was out of range.
pub open spec fn rejection_index(u: UniformModel, n: nat, fuel: nat) -> (UniformModel, Option<nat>)
    decreases fuel,
{
    if fuel == 0 {
        (u, None)
    } else {
        let (u1, c) = random_bits(u, bit_length((n - 1) as nat));
        if c < n {
            (u1, Some(c))
        } else {
            rejection_index(u1, n, (fuel - 1) as nat)
        }
    }
}

/// `x` when it lies below `n`, else `n - 1`.
pub open spec fn cap_index(x: nat, n: nat) -> nat {
    if x < n {
        x
    } else {
        (n - 1) as nat
    }
}

/// The pre-R-3.6 rounding sampler: `floor(n u)` for one draw `u`, or for
/// `u = (floor(2^25 a) + b) / 2^25` when `n` exceeds `i32::MAX`. All
/// operations round as doubles do, so for such large `n` the product can round
/// up to `n`; that index is taken as `n - 1`, keeping every index in `0..n`.
#[verifier::opaque]
pub open spec fn rounding_index(u: UniformModel, n: nat) -> (UniformModel, nat) {
    if n > 0x7fff_ffff {
        let (u1, a) = unif_rand(u);
        let (u2, b) = unif_rand(u1);
        (u2, cap_index(floor_of_product(n, add_whole_then_scale(scaled_floor(a, 25), b, 25)), n))
    } else {
        let (u1, a) = unif_rand(u);
        (u1, cap_index(floor_of_product(n, a), n))
    }
}

/// R's `R_unif_index(n)` for the given version; `None` when the rejection
/// sampler reached [`REJECTION_LIMIT`] candidates.
pub open spec fn index_draw(u: UniformModel, version: RVersion, n: nat) -> (
    UniformModel,
    Option<nat>,
) {
    if uses_rejection_spec(version) {
        rejection_index(u, n, REJECTION_LIMIT as nat)
    } else {
        let (u1, i) = rounding_index(u, n);
        (u1, Some(i))
    }
}

/// The outcome of sampling a zero-based index from `0..n`: `None` when the
/// draw does not complete.
pub open spec fn sample_index_outcome(m: RngModel, n: nat) -> (
    UniformModel,
    Option<Result<usize, RRngError>>,
) {
    if n == 0 || n > MAX_R_SAMPLE_N {
        (m.uniform, Some(Err(RRngError::InvalidPopulationSize(n as usize))))
    } else {
        let (u1, i) = index_draw(m.uniform, m.version, n);
        match i {
            Some(i) => (u1, Some(Ok(i as usize))),
            None => (u1, None),
        }
    }
}

/// The outcome of sampling a zero-based index from `0..n` when the rejection
/// sampler may try at most `candidates` candidates: `None` when none of them
/// is accepted.
pub open spec fn sample_index_within_outcome(m: RngModel, n: nat, candidates: nat) -> (
    UniformModel,
    Option<Result<usize, RRngError>>,
) {
    if n == 0 || n > MAX_R_SAMPLE_N {
        (m.uniform, Some(Err(RRngError::InvalidPopulationSize(n as usize))))
    } else if uses_rejection_spec(m.version) {
        let (u1, i) = rejection_index(m.uniform, n, candidates);
        match i {
            Some(i) => (u1, Some(Ok(i as usize))),
            None => (u1, None),
        }
    } else {
        let (u1, i) = rounding_index(m.uniform, n);
        (u1, Some(Ok(i as usize)))
    }
}

/// `k` one-based draws with replacement from `1..=n`, appended to `acc`.
pub open spec fn draws_with_replacement(
    u: UniformModel,
    version: RVersion,
    n: nat,
    k: nat,
    acc: Seq<usize>,
) -> (UniformModel, Option<Seq<usize>>)
    decreases k,
{
    if k == 0 {
        (u, Some(acc))
    } else {
        let (u1, i) = index_draw(u, version, n);
        match i {
            Some(i) => draws_with_replacement(
                u1,
                version,
                n,
                (k - 1) as nat,
                acc.push((i + 1) as usize),
            ),
            None => (u1, None),
        }
    }
}

/// R's partial Fisher-Yates shuffle: `k` more picks among the first
/// `remaining` entries of `values`; each pick appends the chosen value plus one
/// to `acc` and moves the last remaining entry into its place. `None` when an
/// index draw does not complete.
pub open spec fn shuffle_draws(
    u: UniformModel,
    version: RVersion,
    values: Seq<usize>,
    remaining: nat,
    k: nat,
    acc: Seq<usize>,
) -> (UniformModel, Option<Seq<usize>>)
    decreases k,
{
    if k == 0 {
        (u, Some(acc))
    } else {
        let (u1, i) = index_draw(u, version, remaining);
        match i {
            Some(i) => shuffle_draws(
                u1,
                version,
                values.update(i as int, values[remaining - 1]),
                (remaining - 1) as nat,
                (k - 1) as nat,
                acc.push((values[i as int] + 1) as usize),
            ),
            None => (u1, None),
        }
    }
}

/// `0, 1, ..., n - 1`.
pub open spec fn identity_values(n: nat) -> Seq<usize> {
    Seq::new(n, |i: int| i as usize)
}

/// The outcome of R's `sample.int(n, size, replace)`: the next uniform state
/// and the result, or `None` when the sampling does not complete.
pub open spec fn sample_int_outcome(m: RngModel, n: nat, size: nat, replace: bool) -> (
    UniformModel,
    Option<Result<Seq<usize>, RRngError>>,
) {
    if n > MAX_R_SAMPLE_N || (n == 0 && size > 0) {
        (m.uniform, Some(Err(RRngError::InvalidPopulationSize(n as usize))))
    } else if !replace && size > n {
        (
            m.uniform,
            Some(
                Err(
                    RRngError::SampleLargerThanPopulation {
                        size: size as usize,
                        population: n as usize,
                    },
                ),
            ),
        )
    } else {
        let (u1, r) = if replace || size < 2 {
            draws_with_replacement(m.uniform, m.version, n, size, seq![])
        } else {
            shuffle_draws(m.uniform, m.version, identity_values(n), n, size, seq![])
        };
        match r {
            Some(s) => (u1, Some(Ok(s))),
            None => (u1, None),
        }
    }
}

/// The first integer of `.Random.seed`: sample kind, normal kind (inversion)
/// and uniform kind as decimal digits.
pub open spec fn seed_header(version: RVersion, kind: RUniformKind) -> i32 {
    (10000 * (if uses_rejection_spec(version) {
        1int
    } else {
        0int
    }) + 400 + mode_code_spec(kind)) as i32
}

/// The number of integers in the `.Random.seed` of a uniform state.
pub open spec fn encoded_len(u: UniformModel) -> nat {
    match u {
        UniformModel::MersenneTwister { .. } => 626,
        UniformModel::LecuyerCmrg { .. } => 7,
    }
}

/// Words reinterpreted as signed integers.
pub open spec fn words_as_i32(w: Seq<u32>) -> Seq<i32> {
    Seq::new(w.len(), |i: int| w[i] as i32)
}

/// R's `.Random.seed` for a state.
pub open spec fn encode(m: RngModel) -> Seq<i32> {
    let header = seed_header(m.version, kind_of(m.uniform));
    match m.uniform {
        UniformModel::MersenneTwister { words, position } => seq![header, position as i32]
            + words_as_i32(words),
        UniformModel::LecuyerCmrg { words } => seq![header] + words_as_i32(words),
    }
}

/// Integers reinterpreted as unsigned words, from index `start` on.
pub open spec fn words_from(s: Seq<i32>, start: int, len: nat) -> Seq<u32> {
    Seq::new(len, |i: int| s[start + i] as u32)
}

/// The state that a `.Random.seed` vector encodes, or why it is refused.
/// Restoring selects R 3.5 for the rounding sample kind and R 4.6 for the
/// rejection kind, and the platform math library.
pub open spec fn decode(s: Seq<i32>) -> Result<RngModel, RRngError> {
    if s.len() == 0 {
        Err(RRngError::InvalidSeedLength { expected: 1, actual: 0 })
    } else if s[0] < 0 {
        Err(RRngError::UnsupportedUniformKind(s[0]))
    } else {
        let modes = s[0] as int;
        let uniform_kind = modes % 100;
        let normal_kind = modes % 10000 / 100;
        let sample_kind = modes % 100000 / 10000;
        let binomial_kind = modes / 100000;
        let version = if sample_kind == 0 {
            RVersion::R3_5
        } else {
            RVersion::R4_6
        };
        if normal_kind != 4 {
            Err(RRngError::UnsupportedNormalKind(normal_kind as i32))
        } else if !(sample_kind == 0 || sample_kind == 1) {
            Err(RRngError::UnsupportedSampleKind(sample_kind as i32))
        } else if binomial_kind != 0 {
            Err(RRngError::UnsupportedBinomialKind(binomial_kind as i32))
        } else if uniform_kind == 3 {
            let words = words_from(s, 2, 624);
            if s.len() != 626 {
                Err(RRngError::InvalidSeedLength { expected: 626, actual: s.len() as usize })
            } else if !(1 <= s[1] <= 624) {
                Err(RRngError::InvalidPosition(s[1]))
            } else if forall|i: int| 0 <= i < 624 ==> #[trigger] words[i] == 0 {
                Err(RRngError::AllZeroState)
            } else {
                Ok(
                    RngModel {
                        uniform: UniformModel::MersenneTwister {
                            words,
                            position: s[1] as nat,
                        },
                        version,
                        math_mode: MathMode::Platform,
                    },
                )
            }
        } else if uniform_kind == 7 {
            let words = words_from(s, 1, 6);
            if s.len() != 7 {
                Err(RRngError::InvalidSeedLength { expected: 7, actual: s.len() as usize })
            } else if !lecuyer_nonzero(words) {
                Err(RRngError::AllZeroState)
            } else if !lecuyer_valid(words) {
                Err(RRngError::InvalidLecuyerState)
            } else {
                Ok(
                    RngModel {
                        uniform: UniformModel::LecuyerCmrg { words },
                        version,
                        math_mode: MathMode::Platform,
                    },
                )
            }
        } else {
            Err(RRngError::UnsupportedUniformKind(uniform_kind as i32))
        }
    }
}

} // verus!
