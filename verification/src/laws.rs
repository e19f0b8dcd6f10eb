//! Properties that hold of every generator state and every call.
use crate::error::RRngError;
use crate::kinds::{uses_rejection_spec, MathMode, RUniformKind, RVersion};
use crate::lcg::{lcg_iterate, lcg_step};
use crate::lecuyer::{
    a1p127, a1p76, a2p127, a2p76, lecuyer_jump, lecuyer_next, lecuyer_valid, lemma_seed_pick_below,
    seed_pick, seed_word,
};
use crate::model::{
    bit_length, decode, draw_digits, draws_with_replacement, encode, identity_values, index_draw,
    kind_of, lemma_unif_rand, normal_probability, random_bits, rejection_index, rounding_index,
    sample_index_outcome, sample_int_outcome, seed_header, seeded_uniform, shuffle_draws,
    unif_rand, uniform_after, uniform_live, uniform_nonzero, uniform_wf, words_as_i32, words_from,
    RngModel, UniformModel, MAX_R_SAMPLE_N, REJECTION_LIMIT,
};
use crate::mt::{lemma_next_keeps_live, mt_live, mt_twist, temper, UPPER_MASK};
use crate::streams::{
    lecuyer_advance, lemma_jumps_keep_nonzero, lemma_next_keeps_nonzero, lemma_stream_jumps,
};
use crate::uniform::{
    fix_unit_interval, floor_of_product, lemma_floor_of_product_below, mt_double, scaled_floor,
};
use vstd::arithmetic::power2::*;
use vstd::prelude::*;

verus! {

/// The state that restoring a serialized generator yields: the same uniform
/// state, R 3.5 or R 4.6 according to the sampler, and the platform math
/// library (the math mode is not part of `.Random.seed`).
pub open spec fn restored(m: RngModel) -> RngModel {
    RngModel {
        uniform: m.uniform,
        version: if uses_rejection_spec(m.version) {
            RVersion::R4_6
        } else {
            RVersion::R3_5
        },
        math_mode: MathMode::Platform,
    }
}

proof fn lemma_word_round_trip(w: u32)
    ensures
        (w as i32) as u32 == w,
{
    assert((w as i32) as u32 == w) by (bit_vector);
}

proof fn lemma_int_round_trip(x: i32)
    ensures
        (x as u32) as i32 == x,
{
    assert((x as u32) as i32 == x) by (bit_vector);
}

/// Saving and restoring: the `.Random.seed` of any well-formed generator
/// whose required state components are not all zero restores to the same
/// uniform state, with the sampler of its version.
pub proof fn law_restore_after_save(m: RngModel)
    requires
        uniform_wf(m.uniform),
        uniform_nonzero(m.uniform),
    ensures
        decode(encode(m)) == Ok::<RngModel, RRngError>(restored(m)),
{
    let s = encode(m);
    match m.uniform {
        UniformModel::MersenneTwister { words, position } => {
            assert(s.len() == 626);
            let w = words_from(s, 2, 624);
            assert forall|i: int| 0 <= i < 624 implies #[trigger] w[i] == words[i] by {
                assert(s[2 + i] == words[i] as i32);
                lemma_word_round_trip(words[i]);
            }
            assert(w =~= words);
            let i0 = choose|i: int| 0 <= i < 624 && #[trigger] words[i] != 0;
            assert(w[i0] != 0);
        },
        UniformModel::LecuyerCmrg { words } => {
            assert(s.len() == 7);
            let w = words_from(s, 1, 6);
            assert forall|i: int| 0 <= i < 6 implies #[trigger] w[i] == words[i] by {
                assert(s[1 + i] == words[i] as i32);
                lemma_word_round_trip(words[i]);
            }
            assert(w =~= words);
        },
    }
}

/// Every state that `set.seed` produces is live, and so can be restored from
/// its own `.Random.seed`: a zero word is always followed by the word 1.
pub proof fn law_seeded_states_are_restorable(seed: i32, kind: RUniformKind)
    ensures
        uniform_nonzero(seeded_uniform(seed, kind)),
        live_state(seeded_uniform(seed, kind), kind),
{
    let s = crate::model::scrambled_seed(seed);
    match kind {
        RUniformKind::MersenneTwister => {
            if let UniformModel::MersenneTwister { words, .. } = seeded_uniform(seed, kind) {
                assert(words[1] == lcg_step(words[0]));
                assert(words[2] == lcg_step(words[1]));
                if words[1] == 0 {
                    assert(words[2] == 1);
                }
                assert(mt_live(words));
            }
        },
        RUniformKind::LecuyerCmrg => {
            assert(seed_word(s, 1) == seed_pick(seed_word(s, 0)));
            assert(seed_word(s, 4) == seed_pick(seed_word(s, 3)));
            assert(seed_pick(0) == 1);
            lemma_seed_pick_below(s);
            lemma_seed_pick_below(seed_word(s, 0));
            lemma_seed_pick_below(seed_word(s, 1));
            lemma_seed_pick_below(seed_word(s, 2));
            lemma_seed_pick_below(seed_word(s, 3));
            lemma_seed_pick_below(seed_word(s, 4));
            assert(seed_word(s, 2) == seed_pick(seed_word(s, 1)));
            assert(seed_word(s, 3) == seed_pick(seed_word(s, 2)));
            assert(seed_word(s, 5) == seed_pick(seed_word(s, 4)));
        },
    }
    if kind == RUniformKind::MersenneTwister {
        if let UniformModel::MersenneTwister { words, .. } = seeded_uniform(seed, kind) {
            lemma_live_is_nonzero(seeded_uniform(seed, kind));
        }
    }
}

/// Restoring and saving: every `.Random.seed` vector that is accepted is
/// exactly the serialization of the state it restores to.
pub proof fn law_save_after_restore(s: Seq<i32>)
    requires
        decode(s) is Ok,
    ensures
        encode(decode(s)->Ok_0) == s,
{
    let m = decode(s)->Ok_0;
    let modes = s[0] as int;
    assert(modes == (modes % 100000 / 10000) * 10000 + (modes % 10000 / 100) * 100 + modes % 100);
    match m.uniform {
        UniformModel::MersenneTwister { words, position } => {
            let e = encode(m);
            assert forall|i: int| 0 <= i < 624 implies #[trigger] words_as_i32(words)[i] == s[2
                + i] by {
                lemma_int_round_trip(s[2 + i]);
            }
            assert(e =~= s);
        },
        UniformModel::LecuyerCmrg { words } => {
            let e = encode(m);
            assert forall|i: int| 0 <= i < 6 implies #[trigger] words_as_i32(words)[i] == s[1
                + i] by {
                lemma_int_round_trip(s[1 + i]);
            }
            assert(e =~= s);
        },
    }
}

/// Changing the R version changes only the sampler digit of the first
/// integer of `.Random.seed`: 10000 with rejection sampling, 0 with rounding.
pub proof fn law_version_changes_only_sampler_mode(m: RngModel, version: RVersion)
    ensures
        encode(RngModel { version, ..m }).len() == encode(m).len(),
        encode(RngModel { version, ..m }).subrange(1, encode(m).len() as int) == encode(m).subrange(
            1,
            encode(m).len() as int,
        ),
        encode(RngModel { version, ..m })[0] == seed_header(version, kind_of(m.uniform)),
        seed_header(RVersion::R3_5, kind_of(m.uniform)) + 10000 == seed_header(
            RVersion::R4_6,
            kind_of(m.uniform),
        ),
{
    let a = encode(RngModel { version, ..m });
    let b = encode(m);
    assert(a.subrange(1, b.len() as int) =~= b.subrange(1, b.len() as int));
}

/// No value occurs twice.
pub open spec fn all_distinct(s: Seq<usize>) -> bool {
    forall|a: int, b: int| 0 <= a < b < s.len() ==> s[a] != s[b]
}

/// Every value lies in `1..=n`.
pub open spec fn all_in_one_to(s: Seq<usize>, n: nat) -> bool {
    forall|a: int| 0 <= a < s.len() ==> 1 <= #[trigger] s[a] <= n
}

/// `x` occurs in `s`.
pub open spec fn holds_value(s: Seq<usize>, x: nat) -> bool {
    exists|t: int| 0 <= t < s.len() && s[t] == x
}

/// `x` is still among the first `remaining` entries of `values`, or `x + 1`
/// was already picked into `acc`.
pub open spec fn still_covered(values: Seq<usize>, remaining: nat, acc: Seq<usize>, x: nat) -> bool {
    (exists|i: int| 0 <= i < remaining && values[i] == x) || holds_value(acc, x + 1)
}

/// What the partial Fisher-Yates shuffle keeps: the first `remaining` entries
/// of `values` and the picks in `acc` (shifted down by one) are distinct values
/// below `n`, and together they hold every value below `n`.
pub open spec fn shuffle_invariant(values: Seq<usize>, remaining: nat, acc: Seq<usize>, n: nat) -> bool {
    &&& values.len() == n
    &&& remaining <= n
    &&& forall|i: int| 0 <= i < remaining ==> #[trigger] values[i] < n
    &&& all_in_one_to(acc, n)
    &&& forall|i: int, j: int| 0 <= i < j < remaining ==> values[i] != values[j]
    &&& all_distinct(acc)
    &&& forall|i: int, t: int| 0 <= i < remaining && 0 <= t < acc.len() ==> values[i] + 1 != acc[t]
    &&& forall|x: nat| x < n ==> #[trigger] still_covered(values, remaining, acc, x)
}

proof fn lemma_shuffle_draws(
    u: UniformModel,
    version: RVersion,
    values: Seq<usize>,
    remaining: nat,
    k: nat,
    acc: Seq<usize>,
    n: nat,
)
    requires
        shuffle_invariant(values, remaining, acc, n),
        k <= remaining,
        n <= usize::MAX,
    ensures
        shuffle_draws(u, version, values, remaining, k, acc).1 matches Some(s) ==> {
            &&& s.len() == acc.len() + k
            &&& all_distinct(s)
            &&& all_in_one_to(s, n)
            &&& k == remaining ==> forall|x: nat| x < n ==> #[trigger] holds_value(s, x + 1)
        },
    decreases k,
{
    if k > 0 {
        let (u1, i) = index_draw(u, version, remaining);
        lemma_index_draw_below(u, version, remaining);
        if let Some(i) = i {
            {
                let r1 = (remaining - 1) as nat;
                let v1 = values.update(i as int, values[r1 as int]);
                let a1 = acc.push((values[i as int] + 1) as usize);
                assert(shuffle_invariant(v1, r1, a1, n)) by {
                    assert forall|x: nat| x < n implies #[trigger] still_covered(v1, r1, a1, x) by {
                        assert(still_covered(values, remaining, acc, x));
                        if exists|p: int| 0 <= p < remaining && values[p] == x {
                            let p = choose|p: int| 0 <= p < remaining && values[p] == x;
                            if p == i {
                                assert(a1[acc.len() as int] == x + 1);
                            } else if p == r1 {
                                assert(v1[i as int] == x);
                            } else {
                                assert(v1[p] == x);
                            }
                        } else {
                            let t = choose|t: int| 0 <= t < acc.len() && acc[t] == x + 1;
                            assert(a1[t] == x + 1);
                        }
                    }
                    assert forall|a: int, b: int| 0 <= a < b < a1.len() implies a1[a] != a1[b] by {
                        if b == acc.len() {
                            assert(values[i as int] + 1 != acc[a]);
                        }
                    }
                    assert forall|p: int, t: int| 0 <= p < r1 && 0 <= t < a1.len() implies v1[p]
                        + 1 != a1[t] by {
                        if t == acc.len() {
                            if p == i {
                                assert(values[r1 as int] != values[i as int]);
                            } else {
                                assert(values[p] != values[i as int]);
                            }
                        }
                    }
                    assert forall|p: int, q: int| 0 <= p < q < r1 implies v1[p] != v1[q] by {
                        if p == i {
                            assert(values[r1 as int] != values[q]);
                        } else if q == i {
                            assert(values[p] != values[r1 as int]);
                        }
                    }
                }
                lemma_shuffle_draws(u1, version, v1, r1, (k - 1) as nat, a1, n);
                assert(shuffle_draws(u, version, values, remaining, k, acc) == shuffle_draws(
                    u1,
                    version,
                    v1,
                    r1,
                    (k - 1) as nat,
                    a1,
                ));
            }
        }
    } else if remaining == 0 {
        assert forall|x: nat| x < n implies #[trigger] holds_value(acc, x + 1) by {
            assert(still_covered(values, remaining, acc, x));
        }
    }
}

/// Sampling without replacement by the partial Fisher-Yates shuffle (two or
/// more values) returns `size` distinct values from `1..=n`; a full
/// permutation holds every value of `1..=n` exactly once.
pub proof fn law_sample_without_replacement(m: RngModel, n: nat, size: nat)
    requires
        2 <= size,
        n <= usize::MAX,
        sample_int_outcome(m, n, size, false).1 matches Some(Ok(_)),
    ensures
        sample_int_outcome(m, n, size, false).1 matches Some(Ok(s)) && {
            &&& s.len() == size
            &&& all_distinct(s)
            &&& all_in_one_to(s, n)
            &&& size == n ==> forall|x: nat| 1 <= x <= n ==> #[trigger] holds_value(s, x)
        },
{
    let v = identity_values(n);
    let empty = Seq::<usize>::empty();
    assert(shuffle_invariant(v, n, empty, n)) by {
        assert forall|x: nat| x < n implies #[trigger] still_covered(v, n, empty, x) by {
            assert(v[x as int] == x);
        }
    }
    lemma_shuffle_draws(m.uniform, m.version, v, n, size, empty, n);
    let s = sample_int_outcome(m, n, size, false).1->Some_0->Ok_0;
    if size == n {
        assert forall|x: nat| 1 <= x <= n implies #[trigger] holds_value(s, x) by {
            let y = (x - 1) as nat;
            assert(holds_value(s, y + 1));
        }
    }
}

/// The rejection sampler only accepts candidates below `n`.
pub proof fn lemma_rejection_below(u: UniformModel, n: nat, fuel: nat)
    ensures
        rejection_index(u, n, fuel).1 matches Some(i) ==> i < n,
    decreases fuel,
{
    if fuel > 0 {
        let (u1, c) = random_bits(u, bit_length((n - 1) as nat));
        if c >= n {
            lemma_rejection_below(u1, n, (fuel - 1) as nat);
        }
    }
}

proof fn lemma_draws_with_replacement(
    u: UniformModel,
    version: RVersion,
    n: nat,
    k: nat,
    acc: Seq<usize>,
)
    requires
        all_in_one_to(acc, n),
        k > 0 ==> n >= 1,
        n <= usize::MAX,
    ensures
        draws_with_replacement(u, version, n, k, acc).1 matches Some(s) ==> s.len() == acc.len() + k
            && all_in_one_to(s, n),
    decreases k,
{
    if k > 0 {
        let (u1, i) = index_draw(u, version, n);
        if let Some(i) = i {
            lemma_index_draw_below(u, version, n);
            lemma_draws_with_replacement(
                u1,
                version,
                n,
                (k - 1) as nat,
                acc.push((i + 1) as usize),
            );
        }
    }
}

/// A successful `sample.int` returns `size` values from `1..=n`; values drawn
/// without replacement are distinct.
pub proof fn law_sample_int_values(m: RngModel, n: nat, size: nat, replace: bool)
    requires
        n <= usize::MAX,
        sample_int_outcome(m, n, size, replace).1 matches Some(Ok(_)),
    ensures
        sample_int_outcome(m, n, size, replace).1 matches Some(Ok(s)) && {
            &&& s.len() == size
            &&& all_in_one_to(s, n)
            &&& !replace ==> all_distinct(s)
        },
{
    if !replace && size >= 2 {
        law_sample_without_replacement(m, n, size);
    } else {
        lemma_draws_with_replacement(m.uniform, m.version, n, size, Seq::<usize>::empty());
    }
}

/// Every index drawn from `0..n` lies below `n`.
pub proof fn lemma_index_draw_below(u: UniformModel, version: RVersion, n: nat)
    requires
        n >= 1,
    ensures
        index_draw(u, version, n).1 matches Some(i) ==> i < n,
{
    if uses_rejection_spec(version) {
        lemma_rejection_below(u, n, REJECTION_LIMIT as nat);
    } else {
        reveal(rounding_index);
    }
}

/// `sample_index(n)` consumes exactly the draws of `sample.int(n, 1)` and
/// returns the same value, zero-based.
pub proof fn law_sample_index_matches_sample_int(m: RngModel, n: nat)
    requires
        1 <= n <= MAX_R_SAMPLE_N,
        n <= usize::MAX,
    ensures
        sample_int_outcome(m, n, 1, false).0 == sample_index_outcome(m, n).0,
        match sample_index_outcome(m, n).1 {
            Some(Ok(i)) => sample_int_outcome(m, n, 1, false).1 == Some(
                Ok::<Seq<usize>, RRngError>(seq![(i + 1) as usize]),
            ),
            _ => sample_int_outcome(m, n, 1, false).1 is None,
        },
{
    lemma_index_draw_below(m.uniform, m.version, n);
    let (u1, i) = index_draw(m.uniform, m.version, n);
    if let Some(i) = i {
        let one = Seq::<usize>::empty().push((i + 1) as usize);
        assert(one =~= seq![(i + 1) as usize]);
        assert(draws_with_replacement(u1, m.version, n, 0, one) == (
            u1,
            Some::<Seq<usize>>(one),
        ));
    }
}

/// Requests that R refuses, and empty samples, consume no draws.
pub proof fn law_refused_and_empty_requests_consume_nothing(
    m: RngModel,
    n: nat,
    size: nat,
    replace: bool,
)
    requires
        n > MAX_R_SAMPLE_N || (n == 0 && size > 0) || (!replace && size > n) || size == 0,
    ensures
        sample_int_outcome(m, n, size, replace).0 == m.uniform,
        size == 0 && n <= MAX_R_SAMPLE_N ==> sample_int_outcome(m, n, size, replace).1 == Some(
            Ok::<Seq<usize>, RRngError>(Seq::<usize>::empty()),
        ),
        size > 0 ==> sample_int_outcome(m, n, size, replace).1 matches Some(Err(_)),
        (n == 0 || n > MAX_R_SAMPLE_N) ==> sample_index_outcome(m, n) == (
            m.uniform,
            Some(Err::<usize, RRngError>(RRngError::InvalidPopulationSize(n as usize))),
        ),
{
}

/// Drawing an index from a single value always yields 0.
proof fn lemma_index_draw_one(u: UniformModel, version: RVersion)
    ensures
        index_draw(u, version, 1).1 == Some(0nat),
{
    lemma2_to64();
    if uses_rejection_spec(version) {
        assert(bit_length(0) == 0);
        let (u1, v) = draw_digits(u, 1);
        assert(random_bits(u, 0).1 == v % 1);
    } else {
        reveal(rounding_index);
    }
}

/// A successful full permutation of `n` values holds every value of `1..=n`
/// exactly once.
pub proof fn law_permutation(m: RngModel, n: nat)
    requires
        uniform_wf(m.uniform),
        n <= usize::MAX,
        sample_int_outcome(m, n, n, false).1 matches Some(Ok(_)),
    ensures
        sample_int_outcome(m, n, n, false).1 matches Some(Ok(s)) && {
            &&& s.len() == n
            &&& all_distinct(s)
            &&& all_in_one_to(s, n)
            &&& forall|x: nat| 1 <= x <= n ==> #[trigger] holds_value(s, x)
        },
{
    if n >= 2 {
        law_sample_without_replacement(m, n, n);
    } else if n == 1 {
        lemma_index_draw_one(m.uniform, m.version);
        let (u1, i) = index_draw(m.uniform, m.version, 1);
        let one = Seq::<usize>::empty().push(1usize);
        assert(draws_with_replacement(u1, m.version, 1, 0, one) == (u1, Some::<Seq<usize>>(one)));
        let s = sample_int_outcome(m, n, n, false).1->Some_0->Ok_0;
        assert(s =~= seq![1usize]);
        assert forall|x: nat| 1 <= x <= n implies #[trigger] holds_value(s, x) by {
            assert(s[0] == x);
        }
    }
}

/// Draws from a L'Ecuyer-CMRG state step its words one generator step at a time.
proof fn lemma_lecuyer_draws(words: Seq<u32>, n: nat)
    ensures
        uniform_after(UniformModel::LecuyerCmrg { words }, n) == (UniformModel::LecuyerCmrg {
            words: lecuyer_advance(words, n),
        }),
    decreases n,
{
    if n > 0 {
        reveal(unif_rand);
        lemma_lecuyer_draws(lecuyer_next(words).0, (n - 1) as nat);
    }
}

/// `next_rng_stream` leaves a L'Ecuyer-CMRG generator exactly where `2^127`
/// draws would, and `next_rng_substream` exactly where `2^76` draws would.
pub proof fn law_stream_jumps_skip_draws(words: Seq<u32>)
    requires
        lecuyer_valid(words),
    ensures
        uniform_after(UniformModel::LecuyerCmrg { words }, pow2(127)) == (UniformModel::LecuyerCmrg {
            words: lecuyer_jump(words, a1p127(), a2p127()),
        }),
        uniform_after(UniformModel::LecuyerCmrg { words }, pow2(76)) == (UniformModel::LecuyerCmrg {
            words: lecuyer_jump(words, a1p76(), a2p76()),
        }),
{
    lemma_stream_jumps(words);
    lemma_lecuyer_draws(words, pow2(127));
    lemma_lecuyer_draws(words, pow2(76));
}

/// A well-formed, live state of the generator `kind`.
pub open spec fn live_state(u: UniformModel, kind: RUniformKind) -> bool {
    uniform_wf(u) && uniform_live(u) && kind_of(u) == kind
}

/// A live state is one that `.Random.seed` can hold.
proof fn lemma_live_is_nonzero(u: UniformModel)
    requires
        uniform_wf(u),
        uniform_live(u),
    ensures
        uniform_nonzero(u),
{
    if let UniformModel::MersenneTwister { words, .. } = u {
        if (words[0] & UPPER_MASK) != 0 {
            let w0 = words[0];
            assert((w0 & 0x8000_0000u32) != 0 ==> w0 != 0) by (bit_vector);
            assert(words[0] != 0);
        } else {
            let i = choose|i: int| 1 <= i < 624 && #[trigger] words[i] != 0;
            assert(words[i] != 0);
        }
    }
}

/// One draw keeps a live state live, of the same generator.
proof fn lemma_draw_keeps_live(u: UniformModel, kind: RUniformKind)
    requires
        live_state(u, kind),
    ensures
        live_state(unif_rand(u).0, kind),
{
    lemma_unif_rand(u);
    reveal(unif_rand);
    match u {
        UniformModel::MersenneTwister { words, position } => {
            lemma_next_keeps_live(words, position);
        },
        UniformModel::LecuyerCmrg { words } => {
            lemma_next_keeps_nonzero(words);
        },
    }
}

proof fn lemma_after_keeps_live(u: UniformModel, kind: RUniformKind, n: nat)
    requires
        live_state(u, kind),
    ensures
        live_state(uniform_after(u, n), kind),
    decreases n,
{
    if n > 0 {
        lemma_draw_keeps_live(u, kind);
        lemma_after_keeps_live(unif_rand(u).0, kind, (n - 1) as nat);
    }
}

proof fn lemma_digits_keep_live(u: UniformModel, kind: RUniformKind, c: nat)
    requires
        live_state(u, kind),
    ensures
        live_state(draw_digits(u, c).0, kind),
    decreases c,
{
    if c > 0 {
        lemma_digits_keep_live(u, kind, (c - 1) as nat);
        lemma_draw_keeps_live(draw_digits(u, (c - 1) as nat).0, kind);
    }
}

proof fn lemma_rejection_keeps_live(u: UniformModel, kind: RUniformKind, n: nat, fuel: nat)
    requires
        live_state(u, kind),
    ensures
        live_state(rejection_index(u, n, fuel).0, kind),
    decreases fuel,
{
    if fuel > 0 {
        let bits = bit_length((n - 1) as nat);
        lemma_digits_keep_live(u, kind, bits / 16 + 1);
        lemma_rejection_keeps_live(random_bits(u, bits).0, kind, n, (fuel - 1) as nat);
    }
}

proof fn lemma_index_draw_keeps_live(u: UniformModel, kind: RUniformKind, version: RVersion, n: nat)
    requires
        live_state(u, kind),
    ensures
        live_state(index_draw(u, version, n).0, kind),
{
    if uses_rejection_spec(version) {
        lemma_rejection_keeps_live(u, kind, n, REJECTION_LIMIT as nat);
    } else {
        reveal(rounding_index);
        lemma_draw_keeps_live(u, kind);
        lemma_draw_keeps_live(unif_rand(u).0, kind);
    }
}

proof fn lemma_replacement_keeps_live(
    u: UniformModel,
    kind: RUniformKind,
    version: RVersion,
    n: nat,
    k: nat,
    acc: Seq<usize>,
)
    requires
        live_state(u, kind),
    ensures
        live_state(draws_with_replacement(u, version, n, k, acc).0, kind),
    decreases k,
{
    if k > 0 {
        lemma_index_draw_keeps_live(u, kind, version, n);
        let (u1, i) = index_draw(u, version, n);
        if let Some(i) = i {
            lemma_replacement_keeps_live(u1, kind, version, n, (k - 1) as nat, acc.push((i + 1) as usize));
        }
    }
}

proof fn lemma_shuffle_keeps_live(
    u: UniformModel,
    kind: RUniformKind,
    version: RVersion,
    values: Seq<usize>,
    remaining: nat,
    k: nat,
    acc: Seq<usize>,
)
    requires
        live_state(u, kind),
    ensures
        live_state(shuffle_draws(u, version, values, remaining, k, acc).0, kind),
    decreases k,
{
    if k > 0 {
        lemma_index_draw_keeps_live(u, kind, version, remaining);
        let (u1, i) = index_draw(u, version, remaining);
        if let Some(i) = i {
            lemma_shuffle_keeps_live(
                u1,
                kind,
                version,
                values.update(i as int, values[remaining - 1]),
                (remaining - 1) as nat,
                (k - 1) as nat,
                acc.push((values[i as int] + 1) as usize),
            );
        }
    }
}

/// Every call that draws keeps a live state live and of the same generator:
/// one draw, any number of draws, a normal, an index sample and any
/// `sample.int`. Together with [`law_seeded_states_are_restorable`] and
/// [`law_live_states_restore`], every state reached from `set.seed` by draws,
/// samples and stream jumps can be saved and restored.
pub proof fn law_calls_keep_state_live(
    m: RngModel,
    kind: RUniformKind,
    draws: nat,
    n: nat,
    size: nat,
    replace: bool,
)
    requires
        live_state(m.uniform, kind),
    ensures
        live_state(unif_rand(m.uniform).0, kind),
        live_state(uniform_after(m.uniform, draws), kind),
        live_state(normal_probability(m.uniform).0, kind),
        live_state(sample_index_outcome(m, n).0, kind),
        live_state(sample_int_outcome(m, n, size, replace).0, kind),
{
    lemma_draw_keeps_live(m.uniform, kind);
    lemma_draw_keeps_live(unif_rand(m.uniform).0, kind);
    lemma_after_keeps_live(m.uniform, kind, draws);
    if 1 <= n <= MAX_R_SAMPLE_N {
        lemma_index_draw_keeps_live(m.uniform, kind, m.version, n);
    }
    lemma_replacement_keeps_live(m.uniform, kind, m.version, n, size, Seq::<usize>::empty());
    lemma_shuffle_keeps_live(m.uniform, kind, m.version, identity_values(n), n, size, Seq::<usize>::empty());
}

/// The stream and substream jumps keep a live L'Ecuyer-CMRG state live.
pub proof fn law_stream_jumps_keep_state_live(words: Seq<u32>)
    requires
        live_state(UniformModel::LecuyerCmrg { words }, RUniformKind::LecuyerCmrg),
    ensures
        live_state(
            UniformModel::LecuyerCmrg { words: lecuyer_jump(words, a1p127(), a2p127()) },
            RUniformKind::LecuyerCmrg,
        ),
        live_state(
            UniformModel::LecuyerCmrg { words: lecuyer_jump(words, a1p76(), a2p76()) },
            RUniformKind::LecuyerCmrg,
        ),
{
    lemma_jumps_keep_nonzero(words);
}

/// A live state saves and restores to the same uniform state, so the restored
/// generator draws exactly what the saved one would have.
pub proof fn law_live_states_restore(m: RngModel)
    requires
        uniform_wf(m.uniform),
        uniform_live(m.uniform),
    ensures
        decode(encode(m)) == Ok::<RngModel, RRngError>(restored(m)),
        restored(m).uniform == m.uniform,
{
    lemma_live_is_nonzero(m.uniform);
    law_restore_after_save(m);
}

proof fn lemma_replacement_same_method(
    u: UniformModel,
    v1: RVersion,
    v2: RVersion,
    n: nat,
    k: nat,
    acc: Seq<usize>,
)
    requires
        uses_rejection_spec(v1) == uses_rejection_spec(v2),
    ensures
        draws_with_replacement(u, v1, n, k, acc) == draws_with_replacement(u, v2, n, k, acc),
    decreases k,
{
    if k > 0 {
        let (u1, i) = index_draw(u, v1, n);
        assert(index_draw(u, v1, n) == index_draw(u, v2, n));
        if let Some(i) = i {
            lemma_replacement_same_method(u1, v1, v2, n, (k - 1) as nat, acc.push((i + 1) as usize));
        }
    }
}

proof fn lemma_shuffle_same_method(
    u: UniformModel,
    v1: RVersion,
    v2: RVersion,
    values: Seq<usize>,
    remaining: nat,
    k: nat,
    acc: Seq<usize>,
)
    requires
        uses_rejection_spec(v1) == uses_rejection_spec(v2),
    ensures
        shuffle_draws(u, v1, values, remaining, k, acc) == shuffle_draws(
            u,
            v2,
            values,
            remaining,
            k,
            acc,
        ),
    decreases k,
{
    if k > 0 {
        let (u1, i) = index_draw(u, v1, remaining);
        assert(index_draw(u, v1, remaining) == index_draw(u, v2, remaining));
        if let Some(i) = i {
            lemma_shuffle_same_method(
                u1,
                v1,
                v2,
                values.update(i as int, values[remaining - 1]),
                (remaining - 1) as nat,
                (k - 1) as nat,
                acc.push((values[i as int] + 1) as usize),
            );
        }
    }
}

/// The samplers depend on the R version only through its sampling method:
/// versions that sample alike (all from R 3.6 on, by rejection) draw the same
/// samples from the same state and leave the same state.
pub proof fn law_versions_with_one_method_agree(
    m: RngModel,
    version: RVersion,
    n: nat,
    size: nat,
    replace: bool,
)
    requires
        uses_rejection_spec(m.version) == uses_rejection_spec(version),
    ensures
        sample_int_outcome(RngModel { version, ..m }, n, size, replace) == sample_int_outcome(
            m,
            n,
            size,
            replace,
        ),
        sample_index_outcome(RngModel { version, ..m }, n) == sample_index_outcome(m, n),
{
    assert(index_draw(m.uniform, m.version, n) == index_draw(m.uniform, version, n));
    lemma_replacement_same_method(m.uniform, m.version, version, n, size, Seq::<usize>::empty());
    lemma_shuffle_same_method(
        m.uniform,
        m.version,
        version,
        identity_values(n),
        n,
        size,
        Seq::<usize>::empty(),
    );
}

/// Below `2^31` R 3.5's rounding sampler is exactly `floor(n u)` of one draw
/// `u`: the product never rounds up to `n`, so no index is ever capped.
pub proof fn law_small_rounding_index_is_floor(u: UniformModel, n: nat)
    requires
        uniform_wf(u),
        1 <= n <= 0x7fff_ffff,
    ensures
        rounding_index(u, n) == (unif_rand(u).0, floor_of_product(n, unif_rand(u).1)),
        floor_of_product(n, unif_rand(u).1) < n,
{
    reveal(rounding_index);
    lemma_unif_rand(u);
    lemma_floor_of_product_below(n, unif_rand(u).1);
}

/// A Mersenne Twister draw twists only when the cursor has passed the last
/// word: at cursor `p` in `1..=623` it returns word `p` tempered and moves the
/// cursor on, leaving the words alone; at 624 it twists and returns the first
/// twisted word. So the 624 draws after a twist read that state's words in
/// order.
pub proof fn law_mt_draws_read_words_in_order(words: Seq<u32>, p: nat)
    requires
        words.len() == 624,
        1 <= p <= 624,
    ensures
        p < 624 ==> unif_rand(UniformModel::MersenneTwister { words, position: p }) == (
            UniformModel::MersenneTwister { words, position: p + 1 },
            fix_unit_interval(mt_double(temper(words[p as int]))),
        ),
        p == 624 ==> unif_rand(UniformModel::MersenneTwister { words, position: p }) == (
            UniformModel::MersenneTwister { words: mt_twist(words), position: 1 },
            fix_unit_interval(mt_double(temper(mt_twist(words)[0]))),
        ),
{
    reveal(unif_rand);
}

/// `a + b` draws are `a` draws followed by `b` draws.
proof fn lemma_after_add(u: UniformModel, a: nat, b: nat)
    ensures
        uniform_after(u, a + b) == uniform_after(uniform_after(u, a), b),
    decreases a,
{
    if a > 0 {
        lemma_after_add(unif_rand(u).0, (a - 1) as nat, b);
        assert((a + b - 1) as nat == (a - 1) as nat + b);
    }
}

/// One more draw after `c` draws.
proof fn lemma_after_one_more(u: UniformModel, c: nat)
    ensures
        uniform_after(u, c + 1) == unif_rand(uniform_after(u, c)).0,
{
    lemma_after_add(u, c, 1);
    assert(uniform_after(unif_rand(uniform_after(u, c)).0, 0) == unif_rand(uniform_after(u, c)).0);
}

/// The `j`-th draw from `u` (counting from 0) as a base-65536 digit,
/// `floor(65536 x)`.
pub open spec fn digit_at(u: UniformModel, j: nat) -> nat {
    scaled_floor(unif_rand(uniform_after(u, j)).1, 16)
}

/// The sum of `digit_at(u, j) * 65536^(c - 1 - j)` over `j < k`: the first `k`
/// terms of the first `c` draws read as a base-65536 number.
pub open spec fn digit_sum(u: UniformModel, c: nat, k: nat) -> nat
    decreases k,
{
    if k == 0 {
        0
    } else {
        digit_sum(u, c, (k - 1) as nat) + digit_at(u, (k - 1) as nat) * pow2(
            (16 * (c - k)) as nat,
        )
    }
}

/// Each term of the sum for `c + 1` draws is 65536 times its term for `c`.
proof fn lemma_digit_sum_shift(u: UniformModel, c: nat, k: nat)
    requires
        k <= c,
    ensures
        digit_sum(u, c + 1, k) == 65536 * digit_sum(u, c, k),
    decreases k,
{
    if k > 0 {
        lemma_digit_sum_shift(u, c, (k - 1) as nat);
        let e = (16 * (c - k)) as nat;
        assert((16 * (c + 1 - k)) as nat == e + 16);
        lemma_pow2_adds(e, 16);
        lemma2_to64();
        let d = digit_at(u, (k - 1) as nat);
        assert(d * (pow2(e) * 65536) == 65536 * (d * pow2(e))) by (nonlinear_arith);
    }
}

/// R's digits are the draws read as a base-65536 number, and they take
/// exactly `c` draws.
proof fn lemma_draw_digits_are_base_65536(u: UniformModel, c: nat)
    ensures
        draw_digits(u, c) == (uniform_after(u, c), digit_sum(u, c, c)),
    decreases c,
{
    if c > 0 {
        let c1 = (c - 1) as nat;
        lemma_draw_digits_are_base_65536(u, c1);
        lemma_after_one_more(u, c1);
        lemma_digit_sum_shift(u, c1, c1);
        assert((16 * (c - c)) as nat == 0);
        lemma2_to64();
    }
}

/// `rbits(bits)` takes `bits / 16 + 1` draws, reads them as one base-65536
/// number, most significant first, and keeps its low `bits` bits: nothing
/// else is dropped, and the result lies below `2^bits`.
pub proof fn law_random_bits_is_base_65536(u: UniformModel, bits: nat)
    ensures
        random_bits(u, bits) == (
            uniform_after(u, bits / 16 + 1),
            digit_sum(u, bits / 16 + 1, bits / 16 + 1) % pow2(bits),
        ),
        random_bits(u, bits).1 < pow2(bits),
{
    lemma_draw_digits_are_base_65536(u, bits / 16 + 1);
    lemma_pow2_pos(bits);
}

/// Every candidate of the rejection sampler takes `bit_length(n - 1) / 16 + 1`
/// whole draws, for every `n >= 1`: an accepted index leaves the state a
/// positive number of candidates further on, and when all `fuel` candidates
/// are rejected the state is exactly `fuel` candidates further on. A
/// population of 1 takes one draw and yields 0.
pub proof fn law_rejection_draws_whole_candidates(u: UniformModel, n: nat, fuel: nat)
    requires
        n >= 1,
    ensures
        ({
            let per = bit_length((n - 1) as nat) / 16 + 1;
            match rejection_index(u, n, fuel).1 {
                Some(i) => exists|k: nat|
                    1 <= k <= fuel && #[trigger] uniform_after(u, k * per) == rejection_index(
                        u,
                        n,
                        fuel,
                    ).0,
                None => rejection_index(u, n, fuel).0 == uniform_after(u, fuel * per),
            }
        }),
        n == 1 && fuel >= 1 ==> rejection_index(u, n, fuel) == (uniform_after(u, 1), Some(0nat)),
    decreases fuel,
{
    let bits = bit_length((n - 1) as nat);
    let per = bits / 16 + 1;
    if fuel > 0 {
        law_random_bits_is_base_65536(u, bits);
        let (u1, c) = random_bits(u, bits);
        assert(u1 == uniform_after(u, 1 * per));
        if c < n {
        } else {
            law_rejection_draws_whole_candidates(u1, n, (fuel - 1) as nat);
            match rejection_index(u1, n, (fuel - 1) as nat).1 {
                Some(i) => {
                    let k = choose|k: nat|
                        1 <= k <= fuel - 1 && #[trigger] uniform_after(u1, k * per)
                            == rejection_index(u1, n, (fuel - 1) as nat).0;
                    lemma_after_add(u, per, k * per);
                    assert(per + k * per == (k + 1) * per) by (nonlinear_arith);
                    assert(uniform_after(u, (k + 1) * per) == rejection_index(u, n, fuel).0);
                },
                None => {
                    lemma_after_add(u, per, (fuel - 1) as nat * per);
                    assert(per + (fuel - 1) as nat * per == fuel * per) by (nonlinear_arith)
                        requires
                            fuel >= 1,
                    ;
                },
            }
        }
        if n == 1 {
            assert(bit_length(0) == 0);
            lemma2_to64();
            assert(c < pow2(0));
        }
    } else {
        assert(uniform_after(u, 0 * per) == u);
    }
}

/// A shuffle keeps the picks it started with at the front.
proof fn lemma_shuffle_keeps_prefix(
    u: UniformModel,
    version: RVersion,
    values: Seq<usize>,
    remaining: nat,
    k: nat,
    acc: Seq<usize>,
)
    ensures
        shuffle_draws(u, version, values, remaining, k, acc).1 matches Some(s) ==> s.len()
            >= acc.len() && forall|t: int| 0 <= t < acc.len() ==> s[t] == acc[t],
    decreases k,
{
    if k > 0 {
        let (u1, i) = index_draw(u, version, remaining);
        if let Some(i) = i {
            lemma_shuffle_keeps_prefix(
                u1,
                version,
                values.update(i as int, values[remaining - 1]),
                (remaining - 1) as nat,
                (k - 1) as nat,
                acc.push((values[i as int] + 1) as usize),
            );
        }
    }
}

/// Draws with replacement keep the values they started with at the front.
proof fn lemma_replacement_keeps_prefix(
    u: UniformModel,
    version: RVersion,
    n: nat,
    k: nat,
    acc: Seq<usize>,
)
    ensures
        draws_with_replacement(u, version, n, k, acc).1 matches Some(s) ==> s.len() >= acc.len()
            && forall|t: int| 0 <= t < acc.len() ==> s[t] == acc[t],
    decreases k,
{
    if k > 0 {
        let (u1, i) = index_draw(u, version, n);
        if let Some(i) = i {
            lemma_replacement_keeps_prefix(u1, version, n, (k - 1) as nat, acc.push((i + 1) as usize));
        }
    }
}

/// The first value of `sample.int(n, size)`, with or without replacement, is
/// one more than the first index drawn from `0..n`: the shuffle starts from
/// the values `0, 1, ..., n - 1` in order.
pub proof fn law_first_value_is_first_index(m: RngModel, n: nat, size: nat, replace: bool)
    requires
        n <= usize::MAX,
        size >= 1,
    ensures
        sample_int_outcome(m, n, size, replace).1 matches Some(Ok(s)) ==> (index_draw(
            m.uniform,
            m.version,
            n,
        ).1 matches Some(i) && s[0] == i + 1),
{
    if sample_int_outcome(m, n, size, replace).1 matches Some(Ok(s)) {
        let (u1, i) = index_draw(m.uniform, m.version, n);
        lemma_index_draw_below(m.uniform, m.version, n);
        if let Some(i) = i {
            let one = seq![(i + 1) as usize];
            if replace || size < 2 {
                lemma_replacement_keeps_prefix(u1, m.version, n, (size - 1) as nat, Seq::<usize>::empty().push((i + 1) as usize));
            } else {
                let v = identity_values(n);
                lemma_shuffle_keeps_prefix(
                    u1,
                    m.version,
                    v.update(i as int, v[n - 1]),
                    (n - 1) as nat,
                    (size - 1) as nat,
                    Seq::<usize>::empty().push((v[i as int] + 1) as usize),
                );
            }
        }
    }
}

/// `set.seed(seed)` fills the Mersenne Twister words with successive steps
/// of R's seed generator, for every seed, negative ones included: the first
/// word is two steps after the scrambled seed (the step between is the cursor
/// word that R discards), each later word is one step after the word before,
/// and the cursor starts past the last word.
pub proof fn law_seeded_mt_words_are_successive_steps(seed: i32)
    ensures
        seeded_uniform(seed, RUniformKind::MersenneTwister) matches UniformModel::MersenneTwister {
            words,
            position,
        } && {
            &&& position == 624
            &&& words.len() == 624
            &&& words[0] == lcg_step(lcg_step(crate::model::scrambled_seed(seed)))
            &&& forall|i: int| 0 <= i < 623 ==> #[trigger] words[i + 1] == lcg_step(words[i])
        },
{
    let s = crate::model::scrambled_seed(seed);
    assert(lcg_iterate(s, 2) == lcg_step(lcg_iterate(s, 1)));
    assert(lcg_iterate(s, 1) == lcg_step(lcg_iterate(s, 0)));
    if let UniformModel::MersenneTwister { words, position } = seeded_uniform(
        seed,
        RUniformKind::MersenneTwister,
    ) {
        assert forall|i: int| 0 <= i < 623 implies #[trigger] words[i + 1] == lcg_step(words[i]) by {
            assert(lcg_iterate(s, (i + 3) as nat) == lcg_step(lcg_iterate(s, (i + 2) as nat)));
        }
    }
}

} // verus!
