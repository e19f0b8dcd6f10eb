use rng_compat_r::uniform::round_to_double;
use rng_compat_r::lecuyer::LecuyerState;
use rng_compat_r::model::REJECTION_LIMIT;
use rng_compat_r::{MathMode, RRng, RRngError, RUniform, RUniformKind, RVersion};

fn to_f64(u: RUniform) -> f64 {
    u.mantissa as f64 * 2f64.powi(-(u.exponent as i32))
}

#[test]
fn mersenne_twister_uniforms_match_r() {
    let mut rng = RRng::from_seed(42);
    let values: Vec<f64> = (0..3).map(|_| to_f64(rng.runif())).collect();
    assert_eq!(values, vec![0.9148060434963554, 0.9370754132978618, 0.2861395347863436]);
    let first = RRng::from_seed(42).runif();
    assert_eq!(first.exponent, 32);
    assert_eq!(first.mantissa as f64 / 4294967296.0, 0.9148060434963554);
}

#[test]
fn lecuyer_seed_state_uniforms_and_permutation_match_r() {
    let mut rng = RRng::from_seed_with_kind(42, RUniformKind::LecuyerCmrg);
    assert_eq!(
        rng.random_seed(),
        vec![10_407, -2_133_391_687, 507_561_766, 1_260_545_903, 1_362_917_092, -1_772_566_379, -1_344_458_670]
    );
    let values: Vec<f64> = (0..3).map(|_| to_f64(rng.runif())).collect();
    assert_eq!(values, vec![0.17384558454153168, 0.5547400967650908, 0.48337712221370116]);
    assert_eq!(
        rng.permutation(20).unwrap(),
        vec![12, 20, 19, 9, 5, 3, 10, 2, 7, 1, 8, 16, 15, 14, 18, 4, 17, 6, 11, 13]
    );
}

#[test]
fn lecuyer_stream_jumps_match_r() {
    let rng = RRng::from_seed_with_kind(42, RUniformKind::LecuyerCmrg);
    let before = rng.random_seed();
    assert_eq!(
        rng.next_rng_stream().unwrap().random_seed(),
        vec![10_407, -94_575_036, -24_861_725, 357_812_871, 346_211_554, -1_301_022_835, 440_649_733]
    );
    assert_eq!(
        rng.next_rng_substream().unwrap().random_seed(),
        vec![10_407, -1_871_565_002, 1_968_597_656, -505_666_782, 1_055_078_269, 658_163_990, 1_090_264_187]
    );
    assert_eq!(rng.random_seed(), before);
    assert_eq!(
        RRng::from_seed(1).next_rng_substream().unwrap_err(),
        RRngError::StreamOperationRequiresLecuyer
    );
}

#[test]
fn permutation_matches_r_for_both_samplers() {
    let mut modern = RRng::from_seed(42);
    assert_eq!(modern.permutation(10).unwrap(), vec![1, 5, 10, 8, 2, 4, 6, 9, 7, 3]);
    let mut legacy = RRng::from_seed(42).with_version(RVersion::R3_5);
    assert_eq!(legacy.permutation(10).unwrap(), vec![10, 9, 3, 6, 4, 8, 5, 1, 2, 7]);
}

#[test]
fn sampling_with_replacement_matches_r() {
    let mut rng = RRng::from_seed(42);
    assert_eq!(rng.sample_int(100, 5, true).unwrap(), vec![49, 65, 25, 74, 100]);
}

#[test]
fn index_samplers_match_r() {
    let mut modern = RRng::from_seed(7);
    let indices: Vec<usize> = (0..5).map(|_| modern.sample_index(6)).collect();
    assert_eq!(indices, vec![1, 2, 3, 1, 1]);
    let mut legacy = RRng::from_seed(7).with_version(RVersion::R3_5);
    let indices: Vec<usize> = (0..5).map(|_| legacy.sample_index(6)).collect();
    assert_eq!(indices, vec![5, 2, 0, 0, 1]);
}

#[test]
fn large_populations_use_two_draws_when_rounding() {
    let mut legacy = RRng::from_seed(7).with_version(RVersion::R3_5);
    assert_eq!(legacy.sample_index(3_000_000_000), 2_966_727_858);
    assert_eq!(legacy.random_seed()[1], 2);
    let mut modern = RRng::from_seed(7);
    assert_eq!(modern.sample_index(3_000_000_000), 1_708_268_958);
    assert_eq!(modern.random_seed()[1], 3);
}

#[test]
fn lecuyer_rounding_samples_match_r() {
    let mut rng = RRng::from_seed_with_kind(-5, RUniformKind::LecuyerCmrg).with_version(RVersion::R3_5);
    assert_eq!(rng.sample_without_replacement(1000, 4).unwrap(), vec![131, 771, 126, 167]);
    assert_eq!(
        rng.sample_int(5_000_000_000, 3, true).unwrap(),
        vec![1_365_992_168, 424_111_220, 1_406_340_561]
    );
}

#[test]
fn normal_probability_consumes_two_uniforms() {
    let mut rng = RRng::from_seed(42);
    let p = rng.rnorm_probability();
    assert_eq!(to_f64(p), 0.9148060451230065);
    let mut twice = RRng::from_seed(42);
    let _ = twice.runif();
    let _ = twice.runif();
    assert_eq!(rng.random_seed(), twice.random_seed());
}

#[test]
fn sample_index_matches_sample_int_of_one() {
    for version in [RVersion::R3_5, RVersion::R4_6] {
        let mut a = RRng::from_seed(99).with_version(version);
        let mut b = a.clone();
        for n in [1usize, 2, 7, 1000, 3_000_000_000] {
            let i = a.sample_index(n);
            assert_eq!(b.sample_int(n, 1, false).unwrap(), vec![i + 1]);
            assert_eq!(a.random_seed(), b.random_seed());
        }
    }
}

#[test]
fn permutations_hold_every_value_once() {
    for version in [RVersion::R3_5, RVersion::R4_6] {
        let mut rng = RRng::from_seed(3).with_version(version);
        for n in 0..40 {
            let mut p = rng.permutation(n).unwrap();
            p.sort();
            assert_eq!(p, (1..=n).collect::<Vec<usize>>());
        }
    }
}

#[test]
fn samples_without_replacement_are_distinct_and_in_range() {
    let mut rng = RRng::from_seed(11);
    let s = rng.sample_without_replacement(50, 30).unwrap();
    assert_eq!(s.len(), 30);
    let mut sorted = s.clone();
    sorted.sort();
    sorted.dedup();
    assert_eq!(sorted.len(), 30);
    assert!(s.iter().all(|&v| (1..=50).contains(&v)));
}

#[test]
fn uniforms_lie_strictly_inside_the_unit_interval() {
    for kind in [RUniformKind::MersenneTwister, RUniformKind::LecuyerCmrg] {
        let mut rng = RRng::from_seed_with_kind(2024, kind);
        for _ in 0..2000 {
            let u = to_f64(rng.runif());
            assert!(u > 0.0 && u < 1.0);
        }
    }
}

#[test]
fn zero_mersenne_word_is_replaced_like_r() {
    let mut state = RRng::from_seed(1).random_seed();
    state[1] = 624;
    state[2..].fill(0);
    state[2] = 5;
    let mut rng = RRng::from_random_seed(&state).unwrap();
    // Only the low bits of the first word are set, which the twist discards:
    // every word becomes zero, the first output word is 0 and R substitutes
    // half of 2.328306437080797e-10.
    let u = rng.runif();
    assert_eq!(to_f64(u), 0.5 * 2.328_306_437_080_797e-10);
    // An all-zero state is refused on import.
    assert_eq!(
        RRng::from_random_seed(&rng.random_seed()).unwrap_err(),
        RRngError::AllZeroState
    );
}

#[test]
fn restore_after_save_keeps_the_stream_for_both_generators() {
    for kind in [RUniformKind::MersenneTwister, RUniformKind::LecuyerCmrg] {
        let mut rng = RRng::from_seed_with_kind(77, kind).with_version(RVersion::R3_6).with_math_mode(MathMode::Deterministic);
        let _ = rng.permutation(13);
        let state = rng.random_seed();
        let mut restored = RRng::from_random_seed(&state).unwrap();
        assert_eq!(restored.version(), RVersion::R4_6);
        assert_eq!(restored.math_mode(), MathMode::Platform);
        assert_eq!(restored.uniform_kind(), kind);
        assert_eq!(restored.random_seed(), state);
        for _ in 0..50 {
            assert_eq!(restored.runif(), rng.runif());
        }
    }
    let legacy = RRng::from_seed(5).with_version(RVersion::R3_5);
    let restored = RRng::from_random_seed(&legacy.random_seed()).unwrap();
    assert_eq!(restored.version(), RVersion::R3_5);
}

#[test]
fn setters_change_only_their_setting() {
    let mut rng = RRng::from_seed(8);
    let state = rng.random_seed();
    rng.set_math_mode(MathMode::Deterministic);
    assert_eq!(rng.math_mode(), MathMode::Deterministic);
    rng.set_version(RVersion::R4_0);
    assert_eq!(rng.version(), RVersion::R4_0);
    assert_eq!(rng.random_seed(), state);
    assert_eq!(RRng::from_seed(8).version(), RVersion::R4_6);
    assert_eq!(RRng::from_seed(8).math_mode(), MathMode::Platform);
    assert_eq!(RVersion::default(), RVersion::R4_6);
    assert_eq!(MathMode::default(), MathMode::Platform);
    assert_eq!(RUniformKind::default(), RUniformKind::MersenneTwister);
}

#[test]
fn state_import_reports_each_error() {
    let mt = RRng::from_seed(42).random_seed();
    assert_eq!(
        RRng::from_random_seed(&[]).unwrap_err(),
        RRngError::InvalidSeedLength { expected: 1, actual: 0 }
    );
    assert_eq!(
        RRng::from_random_seed(&mt[..625]).unwrap_err(),
        RRngError::InvalidSeedLength { expected: 626, actual: 625 }
    );
    let mut s = mt.clone();
    s[0] = -1;
    assert_eq!(RRng::from_random_seed(&s).unwrap_err(), RRngError::UnsupportedUniformKind(-1));
    s[0] = 10_303;
    assert_eq!(RRng::from_random_seed(&s).unwrap_err(), RRngError::UnsupportedNormalKind(3));
    s[0] = 20_403;
    assert_eq!(RRng::from_random_seed(&s).unwrap_err(), RRngError::UnsupportedSampleKind(2));
    s[0] = 110_403;
    assert_eq!(RRng::from_random_seed(&s).unwrap_err(), RRngError::UnsupportedBinomialKind(1));
    s[0] = 10_405;
    assert_eq!(RRng::from_random_seed(&s).unwrap_err(), RRngError::UnsupportedUniformKind(5));
    let mut p = mt.clone();
    p[1] = 625;
    assert_eq!(RRng::from_random_seed(&p).unwrap_err(), RRngError::InvalidPosition(625));

    let lec = RRng::from_seed_with_kind(42, RUniformKind::LecuyerCmrg).random_seed();
    assert_eq!(
        RRng::from_random_seed(&lec[..6]).unwrap_err(),
        RRngError::InvalidSeedLength { expected: 7, actual: 6 }
    );
    let mut z = lec.clone();
    z[4] = 0;
    z[5] = 0;
    z[6] = 0;
    assert_eq!(RRng::from_random_seed(&z).unwrap_err(), RRngError::AllZeroState);
    let mut big = lec.clone();
    big[1] = -209; // 4294967087 as an unsigned word: equal to the first modulus
    assert_eq!(RRng::from_random_seed(&big).unwrap_err(), RRngError::InvalidLecuyerState);
    let mut big2 = lec;
    big2[6] = -22_853; // 4294944443: equal to the second modulus
    assert_eq!(RRng::from_random_seed(&big2).unwrap_err(), RRngError::InvalidLecuyerState);
}

#[test]
fn sampling_reports_each_error() {
    let mut rng = RRng::from_seed(42);
    let state = rng.random_seed();
    assert_eq!(
        rng.sample_int(3, 4, false).unwrap_err(),
        RRngError::SampleLargerThanPopulation { size: 4, population: 3 }
    );
    assert_eq!(
        rng.sample_int(4_500_000_000_000_001, 1, true).unwrap_err(),
        RRngError::InvalidPopulationSize(4_500_000_000_000_001)
    );
    assert_eq!(
        rng.try_sample_index(4_500_000_000_000_001).unwrap_err(),
        RRngError::InvalidPopulationSize(4_500_000_000_000_001)
    );
    assert_eq!(rng.random_seed(), state);
    assert_eq!(rng.try_sample_index(5).unwrap(), 0);
    assert_ne!(rng.random_seed(), state);
}

#[test]
fn doubles_round_to_nearest_with_ties_to_even() {
    let two53: u128 = 1 << 53;
    assert_eq!(round_to_double(12345), (12345, 0));
    assert_eq!(round_to_double(two53 + 1), (1 << 52, 1));
    assert_eq!(round_to_double(two53 + 3), ((1 << 52) + 2, 1));
    assert_eq!(round_to_double(two53 * 4 + 5), ((1 << 52) + 1, 3));
    assert_eq!(round_to_double(u128::MAX), (1 << 53, 75));
    for n in [two53 + 12_345, two53 * 1000 + 77, u64::MAX as u128] {
        let (q, k) = round_to_double(n);
        assert_eq!((q as f64) * 2f64.powi(k as i32), n as f64);
    }
}

#[test]
fn seed_length_matches_the_written_state() {
    for kind in [RUniformKind::MersenneTwister, RUniformKind::LecuyerCmrg] {
        let rng = RRng::from_seed_with_kind(3, kind);
        let mut out = vec![0; rng.random_seed_len()];
        assert_eq!(rng.write_random_seed(&mut out).unwrap(), rng.random_seed_len());
        assert_eq!(out, rng.random_seed());
    }
}

#[test]
fn rounding_index_stays_below_a_large_population() {
    // Every word equal and the cursor at 1: the two draws combine to exactly 1.0,
    // and the index is kept inside 0..population.
    let mut seed = vec![403, 1];
    seed.extend(std::iter::repeat(316_513_203).take(624));
    let mut rng = RRng::from_random_seed(&seed).unwrap();
    assert_eq!(rng.version(), RVersion::R3_5);
    assert_eq!(rng.sample_index(3_000_000_000), 2_999_999_999);
    assert_eq!(rng.random_seed()[1], 3);
    let mut again = RRng::from_random_seed(&seed).unwrap();
    assert_eq!(again.try_sample_index(3_000_000_000), Ok(2_999_999_999));
    let mut sampled = RRng::from_random_seed(&seed).unwrap();
    assert_eq!(sampled.sample_int(3_000_000_000, 1, true).unwrap(), vec![3_000_000_000]);
}

#[test]
fn rejection_versions_draw_the_same_samples() {
    let mut a = RRng::from_seed(11).with_version(RVersion::R3_6);
    let mut b = RRng::from_seed(11).with_version(RVersion::R4_0);
    assert_eq!(a.sample_int(50, 5, false).unwrap(), vec![34, 25, 16, 37, 12]);
    assert_eq!(b.sample_int(50, 5, false).unwrap(), vec![34, 25, 16, 37, 12]);
    assert_eq!(
        a.sample_int(1_000_000_000_000, 3, true).unwrap(),
        b.sample_int(1_000_000_000_000, 3, true).unwrap()
    );
    assert_eq!(a.random_seed()[1..], b.random_seed()[1..]);
}

#[test]
fn states_reached_by_calls_restore() {
    for kind in [RUniformKind::MersenneTwister, RUniformKind::LecuyerCmrg] {
        let mut rng = RRng::from_seed_with_kind(2024, kind).with_version(RVersion::R3_5);
        for step in 0..40 {
            let _ = rng.permutation(3 + step % 7).unwrap();
            let _ = rng.rnorm_probability();
            let _ = rng.sample_index(1_000 + step);
        }
        if kind == RUniformKind::LecuyerCmrg {
            rng = rng.next_rng_stream().unwrap().next_rng_substream().unwrap();
        }
        let saved = rng.random_seed();
        let mut restored = RRng::from_random_seed(&saved).unwrap();
        assert_eq!(restored.uniform_kind(), kind);
        assert_eq!(restored.random_seed(), saved);
        for _ in 0..50 {
            assert_eq!(restored.runif(), rng.runif());
        }
    }
}

#[test]
fn lecuyer_words_are_written_at_any_offset() {
    let state = LecuyerState { words: [1, 2, 3, 4, 5, 4_294_944_442] };
    let mut out = [9_i32; 10];
    state.write_serialized(&mut out, 3);
    assert_eq!(out, [9, 9, 9, 1, 2, 3, 4, 5, -22_854, 9]);
}

#[test]
fn small_rounding_index_is_the_floor_of_one_draw() {
    let mut rng = RRng::from_seed(31).with_version(RVersion::R3_5);
    for population in [1usize, 2, 7, 1_000, 2_147_483_647] {
        let mut peek = rng.clone();
        let u = to_f64(peek.runif());
        let expected = (population as f64 * u).floor() as usize;
        assert_eq!(rng.sample_index(population), expected);
        assert_eq!(rng.random_seed(), peek.random_seed());
    }
}

#[test]
fn error_messages_spell_out_each_error() {
    assert_eq!(
        RRngError::InvalidSeed(i32::MIN).message(),
        "-2147483648 is not a valid R integer seed"
    );
    assert_eq!(
        RRngError::InvalidSeedLength { expected: 626, actual: 0 }.message(),
        "invalid .Random.seed length: expected 626, got 0"
    );
    assert_eq!(RRngError::UnsupportedUniformKind(-5).message(), "unsupported R uniform RNG kind -5");
    assert_eq!(RRngError::UnsupportedNormalKind(1).message(), "unsupported R normal RNG kind 1");
    assert_eq!(RRngError::UnsupportedSampleKind(2).message(), "unsupported R sample RNG kind 2");
    assert_eq!(RRngError::UnsupportedBinomialKind(3).message(), "unsupported R binomial RNG kind 3");
    assert_eq!(RRngError::InvalidPosition(0).message(), "invalid Mersenne Twister position 0");
    assert_eq!(RRngError::AllZeroState.message(), "a required generator-state component is all zero");
    assert_eq!(RRngError::InvalidLecuyerState.message(), "invalid L'Ecuyer-CMRG state");
    assert_eq!(
        RRngError::StreamOperationRequiresLecuyer.message(),
        "RNG stream jumps require L'Ecuyer-CMRG"
    );
    assert_eq!(
        RRngError::OutputTooSmall { required: 7, actual: 6 }.message(),
        "state output is too short: need 7 integers, got 6"
    );
    assert_eq!(
        RRngError::InvalidPopulationSize(4_500_000_000_000_001).message(),
        "population size 4500000000000001 is outside R's supported range"
    );
    assert_eq!(
        RRngError::SampleLargerThanPopulation { size: 12, population: 10 }.message(),
        "cannot sample 12 values without replacement from 10 values"
    );
}

#[test]
fn bounded_index_sampling_gives_up_only_after_its_candidates() {
    let mut none_tried = RRng::from_seed(5);
    let before = none_tried.random_seed();
    assert_eq!(none_tried.try_sample_index_within(6, 0), None);
    assert_eq!(none_tried.random_seed(), before);

    let mut bounded = RRng::from_seed(5);
    let mut plain = RRng::from_seed(5);
    assert_eq!(
        bounded.try_sample_index_within(1_000, REJECTION_LIMIT),
        Some(plain.try_sample_index(1_000))
    );
    assert_eq!(bounded.random_seed(), plain.random_seed());

    let mut legacy = RRng::from_seed(5).with_version(RVersion::R3_5);
    let mut legacy_plain = RRng::from_seed(5).with_version(RVersion::R3_5);
    assert_eq!(legacy.try_sample_index_within(6, 0), Some(Ok(legacy_plain.sample_index(6))));
    assert_eq!(
        RRng::from_seed(5).try_sample_index_within(0, 3),
        Some(Err(RRngError::InvalidPopulationSize(0)))
    );
}
