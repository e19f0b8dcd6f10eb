use rng_compat_r::{RRng, RRngError, RUniform, RUniformKind, RVersion};

const MT_LEN: usize = 624;

fn to_f64(u: RUniform) -> f64 {
    u.mantissa as f64 * 2f64.powi(-(u.exponent as i32))
}

#[test]
fn set_seed_matches_r_initial_state_prefix() {
    let state = RRng::from_seed(42).random_seed();
    assert_eq!(state.len(), 626);
    assert_eq!(&state[..4], &[10_403, 624, 507_561_766, 1_260_545_903]);
}

#[test]
fn save_restore_round_trip() {
    let mut original = RRng::from_seed(-123_456);
    for _ in 0..917 {
        let _ = original.runif();
    }
    let state = original.random_seed();
    let mut restored = RRng::from_random_seed(&state).unwrap();
    assert_eq!(restored.random_seed(), state);
    for _ in 0..1_000 {
        assert_eq!(
            to_f64(restored.runif()).to_bits(),
            to_f64(original.runif()).to_bits()
        );
    }
}

#[test]
fn save_restore_property_across_seeds_versions_and_operations() {
    let seeds = [i32::MIN + 1, -1_234_567, -1, 0, 1, 42, i32::MAX];
    let versions = [RVersion::R3_5, RVersion::R3_6, RVersion::R4_6];

    for seed in seeds {
        for version in versions {
            let mut original = RRng::from_seed(seed).with_version(version);
            for iteration in 0..37 {
                let _ = original.permutation(2 + iteration % 23).unwrap();
                // The draws that rnorm(-3.5, 2.25) consumes.
                let _ = original.rnorm_probability();
                let _ = original.runif();
            }

            let state = original.random_seed();
            let mut restored = RRng::from_random_seed(&state).unwrap();
            assert_eq!(restored.random_seed(), state);
            for _ in 0..128 {
                assert_eq!(
                    to_f64(restored.runif()).to_bits(),
                    to_f64(original.runif()).to_bits()
                );
            }
        }
    }
}

#[test]
fn version_changes_only_sampler_mode() {
    let modern = RRng::from_seed(42);
    let legacy = modern.clone().with_version(RVersion::R3_5);
    assert_eq!(modern.random_seed()[0], 10_403);
    assert_eq!(legacy.random_seed()[0], 403);
    assert_eq!(&modern.random_seed()[1..], &legacy.random_seed()[1..]);
}

#[test]
fn allocation_free_mt_export_preserves_extra_capacity() {
    let rng = RRng::from_seed(42);
    let mut output = [i32::MAX; MT_LEN + 4];
    assert_eq!(rng.write_random_seed(&mut output).unwrap(), MT_LEN + 2);
    assert_eq!(&output[..MT_LEN + 2], rng.random_seed());
    assert_eq!(&output[MT_LEN + 2..], &[i32::MAX; 2]);
    assert_eq!(
        rng.write_random_seed(&mut output[..MT_LEN + 1])
            .unwrap_err(),
        RRngError::OutputTooSmall {
            required: MT_LEN + 2,
            actual: MT_LEN + 1,
        }
    );
}

fn assert_send_sync<T: Send + Sync>() {}

#[test]
fn rng_is_send_and_sync() {
    assert_send_sync::<RRng>();
}

#[test]
fn r_edge_cases_do_not_consume_state() {
    assert_eq!(
        RRng::try_from_seed(i32::MIN).unwrap_err(),
        RRngError::InvalidSeed(i32::MIN)
    );

    let mut rng = RRng::from_seed(42);
    let initial = rng.random_seed();
    assert_eq!(rng.sample_int(0, 0, false).unwrap(), Vec::<usize>::new());
    assert_eq!(rng.random_seed(), initial);
    assert_eq!(
        rng.sample_int(0, 3, true).unwrap_err(),
        RRngError::InvalidPopulationSize(0)
    );
    assert_eq!(
        rng.try_sample_index(0).unwrap_err(),
        RRngError::InvalidPopulationSize(0)
    );
    assert_eq!(rng.random_seed(), initial);
}

#[test]
fn imported_state_modes_are_validated() {
    let state = RRng::from_seed(42).random_seed();

    let mut invalid = state.clone();
    invalid[0] = 10_400;
    assert_eq!(
        RRng::from_random_seed(&invalid).unwrap_err(),
        RRngError::UnsupportedUniformKind(0)
    );

    let mut invalid = state.clone();
    invalid[1] = 0;
    assert_eq!(
        RRng::from_random_seed(&invalid).unwrap_err(),
        RRngError::InvalidPosition(0)
    );

    let mut invalid = state;
    invalid[2..].fill(0);
    assert_eq!(
        RRng::from_random_seed(&invalid).unwrap_err(),
        RRngError::AllZeroState
    );
}

#[test]
fn lecuyer_state_round_trip_and_allocation_free_export() {
    let mut rng = RRng::from_seed_with_kind(-765_432, RUniformKind::LecuyerCmrg);
    for _ in 0..257 {
        // The draws that rnorm(3.0, 0.25) consumes.
        let _ = rng.rnorm_probability();
        let _ = rng.sample_index(31);
    }

    assert_eq!(rng.random_seed_len(), 7);
    let mut output = [i32::MAX; 9];
    assert_eq!(rng.write_random_seed(&mut output).unwrap(), 7);
    assert_eq!(&output[..7], rng.random_seed());
    assert_eq!(&output[7..], &[i32::MAX; 2]);

    let mut restored = RRng::from_random_seed(&output[..7]).unwrap();
    assert_eq!(restored.uniform_kind(), RUniformKind::LecuyerCmrg);
    for _ in 0..1_000 {
        assert_eq!(
            to_f64(restored.runif()).to_bits(),
            to_f64(rng.runif()).to_bits()
        );
    }

    assert_eq!(
        rng.write_random_seed(&mut [0; 6]).unwrap_err(),
        RRngError::OutputTooSmall {
            required: 7,
            actual: 6
        }
    );
    assert_eq!(
        RRng::from_seed(42).next_rng_stream().unwrap_err(),
        RRngError::StreamOperationRequiresLecuyer
    );
}
