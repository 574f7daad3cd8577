use bench::config::ConfigError;
use bench::stwo_hash::{pcs_config, StwoBlake2s, StwoPoseidon2};

fn expected_config(log_blowup_factor: u32, n_queries: usize) -> stwo::core::pcs::PcsConfig {
    stwo::core::pcs::PcsConfig {
        pow_bits: 0,
        fri_config: stwo::core::fri::FriConfig::new(0, log_blowup_factor, n_queries, 1),
        lifting_log_size: None,
    }
}

/// The workloads whose proofs the program holds to their sizes are set up
/// here for the same numbers of permutations; the prover stands in the
/// program, and with it the sizes.
#[test]
fn m31_poseidon2_proof_size() {
    for log_permutations in [20u32, 21] {
        let num_permutations = 1usize << log_permutations;
        let snark = StwoPoseidon2::new(num_permutations, 1).unwrap();
        assert_eq!(snark.num_permutations(), num_permutations);
        assert_eq!(snark.log_n_instances(), log_permutations);
        assert_eq!(snark.log_n_rows(), log_permutations - 3);
        assert_eq!(snark.config(), expected_config(1, 256));
    }
}

#[test]
fn blake3_proof_size() {
    for log_permutations in [10u32, 11] {
        let num_permutations = 1usize << log_permutations;
        let snark = StwoBlake2s::new(num_permutations, 1).unwrap();
        assert_eq!(snark.num_permutations(), num_permutations);
        assert_eq!(snark.log_size(), log_permutations);
        assert_eq!(snark.config(), expected_config(1, 256));
    }
}

#[test]
fn poseidon2_counts_are_eight_times_a_power_of_two() {
    for requested in 0..3000usize {
        let count = StwoPoseidon2::new(requested, 2).unwrap().num_permutations();
        assert!(count >= requested && count >= 8);
        assert_eq!(count % 8, 0);
        assert!((count / 8).is_power_of_two());
        assert!(count == 8 || count / 2 < requested);
    }
    assert_eq!(StwoPoseidon2::new(1000, 1).unwrap().num_permutations(), 1024);
    assert_eq!(StwoPoseidon2::new(9, 1).unwrap().num_permutations(), 16);
    assert_eq!(StwoPoseidon2::new(1025, 1).unwrap().num_permutations(), 2048);
    let snark = StwoPoseidon2::new(8, 1).unwrap();
    assert_eq!((snark.log_n_instances(), snark.log_n_rows()), (3, 0));
}

#[test]
fn blake2s_counts_are_powers_of_two() {
    for requested in 0..3000usize {
        let snark = StwoBlake2s::new(requested, 1).unwrap();
        assert_eq!(snark.num_permutations(), requested.next_power_of_two());
    }
    assert_eq!(StwoBlake2s::new(1000, 1).unwrap().log_size(), 10);
}

#[test]
fn queries_give_256_bits_together() {
    assert_eq!(pcs_config(1), Ok(expected_config(1, 256)));
    assert_eq!(pcs_config(2), Ok(expected_config(2, 128)));
    assert_eq!(pcs_config(3), Ok(expected_config(3, 86)));
    assert_eq!(pcs_config(16), Ok(expected_config(16, 16)));
    assert_eq!(StwoPoseidon2::new(64, 3).unwrap().config(), expected_config(3, 86));
    assert_eq!(StwoBlake2s::new(64, 5).unwrap().config(), expected_config(5, 52));
}

#[test]
fn a_blow_up_that_the_scheme_does_not_take_is_refused() {
    assert_eq!(pcs_config(0), Err(ConfigError::LogInvRateOutOfRange));
    assert_eq!(pcs_config(17), Err(ConfigError::LogInvRateOutOfRange));
    assert_eq!(pcs_config(usize::MAX), Err(ConfigError::LogInvRateOutOfRange));
    assert!(matches!(StwoPoseidon2::new(64, 0), Err(ConfigError::LogInvRateOutOfRange)));
    assert!(matches!(StwoBlake2s::new(64, 17), Err(ConfigError::LogInvRateOutOfRange)));
}

#[test]
fn a_count_beyond_the_word_comes_first() {
    assert!(matches!(StwoPoseidon2::new(usize::MAX, 0), Err(ConfigError::CountTooLarge)));
    assert!(matches!(StwoBlake2s::new(usize::MAX, 0), Err(ConfigError::CountTooLarge)));
}
