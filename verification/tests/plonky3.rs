use bench::config::ConfigError;
use bench::plonky3::circuit::blake3::Blake3Circuit;
use bench::plonky3::circuit::keccak::KeccakCircuit;
use bench::plonky3::circuit::koala_bear_poseidon2::KoalaBearPoseidon2Circuit;
use bench::plonky3::circuit::{Plonky3Circuit, StarkError};
use bench::plonky3::config::keccak_mt::{
    BabyBearKeccakMtConfig, KeccakMtConfig, KoalaBearKeccakMtConfig,
};
use bench::plonky3::config::Plonky3Config;
use bench::plonky3::Plonky3;
use bench::stats::BenchError;
use bench::workload::{assert_proof_size, bench, HashInSnark, ProofSizeError};
use rand::rngs::StdRng;
use rand::SeedableRng;

type Keccak = Plonky3<BabyBearKeccakMtConfig, KeccakCircuit>;
type Blake3 = Plonky3<BabyBearKeccakMtConfig, Blake3Circuit>;
type Poseidon2 = Plonky3<KoalaBearKeccakMtConfig, KoalaBearPoseidon2Circuit>;

#[test]
fn keccak_proof_size() {
    let snark = Keccak::new(1, 1).unwrap();
    assert_eq!(snark.num_permutations(), 1);
    assert_eq!(snark.proof_size().unwrap(), 2_991_854);
    let snark = Keccak::new(2, 2).unwrap();
    assert_eq!(snark.num_permutations(), 2);
    assert_eq!(snark.proof_size().unwrap(), 1_594_638);
}

#[test]
fn blake3_trace_proof_size() {
    let snark = Blake3::new(3, 1).unwrap();
    assert_eq!(snark.num_permutations(), 4);
    assert_eq!(snark.proof_size().unwrap(), 9_780_046);
}

#[test]
fn koala_bear_poseidon2_proof_size() {
    let snark = Poseidon2::new(9, 1).unwrap();
    assert_eq!(snark.num_permutations(), 16);
    assert_eq!(snark.proof_size().unwrap(), 1_467_966);
    let snark = Poseidon2::new(64, 3).unwrap();
    assert_eq!(snark.num_permutations(), 64);
    assert_eq!(snark.proof_size().unwrap(), 554_478);
}

#[test]
fn poseidon2_requested_at_1000_rounds_to_1024_and_has_a_fixed_proof_size() {
    let snark = Poseidon2::new(1000, 1).unwrap();
    assert_eq!(snark.num_permutations(), 1 << 10);
    assert_eq!(snark.proof_size().unwrap(), 1_756_942);
    assert!(assert_proof_size::<Poseidon2>(&vec![(1 << 10, 1_756_942), (9, 1_467_966)], 1).is_ok());
    assert!(matches!(
        assert_proof_size::<Poseidon2>(&vec![(9, 1_467_966), (16, 1_467_967), (8, 0)], 1),
        Err(ProofSizeError::Mismatch { num_permutations: 16, expected: 1_467_967, actual: 1_467_966 })
    ));
    assert!(matches!(
        assert_proof_size::<Poseidon2>(&vec![(9, 1_467_966)], 0),
        Err(ProofSizeError::Config(ConfigError::LogInvRateOutOfRange))
    ));
}

#[test]
fn a_proof_verifies_and_a_changed_one_does_not() {
    let snark = Poseidon2::new(8, 2).unwrap();
    let mut rng = StdRng::seed_from_u64(11);
    let input = snark.generate_input(&mut rng);
    assert_eq!(input.len(), 8);
    assert!(input.iter().flatten().all(|x| *x < 0x7f00_0001));
    let proof = snark.prove(input);
    assert!(snark.verify(&proof).is_ok());
    let bytes = Poseidon2::serialize_proof(&proof);
    let read_back = Poseidon2::deserialize_proof(&bytes).unwrap();
    assert!(snark.verify(&read_back).is_ok());
    assert_eq!(Poseidon2::serialize_proof(&read_back), bytes);
    let mut changed = bytes.clone();
    let middle = changed.len() / 2;
    changed[middle] ^= 1;
    match Poseidon2::deserialize_proof(&changed) {
        Some(other) => assert!(matches!(
            snark.verify(&other),
            Err(StarkError::InvalidOpeningArgument(_))
                | Err(StarkError::OodEvaluationMismatch)
                | Err(StarkError::InvalidProofShape)
        )),
        None => {}
    }
    assert!(Poseidon2::deserialize_proof(&bytes[..bytes.len() - 1]).is_none());
    assert!(Poseidon2::deserialize_proof(&[]).is_none());
}

#[test]
fn a_proof_of_another_size_is_rejected() {
    let small = Poseidon2::new(8, 1).unwrap();
    let large = Poseidon2::new(32, 1).unwrap();
    let mut rng = StdRng::seed_from_u64(5);
    let proof = small.prove(small.generate_input(&mut rng));
    assert!(small.verify(&proof).is_ok());
    assert!(large.verify(&proof).is_err());
}

#[test]
fn inputs_are_cut_or_filled_up_to_the_circuit() {
    let snark = Blake3::new(2, 1).unwrap();
    let proof = snark.prove(vec![[7u32; 24]; 5]);
    assert!(snark.verify(&proof).is_ok());
    let proof = snark.prove(vec![]);
    assert!(snark.verify(&proof).is_ok());
    let snark = Poseidon2::new(8, 1).unwrap();
    let proof = snark.prove(vec![[3u32; 16]; 3]);
    assert!(snark.verify(&proof).is_ok());
}

#[test]
fn keccak_fills_its_trace_with_permutations() {
    let cases = [(0usize, 1usize, 0usize), (1, 32, 1), (2, 64, 2), (5, 128, 5), (6, 256, 10), (1000, 32768, 1365), (1024, 32768, 1365), (1365, 32768, 1365), (1366, 65536, 2730)];
    for (requested, height, count) in cases {
        let circuit =
            <KeccakCircuit as Plonky3Circuit<BabyBearKeccakMtConfig>>::new(requested, 1).unwrap();
        assert_eq!(circuit.trace_height(), height);
        assert_eq!(circuit.num_permutations(), count);
        assert_eq!(circuit.log_blowup(), 1);
    }
    assert!(matches!(
        <KeccakCircuit as Plonky3Circuit<BabyBearKeccakMtConfig>>::new(usize::MAX / 24 + 1, 1),
        Err(ConfigError::CountTooLarge)
    ));
    assert!(matches!(
        <KeccakCircuit as Plonky3Circuit<BabyBearKeccakMtConfig>>::new(usize::MAX / 24, 1),
        Err(ConfigError::CountTooLarge)
    ));
}

#[test]
fn blake3_and_poseidon2_round_their_counts() {
    for requested in 0..600usize {
        let blake3 =
            <Blake3Circuit as Plonky3Circuit<BabyBearKeccakMtConfig>>::new(requested, 1).unwrap();
        assert_eq!(blake3.num_permutations(), requested.next_power_of_two());
        assert_eq!(blake3.trace_height(), requested.next_power_of_two());
    }
    let mut rng = StdRng::seed_from_u64(3);
    for (requested, count) in [(0usize, 8usize), (8, 8), (9, 16), (1000, 1024), (1025, 2048)] {
        let circuit = KoalaBearPoseidon2Circuit::with_rng(requested, 2, &mut rng).unwrap();
        assert_eq!(circuit.num_permutations(), count);
        assert_eq!(circuit.trace_height(), count / 8);
        assert_eq!(circuit.log_blowup(), 2);
    }
    assert!(matches!(
        KoalaBearPoseidon2Circuit::with_rng(usize::MAX, 2, &mut rng),
        Err(ConfigError::CountTooLarge)
    ));
}

#[test]
fn the_low_degree_test_has_256_bits_of_queries() {
    let expected = |trace_height, log_blowup, log_final_poly_len, num_queries| KeccakMtConfig {
        trace_height,
        log_blowup,
        log_final_poly_len,
        num_queries,
        proof_of_work_bits: 0,
    };
    assert_eq!(KeccakMtConfig::new(1, 1, 27), Ok(expected(1, 1, 0, 256)));
    assert_eq!(KeccakMtConfig::new(2, 1, 27), Ok(expected(2, 1, 0, 256)));
    assert_eq!(KeccakMtConfig::new(4, 2, 27), Ok(expected(4, 2, 1, 128)));
    assert_eq!(KeccakMtConfig::new(8, 3, 27), Ok(expected(8, 3, 2, 86)));
    assert_eq!(KeccakMtConfig::new(16, 5, 27), Ok(expected(16, 5, 3, 52)));
    assert_eq!(KeccakMtConfig::new(1 << 20, 7, 27), Ok(expected(1 << 20, 7, 3, 37)));
    assert_eq!(KeccakMtConfig::new(1, 27, 27), Ok(expected(1, 27, 0, 10)));
    assert_eq!(KeccakMtConfig::new(1, 64, 64), Ok(expected(1, 64, 0, 4)));
    assert_eq!(KeccakMtConfig::new(1, 65, 64), Err(ConfigError::CountTooLarge));
    let config = BabyBearKeccakMtConfig::new(32, 1).unwrap();
    assert_eq!(config.params(), expected(32, 1, 3, 256));
    let config = KoalaBearKeccakMtConfig::new(1 << 23, 1).unwrap();
    assert_eq!(config.params(), expected(1 << 23, 1, 3, 256));
}

#[test]
fn a_trace_that_the_field_does_not_take_is_refused() {
    assert_eq!(KeccakMtConfig::new(32, 0, 27), Err(ConfigError::LogInvRateOutOfRange));
    assert_eq!(KeccakMtConfig::new(0, 1, 27), Err(ConfigError::CountTooLarge));
    assert_eq!(KeccakMtConfig::new(24, 1, 27), Err(ConfigError::CountTooLarge));
    assert_eq!(KeccakMtConfig::new(1 << 26, 2, 27), Err(ConfigError::CountTooLarge));
    assert!(KeccakMtConfig::new(1 << 26, 1, 27).is_ok());
    assert!(matches!(BabyBearKeccakMtConfig::new(1 << 27, 1), Err(ConfigError::CountTooLarge)));
    assert!(matches!(KoalaBearKeccakMtConfig::new(1 << 24, 1), Err(ConfigError::CountTooLarge)));
    assert!(matches!(BabyBearKeccakMtConfig::new(32, 0), Err(ConfigError::LogInvRateOutOfRange)));
    assert!(matches!(Keccak::new(1, 0), Err(ConfigError::LogInvRateOutOfRange)));
    assert!(matches!(Keccak::new(usize::MAX, 1), Err(ConfigError::CountTooLarge)));
    assert!(matches!(Poseidon2::new(1 << 27, 1), Err(ConfigError::CountTooLarge)));
}

#[test]
fn a_benchmark_of_real_proofs() {
    let m = bench::<Poseidon2>(9, 2, 2).unwrap();
    assert_eq!(m.num_permutations, 16);
    assert_eq!(m.proof_size.den(), 2);
    assert_eq!(m.proof_size.num() % 2, 0);
    assert!(m.proof_size.num() >= m.proof_size.den());
    assert!(m.time_nanos > 0);
    assert_eq!(m.throughput.num(), 16_000_000_000);
    assert_eq!(m.throughput.den(), m.time_nanos);
    assert_eq!(
        bench::<Keccak>(1, 2, 0).unwrap_err(),
        BenchError::Config(ConfigError::LogInvRateOutOfRange)
    );
}

#[test]
fn a_proof_that_claims_another_height_is_rejected_unseen() {
    let snark = Poseidon2::new(16, 1).unwrap();
    let mut rng = StdRng::seed_from_u64(8);
    let proof = snark.prove(snark.generate_input(&mut rng));
    let bytes = Poseidon2::serialize_proof(&proof);
    assert_eq!(bytes[bytes.len() - 8..], [1, 0, 0, 0, 0, 0, 0, 0]);
    for claimed in [0u64, 2, 24, 63, 64, 1000, u64::MAX] {
        let mut changed = bytes.clone();
        let at = changed.len() - 8;
        changed[at..].copy_from_slice(&claimed.to_le_bytes());
        let other = Poseidon2::deserialize_proof(&changed).unwrap();
        assert!(matches!(snark.verify(&other), Err(StarkError::InvalidProofShape)));
    }
    let same = Poseidon2::deserialize_proof(&bytes).unwrap();
    assert!(snark.verify(&same).is_ok());
}

#[test]
fn a_circuit_takes_no_trace_beyond_the_domains_of_its_field() {
    assert!(<KeccakCircuit as Plonky3Circuit<BabyBearKeccakMtConfig>>::new(1, 22).is_ok());
    assert!(matches!(
        <KeccakCircuit as Plonky3Circuit<BabyBearKeccakMtConfig>>::new(1, 23),
        Err(ConfigError::CountTooLarge)
    ));
    assert!(matches!(
        <KeccakCircuit as Plonky3Circuit<BabyBearKeccakMtConfig>>::new(1, usize::MAX),
        Err(ConfigError::CountTooLarge)
    ));
    assert!(<KeccakCircuit as Plonky3Circuit<BabyBearKeccakMtConfig>>::new(1, 0).is_ok());
    assert!(<Blake3Circuit as Plonky3Circuit<BabyBearKeccakMtConfig>>::new(4, 25).is_ok());
    assert!(matches!(
        <Blake3Circuit as Plonky3Circuit<BabyBearKeccakMtConfig>>::new(4, 26),
        Err(ConfigError::CountTooLarge)
    ));
    assert!(matches!(
        <Blake3Circuit as Plonky3Circuit<BabyBearKeccakMtConfig>>::new((1 << 27) + 1, 0),
        Err(ConfigError::CountTooLarge)
    ));
    let mut rng = StdRng::seed_from_u64(4);
    assert!(KoalaBearPoseidon2Circuit::with_rng(8, 24, &mut rng).is_ok());
    assert!(matches!(
        KoalaBearPoseidon2Circuit::with_rng(16, 24, &mut rng),
        Err(ConfigError::CountTooLarge)
    ));
    assert!(matches!(
        KoalaBearPoseidon2Circuit::with_rng(8, 25, &mut rng),
        Err(ConfigError::CountTooLarge)
    ));
}

#[test]
fn a_workload_hands_out_its_configuration_and_its_circuit() {
    let snark = Keccak::new(2, 3).unwrap();
    assert_eq!(snark.circuit().num_permutations(), snark.num_permutations());
    assert_eq!(snark.circuit().trace_height(), 64);
    assert_eq!(snark.circuit().log_blowup(), 3);
    assert_eq!(snark.config().params().trace_height, 64);
    assert_eq!(snark.config().params().log_blowup, 3);
    assert_eq!(snark.config().params().num_queries, 86);
    let mut rng = StdRng::seed_from_u64(21);
    assert_eq!(snark.generate_input(&mut rng).len(), 2);
}

#[test]
fn a_proof_has_the_bytes_that_its_height_is_read_from() {
    let snark = Poseidon2::new(32, 1).unwrap();
    let mut rng = StdRng::seed_from_u64(22);
    let proof = snark.prove(snark.generate_input(&mut rng));
    let bytes = Poseidon2::serialize_proof(&proof);
    assert_eq!(bytes, KoalaBearKeccakMtConfig::serialize_proof(&proof));
    assert_eq!(KoalaBearKeccakMtConfig::proof_degree_bits(&proof), Some(2));
    assert_eq!(bytes[bytes.len() - 8..], 2u64.to_le_bytes());
    let read = KoalaBearKeccakMtConfig::deserialize_proof(&bytes).unwrap();
    assert_eq!(KoalaBearKeccakMtConfig::serialize_proof(&read), bytes);
    assert_eq!(KoalaBearKeccakMtConfig::proof_degree_bits(&read), Some(2));
}

#[test]
fn a_proof_with_other_folding_rounds_is_rejected_unseen() {
    let snark = Poseidon2::new(64, 1).unwrap();
    let mut rng = StdRng::seed_from_u64(9);
    let proof = snark.prove(snark.generate_input(&mut rng));
    let bytes = Poseidon2::serialize_proof(&proof);
    assert_eq!(KoalaBearKeccakMtConfig::proof_degree_bits(&proof), Some(3));
    assert_eq!(KoalaBearKeccakMtConfig::proof_commit_rounds(&proof), Some(1));
    for extra in [1usize, 2, 31, 64] {
        let mut parts: bench::plonky3::config::keccak_mt::ProofParts<
            p3_koala_bear::KoalaBear,
            bench::plonky3::config::keccak_mt::KoalaBearExt,
        > = bincode::deserialize(&bytes).unwrap();
        let commit = parts.2.commit_phase_commits[0].clone();
        for _ in 0..extra {
            parts.2.commit_phase_commits.push(commit.clone());
        }
        let changed = bincode::serialize(&parts).unwrap();
        let other = Poseidon2::deserialize_proof(&changed).unwrap();
        assert_eq!(KoalaBearKeccakMtConfig::proof_commit_rounds(&other), Some(1 + extra));
        assert!(matches!(snark.verify(&other), Err(StarkError::InvalidProofShape)));
    }
    let same = Poseidon2::deserialize_proof(&bytes).unwrap();
    assert!(snark.verify(&same).is_ok());
}

#[test]
fn a_baby_bear_proof_holds_its_folding_rounds() {
    let snark = Keccak::new(1, 1).unwrap();
    assert_eq!(snark.config().params().trace_height, 32);
    assert_eq!(snark.config().params().log_final_poly_len, 3);
    let mut rng = StdRng::seed_from_u64(10);
    let proof = snark.prove(snark.generate_input(&mut rng));
    let bytes = Keccak::serialize_proof(&proof);
    assert!(!bytes.is_empty());
    assert_eq!(BabyBearKeccakMtConfig::proof_degree_bits(&proof), Some(5));
    assert_eq!(BabyBearKeccakMtConfig::proof_commit_rounds(&proof), Some(2));
    let mut parts: bench::plonky3::config::keccak_mt::ProofParts<
        p3_baby_bear::BabyBear,
        bench::plonky3::config::keccak_mt::BabyBearExt,
    > = bincode::deserialize(&bytes).unwrap();
    let commit = parts.2.commit_phase_commits[0].clone();
    parts.2.commit_phase_commits.push(commit);
    let changed = bincode::serialize(&parts).unwrap();
    let other = Keccak::deserialize_proof(&changed).unwrap();
    assert_eq!(BabyBearKeccakMtConfig::proof_commit_rounds(&other), Some(3));
    assert!(matches!(snark.verify(&other), Err(StarkError::InvalidProofShape)));
    let same = Keccak::deserialize_proof(&bytes).unwrap();
    assert!(snark.verify(&same).is_ok());
}
