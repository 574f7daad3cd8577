use bench::cli::report;
use bench::config::ConfigError;
use bench::stats::BenchError;
use bench::workload::{
    assert_proof_size, bench, check_size, round_trip_verdict, routine, run, warm_up,
    warm_up_continues, HashInSnark, ProofSizeError, RoundTripError, WARM_UP_NANOS,
};
use rand::rngs::StdRng;
use rand::{RngCore, SeedableRng};

fn spin_a_millisecond() {
    let start = std::time::Instant::now();
    while start.elapsed().as_micros() < 1_000 {}
}

/// Proofs are the input followed by zeros, one byte for each permutation.
struct Fixed {
    count: usize,
}

impl HashInSnark for Fixed {
    type Input = u8;
    type Proof = Vec<u8>;
    type Error = String;

    fn new(num_permutations: usize, _log_inv_rate: usize) -> Result<Self, ConfigError> {
        Ok(Fixed { count: num_permutations.next_power_of_two() })
    }

    fn num_permutations(&self) -> usize {
        self.count
    }

    fn generate_input(&self, rng: &mut StdRng) -> Self::Input {
        (rng.next_u32() % 251) as u8
    }

    fn prove(&self, input: Self::Input) -> Self::Proof {
        spin_a_millisecond();
        let mut proof = vec![0; self.count];
        proof[0] = input;
        proof
    }

    fn verify(&self, proof: &Self::Proof) -> Result<(), Self::Error> {
        if proof.len() == self.count && proof[1..].iter().all(|byte| *byte == 0) {
            Ok(())
        } else {
            Err("not a proof".to_string())
        }
    }

    fn serialize_proof(proof: &Self::Proof) -> Vec<u8> {
        proof.clone()
    }

    fn deserialize_proof(data: &[u8]) -> Option<Self::Proof> {
        Some(data.to_vec())
    }
}

/// A backend whose verifier rejects every proof.
struct Rejecting;

impl HashInSnark for Rejecting {
    type Input = ();
    type Proof = Vec<u8>;
    type Error = u32;

    fn new(_: usize, _: usize) -> Result<Self, ConfigError> {
        Ok(Rejecting)
    }

    fn num_permutations(&self) -> usize {
        1
    }

    fn generate_input(&self, _: &mut StdRng) -> Self::Input {}

    fn prove(&self, _: Self::Input) -> Self::Proof {
        vec![1, 2, 3]
    }

    fn verify(&self, _: &Self::Proof) -> Result<(), Self::Error> {
        Err(17)
    }

    fn serialize_proof(_: &Self::Proof) -> Vec<u8> {
        panic!("a rejected proof is not written to bytes")
    }

    fn deserialize_proof(_: &[u8]) -> Option<Self::Proof> {
        panic!("a rejected proof is not read back")
    }
}

/// A backend that writes one byte of each proof wrongly.
struct Corrupting;

impl HashInSnark for Corrupting {
    type Input = ();
    type Proof = Vec<u8>;
    type Error = u32;

    fn new(_: usize, _: usize) -> Result<Self, ConfigError> {
        Ok(Corrupting)
    }

    fn num_permutations(&self) -> usize {
        1
    }

    fn generate_input(&self, _: &mut StdRng) -> Self::Input {}

    fn prove(&self, _: Self::Input) -> Self::Proof {
        vec![1, 2, 3]
    }

    fn verify(&self, proof: &Self::Proof) -> Result<(), Self::Error> {
        if proof == &vec![1, 2, 3] {
            Ok(())
        } else {
            Err(23)
        }
    }

    fn serialize_proof(proof: &Self::Proof) -> Vec<u8> {
        let mut bytes = proof.clone();
        bytes[2] ^= 1;
        bytes
    }

    fn deserialize_proof(data: &[u8]) -> Option<Self::Proof> {
        Some(data.to_vec())
    }
}

/// A backend that cannot read its proofs back.
struct Unreadable;

impl HashInSnark for Unreadable {
    type Input = ();
    type Proof = Vec<u8>;
    type Error = u32;

    fn new(_: usize, _: usize) -> Result<Self, ConfigError> {
        Ok(Unreadable)
    }

    fn num_permutations(&self) -> usize {
        1
    }

    fn generate_input(&self, _: &mut StdRng) -> Self::Input {}

    fn prove(&self, _: Self::Input) -> Self::Proof {
        vec![1, 2, 3]
    }

    fn verify(&self, _: &Self::Proof) -> Result<(), Self::Error> {
        Ok(())
    }

    fn serialize_proof(proof: &Self::Proof) -> Vec<u8> {
        proof.clone()
    }

    fn deserialize_proof(_: &[u8]) -> Option<Self::Proof> {
        None
    }
}

/// A backend that takes no configuration and must never prove.
struct Unsupported;

impl HashInSnark for Unsupported {
    type Input = ();
    type Proof = ();
    type Error = ();

    fn new(_: usize, _: usize) -> Result<Self, ConfigError> {
        Err(ConfigError::LogInvRateOutOfRange)
    }

    fn num_permutations(&self) -> usize {
        panic!("never set up")
    }

    fn generate_input(&self, _: &mut StdRng) -> Self::Input {
        panic!("never set up")
    }

    fn prove(&self, _: Self::Input) -> Self::Proof {
        panic!("never set up")
    }

    fn verify(&self, _: &Self::Proof) -> Result<(), Self::Error> {
        panic!("never set up")
    }

    fn serialize_proof(_: &Self::Proof) -> Vec<u8> {
        panic!("never set up")
    }

    fn deserialize_proof(_: &[u8]) -> Option<Self::Proof> {
        panic!("never set up")
    }
}

/// A backend that must not even be set up.
struct Untouchable;

impl HashInSnark for Untouchable {
    type Input = ();
    type Proof = ();
    type Error = ();

    fn new(_: usize, _: usize) -> Result<Self, ConfigError> {
        panic!("set up for a benchmark of no trial")
    }

    fn num_permutations(&self) -> usize {
        panic!("never set up")
    }

    fn generate_input(&self, _: &mut StdRng) -> Self::Input {
        panic!("never set up")
    }

    fn prove(&self, _: Self::Input) -> Self::Proof {
        panic!("never set up")
    }

    fn verify(&self, _: &Self::Proof) -> Result<(), Self::Error> {
        panic!("never set up")
    }

    fn serialize_proof(_: &Self::Proof) -> Vec<u8> {
        panic!("never set up")
    }

    fn deserialize_proof(_: &[u8]) -> Option<Self::Proof> {
        panic!("never set up")
    }
}

#[test]
fn a_proof_that_survives_gives_its_size() {
    let fixed = Fixed::new(12, 1).unwrap();
    assert_eq!(fixed.num_permutations(), 16);
    assert!(matches!(fixed.proof_size(), Ok(16)));
    assert!(matches!(Fixed::new(1000, 1).unwrap().proof_size(), Ok(1024)));
}

#[test]
fn a_rejected_proof_gives_no_size() {
    assert!(matches!(Rejecting.proof_size(), Err(RoundTripError::Rejected(17))));
}

#[test]
fn a_proof_that_its_bytes_change_gives_no_size() {
    assert!(matches!(Corrupting.proof_size(), Err(RoundTripError::RejectedAfterRoundTrip(23))));
}

#[test]
fn a_proof_that_cannot_be_read_back_gives_no_size() {
    assert!(matches!(Unreadable.proof_size(), Err(RoundTripError::Undecodable)));
}

#[test]
fn the_verdict_names_the_first_step_that_failed() {
    let ok: Result<(), u8> = Ok(());
    assert!(matches!(round_trip_verdict(Ok::<(), u8>(()), Some(Ok(())), 77), Ok(77)));
    assert!(matches!(round_trip_verdict(ok, None, 77), Err(RoundTripError::Undecodable)));
    assert!(matches!(
        round_trip_verdict(Ok::<(), u8>(()), Some(Err(5)), 77),
        Err(RoundTripError::RejectedAfterRoundTrip(5))
    ));
    assert!(matches!(
        round_trip_verdict(Err(4u8), Some(Ok(())), 77),
        Err(RoundTripError::Rejected(4))
    ));
    assert!(matches!(
        round_trip_verdict(Err(4u8), Some(Err(5)), 77),
        Err(RoundTripError::Rejected(4))
    ));
    assert!(matches!(round_trip_verdict(Err(4u8), None, 77), Err(RoundTripError::Rejected(4))));
}

#[test]
fn a_trial_times_the_proof_and_measures_its_bytes() {
    let fixed = Fixed::new(64, 1).unwrap();
    let mut rng = StdRng::seed_from_u64(1);
    let sample = routine(&fixed, &mut rng);
    assert_eq!(sample.proof_size, 64);
    assert!(sample.elapsed_nanos >= 1_000_000);
    assert!(sample.elapsed_nanos < 1_000_000_000);
}

#[test]
fn warm_up_ends_with_the_trial_that_crosses_three_seconds() {
    assert_eq!(WARM_UP_NANOS, 3_000_000_000);
    assert!(warm_up_continues(0));
    assert!(warm_up_continues(2_999_999_999));
    assert!(!warm_up_continues(3_000_000_000));
    assert!(!warm_up_continues(u128::MAX));
    let fixed = Fixed::new(4, 1).unwrap();
    let mut rng = StdRng::seed_from_u64(2);
    let start = std::time::Instant::now();
    let done = warm_up(&fixed, &mut rng);
    let wall = start.elapsed().as_nanos();
    assert!(done.elapsed_nanos >= WARM_UP_NANOS);
    assert!(done.elapsed_nanos <= wall);
    assert!(done.rounds >= 1 && done.rounds <= 3_000);
    assert!(done.elapsed_nanos < WARM_UP_NANOS + 1_000_000_000);
}

#[test]
fn zero_sample_size_is_refused_before_the_backend_is_set_up() {
    assert_eq!(bench::<Untouchable>(16, 0, 1).unwrap_err(), BenchError::ZeroSampleSize);
    assert_eq!(bench::<Fixed>(16, 0, 1).unwrap_err(), BenchError::ZeroSampleSize);
}

#[test]
fn a_backend_that_cannot_be_set_up_is_not_measured() {
    assert_eq!(
        bench::<Unsupported>(16, 3, 1).unwrap_err(),
        BenchError::Config(ConfigError::LogInvRateOutOfRange)
    );
    assert_eq!(
        run::<Unsupported>(16, 1).unwrap_err(),
        BenchError::Config(ConfigError::LogInvRateOutOfRange)
    );
}

#[test]
fn run_proves_once() {
    assert_eq!(run::<Fixed>(16, 1), Ok(()));
}

#[test]
fn ten_samples_give_three_lines() {
    let m = bench::<Fixed>(1000, 10, 1).unwrap();
    assert_eq!(m.num_permutations, 1024);
    assert_eq!((m.proof_size.num(), m.proof_size.den()), (10_240, 10));
    assert!(m.time_nanos >= 1_000_000 && m.time_nanos < 1_000_000_000);
    assert_eq!((m.throughput.num(), m.throughput.den()), (1024 * 1_000_000_000, m.time_nanos));
    let text = report(&m);
    let lines: Vec<&str> = text.split('\n').collect();
    assert_eq!(lines.len(), 3);
    assert!(lines[0].starts_with("      time: ") && lines[0].ends_with(" ms"));
    let unit = if m.time_nanos > 1_024_000 { " K/s" } else { " M/s" };
    assert!(lines[1].starts_with("throughput: ") && lines[1].ends_with(unit));
    assert_eq!(lines[2], "proof size: 1.00 KB");
}

#[test]
fn proofs_are_held_to_their_sizes() {
    assert!(assert_proof_size::<Fixed>(&vec![], 1).is_ok());
    assert!(assert_proof_size::<Fixed>(&vec![(1000, 1024), (1024, 1024), (3, 4)], 1).is_ok());
    assert!(matches!(
        assert_proof_size::<Fixed>(&vec![(1000, 1024), (1025, 1024), (3, 5)], 1),
        Err(ProofSizeError::Mismatch { num_permutations: 1025, expected: 1024, actual: 2048 })
    ));
    assert!(matches!(
        assert_proof_size::<Rejecting>(&vec![(1, 3)], 1),
        Err(ProofSizeError::RoundTrip(RoundTripError::Rejected(17)))
    ));
    assert!(matches!(
        assert_proof_size::<Unsupported>(&vec![(1, 3)], 1),
        Err(ProofSizeError::Config(ConfigError::LogInvRateOutOfRange))
    ));
    assert!(assert_proof_size::<Untouchable>(&vec![], 1).is_ok());
    assert!(check_size::<()>(5, 7, 7).is_ok());
    assert!(matches!(
        check_size::<()>(5, 7, 8),
        Err(ProofSizeError::Mismatch { num_permutations: 5, expected: 7, actual: 8 })
    ));
}
