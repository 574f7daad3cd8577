use bench::cli::{plan, report, Backend, Plan, PlanError};
use bench::stats::{aggregate, Sample};

#[test]
fn every_workload_is_found_by_its_name() {
    let all = Backend::all();
    assert_eq!(all.len(), 11);
    for backend in all {
        assert_eq!(Backend::from_name(backend.name()), Some(backend));
    }
    assert_eq!(Backend::from_name("plonky3-keccak"), Some(Backend::Plonky3Keccak));
    assert_eq!(Backend::from_name("stwo-poseidon2"), Some(Backend::StwoPoseidon2));
    assert_eq!(Backend::from_name("binius-groestl"), Some(Backend::BiniusGroestl));
    assert_eq!(Backend::BiniusKeccak.name(), "binius-keccak");
}

#[test]
fn other_names_stand_for_no_workload() {
    assert_eq!(Backend::from_name(""), None);
    assert_eq!(Backend::from_name("keccak"), None);
    assert_eq!(Backend::from_name("Plonky3-Keccak"), None);
    assert_eq!(Backend::from_name("plonky3-keccak "), None);
    assert_eq!(Backend::from_name("plonky3_keccak"), None);
}

#[test]
fn no_sample_size_means_one_proof() {
    assert_eq!(plan(10, None), Ok(Plan::Run { num_permutations: 1024 }));
    assert_eq!(plan(0, None), Ok(Plan::Run { num_permutations: 1 }));
}

#[test]
fn a_sample_size_means_a_benchmark() {
    assert_eq!(plan(10, Some(10)), Ok(Plan::Bench { num_permutations: 1024, sample_size: 10 }));
    assert_eq!(plan(20, Some(1)), Ok(Plan::Bench { num_permutations: 1 << 20, sample_size: 1 }));
}

#[test]
fn a_sample_size_of_zero_is_refused() {
    assert_eq!(plan(10, Some(0)), Err(PlanError::ZeroSampleSize));
}

#[test]
fn a_logarithm_beyond_the_word_is_refused() {
    assert_eq!(plan(usize::BITS as usize, None), Err(PlanError::TooManyPermutations));
    assert_eq!(plan(usize::BITS as usize, Some(0)), Err(PlanError::TooManyPermutations));
    assert_eq!(plan(usize::MAX, Some(3)), Err(PlanError::TooManyPermutations));
    assert_eq!(
        plan(usize::BITS as usize - 1, None),
        Ok(Plan::Run { num_permutations: 1 << (usize::BITS - 1) })
    );
}

#[test]
fn report_has_a_line_for_time_throughput_and_size() {
    let samples = vec![
        Sample { elapsed_nanos: 1_900_000, proof_size: 200_000 },
        Sample { elapsed_nanos: 2_100_000, proof_size: 200_001 },
    ];
    let m = aggregate(1024, &samples).unwrap();
    assert_eq!(
        report(&m),
        "      time: 2.00 ms\nthroughput: 512.00 K/s\nproof size: 195.31 KB"
    );
    let m = aggregate(1 << 20, &vec![Sample { elapsed_nanos: 250_000_000, proof_size: 2_227_864 }])
        .unwrap();
    assert_eq!(report(&m), "      time: 250.00 ms\nthroughput: 4.19 M/s\nproof size: 2.12 MB");
    let m = aggregate(1, &vec![Sample { elapsed_nanos: 999, proof_size: 999 }]).unwrap();
    assert_eq!(report(&m), "      time: 999 ns\nthroughput: 1.00 M/s\nproof size: 999.00 B");
}
