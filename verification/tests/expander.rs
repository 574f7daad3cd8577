use bench::config::ConfigError;
use bench::expander::circuit::{Gf2Keccak, M31Keccak, M31Poseidon};
use bench::expander::{
    deserialize_proof, serialize_proof, Expander, ExpanderCircuit, FieldConfig, GkrScheme,
};

#[test]
fn circuits_name_their_directory_field_and_scheme() {
    assert_eq!(Gf2Keccak::circuit_dir(), "./circuit/gf2_keccak");
    assert_eq!(M31Keccak::circuit_dir(), "./circuit/m31_keccak");
    assert_eq!(M31Poseidon::circuit_dir(), "./circuit/m31_poseidon");
    assert_eq!(Gf2Keccak::field_config(), FieldConfig::Gf2ExtSha2);
    assert_eq!(M31Keccak::field_config(), FieldConfig::M31ExtSha2);
    assert_eq!(M31Poseidon::field_config(), FieldConfig::M31ExtSha2);
    assert_eq!(Gf2Keccak::scheme(), GkrScheme::Vanilla);
    assert_eq!(M31Keccak::scheme(), GkrScheme::Vanilla);
    assert_eq!(M31Poseidon::scheme(), GkrScheme::Vanilla);
}

#[test]
fn permutations_are_shared_by_the_threads() {
    let snark = Expander::<Gf2Keccak>::with_threads(1024, 4, 3).unwrap();
    assert_eq!(snark.num_permutations(), 1024);
    assert_eq!(snark.num_threads(), 4);
    assert_eq!(snark.log_permutations_per_thread(), 8);
    assert_eq!(snark.circuit_path(), "./circuit/gf2_keccak/5.txt");
}

#[test]
fn a_share_is_rounded_up_to_a_power_of_two() {
    let snark = Expander::<M31Poseidon>::with_threads(1 << 15, 6, 4).unwrap();
    assert_eq!(snark.num_permutations(), 6 << 13);
    assert_eq!(snark.log_permutations_per_thread(), 13);
    assert_eq!(snark.circuit_path(), "./circuit/m31_poseidon/9.txt");
    let snark = Expander::<M31Keccak>::with_threads(10, 4, 0).unwrap();
    assert_eq!(snark.num_permutations(), 16);
    assert_eq!(snark.circuit_path(), "./circuit/m31_keccak/2.txt");
    let snark = Expander::<M31Keccak>::with_threads(0, 4, 0).unwrap();
    assert_eq!(snark.num_permutations(), 4);
    assert_eq!(snark.circuit_path(), "./circuit/m31_keccak/0.txt");
}

#[test]
fn the_count_reaches_every_small_request() {
    for threads in 1..9usize {
        for requested in 0..700usize {
            let snark = Expander::<Gf2Keccak>::with_threads(requested, threads, 0).unwrap();
            let count = snark.num_permutations();
            assert!(count >= requested);
            assert_eq!(count, threads << snark.log_permutations_per_thread());
            assert!(count == threads || count / 2 < requested);
        }
    }
}

#[test]
fn unsupported_settings_are_refused() {
    assert!(matches!(
        Expander::<Gf2Keccak>::with_threads(1024, 0, 3),
        Err(ConfigError::NoThreads)
    ));
    assert!(matches!(
        Expander::<Gf2Keccak>::with_threads(1024, 4, 9),
        Err(ConfigError::ShareTooSmall)
    ));
    assert!(Expander::<Gf2Keccak>::with_threads(1024, 4, 8).is_ok());
    assert!(matches!(
        Expander::<Gf2Keccak>::with_threads(usize::MAX, 3, 0),
        Err(ConfigError::CountTooLarge)
    ));
}

#[test]
fn the_thread_pool_gives_the_threads() {
    let snark = Expander::<M31Keccak>::new(1 << 12, 0).unwrap();
    let threads = snark.num_threads();
    assert!(threads >= 1);
    assert_eq!(threads, rayon::current_num_threads());
    assert_eq!(snark.num_permutations(), threads << snark.log_permutations_per_thread());
    assert!(snark.num_permutations() >= 1 << 12);
}

#[test]
fn a_proof_is_written_as_framed_byte_strings() {
    let parts = vec![(vec![1u8, 2], vec![3u8]), (vec![], vec![9u8; 3])];
    let bytes = serialize_proof(&parts).unwrap();
    let mut expected = vec![2u8, 0, 0, 0, 0, 0, 0, 0];
    expected.extend([2, 0, 0, 0, 0, 0, 0, 0, 1, 2]);
    expected.extend([1, 0, 0, 0, 0, 0, 0, 0, 3]);
    expected.extend([0, 0, 0, 0, 0, 0, 0, 0]);
    expected.extend([3, 0, 0, 0, 0, 0, 0, 0, 9, 9, 9]);
    assert_eq!(bytes, expected);
    assert_eq!(deserialize_proof(&bytes), Some(parts));
    assert_eq!(serialize_proof(&vec![]).unwrap(), vec![0u8; 8]);
    assert_eq!(deserialize_proof(&[0u8; 8]), Some(vec![]));
}

#[test]
fn a_proof_comes_back_from_its_bytes() {
    let mut parts = vec![];
    for i in 0..40usize {
        parts.push((vec![i as u8; i % 7], (0..i * 13).map(|j| (j % 251) as u8).collect()));
        let bytes = serialize_proof(&parts).unwrap();
        assert_eq!(deserialize_proof(&bytes).as_ref(), Some(&parts));
        let mut longer = bytes.clone();
        longer.extend([0xff, 0, 7]);
        assert_eq!(deserialize_proof(&longer).as_ref(), Some(&parts));
        assert_eq!(deserialize_proof(&bytes[..bytes.len() - 1]), None);
    }
}

#[test]
fn bytes_that_end_too_early_hold_no_proof() {
    assert_eq!(deserialize_proof(&[]), None);
    assert_eq!(deserialize_proof(&[0u8; 7]), None);
    assert_eq!(deserialize_proof(&[1, 0, 0, 0, 0, 0, 0, 0]), None);
    assert_eq!(deserialize_proof(&[0xff; 8]), None);
    let mut bytes = vec![1u8, 0, 0, 0, 0, 0, 0, 0];
    bytes.extend([5, 0, 0, 0, 0, 0, 0, 0, 1, 2, 3, 4]);
    assert_eq!(deserialize_proof(&bytes), None);
}
