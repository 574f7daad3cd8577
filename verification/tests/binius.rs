use bench::binius::circuit::BiniusKeccak as CircuitKeccak;
use bench::binius::hash::{BiniusGroestl, BiniusKeccak, BiniusVision};
use bench::config::ConfigError;

#[test]
fn keccak_requested_at_1000_rounds_to_1024() {
    let snark = BiniusKeccak::new(1000, 1).unwrap();
    assert_eq!(snark.num_permutations(), 1024);
    assert_eq!(snark.log_permutations(), 10);
    assert_eq!(snark.log_inv_rate(), 1);
    assert_eq!(snark.security_bits(), 100);
    assert_eq!(snark.table_sizes(), vec![1024]);
}

#[test]
fn every_binius_workload_rounds_to_a_power_of_two() {
    for requested in 0..3000usize {
        let expected = requested.next_power_of_two();
        assert_eq!(BiniusKeccak::new(requested, 2).unwrap().num_permutations(), expected);
        assert_eq!(BiniusGroestl::new(requested, 2).unwrap().num_permutations(), expected);
        assert_eq!(BiniusVision::new(requested, 2).unwrap().num_permutations(), expected);
        assert_eq!(CircuitKeccak::new(requested).unwrap().num_permutations(), expected);
    }
}

#[test]
fn a_count_beyond_the_word_is_refused() {
    assert!(matches!(BiniusKeccak::new(usize::MAX, 1), Err(ConfigError::CountTooLarge)));
    assert!(matches!(BiniusGroestl::new(usize::MAX, 1), Err(ConfigError::CountTooLarge)));
    assert!(matches!(BiniusVision::new(usize::MAX, 1), Err(ConfigError::CountTooLarge)));
    assert!(matches!(CircuitKeccak::new(usize::MAX), Err(ConfigError::CountTooLarge)));
    let top = 1usize << (usize::BITS - 1);
    assert_eq!(BiniusKeccak::new(top, 1).unwrap().num_permutations(), top);
    assert!(matches!(BiniusKeccak::new(top + 1, 1), Err(ConfigError::CountTooLarge)));
}

#[test]
fn keccak_memory_grows_with_the_permutations() {
    let snark = BiniusKeccak::new(1 << 10, 3).unwrap();
    assert_eq!(snark.log_inv_rate(), 3);
    assert_eq!(snark.allocator_len(0), Some(1 << 21));
    assert_eq!(snark.allocator_len(2), Some(1 << 19));
    assert_eq!(snark.allocator_len(21), Some(1));
    assert_eq!(snark.allocator_len(22), None);
    assert_eq!(snark.host_memory_len(), Some(1 << 20));
    assert_eq!(snark.device_memory_len(), Some(1 << 23));
    let huge = BiniusKeccak::new(1usize << (usize::BITS - 11), 1).unwrap();
    assert_eq!(huge.allocator_len(0), None);
    assert_eq!(huge.allocator_len(1), Some(1usize << (usize::BITS - 1)));
    assert_eq!(huge.device_memory_len(), None);
}

#[test]
fn groestl_memory_is_fixed_on_the_device() {
    let snark = BiniusGroestl::new(1 << 12, 1).unwrap();
    assert_eq!(snark.log_permutations(), 12);
    assert_eq!(snark.allocator_len(1), Some(1 << 19));
    assert_eq!(snark.host_memory_len(), Some(1 << 20));
    assert_eq!(snark.device_memory_len(), Some(1 << 28));
    assert_eq!(snark.table_sizes(), vec![4096]);
    assert_eq!(snark.security_bits(), 100);
}

#[test]
fn vision_has_a_row_for_each_permutation() {
    let snark = BiniusVision::new(5000, 1).unwrap();
    assert_eq!(snark.num_permutations(), 8192);
    assert_eq!(snark.log_size(), 13);
    assert_eq!(snark.security_bits(), 100);
    assert_eq!(snark.log_inv_rate(), 1);
}

#[test]
fn circuit_keccak_has_64_rows_for_each_permutation() {
    let snark = CircuitKeccak::new(1000).unwrap();
    assert_eq!(snark.num_permutations(), 1024);
    assert_eq!(snark.log_size(), 16);
    assert_eq!(snark.log_inv_rate(), 1);
    assert_eq!(snark.security_bits(), 100);
    assert_eq!(CircuitKeccak::new(1).unwrap().log_size(), 6);
}
