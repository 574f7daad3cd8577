//! The Binius workloads that prove a table of permutations: Keccak-f, the
//! Grøstl P permutation and Vision.

use crate::config::{canonical_count, lemma_canonical_count, round_to_granularity, ConfigError};
use crate::power::{
    checked_pow2, floor_log2, ilog2, lemma_floor_log2_pow2, next_pow2, ceil_div,
};
use vstd::arithmetic::power2::*;
use vstd::prelude::*;

verus! {

/// The soundness, in bits, that every Binius workload asks of its proofs.
pub const SECURITY_BITS: usize = 100;

/// The logarithm of the bytes of host memory that the table workloads hand to
/// the compute layer.
pub const LOG_HOST_MEMORY: u32 = 20;

/// The logarithm of the bytes of device memory of the Grøstl workload.
pub const GROESTL_LOG_DEVICE_MEMORY: u32 = 28;

/// The logarithm of the words that the Keccak-f workload allocates for each
/// permutation.
pub const KECCAK_LOG_WORDS_PER_PERMUTATION: u32 = 11;

/// The logarithm of the bytes of device memory that the Keccak-f workload
/// takes for each permutation.
pub const KECCAK_LOG_DEVICE_BYTES_PER_PERMUTATION: u32 = 13;

/// The logarithm of the words that the Grøstl workload allocates for each
/// permutation.
pub const GROESTL_LOG_WORDS_PER_PERMUTATION: u32 = 8;

/// The number of permutations for a request: the least power of two that
/// reaches it.
pub open spec fn binius_count(requested: nat) -> nat {
    next_pow2(requested)
}

/// Two to the power `log_per_item + log_items - log_width`, where that
/// exponent is not negative and the power fits a `usize`.
pub open spec fn scaled_len(log_per_item: nat, log_items: nat, log_width: nat) -> Option<usize> {
    if log_width <= log_per_item + log_items && pow2(
        (log_per_item + log_items - log_width) as nat,
    ) <= usize::MAX {
        Some(pow2((log_per_item + log_items - log_width) as nat) as usize)
    } else {
        None
    }
}

/// Rounds a request to a power of two.
fn power_of_two_count(requested: usize) -> (r: Result<usize, ConfigError>)
    ensures
        binius_count(requested as nat) <= usize::MAX ==> r == Ok::<usize, ConfigError>(
            binius_count(requested as nat) as usize,
        ),
        binius_count(requested as nat) > usize::MAX ==> r == Err::<usize, ConfigError>(
            ConfigError::CountTooLarge,
        ),
        r matches Ok(count) ==> count >= requested && count == pow2(floor_log2(count as nat)),
{
    proof {
        crate::config::lemma_ceil_div(requested as nat, 1);
        assert(ceil_div(requested as nat, 1) == requested);
        assert(canonical_count(1, requested as nat) == binius_count(requested as nat));
        lemma_canonical_count(1, requested as nat);
        lemma_floor_log2_pow2(crate::power::ceil_log2(requested as nat));
    }
    round_to_granularity(1, requested)
}

/// Computes [`scaled_len`].
fn compute_scaled_len(log_per_item: u32, log_items: u32, log_width: u32) -> (r: Option<usize>)
    requires
        log_per_item <= 64,
        log_items <= 64,
    ensures
        r == scaled_len(log_per_item as nat, log_items as nat, log_width as nat),
{
    if log_width > log_per_item + log_items {
        None
    } else {
        checked_pow2(log_per_item + log_items - log_width)
    }
}

/// The Keccak-f workload: a table with one row for each permutation.
pub struct BiniusKeccak {
    num_permutations: usize,
    log_inv_rate: usize,
    security_bits: usize,
}

impl BiniusKeccak {
    #[verifier::type_invariant]
    spec fn well_formed(self) -> bool {
        &&& self.num_permutations as nat == pow2(floor_log2(self.num_permutations as nat))
        &&& self.security_bits == SECURITY_BITS
    }

    /// The number of permutations in one proof.
    pub closed spec fn count(self) -> nat {
        self.num_permutations as nat
    }

    /// The logarithm of the inverse rate of the commitment scheme.
    pub closed spec fn rate(self) -> nat {
        self.log_inv_rate as nat
    }

    /// A workload of the least power of two of permutations that reaches
    /// `num_permutations`.
    pub fn new(num_permutations: usize, log_inv_rate: usize) -> (r: Result<Self, ConfigError>)
        ensures
            binius_count(num_permutations as nat) <= usize::MAX ==> r.is_ok(),
            binius_count(num_permutations as nat) > usize::MAX ==> r matches Err(
                ConfigError::CountTooLarge,
            ),
            r matches Ok(snark) ==> snark.count() == binius_count(num_permutations as nat)
                && snark.count() >= num_permutations && snark.rate() == log_inv_rate,
    {
        match power_of_two_count(num_permutations) {
            Ok(count) => Ok(
                BiniusKeccak { num_permutations: count, log_inv_rate, security_bits: SECURITY_BITS },
            ),
            Err(e) => Err(e),
        }
    }

    /// The number of permutations in one proof.
    pub fn num_permutations(&self) -> (n: usize)
        ensures
            n == self.count(),
    {
        self.num_permutations
    }

    /// The logarithm of the inverse rate of the commitment scheme.
    pub fn log_inv_rate(&self) -> (rate: usize)
        ensures
            rate == self.rate(),
    {
        self.log_inv_rate
    }

    /// The soundness asked for, in bits.
    pub fn security_bits(&self) -> (bits: usize)
        ensures
            bits == SECURITY_BITS,
    {
        proof {
            use_type_invariant(self);
        }
        self.security_bits
    }

    /// The logarithm of the number of permutations.
    pub fn log_permutations(&self) -> (log: u32)
        ensures
            pow2(log as nat) == self.count(),
            log == floor_log2(self.count()),
            log < 64,
    {
        proof {
            use_type_invariant(self);
            lemma_pow2_pos(floor_log2(self.num_permutations as nat));
        }
        ilog2(self.num_permutations)
    }

    /// The sizes of the tables of the constraint system: one table, with a
    /// row for each permutation.
    pub fn table_sizes(&self) -> (sizes: Vec<usize>)
        ensures
            sizes@ == seq![self.count() as usize],
    {
        let mut sizes: Vec<usize> = Vec::new();
        sizes.push(self.num_permutations);
        assert(sizes@ =~= seq![self.count() as usize]);
        sizes
    }

    /// The number of packed words that the witness allocator holds, where a
    /// packed word has two to the power `log_width` field elements.
    pub fn allocator_len(&self, log_width: u32) -> (len: Option<usize>)
        ensures
            len == scaled_len(
                KECCAK_LOG_WORDS_PER_PERMUTATION as nat,
                floor_log2(self.count()),
                log_width as nat,
            ),
    {
        compute_scaled_len(KECCAK_LOG_WORDS_PER_PERMUTATION, self.log_permutations(), log_width)
    }

    /// The bytes of host memory handed to the compute layer.
    pub fn host_memory_len(&self) -> (len: Option<usize>)
        ensures
            len == scaled_len(LOG_HOST_MEMORY as nat, 0, 0),
    {
        compute_scaled_len(LOG_HOST_MEMORY, 0, 0)
    }

    /// The bytes of device memory handed to the compute layer.
    pub fn device_memory_len(&self) -> (len: Option<usize>)
        ensures
            len == scaled_len(
                KECCAK_LOG_DEVICE_BYTES_PER_PERMUTATION as nat,
                floor_log2(self.count()),
                0,
            ),
    {
        compute_scaled_len(KECCAK_LOG_DEVICE_BYTES_PER_PERMUTATION, self.log_permutations(), 0)
    }
}

/// The Grøstl workload: a table with one row for each P permutation.
pub struct BiniusGroestl {
    num_permutations: usize,
    log_inv_rate: usize,
    security_bits: usize,
}

impl BiniusGroestl {
    #[verifier::type_invariant]
    spec fn well_formed(self) -> bool {
        &&& self.num_permutations as nat == pow2(floor_log2(self.num_permutations as nat))
        &&& self.security_bits == SECURITY_BITS
    }

    /// The number of permutations in one proof.
    pub closed spec fn count(self) -> nat {
        self.num_permutations as nat
    }

    /// The logarithm of the inverse rate of the commitment scheme.
    pub closed spec fn rate(self) -> nat {
        self.log_inv_rate as nat
    }

    /// A workload of the least power of two of permutations that reaches
    /// `num_permutations`.
    pub fn new(num_permutations: usize, log_inv_rate: usize) -> (r: Result<Self, ConfigError>)
        ensures
            binius_count(num_permutations as nat) <= usize::MAX ==> r.is_ok(),
            binius_count(num_permutations as nat) > usize::MAX ==> r matches Err(
                ConfigError::CountTooLarge,
            ),
            r matches Ok(snark) ==> snark.count() == binius_count(num_permutations as nat)
                && snark.count() >= num_permutations && snark.rate() == log_inv_rate,
    {
        match power_of_two_count(num_permutations) {
            Ok(count) => Ok(
                BiniusGroestl {
                    num_permutations: count,
                    log_inv_rate,
                    security_bits: SECURITY_BITS,
                },
            ),
            Err(e) => Err(e),
        }
    }

    /// The number of permutations in one proof.
    pub fn num_permutations(&self) -> (n: usize)
        ensures
            n == self.count(),
    {
        self.num_permutations
    }

    /// The logarithm of the inverse rate of the commitment scheme.
    pub fn log_inv_rate(&self) -> (rate: usize)
        ensures
            rate == self.rate(),
    {
        self.log_inv_rate
    }

    /// The soundness asked for, in bits.
    pub fn security_bits(&self) -> (bits: usize)
        ensures
            bits == SECURITY_BITS,
    {
        proof {
            use_type_invariant(self);
        }
        self.security_bits
    }

    /// The logarithm of the number of permutations.
    pub fn log_permutations(&self) -> (log: u32)
        ensures
            pow2(log as nat) == self.count(),
            log == floor_log2(self.count()),
            log < 64,
    {
        proof {
            use_type_invariant(self);
            lemma_pow2_pos(floor_log2(self.num_permutations as nat));
        }
        ilog2(self.num_permutations)
    }

    /// The sizes of the tables of the constraint system: one table, with a
    /// row for each permutation.
    pub fn table_sizes(&self) -> (sizes: Vec<usize>)
        ensures
            sizes@ == seq![self.count() as usize],
    {
        let mut sizes: Vec<usize> = Vec::new();
        sizes.push(self.num_permutations);
        assert(sizes@ =~= seq![self.count() as usize]);
        sizes
    }

    /// The number of packed words that the witness allocator holds, where a
    /// packed word has two to the power `log_width` field elements.
    pub fn allocator_len(&self, log_width: u32) -> (len: Option<usize>)
        ensures
            len == scaled_len(
                GROESTL_LOG_WORDS_PER_PERMUTATION as nat,
                floor_log2(self.count()),
                log_width as nat,
            ),
    {
        compute_scaled_len(GROESTL_LOG_WORDS_PER_PERMUTATION, self.log_permutations(), log_width)
    }

    /// The bytes of host memory handed to the compute layer.
    pub fn host_memory_len(&self) -> (len: Option<usize>)
        ensures
            len == scaled_len(LOG_HOST_MEMORY as nat, 0, 0),
    {
        compute_scaled_len(LOG_HOST_MEMORY, 0, 0)
    }

    /// The bytes of device memory handed to the compute layer.
    pub fn device_memory_len(&self) -> (len: Option<usize>)
        ensures
            len == scaled_len(GROESTL_LOG_DEVICE_MEMORY as nat, 0, 0),
    {
        compute_scaled_len(GROESTL_LOG_DEVICE_MEMORY, 0, 0)
    }
}

/// The Vision workload: a circuit with one row for each permutation.
pub struct BiniusVision {
    num_permutations: usize,
    log_inv_rate: usize,
    security_bits: usize,
}

impl BiniusVision {
    #[verifier::type_invariant]
    spec fn well_formed(self) -> bool {
        &&& self.num_permutations as nat == pow2(floor_log2(self.num_permutations as nat))
        &&& self.security_bits == SECURITY_BITS
    }

    /// The number of permutations in one proof.
    pub closed spec fn count(self) -> nat {
        self.num_permutations as nat
    }

    /// The logarithm of the inverse rate of the commitment scheme.
    pub closed spec fn rate(self) -> nat {
        self.log_inv_rate as nat
    }

    /// A workload of the least power of two of permutations that reaches
    /// `num_permutations`.
    pub fn new(num_permutations: usize, log_inv_rate: usize) -> (r: Result<Self, ConfigError>)
        ensures
            binius_count(num_permutations as nat) <= usize::MAX ==> r.is_ok(),
            binius_count(num_permutations as nat) > usize::MAX ==> r matches Err(
                ConfigError::CountTooLarge,
            ),
            r matches Ok(snark) ==> snark.count() == binius_count(num_permutations as nat)
                && snark.count() >= num_permutations && snark.rate() == log_inv_rate,
    {
        match power_of_two_count(num_permutations) {
            Ok(count) => Ok(
                BiniusVision { num_permutations: count, log_inv_rate, security_bits: SECURITY_BITS },
            ),
            Err(e) => Err(e),
        }
    }

    /// The number of permutations in one proof.
    pub fn num_permutations(&self) -> (n: usize)
        ensures
            n == self.count(),
    {
        self.num_permutations
    }

    /// The logarithm of the inverse rate of the commitment scheme.
    pub fn log_inv_rate(&self) -> (rate: usize)
        ensures
            rate == self.rate(),
    {
        self.log_inv_rate
    }

    /// The soundness asked for, in bits.
    pub fn security_bits(&self) -> (bits: usize)
        ensures
            bits == SECURITY_BITS,
    {
        proof {
            use_type_invariant(self);
        }
        self.security_bits
    }

    /// The logarithm of the number of rows of the circuit, which is that of
    /// the number of permutations.
    pub fn log_size(&self) -> (log: u32)
        ensures
            pow2(log as nat) == self.count(),
            log == floor_log2(self.count()),
            log < 64,
    {
        proof {
            use_type_invariant(self);
            lemma_pow2_pos(floor_log2(self.num_permutations as nat));
        }
        ilog2(self.num_permutations)
    }
}

} // verus!
