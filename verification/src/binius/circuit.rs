//! The Binius workload that proves Keccak-f as a circuit over bits.

use crate::binius::hash::{binius_count, SECURITY_BITS};
use crate::config::{canonical_count, lemma_canonical_count, round_to_granularity, ConfigError};
use crate::power::{ceil_div, floor_log2, ilog2, lemma_floor_log2_pow2};
use vstd::arithmetic::power2::*;
use vstd::prelude::*;

verus! {

/// The logarithm of the number of rows that one permutation takes.
pub const LOG_ROWS_PER_PERMUTATION: u32 = 6;

/// The logarithm of the inverse rate, which this workload fixes.
pub const LOG_INV_RATE: usize = 1;

/// The Keccak-f circuit workload: 64 rows of bits for each permutation.
pub struct BiniusKeccak {
    num_permutations: usize,
    log_inv_rate: usize,
    security_bits: usize,
}

impl BiniusKeccak {
    #[verifier::type_invariant]
    spec fn well_formed(self) -> bool {
        &&& self.num_permutations as nat == pow2(floor_log2(self.num_permutations as nat))
        &&& self.log_inv_rate == LOG_INV_RATE
        &&& self.security_bits == SECURITY_BITS
    }

    /// The number of permutations in one proof.
    pub closed spec fn count(self) -> nat {
        self.num_permutations as nat
    }

    /// A workload of the least power of two of permutations that reaches
    /// `num_permutations`.
    pub fn new(num_permutations: usize) -> (r: Result<Self, ConfigError>)
        ensures
            binius_count(num_permutations as nat) <= usize::MAX ==> r.is_ok(),
            binius_count(num_permutations as nat) > usize::MAX ==> r matches Err(
                ConfigError::CountTooLarge,
            ),
            r matches Ok(snark) ==> snark.count() == binius_count(num_permutations as nat)
                && snark.count() >= num_permutations,
    {
        proof {
            crate::config::lemma_ceil_div(num_permutations as nat, 1);
            assert(ceil_div(num_permutations as nat, 1) == num_permutations);
            assert(canonical_count(1, num_permutations as nat) == binius_count(
                num_permutations as nat,
            ));
            lemma_canonical_count(1, num_permutations as nat);
            lemma_floor_log2_pow2(crate::power::ceil_log2(num_permutations as nat));
        }
        match round_to_granularity(1, num_permutations) {
            Ok(count) => Ok(
                BiniusKeccak {
                    num_permutations: count,
                    log_inv_rate: LOG_INV_RATE,
                    security_bits: SECURITY_BITS,
                },
            ),
            Err(e) => Err(e),
        }
    }

    /// The number of permutations in one proof.
    pub fn num_permutations(&self) -> (n: usize)
        ensures
            n == self.count(),
    {
        self.num_permutations
    }

    /// The logarithm of the inverse rate of the commitment scheme.
    pub fn log_inv_rate(&self) -> (rate: usize)
        ensures
            rate == LOG_INV_RATE,
    {
        proof {
            use_type_invariant(self);
        }
        self.log_inv_rate
    }

    /// The soundness asked for, in bits.
    pub fn security_bits(&self) -> (bits: usize)
        ensures
            bits == SECURITY_BITS,
    {
        proof {
            use_type_invariant(self);
        }
        self.security_bits
    }

    /// The logarithm of the number of rows of the circuit.
    pub fn log_size(&self) -> (log: u32)
        ensures
            log == floor_log2(self.count()) + LOG_ROWS_PER_PERMUTATION,
            pow2(log as nat) == self.count() * pow2(LOG_ROWS_PER_PERMUTATION as nat),
    {
        proof {
            use_type_invariant(self);
            lemma_pow2_pos(floor_log2(self.num_permutations as nat));
            lemma_pow2_adds(
                floor_log2(self.num_permutations as nat),
                LOG_ROWS_PER_PERMUTATION as nat,
            );
        }
        ilog2(self.num_permutations) + LOG_ROWS_PER_PERMUTATION
    }
}

} // verus!
