//! The parameters of the Hashcaster workload for Keccak-f.

use crate::config::{canonical_count, lemma_canonical_count, round_to_granularity, ConfigError};
use crate::hashcaster::util::SumcheckProof;
use crate::power::{ceil_div, ceil_log2, floor_log2, ilog2, lemma_floor_log2_unique};
use vstd::arithmetic::power2::*;
use vstd::prelude::*;

verus! {

/// The number of variables that one permutation adds to those of the batch.
pub const NUM_VARS_PER_PERMUTATIONS: u32 = 2;

/// The number of variables that the first phase of the check of the
/// non-linear layer binds at once.
pub const BOOL_CHECK_C: usize = 5;

/// The number of variables that the check of the linear layer runs over.
pub const LIN_CHECK_NUM_VARS: usize = 10;

/// The number of polynomials in the state of the permutation.
pub const STATE_POLYS: usize = 5;

/// The number of rounds of Keccak-f.
pub const ROUNDS: usize = 24;

/// The number of bits of a field element.
pub const FIELD_BITS: usize = 128;

/// The soundness, in bits, that the workload asks of its proofs.
pub const SECURITY_BITS: usize = 100;

/// The least number of permutations of a batch.
pub const MIN_PERMUTATIONS: usize = 384;

/// The number of permutations for a request: the least count that is three
/// times a power of two, reaches the request and is at least
/// [`MIN_PERMUTATIONS`].
pub open spec fn hashcaster_count(requested: nat) -> nat {
    canonical_count(
        3,
        if requested < MIN_PERMUTATIONS {
            MIN_PERMUTATIONS as nat
        } else {
            requested
        },
    )
}

/// The Hashcaster workload for Keccak-f: five polynomials whose number of
/// variables grows with the number of permutations.
pub struct HashcasterKeccak {
    num_permutations: usize,
    log_inv_rate: usize,
}

impl HashcasterKeccak {
    #[verifier::type_invariant]
    spec fn well_formed(self) -> bool {
        &&& self.num_permutations >= MIN_PERMUTATIONS
        &&& self.num_permutations as nat == 3 * pow2(
            (floor_log2(self.num_permutations as nat) - 1) as nat,
        )
    }

    /// The number of permutations in one proof.
    pub closed spec fn count(self) -> nat {
        self.num_permutations as nat
    }

    /// The logarithm of the inverse rate of the commitment scheme.
    pub closed spec fn rate(self) -> nat {
        self.log_inv_rate as nat
    }

    /// A workload of [`hashcaster_count`] permutations.
    pub fn new(num_permutations: usize, log_inv_rate: usize) -> (r: Result<Self, ConfigError>)
        ensures
            hashcaster_count(num_permutations as nat) <= usize::MAX ==> r.is_ok(),
            hashcaster_count(num_permutations as nat) > usize::MAX ==> r matches Err(
                ConfigError::CountTooLarge,
            ),
            r matches Ok(snark) ==> snark.count() == hashcaster_count(num_permutations as nat)
                && snark.count() >= num_permutations && snark.count() >= MIN_PERMUTATIONS
                && snark.rate() == log_inv_rate,
    {
        let at_least: usize = if num_permutations < MIN_PERMUTATIONS {
            MIN_PERMUTATIONS
        } else {
            num_permutations
        };
        let count = match round_to_granularity(3, at_least) {
            Ok(count) => count,
            Err(e) => { return Err(e); },
        };
        proof {
            lemma_canonical_count(3, at_least as nat);
            let e = ceil_log2(ceil_div(at_least as nat, 3));
            lemma_three_times_pow2(e);
        }
        Ok(HashcasterKeccak { num_permutations: count, log_inv_rate })
    }

    /// The number of permutations in one proof.
    pub fn num_permutations(&self) -> (n: usize)
        ensures
            n == self.count(),
    {
        self.num_permutations
    }

    /// The logarithm of the inverse rate of the commitment scheme.
    pub fn log_inv_rate(&self) -> (rate: usize)
        ensures
            rate == self.rate(),
    {
        self.log_inv_rate
    }

    /// The soundness asked for, in bits.
    pub fn security_bits(&self) -> (bits: usize)
        ensures
            bits == SECURITY_BITS,
    {
        SECURITY_BITS
    }

    /// The logarithm of the number of polynomials that the commitment scheme
    /// commits to at once: that of the least power of two that holds the
    /// polynomials of the state.
    pub fn log_batch_size(&self) -> (log: usize)
        ensures
            log == ceil_log2(STATE_POLYS as nat),
            log == 3,
    {
        proof {
            assert(ceil_log2(1) == 0);
            assert(ceil_log2(2) == 1 + ceil_log2(1));
            assert(ceil_log2(3) == 1 + ceil_log2(2));
            assert(ceil_log2(5) == 1 + ceil_log2(3));
        }
        crate::power::log2_ceil(STATE_POLYS) as usize
    }

    /// The number of variables of each polynomial of the state.
    pub fn num_vars(&self) -> (n: usize)
        ensures
            n == floor_log2(self.count()) + NUM_VARS_PER_PERMUTATIONS,
            3 * pow2((n - 3) as nat) == self.count(),
            LIN_CHECK_NUM_VARS <= n < 66,
    {
        proof {
            use_type_invariant(self);
            lemma2_to64();
            let f = floor_log2(self.num_permutations as nat);
            crate::power::lemma_floor_log2_bounds(self.num_permutations as nat);
            if f < 8 {
                crate::power::lemma_pow2_monotonic(f + 1, 8);
            }
        }
        let log = ilog2(self.num_permutations);
        (log + NUM_VARS_PER_PERMUTATIONS) as usize
    }

    /// Whether the two sum-check proofs of a non-linear layer have the shape
    /// that the verifier reads: a round for each variable, with three and two
    /// coefficients, and an evaluation for each bit of each polynomial and for
    /// each polynomial.
    pub fn chi_proofs_shaped(
        &self,
        bool_check_proof: &SumcheckProof,
        multi_open_proof: &SumcheckProof,
    ) -> (ok: bool)
        ensures
            ok == (bool_check_proof.shaped(
                (floor_log2(self.count()) + NUM_VARS_PER_PERMUTATIONS) as nat,
                3,
                (FIELD_BITS * STATE_POLYS) as nat,
            ) && multi_open_proof.shaped(
                (floor_log2(self.count()) + NUM_VARS_PER_PERMUTATIONS) as nat,
                2,
                STATE_POLYS as nat,
            )),
    {
        let num_vars = self.num_vars();
        bool_check_proof.has_shape(num_vars, 3, FIELD_BITS * STATE_POLYS)
            && multi_open_proof.has_shape(num_vars, 2, STATE_POLYS)
    }

    /// Whether the sum-check proof of a linear layer has the shape that the
    /// verifier reads: [`LIN_CHECK_NUM_VARS`] rounds of two coefficients and
    /// an evaluation for each polynomial.
    pub fn lin_proof_shaped(&self, lin_check_proof: &SumcheckProof) -> (ok: bool)
        ensures
            ok == lin_check_proof.shaped(LIN_CHECK_NUM_VARS as nat, 2, STATE_POLYS as nat),
    {
        lin_check_proof.has_shape(LIN_CHECK_NUM_VARS, 2, STATE_POLYS)
    }
}

/// The point that the check of a linear layer leaves: the challenges of its
/// rounds, then what the point it started from holds after its first
/// [`LIN_CHECK_NUM_VARS`] coordinates.
pub open spec fn lin_point(challenges: Seq<u128>, point: Seq<u128>) -> Seq<u128> {
    challenges + point.subrange(LIN_CHECK_NUM_VARS as int, point.len() as int)
}

/// Computes [`lin_point`].
pub fn next_lin_point(challenges: Vec<u128>, point: &Vec<u128>) -> (next: Vec<u128>)
    requires
        point@.len() >= LIN_CHECK_NUM_VARS,
    ensures
        next@ == lin_point(challenges@, point@),
{
    let mut next = challenges;
    let mut i: usize = LIN_CHECK_NUM_VARS;
    while i < point.len()
        invariant
            LIN_CHECK_NUM_VARS <= i <= point@.len(),
            next@ == challenges@ + point@.subrange(LIN_CHECK_NUM_VARS as int, i as int),
        decreases point@.len() - i,
    {
        next.push(point[i]);
        i = i + 1;
        assert(next@ =~= challenges@ + point@.subrange(LIN_CHECK_NUM_VARS as int, i as int));
    }
    next
}

/// Three times a power of two has the binary logarithm of twice that power.
pub proof fn lemma_three_times_pow2(e: nat)
    ensures
        floor_log2(3 * pow2(e)) == e + 1,
{
    lemma_pow2_pos(e);
    crate::power::lemma_pow2_double(e);
    crate::power::lemma_pow2_double(e + 1);
    lemma_floor_log2_unique(3 * pow2(e), e + 1);
}

} // verus!
