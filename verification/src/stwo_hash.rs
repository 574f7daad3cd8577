//! The parameters of the Stwo workloads: Blake2s and Poseidon2 over the
//! Mersenne-31 field.

use crate::config::{canonical_count, lemma_canonical_count, round_to_granularity, ConfigError};
use crate::power::{ceil_div, floor_log2, ilog2, lemma_floor_log2_pow2};
use vstd::arithmetic::power2::*;
use vstd::prelude::*;

verus! {

/// The parameters of the low-degree test of Stwo: a structure of four public
/// numbers.
#[verifier::external_type_specification]
pub struct ExFriConfig(stwo::core::fri::FriConfig);

/// The parameters of the commitment scheme of Stwo: the bits of the proof of
/// work, the parameters of the low-degree test, and the size of the domain
/// that polynomials are lifted to, if they are; all public.
#[verifier::external_type_specification]
pub struct ExPcsConfig(stwo::core::pcs::PcsConfig);

/// The logarithm of the number of Poseidon2 instances in one row of the trace.
pub const N_LOG_INSTANCES_PER_ROW: u32 = 3;

/// The number of Poseidon2 instances in one row of the trace.
pub const INSTANCES_PER_ROW: usize = 8;

/// The soundness, in bits, that the queries of the low-degree test give
/// together.
pub const QUERY_SECURITY_BITS: usize = 256;

/// The greatest logarithm of the blow-up factor that the low-degree test
/// takes.
pub const MAX_LOG_BLOWUP_FACTOR: usize = 16;

/// The commitment scheme's parameters for a blow-up factor of two to the
/// power `log_blowup_factor`: no proof of work, a last layer of degree zero,
/// one fold in each step, and as many queries as give
/// [`QUERY_SECURITY_BITS`] at one bit for each unit of `log_blowup_factor`.
pub open spec fn pcs_config_for(log_blowup_factor: nat) -> stwo::core::pcs::PcsConfig {
    stwo::core::pcs::PcsConfig {
        pow_bits: 0,
        fri_config: stwo::core::fri::FriConfig {
            log_blowup_factor: log_blowup_factor as u32,
            log_last_layer_degree_bound: 0,
            n_queries: ceil_div(QUERY_SECURITY_BITS as nat, log_blowup_factor) as usize,
            fold_step: 1,
        },
        lifting_log_size: None,
    }
}

/// Whether the low-degree test takes a blow-up factor of two to the power
/// `log_blowup_factor`.
pub open spec fn supports_log_blowup(log_blowup_factor: nat) -> bool {
    1 <= log_blowup_factor <= MAX_LOG_BLOWUP_FACTOR
}

/// `FriConfig::new` stores its four arguments. It panics on a last layer
/// degree bound above 10, on a blow-up logarithm outside 1 to 16, and on a
/// fold step of zero.
#[verifier::external_body]
fn fri_config(
    log_last_layer_degree_bound: u32,
    log_blowup_factor: u32,
    n_queries: usize,
    fold_step: u32,
) -> (config: stwo::core::fri::FriConfig)
    requires
        log_last_layer_degree_bound <= 10,
        1 <= log_blowup_factor <= 16,
        fold_step > 0,
    ensures
        config.log_last_layer_degree_bound == log_last_layer_degree_bound,
        config.log_blowup_factor == log_blowup_factor,
        config.n_queries == n_queries,
        config.fold_step == fold_step,
{
    stwo::core::fri::FriConfig::new(
        log_last_layer_degree_bound,
        log_blowup_factor,
        n_queries,
        fold_step,
    )
}

/// The commitment scheme's parameters, or an error where the low-degree test
/// does not take the blow-up factor.
pub fn pcs_config(log_blowup_factor: usize) -> (r: Result<stwo::core::pcs::PcsConfig, ConfigError>)
    ensures
        supports_log_blowup(log_blowup_factor as nat) ==> r == Ok::<
            stwo::core::pcs::PcsConfig,
            ConfigError,
        >(pcs_config_for(log_blowup_factor as nat)),
        !supports_log_blowup(log_blowup_factor as nat) ==> r == Err::<
            stwo::core::pcs::PcsConfig,
            ConfigError,
        >(ConfigError::LogInvRateOutOfRange),
{
    if log_blowup_factor == 0 || log_blowup_factor > MAX_LOG_BLOWUP_FACTOR {
        return Err(ConfigError::LogInvRateOutOfRange);
    }
    let num_queries: usize = (QUERY_SECURITY_BITS + log_blowup_factor - 1) / log_blowup_factor;
    let fri = fri_config(0, log_blowup_factor as u32, num_queries, 1);
    Ok(stwo::core::pcs::PcsConfig { pow_bits: 0, fri_config: fri, lifting_log_size: None })
}

/// The Poseidon2 workload: a trace with eight instances in each row.
pub struct StwoPoseidon2 {
    num_permutations: usize,
    config: stwo::core::pcs::PcsConfig,
}

impl StwoPoseidon2 {
    #[verifier::type_invariant]
    spec fn well_formed(self) -> bool {
        &&& self.num_permutations as nat == pow2(floor_log2(self.num_permutations as nat))
        &&& self.num_permutations >= INSTANCES_PER_ROW
    }

    /// The number of permutations in one proof.
    pub closed spec fn count(self) -> nat {
        self.num_permutations as nat
    }

    /// The parameters of the commitment scheme.
    pub closed spec fn pcs(self) -> stwo::core::pcs::PcsConfig {
        self.config
    }

    /// A workload of the least number of permutations that reaches
    /// `num_permutations` and is eight times a power of two, with a blow-up
    /// factor of two to the power `log_inv_rate`.
    pub fn new(num_permutations: usize, log_inv_rate: usize) -> (r: Result<Self, ConfigError>)
        ensures
            canonical_count(INSTANCES_PER_ROW as nat, num_permutations as nat) > usize::MAX
                ==> r matches Err(ConfigError::CountTooLarge),
            canonical_count(INSTANCES_PER_ROW as nat, num_permutations as nat) <= usize::MAX
                && !supports_log_blowup(log_inv_rate as nat) ==> r matches Err(
                ConfigError::LogInvRateOutOfRange,
            ),
            canonical_count(INSTANCES_PER_ROW as nat, num_permutations as nat) <= usize::MAX
                && supports_log_blowup(log_inv_rate as nat) ==> r.is_ok(),
            r matches Ok(snark) ==> snark.count() == canonical_count(
                INSTANCES_PER_ROW as nat,
                num_permutations as nat,
            ) && snark.count() >= num_permutations && snark.pcs() == pcs_config_for(
                log_inv_rate as nat,
            ),
    {
        let count = match round_to_granularity(INSTANCES_PER_ROW, num_permutations) {
            Ok(count) => count,
            Err(e) => { return Err(e); },
        };
        let config = match pcs_config(log_inv_rate) {
            Ok(config) => config,
            Err(e) => { return Err(e); },
        };
        proof {
            lemma_canonical_count(INSTANCES_PER_ROW as nat, num_permutations as nat);
            let blocks = ceil_div(num_permutations as nat, INSTANCES_PER_ROW as nat);
            let e = crate::power::ceil_log2(blocks);
            lemma2_to64();
            lemma_pow2_adds(3, e);
            lemma_floor_log2_pow2(3 + e);
        }
        Ok(StwoPoseidon2 { num_permutations: count, config })
    }

    /// The number of permutations in one proof.
    pub fn num_permutations(&self) -> (n: usize)
        ensures
            n == self.count(),
    {
        self.num_permutations
    }

    /// The parameters of the commitment scheme.
    pub fn config(&self) -> (config: stwo::core::pcs::PcsConfig)
        ensures
            config == self.pcs(),
    {
        self.config
    }

    /// The logarithm of the number of permutations.
    pub fn log_n_instances(&self) -> (log: u32)
        ensures
            pow2(log as nat) == self.count(),
            log == floor_log2(self.count()),
            N_LOG_INSTANCES_PER_ROW <= log < 64,
    {
        proof {
            use_type_invariant(self);
            lemma2_to64();
            let f = floor_log2(self.num_permutations as nat);
            if f < 3 {
                crate::power::lemma_pow2_monotonic(f, 2);
            }
        }
        ilog2(self.num_permutations)
    }

    /// The logarithm of the number of rows of the trace.
    pub fn log_n_rows(&self) -> (log: u32)
        ensures
            pow2(log as nat) * INSTANCES_PER_ROW == self.count(),
            log + N_LOG_INSTANCES_PER_ROW == floor_log2(self.count()),
    {
        let log = self.log_n_instances();
        proof {
            lemma2_to64();
            lemma_pow2_adds((log - 3) as nat, 3);
        }
        log - N_LOG_INSTANCES_PER_ROW
    }
}

/// The Blake2s workload: a power of two of compressions.
pub struct StwoBlake2s {
    num_permutations: usize,
    config: stwo::core::pcs::PcsConfig,
}

impl StwoBlake2s {
    #[verifier::type_invariant]
    spec fn well_formed(self) -> bool {
        self.num_permutations as nat == pow2(floor_log2(self.num_permutations as nat))
    }

    /// The number of permutations in one proof.
    pub closed spec fn count(self) -> nat {
        self.num_permutations as nat
    }

    /// The parameters of the commitment scheme.
    pub closed spec fn pcs(self) -> stwo::core::pcs::PcsConfig {
        self.config
    }

    /// A workload of the least power of two of permutations that reaches
    /// `num_permutations`, with a blow-up factor of two to the power
    /// `log_inv_rate`.
    pub fn new(num_permutations: usize, log_inv_rate: usize) -> (r: Result<Self, ConfigError>)
        ensures
            canonical_count(1, num_permutations as nat) > usize::MAX ==> r matches Err(
                ConfigError::CountTooLarge,
            ),
            canonical_count(1, num_permutations as nat) <= usize::MAX && !supports_log_blowup(
                log_inv_rate as nat,
            ) ==> r matches Err(ConfigError::LogInvRateOutOfRange),
            canonical_count(1, num_permutations as nat) <= usize::MAX && supports_log_blowup(
                log_inv_rate as nat,
            ) ==> r.is_ok(),
            r matches Ok(snark) ==> snark.count() == canonical_count(1, num_permutations as nat)
                && snark.count() >= num_permutations && snark.pcs() == pcs_config_for(
                log_inv_rate as nat,
            ),
    {
        let count = match round_to_granularity(1, num_permutations) {
            Ok(count) => count,
            Err(e) => { return Err(e); },
        };
        let config = match pcs_config(log_inv_rate) {
            Ok(config) => config,
            Err(e) => { return Err(e); },
        };
        proof {
            lemma_canonical_count(1, num_permutations as nat);
            let blocks = ceil_div(num_permutations as nat, 1);
            lemma_floor_log2_pow2(crate::power::ceil_log2(blocks));
        }
        Ok(StwoBlake2s { num_permutations: count, config })
    }

    /// The number of permutations in one proof.
    pub fn num_permutations(&self) -> (n: usize)
        ensures
            n == self.count(),
    {
        self.num_permutations
    }

    /// The parameters of the commitment scheme.
    pub fn config(&self) -> (config: stwo::core::pcs::PcsConfig)
        ensures
            config == self.pcs(),
    {
        self.config
    }

    /// The logarithm of the number of permutations.
    pub fn log_size(&self) -> (log: u32)
        ensures
            pow2(log as nat) == self.count(),
            log == floor_log2(self.count()),
    {
        proof {
            use_type_invariant(self);
            lemma_pow2_pos(floor_log2(self.num_permutations as nat));
        }
        ilog2(self.num_permutations)
    }
}

} // verus!
