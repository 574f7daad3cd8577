//! The Blake3 circuit: one row for each compression.

use crate::config::{canonical_count, lemma_canonical_count, round_to_granularity, ConfigError};
use crate::plonky3::circuit::{Plonky3Circuit, StarkError};
use crate::plonky3::config::keccak_mt::{
    baby_bear_proof_degree_bits, baby_bear_proof_rounds, baby_bear_stark_params, folding_rounds, fits_domain, fits_field, valid_params,
    BabyBearKeccakMtConfig, BabyBearProof, BabyBearStark, BABY_BEAR_TWO_ADICITY,
};
use crate::plonky3::config::{claimed_bits, claimed_rounds, Plonky3Config};
use crate::power::{ceil_div, ceil_log2, floor_log2, lemma_floor_log2_pow2, next_pow2};
use p3_baby_bear::BabyBear;
use p3_blake3_air::Blake3Air;
use p3_matrix::dense::RowMajorMatrix;
use p3_uni_stark::VerificationError;
use rand::rngs::StdRng;
use rand::Rng;
use vstd::arithmetic::power2::*;
use vstd::prelude::*;

verus! {

/// The constraints of the Blake3 compression of Plonky3.
#[verifier::external_type_specification]
#[verifier::external_body]
pub struct ExBlake3Air(Blake3Air);

/// The rows of a number of compressions, over the Baby Bear field.
#[verifier::external_body]
pub struct Blake3Trace {
    rows: RowMajorMatrix<BabyBear>,
}

/// The trace that the generator of Plonky3 fills for inputs, with room for a
/// blow-up.
pub uninterp spec fn blake3_trace(inputs: Seq<[u32; 24]>, extra_capacity_bits: nat) -> Blake3Trace;

/// Whether `fit` are the first `count` of `items`, with zeros after them
/// where they are fewer.
pub open spec fn fitted(items: Seq<[u32; 24]>, fit: Seq<[u32; 24]>, count: nat) -> bool {
    &&& fit.len() == count
    &&& forall|i: int| 0 <= i < count && i < items.len() ==> fit[i] == items[i]
    &&& forall|i: int, j: int| items.len() <= i < count && 0 <= j < 24 ==> #[trigger] fit[i][j] == 0
}

/// The number of rows of a trace.
pub uninterp spec fn blake3_trace_rows(trace: Blake3Trace) -> nat;

/// `Blake3Air {}` is the constraints of the Blake3 compression; it has no
/// fields.
#[verifier::external_body]
fn blake3_air() -> Blake3Air {
    Blake3Air {}
}

/// `Rng::random` draws the input of a compression, 24 words, from the
/// generator.
#[verifier::external_body]
fn random_block(rng: &mut StdRng) -> [u32; 24] {
    rng.random()
}

/// `p3_blake3_air::generate_trace_rows` fills a trace with the compressions
/// of `inputs`, a row for each. It panics unless their number is a power of
/// two, and allocates the rows times two to the power `extra_capacity_bits`.
#[verifier::external_body]
fn trace_rows(inputs: Vec<[u32; 24]>, extra_capacity_bits: usize) -> (trace: Blake3Trace)
    requires
        fits_field(inputs@.len(), extra_capacity_bits as nat, BABY_BEAR_TWO_ADICITY as nat),
    ensures
        trace == blake3_trace(inputs@, extra_capacity_bits as nat),
        blake3_trace_rows(trace) == inputs@.len(),
{
    Blake3Trace { rows: p3_blake3_air::generate_trace_rows::<BabyBear>(inputs, extra_capacity_bits) }
}

/// The proof that `p3_uni_stark::prove` makes of a trace, with a
/// configuration and the constraints.
pub uninterp spec fn blake3_stark_proof(config: BabyBearStark, air: Blake3Air, trace: Blake3Trace) -> BabyBearProof;

/// What `p3_uni_stark::verify` says of a proof, with a configuration and the
/// constraints.
pub uninterp spec fn blake3_stark_verdict(config: BabyBearStark, air: Blake3Air, proof: BabyBearProof) -> Result<
    (),
    StarkError,
>;

/// `p3_uni_stark::prove` proves that the trace meets the constraints of the
/// Blake3 compression, with no public values. It takes a trace of a power of
/// two of rows that, blown up, fits a domain of the field.
#[verifier::external_body]
fn stark_prove(config: &BabyBearStark, air: &Blake3Air, trace: Blake3Trace) -> (proof: BabyBearProof)
    requires
        valid_params(baby_bear_stark_params(*config), BABY_BEAR_TWO_ADICITY as nat),
        baby_bear_stark_params(*config).trace_height == blake3_trace_rows(trace),
    ensures
        proof == blake3_stark_proof(*config, *air, trace),
{
    BabyBearProof { proof: p3_uni_stark::prove(&config.stark_config, air, trace.rows, &vec![]) }
}

/// `p3_uni_stark::verify` checks a proof against the constraints of the
/// Blake3 compression, with no public values. It takes a proof of a trace of
/// the height of the configuration. Its error comes back variant for variant,
/// the commitment scheme's error as text.
#[verifier::external_body]
fn stark_verify(config: &BabyBearStark, air: &Blake3Air, proof: &BabyBearProof) -> (verdict: Result<
    (),
    StarkError,
>)
    requires
        valid_params(baby_bear_stark_params(*config), BABY_BEAR_TWO_ADICITY as nat),
        baby_bear_proof_degree_bits(*proof) == floor_log2(
            baby_bear_stark_params(*config).trace_height as nat,
        ),
        baby_bear_proof_rounds(*proof) == folding_rounds(baby_bear_stark_params(*config)),
    ensures
        verdict == blake3_stark_verdict(*config, *air, *proof),
{
    match p3_uni_stark::verify(&config.stark_config, air, &proof.proof, &vec![]) {
        Ok(()) => Ok(()),
        Err(VerificationError::InvalidProofShape) => Err(StarkError::InvalidProofShape),
        Err(VerificationError::InvalidOpeningArgument(e)) => Err(
            StarkError::InvalidOpeningArgument(format!("{e:?}")),
        ),
        Err(VerificationError::OodEvaluationMismatch) => Err(StarkError::OodEvaluationMismatch),
        Err(VerificationError::RandomizationError) => Err(StarkError::RandomizationError),
    }
}

/// The Blake3 circuit over the Baby Bear field.
pub struct Blake3Circuit {
    air: Blake3Air,
    num_permutations: usize,
    log_blowup: usize,
}

impl Blake3Circuit {
    #[verifier::type_invariant]
    spec fn well_formed(self) -> bool {
        fits_field(
            self.num_permutations as nat,
            self.log_blowup as nat,
            BABY_BEAR_TWO_ADICITY as nat,
        )
    }

    /// The constraints of the circuit.
    pub closed spec fn constraints(&self) -> Blake3Air {
        self.air
    }

    /// The constraints of the circuit.
    pub fn air(&self) -> (air: &Blake3Air)
        ensures
            *air == self.constraints(),
    {
        &self.air
    }

    /// The logarithm of the blow-up that the trace leaves room for.
    pub fn log_blowup(&self) -> (log: usize)
        ensures
            log == self.blowup(),
    {
        self.log_blowup
    }
}

impl Plonky3Circuit<BabyBearKeccakMtConfig> for Blake3Circuit {
    type Input = Vec<[u32; 24]>;

    type Trace = Blake3Trace;

    closed spec fn count(&self) -> nat {
        self.num_permutations as nat
    }

    closed spec fn height(&self) -> nat {
        self.num_permutations as nat
    }

    closed spec fn blowup(&self) -> nat {
        self.log_blowup as nat
    }

    open spec fn holds(&self, trace: &Blake3Trace) -> bool {
        blake3_trace_rows(*trace) == self.height()
    }

    open spec fn traces(&self, input: Vec<[u32; 24]>, trace: Blake3Trace) -> bool {
        exists|fit: Seq<[u32; 24]>| #[trigger]
            fitted(input@, fit, self.count()) && trace == blake3_trace(fit, self.blowup())
    }

    open spec fn input_fits(&self, input: &Vec<[u32; 24]>) -> bool {
        input@.len() == self.count()
    }

    open spec fn proof_of(&self, config: &BabyBearKeccakMtConfig, trace: Blake3Trace) -> BabyBearProof {
        blake3_stark_proof(config.stark_config(), self.constraints(), trace)
    }

    open spec fn verdict_of(&self, config: &BabyBearKeccakMtConfig, proof: &BabyBearProof) -> Result<(), StarkError> {
        if claimed_bits(BabyBearKeccakMtConfig::encoding(proof)) == Some(
            floor_log2(config.parameters().trace_height as nat) as u64,
        ) && claimed_rounds::<BabyBearKeccakMtConfig>(proof) == Some(
            folding_rounds(config.parameters()) as usize,
        ) {
            blake3_stark_verdict(config.stark_config(), self.constraints(), *proof)
        } else {
            Err(StarkError::InvalidProofShape)
        }
    }

    open spec fn count_for(requested: nat) -> nat {
        next_pow2(requested)
    }

    open spec fn height_for(requested: nat) -> nat {
        next_pow2(requested)
    }

    open spec fn takes(requested: nat, log_blowup: nat) -> bool {
        fits_field(next_pow2(requested), log_blowup, BABY_BEAR_TWO_ADICITY as nat)
    }

    fn new(num_permutations: usize, log_blowup: usize) -> (r: Result<Self, ConfigError>)
        ensures
            fits_field(
                next_pow2(num_permutations as nat),
                log_blowup as nat,
                BABY_BEAR_TWO_ADICITY as nat,
            ) ==> r.is_ok(),
            !fits_field(
                next_pow2(num_permutations as nat),
                log_blowup as nat,
                BABY_BEAR_TWO_ADICITY as nat,
            ) ==> r matches Err(ConfigError::CountTooLarge),
            r matches Ok(circuit) ==> {
                &&& circuit.count() == next_pow2(num_permutations as nat)
                &&& circuit.height() == circuit.count()
            },
    {
        proof {
            crate::config::lemma_ceil_div(num_permutations as nat, 1);
            assert(ceil_div(num_permutations as nat, 1) == num_permutations);
            assert(canonical_count(1, num_permutations as nat) == next_pow2(
                num_permutations as nat,
            ));
            lemma_canonical_count(1, num_permutations as nat);
            lemma_floor_log2_pow2(ceil_log2(num_permutations as nat));
            if next_pow2(num_permutations as nat) > usize::MAX && fits_field(
                next_pow2(num_permutations as nat),
                log_blowup as nat,
                BABY_BEAR_TWO_ADICITY as nat,
            ) {
                lemma2_to64();
                crate::power::lemma_pow2_monotonic(
                    floor_log2(next_pow2(num_permutations as nat)),
                    27,
                );
            }
        }
        let count = match round_to_granularity(1, num_permutations) {
            Ok(count) => count,
            Err(e) => { return Err(e); },
        };
        if !fits_domain(count, log_blowup, BABY_BEAR_TWO_ADICITY) {
            return Err(ConfigError::CountTooLarge);
        }
        Ok(Blake3Circuit { air: blake3_air(), num_permutations: count, log_blowup })
    }

    fn num_permutations(&self) -> (n: usize) {
        self.num_permutations
    }

    fn trace_height(&self) -> (height: usize) {
        self.num_permutations
    }

    fn generate_input(&self, rng: &mut StdRng) -> (input: Self::Input) {
        let mut input: Vec<[u32; 24]> = Vec::new();
        let mut i: usize = 0;
        while i < self.num_permutations
            invariant
                i <= self.num_permutations,
                input@.len() == i,
            decreases self.num_permutations - i,
        {
            input.push(random_block(rng));
            i = i + 1;
        }
        input
    }

    /// The trace of the compressions of `input`, which is cut or filled up
    /// with zero blocks to the number of compressions of the circuit.
    fn generate_trace(&self, input: Self::Input) -> (trace: Blake3Trace) {
        proof {
            use_type_invariant(self);
        }
        let fit = fit_blocks(input, self.num_permutations);
        assert(fitted(input@, fit@, self.count()));
        trace_rows(fit, self.log_blowup)
    }

    fn prove(&self, config: &BabyBearKeccakMtConfig, trace: Blake3Trace) -> (proof: BabyBearProof) {
        stark_prove(config.stark(), &self.air, trace)
    }

    fn verify(&self, config: &BabyBearKeccakMtConfig, proof: &BabyBearProof) -> (verdict: Result<
        (),
        StarkError,
    >) {
        let stark = config.stark();
        let params = config.params();
        let height = params.trace_height;
        proof {
            lemma_pow2_pos(floor_log2(height as nat));
        }
        let log: usize = crate::power::ilog2(height) as usize;
        let bits = match BabyBearKeccakMtConfig::proof_degree_bits(proof) {
            Some(bits) => bits,
            None => { return Err(StarkError::InvalidProofShape); },
        };
        let rounds = match BabyBearKeccakMtConfig::proof_commit_rounds(proof) {
            Some(rounds) => rounds,
            None => { return Err(StarkError::InvalidProofShape); },
        };
        if bits == log as u64 && rounds == log - params.log_final_poly_len {
            stark_verify(stark, &self.air, proof)
        } else {
            Err(StarkError::InvalidProofShape)
        }
    }
}

/// Cuts `items` to `count` of them, or fills them up with zeros.
fn fit_blocks(items: Vec<[u32; 24]>, count: usize) -> (fit: Vec<[u32; 24]>)
    ensures
        fitted(items@, fit@, count as nat),
{
    let mut fit = items;
    fit.truncate(count);
    while fit.len() < count
        invariant
            fit@.len() <= count,
            fit@.len() < count ==> fit@.len() >= items@.len(),
            forall|i: int| 0 <= i < fit@.len() && i < items@.len() ==> fit@[i] == items@[i],
            forall|i: int, j: int|
                items@.len() <= i < fit@.len() && 0 <= j < 24 ==> #[trigger] fit@[i][j] == 0,
        decreases count - fit@.len(),
    {
        fit.push([0u32; 24]);
    }
    fit
}

} // verus!
