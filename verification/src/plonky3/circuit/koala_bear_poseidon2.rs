//! The Poseidon2 circuit over the Koala Bear field: eight permutations of
//! width 16 in each row.

use crate::config::{canonical_count, lemma_canonical_count, round_to_granularity, ConfigError};
use crate::plonky3::circuit::{Plonky3Circuit, StarkError};
use crate::plonky3::config::keccak_mt::{
    fits_domain, fits_field, koala_bear_proof_degree_bits, koala_bear_proof_rounds, koala_bear_stark_params, folding_rounds, valid_params,
    KoalaBearKeccakMtConfig, KoalaBearProof, KoalaBearStark, KOALA_BEAR_TWO_ADICITY,
};
use crate::plonky3::config::{claimed_bits, claimed_rounds, Plonky3Config};
use crate::power::{ceil_div, ceil_log2, floor_log2, lemma_floor_log2_pow2};
use p3_field::PrimeField32;
use p3_koala_bear::{GenericPoseidon2LinearLayersKoalaBear, KoalaBear};
use p3_matrix::dense::RowMajorMatrix;
use p3_poseidon2_air::{RoundConstants, VectorizedPoseidon2Air};
use p3_uni_stark::VerificationError;
use rand::rngs::StdRng;
use rand::Rng;
use vstd::arithmetic::power2::*;
use vstd::prelude::*;

verus! {

/// The number of field elements of the state.
pub const WIDTH: usize = 16;

/// The degree of the S-box.
pub const SBOX_DEGREE: u64 = 3;

/// The number of columns that hold the steps of an S-box.
pub const SBOX_REGISTERS: usize = 0;

/// The number of full rounds at either end.
pub const HALF_FULL_ROUNDS: usize = 4;

/// The number of partial rounds.
pub const PARTIAL_ROUNDS: usize = 20;

/// The number of permutations in one row.
pub const VECTOR_LEN: usize = 8;

pub type Constants = RoundConstants<KoalaBear, WIDTH, HALF_FULL_ROUNDS, PARTIAL_ROUNDS>;

pub type KoalaBearPoseidon2Air = VectorizedPoseidon2Air<
    KoalaBear,
    GenericPoseidon2LinearLayersKoalaBear,
    WIDTH,
    SBOX_DEGREE,
    SBOX_REGISTERS,
    HALF_FULL_ROUNDS,
    PARTIAL_ROUNDS,
    VECTOR_LEN,
>;

/// The round constants of a Poseidon2 permutation.
#[verifier::external_body]
pub struct Poseidon2Constants {
    constants: Constants,
}

/// The constraints of eight Poseidon2 permutations in a row.
#[verifier::external_body]
pub struct Poseidon2Air {
    air: KoalaBearPoseidon2Air,
}

/// The rows of a number of permutations, eight in a row, over the Koala Bear
/// field, beside the round constants that the permutations were run with.
#[verifier::external_body]
pub struct Poseidon2Trace {
    rows: RowMajorMatrix<KoalaBear>,
    constants: Constants,
}

/// The trace that the generator of Plonky3 fills for inputs, with room for a
/// blow-up.
pub uninterp spec fn poseidon2_trace(
    inputs: Seq<[u32; 16]>,
    constants: Poseidon2Constants,
    extra_capacity_bits: nat,
) -> Poseidon2Trace;

/// Whether `fit` are the first `count` of `items`, with zeros after them
/// where they are fewer.
pub open spec fn fitted(items: Seq<[u32; 16]>, fit: Seq<[u32; 16]>, count: nat) -> bool {
    &&& fit.len() == count
    &&& forall|i: int| 0 <= i < count && i < items.len() ==> fit[i] == items[i]
    &&& forall|i: int, j: int| items.len() <= i < count && 0 <= j < 16 ==> #[trigger] fit[i][j] == 0
}

/// The number of rows of a trace.
pub uninterp spec fn poseidon2_trace_rows(trace: Poseidon2Trace) -> nat;

/// The round constants of the permutations that a trace holds, which it holds
/// beside its rows.
pub uninterp spec fn poseidon2_trace_constants(trace: Poseidon2Trace) -> Poseidon2Constants;

/// The round constants of the permutations that the constraints are for.
pub uninterp spec fn poseidon2_air_constants(air: Poseidon2Air) -> Poseidon2Constants;

/// The number of permutations for a request: the least count that is
/// [`VECTOR_LEN`] times a power of two and reaches the request.
pub open spec fn poseidon2_count(requested: nat) -> nat {
    canonical_count(VECTOR_LEN as nat, requested)
}

/// Whether the field takes the trace of a request with a blow-up by two to the
/// power `log_blowup`.
pub open spec fn poseidon2_fits(requested: nat, log_blowup: nat) -> bool {
    fits_field(
        poseidon2_count(requested) / (VECTOR_LEN as nat),
        log_blowup,
        KOALA_BEAR_TWO_ADICITY as nat,
    )
}

/// `RoundConstants::from_rng` draws the constants of every round from the
/// generator.
#[verifier::external_body]
fn round_constants(rng: &mut StdRng) -> Poseidon2Constants {
    Poseidon2Constants { constants: RoundConstants::from_rng(rng) }
}

/// `VectorizedPoseidon2Air::new` stores the round constants.
#[verifier::external_body]
fn vectorized_air(constants: &Poseidon2Constants) -> (air: Poseidon2Air)
    ensures
        poseidon2_air_constants(air) == *constants,
{
    Poseidon2Air { air: VectorizedPoseidon2Air::new(constants.constants.clone()) }
}

/// `Rng::random` draws a state of 16 field elements from the generator. Each
/// comes back as the integer below the field's order that stands for it.
#[verifier::external_body]
fn random_state(rng: &mut StdRng) -> [u32; 16] {
    rng.random::<[KoalaBear; WIDTH]>().map(|x| x.as_canonical_u32())
}

/// `p3_poseidon2_air::generate_vectorized_trace_rows` fills a trace with the
/// permutations of `inputs`, eight in a row. It panics unless their number is
/// eight times a power of two, and allocates the rows times two to the power
/// `extra_capacity_bits`.
#[verifier::external_body]
fn trace_rows(
    inputs: Vec<[u32; 16]>,
    constants: &Poseidon2Constants,
    extra_capacity_bits: usize,
) -> (trace: Poseidon2Trace)
    requires
        inputs@.len() % VECTOR_LEN as nat == 0,
        fits_field(
            inputs@.len() / VECTOR_LEN as nat,
            extra_capacity_bits as nat,
            KOALA_BEAR_TWO_ADICITY as nat,
        ),
    ensures
        trace == poseidon2_trace(inputs@, *constants, extra_capacity_bits as nat),
        poseidon2_trace_rows(trace) == inputs@.len() / VECTOR_LEN as nat,
        poseidon2_trace_constants(trace) == *constants,
{
    let states = inputs.into_iter().map(|state| state.map(KoalaBear::new)).collect();
    Poseidon2Trace {
        rows: p3_poseidon2_air::generate_vectorized_trace_rows::<
            KoalaBear,
            GenericPoseidon2LinearLayersKoalaBear,
            WIDTH,
            SBOX_DEGREE,
            SBOX_REGISTERS,
            HALF_FULL_ROUNDS,
            PARTIAL_ROUNDS,
            VECTOR_LEN,
        >(states, &constants.constants, extra_capacity_bits),
        constants: constants.constants.clone(),
    }
}

/// The proof that `p3_uni_stark::prove` makes of a trace, with a
/// configuration and the constraints.
pub uninterp spec fn poseidon2_stark_proof(config: KoalaBearStark, air: Poseidon2Air, trace: Poseidon2Trace) -> KoalaBearProof;

/// What `p3_uni_stark::verify` says of a proof, with a configuration and the
/// constraints.
pub uninterp spec fn poseidon2_stark_verdict(config: KoalaBearStark, air: Poseidon2Air, proof: KoalaBearProof) -> Result<
    (),
    StarkError,
>;

/// `p3_uni_stark::prove` proves that the trace meets the constraints of
/// Poseidon2, with no public values. It takes a trace of a power of two of
/// rows that, blown up, fits a domain of the field, and that holds
/// permutations of the round constants of the constraints.
#[verifier::external_body]
fn stark_prove(config: &KoalaBearStark, air: &Poseidon2Air, trace: Poseidon2Trace) -> (proof: KoalaBearProof)
    requires
        valid_params(koala_bear_stark_params(*config), KOALA_BEAR_TWO_ADICITY as nat),
        koala_bear_stark_params(*config).trace_height == poseidon2_trace_rows(trace),
        poseidon2_air_constants(*air) == poseidon2_trace_constants(trace),
    ensures
        proof == poseidon2_stark_proof(*config, *air, trace),
{
    KoalaBearProof { proof: p3_uni_stark::prove(&config.stark_config, &air.air, trace.rows, &vec![]) }
}

/// `p3_uni_stark::verify` checks a proof against the constraints of
/// Poseidon2, with no public values. It takes a proof of a trace of the
/// height of the configuration. Its error comes back variant for variant, the
/// commitment scheme's error as text.
#[verifier::external_body]
fn stark_verify(config: &KoalaBearStark, air: &Poseidon2Air, proof: &KoalaBearProof) -> (verdict: Result<
    (),
    StarkError,
>)
    requires
        valid_params(koala_bear_stark_params(*config), KOALA_BEAR_TWO_ADICITY as nat),
        koala_bear_proof_degree_bits(*proof) == floor_log2(
            koala_bear_stark_params(*config).trace_height as nat,
        ),
        koala_bear_proof_rounds(*proof) == folding_rounds(koala_bear_stark_params(*config)),
    ensures
        verdict == poseidon2_stark_verdict(*config, *air, *proof),
{
    match p3_uni_stark::verify(&config.stark_config, &air.air, &proof.proof, &vec![]) {
        Ok(()) => Ok(()),
        Err(VerificationError::InvalidProofShape) => Err(StarkError::InvalidProofShape),
        Err(VerificationError::InvalidOpeningArgument(e)) => Err(
            StarkError::InvalidOpeningArgument(format!("{e:?}")),
        ),
        Err(VerificationError::OodEvaluationMismatch) => Err(StarkError::OodEvaluationMismatch),
        Err(VerificationError::RandomizationError) => Err(StarkError::RandomizationError),
    }
}

/// The Poseidon2 circuit over the Koala Bear field.
pub struct KoalaBearPoseidon2Circuit {
    constants: Poseidon2Constants,
    air: Poseidon2Air,
    num_permutations: usize,
    log_blowup: usize,
}

impl KoalaBearPoseidon2Circuit {
    #[verifier::type_invariant]
    spec fn well_formed(self) -> bool {
        &&& poseidon2_air_constants(self.air) == self.constants
        &&& self.num_permutations % VECTOR_LEN == 0
        &&& fits_field(
            (self.num_permutations / VECTOR_LEN) as nat,
            self.log_blowup as nat,
            KOALA_BEAR_TWO_ADICITY as nat,
        )
    }

    /// The round constants of the circuit's permutations.
    pub closed spec fn round_constants(&self) -> Poseidon2Constants {
        self.constants
    }

    /// The constraints of the circuit.
    pub closed spec fn constraints(&self) -> Poseidon2Air {
        self.air
    }

    /// The constraints of the circuit.
    pub fn air(&self) -> (air: &Poseidon2Air)
        ensures
            *air == self.constraints(),
            poseidon2_air_constants(*air) == self.round_constants(),
    {
        proof {
            use_type_invariant(self);
        }
        &self.air
    }

    /// The logarithm of the blow-up that the trace leaves room for.
    pub fn log_blowup(&self) -> (log: usize)
        ensures
            log == self.blowup(),
    {
        self.log_blowup
    }

    /// The circuit for [`poseidon2_count`] permutations, with round constants
    /// drawn from `rng`.
    pub fn with_rng(num_permutations: usize, log_blowup: usize, rng: &mut StdRng) -> (r: Result<
        Self,
        ConfigError,
    >)
        ensures
            poseidon2_fits(num_permutations as nat, log_blowup as nat) ==> r.is_ok(),
            !poseidon2_fits(num_permutations as nat, log_blowup as nat) ==> r matches Err(
                ConfigError::CountTooLarge,
            ),
            r matches Ok(circuit) ==> {
                &&& circuit.count() == poseidon2_count(num_permutations as nat)
                &&& circuit.count() >= num_permutations
                &&& circuit.height() * VECTOR_LEN == circuit.count()
                &&& circuit.blowup() == log_blowup
            },
    {
        proof {
            lemma_canonical_count(VECTOR_LEN as nat, num_permutations as nat);
            let e = ceil_log2(ceil_div(num_permutations as nat, VECTOR_LEN as nat));
            lemma_floor_log2_pow2(e);
            lemma_pow2_pos(e);
            vstd::arithmetic::div_mod::lemma_fundamental_div_mod_converse(
                poseidon2_count(num_permutations as nat) as int,
                8,
                pow2(e) as int,
                0,
            );
            if poseidon2_count(num_permutations as nat) > usize::MAX && poseidon2_fits(
                num_permutations as nat,
                log_blowup as nat,
            ) {
                lemma2_to64();
                crate::power::lemma_pow2_monotonic(e, 24);
            }
        }
        let count = match round_to_granularity(VECTOR_LEN, num_permutations) {
            Ok(count) => count,
            Err(e) => { return Err(e); },
        };
        if !fits_domain(count / VECTOR_LEN, log_blowup, KOALA_BEAR_TWO_ADICITY) {
            return Err(ConfigError::CountTooLarge);
        }
        let constants = round_constants(rng);
        let air = vectorized_air(&constants);
        Ok(KoalaBearPoseidon2Circuit { constants, air, num_permutations: count, log_blowup })
    }
}

impl Plonky3Circuit<KoalaBearKeccakMtConfig> for KoalaBearPoseidon2Circuit {
    type Input = Vec<[u32; 16]>;

    type Trace = Poseidon2Trace;

    closed spec fn count(&self) -> nat {
        self.num_permutations as nat
    }

    closed spec fn height(&self) -> nat {
        (self.num_permutations / VECTOR_LEN) as nat
    }

    closed spec fn blowup(&self) -> nat {
        self.log_blowup as nat
    }

    open spec fn holds(&self, trace: &Poseidon2Trace) -> bool {
        &&& poseidon2_trace_rows(*trace) == self.height()
        &&& poseidon2_trace_constants(*trace) == self.round_constants()
    }

    open spec fn traces(&self, input: Vec<[u32; 16]>, trace: Poseidon2Trace) -> bool {
        exists|fit: Seq<[u32; 16]>| #[trigger]
            fitted(input@, fit, self.count()) && trace == poseidon2_trace(fit, self.round_constants(), self.blowup())
    }

    open spec fn input_fits(&self, input: &Vec<[u32; 16]>) -> bool {
        input@.len() == self.count()
    }

    open spec fn proof_of(&self, config: &KoalaBearKeccakMtConfig, trace: Poseidon2Trace) -> KoalaBearProof {
        poseidon2_stark_proof(config.stark_config(), self.constraints(), trace)
    }

    open spec fn verdict_of(&self, config: &KoalaBearKeccakMtConfig, proof: &KoalaBearProof) -> Result<(), StarkError> {
        if claimed_bits(KoalaBearKeccakMtConfig::encoding(proof)) == Some(
            floor_log2(config.parameters().trace_height as nat) as u64,
        ) && claimed_rounds::<KoalaBearKeccakMtConfig>(proof) == Some(
            folding_rounds(config.parameters()) as usize,
        ) {
            poseidon2_stark_verdict(config.stark_config(), self.constraints(), *proof)
        } else {
            Err(StarkError::InvalidProofShape)
        }
    }

    open spec fn count_for(requested: nat) -> nat {
        poseidon2_count(requested)
    }

    open spec fn height_for(requested: nat) -> nat {
        poseidon2_count(requested) / (VECTOR_LEN as nat)
    }

    open spec fn takes(requested: nat, log_blowup: nat) -> bool {
        poseidon2_fits(requested, log_blowup)
    }

    /// The circuit for [`poseidon2_count`] permutations, with round constants
    /// drawn from the system's randomness.
    fn new(num_permutations: usize, log_blowup: usize) -> (r: Result<Self, ConfigError>)
        ensures
            r matches Ok(circuit) ==> {
                &&& circuit.count() == poseidon2_count(num_permutations as nat)
                &&& circuit.height() * VECTOR_LEN == circuit.count()
            },
            r matches Err(e) ==> e is RandomSource || (e is CountTooLarge && !poseidon2_fits(
                num_permutations as nat,
                log_blowup as nat,
            )),
    {
        let mut rng = match crate::workload::entropy_rng() {
            Some(rng) => rng,
            None => { return Err(ConfigError::RandomSource); },
        };
        Self::with_rng(num_permutations, log_blowup, &mut rng)
    }

    fn num_permutations(&self) -> (n: usize) {
        self.num_permutations
    }

    fn trace_height(&self) -> (height: usize) {
        self.num_permutations / VECTOR_LEN
    }

    fn generate_input(&self, rng: &mut StdRng) -> (input: Self::Input) {
        let mut input: Vec<[u32; 16]> = Vec::new();
        let mut i: usize = 0;
        while i < self.num_permutations
            invariant
                i <= self.num_permutations,
                input@.len() == i,
            decreases self.num_permutations - i,
        {
            input.push(random_state(rng));
            i = i + 1;
        }
        input
    }

    /// The trace of the permutations of `input`, which is cut or filled up
    /// with zero states to the number of permutations of the circuit.
    fn generate_trace(&self, input: Self::Input) -> (trace: Poseidon2Trace) {
        proof {
            use_type_invariant(self);
        }
        let fit = fit_states(input, self.num_permutations);
        assert(fitted(input@, fit@, self.count()));
        trace_rows(fit, &self.constants, self.log_blowup)
    }

    fn prove(&self, config: &KoalaBearKeccakMtConfig, trace: Poseidon2Trace) -> (proof: KoalaBearProof) {
        proof {
            use_type_invariant(self);
        }
        stark_prove(config.stark(), &self.air, trace)
    }

    fn verify(&self, config: &KoalaBearKeccakMtConfig, proof: &KoalaBearProof) -> (verdict: Result<
        (),
        StarkError,
    >) {
        let stark = config.stark();
        let params = config.params();
        let height = params.trace_height;
        proof {
            lemma_pow2_pos(floor_log2(height as nat));
        }
        let log: usize = crate::power::ilog2(height) as usize;
        let bits = match KoalaBearKeccakMtConfig::proof_degree_bits(proof) {
            Some(bits) => bits,
            None => { return Err(StarkError::InvalidProofShape); },
        };
        let rounds = match KoalaBearKeccakMtConfig::proof_commit_rounds(proof) {
            Some(rounds) => rounds,
            None => { return Err(StarkError::InvalidProofShape); },
        };
        if bits == log as u64 && rounds == log - params.log_final_poly_len {
            stark_verify(stark, &self.air, proof)
        } else {
            Err(StarkError::InvalidProofShape)
        }
    }
}

/// Cuts `items` to `count` of them, or fills them up with zeros.
fn fit_states(items: Vec<[u32; 16]>, count: usize) -> (fit: Vec<[u32; 16]>)
    ensures
        fitted(items@, fit@, count as nat),
{
    let mut fit = items;
    fit.truncate(count);
    while fit.len() < count
        invariant
            fit@.len() <= count,
            fit@.len() < count ==> fit@.len() >= items@.len(),
            forall|i: int| 0 <= i < fit@.len() && i < items@.len() ==> fit@[i] == items@[i],
            forall|i: int, j: int|
                items@.len() <= i < fit@.len() && 0 <= j < 16 ==> #[trigger] fit@[i][j] == 0,
        decreases count - fit@.len(),
    {
        fit.push([0u32; 16]);
    }
    fit
}

} // verus!
