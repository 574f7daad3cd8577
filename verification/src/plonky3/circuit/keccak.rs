//! The Keccak-f circuit: 24 rows for each permutation.

use crate::config::ConfigError;
use crate::plonky3::circuit::{Plonky3Circuit, StarkError};
use crate::plonky3::config::keccak_mt::{
    baby_bear_proof_degree_bits, baby_bear_proof_rounds, baby_bear_stark_params, folding_rounds, fits_domain, fits_field, valid_params,
    BabyBearKeccakMtConfig, BabyBearProof, BabyBearStark, BABY_BEAR_TWO_ADICITY,
};
use crate::plonky3::config::{claimed_bits, claimed_rounds, Plonky3Config};
use crate::power::{
    ceil_log2, floor_log2, lemma_ceil_log2_bounds, lemma_ceil_log2_unique, lemma_pow2_double,
    lemma_pow2_monotonic, next_pow2, next_power_of_two,
};
use p3_baby_bear::BabyBear;
use p3_keccak_air::KeccakAir;
use p3_matrix::dense::RowMajorMatrix;
use p3_uni_stark::VerificationError;
use rand::rngs::StdRng;
use rand::Rng;
use vstd::arithmetic::power2::*;
use vstd::prelude::*;

verus! {

/// The constraints of Keccak-f of Plonky3.
#[verifier::external_type_specification]
#[verifier::external_body]
pub struct ExKeccakAir(KeccakAir);

/// The rows of the rounds of a number of permutations, over the Baby Bear
/// field.
#[verifier::external_body]
pub struct KeccakTrace {
    rows: RowMajorMatrix<BabyBear>,
}

/// The trace that the generator of Plonky3 fills for inputs, with room for a
/// blow-up.
pub uninterp spec fn keccak_trace(inputs: Seq<[u64; 25]>, extra_capacity_bits: nat) -> KeccakTrace;

/// Whether `fit` are the first `count` of `items`, with zeros after them
/// where they are fewer.
pub open spec fn fitted(items: Seq<[u64; 25]>, fit: Seq<[u64; 25]>, count: nat) -> bool {
    &&& fit.len() == count
    &&& forall|i: int| 0 <= i < count && i < items.len() ==> fit[i] == items[i]
    &&& forall|i: int, j: int| items.len() <= i < count && 0 <= j < 25 ==> #[trigger] fit[i][j] == 0
}

/// The number of rows of a trace.
pub uninterp spec fn keccak_trace_rows(trace: KeccakTrace) -> nat;

/// The number of rows of one permutation: a row for each round.
pub const NUM_ROUNDS: usize = 24;

/// The height of the trace of `requested` permutations: the least power of
/// two of rows that holds them.
pub open spec fn keccak_trace_height(requested: nat) -> nat {
    next_pow2((NUM_ROUNDS * requested) as nat)
}

/// The number of permutations for a request: as many as fill the trace.
pub open spec fn keccak_count(requested: nat) -> nat {
    keccak_trace_height(requested) / (NUM_ROUNDS as nat)
}

/// The permutations that fill a trace need the whole of it: their rounds take
/// more than half of its rows.
pub proof fn lemma_keccak_trace_is_full(requested: nat)
    ensures
        keccak_trace_height(keccak_count(requested)) == keccak_trace_height(requested),
        keccak_count(requested) >= requested,
{
    let e = ceil_log2(24 * requested);
    let height = pow2(e);
    let count = height / 24;
    lemma_ceil_log2_bounds(24 * requested);
    lemma_pow2_pos(e);
    lemma2_to64();
    vstd::arithmetic::div_mod::lemma_fundamental_div_mod(height as int, 24);
    if requested == 0 {
        assert(ceil_log2(0) == 0);
        assert(count == 0);
    } else {
        if e < 5 {
            lemma_pow2_monotonic(e, 4);
        }
        if e == 5 {
            assert(count == 1);
            assert(pow2(4) == 16);
        } else {
            lemma_pow2_monotonic(6, e);
            lemma_pow2_double((e - 1) as nat);
        }
        lemma_ceil_log2_unique(24 * count, e);
    }
}

/// A height beyond a `usize` fits no domain of the field.
proof fn lemma_large_height_does_not_fit(height: nat, log_blowup: nat)
    ensures
        height > usize::MAX ==> !fits_field(height, log_blowup, BABY_BEAR_TWO_ADICITY as nat),
{
    if height > usize::MAX && fits_field(height, log_blowup, BABY_BEAR_TWO_ADICITY as nat) {
        lemma2_to64();
        lemma_pow2_monotonic(crate::power::floor_log2(height), 27);
    }
}

/// `KeccakAir {}` is the constraints of Keccak-f; it has no fields.
#[verifier::external_body]
fn keccak_air() -> KeccakAir {
    KeccakAir {}
}

/// `Rng::random` draws a state of Keccak-f, 25 words, from the generator.
#[verifier::external_body]
fn random_state(rng: &mut StdRng) -> [u64; 25] {
    rng.random()
}

/// `p3_keccak_air::generate_trace_rows` fills a trace with the rounds of the
/// permutations of `inputs`, and with those of the zero state up to the next
/// power of two of rows. It allocates the rows times two to the power
/// `extra_capacity_bits`.
#[verifier::external_body]
fn trace_rows(inputs: Vec<[u64; 25]>, extra_capacity_bits: usize) -> (trace: KeccakTrace)
    requires
        fits_field(
            keccak_trace_height(inputs@.len()),
            extra_capacity_bits as nat,
            BABY_BEAR_TWO_ADICITY as nat,
        ),
    ensures
        trace == keccak_trace(inputs@, extra_capacity_bits as nat),
        keccak_trace_rows(trace) == keccak_trace_height(inputs@.len()),
{
    KeccakTrace { rows: p3_keccak_air::generate_trace_rows::<BabyBear>(inputs, extra_capacity_bits) }
}

/// The proof that `p3_uni_stark::prove` makes of a trace, with a
/// configuration and the constraints.
pub uninterp spec fn keccak_stark_proof(config: BabyBearStark, air: KeccakAir, trace: KeccakTrace) -> BabyBearProof;

/// What `p3_uni_stark::verify` says of a proof, with a configuration and the
/// constraints.
pub uninterp spec fn keccak_stark_verdict(config: BabyBearStark, air: KeccakAir, proof: BabyBearProof) -> Result<
    (),
    StarkError,
>;

/// `p3_uni_stark::prove` proves that the trace meets the constraints of
/// Keccak-f, with no public values. It takes a trace of a power of two of
/// rows that, blown up, fits a domain of the field.
#[verifier::external_body]
fn stark_prove(config: &BabyBearStark, air: &KeccakAir, trace: KeccakTrace) -> (proof: BabyBearProof)
    requires
        valid_params(baby_bear_stark_params(*config), BABY_BEAR_TWO_ADICITY as nat),
        baby_bear_stark_params(*config).trace_height == keccak_trace_rows(trace),
    ensures
        proof == keccak_stark_proof(*config, *air, trace),
{
    BabyBearProof { proof: p3_uni_stark::prove(&config.stark_config, air, trace.rows, &vec![]) }
}

/// `p3_uni_stark::verify` checks a proof against the constraints of Keccak-f,
/// with no public values. It takes a proof of a trace of the height of the
/// configuration. Its error comes back variant for variant, the commitment
/// scheme's error as text.
#[verifier::external_body]
fn stark_verify(config: &BabyBearStark, air: &KeccakAir, proof: &BabyBearProof) -> (verdict: Result<
    (),
    StarkError,
>)
    requires
        valid_params(baby_bear_stark_params(*config), BABY_BEAR_TWO_ADICITY as nat),
        baby_bear_proof_degree_bits(*proof) == floor_log2(
            baby_bear_stark_params(*config).trace_height as nat,
        ),
        baby_bear_proof_rounds(*proof) == folding_rounds(baby_bear_stark_params(*config)),
    ensures
        verdict == keccak_stark_verdict(*config, *air, *proof),
{
    match p3_uni_stark::verify(&config.stark_config, air, &proof.proof, &vec![]) {
        Ok(()) => Ok(()),
        Err(VerificationError::InvalidProofShape) => Err(StarkError::InvalidProofShape),
        Err(VerificationError::InvalidOpeningArgument(e)) => Err(
            StarkError::InvalidOpeningArgument(format!("{e:?}")),
        ),
        Err(VerificationError::OodEvaluationMismatch) => Err(StarkError::OodEvaluationMismatch),
        Err(VerificationError::RandomizationError) => Err(StarkError::RandomizationError),
    }
}

/// Cuts `items` to `count` of them, or fills them up with zeros.
fn fit_states(items: Vec<[u64; 25]>, count: usize) -> (fit: Vec<[u64; 25]>)
    ensures
        fitted(items@, fit@, count as nat),
{
    let mut fit = items;
    fit.truncate(count);
    while fit.len() < count
        invariant
            fit@.len() <= count,
            fit@.len() < count ==> fit@.len() >= items@.len(),
            forall|i: int| 0 <= i < fit@.len() && i < items@.len() ==> fit@[i] == items@[i],
            forall|i: int, j: int|
                items@.len() <= i < fit@.len() && 0 <= j < 25 ==> #[trigger] fit@[i][j] == 0,
        decreases count - fit@.len(),
    {
        fit.push([0u64; 25]);
    }
    fit
}

/// The Keccak-f circuit over the Baby Bear field.
pub struct KeccakCircuit {
    air: KeccakAir,
    num_permutations: usize,
    trace_height: usize,
    log_blowup: usize,
}

impl KeccakCircuit {
    #[verifier::type_invariant]
    spec fn well_formed(self) -> bool {
        &&& self.num_permutations == self.trace_height / NUM_ROUNDS
        &&& self.trace_height == keccak_trace_height(self.num_permutations as nat)
        &&& fits_field(
            self.trace_height as nat,
            self.log_blowup as nat,
            BABY_BEAR_TWO_ADICITY as nat,
        )
    }

    /// The constraints of the circuit.
    pub closed spec fn constraints(&self) -> KeccakAir {
        self.air
    }

    /// The constraints of the circuit.
    pub fn air(&self) -> (air: &KeccakAir)
        ensures
            *air == self.constraints(),
    {
        &self.air
    }

    /// The logarithm of the blow-up that the trace leaves room for.
    pub fn log_blowup(&self) -> (log: usize)
        ensures
            log == self.blowup(),
    {
        self.log_blowup
    }
}

impl Plonky3Circuit<BabyBearKeccakMtConfig> for KeccakCircuit {
    type Input = Vec<[u64; 25]>;

    type Trace = KeccakTrace;

    closed spec fn count(&self) -> nat {
        self.num_permutations as nat
    }

    closed spec fn height(&self) -> nat {
        self.trace_height as nat
    }

    closed spec fn blowup(&self) -> nat {
        self.log_blowup as nat
    }

    open spec fn holds(&self, trace: &KeccakTrace) -> bool {
        keccak_trace_rows(*trace) == self.height()
    }

    open spec fn traces(&self, input: Vec<[u64; 25]>, trace: KeccakTrace) -> bool {
        exists|fit: Seq<[u64; 25]>| #[trigger]
            fitted(input@, fit, self.count()) && trace == keccak_trace(fit, self.blowup())
    }

    open spec fn input_fits(&self, input: &Vec<[u64; 25]>) -> bool {
        input@.len() == self.count()
    }

    open spec fn proof_of(&self, config: &BabyBearKeccakMtConfig, trace: KeccakTrace) -> BabyBearProof {
        keccak_stark_proof(config.stark_config(), self.constraints(), trace)
    }

    open spec fn verdict_of(&self, config: &BabyBearKeccakMtConfig, proof: &BabyBearProof) -> Result<(), StarkError> {
        if claimed_bits(BabyBearKeccakMtConfig::encoding(proof)) == Some(
            floor_log2(config.parameters().trace_height as nat) as u64,
        ) && claimed_rounds::<BabyBearKeccakMtConfig>(proof) == Some(
            folding_rounds(config.parameters()) as usize,
        ) {
            keccak_stark_verdict(config.stark_config(), self.constraints(), *proof)
        } else {
            Err(StarkError::InvalidProofShape)
        }
    }

    open spec fn count_for(requested: nat) -> nat {
        keccak_count(requested)
    }

    open spec fn height_for(requested: nat) -> nat {
        keccak_trace_height(requested)
    }

    open spec fn takes(requested: nat, log_blowup: nat) -> bool {
        fits_field(keccak_trace_height(requested), log_blowup, BABY_BEAR_TWO_ADICITY as nat)
    }

    fn new(num_permutations: usize, log_blowup: usize) -> (r: Result<Self, ConfigError>)
        ensures
            fits_field(
                keccak_trace_height(num_permutations as nat),
                log_blowup as nat,
                BABY_BEAR_TWO_ADICITY as nat,
            ) ==> r.is_ok(),
            !fits_field(
                keccak_trace_height(num_permutations as nat),
                log_blowup as nat,
                BABY_BEAR_TWO_ADICITY as nat,
            ) ==> r matches Err(ConfigError::CountTooLarge),
            r matches Ok(circuit) ==> {
                &&& circuit.height() == keccak_trace_height(num_permutations as nat)
                &&& circuit.count() == keccak_count(num_permutations as nat)
            },
    {
        proof {
            crate::power::lemma_next_pow2_bounds((NUM_ROUNDS * num_permutations) as nat);
            lemma_keccak_trace_is_full(num_permutations as nat);
            crate::power::lemma_floor_log2_pow2(ceil_log2((NUM_ROUNDS * num_permutations) as nat));
            lemma_large_height_does_not_fit(
                keccak_trace_height(num_permutations as nat),
                log_blowup as nat,
            );
        }
        let rows = match NUM_ROUNDS.checked_mul(num_permutations) {
            Some(rows) => rows,
            None => { return Err(ConfigError::CountTooLarge); },
        };
        let trace_height = match next_power_of_two(rows) {
            Some(height) => height,
            None => { return Err(ConfigError::CountTooLarge); },
        };
        if !fits_domain(trace_height, log_blowup, BABY_BEAR_TWO_ADICITY) {
            return Err(ConfigError::CountTooLarge);
        }
        Ok(
            KeccakCircuit {
                air: keccak_air(),
                num_permutations: trace_height / NUM_ROUNDS,
                trace_height,
                log_blowup,
            },
        )
    }

    fn num_permutations(&self) -> (n: usize) {
        self.num_permutations
    }

    fn trace_height(&self) -> (height: usize) {
        self.trace_height
    }

    fn generate_input(&self, rng: &mut StdRng) -> (input: Self::Input) {
        let mut input: Vec<[u64; 25]> = Vec::new();
        let mut i: usize = 0;
        while i < self.num_permutations
            invariant
                i <= self.num_permutations,
                input@.len() == i,
            decreases self.num_permutations - i,
        {
            input.push(random_state(rng));
            i = i + 1;
        }
        input
    }

    /// The trace of the permutations of `input`, which is cut or filled up
    /// with zero states to the number of permutations of the circuit.
    fn generate_trace(&self, input: Self::Input) -> (trace: KeccakTrace) {
        proof {
            use_type_invariant(self);
        }
        let fit = fit_states(input, self.num_permutations);
        assert(fitted(input@, fit@, self.count()));
        trace_rows(fit, self.log_blowup)
    }

    fn prove(&self, config: &BabyBearKeccakMtConfig, trace: KeccakTrace) -> (proof: BabyBearProof) {
        stark_prove(config.stark(), &self.air, trace)
    }

    fn verify(&self, config: &BabyBearKeccakMtConfig, proof: &BabyBearProof) -> (verdict: Result<
        (),
        StarkError,
    >) {
        let stark = config.stark();
        let params = config.params();
        let height = params.trace_height;
        proof {
            lemma_pow2_pos(floor_log2(height as nat));
        }
        let log: usize = crate::power::ilog2(height) as usize;
        let bits = match BabyBearKeccakMtConfig::proof_degree_bits(proof) {
            Some(bits) => bits,
            None => { return Err(StarkError::InvalidProofShape); },
        };
        let rounds = match BabyBearKeccakMtConfig::proof_commit_rounds(proof) {
            Some(rounds) => rounds,
            None => { return Err(StarkError::InvalidProofShape); },
        };
        if bits == log as u64 && rounds == log - params.log_final_poly_len {
            stark_verify(stark, &self.air, proof)
        } else {
            Err(StarkError::InvalidProofShape)
        }
    }
}

} // verus!
