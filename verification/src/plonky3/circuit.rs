//! The circuits of the Plonky3 workloads.
//!
//! Each circuit fills a trace, a matrix over its field, which is held in a
//! structure whose field Verus does not read; the number of its rows has a
//! name, by which the prover is held to the height of its configuration. The
//! proof that the prover of Plonky3 makes and the verdict of its verifier
//! have names too: each is fixed by what is handed to it.

use crate::config::ConfigError;
use crate::plonky3::config::Plonky3Config;
use rand::rngs::StdRng;
use vstd::prelude::*;


pub mod blake3;
pub mod keccak;
pub mod koala_bear_poseidon2;


verus! {

/// Why the verifier of Plonky3 rejects a proof.
#[derive(Debug)]
pub enum StarkError {
    /// The proof does not have the parts that the circuit calls for.
    InvalidProofShape,
    /// The openings of the commitments do not hold. The text is the
    /// commitment scheme's account of it.
    InvalidOpeningArgument(String),
    /// The constraints do not hold at the point that the verifier drew.
    OodEvaluationMismatch,
    /// The proof's randomisation does not fit a configuration without zero
    /// knowledge.
    RandomizationError,
}

/// A circuit that a STARK of the configuration `C` proves: rows of a trace
/// that hold a number of permutations.
pub trait Plonky3Circuit<C: Plonky3Config>: Sized {
    /// The inputs of the permutations of one proof.
    type Input;

    /// The rows that the circuit fills.
    type Trace;

    /// The number of permutations that the trace holds.
    spec fn count(&self) -> nat;

    /// The number of rows of the trace.
    spec fn height(&self) -> nat;

    /// The logarithm of the blow-up that the trace leaves room for.
    spec fn blowup(&self) -> nat;

    /// Whether `trace` has the rows of a trace of this circuit.
    spec fn holds(&self, trace: &Self::Trace) -> bool;

    /// Whether `trace` is the trace of the permutations of `input`, cut or
    /// filled up with zeros to the number of permutations of the circuit.
    spec fn traces(&self, input: Self::Input, trace: Self::Trace) -> bool;

    /// The number of rows of the trace of a request for `requested`
    /// permutations.
    spec fn height_for(requested: nat) -> nat;

    /// The number of permutations that the circuit holds for a request for
    /// `requested` permutations.
    spec fn count_for(requested: nat) -> nat;

    /// Whether the circuit's field takes the trace of a request for
    /// `requested` permutations, with room for a blow-up by two to the power
    /// `log_blowup`.
    spec fn takes(requested: nat, log_blowup: nat) -> bool;

    /// The circuit for at least `num_permutations` permutations, whose trace
    /// leaves room for a blow-up by two to the power `log_blowup`.
    /// It is set up for every request that its field takes, unless the
    /// system has no randomness for constants that it draws.
    fn new(num_permutations: usize, log_blowup: usize) -> (r: Result<Self, ConfigError>)
        ensures
            Self::takes(num_permutations as nat, log_blowup as nat) ==> r.is_ok() || r matches Err(
                ConfigError::RandomSource,
            ),
            !Self::takes(num_permutations as nat, log_blowup as nat) ==> r.is_err(),
            r matches Ok(circuit) ==> {
                &&& circuit.count() == Self::count_for(num_permutations as nat)
                &&& circuit.count() >= num_permutations
                &&& circuit.blowup() == log_blowup
                &&& circuit.height() == Self::height_for(num_permutations as nat)
            },
    ;

    /// The number of permutations that the trace holds.
    fn num_permutations(&self) -> (n: usize)
        ensures
            n == self.count(),
    ;

    /// The number of rows of the trace, a power of two.
    fn trace_height(&self) -> (height: usize)
        ensures
            height == self.height(),
    ;

    /// Whether `input` holds an input for each permutation of the circuit.
    spec fn input_fits(&self, input: &Self::Input) -> bool;

    /// What the prover makes of a trace with a configuration.
    spec fn proof_of(&self, config: &C, trace: Self::Trace) -> C::Proof;

    /// What the verifier says of a proof with a configuration: a proof that
    /// does not claim the height of the configuration's traces has not the
    /// shape of a proof of the circuit, and of any other the verifier of
    /// Plonky3 decides.
    spec fn verdict_of(&self, config: &C, proof: &C::Proof) -> Result<(), StarkError>;

    /// Draws the inputs of the permutations of one proof.
    fn generate_input(&self, rng: &mut StdRng) -> (input: Self::Input)
        ensures
            self.input_fits(&input),
    ;

    /// Fills the trace with the permutations of `input`.
    fn generate_trace(&self, input: Self::Input) -> (trace: Self::Trace)
        ensures
            self.holds(&trace),
            self.traces(input, trace),
    ;

    /// Proves that the trace meets the circuit's constraints, with a
    /// configuration for the circuit's height and blow-up.
    fn prove(&self, config: &C, trace: Self::Trace) -> (proof: C::Proof)
        requires
            config.height() == self.height(),
            config.blowup() == self.blowup(),
            self.holds(&trace),
        ensures
            proof == self.proof_of(config, trace),
    ;

    /// Checks a proof of the circuit.
    fn verify(&self, config: &C, proof: &C::Proof) -> (verdict: Result<(), StarkError>)
        ensures
            verdict == self.verdict_of(config, proof),
    ;
}

} // verus!
