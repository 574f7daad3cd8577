//! The Plonky3 workloads: a STARK over a 31-bit field whose commitments are
//! Merkle trees of Keccak hashes.

use crate::config::ConfigError;
use crate::plonky3::circuit::{Plonky3Circuit, StarkError};
use crate::plonky3::config::Plonky3Config;
use crate::stats::{lemma_positive_result, measures, Measurement, Sample};
use crate::workload::{counted, measured, proved, written, HashInSnark};
use rand::rngs::StdRng;
use vstd::prelude::*;

pub mod circuit;
pub mod config;

verus! {

/// The workload that proves the circuit `Circuit` with a STARK of the
/// configuration `Config`.
pub struct Plonky3<Config: Plonky3Config, Circuit: Plonky3Circuit<Config>> {
    config: Config,
    circuit: Circuit,
}

impl<Config: Plonky3Config, Circuit: Plonky3Circuit<Config>> Plonky3<Config, Circuit> {
    #[verifier::type_invariant]
    spec fn well_formed(self) -> bool {
        &&& self.config.height() == self.circuit.height()
        &&& self.config.blowup() == self.circuit.blowup()
    }

    /// The number of permutations in one proof.
    pub closed spec fn count(&self) -> nat {
        self.circuit.count()
    }

    /// The number of rows of the trace.
    pub closed spec fn height(&self) -> nat {
        self.circuit.height()
    }

    /// The height of the traces that the configuration is for.
    pub closed spec fn config_height(&self) -> nat {
        self.config.height()
    }

    /// The logarithm of the blow-up factor of the commitment scheme.
    pub closed spec fn blowup(&self) -> nat {
        self.config.blowup()
    }

    /// The STARK configuration.
    pub closed spec fn configuration(&self) -> Config {
        self.config
    }

    /// The circuit.
    pub closed spec fn proved_circuit(&self) -> Circuit {
        self.circuit
    }

    /// The STARK configuration.
    pub fn config(&self) -> (config: &Config)
        ensures
            *config == self.configuration(),
    {
        &self.config
    }

    /// The circuit.
    pub fn circuit(&self) -> (circuit: &Circuit)
        ensures
            *circuit == self.proved_circuit(),
    {
        &self.circuit
    }
}

/// Whether `trace` is what the circuit filled with `input`.
pub open spec fn filled<Config: Plonky3Config, Circuit: Plonky3Circuit<Config>>(
    circuit: &Circuit,
    input: Circuit::Input,
    trace: Circuit::Trace,
) -> bool {
    call_ensures(Circuit::generate_trace, (circuit, input), trace)
}

impl<Config: Plonky3Config, Circuit: Plonky3Circuit<Config>> HashInSnark for Plonky3<
    Config,
    Circuit,
> {
    type Input = Circuit::Input;

    type Proof = Config::Proof;

    type Error = StarkError;

    /// The workload of the circuit for at least `num_permutations`
    /// permutations, with a configuration for the height of the circuit's
    /// trace and a blow-up factor of two to the power `log_inv_rate`.
    ///
    /// It is set up wherever the circuit's field takes the request and the
    /// configuration's field takes the circuit's trace, unless the system has
    /// no randomness for constants that the circuit draws.
    fn new(num_permutations: usize, log_inv_rate: usize) -> (r: Result<Self, ConfigError>)
        ensures
            Circuit::takes(num_permutations as nat, log_inv_rate as nat) && Config::takes(
                Circuit::height_for(num_permutations as nat),
                log_inv_rate as nat,
            ) ==> r.is_ok() || r matches Err(ConfigError::RandomSource),
            !(Circuit::takes(num_permutations as nat, log_inv_rate as nat) && Config::takes(
                Circuit::height_for(num_permutations as nat),
                log_inv_rate as nat,
            )) ==> r.is_err(),
            r matches Ok(snark) ==> {
                &&& snark.count() == Circuit::count_for(num_permutations as nat)
                &&& snark.count() >= num_permutations
                &&& snark.config_height() == snark.height()
                &&& snark.blowup() == log_inv_rate
            },
    {
        let circuit = match Circuit::new(num_permutations, log_inv_rate) {
            Ok(circuit) => circuit,
            Err(e) => { return Err(e); },
        };
        let config = match Config::new(circuit.trace_height(), log_inv_rate) {
            Ok(config) => config,
            Err(e) => { return Err(e); },
        };
        Ok(Plonky3 { config, circuit })
    }

    fn num_permutations(&self) -> (n: usize)
        ensures
            n == self.count(),
    {
        self.circuit.num_permutations()
    }

    /// Draws an input for each permutation of the circuit.
    fn generate_input(&self, rng: &mut StdRng) -> (input: Self::Input)
        ensures
            self.proved_circuit().input_fits(&input),
    {
        self.circuit.generate_input(rng)
    }

    /// The proof that the circuit's prover makes, with the configuration, of
    /// the trace that the circuit fills with `input`.
    fn prove(&self, input: Self::Input) -> (proof: Self::Proof)
        ensures
            exists|trace: Circuit::Trace| #[trigger]
                filled::<Config, Circuit>(&self.proved_circuit(), input, trace) && proof
                    == self.proved_circuit().proof_of(&self.configuration(), trace),
    {
        proof {
            use_type_invariant(self);
        }
        let trace = self.circuit.generate_trace(input);
        assert(filled::<Config, Circuit>(&self.proved_circuit(), input, trace));
        self.circuit.prove(&self.config, trace)
    }

    /// What the circuit's verifier says of `proof`, with the configuration.
    fn verify(&self, proof: &Self::Proof) -> (verdict: Result<(), Self::Error>)
        ensures
            verdict == self.proved_circuit().verdict_of(&self.configuration(), proof),
    {
        self.circuit.verify(&self.config, proof)
    }

    /// The bytes that the configuration writes a proof to, of which there is
    /// one or more.
    fn serialize_proof(proof: &Self::Proof) -> (bytes: Vec<u8>)
        ensures
            Config::encoding(proof) == Some(bytes@),
            bytes@.len() > 0,
    {
        Config::serialize_proof(proof)
    }

    /// The proof that the configuration reads from `data`.
    fn deserialize_proof(data: &[u8]) -> (proof: Option<Self::Proof>)
        ensures
            proof == Config::decoding(data@),
    {
        Config::deserialize_proof(data)
    }
}

/// The result of a benchmark of a Plonky3 workload that was asked for one
/// permutation or more is positive throughout: it reports the workload's
/// number of permutations, which reaches the request, a mean time of a
/// nanosecond or more, a throughput above zero and a mean size above zero.
pub proof fn lemma_result_is_positive<Config: Plonky3Config, Circuit: Plonky3Circuit<Config>>(
    num_permutations: usize,
    log_inv_rate: usize,
    snark: Plonky3<Config, Circuit>,
    warm: Seq<Sample>,
    samples: Seq<Sample>,
    m: Measurement,
)
    requires
        num_permutations >= 1,
        measured(num_permutations, log_inv_rate, snark, warm, samples),
        counted(&snark, m.num_permutations),
        measures(m, m.num_permutations, samples),
    ensures
        m.num_permutations == snark.count(),
        m.num_permutations >= num_permutations,
        m.time_nanos > 0,
        m.throughput.numer() > 0,
        m.throughput.denom() > 0,
        m.proof_size.numer() > 0,
        m.proof_size.denom() > 0,
{
    assert forall|i: int| 0 <= i < samples.len() implies (#[trigger] samples[i]).proof_size
        > 0 by {
        let size = samples[i].proof_size;
        let (input, proof, bytes) = choose|
            input: Circuit::Input,
            proof: Config::Proof,
            bytes: Vec<u8>,
        |
            #![trigger proved(&snark, input, proof), written::<Plonky3<Config, Circuit>>(&proof, bytes)]
            proved(&snark, input, proof) && written::<Plonky3<Config, Circuit>>(&proof, bytes)
                && bytes@.len() == size;
    }
    lemma_positive_result(m, m.num_permutations, samples);
}

} // verus!
