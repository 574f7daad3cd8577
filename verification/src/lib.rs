//! A harness that measures how fast a proving system proves a batch of hash
//! permutations, and how large the proofs are.
//!
//! A backend is anything with the seven operations of [`HashInSnark`]. The
//! harness sets a backend up, warms it up, times a number of proofs one after
//! the other and reduces the trials to a mean time, a throughput and a mean
//! size of a proof ([`bench`]); or it proves once and measures nothing
//! ([`run`]). Before a size is reported for a proof, the proof has verified
//! both as the prover made it and as read back from its own bytes
//! ([`HashInSnark::proof_size`]).
//!
//! - [`workload`] holds the contract and the harness, [`stats`] the reduction
//!   of the trials, [`util`] and [`decimal`] the text of the results, [`cli`]
//!   what the command line decides.
//! - [`config`] and [`power`] hold the rounding of a requested number of
//!   permutations to the granularity of a backend.
//! - [`plonky3`] is a backend with its prover and verifier; [`binius`],
//!   [`expander`], [`hashcaster`] and [`stwo_hash`] hold the parameters of
//!   theirs.

pub mod binius;
pub mod cli;
pub mod config;
pub mod decimal;
pub mod expander;
pub mod hashcaster;
pub mod plonky3;
pub mod power;
pub mod stats;
pub mod stwo_hash;
pub mod util;
pub mod workload;

pub use workload::{assert_proof_size, bench, run, HashInSnark};
