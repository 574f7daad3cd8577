//! The configurations of the Plonky3 workloads.

use crate::config::ConfigError;
use vstd::bytes::*;
use vstd::prelude::*;

pub mod keccak_mt;

verus! {

/// The number that the last eight bytes of `bytes` write, the least byte
/// first.
pub open spec fn last_u64(bytes: Seq<u8>) -> nat
    recommends
        bytes.len() >= 8,
{
    spec_u64_from_le_bytes(bytes.subrange(bytes.len() - 8, bytes.len() as int)) as nat
}

/// The number that the bytes of a proof end with, where writing the proof
/// gave `encoding`: nothing where writing failed or gave fewer than eight
/// bytes.
pub open spec fn claimed_bits(encoding: Option<Seq<u8>>) -> Option<u64> {
    match encoding {
        Some(bytes) => if bytes.len() >= 8 {
            Some(last_u64(bytes) as u64)
        } else {
            None
        },
        None => None,
    }
}

/// A STARK configuration: a field, a commitment scheme and a challenger.
pub trait Plonky3Config: Sized {
    /// The proofs that the configuration's prover makes.
    type Proof;

    /// The height of the traces that the configuration is for.
    spec fn height(&self) -> nat;

    /// The logarithm of the blow-up factor of the commitment scheme.
    spec fn blowup(&self) -> nat;

    /// Whether the configuration's field takes traces of `trace_height` rows
    /// with a blow-up factor of two to the power `log_blowup`.
    spec fn takes(trace_height: nat, log_blowup: nat) -> bool;

    /// The configuration for traces of `trace_height` rows, with a blow-up
    /// factor of two to the power `log_blowup`.
    fn new(trace_height: usize, log_blowup: usize) -> (r: Result<Self, ConfigError>)
        ensures
            r.is_ok() == Self::takes(trace_height as nat, log_blowup as nat),
            r matches Ok(config) ==> config.height() == trace_height && config.blowup()
                == log_blowup,
    ;

    /// The logarithm of the number of rows that a proof says its trace has.
    spec fn degree_bits(proof: &Self::Proof) -> nat;

    /// What the writer gives for a proof: the bytes of the proof, or nothing
    /// where it fails.
    spec fn encoding(proof: &Self::Proof) -> Option<Seq<u8>>;

    /// What reading bytes gives: the proof that they begin with, or nothing
    /// where they begin with none.
    spec fn decoding(bytes: Seq<u8>) -> Option<Self::Proof>;

    /// The bytes of a proof. The writer fails on no proof, and no proof is
    /// written to nothing.
    fn serialize_proof(proof: &Self::Proof) -> (bytes: Vec<u8>)
        ensures
            Self::encoding(proof) == Some(bytes@),
            bytes@.len() > 0,
    ;

    /// The logarithm of the number of rows that a proof says its trace has,
    /// which its bytes end with, or nothing where the proof has fewer than
    /// eight bytes.
    fn proof_degree_bits(proof: &Self::Proof) -> (bits: Option<u64>)
        ensures
            bits == claimed_bits(Self::encoding(proof)),
            bits matches Some(b) ==> b == Self::degree_bits(proof),
    ;

    /// The number of commitments of the folding rounds that a proof holds.
    spec fn commit_rounds(proof: &Self::Proof) -> nat;

    /// The number of commitments of the folding rounds that the bytes of a
    /// proof hold, or nothing where the bytes are not those of a proof.
    spec fn rounds_in(bytes: Seq<u8>) -> Option<usize>;

    /// The number of commitments of the folding rounds that a proof holds,
    /// read from its bytes, or nothing where the bytes cannot be read.
    fn proof_commit_rounds(proof: &Self::Proof) -> (rounds: Option<usize>)
        ensures
            rounds == match Self::encoding(proof) {
                Some(bytes) => Self::rounds_in(bytes),
                None => None,
            },
            rounds matches Some(n) ==> n == Self::commit_rounds(proof),
    ;

    /// The proof that `data` begins with, if it begins with one.
    fn deserialize_proof(data: &[u8]) -> (proof: Option<Self::Proof>)
        ensures
            proof == Self::decoding(data@),
    ;
}

/// The number of commitments of the folding rounds that the bytes of a proof
/// hold, or nothing where the proof cannot be written or its bytes cannot be
/// read.
pub open spec fn claimed_rounds<C: Plonky3Config>(proof: &C::Proof) -> Option<usize> {
    match C::encoding(proof) {
        Some(bytes) => C::rounds_in(bytes),
        None => None,
    }
}

} // verus!
