//! The parts of a Hashcaster proof and the errors of its verifier. Field
//! elements are held by their 128 bits.

use vstd::prelude::*;

verus! {

/// Why a sum-check proof is rejected.
#[derive(Debug)]
pub enum SumcheckError {
    /// The claim that the rounds end in is not the one that the final
    /// evaluations give. The text names the check.
    UnmatchedSubclaim(String),
}

/// Why a proof is rejected.
#[derive(Debug)]
pub enum Error {
    /// A sum-check does not hold.
    Sumcheck(SumcheckError),
    /// The opening of the committed input does not hold. The text is the
    /// commitment scheme's message.
    Pcs(String),
}

impl Error {
    /// The error of a proof whose sum-check does not hold.
    pub fn from_sumcheck(err: SumcheckError) -> (e: Error)
        ensures
            e == Error::Sumcheck(err),
    {
        Error::Sumcheck(err)
    }

    /// The error of a proof whose opening does not hold.
    pub fn from_pcs(message: String) -> (e: Error)
        ensures
            e == Error::Pcs(message),
    {
        Error::Pcs(message)
    }
}

/// The polynomial of one round, without the coefficient that the running
/// claim determines.
#[derive(Clone, Debug)]
pub struct CompressedPoly {
    pub compressed_coeffs: Vec<u128>,
}

/// A sum-check proof: the polynomial of each round and the evaluations that
/// the last claim is checked against.
#[derive(Clone, Debug)]
pub struct SumcheckProof {
    pub round_polys: Vec<CompressedPoly>,
    pub evals: Vec<u128>,
}

impl SumcheckProof {
    /// Whether the proof has `rounds` rounds, `coeffs` coefficients in each
    /// round's polynomial and `evals` final evaluations.
    pub open spec fn shaped(self, rounds: nat, coeffs: nat, evals: nat) -> bool {
        &&& self.round_polys@.len() == rounds
        &&& self.evals@.len() == evals
        &&& forall|i: int|
            0 <= i < self.round_polys@.len() ==> (
            #[trigger] self.round_polys@[i]).compressed_coeffs@.len() == coeffs
    }

    /// Tests the shape that a verifier takes the proof to have.
    pub fn has_shape(&self, rounds: usize, coeffs: usize, evals: usize) -> (ok: bool)
        ensures
            ok == self.shaped(rounds as nat, coeffs as nat, evals as nat),
    {
        if self.round_polys.len() != rounds || self.evals.len() != evals {
            return false;
        }
        let mut i: usize = 0;
        while i < self.round_polys.len()
            invariant
                i <= self.round_polys@.len(),
                forall|j: int|
                    0 <= j < i ==> (#[trigger] self.round_polys@[j]).compressed_coeffs@.len()
                        == coeffs,
            decreases self.round_polys@.len() - i,
        {
            if self.round_polys[i].compressed_coeffs.len() != coeffs {
                return false;
            }
            i = i + 1;
        }
        true
    }
}

/// The proof that the committed input opens to the last claims.
#[derive(Clone, Debug)]
pub struct FriPcsProof {
    transcript: Vec<u8>,
    advice: Vec<u8>,
}

impl FriPcsProof {
    /// The bytes that the verifier reads its challenges from.
    pub closed spec fn transcript_bytes(self) -> Seq<u8> {
        self.transcript@
    }

    /// The bytes that the prover hands over unhashed.
    pub closed spec fn advice_bytes(self) -> Seq<u8> {
        self.advice@
    }

    /// The proof of the two byte strings.
    pub fn new(transcript: Vec<u8>, advice: Vec<u8>) -> (proof: FriPcsProof)
        ensures
            proof.transcript_bytes() == transcript@,
            proof.advice_bytes() == advice@,
    {
        FriPcsProof { transcript, advice }
    }

    /// The bytes that the verifier reads its challenges from.
    pub fn transcript(&self) -> (bytes: &Vec<u8>)
        ensures
            bytes@ == self.transcript_bytes(),
    {
        &self.transcript
    }

    /// The bytes that the prover hands over unhashed.
    pub fn advice(&self) -> (bytes: &Vec<u8>)
        ensures
            bytes@ == self.advice_bytes(),
    {
        &self.advice
    }
}

} // verus!
