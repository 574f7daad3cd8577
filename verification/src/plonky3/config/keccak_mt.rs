//! The configuration whose Merkle trees, challenger and proof of work all
//! hash with Keccak, over the Baby Bear and the Koala Bear field.
//!
//! The types of Plonky3 are generic over a field, and the type of a field has
//! a parameter that is bound by a trait of Plonky3. Verus takes no declaration
//! of such a type, so a configuration and a proof are each held in a structure
//! whose field Verus does not read. What the contracts need of them has a
//! name: the parameters that a configuration was built with, the height that
//! a proof claims, the bytes that a proof is written to and the proof that
//! bytes are read as.

use crate::config::ConfigError;
use crate::plonky3::config::{last_u64, Plonky3Config};
use crate::power::{ceil_div, floor_log2, ilog2};
use p3_baby_bear::BabyBear;
use p3_challenger::{HashChallenger, SerializingChallenger32};
use p3_commit::{BatchOpening, ExtensionMmcs, Mmcs};
use p3_dft::Radix2DitParallel;
use p3_field::extension::BinomialExtensionField;
use p3_fri::{FriParameters, FriProof, TwoAdicFriPcs};
use p3_keccak::{Keccak256Hash, KeccakF};
use p3_koala_bear::KoalaBear;
use p3_merkle_tree::MerkleTreeMmcs;
use p3_symmetric::{CompressionFunctionFromHasher, PaddingFreeSponge, SerializingHasher};
use p3_uni_stark::{Commitments, OpenedValues, Proof, StarkConfig};
use vstd::arithmetic::power2::*;
use vstd::bytes::*;
use vstd::prelude::*;

verus! {

pub type U64Hash = PaddingFreeSponge<KeccakF, 25, 17, 4>;

pub type FieldHash = SerializingHasher<U64Hash>;

pub type Compress = CompressionFunctionFromHasher<U64Hash, 2, 4>;

pub type ValMmcs<F> = MerkleTreeMmcs<
    [F; p3_keccak::VECTOR_LEN],
    [u64; p3_keccak::VECTOR_LEN],
    FieldHash,
    Compress,
    4,
>;

pub type ChallengeMmcs<F, E> = ExtensionMmcs<F, E, ValMmcs<F>>;

pub type Challenger<F> = SerializingChallenger32<F, HashChallenger<u8, Keccak256Hash, 32>>;

pub type Pcs<F, E> = TwoAdicFriPcs<F, Radix2DitParallel<F>, ValMmcs<F>, ChallengeMmcs<F, E>>;

pub type KeccakMtStark<F, E> = StarkConfig<Pcs<F, E>, E, Challenger<F>>;

/// The parts of a proof in the order in which they are written: the
/// commitments, the opened values, the opening proof and the logarithm of the
/// height.
pub type ProofParts<F, E> = (
    Commitments<<ValMmcs<F> as Mmcs<F>>::Commitment>,
    OpenedValues<E>,
    FriProof<E, ChallengeMmcs<F, E>, F, Vec<BatchOpening<F, ValMmcs<F>>>>,
    usize,
);

pub type BabyBearExt = BinomialExtensionField<BabyBear, 4>;

pub type KoalaBearExt = BinomialExtensionField<KoalaBear, 4>;

/// The soundness, in bits, that the queries of the low-degree test give
/// together, at one bit for each unit of the logarithm of the blow-up factor.
pub const QUERY_SECURITY_BITS: usize = 256;

/// The greatest logarithm of the length of the polynomial that the low-degree
/// test ends with.
pub const MAX_LOG_FINAL_POLY_LEN: usize = 3;

/// The logarithm of the greatest domain of the Baby Bear field.
pub const BABY_BEAR_TWO_ADICITY: usize = 27;

/// The logarithm of the greatest domain of the Koala Bear field.
pub const KOALA_BEAR_TWO_ADICITY: usize = 24;

/// The parameters of the low-degree test.
#[derive(Clone, Copy, Debug, PartialEq, Eq, Structural)]
pub struct KeccakMtConfig {
    /// The height of the traces.
    pub trace_height: usize,
    /// The logarithm of the blow-up factor.
    pub log_blowup: usize,
    /// The logarithm of the length of the polynomial that the test ends with.
    pub log_final_poly_len: usize,
    /// The number of queries.
    pub num_queries: usize,
    /// The bits of the proof of work.
    pub proof_of_work_bits: usize,
}

/// The logarithm of the length of the last polynomial for traces of
/// `trace_height` rows: one less than the logarithm of the height, and at most
/// [`MAX_LOG_FINAL_POLY_LEN`].
pub open spec fn log_final_poly_len_for(trace_height: nat) -> nat {
    let log = floor_log2(trace_height);
    if log == 0 {
        0
    } else if log - 1 < MAX_LOG_FINAL_POLY_LEN {
        (log - 1) as nat
    } else {
        MAX_LOG_FINAL_POLY_LEN as nat
    }
}

/// The parameters for traces of `trace_height` rows and a blow-up factor of
/// two to the power `log_blowup`.
pub open spec fn keccak_mt_config_for(trace_height: usize, log_blowup: usize) -> KeccakMtConfig {
    KeccakMtConfig {
        trace_height,
        log_blowup,
        log_final_poly_len: log_final_poly_len_for(trace_height as nat) as usize,
        num_queries: ceil_div(QUERY_SECURITY_BITS as nat, log_blowup as nat) as usize,
        proof_of_work_bits: 0,
    }
}

/// Whether a field whose greatest domain has two to the power `two_adicity`
/// points takes traces of `trace_height` rows blown up by two to the power
/// `log_blowup`.
pub open spec fn fits_field(trace_height: nat, log_blowup: nat, two_adicity: nat) -> bool {
    &&& trace_height == pow2(floor_log2(trace_height))
    &&& floor_log2(trace_height) + log_blowup <= two_adicity
}

/// Whether `params` are the parameters of a low-degree test over a field
/// whose greatest domain has two to the power `two_adicity` points.
pub open spec fn valid_params(params: KeccakMtConfig, two_adicity: nat) -> bool {
    &&& params.log_blowup > 0
    &&& fits_field(params.trace_height as nat, params.log_blowup as nat, two_adicity)
    &&& params == keccak_mt_config_for(params.trace_height, params.log_blowup)
}

/// Whether a trace of `trace_height` rows is a power of two of rows that,
/// blown up by two to the power `log_blowup`, fits a domain of two to the
/// power `two_adicity` points.
pub fn fits_domain(trace_height: usize, log_blowup: usize, two_adicity: usize) -> (fits: bool)
    ensures
        fits == fits_field(trace_height as nat, log_blowup as nat, two_adicity as nat),
{
    if trace_height == 0 {
        proof {
            lemma_pow2_pos(floor_log2(0));
        }
        return false;
    }
    let log: usize = ilog2(trace_height) as usize;
    let power = crate::power::checked_pow2(log as u32);
    proof {
        crate::power::lemma_floor_log2_bounds(trace_height as nat);
    }
    power == Some(trace_height) && log_blowup <= two_adicity && log <= two_adicity - log_blowup
}

/// The number of folding rounds of a proof for `params`: one for each halving
/// from the height of the traces to the length of the last polynomial.
pub open spec fn folding_rounds(params: KeccakMtConfig) -> nat {
    (floor_log2(params.trace_height as nat) - params.log_final_poly_len) as nat
}

impl KeccakMtConfig {
    /// The parameters of the low-degree test, or the reason why the field
    /// does not take them.
    pub fn new(trace_height: usize, log_blowup: usize, two_adicity: usize) -> (r: Result<
        Self,
        ConfigError,
    >)
        ensures
            log_blowup == 0 ==> r == Err::<Self, ConfigError>(ConfigError::LogInvRateOutOfRange),
            log_blowup > 0 && !fits_field(
                trace_height as nat,
                log_blowup as nat,
                two_adicity as nat,
            ) ==> r == Err::<Self, ConfigError>(ConfigError::CountTooLarge),
            log_blowup > 0 && fits_field(trace_height as nat, log_blowup as nat, two_adicity as nat)
                ==> r == Ok::<Self, ConfigError>(keccak_mt_config_for(trace_height, log_blowup)),
    {
        if log_blowup == 0 {
            return Err(ConfigError::LogInvRateOutOfRange);
        }
        if trace_height == 0 {
            proof {
                lemma_pow2_pos(floor_log2(0));
            }
            return Err(ConfigError::CountTooLarge);
        }
        let log: usize = ilog2(trace_height) as usize;
        let power = crate::power::checked_pow2(log as u32);
        proof {
            crate::power::lemma_floor_log2_bounds(trace_height as nat);
        }
        if power != Some(trace_height) || log_blowup > two_adicity || log > two_adicity
            - log_blowup {
            return Err(ConfigError::CountTooLarge);
        }
        let log_final_poly_len: usize = if log == 0 {
            0
        } else if log - 1 < MAX_LOG_FINAL_POLY_LEN {
            log - 1
        } else {
            MAX_LOG_FINAL_POLY_LEN
        };
        proof {
            crate::config::lemma_ceil_div(QUERY_SECURITY_BITS as nat, log_blowup as nat);
        }
        let num_queries: usize = if QUERY_SECURITY_BITS % log_blowup == 0 {
            QUERY_SECURITY_BITS / log_blowup
        } else {
            QUERY_SECURITY_BITS / log_blowup + 1
        };
        Ok(
            KeccakMtConfig {
                trace_height,
                log_blowup,
                log_final_poly_len,
                num_queries,
                proof_of_work_bits: 0,
            },
        )
    }
}

/// A STARK configuration of Plonky3 over the Baby Bear field, beside the
/// parameters that it was built with.
#[verifier::external_body]
pub struct BabyBearStark {
    pub(crate) stark_config: KeccakMtStark<BabyBear, BabyBearExt>,
    params: KeccakMtConfig,
}

/// A STARK configuration of Plonky3 over the Koala Bear field, beside the
/// parameters that it was built with.
#[verifier::external_body]
pub struct KoalaBearStark {
    pub(crate) stark_config: KeccakMtStark<KoalaBear, KoalaBearExt>,
    params: KeccakMtConfig,
}

/// A proof of Plonky3 over the Baby Bear field.
#[verifier::external_body]
pub struct BabyBearProof {
    pub(crate) proof: Proof<KeccakMtStark<BabyBear, BabyBearExt>>,
}

/// A proof of Plonky3 over the Koala Bear field.
#[verifier::external_body]
pub struct KoalaBearProof {
    pub(crate) proof: Proof<KeccakMtStark<KoalaBear, KoalaBearExt>>,
}

/// The parameters that a configuration over the Baby Bear field was built
/// with, which it holds beside the configuration of Plonky3.
pub uninterp spec fn baby_bear_stark_params(stark: BabyBearStark) -> KeccakMtConfig;

/// The parameters that a configuration over the Koala Bear field was built
/// with, which it holds beside the configuration of Plonky3.
pub uninterp spec fn koala_bear_stark_params(stark: KoalaBearStark) -> KeccakMtConfig;

/// What `bincode::serialize` gives for a proof over the Baby Bear field: its
/// bytes, or nothing where it fails.
pub uninterp spec fn baby_bear_proof_bytes(proof: BabyBearProof) -> Option<Seq<u8>>;

/// What `bincode::serialize` gives for a proof over the Koala Bear field: its
/// bytes, or nothing where it fails.
pub uninterp spec fn koala_bear_proof_bytes(proof: KoalaBearProof) -> Option<Seq<u8>>;

/// What `bincode::deserialize` gives for bytes: the proof over the Baby Bear
/// field that they begin with, or nothing where they begin with none.
pub uninterp spec fn baby_bear_proof_read(bytes: Seq<u8>) -> Option<BabyBearProof>;

/// What `bincode::deserialize` gives for bytes: the proof over the Koala Bear
/// field that they begin with, or nothing where they begin with none.
pub uninterp spec fn koala_bear_proof_read(bytes: Seq<u8>) -> Option<KoalaBearProof>;

/// The number of commitments of the folding rounds that a proof over the
/// Baby Bear field holds.
pub uninterp spec fn baby_bear_proof_rounds(proof: BabyBearProof) -> nat;

/// The number of commitments of the folding rounds that a proof over the
/// Koala Bear field holds.
pub uninterp spec fn koala_bear_proof_rounds(proof: KoalaBearProof) -> nat;

/// What `bincode::deserialize` gives for bytes as the parts of a proof over
/// the Baby Bear field: the number of commitments of the folding rounds
/// among them, or nothing where the bytes do not begin with such parts.
pub uninterp spec fn baby_bear_rounds_in(bytes: Seq<u8>) -> Option<usize>;

/// What `bincode::deserialize` gives for bytes as the parts of a proof over
/// the Koala Bear field: the number of commitments of the folding rounds
/// among them, or nothing where the bytes do not begin with such parts.
pub uninterp spec fn koala_bear_rounds_in(bytes: Seq<u8>) -> Option<usize>;

/// The logarithm of the number of rows that a proof over the Baby Bear field
/// says its trace has.
pub uninterp spec fn baby_bear_proof_degree_bits(proof: BabyBearProof) -> nat;

/// The logarithm of the number of rows that a proof over the Koala Bear field
/// says its trace has.
pub uninterp spec fn koala_bear_proof_degree_bits(proof: KoalaBearProof) -> nat;

/// Computes [`last_u64`].
fn read_last_u64(bytes: &Vec<u8>) -> (last: Option<u64>)
    ensures
        bytes@.len() < 8 ==> last.is_none(),
        bytes@.len() >= 8 ==> last == Some(last_u64(bytes@) as u64),
{
    let len = bytes.len();
    if len < 8 {
        return None;
    }
    let tail = vstd::slice::slice_subrange(bytes.as_slice(), len - 8, len);
    Some(u64_from_le_bytes(tail))
}

/// Builds the configuration of Plonky3 from the parameters: the constructors
/// `PaddingFreeSponge::new`, `SerializingHasher::new`,
/// `CompressionFunctionFromHasher::new`, `MerkleTreeMmcs::new`,
/// `ExtensionMmcs::new`, `TwoAdicFriPcs::new`,
/// `SerializingChallenger32::from_hasher` and `StarkConfig::new`, each of
/// which stores its arguments. The parameters are kept beside what they
/// build.
#[verifier::external_body]
fn baby_bear_stark(params: &KeccakMtConfig) -> (stark: BabyBearStark)
    ensures
        baby_bear_stark_params(stark) == *params,
{
    let u64_hash = U64Hash::new(KeccakF {});
    let val_mmcs = ValMmcs::<BabyBear>::new(FieldHash::new(u64_hash), Compress::new(u64_hash));
    let fri = FriParameters {
        log_blowup: params.log_blowup,
        log_final_poly_len: params.log_final_poly_len,
        num_queries: params.num_queries,
        proof_of_work_bits: params.proof_of_work_bits,
        mmcs: ChallengeMmcs::<BabyBear, BabyBearExt>::new(val_mmcs.clone()),
    };
    let pcs = Pcs::<BabyBear, BabyBearExt>::new(Radix2DitParallel::default(), val_mmcs, fri);
    let challenger = Challenger::<BabyBear>::from_hasher(vec![], Keccak256Hash {});
    BabyBearStark { stark_config: StarkConfig::new(pcs, challenger), params: *params }
}

/// Builds the configuration of Plonky3 from the parameters, as
/// [`baby_bear_stark`] does, over the Koala Bear field.
#[verifier::external_body]
fn koala_bear_stark(params: &KeccakMtConfig) -> (stark: KoalaBearStark)
    ensures
        koala_bear_stark_params(stark) == *params,
{
    let u64_hash = U64Hash::new(KeccakF {});
    let val_mmcs = ValMmcs::<KoalaBear>::new(FieldHash::new(u64_hash), Compress::new(u64_hash));
    let fri = FriParameters {
        log_blowup: params.log_blowup,
        log_final_poly_len: params.log_final_poly_len,
        num_queries: params.num_queries,
        proof_of_work_bits: params.proof_of_work_bits,
        mmcs: ChallengeMmcs::<KoalaBear, KoalaBearExt>::new(val_mmcs.clone()),
    };
    let pcs = Pcs::<KoalaBear, KoalaBearExt>::new(Radix2DitParallel::default(), val_mmcs, fri);
    let challenger = Challenger::<KoalaBear>::from_hasher(vec![], Keccak256Hash {});
    KoalaBearStark { stark_config: StarkConfig::new(pcs, challenger), params: *params }
}

/// `bincode::serialize` writes a proof to bytes. It fails on a limit of size,
/// on a sequence without a length, where its writer fails and where a part
/// refuses to be written: it sets no limit and writes into a vector, and the
/// parts of a proof are structures, vectors, arrays and numbers, none of which
/// refuses. It writes the fields of a structure in their order, as it writes
/// a tuple of them, and a number in eight bytes, the least first. The last
/// field of a proof is the logarithm of the number of rows of its trace; the
/// third is the opening proof, which holds the commitments of the folding
/// rounds.
#[verifier::external_body]
fn encode_baby_bear_proof(proof: &BabyBearProof) -> (bytes: Option<Vec<u8>>)
    ensures
        bytes is Some,
        bytes matches Some(written) ==> baby_bear_rounds_in(written@) is Some && baby_bear_rounds_in(
            written@,
        ).unwrap() == baby_bear_proof_rounds(*proof),
        bytes matches Some(written) ==> baby_bear_proof_bytes(*proof) == Some(written@),
        bytes matches Some(written) ==> written@.len() >= 8 && last_u64(written@)
            == baby_bear_proof_degree_bits(*proof),
{
    bincode::serialize(&proof.proof).ok()
}

/// `bincode::deserialize` reads the parts of a proof from the beginning of
/// the bytes, and fails where they do not begin with such parts. The
/// commitments of the folding rounds are a field of the third part.
#[verifier::external_body]
fn read_baby_bear_rounds(bytes: &Vec<u8>) -> (rounds: Option<usize>)
    ensures
        rounds == baby_bear_rounds_in(bytes@),
{
    let parts = bincode::deserialize::<ProofParts<BabyBear, BabyBearExt>>(bytes).ok()?;
    Some(parts.2.commit_phase_commits.len())
}

/// `bincode::deserialize` reads a proof from the beginning of the bytes, and
/// fails where they do not begin with one.
#[verifier::external_body]
fn decode_baby_bear_proof(data: &[u8]) -> (proof: Option<BabyBearProof>)
    ensures
        proof == baby_bear_proof_read(data@),
{
    bincode::deserialize(data).ok().map(|proof| BabyBearProof { proof })
}

/// `bincode::serialize` writes a proof to bytes. It fails on a limit of size,
/// on a sequence without a length, where its writer fails and where a part
/// refuses to be written: it sets no limit and writes into a vector, and the
/// parts of a proof are structures, vectors, arrays and numbers, none of which
/// refuses. It writes the fields of a structure in their order, as it writes
/// a tuple of them, and a number in eight bytes, the least first. The last
/// field of a proof is the logarithm of the number of rows of its trace; the
/// third is the opening proof, which holds the commitments of the folding
/// rounds.
#[verifier::external_body]
fn encode_koala_bear_proof(proof: &KoalaBearProof) -> (bytes: Option<Vec<u8>>)
    ensures
        bytes is Some,
        bytes matches Some(written) ==> koala_bear_rounds_in(written@) is Some && koala_bear_rounds_in(
            written@,
        ).unwrap() == koala_bear_proof_rounds(*proof),
        bytes matches Some(written) ==> koala_bear_proof_bytes(*proof) == Some(written@),
        bytes matches Some(written) ==> written@.len() >= 8 && last_u64(written@)
            == koala_bear_proof_degree_bits(*proof),
{
    bincode::serialize(&proof.proof).ok()
}

/// `bincode::deserialize` reads the parts of a proof from the beginning of
/// the bytes, and fails where they do not begin with such parts. The
/// commitments of the folding rounds are a field of the third part.
#[verifier::external_body]
fn read_koala_bear_rounds(bytes: &Vec<u8>) -> (rounds: Option<usize>)
    ensures
        rounds == koala_bear_rounds_in(bytes@),
{
    let parts = bincode::deserialize::<ProofParts<KoalaBear, KoalaBearExt>>(bytes).ok()?;
    Some(parts.2.commit_phase_commits.len())
}

/// `bincode::deserialize` reads a proof from the beginning of the bytes, and
/// fails where they do not begin with one.
#[verifier::external_body]
fn decode_koala_bear_proof(data: &[u8]) -> (proof: Option<KoalaBearProof>)
    ensures
        proof == koala_bear_proof_read(data@),
{
    bincode::deserialize(data).ok().map(|proof| KoalaBearProof { proof })
}

/// The configuration over the Baby Bear field.
pub struct BabyBearKeccakMtConfig {
    params: KeccakMtConfig,
    stark: BabyBearStark,
}

impl BabyBearKeccakMtConfig {
    #[verifier::type_invariant]
    spec fn well_formed(self) -> bool {
        &&& valid_params(self.params, BABY_BEAR_TWO_ADICITY as nat)
        &&& baby_bear_stark_params(self.stark) == self.params
    }

    /// The parameters of the low-degree test.
    pub closed spec fn parameters(&self) -> KeccakMtConfig {
        self.params
    }

    /// The parameters of the low-degree test.
    pub fn params(&self) -> (params: KeccakMtConfig)
        ensures
            params == self.parameters(),
    {
        self.params
    }

    /// The configuration that the prover and the verifier take.
    pub closed spec fn stark_config(&self) -> BabyBearStark {
        self.stark
    }

    /// The configuration that the prover and the verifier take.
    pub fn stark(&self) -> (stark: &BabyBearStark)
        ensures
            *stark == self.stark_config(),
            baby_bear_stark_params(*stark) == self.parameters(),
            valid_params(self.parameters(), BABY_BEAR_TWO_ADICITY as nat),
    {
        proof {
            use_type_invariant(self);
        }
        &self.stark
    }
}

impl Plonky3Config for BabyBearKeccakMtConfig {
    type Proof = BabyBearProof;

    open spec fn height(&self) -> nat {
        self.parameters().trace_height as nat
    }

    open spec fn blowup(&self) -> nat {
        self.parameters().log_blowup as nat
    }

    open spec fn takes(trace_height: nat, log_blowup: nat) -> bool {
        log_blowup > 0 && fits_field(trace_height, log_blowup, BABY_BEAR_TWO_ADICITY as nat)
    }

    fn new(trace_height: usize, log_blowup: usize) -> (r: Result<Self, ConfigError>)
        ensures
            log_blowup == 0 ==> r matches Err(ConfigError::LogInvRateOutOfRange),
            log_blowup > 0 && !fits_field(
                trace_height as nat,
                log_blowup as nat,
                BABY_BEAR_TWO_ADICITY as nat,
            ) ==> r matches Err(ConfigError::CountTooLarge),
            log_blowup > 0 && fits_field(
                trace_height as nat,
                log_blowup as nat,
                BABY_BEAR_TWO_ADICITY as nat,
            ) ==> r.is_ok(),
            r matches Ok(config) ==> config.parameters() == keccak_mt_config_for(
                trace_height,
                log_blowup,
            ),
    {
        match KeccakMtConfig::new(trace_height, log_blowup, BABY_BEAR_TWO_ADICITY) {
            Ok(params) => {
                let stark = baby_bear_stark(&params);
                Ok(BabyBearKeccakMtConfig { params, stark })
            },
            Err(e) => Err(e),
        }
    }

    open spec fn encoding(proof: &Self::Proof) -> Option<Seq<u8>> {
        baby_bear_proof_bytes(*proof)
    }

    open spec fn decoding(bytes: Seq<u8>) -> Option<Self::Proof> {
        baby_bear_proof_read(bytes)
    }

    fn serialize_proof(proof: &Self::Proof) -> (bytes: Vec<u8>) {
        encode_baby_bear_proof(proof).unwrap()
    }

    fn deserialize_proof(data: &[u8]) -> (proof: Option<Self::Proof>) {
        decode_baby_bear_proof(data)
    }

    open spec fn degree_bits(proof: &Self::Proof) -> nat {
        baby_bear_proof_degree_bits(*proof)
    }

    fn proof_degree_bits(proof: &Self::Proof) -> (bits: Option<u64>) {
        let bytes = encode_baby_bear_proof(proof).unwrap();
        read_last_u64(&bytes)
    }

    open spec fn commit_rounds(proof: &Self::Proof) -> nat {
        baby_bear_proof_rounds(*proof)
    }

    open spec fn rounds_in(bytes: Seq<u8>) -> Option<usize> {
        baby_bear_rounds_in(bytes)
    }

    fn proof_commit_rounds(proof: &Self::Proof) -> (rounds: Option<usize>) {
        let bytes = encode_baby_bear_proof(proof).unwrap();
        read_baby_bear_rounds(&bytes)
    }
}

/// The configuration over the Koala Bear field.
pub struct KoalaBearKeccakMtConfig {
    params: KeccakMtConfig,
    stark: KoalaBearStark,
}

impl KoalaBearKeccakMtConfig {
    #[verifier::type_invariant]
    spec fn well_formed(self) -> bool {
        &&& valid_params(self.params, KOALA_BEAR_TWO_ADICITY as nat)
        &&& koala_bear_stark_params(self.stark) == self.params
    }

    /// The parameters of the low-degree test.
    pub closed spec fn parameters(&self) -> KeccakMtConfig {
        self.params
    }

    /// The parameters of the low-degree test.
    pub fn params(&self) -> (params: KeccakMtConfig)
        ensures
            params == self.parameters(),
    {
        self.params
    }

    /// The configuration that the prover and the verifier take.
    pub closed spec fn stark_config(&self) -> KoalaBearStark {
        self.stark
    }

    /// The configuration that the prover and the verifier take.
    pub fn stark(&self) -> (stark: &KoalaBearStark)
        ensures
            *stark == self.stark_config(),
            koala_bear_stark_params(*stark) == self.parameters(),
            valid_params(self.parameters(), KOALA_BEAR_TWO_ADICITY as nat),
    {
        proof {
            use_type_invariant(self);
        }
        &self.stark
    }
}

impl Plonky3Config for KoalaBearKeccakMtConfig {
    type Proof = KoalaBearProof;

    open spec fn height(&self) -> nat {
        self.parameters().trace_height as nat
    }

    open spec fn blowup(&self) -> nat {
        self.parameters().log_blowup as nat
    }

    open spec fn takes(trace_height: nat, log_blowup: nat) -> bool {
        log_blowup > 0 && fits_field(trace_height, log_blowup, KOALA_BEAR_TWO_ADICITY as nat)
    }

    fn new(trace_height: usize, log_blowup: usize) -> (r: Result<Self, ConfigError>)
        ensures
            log_blowup == 0 ==> r matches Err(ConfigError::LogInvRateOutOfRange),
            log_blowup > 0 && !fits_field(
                trace_height as nat,
                log_blowup as nat,
                KOALA_BEAR_TWO_ADICITY as nat,
            ) ==> r matches Err(ConfigError::CountTooLarge),
            log_blowup > 0 && fits_field(
                trace_height as nat,
                log_blowup as nat,
                KOALA_BEAR_TWO_ADICITY as nat,
            ) ==> r.is_ok(),
            r matches Ok(config) ==> config.parameters() == keccak_mt_config_for(
                trace_height,
                log_blowup,
            ),
    {
        match KeccakMtConfig::new(trace_height, log_blowup, KOALA_BEAR_TWO_ADICITY) {
            Ok(params) => {
                let stark = koala_bear_stark(&params);
                Ok(KoalaBearKeccakMtConfig { params, stark })
            },
            Err(e) => Err(e),
        }
    }

    open spec fn encoding(proof: &Self::Proof) -> Option<Seq<u8>> {
        koala_bear_proof_bytes(*proof)
    }

    open spec fn decoding(bytes: Seq<u8>) -> Option<Self::Proof> {
        koala_bear_proof_read(bytes)
    }

    fn serialize_proof(proof: &Self::Proof) -> (bytes: Vec<u8>) {
        encode_koala_bear_proof(proof).unwrap()
    }

    fn deserialize_proof(data: &[u8]) -> (proof: Option<Self::Proof>) {
        decode_koala_bear_proof(data)
    }

    open spec fn degree_bits(proof: &Self::Proof) -> nat {
        koala_bear_proof_degree_bits(*proof)
    }

    fn proof_degree_bits(proof: &Self::Proof) -> (bits: Option<u64>) {
        let bytes = encode_koala_bear_proof(proof).unwrap();
        read_last_u64(&bytes)
    }

    open spec fn commit_rounds(proof: &Self::Proof) -> nat {
        koala_bear_proof_rounds(*proof)
    }

    open spec fn rounds_in(bytes: Seq<u8>) -> Option<usize> {
        koala_bear_rounds_in(bytes)
    }

    fn proof_commit_rounds(proof: &Self::Proof) -> (rounds: Option<usize>) {
        let bytes = encode_koala_bear_proof(proof).unwrap();
        read_koala_bear_rounds(&bytes)
    }
}

} // verus!
