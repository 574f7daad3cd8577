//! The contract between the harness and a proving backend, and the harness:
//! one timed proof, the warm-up, the benchmark and the check that a proof
//! survives its own serialisation.

use crate::config::{lemma_ceil_div, ConfigError};
use crate::power::ceil_div;
use crate::stats::{
    failure, lemma_totals_push, measures, total_nanos, Accumulator, BenchError, Measurement,
    Sample,
};
use crate::util::MAX_DURATION_NANOS;
use rand::rngs::StdRng;
use rand::SeedableRng;
use vstd::prelude::*;

verus! {

/// The random number generator of the `rand` crate that the inputs are drawn
/// from.
#[verifier::external_type_specification]
#[verifier::external_body]
pub struct ExStdRng(StdRng);

/// A reading of the clock.
#[verifier::external_type_specification]
#[verifier::external_body]
pub struct ExInstant(std::time::Instant);

/// `Instant::now` reads the clock.
pub assume_specification[ std::time::Instant::now ]() -> (start: std::time::Instant)
;

/// `Instant::elapsed` gives the time since the instant was taken.
pub assume_specification[ std::time::Instant::elapsed ](start: &std::time::Instant) -> (elapsed:
    core::time::Duration)
;

/// `black_box` gives its argument back; the compiler assumes that anything
/// may have been done with it.
pub assume_specification<T>[ core::hint::black_box::<T> ](dummy: T) -> (same: T)
    ensures
        same == dummy,
;

/// `StdRng::try_from_os_rng` seeds a generator from the system's randomness,
/// and fails where the system gives none.
#[verifier::external_body]
pub(crate) fn entropy_rng() -> Option<StdRng> {
    StdRng::try_from_os_rng().ok()
}

/// Why a proof fails the check of its serialisation.
#[derive(Debug)]
pub enum RoundTripError<E> {
    /// The system has no randomness to seed the input with.
    RandomSource,
    /// The proof does not verify as the prover made it.
    Rejected(E),
    /// The bytes of the proof cannot be read back.
    Undecodable,
    /// The proof read back from its bytes does not verify.
    RejectedAfterRoundTrip(E),
}

/// A proving backend that proves a batch of hash permutations.
pub trait HashInSnark: Sized {
    /// What a proof is made from.
    type Input;

    /// What the prover makes.
    type Proof;

    /// Why the verifier rejects a proof.
    type Error;

    /// Sets the backend up for at least `num_permutations` permutations in
    /// each proof, with a commitment scheme of the inverse rate two to the
    /// power `log_inv_rate`.
    fn new(num_permutations: usize, log_inv_rate: usize) -> Result<Self, ConfigError>;

    /// The number of permutations that each proof covers.
    fn num_permutations(&self) -> usize;

    /// Draws the input of one proof.
    fn generate_input(&self, rng: &mut StdRng) -> Self::Input;

    /// Proves the permutations of `input`.
    fn prove(&self, input: Self::Input) -> Self::Proof;

    /// Checks a proof.
    fn verify(&self, proof: &Self::Proof) -> Result<(), Self::Error>;

    /// The bytes of a proof.
    fn serialize_proof(proof: &Self::Proof) -> Vec<u8>;

    /// The proof that `data` holds, if it holds one.
    fn deserialize_proof(data: &[u8]) -> Option<Self::Proof>;

    /// Proves a fresh input, checks the proof, writes it to bytes, reads it
    /// back and checks it again. Gives the number of bytes where both checks
    /// pass, and else the first step that failed: unless the system has no
    /// randomness for an input, the result is the verdict on what the
    /// backend's own prover, verifier, writer and reader gave.
    fn proof_size(&self) -> (r: Result<usize, RoundTripError<Self::Error>>)
        ensures
            r matches Err(RoundTripError::RandomSource) || exists|
                input: Self::Input,
                proof: Self::Proof,
                fresh: Result<(), Self::Error>,
                bytes: Vec<u8>,
                data: &[u8],
                back: Option<Self::Proof>,
                second: Result<(), Self::Error>,
            |
                #[trigger] checked(
                    call_ensures(Self::prove, (self, input), proof),
                    call_ensures(Self::verify, (self, &proof), fresh),
                    fresh,
                    call_ensures(Self::serialize_proof, (&proof,), bytes),
                    bytes,
                    same_bytes(data, bytes, call_ensures(Self::deserialize_proof, (data,), back)),
                    back,
                    call_ensures(Self::verify, (self, &back->Some_0), second),
                    second,
                    r,
                ),
    {
        let mut rng = match entropy_rng() {
            Some(rng) => rng,
            None => { return Err(RoundTripError::RandomSource); },
        };
        let input = self.generate_input(&mut rng);
        let proof = self.prove(input);
        let fresh = self.verify(&proof);
        if fresh.is_err() {
            let r = round_trip_verdict(fresh, None, 0);
            proof {
                let bytes = arbitrary::<Vec<u8>>();
                let data = arbitrary::<&[u8]>();
                assert(checked(
                    call_ensures(Self::prove, (self, input), proof),
                    call_ensures(Self::verify, (self, &proof), fresh),
                    fresh,
                    call_ensures(Self::serialize_proof, (&proof,), bytes),
                    bytes,
                    same_bytes(
                        data,
                        bytes,
                        call_ensures(Self::deserialize_proof, (data,), None::<Self::Proof>),
                    ),
                    None::<Self::Proof>,
                    call_ensures(Self::verify, (self, &None::<Self::Proof>->Some_0), fresh),
                    fresh,
                    r,
                ));
            }
            return r;
        }
        let bytes = Self::serialize_proof(&proof);
        let data = bytes.as_slice();
        let back = Self::deserialize_proof(data);
        match &back {
            Some(read) => {
                let second = self.verify(read);
                let r = round_trip_verdict(fresh, Some(second), bytes.len());
                proof {
                    assert(checked(
                        call_ensures(Self::prove, (self, input), proof),
                        call_ensures(Self::verify, (self, &proof), fresh),
                        fresh,
                        call_ensures(Self::serialize_proof, (&proof,), bytes),
                        bytes,
                        same_bytes(data, bytes, call_ensures(Self::deserialize_proof, (data,), back)),
                        back,
                        call_ensures(Self::verify, (self, &back->Some_0), second),
                        second,
                        r,
                    ));
                }
                r
            },
            None => {
                let r = round_trip_verdict(fresh, None, bytes.len());
                proof {
                    assert(checked(
                        call_ensures(Self::prove, (self, input), proof),
                        call_ensures(Self::verify, (self, &proof), fresh),
                        fresh,
                        call_ensures(Self::serialize_proof, (&proof,), bytes),
                        bytes,
                        same_bytes(data, bytes, call_ensures(Self::deserialize_proof, (data,), back)),
                        back,
                        call_ensures(Self::verify, (self, &back->Some_0), fresh),
                        fresh,
                        r,
                    ));
                }
                r
            },
        }
    }
}

/// Whether `r` is what setting the backend up for `num_permutations`
/// permutations and the inverse rate two to the power `log_inv_rate` gave.
pub open spec fn set_up<H: HashInSnark>(
    num_permutations: usize,
    log_inv_rate: usize,
    r: Result<H, ConfigError>,
) -> bool {
    call_ensures(H::new, (num_permutations, log_inv_rate), r)
}

/// Whether `proof` is what the backend's prover made of `input`.
pub open spec fn proved<H: HashInSnark>(snark: &H, input: H::Input, proof: H::Proof) -> bool {
    call_ensures(H::prove, (snark, input), proof)
}

/// Whether `verdict` is what the backend's verifier said of `proof`.
pub open spec fn verified<H: HashInSnark>(
    snark: &H,
    proof: &H::Proof,
    verdict: Result<(), H::Error>,
) -> bool {
    call_ensures(H::verify, (snark, proof), verdict)
}

/// Whether `bytes` are what the backend wrote `proof` to.
pub open spec fn written<H: HashInSnark>(proof: &H::Proof, bytes: Vec<u8>) -> bool {
    call_ensures(H::serialize_proof, (proof,), bytes)
}

/// Whether `proof` is what the backend read from `data`.
pub open spec fn read_back<H: HashInSnark>(data: &[u8], proof: Option<H::Proof>) -> bool {
    call_ensures(H::deserialize_proof, (data,), proof)
}

/// Whether the backend made a proof of some input and wrote it to `size`
/// bytes.
pub open spec fn proof_of_size<H: HashInSnark>(snark: &H, size: usize) -> bool {
    exists|input: H::Input, proof: H::Proof, bytes: Vec<u8>|
        #![trigger proved(snark, input, proof), written::<H>(&proof, bytes)]
        proved(snark, input, proof) && written::<H>(&proof, bytes) && bytes@.len() == size
}

/// Whether `data` are the bytes `bytes` and `read` holds of them.
pub open spec fn same_bytes(data: &[u8], bytes: Vec<u8>, read: bool) -> bool {
    data@ == bytes@ && read
}

/// Whether `r` is what the check of the serialisation of a proof gives. Each
/// of the five conditions says that the backend gave what the check goes by:
/// `proved`, that it made the proof of an input; `verified`, that its verifier
/// said `fresh` of the proof; `written`, that it wrote the proof to `bytes`;
/// `read`, that it read `back` from those bytes; `verified_again`, that its
/// verifier said `second` of the proof that `back` holds. A proof that the
/// verifier rejects is not written, and of bytes that hold no proof nothing
/// is verified.
pub open spec fn checked<P, E>(
    proved: bool,
    verified: bool,
    fresh: Result<(), E>,
    written: bool,
    bytes: Vec<u8>,
    read: bool,
    back: Option<P>,
    verified_again: bool,
    second: Result<(), E>,
    r: Result<usize, RoundTripError<E>>,
) -> bool {
    &&& proved
    &&& verified
    &&& fresh is Err ==> r == round_trip_verdict_spec(fresh, None, 0)
    &&& fresh is Ok ==> {
        &&& written
        &&& read
        &&& match back {
            None => r == round_trip_verdict_spec(fresh, None, bytes.len()),
            Some(_) => verified_again && r == round_trip_verdict_spec(
                fresh,
                Some(second),
                bytes.len(),
            ),
        }
    }
}

/// What the check of a proof's serialisation gives: the size of the proof
/// where the proof verified as made (`fresh`) and as read back (`decoded`,
/// which is `None` where the bytes could not be read), else the first of the
/// steps that failed.
pub open spec fn round_trip_verdict_spec<E>(
    fresh: Result<(), E>,
    decoded: Option<Result<(), E>>,
    size: usize,
) -> Result<usize, RoundTripError<E>> {
    match fresh {
        Err(e) => Err(RoundTripError::Rejected(e)),
        Ok(_) => match decoded {
            None => Err(RoundTripError::Undecodable),
            Some(Err(e)) => Err(RoundTripError::RejectedAfterRoundTrip(e)),
            Some(Ok(_)) => Ok(size),
        },
    }
}

/// Computes [`round_trip_verdict_spec`].
pub fn round_trip_verdict<E>(
    fresh: Result<(), E>,
    decoded: Option<Result<(), E>>,
    size: usize,
) -> (r: Result<usize, RoundTripError<E>>)
    ensures
        r == round_trip_verdict_spec(fresh, decoded, size),
{
    match fresh {
        Err(e) => Err(RoundTripError::Rejected(e)),
        Ok(_) => match decoded {
            None => Err(RoundTripError::Undecodable),
            Some(Err(e)) => Err(RoundTripError::RejectedAfterRoundTrip(e)),
            Some(Ok(_)) => Ok(size),
        },
    }
}

/// A size is given only for a proof that verified both as made and as read
/// back from its bytes, and it is then the size handed in.
pub proof fn lemma_round_trip_sound<E>(
    fresh: Result<(), E>,
    decoded: Option<Result<(), E>>,
    size: usize,
)
    ensures
        round_trip_verdict_spec(fresh, decoded, size).is_ok() <==> fresh.is_ok() && decoded
            matches Some(Ok(_)),
        round_trip_verdict_spec(fresh, decoded, size) matches Ok(n) ==> n == size,
{
}

/// Why the proofs of a backend do not have the sizes that are expected of
/// them.
#[derive(Debug)]
pub enum ProofSizeError<E> {
    /// The backend cannot be set up as asked.
    Config(ConfigError),
    /// A proof fails the check of its serialisation.
    RoundTrip(RoundTripError<E>),
    /// A proof for `num_permutations` permutations has `actual` bytes.
    Mismatch { num_permutations: usize, expected: usize, actual: usize },
}

/// What the size of a proof for `num_permutations` permutations says of the
/// size that is expected of it.
pub open spec fn size_verdict<E>(num_permutations: usize, expected: usize, actual: usize) -> Result<
    (),
    ProofSizeError<E>,
> {
    if actual == expected {
        Ok(())
    } else {
        Err(ProofSizeError::Mismatch { num_permutations, expected, actual })
    }
}

/// Computes [`size_verdict`].
pub fn check_size<E>(num_permutations: usize, expected: usize, actual: usize) -> (r: Result<
    (),
    ProofSizeError<E>,
>)
    ensures
        r == size_verdict::<E>(num_permutations, expected, actual),
{
    if actual == expected {
        Ok(())
    } else {
        Err(ProofSizeError::Mismatch { num_permutations, expected, actual })
    }
}

/// Whether `r` is what the check of the serialisation of a proof of the
/// backend gave.
pub open spec fn round_trips<H: HashInSnark>(
    snark: &H,
    r: Result<usize, RoundTripError<H::Error>>,
) -> bool {
    call_ensures(H::proof_size, (snark,), r)
}

/// Whether a backend that was set up for `num_permutations` permutations made
/// a proof that survived its serialisation and has `size` bytes.
pub open spec fn sized<H: HashInSnark>(
    num_permutations: usize,
    log_inv_rate: usize,
    size: usize,
) -> bool {
    exists|snark: H|
        #![trigger set_up::<H>(num_permutations, log_inv_rate, Ok(snark))]
        set_up::<H>(num_permutations, log_inv_rate, Ok(snark)) && round_trips(
            &snark,
            Ok::<usize, RoundTripError<H::Error>>(size),
        )
}

/// A size is reported only for a proof that the backend made, that its
/// verifier accepted, and that the verifier accepted again when it was read
/// back from its bytes; and the size is the number of those bytes.
pub proof fn lemma_size_of_surviving_proof<H: HashInSnark>(snark: &H, size: usize)
    requires
        round_trips(snark, Ok::<usize, RoundTripError<H::Error>>(size)),
    ensures
        exists|
            input: H::Input,
            proof: H::Proof,
            fresh: Result<(), H::Error>,
            bytes: Vec<u8>,
            data: &[u8],
            back: H::Proof,
            second: Result<(), H::Error>,
        |
            #![trigger proved(snark, input, proof), verified(snark, &proof, fresh), written::<H>(&proof, bytes), read_back::<H>(data, Some(back)), verified(snark, &back, second)]
            {
                &&& proved(snark, input, proof)
                &&& verified(snark, &proof, fresh)
                &&& fresh is Ok
                &&& written::<H>(&proof, bytes)
                &&& bytes@.len() == size
                &&& data@ == bytes@
                &&& read_back::<H>(data, Some(back))
                &&& verified(snark, &back, second)
                &&& second is Ok
            },
{
    let r = Ok::<usize, RoundTripError<H::Error>>(size);
    let (input, proof, fresh, bytes, data, back, second) = choose|
        input: H::Input,
        proof: H::Proof,
        fresh: Result<(), H::Error>,
        bytes: Vec<u8>,
        data: &[u8],
        back: Option<H::Proof>,
        second: Result<(), H::Error>,
    |
        #[trigger] checked(
            call_ensures(H::prove, (snark, input), proof),
            call_ensures(H::verify, (snark, &proof), fresh),
            fresh,
            call_ensures(H::serialize_proof, (&proof,), bytes),
            bytes,
            same_bytes(data, bytes, call_ensures(H::deserialize_proof, (data,), back)),
            back,
            call_ensures(H::verify, (snark, &back->Some_0), second),
            second,
            r,
        );
    assert(fresh is Ok);
    assert(back is Some);
    assert(second is Ok);
    let read = back->Some_0;
    assert(back == Some(read));
    assert(proved(snark, input, proof) && verified(snark, &proof, fresh) && written::<H>(
        &proof,
        bytes,
    ) && read_back::<H>(data, Some(read)) && verified(snark, &read, second));
}

/// Holds a backend to the sizes of its proofs: for each pair of a number of
/// permutations and a number of bytes it sets the backend up for that many
/// permutations, proves once and compares the size of the proof, which has
/// survived its serialisation, with the number of bytes. It stops at the first
/// pair that fails.
pub fn assert_proof_size<H: HashInSnark>(cases: &Vec<(usize, usize)>, log_inv_rate: usize) -> (r:
    Result<(), ProofSizeError<H::Error>>)
    ensures
        r is Ok ==> forall|i: int|
            0 <= i < cases@.len() ==> #[trigger] sized::<H>(cases@[i].0, log_inv_rate, cases@[i].1),
        r matches Err(ProofSizeError::Mismatch { num_permutations, expected, actual }) ==> {
            &&& actual != expected
            &&& cases@.contains((num_permutations, expected))
            &&& sized::<H>(num_permutations, log_inv_rate, actual)
        },
        r matches Err(ProofSizeError::Config(e)) ==> exists|i: int|
            0 <= i < cases@.len() && #[trigger] set_up::<H>(
                cases@[i].0,
                log_inv_rate,
                Err::<H, ConfigError>(e),
            ),
        r matches Err(ProofSizeError::RoundTrip(e)) ==> exists|i: int, snark: H|
            0 <= i < cases@.len() && #[trigger] set_up::<H>(cases@[i].0, log_inv_rate, Ok(snark))
                && round_trips(&snark, Err::<usize, RoundTripError<H::Error>>(e)),
{
    let mut i: usize = 0;
    while i < cases.len()
        invariant
            i <= cases@.len(),
            forall|j: int|
                0 <= j < i ==> #[trigger] sized::<H>(cases@[j].0, log_inv_rate, cases@[j].1),
        decreases cases@.len() - i,
    {
        let (num_permutations, expected) = cases[i];
        let snark = match H::new(num_permutations, log_inv_rate) {
            Ok(snark) => snark,
            Err(e) => {
                assert(set_up::<H>(cases@[i as int].0, log_inv_rate, Err::<H, ConfigError>(e)));
                return Err(ProofSizeError::Config(e));
            },
        };
        assert(set_up::<H>(cases@[i as int].0, log_inv_rate, Ok(snark)));
        let actual = match snark.proof_size() {
            Ok(actual) => actual,
            Err(e) => {
                assert(round_trips(&snark, Err::<usize, RoundTripError<H::Error>>(e)));
                return Err(ProofSizeError::RoundTrip(e));
            },
        };
        assert(round_trips(&snark, Ok::<usize, RoundTripError<H::Error>>(actual)));
        assert(sized::<H>(num_permutations, log_inv_rate, actual));
        match check_size(num_permutations, expected, actual) {
            Ok(_) => {},
            Err(e) => {
                assert(cases@[i as int] == (num_permutations, expected));
                return Err(e);
            },
        }
        i = i + 1;
    }
    Ok(())
}

/// One trial: draws an input, times the proof of it and measures the bytes
/// of the proof. Neither drawing the input nor writing the proof to bytes is
/// timed.
pub fn routine<H: HashInSnark>(snark: &H, rng: &mut StdRng) -> (sample: Sample)
    ensures
        sample.elapsed_nanos <= MAX_DURATION_NANOS,
        proof_of_size(snark, sample.proof_size),
{
    let input = core::hint::black_box(snark.generate_input(rng));
    let start = std::time::Instant::now();
    let proof = snark.prove(input);
    let elapsed = start.elapsed();
    let bytes = H::serialize_proof(&proof);
    let proof_size = bytes.len();
    proof {
        assert(proved(snark, input, proof) && written::<H>(&proof, bytes));
    }
    let _ = core::hint::black_box(proof);
    Sample { elapsed_nanos: elapsed.as_nanos(), proof_size }
}

/// The time that the proofs of a warm-up take together before it ends: three
/// seconds, in nanoseconds.
pub const WARM_UP_NANOS: u128 = 3_000_000_000;

/// What a warm-up did.
#[derive(Clone, Copy, Debug, PartialEq, Eq, Structural)]
pub struct WarmUp {
    /// The number of trials that were run.
    pub rounds: u64,
    /// The time that their proofs took together, in nanoseconds.
    pub elapsed_nanos: u128,
}

/// Whether a warm-up whose proofs have taken `elapsed_nanos` together goes on
/// with a further trial.
pub open spec fn warm_up_goes_on(elapsed_nanos: nat) -> bool {
    elapsed_nanos < WARM_UP_NANOS
}

/// Computes [`warm_up_goes_on`].
pub fn warm_up_continues(elapsed_nanos: u128) -> (goes_on: bool)
    ensures
        goes_on == warm_up_goes_on(elapsed_nanos as nat),
{
    elapsed_nanos < WARM_UP_NANOS
}

/// Whether each of `samples` has the size of a proof that the backend made and
/// wrote to bytes, and a time that a `Duration` holds.
pub open spec fn trials_of<H: HashInSnark>(snark: &H, samples: Seq<Sample>) -> bool {
    forall|i: int|
        0 <= i < samples.len() ==> (#[trigger] samples[i]).elapsed_nanos <= MAX_DURATION_NANOS
            && proof_of_size(snark, samples[i].proof_size)
}

/// Whether `samples` are the trials of a warm-up of the backend: there is at
/// least one, and before the last of them the warm-up was still going on.
pub open spec fn warm_trials<H: HashInSnark>(snark: &H, samples: Seq<Sample>) -> bool {
    &&& samples.len() >= 1
    &&& trials_of(snark, samples)
    &&& warm_up_goes_on(total_nanos(samples.drop_last()))
}

/// The times of trials that take `least` nanoseconds or more each take as
/// many times `least` together.
pub proof fn lemma_total_nanos_least(samples: Seq<Sample>, least: nat)
    requires
        forall|i: int| 0 <= i < samples.len() ==> (#[trigger] samples[i]).elapsed_nanos >= least,
    ensures
        total_nanos(samples) >= samples.len() * least,
    decreases samples.len(),
{
    if samples.len() > 0 {
        let front = samples.drop_last();
        assert forall|i: int| 0 <= i < front.len() implies (#[trigger] front[i]).elapsed_nanos
            >= least by {
            assert(front[i] == samples[i]);
        }
        lemma_total_nanos_least(front, least);
        assert(samples.len() * least == front.len() * least + least) by (nonlinear_arith)
            requires
                samples.len() == front.len() + 1,
        ;
    }
}

/// A warm-up whose trials take `least` nanoseconds or more each, with `least`
/// above zero, ends after at most [`WARM_UP_NANOS`] divided by `least`,
/// rounded up, trials: the trials before its last took less than
/// [`WARM_UP_NANOS`] together.
pub proof fn lemma_warm_up_rounds<H: HashInSnark>(snark: &H, samples: Seq<Sample>, least: nat)
    requires
        warm_trials(snark, samples),
        least > 0,
        forall|i: int| 0 <= i < samples.len() ==> (#[trigger] samples[i]).elapsed_nanos >= least,
    ensures
        (samples.len() - 1) * least < WARM_UP_NANOS,
        samples.len() <= ceil_div(WARM_UP_NANOS as nat, least),
{
    let front = samples.drop_last();
    assert forall|i: int| 0 <= i < front.len() implies (#[trigger] front[i]).elapsed_nanos
        >= least by {
        assert(front[i] == samples[i]);
    }
    lemma_total_nanos_least(front, least);
    let most = ceil_div(WARM_UP_NANOS as nat, least);
    lemma_ceil_div(WARM_UP_NANOS as nat, least);
    if samples.len() > most {
        assert((samples.len() - 1) * least >= least * most) by (nonlinear_arith)
            requires
                samples.len() - 1 >= most,
                least > 0,
        ;
    }
}

/// Runs trials until their proofs have taken [`WARM_UP_NANOS`] together, and
/// keeps none of their results. It runs at least one trial and ends with the
/// first whole trial that brings the time to [`WARM_UP_NANOS`]: what it gives
/// are the number and the total time of trials of the backend, before the
/// last of which the warm-up was still going on. The count of the trials
/// stops it if it ever reaches `u64::MAX`.
pub fn warm_up<H: HashInSnark>(snark: &H, rng: &mut StdRng) -> (done: WarmUp)
    ensures
        done.rounds >= 1,
        !warm_up_goes_on(done.elapsed_nanos as nat) || done.rounds == u64::MAX,
        exists|samples: Seq<Sample>| #[trigger]
            warm_trials(snark, samples) && samples.len() == done.rounds && total_nanos(samples)
                == done.elapsed_nanos,
{
    let mut rounds: u64 = 0;
    let mut elapsed_nanos: u128 = 0;
    let ghost mut samples: Seq<Sample> = Seq::empty();
    while warm_up_continues(elapsed_nanos) && rounds < u64::MAX
        invariant
            samples.len() == rounds,
            total_nanos(samples) == elapsed_nanos,
            trials_of(snark, samples),
            rounds > 0 ==> warm_up_goes_on(total_nanos(samples.drop_last())),
        decreases u64::MAX - rounds,
    {
        let sample = routine(snark, rng);
        proof {
            lemma_totals_push(samples, sample);
            assert(samples.push(sample).drop_last() =~= samples);
            samples = samples.push(sample);
        }
        elapsed_nanos = elapsed_nanos + sample.elapsed_nanos;
        rounds = rounds + 1;
    }
    proof {
        assert(warm_trials(snark, samples));
    }
    WarmUp { rounds, elapsed_nanos }
}

/// Whether the backend was set up for `num_permutations` permutations and
/// made a proof of some input.
pub open spec fn proved_once<H: HashInSnark>(num_permutations: usize, log_inv_rate: usize) -> bool {
    exists|snark: H, input: H::Input, proof: H::Proof|
        #![trigger set_up::<H>(num_permutations, log_inv_rate, Ok(snark)), proved(&snark, input, proof)]
        set_up::<H>(num_permutations, log_inv_rate, Ok(snark)) && proved(&snark, input, proof)
}

/// Sets the backend up and proves one input, without measuring anything. It
/// fails where the backend cannot be set up, with the backend's reason, and
/// where the system has no randomness for the input.
pub fn run<H: HashInSnark>(num_permutations: usize, log_inv_rate: usize) -> (r: Result<
    (),
    BenchError,
>)
    ensures
        r is Ok ==> proved_once::<H>(num_permutations, log_inv_rate),
        r matches Err(BenchError::Config(e)) ==> set_up::<H>(
            num_permutations,
            log_inv_rate,
            Err::<H, ConfigError>(e),
        ),
        r matches Err(BenchError::RandomSource) ==> exists|snark: H| #[trigger]
            set_up::<H>(num_permutations, log_inv_rate, Ok(snark)),
        r matches Err(e) ==> e is Config || e is RandomSource,
{
    let snark = match H::new(num_permutations, log_inv_rate) {
        Ok(snark) => snark,
        Err(e) => { return Err(BenchError::Config(e)); },
    };
    assert(set_up::<H>(num_permutations, log_inv_rate, Ok(snark)));
    let mut rng = match entropy_rng() {
        Some(rng) => rng,
        None => { return Err(BenchError::RandomSource); },
    };
    let input = core::hint::black_box(snark.generate_input(&mut rng));
    let proof = snark.prove(input);
    proof {
        assert(proved(&snark, input, proof));
    }
    let _ = core::hint::black_box(proof);
    Ok(())
}

/// Whether `count` is what the backend gave as the number of permutations of
/// each proof.
pub open spec fn counted<H: HashInSnark>(snark: &H, count: usize) -> bool {
    call_ensures(H::num_permutations, (snark,), count)
}

/// Whether the backend `snark` is what setting up for `num_permutations`
/// permutations and the inverse rate two to the power `log_inv_rate` gave,
/// `warm` are the trials of its warm-up and `samples` are trials of it.
pub open spec fn measured<H: HashInSnark>(
    num_permutations: usize,
    log_inv_rate: usize,
    snark: H,
    warm: Seq<Sample>,
    samples: Seq<Sample>,
) -> bool {
    &&& set_up::<H>(num_permutations, log_inv_rate, Ok(snark))
    &&& warm_trials(&snark, warm)
    &&& trials_of(&snark, samples)
}

/// Measures a backend: sets it up for `num_permutations` permutations and the
/// inverse rate two to the power `log_inv_rate`, warms it up, and runs
/// `sample_size` trials one after the other, which it reduces to their result
/// for the number of permutations that the backend gives. A benchmark of no
/// trial is refused before the backend is set up. A backend that cannot be
/// set up is not measured and its reason comes back. Where the system has no
/// randomness for the inputs, the backend was set up and nothing was proved.
/// The trials end early where their total time no longer fits a `Duration`.
pub fn bench<H: HashInSnark>(num_permutations: usize, sample_size: usize, log_inv_rate: usize) -> (r:
    Result<Measurement, BenchError>)
    ensures
        sample_size == 0 <==> r matches Err(BenchError::ZeroSampleSize),
        r matches Err(BenchError::Config(e)) ==> set_up::<H>(
            num_permutations,
            log_inv_rate,
            Err::<H, ConfigError>(e),
        ),
        r matches Err(BenchError::RandomSource) ==> exists|snark: H| #[trigger]
            set_up::<H>(num_permutations, log_inv_rate, Ok(snark)),
        r matches Ok(m) ==> exists|snark: H, warm: Seq<Sample>, samples: Seq<Sample>| #[trigger]
            measured(num_permutations, log_inv_rate, snark, warm, samples) && samples.len()
                == sample_size && counted(&snark, m.num_permutations) && measures(
                m,
                m.num_permutations,
                samples,
            ),
        r matches Err(BenchError::ZeroMeanTime) ==> exists|
            snark: H,
            warm: Seq<Sample>,
            samples: Seq<Sample>,
        | #[trigger]
            measured(num_permutations, log_inv_rate, snark, warm, samples) && samples.len()
                == sample_size && failure(samples) == Some(BenchError::ZeroMeanTime),
        r matches Err(BenchError::TimeOverflow) ==> exists|
            snark: H,
            warm: Seq<Sample>,
            samples: Seq<Sample>,
        | #[trigger]
            measured(num_permutations, log_inv_rate, snark, warm, samples) && 0 < samples.len()
                <= sample_size && failure(samples) == Some(BenchError::TimeOverflow),
{
    if sample_size == 0 {
        return Err(BenchError::ZeroSampleSize);
    }
    let snark = match H::new(num_permutations, log_inv_rate) {
        Ok(snark) => snark,
        Err(e) => { return Err(BenchError::Config(e)); },
    };
    assert(set_up::<H>(num_permutations, log_inv_rate, Ok(snark)));
    let mut rng = match entropy_rng() {
        Some(rng) => rng,
        None => { return Err(BenchError::RandomSource); },
    };
    let done = warm_up(&snark, &mut rng);
    let ghost warm = choose|warm: Seq<Sample>| #[trigger]
        warm_trials(&snark, warm) && warm.len() == done.rounds && total_nanos(warm)
            == done.elapsed_nanos;
    let mut acc = Accumulator::new();
    let mut trial: usize = 0;
    while trial < sample_size
        invariant
            trial <= sample_size,
            acc@.len() == trial,
            set_up::<H>(num_permutations, log_inv_rate, Ok(snark)),
            warm_trials(&snark, warm),
            trials_of(&snark, acc@),
        decreases sample_size - trial,
    {
        let sample = routine(&snark, &mut rng);
        let ghost before = acc@;
        match acc.record(sample) {
            Ok(_) => {},
            Err(e) => {
                proof {
                    let samples = before.push(sample);
                    assert(failure(samples) == Some(BenchError::TimeOverflow));
                    assert(measured(num_permutations, log_inv_rate, snark, warm, samples));
                }
                return Err(e);
            },
        }
        trial = trial + 1;
    }
    let count = snark.num_permutations();
    let r = acc.finish(count);
    proof {
        assert(measured(num_permutations, log_inv_rate, snark, warm, acc@));
        assert(counted(&snark, count));
        match r {
            Ok(m) => {
                assert(measures(m, m.num_permutations, acc@));
            },
            Err(e) => {
                assert(failure(acc@) == Some(e));
            },
        }
    }
    r
}

} // verus!
