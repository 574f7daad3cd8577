//! The reduction of the trials of a benchmark to its result: the mean time,
//! the throughput and the mean size of a proof.

use crate::config::ConfigError;
use crate::util::{Ratio, MAX_DURATION_NANOS};
use vstd::prelude::*;

verus! {

/// The number of nanoseconds in a second.
pub const NANOS_PER_SEC: u128 = 1_000_000_000;

/// What one trial gives: how long the proof took and how many bytes it has.
#[derive(Clone, Copy, Debug, PartialEq, Eq, Structural)]
pub struct Sample {
    pub elapsed_nanos: u128,
    pub proof_size: usize,
}

/// The result of a benchmark.
#[derive(Clone, Copy, Debug)]
pub struct Measurement {
    /// The number of permutations that each proof covers.
    pub num_permutations: usize,
    /// The mean time of a proof, in whole nanoseconds.
    pub time_nanos: u128,
    /// The permutations proved in a second.
    pub throughput: Ratio,
    /// The mean size of a proof, in bytes.
    pub proof_size: Ratio,
}

/// Why a benchmark gives no result.
#[derive(Clone, Copy, Debug, PartialEq, Eq, Structural)]
pub enum BenchError {
    /// No trial was asked for.
    ZeroSampleSize,
    /// The backend cannot be set up as asked.
    Config(ConfigError),
    /// The system has no randomness to seed the inputs with.
    RandomSource,
    /// The trials together took longer than a `Duration` holds.
    TimeOverflow,
    /// The mean time of a proof is below a nanosecond, so that no throughput
    /// can be given.
    ZeroMeanTime,
}

/// The time that all of `samples` took, in nanoseconds.
pub open spec fn total_nanos(samples: Seq<Sample>) -> nat
    decreases samples.len(),
{
    if samples.len() == 0 {
        0
    } else {
        total_nanos(samples.drop_last()) + samples.last().elapsed_nanos as nat
    }
}

/// The bytes of all the proofs of `samples`.
pub open spec fn total_bytes(samples: Seq<Sample>) -> nat
    decreases samples.len(),
{
    if samples.len() == 0 {
        0
    } else {
        total_bytes(samples.drop_last()) + samples.last().proof_size as nat
    }
}

/// The mean time of `samples`, in whole nanoseconds.
pub open spec fn mean_nanos(samples: Seq<Sample>) -> nat
    recommends
        samples.len() > 0,
{
    total_nanos(samples) / samples.len()
}

/// Why `samples` give no result, if they give none.
pub open spec fn failure(samples: Seq<Sample>) -> Option<BenchError> {
    if samples.len() == 0 {
        Some(BenchError::ZeroSampleSize)
    } else if total_nanos(samples) > MAX_DURATION_NANOS {
        Some(BenchError::TimeOverflow)
    } else if mean_nanos(samples) == 0 {
        Some(BenchError::ZeroMeanTime)
    } else {
        None
    }
}

/// Whether `m` is the result of the trials `samples` of proofs of
/// `num_permutations` permutations: the mean time is the total time divided
/// by the number of trials, the throughput is the number of permutations
/// divided by the mean time in seconds, and the mean size is the total size
/// divided by the number of trials.
pub open spec fn measures(m: Measurement, num_permutations: usize, samples: Seq<Sample>) -> bool {
    &&& failure(samples).is_none()
    &&& m.num_permutations == num_permutations
    &&& m.time_nanos == mean_nanos(samples)
    &&& m.throughput.numer() == num_permutations * NANOS_PER_SEC
    &&& m.throughput.denom() == mean_nanos(samples)
    &&& m.proof_size.numer() == total_bytes(samples)
    &&& m.proof_size.denom() == samples.len()
}

/// Whether `r` is what the trials `samples` reduce to: their result, or the
/// reason why they have none.
pub open spec fn reduces_to(
    r: Result<Measurement, BenchError>,
    num_permutations: usize,
    samples: Seq<Sample>,
) -> bool {
    match r {
        Ok(m) => measures(m, num_permutations, samples),
        Err(e) => failure(samples) == Some(e),
    }
}

/// The totals grow by what a further sample holds.
pub proof fn lemma_totals_push(samples: Seq<Sample>, sample: Sample)
    ensures
        total_nanos(samples.push(sample)) == total_nanos(samples) + sample.elapsed_nanos,
        total_bytes(samples.push(sample)) == total_bytes(samples) + sample.proof_size,
{
    assert(samples.push(sample).drop_last() =~= samples);
}

/// The trials fix their result: two results of the same trials are equal.
pub proof fn lemma_measurement_unique(
    a: Measurement,
    b: Measurement,
    num_permutations: usize,
    samples: Seq<Sample>,
)
    requires
        measures(a, num_permutations, samples),
        measures(b, num_permutations, samples),
    ensures
        a == b,
{
    a.throughput.lemma_equal(b.throughput);
    a.proof_size.lemma_equal(b.proof_size);
}

/// The mean time is the total time divided by the number of trials, rounded
/// down to a nanosecond; the mean size is the total size divided by the number
/// of trials, exactly.
pub proof fn lemma_means(m: Measurement, num_permutations: usize, samples: Seq<Sample>)
    requires
        measures(m, num_permutations, samples),
    ensures
        samples.len() > 0,
        m.time_nanos > 0,
        m.time_nanos * samples.len() <= total_nanos(samples) < (m.time_nanos + 1) * samples.len(),
        m.proof_size.numer() == total_bytes(samples),
        m.proof_size.denom() == samples.len(),
        m.throughput.numer() * m.time_nanos == num_permutations * NANOS_PER_SEC
            * m.throughput.denom(),
{
    let n = samples.len() as int;
    let t = total_nanos(samples) as int;
    vstd::arithmetic::div_mod::lemma_fundamental_div_mod(t, n);
    vstd::arithmetic::div_mod::lemma_mod_bound(t, n);
    assert(m.time_nanos * n <= t < (m.time_nanos + 1) * n) by (nonlinear_arith)
        requires
            t == n * (t / n) + t % n,
            0 <= t % n < n,
            m.time_nanos == t / n,
    ;
}

/// Proofs of a byte or more each have as many bytes together as there are
/// proofs, or more.
pub proof fn lemma_total_bytes_least(samples: Seq<Sample>)
    requires
        forall|i: int| 0 <= i < samples.len() ==> (#[trigger] samples[i]).proof_size > 0,
    ensures
        total_bytes(samples) >= samples.len(),
    decreases samples.len(),
{
    if samples.len() > 0 {
        let front = samples.drop_last();
        assert forall|i: int| 0 <= i < front.len() implies (#[trigger] front[i]).proof_size
            > 0 by {
            assert(front[i] == samples[i]);
        }
        lemma_total_bytes_least(front);
    }
}

/// The result of trials of proofs of one permutation or more, each proof of
/// a byte or more, is positive throughout: the number of permutations, the
/// mean time, the throughput and the mean size are all above zero.
pub proof fn lemma_positive_result(m: Measurement, num_permutations: usize, samples: Seq<Sample>)
    requires
        measures(m, num_permutations, samples),
        num_permutations >= 1,
        forall|i: int| 0 <= i < samples.len() ==> (#[trigger] samples[i]).proof_size > 0,
    ensures
        m.num_permutations >= 1,
        m.time_nanos > 0,
        m.throughput.numer() > 0,
        m.throughput.denom() > 0,
        m.proof_size.numer() >= m.proof_size.denom(),
        m.proof_size.denom() > 0,
{
    lemma_total_bytes_least(samples);
    assert(num_permutations * NANOS_PER_SEC > 0) by (nonlinear_arith)
        requires
            num_permutations >= 1,
    ;
}

/// The sums of the trials of a benchmark as they come in.
pub struct Accumulator {
    total_nanos: u128,
    total_bytes: u128,
    count: usize,
    samples: Ghost<Seq<Sample>>,
}

impl View for Accumulator {
    type V = Seq<Sample>;

    closed spec fn view(&self) -> Seq<Sample> {
        self.samples@
    }
}

impl Accumulator {
    #[verifier::type_invariant]
    spec fn well_formed(self) -> bool {
        &&& self.count == self.samples@.len()
        &&& self.total_nanos == total_nanos(self.samples@)
        &&& self.total_nanos <= MAX_DURATION_NANOS
        &&& self.total_bytes == total_bytes(self.samples@)
        &&& self.total_bytes <= self.count * usize::MAX
    }

    /// The sums of no trial.
    pub fn new() -> (acc: Accumulator)
        ensures
            acc@ == Seq::<Sample>::empty(),
    {
        Accumulator { total_nanos: 0, total_bytes: 0, count: 0, samples: Ghost(Seq::empty()) }
    }

    /// The number of trials taken in.
    pub fn len(&self) -> (n: usize)
        ensures
            n == self@.len(),
    {
        proof {
            use_type_invariant(self);
        }
        self.count
    }

    /// Takes in a trial, unless the total time would then be longer than a
    /// `Duration` holds.
    pub fn record(&mut self, sample: Sample) -> (r: Result<(), BenchError>)
        requires
            old(self)@.len() < usize::MAX,
        ensures
            total_nanos(old(self)@.push(sample)) <= MAX_DURATION_NANOS ==> {
                &&& r.is_ok()
                &&& final(self)@ == old(self)@.push(sample)
            },
            total_nanos(old(self)@.push(sample)) > MAX_DURATION_NANOS ==> {
                &&& r == Err::<(), BenchError>(BenchError::TimeOverflow)
                &&& final(self)@ == old(self)@
            },
    {
        proof {
            use_type_invariant(&*self);
            lemma_totals_push(self.samples@, sample);
        }
        if sample.elapsed_nanos > MAX_DURATION_NANOS - self.total_nanos {
            return Err(BenchError::TimeOverflow);
        }
        assert(self.total_bytes + sample.proof_size <= (self.count + 1) * usize::MAX)
            by (nonlinear_arith)
            requires
                self.total_bytes <= self.count * usize::MAX,
                sample.proof_size <= usize::MAX,
        ;
        assert((self.count + 1) * usize::MAX <= u128::MAX) by (nonlinear_arith)
            requires
                self.count + 1 <= usize::MAX,
                usize::MAX <= u64::MAX,
        ;
        *self = Accumulator {
            total_nanos: self.total_nanos + sample.elapsed_nanos,
            total_bytes: self.total_bytes + sample.proof_size as u128,
            count: self.count + 1,
            samples: Ghost(self.samples@.push(sample)),
        };
        Ok(())
    }

    /// The result of the trials taken in, for proofs of `num_permutations`
    /// permutations.
    pub fn finish(&self, num_permutations: usize) -> (r: Result<Measurement, BenchError>)
        ensures
            reduces_to(r, num_permutations, self@),
    {
        proof {
            use_type_invariant(self);
        }
        if self.count == 0 {
            return Err(BenchError::ZeroSampleSize);
        }
        let mean: u128 = self.total_nanos / (self.count as u128);
        if mean == 0 {
            return Err(BenchError::ZeroMeanTime);
        }
        let throughput = Ratio::new(num_permutations as u128 * NANOS_PER_SEC, mean);
        let proof_size = Ratio::new(self.total_bytes, self.count as u128);
        Ok(
            Measurement {
                num_permutations,
                time_nanos: mean,
                throughput: throughput.unwrap(),
                proof_size: proof_size.unwrap(),
            },
        )
    }
}

/// Reduces the trials `samples` of proofs of `num_permutations` permutations
/// to the result of the benchmark.
pub fn aggregate(num_permutations: usize, samples: &Vec<Sample>) -> (r: Result<
    Measurement,
    BenchError,
>)
    ensures
        reduces_to(r, num_permutations, samples@),
{
    let mut acc = Accumulator::new();
    let mut i: usize = 0;
    while i < samples.len()
        invariant
            i <= samples@.len(),
            acc@ == samples@.subrange(0, i as int),
        decreases samples@.len() - i,
    {
        let ghost before = acc@;
        match acc.record(samples[i]) {
            Ok(()) => {},
            Err(e) => {
                proof {
                    lemma_total_nanos_grows(before.push(samples@[i as int]), samples@, i + 1);
                }
                return Err(e);
            },
        }
        i = i + 1;
        assert(acc@ =~= samples@.subrange(0, i as int));
    }
    assert(samples@.subrange(0, i as int) =~= samples@);
    acc.finish(num_permutations)
}

/// The total time of the first `k` of `samples` is within that of all.
pub proof fn lemma_total_nanos_grows(prefix: Seq<Sample>, samples: Seq<Sample>, k: int)
    requires
        0 <= k <= samples.len(),
        prefix =~= samples.subrange(0, k),
    ensures
        total_nanos(prefix) <= total_nanos(samples),
    decreases samples.len() - k,
{
    if k < samples.len() {
        let longer = samples.subrange(0, k + 1);
        assert(longer.drop_last() =~= prefix);
        lemma_total_nanos_grows(longer, samples, k + 1);
    } else {
        assert(prefix =~= samples);
    }
}

} // verus!
