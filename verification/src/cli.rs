//! What the command line decides: which backend a name stands for, whether to
//! prove once or to measure, and the text of a result.

use crate::decimal::is_line;
use crate::power::checked_pow2;
use crate::stats::Measurement;
use crate::util::{
    human_size, human_size_text, human_throughput, human_throughput_text, human_time_nanos,
    human_time_text, lemma_human_texts_are_lines,
};
use vstd::arithmetic::power2::*;
use vstd::prelude::*;
use vstd::string::*;

verus! {

/// A workload that the command line can name.
#[derive(Clone, Copy, Debug, PartialEq, Eq, Structural)]
pub enum Backend {
    /// The Grøstl P permutation, proved with Binius.
    BiniusGroestl,
    /// Keccak-f, proved with Binius.
    BiniusKeccak,
    /// The Vision permutation, proved with Binius.
    BiniusVision,
    /// Keccak-f over the binary field, proved with Expander.
    ExpanderKeccak,
    /// Poseidon over the Mersenne-31 field, proved with Expander.
    ExpanderPoseidon,
    /// Keccak-f, proved with Hashcaster.
    HashcasterKeccak,
    /// The Blake3 compression over the Baby Bear field, proved with Plonky3.
    Plonky3Blake3,
    /// Keccak-f over the Baby Bear field, proved with Plonky3.
    Plonky3Keccak,
    /// Poseidon2 over the Koala Bear field, proved with Plonky3.
    Plonky3Poseidon2,
    /// The Blake2s compression, proved with Stwo.
    StwoBlake2s,
    /// Poseidon2 over the Mersenne-31 field, proved with Stwo.
    StwoPoseidon2,
}

/// The name of a workload on the command line.
pub open spec fn name_of(backend: Backend) -> Seq<char> {
    match backend {
        Backend::BiniusGroestl => "binius-groestl"@,
        Backend::BiniusKeccak => "binius-keccak"@,
        Backend::BiniusVision => "binius-vision"@,
        Backend::ExpanderKeccak => "expander-keccak"@,
        Backend::ExpanderPoseidon => "expander-poseidon"@,
        Backend::HashcasterKeccak => "hashcaster-keccak"@,
        Backend::Plonky3Blake3 => "plonky3-blake3"@,
        Backend::Plonky3Keccak => "plonky3-keccak"@,
        Backend::Plonky3Poseidon2 => "plonky3-poseidon2"@,
        Backend::StwoBlake2s => "stwo-blake2s"@,
        Backend::StwoPoseidon2 => "stwo-poseidon2"@,
    }
}

/// The workload that a name stands for, if it stands for one.
pub open spec fn backend_named(name: Seq<char>) -> Option<Backend> {
    if name == name_of(Backend::BiniusGroestl) {
        Some(Backend::BiniusGroestl)
    } else if name == name_of(Backend::BiniusKeccak) {
        Some(Backend::BiniusKeccak)
    } else if name == name_of(Backend::BiniusVision) {
        Some(Backend::BiniusVision)
    } else if name == name_of(Backend::ExpanderKeccak) {
        Some(Backend::ExpanderKeccak)
    } else if name == name_of(Backend::ExpanderPoseidon) {
        Some(Backend::ExpanderPoseidon)
    } else if name == name_of(Backend::HashcasterKeccak) {
        Some(Backend::HashcasterKeccak)
    } else if name == name_of(Backend::Plonky3Blake3) {
        Some(Backend::Plonky3Blake3)
    } else if name == name_of(Backend::Plonky3Keccak) {
        Some(Backend::Plonky3Keccak)
    } else if name == name_of(Backend::Plonky3Poseidon2) {
        Some(Backend::Plonky3Poseidon2)
    } else if name == name_of(Backend::StwoBlake2s) {
        Some(Backend::StwoBlake2s)
    } else if name == name_of(Backend::StwoPoseidon2) {
        Some(Backend::StwoPoseidon2)
    } else {
        None
    }
}

impl Backend {
    /// The name of the workload on the command line.
    pub fn name(&self) -> (name: &'static str)
        ensures
            name@ == name_of(*self),
    {
        match self {
            Backend::BiniusGroestl => "binius-groestl",
            Backend::BiniusKeccak => "binius-keccak",
            Backend::BiniusVision => "binius-vision",
            Backend::ExpanderKeccak => "expander-keccak",
            Backend::ExpanderPoseidon => "expander-poseidon",
            Backend::HashcasterKeccak => "hashcaster-keccak",
            Backend::Plonky3Blake3 => "plonky3-blake3",
            Backend::Plonky3Keccak => "plonky3-keccak",
            Backend::Plonky3Poseidon2 => "plonky3-poseidon2",
            Backend::StwoBlake2s => "stwo-blake2s",
            Backend::StwoPoseidon2 => "stwo-poseidon2",
        }
    }

    /// Every workload, in the order of their names.
    pub fn all() -> (all: Vec<Backend>)
        ensures
            all@.len() == 11,
            forall|backend: Backend| all@.contains(backend),
    {
        let mut all: Vec<Backend> = Vec::new();
        all.push(Backend::BiniusGroestl);
        all.push(Backend::BiniusKeccak);
        all.push(Backend::BiniusVision);
        all.push(Backend::ExpanderKeccak);
        all.push(Backend::ExpanderPoseidon);
        all.push(Backend::HashcasterKeccak);
        all.push(Backend::Plonky3Blake3);
        all.push(Backend::Plonky3Keccak);
        all.push(Backend::Plonky3Poseidon2);
        all.push(Backend::StwoBlake2s);
        all.push(Backend::StwoPoseidon2);
        assert forall|backend: Backend| all@.contains(backend) by {
            let i: int = match backend {
                Backend::BiniusGroestl => 0,
                Backend::BiniusKeccak => 1,
                Backend::BiniusVision => 2,
                Backend::ExpanderKeccak => 3,
                Backend::ExpanderPoseidon => 4,
                Backend::HashcasterKeccak => 5,
                Backend::Plonky3Blake3 => 6,
                Backend::Plonky3Keccak => 7,
                Backend::Plonky3Poseidon2 => 8,
                Backend::StwoBlake2s => 9,
                Backend::StwoPoseidon2 => 10,
            };
            assert(all@[i] == backend);
        }
        all
    }

    /// The workload that `name` stands for.
    pub fn from_name(name: &str) -> (backend: Option<Backend>)
        ensures
            backend == backend_named(name@),
    {
        let all = Backend::all();
        let wanted = name.to_owned();
        let mut i: usize = 0;
        while i < all.len()
            invariant
                i <= all@.len(),
                wanted@ == name@,
                forall|backend: Backend| all@.contains(backend),
                forall|j: int| 0 <= j < i ==> name_of(all@[j]) != name@,
            decreases all@.len() - i,
        {
            let candidate = all[i];
            if candidate.name().to_owned() == wanted {
                proof {
                    lemma_names_differ();
                }
                return Some(candidate);
            }
            i = i + 1;
        }
        proof {
            assert forall|backend: Backend| name_of(backend) != name@ by {
                assert(all@.contains(backend));
                let j = choose|j: int| 0 <= j < all@.len() && all@[j] == backend;
                assert(name_of(all@[j]) != name@);
            }
        }
        None
    }
}

/// No two workloads have the same name, so that a name stands for the one
/// workload that has it.
pub proof fn lemma_names_differ()
    ensures
        forall|a: Backend, b: Backend| name_of(a) == name_of(b) ==> a == b,
        forall|backend: Backend| backend_named(name_of(backend)) == Some(backend),
{
    reveal_strlit("binius-groestl");
    reveal_strlit("binius-keccak");
    reveal_strlit("binius-vision");
    reveal_strlit("expander-keccak");
    reveal_strlit("expander-poseidon");
    reveal_strlit("hashcaster-keccak");
    reveal_strlit("plonky3-blake3");
    reveal_strlit("plonky3-keccak");
    reveal_strlit("plonky3-poseidon2");
    reveal_strlit("stwo-blake2s");
    reveal_strlit("stwo-poseidon2");
    assert forall|a: Backend, b: Backend| name_of(a) == name_of(b) implies a == b by {
        if a != b {
            let x = name_of(a);
            let y = name_of(b);
            assert(x.len() != y.len() || x[0] != y[0] || x[7] != y[7] || x[9] != y[9] || x[5]
                != y[5]);
        }
    }
}

/// What a run of the program does.
#[derive(Clone, Copy, Debug, PartialEq, Eq, Structural)]
pub enum Plan {
    /// Proves once and measures nothing.
    Run { num_permutations: usize },
    /// Measures the trials of a benchmark and prints their result.
    Bench { num_permutations: usize, sample_size: usize },
}

/// Why the arguments of the program give no plan.
#[derive(Clone, Copy, Debug, PartialEq, Eq, Structural)]
pub enum PlanError {
    /// Two to the power of the logarithm given does not fit a machine word.
    TooManyPermutations,
    /// A benchmark of no trial was asked for.
    ZeroSampleSize,
}

/// The plan for the arguments: two to the power `log_permutations`
/// permutations, proved once where no sample size is given and measured over
/// that many trials where one is.
pub open spec fn plan_for(log_permutations: usize, sample_size: Option<usize>) -> Result<
    Plan,
    PlanError,
> {
    if pow2(log_permutations as nat) > usize::MAX {
        Err(PlanError::TooManyPermutations)
    } else {
        let num_permutations = pow2(log_permutations as nat) as usize;
        match sample_size {
            None => Ok(Plan::Run { num_permutations }),
            Some(k) => if k == 0 {
                Err(PlanError::ZeroSampleSize)
            } else {
                Ok(Plan::Bench { num_permutations, sample_size: k })
            },
        }
    }
}

/// Computes [`plan_for`].
pub fn plan(log_permutations: usize, sample_size: Option<usize>) -> (r: Result<Plan, PlanError>)
    ensures
        r == plan_for(log_permutations, sample_size),
{
    if log_permutations >= 64 {
        proof {
            lemma2_to64();
            crate::power::lemma_pow2_monotonic(64, log_permutations as nat);
        }
        return Err(PlanError::TooManyPermutations);
    }
    let num_permutations = match checked_pow2(log_permutations as u32) {
        Some(n) => n,
        None => { return Err(PlanError::TooManyPermutations); },
    };
    match sample_size {
        None => Ok(Plan::Run { num_permutations }),
        Some(k) => if k == 0 {
            Err(PlanError::ZeroSampleSize)
        } else {
            Ok(Plan::Bench { num_permutations, sample_size: k })
        },
    }
}

/// The three lines that tell a result: the mean time, the throughput and the
/// mean size of a proof, each after its label.
pub open spec fn report_text(m: Measurement) -> Seq<char> {
    "      time: "@ + human_time_text(m.time_nanos as nat) + "\nthroughput: "@
        + human_throughput_text(m.throughput.numer(), m.throughput.denom()) + "\nproof size: "@
        + human_size_text(m.proof_size.numer(), m.proof_size.denom())
}

/// Whether a text is three lines, with a line break between each two.
pub open spec fn three_lines(text: Seq<char>) -> bool {
    exists|a: Seq<char>, b: Seq<char>, c: Seq<char>|
        is_line(a) && is_line(b) && is_line(c) && text == #[trigger] (a + seq!['\n'] + b + seq![
            '\n',
        ] + c)
}

/// Every result is told in three lines, none of them empty.
pub proof fn lemma_report_has_three_lines(m: Measurement)
    ensures
        three_lines(report_text(m)),
{
    reveal_strlit("      time: ");
    reveal_strlit("throughput: ");
    reveal_strlit("proof size: ");
    reveal_strlit("\nthroughput: ");
    reveal_strlit("\nproof size: ");
    lemma_human_texts_are_lines(
        m.time_nanos as nat,
        m.throughput.numer(),
        m.throughput.denom(),
    );
    lemma_human_texts_are_lines(
        m.time_nanos as nat,
        m.proof_size.numer(),
        m.proof_size.denom(),
    );
    let a = "      time: "@ + human_time_text(m.time_nanos as nat);
    let b = "throughput: "@ + human_throughput_text(m.throughput.numer(), m.throughput.denom());
    let c = "proof size: "@ + human_size_text(m.proof_size.numer(), m.proof_size.denom());
    assert("\nthroughput: "@ =~= seq!['\n'] + "throughput: "@);
    assert("\nproof size: "@ =~= seq!['\n'] + "proof size: "@);
    assert(report_text(m) =~= a + seq!['\n'] + b + seq!['\n'] + c);
    assert(is_line(a) && is_line(b) && is_line(c));
}

/// Computes [`report_text`].
pub fn report(m: &Measurement) -> (text: String)
    ensures
        text@ == report_text(*m),
{
    let mut text = String::from_str("      time: ");
    let time = human_time_nanos(m.time_nanos);
    text.append(time.as_str());
    text.append("\nthroughput: ");
    let throughput = human_throughput(m.throughput);
    text.append(throughput.as_str());
    text.append("\nproof size: ");
    let size = human_size(m.proof_size);
    text.append(size.as_str());
    text
}

} // verus!
