//! The parameters of the Expander workloads: one prover for each worker
//! thread, each proving a circuit that is read from a file.

use crate::config::{canonical_count, lemma_canonical_count, round_to_granularity, ConfigError};
use crate::decimal::{decimal, push_decimal};
use crate::power::{ceil_div, ceil_log2, log2_ceil};
use core::marker::PhantomData;
use vstd::arithmetic::power2::*;
use vstd::prelude::*;
use vstd::string::*;

pub mod circuit;
pub mod framing;

pub use framing::{deserialize_proof, serialize_proof};

verus! {

/// How the layers of a circuit are proved.
#[derive(Clone, Copy, Debug, PartialEq, Eq, Structural)]
pub enum GkrScheme {
    /// One sum-check for each layer.
    Vanilla,
    /// The variant for circuits of squaring gates.
    GkrSquare,
}

/// The field, its extension and the hash of the transcript that a circuit is
/// proved over.
#[derive(Clone, Copy, Debug, PartialEq, Eq, Structural)]
pub enum FieldConfig {
    /// The binary field and its extension, with SHA-256.
    Gf2ExtSha2,
    /// The Mersenne-31 field and its extension, with SHA-256.
    M31ExtSha2,
}

/// A circuit that the Expander workload proves.
pub trait ExpanderCircuit {
    /// The name of the directory that holds the circuit's files.
    spec fn dir() -> Seq<char>;

    /// The directory that holds the circuit's files, one for each size.
    fn circuit_dir() -> (dir: &'static str)
        ensures
            dir@ == Self::dir(),
    ;

    /// What the circuit is proved over.
    fn field_config() -> FieldConfig;

    /// How the circuit's layers are proved.
    fn scheme() -> GkrScheme;
}

/// The name of the file that holds the circuit of size index `index` in the
/// directory `dir`.
pub open spec fn circuit_path_text(dir: Seq<char>, index: nat) -> Seq<char> {
    dir + "/"@ + decimal(index) + ".txt"@
}

/// `rayon::current_num_threads` gives the number of threads of the pool that
/// the caller runs in, which differs from machine to machine.
#[verifier::external_body]
fn current_num_threads() -> usize {
    rayon::current_num_threads()
}

/// The Expander workload for the circuit `C`.
pub struct Expander<C: ExpanderCircuit> {
    num_permutations: usize,
    num_threads: usize,
    log_permutations_per_thread: u32,
    circuit_index: u32,
    circuit_path: String,
    circuit: PhantomData<C>,
}

impl<C: ExpanderCircuit> Expander<C> {
    #[verifier::type_invariant]
    spec fn well_formed(self) -> bool {
        &&& self.num_threads > 0
        &&& self.num_permutations == self.num_threads * pow2(
            self.log_permutations_per_thread as nat,
        )
        &&& self.circuit_index <= self.log_permutations_per_thread
    }

    /// The number of permutations in one proof.
    pub closed spec fn count(self) -> nat {
        self.num_permutations as nat
    }

    /// The number of provers, one for each thread.
    pub closed spec fn threads(self) -> nat {
        self.num_threads as nat
    }

    /// The logarithm of the number of permutations that each prover proves.
    pub closed spec fn log_share(self) -> nat {
        self.log_permutations_per_thread as nat
    }

    /// The name of the file that holds the circuit.
    pub closed spec fn path(self) -> Seq<char> {
        self.circuit_path@
    }

    /// A workload for `num_threads` provers. Each proves the same power of two
    /// of permutations, the least with which all of them together reach
    /// `num_permutations`. The circuit's file is chosen by the logarithm of
    /// the number of packed field elements in a prover's share, where a packed
    /// element has two to the power `log_packing_size` permutations.
    pub fn with_threads(num_permutations: usize, num_threads: usize, log_packing_size: u32) -> (r:
        Result<Self, ConfigError>)
        ensures
            num_threads == 0 ==> r matches Err(ConfigError::NoThreads),
            num_threads > 0 && canonical_count(num_threads as nat, num_permutations as nat)
                > usize::MAX ==> r matches Err(ConfigError::CountTooLarge),
            num_threads > 0 && canonical_count(num_threads as nat, num_permutations as nat)
                <= usize::MAX && log_packing_size > ceil_log2(
                ceil_div(num_permutations as nat, num_threads as nat),
            ) ==> r matches Err(ConfigError::ShareTooSmall),
            num_threads > 0 && canonical_count(num_threads as nat, num_permutations as nat)
                <= usize::MAX && log_packing_size <= ceil_log2(
                ceil_div(num_permutations as nat, num_threads as nat),
            ) ==> r.is_ok(),
            r matches Ok(snark) ==> {
                &&& snark.count() == canonical_count(num_threads as nat, num_permutations as nat)
                &&& snark.count() >= num_permutations
                &&& snark.threads() == num_threads
                &&& snark.log_share() == ceil_log2(
                    ceil_div(num_permutations as nat, num_threads as nat),
                )
                &&& snark.path() == circuit_path_text(
                    C::dir(),
                    (snark.log_share() - log_packing_size) as nat,
                )
            },
    {
        if num_threads == 0 {
            return Err(ConfigError::NoThreads);
        }
        let count = match round_to_granularity(num_threads, num_permutations) {
            Ok(count) => count,
            Err(e) => { return Err(e); },
        };
        proof {
            crate::config::lemma_ceil_div(num_permutations as nat, num_threads as nat);
            vstd::arithmetic::div_mod::lemma_fundamental_div_mod(
                num_permutations as int,
                num_threads as int,
            );
            lemma_canonical_count(num_threads as nat, num_permutations as nat);
        }
        let mut share: usize = num_permutations / num_threads;
        if num_permutations % num_threads != 0 {
            assert(share < usize::MAX) by (nonlinear_arith)
                requires
                    num_permutations == num_threads * share + num_permutations % num_threads,
                    num_permutations % num_threads > 0,
                    num_threads > 0,
                    num_permutations <= usize::MAX,
            ;
            share = share + 1;
        }
        let log_share = log2_ceil(share);
        if log_packing_size > log_share {
            return Err(ConfigError::ShareTooSmall);
        }
        let index: u32 = log_share - log_packing_size;
        let mut path = String::from_str(C::circuit_dir());
        path.append("/");
        push_decimal(&mut path, index as u128);
        path.append(".txt");
        Ok(
            Expander {
                num_permutations: count,
                num_threads,
                log_permutations_per_thread: log_share,
                circuit_index: index,
                circuit_path: path,
                circuit: PhantomData,
            },
        )
    }

    /// A workload for as many provers as the thread pool has threads, set up
    /// as [`Expander::with_threads`] sets it up for that many.
    pub fn new(num_permutations: usize, log_packing_size: u32) -> (r: Result<Self, ConfigError>)
        ensures
            r matches Err(e) ==> e is NoThreads || e is CountTooLarge || e is ShareTooSmall,
            r matches Ok(snark) ==> {
                &&& snark.threads() > 0
                &&& snark.count() == canonical_count(snark.threads(), num_permutations as nat)
                &&& snark.count() >= num_permutations
                &&& snark.log_share() == ceil_log2(
                    ceil_div(num_permutations as nat, snark.threads()),
                )
                &&& snark.path() == circuit_path_text(
                    C::dir(),
                    (snark.log_share() - log_packing_size) as nat,
                )
            },
    {
        Self::with_threads(num_permutations, current_num_threads(), log_packing_size)
    }

    /// The number of permutations in one proof.
    pub fn num_permutations(&self) -> (n: usize)
        ensures
            n == self.count(),
    {
        self.num_permutations
    }

    /// The number of provers.
    pub fn num_threads(&self) -> (n: usize)
        ensures
            n == self.threads(),
            n > 0,
    {
        proof {
            use_type_invariant(self);
        }
        self.num_threads
    }

    /// The logarithm of the number of permutations that each prover proves.
    pub fn log_permutations_per_thread(&self) -> (log: u32)
        ensures
            log == self.log_share(),
            self.count() == self.threads() * pow2(log as nat),
    {
        proof {
            use_type_invariant(self);
        }
        self.log_permutations_per_thread
    }

    /// The name of the file that holds the circuit.
    pub fn circuit_path(&self) -> (path: &String)
        ensures
            path@ == self.path(),
    {
        &self.circuit_path
    }
}

} // verus!
