//! What every backend shares when it is set up: the rounding of a requested
//! number of permutations to the backend's granularity, and the errors of a
//! configuration that a backend does not take.

use crate::power::{
    ceil_div, lemma_next_pow2_bounds, lemma_next_pow2_fixed, lemma_next_pow2_least,
    next_pow2, next_power_of_two,
};
use vstd::arithmetic::power2::*;
use vstd::prelude::*;

verus! {

/// Why a backend cannot be set up as asked.
#[derive(Clone, Copy, Debug, PartialEq, Eq, Structural)]
pub enum ConfigError {
    /// The rounded number of permutations does not fit a machine word.
    CountTooLarge,
    /// The logarithm of the inverse rate is zero or above what the commitment
    /// scheme takes.
    LogInvRateOutOfRange,
    /// The system has no randomness to draw the backend's constants from.
    RandomSource,
    /// No worker thread is there to share the permutations.
    NoThreads,
    /// A thread's share of the permutations is smaller than one packed field
    /// element.
    ShareTooSmall,
}

/// The number of permutations that a backend whose counts are `unit` times a
/// power of two runs when asked for `requested`: the least such count that is
/// at least `requested`.
pub open spec fn canonical_count(unit: nat, requested: nat) -> nat
    recommends
        unit > 0,
{
    unit * next_pow2(ceil_div(requested, unit))
}

/// Whether `count` is `unit` times a power of two.
pub open spec fn is_canonical(unit: nat, count: nat) -> bool {
    exists|e: nat| count == unit * #[trigger] pow2(e)
}

/// `ceil_div(n, d)` is the least number of `d`s that reach `n`.
pub proof fn lemma_ceil_div(n: nat, d: nat)
    requires
        d > 0,
    ensures
        d * ceil_div(n, d) >= n,
        n % d == 0 ==> ceil_div(n, d) == n / d,
        n % d != 0 ==> ceil_div(n, d) == n / d + 1,
{
    let c = ceil_div(n, d);
    vstd::arithmetic::div_mod::lemma_fundamental_div_mod(n as int, d as int);
    vstd::arithmetic::div_mod::lemma_fundamental_div_mod((n + d - 1) as int, d as int);
    let q = n / d;
    let r = n % d;
    if r == 0 {
        assert(n + d - 1 == q * d + (d - 1)) by (nonlinear_arith)
            requires
                n == d * q + r,
                r == 0,
        ;
        vstd::arithmetic::div_mod::lemma_fundamental_div_mod_converse(
            (n + d - 1) as int,
            d as int,
            q as int,
            (d - 1) as int,
        );
    } else {
        assert(n + d - 1 == (q + 1) * d + (r - 1)) by (nonlinear_arith)
            requires
                n == d * q + r,
        ;
        vstd::arithmetic::div_mod::lemma_fundamental_div_mod_converse(
            (n + d - 1) as int,
            d as int,
            (q + 1) as int,
            (r - 1) as int,
        );
    }
    assert(d * c >= n) by (nonlinear_arith)
        requires
            n == d * q + r,
            0 <= r < d,
            r == 0 ==> c == q,
            r != 0 ==> c == q + 1,
    ;
}

/// No fewer than `ceil_div(n, d)` times `d` reach `n`.
pub proof fn lemma_ceil_div_least(n: nat, d: nat, k: nat)
    requires
        d > 0,
        d * k >= n,
    ensures
        k >= ceil_div(n, d),
{
    let c = ceil_div(n, d);
    lemma_ceil_div(n, d);
    vstd::arithmetic::div_mod::lemma_fundamental_div_mod(n as int, d as int);
    let q = n / d;
    let r = n % d;
    if k < c {
        assert(d * k < n) by (nonlinear_arith)
            requires
                n == d * q + r,
                0 <= r < d,
                r == 0 ==> c == q,
                r != 0 ==> c == q + 1,
                k < c,
                d > 0,
        ;
    }
}

/// The canonical count reaches the request, is `unit` times a power of two,
/// and no smaller such count reaches the request.
pub proof fn lemma_canonical_count(unit: nat, requested: nat)
    requires
        unit > 0,
    ensures
        canonical_count(unit, requested) >= requested,
        canonical_count(unit, requested) >= unit,
        is_canonical(unit, canonical_count(unit, requested)),
        forall|e: nat|
            unit * #[trigger] pow2(e) >= requested ==> canonical_count(unit, requested) <= unit
                * pow2(e),
{
    let blocks = ceil_div(requested, unit);
    lemma_ceil_div(requested, unit);
    lemma_next_pow2_bounds(blocks);
    let p = next_pow2(blocks);
    assert(unit * p >= requested && unit * p >= unit) by (nonlinear_arith)
        requires
            unit * blocks >= requested,
            p >= blocks,
            p >= 1,
            unit > 0,
    ;
    assert(canonical_count(unit, requested) == unit * pow2(crate::power::ceil_log2(blocks)));
    assert forall|e: nat| unit * #[trigger] pow2(e) >= requested implies canonical_count(
        unit,
        requested,
    ) <= unit * pow2(e) by {
        lemma_ceil_div_least(requested, unit, pow2(e));
        lemma_next_pow2_least(blocks, e);
        assert(unit * p <= unit * pow2(e)) by (nonlinear_arith)
            requires
                p <= pow2(e),
                unit > 0,
        ;
    }
}

/// A count that is `unit` times a power of two is its own canonical count.
pub proof fn lemma_canonical_count_fixed(unit: nat, e: nat)
    requires
        unit > 0,
    ensures
        canonical_count(unit, unit * pow2(e)) == unit * pow2(e),
{
    let n = unit * pow2(e);
    lemma_ceil_div(n, unit);
    assert(n == pow2(e) * unit + 0) by (nonlinear_arith)
        requires
            n == unit * pow2(e),
    ;
    vstd::arithmetic::div_mod::lemma_fundamental_div_mod_converse(
        n as int,
        unit as int,
        pow2(e) as int,
        0,
    );
    lemma_next_pow2_fixed(e);
}

/// Rounds `requested` up to `unit` times a power of two, or fails where that
/// count does not fit a `usize`.
pub fn round_to_granularity(unit: usize, requested: usize) -> (r: Result<usize, ConfigError>)
    requires
        unit > 0,
    ensures
        canonical_count(unit as nat, requested as nat) <= usize::MAX ==> r == Ok::<
            usize,
            ConfigError,
        >(canonical_count(unit as nat, requested as nat) as usize),
        canonical_count(unit as nat, requested as nat) > usize::MAX ==> r == Err::<
            usize,
            ConfigError,
        >(ConfigError::CountTooLarge),
{
    proof {
        lemma_ceil_div(requested as nat, unit as nat);
        vstd::arithmetic::div_mod::lemma_fundamental_div_mod(requested as int, unit as int);
    }
    let mut blocks: usize = requested / unit;
    if requested % unit != 0 {
        assert(unit * (blocks + 1) <= usize::MAX + unit) by (nonlinear_arith)
            requires
                unit * blocks <= requested,
                requested <= usize::MAX,
                unit > 0,
        ;
        assert(blocks + 1 <= usize::MAX) by (nonlinear_arith)
            requires
                unit * (blocks + 1) <= usize::MAX + unit,
                unit > 1,
                blocks >= 0,
        ;
        blocks = blocks + 1;
    }
    assert(blocks == ceil_div(requested as nat, unit as nat));
    proof {
        lemma_next_pow2_bounds(blocks as nat);
    }
    match next_power_of_two(blocks) {
        None => {
            assert(unit * next_pow2(blocks as nat) > usize::MAX) by (nonlinear_arith)
                requires
                    next_pow2(blocks as nat) > usize::MAX,
                    unit >= 1,
            ;
            Err(ConfigError::CountTooLarge)
        },
        Some(p) => match unit.checked_mul(p) {
            None => Err(ConfigError::CountTooLarge),
            Some(count) => Ok(count),
        },
    }
}

} // verus!
