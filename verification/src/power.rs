//! Powers of two and binary logarithms on machine integers.
//!
//! Every workload rounds the number of permutations it is asked for to a
//! granularity built from a power of two. The specification functions here say
//! what those roundings are; the executable functions compute them without
//! overflow.

use vstd::arithmetic::power2::*;
use vstd::prelude::*;

verus! {

/// The least exponent `e` with `n <= 2^e`.
pub open spec fn ceil_log2(n: nat) -> nat
    decreases n,
{
    if n <= 1 {
        0
    } else {
        1 + ceil_log2((n + 1) / 2)
    }
}

/// The greatest exponent `e` with `2^e <= n`, and `0` for `n == 0`.
pub open spec fn floor_log2(n: nat) -> nat
    decreases n,
{
    if n <= 1 {
        0
    } else {
        1 + floor_log2(n / 2)
    }
}

/// The least power of two that is at least `n`.
pub open spec fn next_pow2(n: nat) -> nat {
    pow2(ceil_log2(n))
}

/// `n` divided by `d`, rounded up.
pub open spec fn ceil_div(n: nat, d: nat) -> nat
    recommends
        d > 0,
{
    ((n + d - 1) / (d as int)) as nat
}

/// `pow2` does not decrease when its exponent grows.
pub proof fn lemma_pow2_monotonic(a: nat, b: nat)
    requires
        a <= b,
    ensures
        pow2(a) <= pow2(b),
{
    if a < b {
        lemma_pow2_strictly_increases(a, b);
    }
}

/// `2^(e+1)` is twice `2^e`.
pub proof fn lemma_pow2_double(e: nat)
    ensures
        pow2(e + 1) == 2 * pow2(e),
        pow2(e) >= 1,
{
    lemma_pow2_unfold(e + 1);
    lemma_pow2_pos(e);
}

/// An exponent whose power reaches `n` while the one below does not is
/// `ceil_log2(n)`.
pub proof fn lemma_ceil_log2_unique(n: nat, e: nat)
    requires
        n <= pow2(e),
        e > 0 ==> pow2((e - 1) as nat) < n,
    ensures
        ceil_log2(n) == e,
    decreases e,
{
    lemma_pow2_pos(e);
    if n <= 1 {
        if e > 0 {
            lemma_pow2_pos((e - 1) as nat);
        }
    } else {
        if e == 0 {
            lemma2_to64();
        } else {
            let d = (e - 1) as nat;
            lemma_pow2_double(d);
            let m = (n + 1) / 2;
            if d > 0 {
                lemma_pow2_double((d - 1) as nat);
            }
            lemma_ceil_log2_unique(m, d);
        }
    }
}

/// `next_pow2(n)` is a power of two that reaches `n`, and the power below it
/// does not.
pub proof fn lemma_ceil_log2_bounds(n: nat)
    ensures
        n <= pow2(ceil_log2(n)),
        ceil_log2(n) > 0 ==> pow2((ceil_log2(n) - 1) as nat) < n,
    decreases n,
{
    if n <= 1 {
        lemma_pow2_pos(0);
    } else {
        let m = (n + 1) / 2;
        lemma_ceil_log2_bounds(m);
        let d = ceil_log2(m);
        lemma_pow2_double(d);
        if d > 0 {
            lemma_pow2_double((d - 1) as nat);
        } else {
            lemma2_to64();
        }
    }
}

/// No power of two that reaches `n` is below `next_pow2(n)`.
pub proof fn lemma_next_pow2_least(n: nat, e: nat)
    requires
        n <= pow2(e),
    ensures
        ceil_log2(n) <= e,
        next_pow2(n) <= pow2(e),
{
    lemma_ceil_log2_bounds(n);
    let c = ceil_log2(n);
    if c > e {
        lemma_pow2_monotonic(e, (c - 1) as nat);
    }
    lemma_pow2_monotonic(c, e);
}

/// `next_pow2` reaches its argument and stays below twice of it.
pub proof fn lemma_next_pow2_bounds(n: nat)
    ensures
        n <= next_pow2(n),
        next_pow2(n) >= 1,
        n >= 1 ==> next_pow2(n) < 2 * n,
{
    lemma_ceil_log2_bounds(n);
    let c = ceil_log2(n);
    lemma_pow2_pos(c);
    if c > 0 {
        lemma_pow2_double((c - 1) as nat);
    } else {
        lemma2_to64();
    }
}

/// `next_pow2` leaves a power of two unchanged.
pub proof fn lemma_next_pow2_fixed(e: nat)
    ensures
        ceil_log2(pow2(e)) == e,
        next_pow2(pow2(e)) == pow2(e),
{
    if e > 0 {
        lemma_pow2_strictly_increases((e - 1) as nat, e);
    }
    lemma_ceil_log2_unique(pow2(e), e);
}

/// `floor_log2(n)` is the exponent of the greatest power of two within `n`.
pub proof fn lemma_floor_log2_bounds(n: nat)
    requires
        n >= 1,
    ensures
        pow2(floor_log2(n)) <= n < pow2(floor_log2(n) + 1),
    decreases n,
{
    if n == 1 {
        lemma2_to64();
    } else {
        lemma_floor_log2_bounds(n / 2);
        let d = floor_log2(n / 2);
        lemma_pow2_double(d);
        lemma_pow2_double(d + 1);
    }
}

/// An exponent whose power is within `n` while the next one is not is
/// `floor_log2(n)`.
pub proof fn lemma_floor_log2_unique(n: nat, e: nat)
    requires
        pow2(e) <= n < pow2(e + 1),
    ensures
        floor_log2(n) == e,
{
    lemma_pow2_pos(e);
    lemma_floor_log2_bounds(n);
    let f = floor_log2(n);
    if f < e {
        lemma_pow2_monotonic(f + 1, e);
    }
    if e < f {
        lemma_pow2_monotonic(e + 1, f);
    }
}

/// The binary logarithm of a power of two is its exponent.
pub proof fn lemma_floor_log2_pow2(e: nat)
    ensures
        floor_log2(pow2(e)) == e,
{
    lemma_pow2_strictly_increases(e, e + 1);
    lemma_floor_log2_unique(pow2(e), e);
}

/// Every exponent of a power that fits a `usize` is below 64.
pub proof fn lemma_pow2_fits(e: nat)
    requires
        pow2(e) <= usize::MAX,
    ensures
        e < 64,
{
    if e >= 64 {
        lemma2_to64();
        lemma_pow2_monotonic(64, e);
    }
}

/// The least power of two that is at least `n`, or `None` where that power
/// does not fit a `usize`.
pub fn next_power_of_two(n: usize) -> (r: Option<usize>)
    ensures
        next_pow2(n as nat) <= usize::MAX ==> r == Some(next_pow2(n as nat) as usize),
        next_pow2(n as nat) > usize::MAX ==> r.is_none(),
{
    let mut p: usize = 1;
    let ghost mut e: nat = 0;
    proof {
        lemma2_to64();
    }
    while p < n
        invariant
            p == pow2(e),
            e > 0 ==> pow2((e - 1) as nat) < n,
        decreases usize::MAX - p,
    {
        if p > usize::MAX / 2 {
            proof {
                lemma_ceil_log2_bounds(n as nat);
                let c = ceil_log2(n as nat);
                if c <= e {
                    lemma_pow2_monotonic(c, e);
                }
                lemma_pow2_monotonic(e + 1, c);
                lemma_pow2_double(e);
            }
            return None;
        }
        proof {
            lemma_pow2_double(e);
            e = e + 1;
        }
        p = p * 2;
    }
    proof {
        lemma_ceil_log2_unique(n as nat, e);
    }
    Some(p)
}

/// The binary logarithm of `n`, rounded down.
pub fn ilog2(n: usize) -> (e: u32)
    requires
        n >= 1,
    ensures
        e == floor_log2(n as nat),
        e < 64,
{
    let mut rest: usize = n;
    let mut e: u32 = 0;
    proof {
        lemma_floor_log2_bounds(n as nat);
        lemma_pow2_fits(floor_log2(n as nat));
    }
    while rest > 1
        invariant
            rest >= 1,
            e + floor_log2(rest as nat) == floor_log2(n as nat),
            floor_log2(n as nat) < 64,
        decreases rest,
    {
        rest = rest / 2;
        e = e + 1;
    }
    e
}

/// The binary logarithm of `n`, rounded up.
pub fn log2_ceil(n: usize) -> (e: u32)
    ensures
        e == ceil_log2(n as nat),
        e <= 64,
{
    let mut rest: usize = n;
    let mut e: u32 = 0;
    proof {
        lemma_ceil_log2_bounds(n as nat);
        let c = ceil_log2(n as nat);
        if c > 64 {
            lemma2_to64();
            lemma_pow2_monotonic(64, (c - 1) as nat);
        }
    }
    while rest > 1
        invariant
            e + ceil_log2(rest as nat) == ceil_log2(n as nat),
            ceil_log2(n as nat) <= 64,
        decreases rest,
    {
        rest = rest / 2 + rest % 2;
        e = e + 1;
    }
    e
}

/// Two to the power `e`, or `None` where that does not fit a `usize`.
pub fn checked_pow2(e: u32) -> (r: Option<usize>)
    ensures
        pow2(e as nat) <= usize::MAX ==> r == Some(pow2(e as nat) as usize),
        pow2(e as nat) > usize::MAX ==> r.is_none(),
{
    let mut p: usize = 1;
    let mut i: u32 = 0;
    proof {
        lemma2_to64();
    }
    while i < e
        invariant
            i <= e,
            p == pow2(i as nat),
        decreases e - i,
    {
        if p > usize::MAX / 2 {
            proof {
                lemma_pow2_double(i as nat);
                lemma_pow2_monotonic((i + 1) as nat, e as nat);
            }
            return None;
        }
        proof {
            lemma_pow2_double(i as nat);
        }
        p = p * 2;
        i = i + 1;
    }
    Some(p)
}

} // verus!
