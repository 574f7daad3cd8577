//! Helpers around the measurements: powers of two for a range of exponents and
//! the text of a duration, a throughput and a size.

use crate::decimal::{
    decimal, fixed2, hundredths, is_line, lemma_decimal_is_line, lemma_fixed2_is_line,
    push_decimal, push_fixed2,
};
use crate::power::{checked_pow2, lemma_pow2_fits, lemma_pow2_monotonic};
use core::ops::Range;
use core::time::Duration;
use vstd::arithmetic::power2::*;
use vstd::prelude::*;
use vstd::string::*;

verus! {

/// The greatest denominator of a [`Ratio`]: two to the power 96.
pub const MAX_RATIO_DENOMINATOR: u128 = 0x0001_0000_0000_0000_0000_0000_0000;

/// A non-negative fraction of two integers, as the measurements produce them:
/// a sum divided by a count, or a count divided by a time.
#[derive(Clone, Copy, Debug)]
pub struct Ratio {
    num: u128,
    den: u128,
}

impl Ratio {
    #[verifier::type_invariant]
    spec fn well_formed(self) -> bool {
        0 < self.den <= MAX_RATIO_DENOMINATOR
    }

    /// The numerator.
    pub closed spec fn numer(self) -> nat {
        self.num as nat
    }

    /// The denominator, which is never zero.
    pub closed spec fn denom(self) -> nat {
        self.den as nat
    }

    /// The fraction `num / den`, or `None` where `den` is zero or above
    /// [`MAX_RATIO_DENOMINATOR`].
    pub fn new(num: u128, den: u128) -> (r: Option<Ratio>)
        ensures
            r.is_some() <==> 0 < den <= MAX_RATIO_DENOMINATOR,
            r matches Some(q) ==> q.numer() == num && q.denom() == den,
    {
        if den == 0 || den > MAX_RATIO_DENOMINATOR {
            None
        } else {
            Some(Ratio { num, den })
        }
    }

    /// The fraction `n / 1`.
    pub fn from_integer(n: u128) -> (q: Ratio)
        ensures
            q.numer() == n,
            q.denom() == 1,
    {
        Ratio { num: n, den: 1 }
    }

    /// Two fractions of the same numerator and denominator are the same.
    pub proof fn lemma_equal(self, other: Ratio)
        requires
            self.numer() == other.numer(),
            self.denom() == other.denom(),
        ensures
            self == other,
    {
    }

    /// The numerator.
    pub fn num(&self) -> (n: u128)
        ensures
            n == self.numer(),
    {
        self.num
    }

    /// The denominator.
    pub fn den(&self) -> (d: u128)
        ensures
            d == self.denom(),
            0 < d <= MAX_RATIO_DENOMINATOR,
    {
        proof {
            use_type_invariant(self);
        }
        self.den
    }
}

/// The nanoseconds of the longest span of time that a `Duration` holds: all
/// the seconds of a `u64`, and one nanosecond less than a second more.
pub const MAX_DURATION_NANOS: u128 = 18_446_744_073_709_551_615_999_999_999;

/// How many nanoseconds a span of time lasts.
pub uninterp spec fn duration_nanos(d: Duration) -> nat;

/// `Duration::as_nanos` gives the whole span in nanoseconds. A `Duration` is
/// made of a `u64` of seconds and of less than a second of nanoseconds, which
/// bounds the result.
pub assume_specification[ Duration::as_nanos ](d: &Duration) -> (n: u128)
    ensures
        n == duration_nanos(*d),
        n <= MAX_DURATION_NANOS,
;

/// The logarithm of the inverse rate where the environment sets none, or one
/// that does not read as a number.
pub const DEFAULT_LOG_INV_RATE: usize = 1;

/// The value of a decimal digit, if `c` is one.
pub open spec fn digit_value(c: char) -> Option<nat> {
    if c == '0' {
        Some(0)
    } else if c == '1' {
        Some(1)
    } else if c == '2' {
        Some(2)
    } else if c == '3' {
        Some(3)
    } else if c == '4' {
        Some(4)
    } else if c == '5' {
        Some(5)
    } else if c == '6' {
        Some(6)
    } else if c == '7' {
        Some(7)
    } else if c == '8' {
        Some(8)
    } else if c == '9' {
        Some(9)
    } else {
        None
    }
}

/// The number that a text of decimal digits writes, if the text is not empty
/// and holds digits only.
pub open spec fn decimal_value(text: Seq<char>) -> Option<nat>
    decreases text.len(),
{
    if text.len() == 0 {
        None
    } else if text.len() == 1 {
        digit_value(text[0])
    } else {
        match (decimal_value(text.drop_last()), digit_value(text.last())) {
            (Some(high), Some(low)) => Some(10 * high + low),
            _ => None,
        }
    }
}

/// The number that a text writes as Rust reads an unsigned integer: decimal
/// digits, after a plus sign or without one.
pub open spec fn unsigned_value(text: Seq<char>) -> Option<nat> {
    if text.len() > 0 && text[0] == '+' {
        decimal_value(text.subrange(1, text.len() as int))
    } else {
        decimal_value(text)
    }
}

/// The logarithm of the inverse rate for the value of the environment's
/// variable: the number that the value writes where it writes one that fits a
/// `usize`, and [`DEFAULT_LOG_INV_RATE`] else.
pub open spec fn log_inv_rate_of(value: Option<Seq<char>>) -> usize {
    match value {
        Some(text) => match unsigned_value(text) {
            Some(rate) => if rate <= usize::MAX {
                rate as usize
            } else {
                DEFAULT_LOG_INV_RATE
            },
            None => DEFAULT_LOG_INV_RATE,
        },
        None => DEFAULT_LOG_INV_RATE,
    }
}

/// Where a text writes a number, each of its beginnings writes one that is
/// not greater.
pub proof fn lemma_decimal_value_prefix(text: Seq<char>, k: int)
    requires
        decimal_value(text).is_some(),
        1 <= k <= text.len(),
    ensures
        decimal_value(text.subrange(0, k)).is_some(),
        decimal_value(text.subrange(0, k)).unwrap() <= decimal_value(text).unwrap(),
    decreases text.len(),
{
    if k == text.len() {
        assert(text.subrange(0, k) =~= text);
    } else {
        assert(text.drop_last().subrange(0, k) =~= text.subrange(0, k));
        lemma_decimal_value_prefix(text.drop_last(), k);
    }
}

/// The value of a decimal digit, if `c` is one.
fn digit_of(c: char) -> (d: Option<usize>)
    ensures
        d.is_some() == digit_value(c).is_some(),
        d matches Some(v) ==> digit_value(c) == Some(v as nat) && v < 10,
{
    if c == '0' {
        Some(0)
    } else if c == '1' {
        Some(1)
    } else if c == '2' {
        Some(2)
    } else if c == '3' {
        Some(3)
    } else if c == '4' {
        Some(4)
    } else if c == '5' {
        Some(5)
    } else if c == '6' {
        Some(6)
    } else if c == '7' {
        Some(7)
    } else if c == '8' {
        Some(8)
    } else if c == '9' {
        Some(9)
    } else {
        None
    }
}

/// The logarithm of the inverse rate of the commitment scheme. `value` is
/// what the variable `PCS_LOG_INV_RATE` of the environment holds, or `None`
/// where the variable is not set.
pub fn pcs_log_inv_rate(value: Option<&str>) -> (rate: usize)
    ensures
        rate == log_inv_rate_of(
            match value {
                Some(text) => Some(text@),
                None => None,
            },
        ),
{
    let text = match value {
        Some(text) => text,
        None => { return DEFAULT_LOG_INV_RATE; },
    };
    let len = text.unicode_len();
    let start: usize = if len > 0 && text.get_char(0) == '+' {
        1
    } else {
        0
    };
    let ghost body = text@.subrange(start as int, len as int);
    assert(unsigned_value(text@) == decimal_value(body)) by {
        if start == 0 {
            assert(body =~= text@);
        }
    }
    let mut rate: usize = 0;
    let mut i: usize = start;
    while i < len
        invariant
            start <= i <= len,
            len == text@.len(),
            body == text@.subrange(start as int, len as int),
            value == Some(text),
            unsigned_value(text@) == decimal_value(body),
            i == start ==> rate == 0,
            i > start ==> decimal_value(body.subrange(0, i - start)) == Some(rate as nat),
        decreases len - i,
    {
        let c = text.get_char(i);
        let ghost shorter = body.subrange(0, i - start);
        let ghost longer = body.subrange(0, i - start + 1);
        proof {
            assert(longer.drop_last() =~= shorter);
            assert(longer.last() == c);
            assert(longer.len() == 1 ==> longer[0] == c);
            if decimal_value(body).is_some() {
                lemma_decimal_value_prefix(body, i - start + 1);
            }
        }
        let digit = match digit_of(c) {
            Some(digit) => digit,
            None => { return DEFAULT_LOG_INV_RATE; },
        };
        let next = match rate.checked_mul(10) {
            Some(tenfold) => tenfold.checked_add(digit),
            None => None,
        };
        match next {
            Some(next) => {
                rate = next;
            },
            None => { return DEFAULT_LOG_INV_RATE; },
        }
        i = i + 1;
    }
    if len == start {
        assert(body =~= Seq::<char>::empty());
        return DEFAULT_LOG_INV_RATE;
    }
    assert(body.subrange(0, len - start) =~= body);
    rate
}

/// The powers of two whose exponents are `exps`, in the order of the
/// exponents.
pub open spec fn po2_spec(exps: Range<usize>) -> Seq<usize> {
    if exps.start < exps.end {
        Seq::new((exps.end - exps.start) as nat, |i: int| pow2((exps.start + i) as nat) as usize)
    } else {
        Seq::empty()
    }
}

/// Two to the power of each exponent in `exps`.
pub fn po2(exps: Range<usize>) -> (powers: Vec<usize>)
    requires
        exps.start < exps.end ==> pow2((exps.end - 1) as nat) <= usize::MAX,
    ensures
        powers@ == po2_spec(exps),
        forall|i: int| 0 <= i < powers@.len() ==> powers@[i] == pow2((exps.start + i) as nat),
{
    let mut powers: Vec<usize> = Vec::new();
    if exps.start >= exps.end {
        assert(powers@ =~= po2_spec(exps));
        return powers;
    }
    proof {
        lemma_pow2_fits((exps.end - 1) as nat);
    }
    let mut exp: usize = exps.start;
    while exp < exps.end
        invariant
            exps.start <= exp <= exps.end,
            exps.end <= 64,
            pow2((exps.end - 1) as nat) <= usize::MAX,
            powers@.len() == exp - exps.start,
            forall|i: int| 0 <= i < powers@.len() ==> powers@[i] == pow2((exps.start + i) as nat),
        decreases exps.end - exp,
    {
        proof {
            lemma_pow2_monotonic(exp as nat, (exps.end - 1) as nat);
        }
        let power = checked_pow2(exp as u32);
        powers.push(power.unwrap());
        exp = exp + 1;
    }
    assert(powers@ =~= po2_spec(exps));
    powers
}

/// The powers of two whose exponents are `exps`, one for each exponent and in
/// their order.
pub open spec fn powers_of(exps: Seq<usize>) -> Seq<usize> {
    Seq::new(exps.len(), |i: int| pow2(exps[i] as nat) as usize)
}

/// Two to the power of each exponent in `exps`, which need neither rise nor
/// differ.
pub fn po2_of(exps: &[usize]) -> (powers: Vec<usize>)
    requires
        forall|i: int| 0 <= i < exps@.len() ==> pow2(exps@[i] as nat) <= usize::MAX,
    ensures
        powers@ == powers_of(exps@),
        forall|i: int| 0 <= i < powers@.len() ==> powers@[i] == pow2(exps@[i] as nat),
{
    let mut powers: Vec<usize> = Vec::new();
    let mut at: usize = 0;
    while at < exps.len()
        invariant
            at <= exps@.len(),
            forall|i: int| 0 <= i < exps@.len() ==> pow2(exps@[i] as nat) <= usize::MAX,
            powers@.len() == at,
            forall|i: int| 0 <= i < powers@.len() ==> powers@[i] == pow2(exps@[i] as nat),
        decreases exps@.len() - at,
    {
        let exp: usize = exps[at];
        proof {
            lemma_pow2_fits(exp as nat);
        }
        let power = checked_pow2(exp as u32);
        powers.push(power.unwrap());
        at = at + 1;
    }
    assert(powers@ =~= powers_of(exps@));
    powers
}

/// The parameter that names one measurement within a group: the number of
/// threads and the number of permutations.
pub open spec fn benchmark_parameter_text(num_threads: nat, num_permutations: nat) -> Seq<char> {
    "num_threads="@ + decimal(num_threads) + "/num_permutations="@ + decimal(num_permutations)
}

/// Computes [`benchmark_parameter_text`].
pub fn benchmark_parameter(num_threads: usize, num_permutations: usize) -> (text: String)
    ensures
        text@ == benchmark_parameter_text(num_threads as nat, num_permutations as nat),
{
    let mut text = String::from_str("num_threads=");
    push_decimal(&mut text, num_threads as u128);
    text.append("/num_permutations=");
    push_decimal(&mut text, num_permutations as u128);
    text
}

/// The text of a time of `nanos` nanoseconds: whole nanoseconds below a
/// microsecond, else two places in the greatest of µs, ms and s that the time
/// reaches.
pub open spec fn human_time_text(nanos: nat) -> Seq<char> {
    if nanos < 1_000 {
        decimal(nanos) + " ns"@
    } else if nanos < 1_000_000 {
        fixed2(hundredths(nanos, 1_000)) + " µs"@
    } else if nanos < 1_000_000_000 {
        fixed2(hundredths(nanos, 1_000_000)) + " ms"@
    } else {
        fixed2(hundredths(nanos, 1_000_000_000)) + " s"@
    }
}

/// The text of a throughput of `num / den` per second: two places, in
/// thousands (K) from a thousand on and in millions (M) from a million on.
pub open spec fn human_throughput_text(num: nat, den: nat) -> Seq<char> {
    if num < 1_000 * den {
        fixed2(hundredths(num, den)) + " /s"@
    } else if num < 1_000_000 * den {
        fixed2(hundredths(num, 1_000 * den)) + " K/s"@
    } else {
        fixed2(hundredths(num, 1_000_000 * den)) + " M/s"@
    }
}

/// The text of a size of `num / den` bytes: two places, in units of 1024
/// bytes (KB) from 1024 bytes on and of 1024 * 1024 bytes (MB) from there on.
pub open spec fn human_size_text(num: nat, den: nat) -> Seq<char> {
    if num < 1_024 * den {
        fixed2(hundredths(num, den)) + " B"@
    } else if num < 1_048_576 * den {
        fixed2(hundredths(num, 1_024 * den)) + " KB"@
    } else {
        fixed2(hundredths(num, 1_048_576 * den)) + " MB"@
    }
}

/// The text of a time, of a throughput and of a size is a line each.
pub proof fn lemma_human_texts_are_lines(nanos: nat, num: nat, den: nat)
    ensures
        is_line(human_time_text(nanos)),
        is_line(human_throughput_text(num, den)),
        is_line(human_size_text(num, den)),
{
    reveal_strlit(" ns");
    reveal_strlit(" µs");
    reveal_strlit(" ms");
    reveal_strlit(" s");
    reveal_strlit(" /s");
    reveal_strlit(" K/s");
    reveal_strlit(" M/s");
    reveal_strlit(" B");
    reveal_strlit(" KB");
    reveal_strlit(" MB");
    lemma_decimal_is_line(nanos);
    lemma_fixed2_is_line(hundredths(nanos, 1_000));
    lemma_fixed2_is_line(hundredths(nanos, 1_000_000));
    lemma_fixed2_is_line(hundredths(nanos, 1_000_000_000));
    lemma_fixed2_is_line(hundredths(num, den));
    lemma_fixed2_is_line(hundredths(num, 1_000 * den));
    lemma_fixed2_is_line(hundredths(num, 1_000_000 * den));
    lemma_fixed2_is_line(hundredths(num, 1_024 * den));
    lemma_fixed2_is_line(hundredths(num, 1_048_576 * den));
}

/// The text of a time given in nanoseconds.
pub fn human_time_nanos(nanos: u128) -> (text: String)
    ensures
        text@ == human_time_text(nanos as nat),
{
    let mut text = String::new();
    if nanos < 1_000 {
        push_decimal(&mut text, nanos);
        text.append(" ns");
    } else if nanos < 1_000_000 {
        push_fixed2(&mut text, nanos, 1_000);
        text.append(" µs");
    } else if nanos < 1_000_000_000 {
        push_fixed2(&mut text, nanos, 1_000_000);
        text.append(" ms");
    } else {
        push_fixed2(&mut text, nanos, 1_000_000_000);
        text.append(" s");
    }
    text
}

/// The text of a time.
pub fn human_time(time: Duration) -> (text: String)
    ensures
        text@ == human_time_text(duration_nanos(time)),
{
    human_time_nanos(time.as_nanos())
}

/// The text of a throughput in permutations per second.
pub fn human_throughput(throughput: Ratio) -> (text: String)
    ensures
        text@ == human_throughput_text(throughput.numer(), throughput.denom()),
{
    let num = throughput.num();
    let den = throughput.den();
    let mut text = String::new();
    if num < 1_000 * den {
        push_fixed2(&mut text, num, den);
        text.append(" /s");
    } else if num < 1_000_000 * den {
        push_fixed2(&mut text, num, 1_000 * den);
        text.append(" K/s");
    } else {
        push_fixed2(&mut text, num, 1_000_000 * den);
        text.append(" M/s");
    }
    text
}

/// The text of a size in bytes.
pub fn human_size(size: Ratio) -> (text: String)
    ensures
        text@ == human_size_text(size.numer(), size.denom()),
{
    let num = size.num();
    let den = size.den();
    let mut text = String::new();
    if num < 1_024 * den {
        push_fixed2(&mut text, num, den);
        text.append(" B");
    } else if num < 1_048_576 * den {
        push_fixed2(&mut text, num, 1_024 * den);
        text.append(" KB");
    } else {
        push_fixed2(&mut text, num, 1_048_576 * den);
        text.append(" MB");
    }
    text
}

} // verus!
