//! Decimal text of integers and of fractions rounded to two places.

use vstd::arithmetic::div_mod::*;
use vstd::prelude::*;

verus! {

/// The character of a decimal digit.
pub open spec fn digit(d: nat) -> char {
    if d == 0 {
        '0'
    } else if d == 1 {
        '1'
    } else if d == 2 {
        '2'
    } else if d == 3 {
        '3'
    } else if d == 4 {
        '4'
    } else if d == 5 {
        '5'
    } else if d == 6 {
        '6'
    } else if d == 7 {
        '7'
    } else if d == 8 {
        '8'
    } else {
        '9'
    }
}

/// The decimal digits of `n`, most significant first, without leading zeros.
pub open spec fn decimal(n: nat) -> Seq<char>
    decreases n,
{
    if n < 10 {
        seq![digit(n)]
    } else {
        decimal(n / 10).push(digit(n % 10))
    }
}

/// `num / den` in hundredths, rounded to the nearest one; a value half way
/// between two hundredths goes to the even one.
pub open spec fn hundredths(num: nat, den: nat) -> nat
    recommends
        den > 0,
{
    let q = (100 * num) / den;
    let r = (100 * num) % den;
    if 2 * r > den || (2 * r == den && q % 2 == 1) {
        q + 1
    } else {
        q
    }
}

/// A count of hundredths written with a decimal point and two places.
pub open spec fn fixed2(h: nat) -> Seq<char> {
    decimal(h / 100) + seq!['.', digit((h / 10) % 10), digit(h % 10)]
}

/// The digits of `low`, least significant first, written most significant
/// first.
pub open spec fn digits_reversed(low: Seq<u8>) -> Seq<char> {
    Seq::new(low.len(), |i: int| digit(low[low.len() - 1 - i] as nat))
}

/// Whether a text is a line by itself: it is not empty and holds no line
/// break.
pub open spec fn is_line(text: Seq<char>) -> bool {
    &&& text.len() > 0
    &&& forall|i: int| 0 <= i < text.len() ==> text[i] != '\n'
}

/// The digits of a number are a line.
pub proof fn lemma_decimal_is_line(n: nat)
    ensures
        is_line(decimal(n)),
    decreases n,
{
    if n >= 10 {
        lemma_decimal_is_line(n / 10);
    }
}

/// A number with two places is a line.
pub proof fn lemma_fixed2_is_line(h: nat)
    ensures
        is_line(fixed2(h)),
{
    lemma_decimal_is_line(h / 100);
}

/// The greatest denominator that [`push_fixed2`] takes.
pub const MAX_DENOMINATOR: u128 = 0x0100_0000_0000_0000_0000_0000_0000_0000;

/// `String::push` appends one character.
pub assume_specification[ String::push ](s: &mut String, ch: char)
    ensures
        final(s)@ == old(s)@.push(ch),
;

/// The character of the decimal digit `d`.
pub fn digit_char(d: u8) -> (c: char)
    requires
        d < 10,
    ensures
        c == digit(d as nat),
{
    if d == 0 {
        '0'
    } else if d == 1 {
        '1'
    } else if d == 2 {
        '2'
    } else if d == 3 {
        '3'
    } else if d == 4 {
        '4'
    } else if d == 5 {
        '5'
    } else if d == 6 {
        '6'
    } else if d == 7 {
        '7'
    } else if d == 8 {
        '8'
    } else {
        '9'
    }
}

/// Appends the decimal digits of `n` to `out`.
pub fn push_decimal(out: &mut String, n: u128)
    ensures
        final(out)@ == old(out)@ + decimal(n as nat),
{
    let ghost before = out@;
    let mut low: Vec<u8> = Vec::new();
    let mut rest: u128 = n;
    assert(decimal(n as nat) =~= decimal(rest as nat) + digits_reversed(low@));
    while rest >= 10
        invariant
            decimal(n as nat) == decimal(rest as nat) + digits_reversed(low@),
            forall|i: int| 0 <= i < low@.len() ==> low@[i] < 10,
        decreases rest,
    {
        let d: u8 = (rest % 10) as u8;
        let ghost prev = low@;
        low.push(d);
        proof {
            assert(digits_reversed(low@) =~= seq![digit(d as nat)] + digits_reversed(prev));
            assert(decimal(rest as nat) == decimal((rest / 10) as nat).push(digit(d as nat)));
            assert(decimal((rest / 10) as nat).push(digit(d as nat)) + digits_reversed(prev)
                =~= decimal((rest / 10) as nat) + digits_reversed(low@));
        }
        rest = rest / 10;
    }
    out.push(digit_char(rest as u8));
    let mut i: usize = low.len();
    while i > 0
        invariant
            i <= low@.len(),
            rest < 10,
            forall|j: int| 0 <= j < low@.len() ==> low@[j] < 10,
            out@ == before + seq![digit(rest as nat)] + digits_reversed(low@).subrange(
                0,
                low@.len() - i,
            ),
        decreases i,
    {
        i = i - 1;
        out.push(digit_char(low[i]));
        proof {
            let whole = digits_reversed(low@);
            assert(whole.subrange(0, low@.len() - i) =~= whole.subrange(0, low@.len() - i - 1).push(
                digit(low@[i as int] as nat),
            ));
            assert(out@ =~= before + seq![digit(rest as nat)] + whole.subrange(
                0,
                low@.len() - i,
            ));
        }
    }
    proof {
        let whole = digits_reversed(low@);
        assert(whole.subrange(0, low@.len() as int) =~= whole);
        assert(decimal(rest as nat) =~= seq![digit(rest as nat)]);
        assert(out@ =~= before + decimal(n as nat));
    }
}

/// The quotient and remainder of `100 * num` by `den`, from those of `num`
/// by `den`.
pub proof fn lemma_hundredths_split(num: nat, den: nat)
    requires
        den > 0,
    ensures
        (100 * num) / den == 100 * (num / den) + (100 * (num % den)) / den,
        (100 * num) % den == (100 * (num % den)) % den,
        (100 * (num % den)) / den < 100,
{
    let whole = num / den;
    let rem = num % den;
    let frac = (100 * rem) / den;
    let left = (100 * rem) % den;
    lemma_fundamental_div_mod(num as int, den as int);
    lemma_fundamental_div_mod((100 * rem) as int, den as int);
    assert(100 * num == (100 * whole + frac) * den + left) by (nonlinear_arith)
        requires
            num == den * whole + rem,
            100 * rem == den * frac + left,
    ;
    lemma_fundamental_div_mod_converse(
        (100 * num) as int,
        den as int,
        (100 * whole + frac) as int,
        left as int,
    );
    assert(frac < 100) by (nonlinear_arith)
        requires
            100 * rem == den * frac + left,
            rem < den,
            left >= 0,
            den > 0,
    ;
}

/// The hundredths of `num / den` from the whole part of the quotient, the
/// hundredths of the remainder and what those leave.
proof fn lemma_hundredths_parts(num: nat, den: nat) -> (h: nat)
    requires
        den > 0,
    ensures
        h == hundredths(num, den),
        h == 100 * (num / den) + (100 * (num % den)) / den + (if 2 * ((100 * (num % den)) % den)
            > den || (2 * ((100 * (num % den)) % den) == den && ((100 * (num % den)) / den) % 2
            == 1) {
            1nat
        } else {
            0nat
        }),
{
    lemma_hundredths_split(num, den);
    hundredths(num, den)
}

/// The places of a count of hundredths that is given as wholes and
/// hundredths.
proof fn lemma_places(whole: nat, frac: nat)
    requires
        frac < 100,
    ensures
        (100 * whole + frac) / 100 == whole,
        ((100 * whole + frac) / 10) % 10 == frac / 10,
        (100 * whole + frac) % 10 == frac % 10,
{
}

/// A quotient by two or more is at most half of what is divided.
proof fn lemma_quotient_halves(num: nat, den: nat)
    requires
        den >= 2,
    ensures
        2 * (num / den) <= num,
{
    lemma_fundamental_div_mod(num as int, den as int);
    assert(2 * (num / den) <= num) by (nonlinear_arith)
        requires
            num == den * (num / den) + num % den,
            num % den >= 0,
            den >= 2,
            num / den >= 0,
    ;
}

/// Appends `num / den`, rounded to two places, to `out`.
pub fn push_fixed2(out: &mut String, num: u128, den: u128)
    requires
        0 < den <= MAX_DENOMINATOR,
    ensures
        final(out)@ == old(out)@ + fixed2(hundredths(num as nat, den as nat)),
{
    let ghost before = out@;
    let ghost h = lemma_hundredths_parts(num as nat, den as nat);
    let mut whole: u128 = num / den;
    let rem: u128 = num % den;
    let scaled: u128 = 100 * rem;
    let mut frac: u128 = scaled / den;
    let left: u128 = scaled % den;
    proof {
        lemma_hundredths_split(num as nat, den as nat);
        if den >= 2 {
            lemma_quotient_halves(num as nat, den as nat);
        }
    }
    let up: bool = 2 * left > den || (2 * left == den && frac % 2 == 1);
    if up {
        frac = frac + 1;
    }
    if frac == 100 {
        whole = whole + 1;
        frac = 0;
    }
    proof {
        assert(h == 100 * whole + frac);
        lemma_places(whole as nat, frac as nat);
    }
    push_decimal(out, whole);
    out.push('.');
    out.push(digit_char((frac / 10) as u8));
    out.push(digit_char((frac % 10) as u8));
    assert(out@ =~= before + fixed2(h));
}

} // verus!
