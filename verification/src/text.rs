//! Numerals, one-line texts and character tests for the texts the pipeline
//! hands on.

use vstd::prelude::*;
use vstd::std_specs::iter::IteratorSpec;

verus! {

/// Of `String::push` this is taken on trust: the string after the call is
/// the string before it with the character `c` appended, as the standard
/// library documents it.
pub assume_specification[ String::push ](s: &mut String, c: char)
    ensures
        final(s)@ == old(s)@.push(c),
;

/// A line break becomes a blank; every other character stays.
pub open spec fn flat(c: char) -> char {
    if c == '\n' || c == '\r' {
        ' '
    } else {
        c
    }
}

/// `text` with its line breaks replaced by blanks.
pub open spec fn one_line(text: Seq<char>) -> Seq<char> {
    text.map_values(|c: char| flat(c))
}

/// Appends `text` to `out`, its line breaks replaced by blanks.
pub fn push_one_line(out: &mut String, text: &str)
    ensures
        final(out)@ == old(out)@ + one_line(text@),
{
    let ghost head = out@;
    for c in it: text.chars()
        invariant
            it.seq() == text@,
            out@ == head + one_line(text@.take(it.index() as int)),
    {
        let d: char = if c == '\n' || c == '\r' {
            ' '
        } else {
            c
        };
        out.push(d);
        assert(text@.take(it.index() + 1) == text@.take(it.index() as int).push(c));
    }
    assert(text@.take(text@.len() as int) == text@);
}

/// The character of the digit `d` in bases up to sixteen, letters in lower
/// case.
pub open spec fn digit_char(d: nat) -> char
    recommends
        d < 16,
{
    if d < 10 {
        ('0' as nat + d) as char
    } else {
        ('a' as nat + d - 10) as char
    }
}

/// The numeral of `n` in the given base, without leading zeros.
pub open spec fn numeral(n: nat, base: nat) -> Seq<char>
    recommends
        2 <= base <= 16,
    decreases n,
{
    if n < base || base < 2 {
        seq![digit_char(n)]
    } else {
        proof {
            lemma_quotient_is_smaller(n, base);
        }
        numeral(n / base, base).push(digit_char(n % base))
    }
}

/// Dividing by two or more makes a positive number smaller, and leaves a
/// remainder below the divisor.
pub proof fn lemma_quotient_is_smaller(n: nat, base: nat)
    requires
        base >= 2,
    ensures
        n > 0 ==> n / base < n,
        n % base < base,
        n < base ==> n / base == 0 && n % base == n,
        n >= base ==> n / base > 0,
{
    assert(n > 0 ==> n / base < n) by (nonlinear_arith)
        requires
            base >= 2,
    ;
    assert(n % base < base) by (nonlinear_arith)
        requires
            base >= 2,
    ;
    assert(n < base ==> n / base == 0 && n % base == n) by (nonlinear_arith)
        requires
            base >= 2,
    ;
    assert(n >= base ==> n / base > 0) by (nonlinear_arith)
        requires
            base >= 2,
    ;
}

/// The decimal numeral of `n`.
pub open spec fn decimal(n: nat) -> Seq<char> {
    numeral(n, 10)
}

/// The hexadecimal numeral of `n`, in lower case.
pub open spec fn hexadecimal(n: nat) -> Seq<char> {
    numeral(n, 16)
}

/// The digits of `n` that stand before those already written: none once
/// nothing is left of it.
spec fn leading(n: nat, base: nat) -> Seq<char> {
    if n == 0 {
        Seq::empty()
    } else {
        numeral(n, base)
    }
}

fn digit(d: u64) -> (c: char)
    requires
        d < 16,
    ensures
        c == digit_char(d as nat),
{
    if d < 10 {
        (48u8 + d as u8) as char
    } else {
        (87u8 + d as u8) as char
    }
}

/// Appends the decimal numeral of `n` to `out`.
pub fn push_decimal(out: &mut String, n: u64)
    ensures
        final(out)@ == old(out)@ + decimal(n as nat),
{
    push_numeral(out, n, 10);
}

/// Appends the hexadecimal numeral of `n`, in lower case, to `out`.
pub fn push_hexadecimal(out: &mut String, n: u64)
    ensures
        final(out)@ == old(out)@ + hexadecimal(n as nat),
{
    push_numeral(out, n, 16);
}

/// Appends the numeral of `n` in the given base to `out`.
fn push_numeral(out: &mut String, n: u64, base: u64)
    requires
        2 <= base <= 16,
    ensures
        final(out)@ == old(out)@ + numeral(n as nat, base as nat),
{
    let mut digits: Vec<char> = Vec::new();
    proof {
        lemma_quotient_is_smaller(n as nat, base as nat);
    }
    digits.push(digit(n % base));
    let mut rest: u64 = n / base;
    assert(numeral(n as nat, base as nat) =~= leading(rest as nat, base as nat)
        + digits@.reverse());
    while rest != 0
        invariant
            2 <= base <= 16,
            digits@.len() > 0,
            numeral(n as nat, base as nat) == leading(rest as nat, base as nat)
                + digits@.reverse(),
        decreases rest,
    {
        let ghost before = digits@;
        proof {
            lemma_quotient_is_smaller(rest as nat, base as nat);
        }
        let d: char = digit(rest % base);
        digits.push(d);
        assert(leading(rest as nat, base as nat) + before.reverse() =~= leading(
            (rest / base) as nat,
            base as nat,
        ) + digits@.reverse());
        rest = rest / base;
    }
    let ghost head = out@;
    let mut i: usize = digits.len();
    assert(digits@.reverse().take(0) =~= Seq::<char>::empty());
    while i > 0
        invariant
            i <= digits@.len(),
            out@ == head + digits@.reverse().take(digits@.len() - i),
        decreases i,
    {
        i = i - 1;
        out.push(digits[i]);
        assert(digits@.reverse().take(digits@.len() - i) =~= digits@.reverse().take(
            digits@.len() - i - 1,
        ).push(digits@[i as int]));
    }
    assert(digits@.reverse().take(digits@.len() as int) =~= digits@.reverse());
}

/// Whether the text holds a NUL character.
pub fn has_nul(text: &str) -> (b: bool)
    ensures
        b == text@.contains('\0'),
{
    let mut found: bool = false;
    for c in it: text.chars()
        invariant
            it.seq() == text@,
            found == text@.take(it.index() as int).contains('\0'),
    {
        proof {
            let seen = text@.take(it.index() as int);
            assert(text@.take(it.index() + 1) =~= seen.push(c));
            if c == '\0' {
                assert(seen.push(c)[seen.len() as int] == '\0');
            } else {
                if seen.push(c).contains('\0') {
                    let j = choose|j: int| 0 <= j < seen.push(c).len() && seen.push(c)[j] == '\0';
                    assert(seen[j] == '\0');
                }
                if seen.contains('\0') {
                    let j = choose|j: int| 0 <= j < seen.len() && seen[j] == '\0';
                    assert(seen.push(c)[j] == '\0');
                }
            }
        }
        if c == '\0' {
            found = true;
        }
    }
    assert(text@.take(text@.len() as int) =~= text@);
    found
}

/// A numeral has at least one digit, and every digit is a decimal digit or a
/// letter from `a` to `f`.
pub proof fn lemma_numeral_digits(n: nat, base: nat)
    requires
        2 <= base <= 16,
    ensures
        numeral(n, base).len() >= 1,
        forall|i: int|
            0 <= i < numeral(n, base).len() ==> {
                let c = #[trigger] numeral(n, base)[i];
                '0' <= c <= '9' || 'a' <= c <= 'f'
            },
    decreases n,
{
    lemma_quotient_is_smaller(n, base);
    if n >= base {
        lemma_numeral_digits(n / base, base);
    }
}

} // verus!
