//! Writing numbers as text.
//!
//! An amount is written in the shortest plain decimal notation that reads
//! back as the same amount: no leading zeros but a single `0`, no trailing
//! zeros after the point, and no point without digits after it.

use crate::decimal::{
    all_digits, decimal_units, digit_of, fraction_part, is_digit, kept_fraction,
    lemma_first_dot_is, lemma_number_push, lemma_pow10_values, number_of, parsed_units, pow10,
    whole_part,
    Decimal, FixedPrice, FRACTION_DIGITS, SCALE,
};
use vstd::prelude::*;

verus! {

/// The character that writes the digit `d`.
pub open spec fn digit_char(d: nat) -> char
    recommends
        d < 10,
{
    (d + 48) as u8 as char
}

/// `n` in decimal notation, without leading zeros.
pub open spec fn number_text(n: nat) -> Seq<char>
    decreases n,
{
    if n < 10 {
        seq![digit_char(n)]
    } else {
        number_text(n / 10).push(digit_char(n % 10))
    }
}

/// The last `width` digits of `f`, with leading zeros.
pub open spec fn padded_text(f: nat, width: nat) -> Seq<char>
    decreases width,
{
    if width == 0 {
        Seq::empty()
    } else {
        padded_text(f / 10, (width - 1) as nat).push(digit_char(f % 10))
    }
}

/// `s` without its trailing zeros.
pub open spec fn trimmed(s: Seq<char>) -> Seq<char>
    decreases s.len(),
{
    if s.len() > 0 && s.last() == '0' {
        trimmed(s.drop_last())
    } else {
        s
    }
}

/// The digits after the point of an amount of `units` units.
pub open spec fn fraction_text(units: nat) -> Seq<char> {
    trimmed(padded_text(units % (SCALE as nat), FRACTION_DIGITS as nat))
}

/// An amount of `units` units in decimal notation.
pub open spec fn decimal_text(units: nat) -> Seq<char> {
    if fraction_text(units).len() == 0 {
        number_text(units / (SCALE as nat))
    } else {
        number_text(units / (SCALE as nat)) + seq!['.'] + fraction_text(units)
    }
}

proof fn lemma_digit_char(d: nat)
    requires
        d < 10,
    ensures
        is_digit(digit_char(d)),
        digit_of(digit_char(d)) == d,
        digit_char(d) != '.',
        digit_char(d) == '0' <==> d == 0,
{
}

/// A number's text is made of digits and writes the number.
pub proof fn lemma_number_text(n: nat)
    ensures
        number_text(n).len() >= 1,
        all_digits(number_text(n)),
        number_of(number_text(n)) == n,
    decreases n,
{
    if n < 10 {
        lemma_digit_char(n);
        lemma_number_push(Seq::empty(), digit_char(n));
        assert(number_text(n) =~= Seq::<char>::empty().push(digit_char(n)));
    } else {
        lemma_number_text(n / 10);
        lemma_digit_char(n % 10);
        lemma_number_push(number_text(n / 10), digit_char(n % 10));
    }
}

proof fn lemma_padded_text(f: nat, width: nat)
    ensures
        padded_text(f, width).len() == width,
        all_digits(padded_text(f, width)),
        number_of(padded_text(f, width)) == f % pow10(width),
    decreases width,
{
    if width > 0 {
        let rest = (width - 1) as nat;
        lemma_padded_text(f / 10, rest);
        lemma_digit_char(f % 10);
        lemma_number_push(padded_text(f / 10, rest), digit_char(f % 10));
        let p = pow10(rest) as int;
        lemma_pow10_positive(rest);
        // f % (10 * p) == (f / 10 % p) * 10 + f % 10
        vstd::arithmetic::div_mod::lemma_breakdown(f as int, 10, p);
    }
}

proof fn lemma_pow10_positive(n: nat)
    ensures
        pow10(n) > 0,
    decreases n,
{
    if n > 0 {
        lemma_pow10_positive((n - 1) as nat);
    }
}

/// Trimming drops zeros only: what is left, shifted back, is the number.
proof fn lemma_trimmed(s: Seq<char>)
    requires
        all_digits(s),
    ensures
        trimmed(s).len() <= s.len(),
        all_digits(trimmed(s)),
        number_of(s) == number_of(trimmed(s)) * pow10((s.len() - trimmed(s).len()) as nat),
        trimmed(s).len() > 0 ==> trimmed(s).last() != '0',
    decreases s.len(),
{
    if s.len() > 0 && s.last() == '0' {
        let head = s.drop_last();
        assert forall|i: int| 0 <= i < head.len() implies is_digit(#[trigger] head[i]) by {
            assert(head[i] == s[i]);
        }
        lemma_trimmed(head);
        let k = (head.len() - trimmed(head).len()) as nat;
        assert(pow10(k + 1) == 10 * pow10(k));
        assert(number_of(trimmed(head)) * pow10(k) * 10 == number_of(trimmed(head)) * (10 * pow10(
            k,
        ))) by (nonlinear_arith);
    } else {
        assert(number_of(trimmed(s)) * 1 == number_of(trimmed(s)));
    }
}

/// Reading back the text of an amount gives the amount.
pub proof fn lemma_decimal_text_round_trip(units: nat)
    ensures
        decimal_units(decimal_text(units)) == Some(units),
{
    let scale = SCALE as nat;
    let whole = number_text(units / scale);
    let padded = padded_text(units % scale, FRACTION_DIGITS as nat);
    let frac = fraction_text(units);
    let text = decimal_text(units);
    lemma_number_text(units / scale);
    lemma_padded_text(units % scale, FRACTION_DIGITS as nat);
    lemma_trimmed(padded);
    lemma_pow10_values();
    assert forall|i: int| 0 <= i < whole.len() implies #[trigger] text[i] != '.' by {
        assert(text[i] == whole[i]);
        assert(is_digit(whole[i]));
    }
    if frac.len() == 0 {
        lemma_first_dot_is(text, text.len() as int);
        assert(whole_part(text) =~= whole);
        assert(fraction_part(text) =~= frac);
        assert(number_of(frac) == 0);
    } else {
        assert(text[whole.len() as int] == '.');
        lemma_first_dot_is(text, whole.len() as int);
        assert(whole_part(text) =~= whole);
        assert(fraction_part(text) =~= frac);
    }
    assert(kept_fraction(text) == frac);
    assert((units % scale) % pow10(8) == units % scale);
    vstd::arithmetic::div_mod::lemma_fundamental_div_mod(units as int, scale as int);
    assert((units / scale) * scale == scale * (units / scale)) by (nonlinear_arith);
}

/// `String::push`: appends one character to the text.
#[verifier::external_body]
fn push_char(text: &mut String, c: char)
    ensures
        final(text)@ == old(text)@.push(c),
{
    text.push(c)
}

/// The text made of `chars`.
pub fn text_of(chars: &Vec<char>) -> (text: String)
    ensures
        text@ == chars@,
{
    let mut text = String::new();
    let mut i: usize = 0;
    while i < chars.len()
        invariant
            i <= chars.len(),
            text@ == chars@.take(i as int),
        decreases chars.len() - i,
    {
        push_char(&mut text, chars[i]);
        proof {
            assert(text@ =~= chars@.take(i + 1));
        }
        i = i + 1;
    }
    proof {
        assert(chars@.take(chars.len() as int) =~= chars@);
    }
    text
}

fn digit(d: u64) -> (c: char)
    requires
        d < 10,
    ensures
        c == digit_char(d as nat),
{
    (d as u8 + 48) as char
}

/// The digits of `n`, most significant first.
fn number_digits(n: u64) -> (digits: Vec<char>)
    ensures
        digits@ == number_text(n as nat),
    decreases n,
{
    if n < 10 {
        let mut digits: Vec<char> = Vec::new();
        digits.push(digit(n));
        proof {
            assert(digits@ =~= seq![digit_char(n as nat)]);
        }
        digits
    } else {
        let mut digits = number_digits(n / 10);
        digits.push(digit(n % 10));
        digits
    }
}

/// The last `width` digits of `f`, with leading zeros.
fn padded_digits(f: u64, width: usize) -> (digits: Vec<char>)
    ensures
        digits@ == padded_text(f as nat, width as nat),
    decreases width,
{
    if width == 0 {
        Vec::new()
    } else {
        let mut digits = padded_digits(f / 10, width - 1);
        digits.push(digit(f % 10));
        digits
    }
}

/// Writes `n` in decimal notation.
pub fn format_number(n: u64) -> (text: String)
    ensures
        text@ == number_text(n as nat),
{
    text_of(&number_digits(n))
}

/// Writes an amount of `units` units in decimal notation. What is written
/// reads back as the same amount.
pub fn format_units(units: u64) -> (text: String)
    ensures
        text@ == decimal_text(units as nat),
        parsed_units(text@) == Some(units),
{
    proof {
        lemma_decimal_text_round_trip(units as nat);
    }
    let mut chars = number_digits(units / SCALE);
    let mut fraction = padded_digits(units % SCALE, FRACTION_DIGITS);
    let ghost padded = fraction@;
    while fraction.len() > 0 && fraction[fraction.len() - 1] == '0'
        invariant
            trimmed(fraction@) == trimmed(padded),
        decreases fraction.len(),
    {
        fraction.pop();
    }
    if fraction.len() > 0 {
        chars.push('.');
        let mut i: usize = 0;
        let ghost whole = chars@;
        while i < fraction.len()
            invariant
                i <= fraction.len(),
                chars@ == whole + fraction@.take(i as int),
            decreases fraction.len() - i,
        {
            chars.push(fraction[i]);
            proof {
                assert(chars@ =~= whole + fraction@.take(i + 1));
            }
            i = i + 1;
        }
        proof {
            assert(fraction@.take(fraction.len() as int) =~= fraction@);
            assert(whole =~= number_text((units / SCALE) as nat) + seq!['.']);
        }
    }
    text_of(&chars)
}

impl Decimal {
    /// This amount in decimal notation; it reads back as this amount.
    pub fn to_text(&self) -> (text: String)
        ensures
            text@ == decimal_text(self.units as nat),
            parsed_units(text@) == Some(self.units),
    {
        format_units(self.units)
    }
}

impl FixedPrice {
    /// This price in decimal notation.
    pub fn to_text(&self) -> (text: String)
        ensures
            text@ == decimal_text(self@),
    {
        format_units(self.units())
    }
}

} // verus!
