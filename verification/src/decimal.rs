//! Fixed-point decimals.
//!
//! Market data arrives as decimal text. It is held exactly, as a count of
//! units of 10^-8, so that thresholds such as 0.02 are met or missed without
//! rounding noise. Text is read by truncating after the eighth fractional
//! digit.

use vstd::prelude::*;
use vstd::string::*;
use vstd::utf8::is_ascii_chars;

verus! {

/// Units per whole: a unit is 10^-8.
pub const SCALE: u64 = 100_000_000;

/// Number of fractional digits a unit resolves.
pub const FRACTION_DIGITS: usize = 8;

/// The largest price held, in units: one hundred million.
pub const MAX_PRICE_UNITS: u64 = 10_000_000_000_000_000;

pub open spec fn is_digit(c: char) -> bool {
    '0' <= c <= '9'
}

/// The value of a decimal digit.
pub open spec fn digit_of(c: char) -> nat {
    (c as u32 - 48) as nat
}

pub open spec fn all_digits(s: Seq<char>) -> bool {
    forall|i: int| 0 <= i < s.len() ==> is_digit(#[trigger] s[i])
}

/// The number a string of decimal digits writes; 0 for the empty string.
pub open spec fn number_of(s: Seq<char>) -> nat
    decreases s.len(),
{
    if s.len() == 0 {
        0
    } else {
        number_of(s.drop_last()) * 10 + digit_of(s.last())
    }
}

pub open spec fn pow10(n: nat) -> nat
    decreases n,
{
    if n == 0 {
        1
    } else {
        10 * pow10((n - 1) as nat)
    }
}

/// Index of the first `.` in `s`, or the length of `s` where it has none.
pub open spec fn first_dot(s: Seq<char>) -> int
    decreases s.len(),
{
    if s.len() == 0 || s[0] == '.' {
        0
    } else {
        1 + first_dot(s.drop_first())
    }
}

/// The digits before the first `.`.
pub open spec fn whole_part(s: Seq<char>) -> Seq<char> {
    s.take(first_dot(s))
}

/// What follows the first `.`; empty where there is none.
pub open spec fn fraction_part(s: Seq<char>) -> Seq<char> {
    if first_dot(s) < s.len() {
        s.skip(first_dot(s) + 1)
    } else {
        Seq::empty()
    }
}

/// The leading fractional digits that a unit can resolve.
pub open spec fn kept_fraction(s: Seq<char>) -> Seq<char> {
    if fraction_part(s).len() <= FRACTION_DIGITS {
        fraction_part(s)
    } else {
        fraction_part(s).take(FRACTION_DIGITS as int)
    }
}

/// Plain decimal notation: digits, at most one `.`, at least one digit; no
/// sign and no exponent.
pub open spec fn is_decimal_text(s: Seq<char>) -> bool {
    &&& all_digits(whole_part(s))
    &&& all_digits(fraction_part(s))
    &&& whole_part(s).len() + fraction_part(s).len() > 0
}

/// The number of units that `s` writes, truncated to whole units.
pub open spec fn decimal_units(s: Seq<char>) -> Option<nat> {
    if is_decimal_text(s) {
        Some(
            number_of(whole_part(s)) * (SCALE as nat) + number_of(kept_fraction(s)) * pow10(
                (FRACTION_DIGITS - kept_fraction(s).len()) as nat,
            ),
        )
    } else {
        None
    }
}

/// The units of `s` where it is decimal text whose units fit in 64 bits.
pub open spec fn parsed_units(s: Seq<char>) -> Option<u64> {
    match decimal_units(s) {
        Some(units) => if units <= u64::MAX {
            Some(units as u64)
        } else {
            None
        },
        None => None,
    }
}

pub proof fn lemma_first_dot(s: Seq<char>)
    ensures
        0 <= first_dot(s) <= s.len(),
        first_dot(s) < s.len() ==> s[first_dot(s)] == '.',
        forall|i: int| 0 <= i < first_dot(s) ==> #[trigger] s[i] != '.',
    decreases s.len(),
{
    if s.len() == 0 || s[0] == '.' {
    } else {
        let rest = s.drop_first();
        lemma_first_dot(rest);
        assert forall|i: int| 0 <= i < first_dot(s) implies #[trigger] s[i] != '.' by {
            if i > 0 {
                assert(rest[i - 1] == s[i]);
            }
        }
    }
}

/// The first dot is the one index that holds a dot and has none before it.
pub proof fn lemma_first_dot_is(s: Seq<char>, k: int)
    requires
        0 <= k <= s.len(),
        k < s.len() ==> s[k] == '.',
        forall|i: int| 0 <= i < k ==> #[trigger] s[i] != '.',
    ensures
        first_dot(s) == k,
{
    lemma_first_dot(s);
    let d = first_dot(s);
    if d < k {
        assert(s[d] != '.');
    }
}

/// An ASCII character is a digit exactly when its byte lies in 48..=57, and
/// its value is then the byte less 48.
proof fn lemma_ascii_digit(c: char, b: u8)
    requires
        '\0' <= c <= '\u{7f}',
        b == c as u8,
    ensures
        is_digit(c) <==> 48 <= b <= 57,
        is_digit(c) ==> digit_of(c) == b - 48,
        (c == '.') <==> b == 46,
{
}

pub proof fn lemma_number_push(s: Seq<char>, c: char)
    ensures
        number_of(s.push(c)) == number_of(s) * 10 + digit_of(c),
{
    assert(s.push(c).drop_last() =~= s);
}

pub proof fn lemma_number_bound(s: Seq<char>)
    requires
        all_digits(s),
    ensures
        number_of(s) < pow10(s.len()),
    decreases s.len(),
{
    if s.len() > 0 {
        let head = s.drop_last();
        assert forall|i: int| 0 <= i < head.len() implies is_digit(#[trigger] head[i]) by {
            assert(head[i] == s[i]);
        }
        lemma_number_bound(head);
        assert(is_digit(s[s.len() - 1]));
    }
}

/// Writing more digits after a number never makes it smaller.
proof fn lemma_number_prefix(s: Seq<char>, k: int)
    requires
        0 <= k <= s.len(),
    ensures
        number_of(s.take(k)) <= number_of(s),
    decreases s.len() - k,
{
    if k == s.len() {
        assert(s.take(k) =~= s);
    } else {
        lemma_number_prefix(s, k + 1);
        assert(s.take(k + 1) =~= s.take(k).push(s[k]));
        lemma_number_push(s.take(k), s[k]);
    }
}

pub proof fn lemma_pow10_values()
    ensures
        pow10(0) == 1,
        pow10(1) == 10,
        pow10(2) == 100,
        pow10(3) == 1_000,
        pow10(4) == 10_000,
        pow10(5) == 100_000,
        pow10(6) == 1_000_000,
        pow10(7) == 10_000_000,
        pow10(8) == 100_000_000,
{
    reveal_with_fuel(pow10, 10);
}

/// Reads plain decimal notation into units of 10^-8, dropping what lies
/// beyond the eighth fractional digit. `None` for any other text, and for a
/// number whose units do not fit in 64 bits.
pub fn parse_units(text: &str) -> (r: Option<u64>)
    ensures
        r == parsed_units(text@),
{
    let ghost s = text@;
    proof {
        lemma_first_dot(s);
    }
    if !text.is_ascii() {
        proof {
            let bad = choose|i: int| 0 <= i < s.len() && !('\0' <= #[trigger] s[i] <= '\u{7f}');
            let dot = first_dot(s);
            if bad < dot {
                assert(whole_part(s)[bad] == s[bad]);
            } else {
                assert(bad > dot);
                assert(fraction_part(s)[bad - dot - 1] == s[bad]);
            }
        }
        return None;
    }
    let bytes = text.as_bytes();
    let n = bytes.len();
    proof {
        is_ascii_spec_bytes(text);
        assert(bytes@.len() == s.len());
        assert forall|i: int| 0 <= i < s.len() implies bytes@[i] == #[trigger] s[i] as u8 by {}
    }
    let mut dot: usize = 0;
    while dot < n && bytes[dot] != 46
        invariant
            dot <= n,
            n == s.len(),
            bytes@.len() == n,
            is_ascii_chars(s),
            forall|i: int| 0 <= i < s.len() ==> bytes@[i] == #[trigger] s[i] as u8,
            forall|i: int| 0 <= i < dot ==> #[trigger] s[i] != '.',
        decreases n - dot,
    {
        dot = dot + 1;
    }
    proof {
        lemma_first_dot_is(s, dot as int);
    }
    let ghost whole_seq = whole_part(s);
    let ghost fraction_seq = fraction_part(s);
    let mut i: usize = 0;
    let mut whole: u128 = 0;
    while i < dot
        invariant
            i <= dot <= n,
            s == text@,
            n == s.len(),
            bytes@.len() == n,
            is_ascii_chars(s),
            forall|k: int| 0 <= k < s.len() ==> bytes@[k] == #[trigger] s[k] as u8,
            whole_seq == s.take(dot as int),
            whole_seq == whole_part(s),
            all_digits(whole_seq.take(i as int)),
            whole == number_of(whole_seq.take(i as int)),
            whole <= u64::MAX,
        decreases dot - i,
    {
        let b = bytes[i];
        proof {
            lemma_ascii_digit(s[i as int], b);
            assert(whole_seq[i as int] == s[i as int]);
        }
        if b < 48 || b > 57 {
            proof {
                assert(!is_digit(whole_seq[i as int]));
                assert(!all_digits(whole_seq));
            }
            return None;
        }
        proof {
            assert(whole_seq.take(i + 1) =~= whole_seq.take(i as int).push(whole_seq[i as int]));
            lemma_number_push(whole_seq.take(i as int), whole_seq[i as int]);
        }
        whole = whole * 10 + (b - 48) as u128;
        if whole > u64::MAX as u128 {
            proof {
                lemma_number_prefix(whole_seq, i + 1);
                assert(number_of(whole_seq) * (SCALE as nat) >= number_of(whole_seq))
                    by (nonlinear_arith)
                    requires
                        SCALE >= 1,
                ;
            }
            return None;
        }
        i = i + 1;
    }
    proof {
        assert(whole_seq.take(dot as int) =~= whole_seq);
    }
    let fraction_len: usize = if dot < n {
        n - dot - 1
    } else {
        0
    };
    let ghost kept_seq = kept_fraction(s);
    let mut j: usize = 0;
    let mut kept: u64 = 0;
    while j < fraction_len
        invariant
            j <= fraction_len,
            dot <= n,
            s == text@,
            n == s.len(),
            bytes@.len() == n,
            fraction_len == fraction_seq.len(),
            fraction_len > 0 ==> dot + 1 + fraction_len == n,
            is_ascii_chars(s),
            forall|k: int| 0 <= k < s.len() ==> bytes@[k] == #[trigger] s[k] as u8,
            fraction_seq == fraction_part(s),
            forall|k: int| 0 <= k < fraction_len ==> fraction_seq[k] == s[dot + 1 + k],
            all_digits(fraction_seq.take(j as int)),
            j <= FRACTION_DIGITS ==> kept == number_of(fraction_seq.take(j as int)),
            j > FRACTION_DIGITS ==> kept == number_of(fraction_seq.take(FRACTION_DIGITS as int)),
            kept < SCALE,
        decreases fraction_len - j,
    {
        let b = bytes[dot + 1 + j];
        proof {
            lemma_ascii_digit(s[dot + 1 + j], b);
            assert(fraction_seq[j as int] == s[dot + 1 + j]);
        }
        if b < 48 || b > 57 {
            proof {
                assert(!is_digit(fraction_seq[j as int]));
                assert(!all_digits(fraction_seq));
            }
            return None;
        }
        proof {
            assert(fraction_seq.take(j + 1) =~= fraction_seq.take(j as int).push(
                fraction_seq[j as int],
            ));
        }
        if j < FRACTION_DIGITS {
            proof {
                lemma_number_push(fraction_seq.take(j as int), fraction_seq[j as int]);
                lemma_number_bound(fraction_seq.take(j as int));
                lemma_number_bound(fraction_seq.take(j + 1));
                lemma_pow10_values();
            }
            kept = kept * 10 + (b - 48) as u64;
        }
        j = j + 1;
    }
    if dot == 0 && fraction_len == 0 {
        return None;
    }
    proof {
        assert(fraction_seq.take(fraction_len as int) =~= fraction_seq);
        assert(is_decimal_text(s));
        lemma_pow10_values();
    }
    let mut k: usize = if fraction_len < FRACTION_DIGITS {
        fraction_len
    } else {
        FRACTION_DIGITS
    };
    proof {
        lemma_number_bound(kept_seq);
        assert(kept * pow10((k - kept_seq.len()) as nat) == kept) by (nonlinear_arith)
            requires
                pow10((k - kept_seq.len()) as nat) == 1,
        ;
    }
    let ghost digits = kept;
    while k < FRACTION_DIGITS
        invariant
            k <= FRACTION_DIGITS,
            kept_seq.len() <= k,
            digits == number_of(kept_seq),
            digits < pow10(kept_seq.len()),
            kept == digits * pow10((k - kept_seq.len()) as nat),
            kept < pow10(k as nat),
        decreases FRACTION_DIGITS - k,
    {
        proof {
            lemma_pow10_values();
            assert(pow10((k + 1 - kept_seq.len()) as nat) == 10 * pow10(
                (k - kept_seq.len()) as nat,
            ));
            assert(digits * (10 * pow10((k - kept_seq.len()) as nat)) == 10 * (digits * pow10(
                (k - kept_seq.len()) as nat,
            ))) by (nonlinear_arith);
        }
        kept = kept * 10;
        k = k + 1;
    }
    let total: u128 = whole * (SCALE as u128) + kept as u128;
    if total > u64::MAX as u128 {
        None
    } else {
        Some(total as u64)
    }
}

/// The digits of `s`: what follows a leading `+`, or all of `s` without one.
pub open spec fn unsigned_part(s: Seq<char>) -> Seq<char> {
    if s.len() > 0 && s[0] == '+' {
        s.skip(1)
    } else {
        s
    }
}

/// The number that `s` writes where it is a `u8` in decimal notation: an
/// optional `+`, then one or more digits, of value at most 255.
pub open spec fn small_number(s: Seq<char>) -> Option<u8> {
    let digits = unsigned_part(s);
    if digits.len() > 0 && all_digits(digits) && number_of(digits) <= 255 {
        Some(number_of(digits) as u8)
    } else {
        None
    }
}

/// Reads a `u8` in decimal notation: an optional `+`, then digits.
pub fn parse_small(text: &str) -> (r: Option<u8>)
    ensures
        r == small_number(text@),
{
    let ghost s = text@;
    let ghost digits = unsigned_part(s);
    if !text.is_ascii() {
        proof {
            let bad = choose|i: int| 0 <= i < s.len() && !('\0' <= #[trigger] s[i] <= '\u{7f}');
            if s[0] == '+' {
                assert(digits[bad - 1] == s[bad]);
            } else {
                assert(digits[bad] == s[bad]);
            }
        }
        return None;
    }
    let bytes = text.as_bytes();
    let n = bytes.len();
    proof {
        is_ascii_spec_bytes(text);
        assert(bytes@.len() == s.len());
        assert forall|i: int| 0 <= i < s.len() implies bytes@[i] == #[trigger] s[i] as u8 by {}
    }
    let start: usize = if n > 0 && bytes[0] == 43 {
        1
    } else {
        0
    };
    proof {
        if n > 0 {
            assert('\0' <= s[0] <= '\u{7f}');
        }
        assert(digits.len() == n - start);
    }
    if start == n {
        return None;
    }
    let mut i: usize = start;
    let mut value: u32 = 0;
    while i < n
        invariant
            start <= i <= n,
            s == text@,
            n == s.len(),
            bytes@.len() == n,
            is_ascii_chars(s),
            forall|k: int| 0 <= k < s.len() ==> bytes@[k] == #[trigger] s[k] as u8,
            digits == unsigned_part(s),
            digits.len() == n - start,
            forall|k: int| 0 <= k < digits.len() ==> digits[k] == s[start + k],
            all_digits(digits.take(i - start)),
            value == number_of(digits.take(i - start)),
            value <= 255,
        decreases n - i,
    {
        let b = bytes[i];
        proof {
            lemma_ascii_digit(s[i as int], b);
            assert(digits[i - start] == s[i as int]);
        }
        if b < 48 || b > 57 {
            proof {
                assert(!is_digit(digits[i - start]));
            }
            return None;
        }
        proof {
            assert(digits.take(i + 1 - start) =~= digits.take(i - start).push(digits[i - start]));
            lemma_number_push(digits.take(i - start), digits[i - start]);
        }
        value = value * 10 + (b - 48) as u32;
        if value > 255 {
            proof {
                lemma_number_prefix(digits, i + 1 - start);
            }
            return None;
        }
        i = i + 1;
    }
    proof {
        assert(digits.take(n - start) =~= digits);
    }
    Some(value as u8)
}

/// A non-negative amount counted in units of 10^-8.
#[derive(Clone, Copy, Debug, PartialEq, Eq, Structural)]
pub struct Decimal {
    pub units: u64,
}

impl Decimal {
    /// The amount of `units` units.
    pub fn from_units(units: u64) -> (r: Decimal)
        ensures
            r.units == units,
    {
        Decimal { units }
    }

    /// Reads an amount from plain decimal notation.
    pub fn parse(text: &str) -> (r: Option<Decimal>)
        ensures
            r is Some <==> parsed_units(text@) is Some,
            r matches Some(d) ==> Some(d.units) == parsed_units(text@),
    {
        match parse_units(text) {
            Some(units) => Some(Decimal { units }),
            None => None,
        }
    }
}

/// A price: an amount of at most [`MAX_PRICE_UNITS`] units. Every value of
/// this type is within that bound.
#[derive(Clone, Copy, Debug)]
pub struct FixedPrice {
    units: u64,
}

impl View for FixedPrice {
    type V = nat;

    /// The price in units of 10^-8.
    closed spec fn view(&self) -> nat {
        self.units as nat
    }
}

impl FixedPrice {
    #[verifier::type_invariant]
    spec fn bounded(self) -> bool {
        self.units <= MAX_PRICE_UNITS
    }

    /// The price of `units` units, where that is within the bound.
    pub fn from_units(units: u64) -> (r: Option<FixedPrice>)
        ensures
            r is Some <==> units <= MAX_PRICE_UNITS,
            r matches Some(p) ==> p@ == units,
    {
        if units <= MAX_PRICE_UNITS {
            Some(FixedPrice { units })
        } else {
            None
        }
    }

    /// The price of `units` units, which must be within the bound.
    pub fn from_bounded(units: u64) -> (p: FixedPrice)
        requires
            units <= MAX_PRICE_UNITS,
        ensures
            p@ == units,
    {
        FixedPrice { units }
    }

    /// The price zero.
    pub fn zero() -> (p: FixedPrice)
        ensures
            p@ == 0,
    {
        FixedPrice { units: 0 }
    }

    /// The price in units of 10^-8.
    pub fn units(&self) -> (units: u64)
        ensures
            units == self@,
            units <= MAX_PRICE_UNITS,
    {
        proof {
            use_type_invariant(self);
        }
        self.units
    }

    /// Reads a price from plain decimal notation; `None` for other text and
    /// for a number above the bound.
    pub fn parse(text: &str) -> (r: Option<FixedPrice>)
        ensures
            r is Some <==> (parsed_units(text@) matches Some(units) && units <= MAX_PRICE_UNITS),
            r matches Some(p) ==> Some(p@) == decimal_units(text@),
    {
        match parse_units(text) {
            Some(units) => FixedPrice::from_units(units),
            None => None,
        }
    }

    /// This price as a plain amount.
    pub fn to_decimal(&self) -> (d: Decimal)
        ensures
            d.units == self@,
    {
        Decimal { units: self.units }
    }
}

} // verus!
