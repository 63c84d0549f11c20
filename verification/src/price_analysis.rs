//! Statistics over a series of closing prices: volatility, its level, the
//! range width suggested for it, and the trend.
//!
//! Volatility is the population standard deviation divided by the mean. With
//! `n` prices of sum `S` and sum of squares `Q` it equals `sqrt(n*Q - S*S) / S`,
//! so every comparison against a threshold is a comparison of integers and is
//! decided exactly.

use crate::decimal::{Decimal, FixedPrice, MAX_PRICE_UNITS, SCALE};
use crate::wide::{full, mul_quad, mul_wide, Wide};
use vstd::prelude::*;

verus! {

/// The square of the largest price in units: 10^32.
pub const SQUARE_BOUND: u128 = 100_000_000_000_000_000_000_000_000_000_000;

/// Volatility below this many units (0.02) is low.
pub const LOW_VOLATILITY_UNITS: u64 = 2_000_000;

/// Volatility below this many units (0.05) is at most medium.
pub const MEDIUM_VOLATILITY_UNITS: u64 = 5_000_000;

/// Volatility below this many units (0.1) still gets the third range width.
pub const WIDE_VOLATILITY_UNITS: u64 = 10_000_000;

/// The prices of a series in units.
pub open spec fn units_of(prices: Seq<FixedPrice>) -> Seq<nat> {
    prices.map_values(|p: FixedPrice| p@)
}

pub open spec fn sum(s: Seq<nat>) -> nat
    decreases s.len(),
{
    if s.len() == 0 {
        0
    } else {
        sum(s.drop_last()) + s.last()
    }
}

pub open spec fn sum_squares(s: Seq<nat>) -> nat
    decreases s.len(),
{
    if s.len() == 0 {
        0
    } else {
        sum_squares(s.drop_last()) + s.last() * s.last()
    }
}

/// `n*Q - S*S`: the population variance times the square of the length.
pub open spec fn spread(s: Seq<nat>) -> int {
    s.len() * sum_squares(s) - sum(s) * sum(s)
}

/// Whether `r` units is the volatility of `s` rounded down to a whole unit:
/// `r / SCALE <= sqrt(spread) / sum < (r + 1) / SCALE`. A series of fewer
/// than two prices, or of mean zero, has volatility 0.
pub open spec fn is_volatility(s: Seq<nat>, r: nat) -> bool {
    if s.len() < 2 || sum(s) == 0 {
        r == 0
    } else {
        &&& (r * sum(s)) * (r * sum(s)) <= (SCALE * SCALE) * spread(s)
        &&& (SCALE * SCALE) * spread(s) < ((r + 1) * sum(s)) * ((r + 1) * sum(s))
    }
}

/// The label of a volatility of `units` units.
pub open spec fn level_label(units: nat) -> Seq<char> {
    if units < LOW_VOLATILITY_UNITS {
        "LOW"@
    } else if units < MEDIUM_VOLATILITY_UNITS {
        "MEDIUM"@
    } else {
        "HIGH"@
    }
}

/// The range width, in units of percent, suggested for a volatility of `units` units.
pub open spec fn range_width_units(units: nat) -> nat {
    if units < LOW_VOLATILITY_UNITS {
        5 * SCALE as nat
    } else if units < MEDIUM_VOLATILITY_UNITS {
        10 * SCALE as nat
    } else if units < WIDE_VOLATILITY_UNITS {
        20 * SCALE as nat
    } else {
        30 * SCALE as nat
    }
}

/// The first third of a series.
pub open spec fn first_third(s: Seq<nat>) -> Seq<nat> {
    s.take(s.len() as int / 3)
}

/// The last third of a series: what lies from two thirds of its length on.
pub open spec fn last_third(s: Seq<nat>) -> Seq<nat> {
    s.skip(s.len() as int * 2 / 3)
}

/// The mean of the last third exceeds that of the first by more than 2 %.
pub open spec fn rises(s: Seq<nat>) -> bool {
    50 * sum(last_third(s)) * first_third(s).len() > 51 * sum(first_third(s)) * last_third(
        s,
    ).len()
}

/// The mean of the last third falls short of that of the first by more than 2 %.
pub open spec fn falls(s: Seq<nat>) -> bool {
    50 * sum(last_third(s)) * first_third(s).len() < 49 * sum(first_third(s)) * last_third(
        s,
    ).len()
}

/// The trend of a series. The middle third takes no part. A series too short
/// to have a first third moves sideways.
pub open spec fn trend_label(s: Seq<nat>) -> Seq<char> {
    if s.len() < 3 {
        "SIDEWAYS"@
    } else if rises(s) {
        "UPWARD"@
    } else if falls(s) {
        "DOWNWARD"@
    } else {
        "SIDEWAYS"@
    }
}

proof fn lemma_sum_push(s: Seq<nat>, x: nat)
    ensures
        sum(s.push(x)) == sum(s) + x,
        sum_squares(s.push(x)) == sum_squares(s) + x * x,
{
    assert(s.push(x).drop_last() =~= s);
}

/// The sum of `(x - c)^2` over the series.
spec fn deviation(s: Seq<nat>, c: nat) -> nat
    decreases s.len(),
{
    if s.len() == 0 {
        0
    } else {
        deviation(s.drop_last(), c) + ((s.last() - c) * (s.last() - c)) as nat
    }
}

proof fn lemma_deviation(s: Seq<nat>, c: nat)
    ensures
        deviation(s, c) == sum_squares(s) - 2 * c * sum(s) + s.len() * c * c,
    decreases s.len(),
{
    let c = c as int;
    if s.len() == 0 {
        assert(2 * c * 0 == 0 && 0 * c * c == 0) by (nonlinear_arith);
    } else {
        let head = s.drop_last();
        let x = s.last() as int;
        let n = head.len() as int;
        let q = sum_squares(head) as int;
        let t = sum(head) as int;
        lemma_deviation(head, c as nat);
        assert((x - c) * (x - c) >= 0) by (nonlinear_arith);
        assert(q + x * x - 2 * c * (t + x) + (n + 1) * c * c == q - 2 * c * t + n * c * c + (x
            - c) * (x - c)) by (nonlinear_arith);
    }
}

/// Appending a price adds to the spread its squared distances to the others.
proof fn lemma_spread_push(s: Seq<nat>, c: nat)
    ensures
        spread(s.push(c)) == spread(s) + deviation(s, c),
{
    lemma_sum_push(s, c);
    lemma_deviation(s, c);
    let n = s.len();
    let q = sum_squares(s);
    let t = sum(s);
    assert((n + 1) * (q + c * c) - (t + c) * (t + c) == n * q - t * t + (q - 2 * c * t + n * c
        * c)) by (nonlinear_arith);
}

/// The spread of a series is never negative, and at most `n - 1` times the
/// square of its sum.
pub proof fn lemma_spread_bounds(s: Seq<nat>)
    ensures
        0 <= spread(s),
        sum_squares(s) <= sum(s) * sum(s),
        s.len() > 0 ==> spread(s) <= (s.len() - 1) * (sum(s) * sum(s)),
    decreases s.len(),
{
    if s.len() == 0 {
        assert(sum(s) * sum(s) == 0) by (nonlinear_arith)
            requires
                sum(s) == 0,
        ;
        assert(s.len() * sum_squares(s) == 0) by (nonlinear_arith)
            requires
                s.len() == 0,
        ;
    } else {
        let head = s.drop_last();
        let c = s.last();
        assert(head.push(c) =~= s);
        lemma_spread_bounds(head);
        lemma_spread_push(head, c);
        lemma_sum_push(head, c);
        let q = sum_squares(head);
        let t = sum(head);
        assert(q + c * c <= (t + c) * (t + c)) by (nonlinear_arith)
            requires
                q <= t * t,
        ;
        let n = s.len();
        let qq = sum_squares(s);
        let tt = sum(s);
        assert(n * qq - tt * tt <= (n - 1) * (tt * tt)) by (nonlinear_arith)
            requires
                qq <= tt * tt,
                n >= 1,
        ;
    }
}

/// At most one number of units is the volatility of a series.
pub proof fn lemma_volatility_unique(s: Seq<nat>, a: nat, b: nat)
    requires
        is_volatility(s, a),
        is_volatility(s, b),
    ensures
        a == b,
{
    if s.len() >= 2 && sum(s) != 0 {
        let t = sum(s);
        if a < b {
            assert(((a + 1) * t) * ((a + 1) * t) <= (b * t) * (b * t)) by (nonlinear_arith)
                requires
                    a + 1 <= b,
                    t >= 0,
            ;
        }
        if b < a {
            assert(((b + 1) * t) * ((b + 1) * t) <= (a * t) * (a * t)) by (nonlinear_arith)
                requires
                    b + 1 <= a,
                    t >= 0,
            ;
        }
    }
}

/// A series of fewer than two prices has volatility 0 and moves sideways.
pub proof fn lemma_short_series(s: Seq<nat>, r: nat)
    requires
        s.len() < 2,
    ensures
        is_volatility(s, r) <==> r == 0,
        trend_label(s) == "SIDEWAYS"@,
{
}

/// The level found from the volatility rounded down to a whole unit is the
/// level of the exact ratio: low exactly when `sqrt(spread) / sum < 1/50`,
/// at most medium exactly when it is below `1/20`.
pub proof fn lemma_level_is_exact(s: Seq<nat>, r: nat)
    requires
        s.len() >= 2,
        sum(s) > 0,
        is_volatility(s, r),
    ensures
        r < LOW_VOLATILITY_UNITS <==> 2500 * spread(s) < sum(s) * sum(s),
        r < MEDIUM_VOLATILITY_UNITS <==> 400 * spread(s) < sum(s) * sum(s),
{
    lemma_threshold_is_exact(s, r, LOW_VOLATILITY_UNITS as nat, 50);
    lemma_threshold_is_exact(s, r, MEDIUM_VOLATILITY_UNITS as nat, 20);
    assert(2500 * spread(s) == (50 * 50) * spread(s));
    assert(400 * spread(s) == (20 * 20) * spread(s));
}

proof fn lemma_threshold_is_exact(s: Seq<nat>, r: nat, k: nat, inverse: nat)
    requires
        s.len() >= 2,
        sum(s) > 0,
        is_volatility(s, r),
        k * inverse == SCALE,
        inverse > 0,
    ensures
        r < k <==> (inverse * inverse) * spread(s) < sum(s) * sum(s),
{
    let t = sum(s) as int;
    let d = spread(s);
    let scale = SCALE as int;
    let k = k as int;
    let r = r as int;
    let v = inverse as int;
    assert((scale * scale) * d == (k * k) * ((v * v) * d)) by (nonlinear_arith)
        requires
            k * v == scale,
    ;
    if r < k {
        assert(((r + 1) * t) * ((r + 1) * t) <= (k * k) * (t * t)) by (nonlinear_arith)
            requires
                0 <= r + 1 <= k,
                t >= 0,
        ;
        assert((v * v) * d < t * t) by (nonlinear_arith)
            requires
                (k * k) * ((v * v) * d) < (k * k) * (t * t),
                k > 0,
        ;
    } else {
        assert((k * k) * (t * t) <= (r * t) * (r * t)) by (nonlinear_arith)
            requires
                0 <= k <= r,
                t >= 0,
        ;
        assert((v * v) * d >= t * t) by (nonlinear_arith)
            requires
                (k * k) * (t * t) <= (k * k) * ((v * v) * d),
                k > 0,
        ;
    }
}

/// Sum and sum of squares of the `count` prices from `start` on.
fn accumulate(prices: &[FixedPrice], start: usize, count: usize) -> (sums: (u128, Wide))
    requires
        start + count <= prices.len(),
    ensures
        sums.0 == sum(units_of(prices@).subrange(start as int, start + count)),
        sums.1.value() == sum_squares(units_of(prices@).subrange(start as int, start + count)),
        sums.0 <= count * MAX_PRICE_UNITS,
        sums.1.value() <= count * SQUARE_BOUND,
{
    let ghost units = units_of(prices@);
    let mut total: u128 = 0;
    let mut squares = Wide::from_digit(0);
    let mut i: usize = 0;
    while i < count
        invariant
            i <= count,
            start + count <= prices.len(),
            units == units_of(prices@),
            total == sum(units.subrange(start as int, start + i)),
            squares.value() == sum_squares(units.subrange(start as int, start + i)),
            total <= i * MAX_PRICE_UNITS,
            squares.value() <= i * SQUARE_BOUND,
        decreases count - i,
    {
        let x = prices[start + i].units() as u128;
        proof {
            assert(units[start + i] == x);
            assert(units.subrange(start as int, start + i + 1) =~= units.subrange(
                start as int,
                start + i,
            ).push(units[start + i]));
            lemma_sum_push(units.subrange(start as int, start + i), x as nat);
            assert(x * x <= SQUARE_BOUND) by (nonlinear_arith)
                requires
                    x <= 10_000_000_000_000_000,
                    SQUARE_BOUND == 10_000_000_000_000_000 * 10_000_000_000_000_000,
            ;
        }
        total = total + x;
        squares = squares.add_digit(x * x);
        i = i + 1;
    }
    (total, squares)
}

/// The arithmetic mean of `prices`, rounded down to a whole unit.
pub fn mean_price(prices: &[FixedPrice]) -> (mean: FixedPrice)
    requires
        prices.len() > 0,
    ensures
        mean@ == sum(units_of(prices@)) / prices.len() as nat,
{
    let n = prices.len();
    let (total, _) = accumulate(prices, 0, n);
    proof {
        assert(units_of(prices@).subrange(0, n as int) =~= units_of(prices@));
        assert(total / (n as u128) <= MAX_PRICE_UNITS) by (nonlinear_arith)
            requires
                total <= n * MAX_PRICE_UNITS,
                n > 0,
        ;
    }
    FixedPrice::from_bounded((total / (n as u128)) as u64)
}

/// The relative standard deviation of `prices`, rounded down to a whole unit
/// of 10^-8; 0 for fewer than two prices and for prices that are all zero.
pub fn calculate_volatility(prices: &[FixedPrice]) -> (volatility: Decimal)
    ensures
        is_volatility(units_of(prices@), volatility.units as nat),
{
    let n = prices.len();
    let ghost s = units_of(prices@);
    if n < 2 {
        return Decimal::from_units(0);
    }
    let (total, squares) = accumulate(prices, 0, n);
    proof {
        assert(s.subrange(0, n as int) =~= s);
        lemma_spread_bounds(s);
    }
    if total == 0 {
        return Decimal::from_units(0);
    }
    let ghost t = total as nat;
    let ghost q = squares.value();
    let ghost big: nat = 0x1_0000_0000_0000_0000;
    proof {
        assert(full() == 0x1_0000_0000_0000_0000_0000_0000_0000_0000);
        assert(q * n < full() * full()) by (nonlinear_arith)
            requires
                q <= n * SQUARE_BOUND,
                n < big,
                SQUARE_BOUND < 0x800_0000_0000_0000_0000_0000_0000,
                big * 0x800_0000_0000_0000_0000_0000_0000 * big <= full() * full(),
        ;
        assert(s.len() * sum_squares(s) == q * n) by (nonlinear_arith)
            requires
                s.len() == n,
                sum_squares(s) == q,
        ;
    }
    let scaled_squares = mul_quad(&squares, &Wide::from_digit(n as u128)).low_half();
    let square_of_sum = mul_wide(total, total);
    let spread_value = scaled_squares.minus(&square_of_sum);
    let target = mul_quad(&Wide::from_digit((SCALE as u128) * (SCALE as u128)), &spread_value);
    let ghost goal = (SCALE * SCALE) * spread(s);
    proof {
        assert(spread_value.value() == spread(s));
        assert(target.value() == goal);
        // The search starts with the volatility bracketed by 0 and 2^64.
        assert((0 * t) * (0 * t) == 0) by (nonlinear_arith);
        assert(goal < (big * t) * (big * t)) by (nonlinear_arith)
            requires
                goal == (SCALE * SCALE) * spread(s),
                0 <= spread(s) <= (n - 1) * (t * t),
                n < big,
                t > 0,
                SCALE == 100_000_000,
                big == 0x1_0000_0000_0000_0000,
        ;
    }
    let mut low: u128 = 0;
    let mut high: u128 = 0x1_0000_0000_0000_0000;
    while high - low > 1
        invariant
            low < high <= 0x1_0000_0000_0000_0000,
            t == total,
            target.value() == goal,
            (low * t) * (low * t) <= goal,
            goal < (high * t) * (high * t),
        decreases high - low,
    {
        let middle: u128 = low + (high - low) / 2;
        let scaled = mul_wide(middle, total);
        let square = mul_quad(&scaled, &scaled);
        if square.le(&target) {
            low = middle;
        } else {
            high = middle;
        }
    }
    Decimal::from_units(low as u64)
}

/// The label of a volatility: below 0.02 `LOW`, below 0.05 `MEDIUM`, else `HIGH`.
pub fn determine_volatility_level(volatility: Decimal) -> (level: String)
    ensures
        level@ == level_label(volatility.units as nat),
{
    if volatility.units < LOW_VOLATILITY_UNITS {
        "LOW".to_owned()
    } else if volatility.units < MEDIUM_VOLATILITY_UNITS {
        "MEDIUM".to_owned()
    } else {
        "HIGH".to_owned()
    }
}

/// The range width in percent suggested for a volatility: 5 below 0.02,
/// 10 below 0.05, 20 below 0.1, else 30.
pub fn calculate_suggested_range_width(volatility: Decimal) -> (width: Decimal)
    ensures
        width.units == range_width_units(volatility.units as nat),
{
    if volatility.units < LOW_VOLATILITY_UNITS {
        Decimal::from_units(5 * SCALE)
    } else if volatility.units < MEDIUM_VOLATILITY_UNITS {
        Decimal::from_units(10 * SCALE)
    } else if volatility.units < WIDE_VOLATILITY_UNITS {
        Decimal::from_units(20 * SCALE)
    } else {
        Decimal::from_units(30 * SCALE)
    }
}

/// The trend of `prices`: `UPWARD` where the mean of the last third exceeds
/// that of the first third by more than 2 %, `DOWNWARD` where it falls short
/// by more than 2 %, else `SIDEWAYS`.
pub fn determine_trend(prices: &[FixedPrice]) -> (trend: String)
    ensures
        trend@ == trend_label(units_of(prices@)),
{
    let n = prices.len();
    let ghost s = units_of(prices@);
    if n < 3 {
        return "SIDEWAYS".to_owned();
    }
    let first_len: usize = n / 3;
    let last_start: usize = two_thirds(n);
    let last_len: usize = n - last_start;
    let (first_sum, _) = accumulate(prices, 0, first_len);
    let (last_sum, _) = accumulate(prices, last_start, last_len);
    let late = mul_wide(last_sum, first_len as u128);
    let early = mul_wide(first_sum, last_len as u128);
    let late_50 = mul_quad(&late, &Wide::from_digit(50));
    let early_51 = mul_quad(&early, &Wide::from_digit(51));
    let early_49 = mul_quad(&early, &Wide::from_digit(49));
    proof {
        assert(s.subrange(0, first_len as int) =~= first_third(s));
        assert(s.subrange(last_start as int, last_start + last_len) =~= last_third(s));
        let (l, f) = (sum(last_third(s)), sum(first_third(s)));
        let (k, m) = (first_third(s).len(), last_third(s).len());
        assert(50 * l * k == (l * k) * 50 && 51 * f * m == (f * m) * 51 && 49 * f * m == (f * m)
            * 49) by (nonlinear_arith);
    }
    if !late_50.le(&early_51) {
        "UPWARD".to_owned()
    } else if !early_49.le(&late_50) {
        "DOWNWARD".to_owned()
    } else {
        "SIDEWAYS".to_owned()
    }
}

/// Two thirds of `n`, rounded down: where the last third of `n` prices begins.
fn two_thirds(n: usize) -> (r: usize)
    ensures
        r == n as int * 2 / 3,
        r <= n,
{
    n / 3 * 2 + (n % 3) * 2 / 3
}

} // verus!
