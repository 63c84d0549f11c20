//! Tick arithmetic for concentrated-liquidity pools.
//!
//! A pool only accepts ticks that are multiples of its tick spacing. The
//! functions here move an arbitrary tick onto that grid, rounding to the
//! nearest grid point symmetrically around zero.

use vstd::arithmetic::div_mod::{
    lemma_fundamental_div_mod, lemma_fundamental_div_mod_converse, lemma_mod_multiples_basic,
};
use vstd::prelude::*;

verus! {

/// Tick spacing used when a range is derived without knowing the pool's fee tier.
pub const DEFAULT_TICK_SPACING: i32 = 60;

/// Absolute value of an integer.
pub open spec fn magnitude(x: int) -> int {
    if x >= 0 {
        x
    } else {
        -x
    }
}

/// The multiple of `spacing` nearest to `tick`. A tick exactly halfway between
/// two multiples goes to the one further from zero, so the rounding of `-t` is
/// the negation of the rounding of `t`.
pub open spec fn aligned_tick(tick: int, spacing: int) -> int
    recommends
        spacing > 0,
{
    let below = (magnitude(tick) / spacing) * spacing;
    let nearest = if (magnitude(tick) - below) * 2 >= spacing {
        below + spacing
    } else {
        below
    };
    if tick >= 0 {
        nearest
    } else {
        -nearest
    }
}

/// Whether `tick` lies on the grid of multiples of `spacing`.
pub open spec fn on_grid(tick: int, spacing: int) -> bool
    recommends
        spacing > 0,
{
    tick % spacing == 0
}

/// The aligned tick computed in 64 bits, where it always fits.
fn rounded_tick(tick: i32, spacing: i32) -> (rounded: i64)
    requires
        spacing > 0,
    ensures
        rounded == aligned_tick(tick as int, spacing as int),
{
    let t: i64 = tick as i64;
    let s: i64 = spacing as i64;
    let remainder: i64 = t % s;
    let distance: i64 = if remainder < 0 {
        -remainder
    } else {
        remainder
    };
    proof {
        lemma_fundamental_div_mod(magnitude(t as int), s as int);
        assert((s as int) * (magnitude(t as int) / (s as int)) == (magnitude(t as int) / (
        s as int)) * (s as int)) by (nonlinear_arith);
    }
    if distance * 2 >= s {
        if t > 0 {
            t - remainder + s
        } else {
            t - remainder - s
        }
    } else {
        t - remainder
    }
}

/// Rounds `tick` to the nearest multiple of `spacing`, halves away from zero.
///
/// The rounded tick can leave the `i32` range only within half a spacing of
/// its ends; such ticks are excluded, and [`can_align`] tells them apart.
pub fn align_to_tick_spacing(tick: i32, spacing: i32) -> (aligned: i32)
    requires
        spacing > 0,
        i32::MIN <= aligned_tick(tick as int, spacing as int) <= i32::MAX,
    ensures
        aligned == aligned_tick(tick as int, spacing as int),
{
    rounded_tick(tick, spacing) as i32
}

/// Whether [`align_to_tick_spacing`] accepts `tick` with `spacing`.
pub fn can_align(tick: i32, spacing: i32) -> (ok: bool)
    ensures
        ok <==> spacing > 0 && i32::MIN <= aligned_tick(tick as int, spacing as int) <= i32::MAX,
{
    if spacing <= 0 {
        return false;
    }
    let rounded = rounded_tick(tick, spacing);
    -2147483648 <= rounded && rounded <= 2147483647
}

/// Aligns both ends of a tick range to `spacing`.
pub fn align_tick_range(lower_tick: i32, upper_tick: i32, spacing: i32) -> (range: (i32, i32))
    requires
        spacing > 0,
        i32::MIN <= aligned_tick(lower_tick as int, spacing as int) <= i32::MAX,
        i32::MIN <= aligned_tick(upper_tick as int, spacing as int) <= i32::MAX,
    ensures
        range.0 == aligned_tick(lower_tick as int, spacing as int),
        range.1 == aligned_tick(upper_tick as int, spacing as int),
        lower_tick <= upper_tick ==> range.0 <= range.1,
{
    proof {
        lemma_aligned_tick_monotonic(lower_tick as int, upper_tick as int, spacing as int);
    }
    (align_to_tick_spacing(lower_tick, spacing), align_to_tick_spacing(upper_tick, spacing))
}

/// An aligned tick is a multiple of the spacing and lies within half a spacing
/// of the tick it was rounded from.
pub proof fn lemma_aligned_tick_on_grid(tick: int, spacing: int)
    requires
        spacing > 0,
    ensures
        on_grid(aligned_tick(tick, spacing), spacing),
        magnitude(aligned_tick(tick, spacing) - tick) * 2 <= spacing,
{
    let m = magnitude(tick);
    let q = m / spacing;
    lemma_fundamental_div_mod(m, spacing);
    assert(spacing * q == q * spacing) by (nonlinear_arith);
    assert((q + 1) * spacing == q * spacing + spacing) by (nonlinear_arith);
    assert((-q) * spacing == -(q * spacing)) by (nonlinear_arith);
    assert((-(q + 1)) * spacing == -(q * spacing + spacing)) by (nonlinear_arith);
    lemma_mod_multiples_basic(q, spacing);
    lemma_mod_multiples_basic(q + 1, spacing);
    lemma_mod_multiples_basic(-q, spacing);
    lemma_mod_multiples_basic(-(q + 1), spacing);
}

/// Aligning is idempotent: a tick already on the grid is returned unchanged,
/// so aligning twice gives the same tick as aligning once.
pub proof fn lemma_align_idempotent(tick: int, spacing: int)
    requires
        spacing > 0,
    ensures
        on_grid(tick, spacing) ==> aligned_tick(tick, spacing) == tick,
        aligned_tick(aligned_tick(tick, spacing), spacing) == aligned_tick(tick, spacing),
{
    if on_grid(tick, spacing) {
        lemma_on_grid_fixed(tick, spacing);
    }
    lemma_aligned_tick_on_grid(tick, spacing);
    lemma_on_grid_fixed(aligned_tick(tick, spacing), spacing);
}

/// A tick on the grid is its own alignment.
pub proof fn lemma_on_grid_fixed(tick: int, spacing: int)
    requires
        spacing > 0,
        on_grid(tick, spacing),
    ensures
        aligned_tick(tick, spacing) == tick,
{
    let m = magnitude(tick);
    lemma_fundamental_div_mod(tick, spacing);
    let k = tick / spacing;
    assert(tick == spacing * k);
    if tick >= 0 {
        lemma_fundamental_div_mod(m, spacing);
        assert(spacing * (m / spacing) == (m / spacing) * spacing) by (nonlinear_arith);
    } else {
        assert(m == spacing * (-k)) by (nonlinear_arith)
            requires
                tick == spacing * k,
                m == -tick,
        ;
        lemma_fundamental_div_mod_converse(m, spacing, -k, 0);
        assert((-k) * spacing == spacing * (-k)) by (nonlinear_arith);
    }
}

/// Aligning preserves order: a lower tick never aligns above a higher one.
pub proof fn lemma_aligned_tick_monotonic(a: int, b: int, spacing: int)
    requires
        spacing > 0,
    ensures
        a <= b ==> aligned_tick(a, spacing) <= aligned_tick(b, spacing),
{
    if a <= b {
        let x = aligned_tick(a, spacing);
        let y = aligned_tick(b, spacing);
        lemma_aligned_tick_on_grid(a, spacing);
        lemma_aligned_tick_on_grid(b, spacing);
        if x > y {
            // Two distinct grid points are at least one spacing apart, while
            // each is within half a spacing of its tick; so a and b are both
            // exactly halfway, with a == b, and then x == y.
            lemma_fundamental_div_mod(x, spacing);
            lemma_fundamental_div_mod(y, spacing);
            let kx = x / spacing;
            let ky = y / spacing;
            assert(kx > ky) by (nonlinear_arith)
                requires
                    x == spacing * kx,
                    y == spacing * ky,
                    x > y,
                    spacing > 0,
            ;
            assert(x - y >= spacing) by (nonlinear_arith)
                requires
                    x == spacing * kx,
                    y == spacing * ky,
                    kx >= ky + 1,
                    spacing > 0,
            ;
            assert(a == b);
        }
    }
}

} // verus!
