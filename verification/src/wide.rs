//! Exact arithmetic on numbers of up to 512 bits.
//!
//! The statistics compare quantities such as `(r * sum)^2` that do not fit in
//! 128 bits, whatever the length of the series. Such a number is kept in two
//! or four 128-bit digits and never rounded.

use vstd::prelude::*;

verus! {

/// 2^64, the base in which a 128-bit number has two digits.
pub const HALF: u128 = 0x1_0000_0000_0000_0000;

/// 2^128 as a mathematical integer.
pub open spec fn full() -> nat {
    0x1_0000_0000_0000_0000_0000_0000_0000_0000nat
}

/// A number below 2^256, held as `hi * 2^128 + lo`.
#[derive(Clone, Copy, Debug)]
pub struct Wide {
    pub hi: u128,
    pub lo: u128,
}

impl Wide {
    /// The number this pair of halves stands for.
    pub open spec fn value(self) -> nat {
        self.hi as nat * full() + self.lo as nat
    }

    /// Whether this number is at most `other`.
    pub fn le(&self, other: &Wide) -> (r: bool)
        ensures
            r == (self.value() <= other.value()),
    {
        proof {
            if self.hi < other.hi {
                lemma_halves_order(
                    self.hi as nat,
                    self.lo as nat,
                    other.hi as nat,
                    other.lo as nat,
                );
            }
            if other.hi < self.hi {
                lemma_halves_order(
                    other.hi as nat,
                    other.lo as nat,
                    self.hi as nat,
                    self.lo as nat,
                );
            }
        }
        self.hi < other.hi || (self.hi == other.hi && self.lo <= other.lo)
    }
}

/// Numbers written with two digits in base 2^128 are ordered digit by digit.
proof fn lemma_halves_order(h1: nat, l1: nat, h2: nat, l2: nat)
    requires
        l1 < full(),
        l2 < full(),
        h1 < h2,
    ensures
        h1 * full() + l1 < h2 * full() + l2,
{
    assert(h2 * full() >= (h1 + 1) * full()) by (nonlinear_arith)
        requires
            h2 >= h1 + 1,
    ;
    assert((h1 + 1) * full() == h1 * full() + full()) by (nonlinear_arith);
}

/// The product of two 64-bit digits, and the quotient of such a product by 2^64.
proof fn lemma_digit_product(x: nat, y: nat)
    requires
        x < HALF,
        y < HALF,
    ensures
        x * y <= (HALF - 1) * (HALF - 1),
        (HALF - 1) * (HALF - 1) == 0xffff_ffff_ffff_fffe_0000_0000_0000_0001,
        (x * y) / (HALF as nat) <= HALF - 2,
{
    assert(x * y <= (HALF - 1) * (HALF - 1)) by (nonlinear_arith)
        requires
            x <= HALF - 1,
            y <= HALF - 1,
    ;
    assert((HALF - 1) * (HALF - 1) == 0xffff_ffff_ffff_fffe_0000_0000_0000_0001) by (nonlinear_arith);
}

/// The exact product of `a` and `b`.
pub fn mul_wide(a: u128, b: u128) -> (w: Wide)
    ensures
        w.value() == a as nat * b as nat,
{
    let a1: u128 = a / HALF;
    let a0: u128 = a % HALF;
    let b1: u128 = b / HALF;
    let b0: u128 = b % HALF;
    proof {
        lemma_digit_product(a0 as nat, b0 as nat);
        lemma_digit_product(a0 as nat, b1 as nat);
        lemma_digit_product(a1 as nat, b0 as nat);
        lemma_digit_product(a1 as nat, b1 as nat);
    }
    let p00: u128 = a0 * b0;
    let p01: u128 = a0 * b1;
    let p10: u128 = a1 * b0;
    let p11: u128 = a1 * b1;
    let t: u128 = p00 / HALF + p01 % HALF + p10 % HALF;
    let lo: u128 = (t % HALF) * HALF + p00 % HALF;
    let hi: u128 = p11 + p01 / HALF + p10 / HALF + t / HALF;
    proof {
        let base = HALF as nat;
        assert(a as nat * b as nat == (p11 as nat) * (base * base) + (p01 as nat) * base + (
        p10 as nat) * base + p00 as nat) by (nonlinear_arith)
            requires
                a as nat == a1 as nat * base + a0 as nat,
                b as nat == b1 as nat * base + b0 as nat,
                p00 as nat == a0 as nat * b0 as nat,
                p01 as nat == a0 as nat * b1 as nat,
                p10 as nat == a1 as nat * b0 as nat,
                p11 as nat == a1 as nat * b1 as nat,
        ;
        assert(base * base == full());
        assert((p11 as nat) * (base * base) == (p11 as nat) * full());
        assert((hi as nat) * full() + lo as nat == (p11 as nat) * full() + (p01 as nat) * base + (
        p10 as nat) * base + p00 as nat);
    }
    Wide { hi, lo }
}

/// The sum of two digits and a small carry, as a digit and the carry out.
pub fn add_carry(a: u128, b: u128, carry: u128) -> (r: (u128, u128))
    requires
        carry <= 3,
    ensures
        r.0 as nat + r.1 as nat * full() == a as nat + b as nat + carry as nat,
        r.1 <= 2,
{
    let low: u128 = a % HALF + b % HALF + carry;
    let high: u128 = a / HALF + b / HALF + low / HALF;
    ((high % HALF) * HALF + low % HALF, high / HALF)
}

impl Wide {
    /// The number `x` as a two-digit number.
    pub fn from_digit(x: u128) -> (w: Wide)
        ensures
            w.value() == x,
    {
        Wide { hi: 0, lo: x }
    }

    /// This number plus `x`, where that still has two digits.
    pub fn add_digit(&self, x: u128) -> (w: Wide)
        requires
            self.value() + x < full() * full(),
        ensures
            w.value() == self.value() + x,
    {
        let (lo, carry) = add_carry(self.lo, x, 0);
        Wide { hi: self.hi + carry, lo }
    }

    /// This number less `other`, which is not the greater.
    pub fn minus(&self, other: &Wide) -> (w: Wide)
        requires
            other.value() <= self.value(),
        ensures
            w.value() == self.value() - other.value(),
    {
        if self.lo >= other.lo {
            Wide { hi: self.hi - other.hi, lo: self.lo - other.lo }
        } else {
            Wide {
                hi: self.hi - other.hi - 1,
                lo: self.lo + (0xffff_ffff_ffff_ffff_ffff_ffff_ffff_ffff - other.lo) + 1,
            }
        }
    }
}

/// A number below 2^512, held in four digits of 128 bits.
#[derive(Clone, Copy, Debug)]
pub struct Quad {
    pub w3: u128,
    pub w2: u128,
    pub w1: u128,
    pub w0: u128,
}

impl Quad {
    /// The number these four digits stand for, `w3` the most significant.
    pub open spec fn value(self) -> nat {
        ((self.w3 as nat * full() + self.w2 as nat) * full() + self.w1 as nat) * full()
            + self.w0 as nat
    }

    /// Whether this number is at most `other`.
    pub fn le(&self, other: &Quad) -> (r: bool)
        ensures
            r == (self.value() <= other.value()),
    {
        if self.w3 != other.w3 {
            self.w3 < other.w3
        } else if self.w2 != other.w2 {
            self.w2 < other.w2
        } else if self.w1 != other.w1 {
            self.w1 < other.w1
        } else {
            self.w0 <= other.w0
        }
    }

    /// The two low digits as a number, where the two high digits are zero.
    pub fn low_half(&self) -> (w: Wide)
        requires
            self.value() < full() * full(),
        ensures
            w.value() == self.value(),
    {
        Wide { hi: self.w1, lo: self.w0 }
    }
}

/// The exact product of two two-digit numbers.
pub fn mul_quad(a: &Wide, b: &Wide) -> (q: Quad)
    ensures
        q.value() == a.value() * b.value(),
{
    let p00 = mul_wide(a.lo, b.lo);
    let p01 = mul_wide(a.lo, b.hi);
    let p10 = mul_wide(a.hi, b.lo);
    let p11 = mul_wide(a.hi, b.hi);
    let (t1, c1a) = add_carry(p00.hi, p01.lo, 0);
    let (w1, c1b) = add_carry(t1, p10.lo, 0);
    let (t2, c2a) = add_carry(p01.hi, p10.hi, c1a + c1b);
    let (w2, c2b) = add_carry(t2, p11.lo, 0);
    proof {
        let base: nat = 0x1_0000_0000_0000_0000_0000_0000_0000_0000nat;
        assert(base == full());
        let (ah, al, bh, bl) = (a.hi as nat, a.lo as nat, b.hi as nat, b.lo as nat);
        let (x11, x01, x10, x00) = (p11.value(), p01.value(), p10.value(), p00.value());
        assert(a.value() * b.value() == (x11 * base + (x01 + x10)) * base + x00)
            by (nonlinear_arith)
            requires
                a.value() == ah * base + al,
                b.value() == bh * base + bl,
                x11 == ah * bh,
                x01 == al * bh,
                x10 == ah * bl,
                x00 == al * bl,
        ;
        assert(a.value() * b.value() < (base * base) * (base * base)) by (nonlinear_arith)
            requires
                a.value() < base * base,
                b.value() < base * base,
        ;
        let top = p11.hi as nat + c2a as nat + c2b as nat;
        assert(x11 == p11.hi as nat * base + p11.lo as nat);
        assert(x01 == p01.hi as nat * base + p01.lo as nat);
        assert(x10 == p10.hi as nat * base + p10.lo as nat);
        assert(x00 == p00.hi as nat * base + p00.lo as nat);
        assert(((top * base + w2 as nat) * base + w1 as nat) * base + p00.lo as nat == (x11 * base
            + (x01 + x10)) * base + x00);
        assert(top < base);
    }
    Quad { w3: p11.hi + c2a + c2b, w2, w1, w0: p00.lo }
}

} // verus!
