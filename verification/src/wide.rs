//! Exact arithmetic on products that do not fit in 128 bits.
//!
//! The pricing formulas multiply two 128-bit quantities before dividing. The
//! product needs up to 266 bits, so it is never formed: `mul_div` walks the
//! bits of one factor and keeps only a quotient and a remainder below the
//! divisor.

use vstd::prelude::*;
use vstd::arithmetic::div_mod::lemma_fundamental_div_mod_converse;

verus! {

/// 2^128, the weight of the upper half of a `Wide`.
#[verifier::inline]
pub open spec fn limb() -> int {
    0x1_0000_0000_0000_0000_0000_0000_0000_0000int
}

/// 2^64, the weight at which `Wide::times` splits its factor.
#[verifier::inline]
pub open spec fn half_limb() -> int {
    0x1_0000_0000_0000_0000
}

/// An unsigned integer of 256 bits.
#[derive(Clone, Copy, Debug)]
pub struct Wide {
    pub hi: u128,
    pub lo: u128,
}

impl Wide {
    /// The number that the two halves stand for.
    pub open spec fn value(self) -> int {
        self.hi * limb() + self.lo
    }

    /// The 128-bit number `x`, widened.
    pub fn from_u128(x: u128) -> (w: Wide)
        ensures
            w.value() == x,
    {
        Wide { hi: 0, lo: x }
    }

    /// The sum of two numbers whose sum fits in 256 bits.
    pub fn plus(self, other: Wide) -> (w: Wide)
        requires
            self.value() + other.value() < limb() * limb(),
        ensures
            w.value() == self.value() + other.value(),
    {
        if self.lo <= u128::MAX - other.lo {
            Wide { hi: self.hi + other.hi, lo: self.lo + other.lo }
        } else {
            Wide { hi: self.hi + other.hi + 1, lo: self.lo - (u128::MAX - other.lo) - 1 }
        }
    }

    /// The difference of two numbers, the second no larger than the first.
    pub fn minus(self, other: Wide) -> (w: Wide)
        requires
            other.value() <= self.value(),
        ensures
            w.value() == self.value() - other.value(),
    {
        if self.lo >= other.lo {
            Wide { hi: self.hi - other.hi, lo: self.lo - other.lo }
        } else {
            Wide { hi: self.hi - other.hi - 1, lo: (u128::MAX - other.lo) + self.lo + 1 }
        }
    }

    /// Whether `self` is at most `other`.
    pub fn at_most(self, other: Wide) -> (b: bool)
        ensures
            b == (self.value() <= other.value()),
    {
        self.hi < other.hi || (self.hi == other.hi && self.lo <= other.lo)
    }

    /// The exact product of a 128-bit number and a 32-bit factor.
    pub fn times(a: u128, k: u32) -> (w: Wide)
        ensures
            w.value() == a * k,
    {
        let low: u128 = a % 0x1_0000_0000_0000_0000;
        let high: u128 = a / 0x1_0000_0000_0000_0000;
        let factor: u128 = k as u128;
        assert(low * factor < 0x1_0000_0000_0000_0000_0000_0000 && high * factor
            < 0x1_0000_0000_0000_0000_0000_0000) by (nonlinear_arith)
            requires
                low < 0x1_0000_0000_0000_0000,
                high < 0x1_0000_0000_0000_0000,
                factor < 0x1_0000_0000,
        ;
        let low_part: u128 = low * factor;
        let high_part: u128 = high * factor;
        let shifted = Wide {
            hi: high_part / 0x1_0000_0000_0000_0000,
            lo: (high_part % 0x1_0000_0000_0000_0000) * 0x1_0000_0000_0000_0000,
        };
        assert(shifted.value() == high_part * half_limb());
        assert(a * k == high_part * half_limb() + low_part) by (nonlinear_arith)
            requires
                a == high * half_limb() + low,
                high_part == high * factor,
                low_part == low * factor,
                factor == k,
        ;
        shifted.plus(Wide::from_u128(low_part))
    }
}

/// The quotient and remainder of `x * y` by `d`, for `x` no larger than `d`.
///
/// The quotient is then at most `y`, so it fits in 128 bits whatever the size
/// of the product.
pub fn mul_div(x: Wide, y: u128, d: Wide) -> (qr: (u128, Wide))
    requires
        0 < d.value(),
        x.value() <= d.value(),
        3 * d.value() < limb() * limb(),
    ensures
        qr.0 == (x.value() * y) / d.value(),
        qr.1.value() == (x.value() * y) % d.value(),
        qr.0 <= y,
    decreases y,
{
    if y == 0 {
        let r = Wide::from_u128(0);
        proof {
            assert(x.value() * 0 == 0) by (nonlinear_arith);
            lemma_fundamental_div_mod_converse(0, d.value(), 0, 0);
        }
        (0, r)
    } else {
        let half: u128 = y / 2;
        let (q_half, r_half) = mul_div(x, half, d);
        let ghost dv = d.value();
        proof {
            let n_half = x.value() * half;
            assert(0 <= n_half) by (nonlinear_arith)
                requires
                    n_half == x.value() * half,
                    0 <= x.value(),
                    0 <= half,
            ;
            vstd::arithmetic::div_mod::lemma_fundamental_div_mod(n_half, dv);
            vstd::arithmetic::div_mod::lemma_mod_pos_bound(n_half, dv);
        }
        // x * half == q_half * d + r_half; doubling it and adding x for an
        // odd y gives x * y with a remainder below three times the divisor.
        let doubled = r_half.plus(r_half);
        let mut r = if y % 2 == 1 {
            doubled.plus(x)
        } else {
            doubled
        };
        let ghost odd: int = if y % 2 == 1 { 1 } else { 0 };
        let ghost t = r.value();
        assert(x.value() * y == 2 * q_half * dv + t) by (nonlinear_arith)
            requires
                y == 2 * half + odd,
                x.value() * half == dv * q_half + r_half.value(),
                odd == 0 || odd == 1,
                t == 2 * r_half.value() + (if odd == 1 { x.value() } else { 0 }),
        ;
        let mut taken: u128 = 0;
        if d.at_most(r) {
            r = r.minus(d);
            taken = 1;
            if d.at_most(r) {
                r = r.minus(d);
                taken = 2;
            }
        }
        assert(x.value() * y == (2 * q_half + taken) * dv + r.value()) by (nonlinear_arith)
            requires
                x.value() * y == 2 * q_half * dv + t,
                taken == 0 || taken == 1 || taken == 2,
                t == (if taken == 0 { r.value() } else if taken == 1 { r.value() + dv } else { r.value() + dv + dv }),
        ;
        assert(2 * q_half + taken <= y) by (nonlinear_arith)
            requires
                x.value() * y == (2 * q_half + taken) * dv + r.value(),
                0 <= r.value(),
                0 < dv,
                0 <= x.value() <= dv,
                0 <= y,
        ;
        let q: u128 = 2 * q_half + taken;
        proof {
            lemma_fundamental_div_mod_converse(x.value() * y, dv, q as int, r.value());
        }
        (q, r)
    }
}

} // verus!
