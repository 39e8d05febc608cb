//! Exact products of two 128-bit numbers.
//!
//! Comparing two fractions by cross-multiplication needs products of up to
//! 256 bits. They are computed here limb by limb and never truncated.

use vstd::prelude::*;

verus! {

/// `2^64`, the base of the limbs.
pub const LIMB: u128 = 0x1_0000_0000_0000_0000;

/// `2^128` as a mathematical integer.
pub open spec fn two_pow_128() -> int {
    0x1_0000_0000_0000_0000_0000_0000_0000_0000int
}

/// An unsigned 256-bit number, `hi * 2^128 + lo`.
#[derive(Clone, Copy, Debug, PartialEq, Eq, Structural)]
pub struct Wide {
    /// The upper 128 bits.
    pub hi: u128,
    /// The lower 128 bits.
    pub lo: u128,
}

impl View for Wide {
    type V = int;

    open spec fn view(&self) -> int {
        self.hi * two_pow_128() + self.lo
    }
}

/// The product of two two-limb numbers, sorted by limb weight.
proof fn lemma_limb_product(a1: int, a0: int, b1: int, b0: int, base: int)
    ensures
        (a1 * base + a0) * (b1 * base + b0) == (a1 * b1) * (base * base) + (a0 * b1 + a1 * b0)
            * base + a0 * b0,
{
    let a = a1 * base + a0;
    let b = b1 * base + b0;
    assert(a * b == (a1 * base) * b + a0 * b) by (nonlinear_arith)
        requires
            a == a1 * base + a0,
    ;
    assert((a1 * base) * b == (a1 * base) * (b1 * base) + (a1 * base) * b0) by (nonlinear_arith)
        requires
            b == b1 * base + b0,
    ;
    assert(a0 * b == a0 * (b1 * base) + a0 * b0) by (nonlinear_arith)
        requires
            b == b1 * base + b0,
    ;
    assert((a1 * base) * (b1 * base) == (a1 * b1) * (base * base)) by (nonlinear_arith);
    assert((a1 * base) * b0 == (a1 * b0) * base) by (nonlinear_arith);
    assert(a0 * (b1 * base) == (a0 * b1) * base) by (nonlinear_arith);
    assert((a0 * b1 + a1 * b0) * base == (a0 * b1) * base + (a1 * b0) * base)
        by (nonlinear_arith);
}

/// A product of two limbs leaves room for two more limbs on top.
proof fn lemma_limb_product_bound(x: int, y: int)
    requires
        0 <= x < LIMB,
        0 <= y < LIMB,
    ensures
        0 <= x * y <= (LIMB - 1) * (LIMB - 1),
{
    assert(0 <= x * y <= (LIMB - 1) * (LIMB - 1)) by (nonlinear_arith)
        requires
            0 <= x <= LIMB - 1,
            0 <= y <= LIMB - 1,
    ;
}

impl Wide {
    /// The exact product `a * b`.
    pub fn product(a: u128, b: u128) -> (product: Wide)
        ensures
            product@ == a * b,
    {
        let a0: u128 = a % LIMB;
        let a1: u128 = a / LIMB;
        let b0: u128 = b % LIMB;
        let b1: u128 = b / LIMB;
        proof {
            lemma_limb_product_bound(a0 as int, b0 as int);
            lemma_limb_product_bound(a0 as int, b1 as int);
            lemma_limb_product_bound(a1 as int, b0 as int);
            lemma_limb_product_bound(a1 as int, b1 as int);
        }
        let p00: u128 = a0 * b0;
        let p01: u128 = a0 * b1;
        let p10: u128 = a1 * b0;
        let p11: u128 = a1 * b1;
        let mid: u128 = p00 / LIMB + p01 % LIMB + p10 % LIMB;
        let lo: u128 = (mid % LIMB) * LIMB + p00 % LIMB;
        let hi: u128 = p11 + p01 / LIMB + p10 / LIMB + mid / LIMB;
        proof {
            lemma_limb_product(a1 as int, a0 as int, b1 as int, b0 as int, LIMB as int);
            assert(LIMB * LIMB == two_pow_128());
        }
        Wide { hi, lo }
    }

    /// Whether `self` is at least `other`.
    pub fn at_least(&self, other: &Wide) -> (at_least: bool)
        ensures
            at_least == (self@ >= other@),
    {
        self.hi > other.hi || (self.hi == other.hi && self.lo >= other.lo)
    }
}

/// The absolute value of `x`.
#[verifier::inline]
pub open spec fn magnitude_of(x: int) -> int {
    if x < 0 {
        -x
    } else {
        x
    }
}

/// The magnitude of a signed 128-bit number.
pub fn magnitude(x: i128) -> (m: u128)
    ensures
        m == magnitude_of(x as int),
{
    if x >= 0 {
        x as u128
    } else if x == i128::MIN {
        0x8000_0000_0000_0000_0000_0000_0000_0000
    } else {
        (-x) as u128
    }
}

} // verus!
