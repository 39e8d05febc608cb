//! Fixed-point prices and exact fractions.
//!
//! A price is an integer together with the number of decimal places it was
//! reported with, so `value = 10050, decimals = 2` stands for 100.50. Every
//! comparison is made on integers, by bringing both sides to the same number
//! of decimal places and cross-multiplying.

use crate::common::wide::{magnitude, magnitude_of, Wide};
use vstd::prelude::*;

verus! {

/// `10^n`.
pub open spec fn pow10(n: nat) -> nat
    decreases n,
{
    if n == 0 {
        1
    } else {
        10 * pow10((n - 1) as nat)
    }
}

/// `10^n` is positive and grows with `n`.
pub proof fn lemma_pow10_monotonic(m: nat, n: nat)
    requires
        m <= n,
    ensures
        0 < pow10(m) <= pow10(n),
    decreases n,
{
    if n == 0 {
    } else if m == n {
        lemma_pow10_monotonic((m - 1) as nat, (n - 1) as nat);
    } else {
        lemma_pow10_monotonic(m, (n - 1) as nat);
    }
}

/// `10^(m + n)` is `10^m * 10^n`.
pub proof fn lemma_pow10_adds(m: nat, n: nat)
    ensures
        pow10(m + n) == pow10(m) * pow10(n),
    decreases m,
{
    if m == 0 {
        assert(pow10(0) == 1);
        assert(pow10(0) * pow10(n) == pow10(n)) by (nonlinear_arith)
            requires
                pow10(0) == 1,
        ;
    } else {
        lemma_pow10_adds((m - 1) as nat, n);
        assert(pow10(m + n) == 10 * pow10((m - 1 + n) as nat));
        assert(10 * (pow10((m - 1) as nat) * pow10(n)) == (10 * pow10((m - 1) as nat)) * pow10(n))
            by (nonlinear_arith);
    }
}

/// An oracle reading: `value * 10^-decimals`.
#[derive(Clone, Copy, Debug, PartialEq, Eq, Structural)]
pub struct Price {
    /// The reading as an integer count of its smallest unit.
    pub value: i128,
    /// How many decimal places `value` carries.
    pub decimals: u8,
}

/// A ratio of two integers, used for thresholds and relative changes.
///
/// The sign lives in the numerator. A fraction whose denominator is zero
/// denotes no number; comparing it is still defined, by cross-multiplication,
/// but means nothing.
#[derive(Clone, Copy, Debug, PartialEq, Eq, Structural)]
pub struct Fraction {
    /// The signed numerator.
    pub numerator: i128,
    /// The denominator.
    pub denominator: u128,
}

impl Price {
    /// A reading is usable only if it is strictly positive.
    pub open spec fn spec_is_positive(&self) -> bool {
        self.value > 0
    }

    /// A reading is usable only if it is strictly positive.
    #[verifier::when_used_as_spec(spec_is_positive)]
    pub fn is_positive(&self) -> (positive: bool)
        ensures
            positive == self.spec_is_positive(),
    {
        self.value > 0
    }

    /// The integer that stands for this price when it is compared with
    /// `other`: the value itself if `other` carries no more decimals, else
    /// the value written with as many decimals as `other`.
    pub open spec fn beside(self, other: Price) -> int {
        if other.decimals <= self.decimals {
            self.value as int
        } else {
            self.value * pow10((other.decimals - self.decimals) as nat)
        }
    }
}

impl Fraction {
    /// `|self| >= |other|`, by cross-multiplication.
    pub open spec fn spec_magnitude_at_least(&self, other: &Fraction) -> bool {
        magnitude_of(self.numerator as int) * other.denominator >= magnitude_of(
            other.numerator as int,
        ) * self.denominator
    }

    /// The sign of the numerator: `1`, `-1` or `0`.
    pub open spec fn spec_sign(&self) -> i8 {
        if self.numerator > 0 {
            1i8
        } else if self.numerator < 0 {
            -1i8
        } else {
            0i8
        }
    }

    /// The fraction `percent / 100`.
    pub open spec fn spec_percent(percent: i128) -> Fraction {
        Fraction { numerator: percent, denominator: 100 }
    }

    /// The fraction `percent / 100`.
    #[verifier::when_used_as_spec(spec_percent)]
    pub fn percent(percent: i128) -> (fraction: Fraction)
        ensures
            fraction == (Fraction { numerator: percent, denominator: 100 }),
    {
        Fraction { numerator: percent, denominator: 100 }
    }

    /// `|self| >= |other|`, computed without overflow or rounding.
    #[verifier::when_used_as_spec(spec_magnitude_at_least)]
    pub fn magnitude_at_least(&self, other: &Fraction) -> (at_least: bool)
        ensures
            at_least == self.spec_magnitude_at_least(other),
    {
        let left = Wide::product(magnitude(self.numerator), other.denominator);
        let right = Wide::product(magnitude(other.numerator), self.denominator);
        left.at_least(&right)
    }

    /// The sign of the numerator: `1`, `-1` or `0`.
    #[verifier::when_used_as_spec(spec_sign)]
    pub fn sign(&self) -> (sign: i8)
        ensures
            sign == self.spec_sign(),
    {
        if self.numerator > 0 {
            1
        } else if self.numerator < 0 {
            -1
        } else {
            0
        }
    }
}

/// Multiplies `value` by `10^places`, or reports that the result does not
/// fit in 128 bits.
pub fn scale_up(value: i128, places: u8) -> (scaled: Option<i128>)
    ensures
        scaled == (if i128::MIN <= value * pow10(places as nat) <= i128::MAX {
            Some((value * pow10(places as nat)) as i128)
        } else {
            None
        }),
{
    let mut acc: i128 = value;
    let mut done: u8 = 0;
    assert(pow10(0) == 1);
    while done < places
        invariant
            done <= places,
            acc == value * pow10(done as nat),
        decreases places - done,
    {
        proof {
            let reached = pow10((done + 1) as nat) as int;
            let wanted = pow10(places as nat) as int;
            lemma_pow10_monotonic((done + 1) as nat, places as nat);
            assert(value * reached == (value * pow10(done as nat)) * 10) by (nonlinear_arith)
                requires
                    reached == 10 * pow10(done as nat),
            ;
            // Further factors of ten only move the product away from zero.
            assert((value >= 0 ==> value * wanted >= value * reached) && (value <= 0 ==> value
                * wanted <= value * reached) && (value * reached > 0 ==> value > 0) && (value
                * reached < 0 ==> value < 0)) by (nonlinear_arith)
                requires
                    0 < reached <= wanted,
            ;
        }
        match acc.checked_mul(10) {
            Some(next) => {
                acc = next;
            },
            None => {
                return None;
            },
        }
        done = done + 1;
    }
    Some(acc)
}

} // verus!
