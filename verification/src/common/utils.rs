//! Price readings and the movement evaluator.

use crate::common::constants::{USDC_BASE_UNITS, USDC_DECIMALS};
use crate::common::errors::CustomError;
use crate::common::events::PriceFetched;
use crate::common::price::{pow10, scale_up, Fraction, Price};
use crate::common::wide::magnitude_of;
use vstd::prelude::*;

verus! {

/// Turns a feed answer and its decimal count into a fixed-point price.
pub fn format_price(value: i128, decimals: u8) -> (price: Price)
    ensures
        price == (Price { value, decimals }),
{
    Price { value, decimals }
}

/// Builds the price of a feed's latest round, together with the record of the
/// reading. The caller supplies what it read from the feed and the time of the
/// call.
pub fn get_chainlink_price(
    answer: i128,
    decimals: u8,
    description: String,
    current_time: i64,
) -> (reading: (Price, PriceFetched))
    ensures
        reading.0 == (Price { value: answer, decimals }),
        reading.1.price == reading.0,
        reading.1.description == description,
        reading.1.timestamp == current_time,
{
    let price = format_price(answer, decimals);
    (price, PriceFetched { description, price, timestamp: current_time })
}

/// Numerator of the relative change `(candidate - initial) / initial`, with
/// both prices written at the finer of their two scales.
pub open spec fn change_numerator(initial: Price, candidate: Price) -> int {
    candidate.beside(initial) - initial.beside(candidate)
}

/// Denominator of the relative change: the initial price at the finer of
/// the two scales.
pub open spec fn change_denominator(initial: Price, candidate: Price) -> int {
    initial.beside(candidate)
}

/// Both prices fit in 128 bits once written at the finer of their two
/// scales.
pub open spec fn comparable(initial: Price, candidate: Price) -> bool {
    &&& initial.beside(candidate) <= i128::MAX
    &&& candidate.beside(initial) <= i128::MAX
}

/// The relative change between two comparable positive prices.
pub open spec fn relative_change(initial: Price, candidate: Price) -> Fraction {
    Fraction {
        numerator: change_numerator(initial, candidate) as i128,
        denominator: change_denominator(initial, candidate) as u128,
    }
}

/// Why two prices cannot be compared, if they cannot: a price that is not
/// strictly positive is invalid, and two prices that do not fit in 128 bits
/// at a common scale overflow.
pub open spec fn movement_error(initial: Price, candidate: Price) -> Option<CustomError> {
    if initial.value <= 0 || candidate.value <= 0 {
        Some(CustomError::InvalidPriceValue)
    } else if !comparable(initial, candidate) {
        Some(CustomError::Overflow)
    } else {
        None
    }
}

/// Whether the price moved by at least `percent` percent in either
/// direction: `|candidate / initial - 1| >= |percent| / 100`.
pub open spec fn moved_by_percent(initial: Price, candidate: Price, percent: int) -> bool {
    magnitude_of(change_numerator(initial, candidate)) * 100 >= magnitude_of(percent)
        * change_denominator(initial, candidate)
}

/// What the movement evaluator returns: whether the magnitude of the change
/// reaches the magnitude of `percentage`, the sign of the change, and the
/// change itself.
pub open spec fn price_movement(initial: Price, candidate: Price, percentage: Fraction) -> Result<
    (bool, i8, Fraction),
    CustomError,
> {
    match movement_error(initial, candidate) {
        Some(e) => Err(e),
        None => {
            let change = relative_change(initial, candidate);
            Ok((change.magnitude_at_least(&percentage), change.sign(), change))
        },
    }
}

/// Against a threshold of `percent / 100` the evaluator answers
/// `moved_by_percent`.
pub proof fn lemma_percent_threshold(initial: Price, candidate: Price, percent: i128)
    requires
        movement_error(initial, candidate) is None,
    ensures
        relative_change(initial, candidate).magnitude_at_least(&Fraction::percent(percent))
            == moved_by_percent(initial, candidate, percent as int),
        change_denominator(initial, candidate) > 0,
{
    lemma_beside_grows(initial, candidate);
    lemma_beside_grows(candidate, initial);
}

/// Writing a positive price at a finer scale never makes it smaller.
pub proof fn lemma_beside_grows(price: Price, other: Price)
    requires
        price.value > 0,
    ensures
        price.beside(other) >= price.value,
{
    if other.decimals > price.decimals {
        let up = pow10((other.decimals - price.decimals) as nat);
        crate::common::price::lemma_pow10_monotonic(0, (other.decimals - price.decimals) as nat);
        assert(price.value * up >= price.value) by (nonlinear_arith)
            requires
                price.value > 0,
                up >= 1,
        ;
    }
}

/// Classifies the move from `initial_price` to `final_price` against a
/// threshold.
///
/// Returns `(exceeded, direction, change)`, where `change` is the relative
/// change `(final - initial) / initial` as an exact fraction, `direction` is
/// its sign, and `exceeded` tells whether `|change| >= |percentage|`.
/// A price that is not strictly positive is refused, and so is a pair of
/// prices that cannot be written at a common number of decimals in 128 bits.
pub fn has_price_moved_by_percentage(
    initial_price: Price,
    final_price: Price,
    percentage: Fraction,
) -> (result: Result<(bool, i8, Fraction), CustomError>)
    ensures
        result == price_movement(initial_price, final_price, percentage),
        result is Ok <==> {
            &&& initial_price.value > 0
            &&& final_price.value > 0
            &&& comparable(initial_price, final_price)
        },
        result == Err::<(bool, i8, Fraction), CustomError>(CustomError::InvalidPriceValue) <==> {
            ||| initial_price.value <= 0
            ||| final_price.value <= 0
        },
        result == Err::<(bool, i8, Fraction), CustomError>(CustomError::Overflow) <==> {
            &&& initial_price.value > 0
            &&& final_price.value > 0
            &&& !comparable(initial_price, final_price)
        },
        result matches Ok((exceeded, direction, change)) ==> {
            &&& change.numerator == change_numerator(initial_price, final_price)
            &&& change.denominator == change_denominator(initial_price, final_price)
            &&& change.denominator > 0
            &&& initial_price.decimals == final_price.decimals ==> {
                &&& change.numerator == final_price.value - initial_price.value
                &&& change.denominator == initial_price.value
            }
            &&& exceeded == (magnitude_of(change.numerator as int) * percentage.denominator
                >= magnitude_of(percentage.numerator as int) * change.denominator)
            &&& direction == 1 <==> change.numerator > 0
            &&& direction == -1 <==> change.numerator < 0
            &&& direction == 0 <==> change.numerator == 0
            &&& direction == 0 ==> (exceeded <==> percentage.numerator == 0)
        },
{
    if initial_price.value <= 0 || final_price.value <= 0 {
        return Err(CustomError::InvalidPriceValue);
    }
    let base = if final_price.decimals > initial_price.decimals {
        scale_up(initial_price.value, final_price.decimals - initial_price.decimals)
    } else {
        Some(initial_price.value)
    };
    let moved = if initial_price.decimals > final_price.decimals {
        scale_up(final_price.value, initial_price.decimals - final_price.decimals)
    } else {
        Some(final_price.value)
    };
    proof {
        lemma_beside_grows(initial_price, final_price);
        lemma_beside_grows(final_price, initial_price);
    }
    match (base, moved) {
        (Some(from), Some(to)) => {
            let change = Fraction { numerator: to - from, denominator: from as u128 };
            let exceeded = change.magnitude_at_least(&percentage);
            let direction = change.sign();
            proof {
                if change.numerator == 0 {
                    // Nothing moved: only a threshold of zero is reached.
                    let threshold = magnitude_of(percentage.numerator as int);
                    assert(threshold * change.denominator >= 0 && (threshold * change.denominator
                        == 0 <==> threshold == 0)) by (nonlinear_arith)
                        requires
                            threshold >= 0,
                            change.denominator > 0,
                    ;
                    assert(0 * percentage.denominator == 0) by (nonlinear_arith);
                }
            }
            Ok((exceeded, direction, change))
        },
        _ => Err(CustomError::Overflow),
    }
}

/// Converts an amount in whole units of the stake asset to base units:
/// `1000` becomes `1_000_000_000`.
pub fn usdc_to_on_chain_amount(amount: u64) -> (on_chain: u64)
    requires
        amount * 1_000_000 <= u64::MAX,
    ensures
        on_chain == amount * 1_000_000,
        on_chain == amount * pow10(USDC_DECIMALS as nat),
{
    proof {
        assert(pow10(6) == 1_000_000) by {
            reveal_with_fuel(pow10, 7);
        }
    }
    amount * USDC_BASE_UNITS
}

} // verus!
