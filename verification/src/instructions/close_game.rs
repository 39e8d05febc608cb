//! Settlement: the winner takes both stakes.

use crate::common::constants::WIN_PRICE_THRESHOLD_PERCENT;
use crate::common::enums::{GameStatus, PricePrediction};
use crate::common::errors::CustomError;
use crate::common::events::{GameClosed, GameStatusDetails, PriceChanged};
use crate::common::ledger::{Account, Transfer};
use crate::common::price::{Fraction, Price};
use crate::common::pubkey::Pubkey;
use crate::common::utils::{
    has_price_moved_by_percentage, lemma_percent_threshold, moved_by_percent, movement_error,
    relative_change,
};
use crate::state::game_state::GameState;
use vstd::prelude::*;

verus! {

/// Who won, with which prediction, and how much they receive.
#[derive(Clone, Copy, Debug, PartialEq, Eq)]
pub struct Settlement {
    /// The participant whose prediction the move proves right.
    pub winner: Pubkey,
    /// The prediction that the move proves right.
    pub winning_prediction: PricePrediction,
    /// Both stakes together, in base units.
    pub total_payout: u64,
}

/// What a successful close hands to the host.
#[derive(Clone, Copy, Debug, PartialEq, Eq)]
pub struct CloseOutcome {
    /// Both stakes, from the escrow to the winner.
    pub payout: Transfer,
    /// The comparison of the final price with the initial one.
    pub price_changed: PriceChanged,
    /// The record of the settlement.
    pub event: GameClosed,
}

/// The initiator wins when the price moved the way they predicted.
pub open spec fn initiator_wins(initiator_prediction: PricePrediction, direction: i8) -> bool {
    ||| direction == 1 && initiator_prediction == PricePrediction::Increase
    ||| direction == -1 && initiator_prediction == PricePrediction::Decrease
}

/// The prediction that a move in `direction` proves right.
pub open spec fn winning_prediction(direction: i8) -> PricePrediction {
    if direction == 1 {
        PricePrediction::Increase
    } else {
        PricePrediction::Decrease
    }
}

/// The winner of a game whose price moved in `direction`.
pub open spec fn winner(
    initiator_prediction: PricePrediction,
    direction: i8,
    initiator: Pubkey,
    challenger: Pubkey,
) -> Pubkey {
    if initiator_wins(initiator_prediction, direction) {
        initiator
    } else {
        challenger
    }
}

/// Names the winner and the winning prediction of a game whose price moved in
/// `direction`.
pub fn determine_winner(
    initiator_prediction: PricePrediction,
    direction: i8,
    initiator: Pubkey,
    challenger: Pubkey,
) -> (outcome: (Pubkey, PricePrediction))
    ensures
        outcome.0 == winner(initiator_prediction, direction, initiator, challenger),
        outcome.1 == winning_prediction(direction),
        outcome.0 == initiator || outcome.0 == challenger,
        direction == 1 || direction == -1 ==> {
            &&& initiator_prediction == outcome.1 ==> outcome.0 == initiator
            &&& initiator_prediction != outcome.1 ==> outcome.0 == challenger
        },
{
    let initiator_won = match initiator_prediction {
        PricePrediction::Increase => direction == 1,
        PricePrediction::Decrease => direction == -1,
    };
    let winner = if initiator_won {
        initiator
    } else {
        challenger
    };
    let prediction = if direction == 1 {
        PricePrediction::Increase
    } else {
        PricePrediction::Decrease
    };
    (winner, prediction)
}

/// Both stakes together, unless that does not fit in 64 bits.
pub open spec fn spec_total_payout(entry_amount: u64) -> Result<u64, CustomError> {
    if entry_amount * 2 > u64::MAX {
        Err(CustomError::Overflow)
    } else {
        Ok((entry_amount * 2) as u64)
    }
}

/// Both stakes together, unless that does not fit in 64 bits.
#[verifier::when_used_as_spec(spec_total_payout)]
pub fn total_payout(entry_amount: u64) -> (result: Result<u64, CustomError>)
    ensures
        result == spec_total_payout(entry_amount),
        result matches Ok(payout) ==> payout == entry_amount * 2,
        result is Err <==> entry_amount * 2 > u64::MAX,
{
    match entry_amount.checked_mul(2) {
        Some(payout) => Ok(payout),
        None => Err(CustomError::Overflow),
    }
}

/// What `settle` returns.
pub open spec fn settlement(
    initiator_prediction: PricePrediction,
    direction: i8,
    initiator: Pubkey,
    challenger: Pubkey,
    entry_amount: u64,
    claimed_winner: Pubkey,
) -> Result<Settlement, CustomError> {
    if claimed_winner != winner(initiator_prediction, direction, initiator, challenger) {
        Err(CustomError::NotTheWinner)
    } else {
        match total_payout(entry_amount) {
            Err(e) => Err(e),
            Ok(payout) => Ok(
                Settlement {
                    winner: claimed_winner,
                    winning_prediction: winning_prediction(direction),
                    total_payout: payout,
                },
            ),
        }
    }
}

/// Settles a game whose price moved in `direction`: names the winner, checks
/// that the caller who claims the stakes is that winner, and computes the
/// payout.
pub fn settle(
    initiator_prediction: PricePrediction,
    direction: i8,
    initiator: Pubkey,
    challenger: Pubkey,
    entry_amount: u64,
    claimed_winner: Pubkey,
) -> (result: Result<Settlement, CustomError>)
    ensures
        result == settlement(
            initiator_prediction,
            direction,
            initiator,
            challenger,
            entry_amount,
            claimed_winner,
        ),
        result == Err::<Settlement, CustomError>(CustomError::NotTheWinner) <==> claimed_winner
            != winner(initiator_prediction, direction, initiator, challenger),
        result == Err::<Settlement, CustomError>(CustomError::Overflow) <==> (claimed_winner
            == winner(initiator_prediction, direction, initiator, challenger) && entry_amount * 2
            > u64::MAX),
        result matches Ok(s) ==> {
            &&& s.winner == claimed_winner
            &&& s.winner == winner(initiator_prediction, direction, initiator, challenger)
            &&& s.winning_prediction == winning_prediction(direction)
            &&& s.total_payout == entry_amount * 2
        },
{
    let (winner, winning_prediction) = determine_winner(
        initiator_prediction,
        direction,
        initiator,
        challenger,
    );
    if claimed_winner != winner {
        return Err(CustomError::NotTheWinner);
    }
    let payout = total_payout(entry_amount)?;
    Ok(Settlement { winner, winning_prediction, total_payout: payout })
}

/// The state of a game after `settlement` was applied at `current_time`.
pub open spec fn closed_game(
    state: GameState,
    settlement: Settlement,
    final_price: Price,
    current_time: i64,
) -> GameState {
    GameState {
        closed_at: Some(current_time),
        final_price: Some(final_price),
        winning_prediction: Some(settlement.winning_prediction),
        status: GameStatus::Complete(settlement.winning_prediction),
        ..state
    }
}

/// What a successful close hands to the host.
pub open spec fn closed_outcome(
    state: GameState,
    settlement: Settlement,
    change: Fraction,
    final_price: Price,
    current_time: i64,
) -> CloseOutcome {
    CloseOutcome {
        payout: Transfer::payout(state.escrow(), settlement.winner, settlement.total_payout),
        price_changed: PriceChanged {
            initial_price: state.initial_price,
            final_price,
            percentage_change: change,
            threshold_exceeded: true,
            timestamp: current_time,
        },
        event: GameClosed {
            game_id: state.game_id,
            status: GameStatus::Complete(settlement.winning_prediction),
            details: GameStatusDetails::Complete {
                winner: settlement.winner,
                winning_prediction: settlement.winning_prediction,
                price_movement_percentage: change,
                final_price,
                total_payout: settlement.total_payout,
            },
            timestamp: current_time,
        },
    }
}

/// The close transition: the guard, then the price, then the threshold, then
/// the settlement. The first step that fails decides the error.
pub open spec fn close_result(
    state: GameState,
    game_id: u64,
    initiator: Pubkey,
    claimed_winner: Pubkey,
    final_price: Price,
    current_time: i64,
) -> Result<(GameState, CloseOutcome), CustomError> {
    match state.close_guard(game_id, claimed_winner, initiator) {
        Err(e) => Err(e),
        Ok(()) => match movement_error(state.initial_price, final_price) {
            Some(e) => Err(e),
            None => if !moved_by_percent(
                state.initial_price,
                final_price,
                WIN_PRICE_THRESHOLD_PERCENT as int,
            ) {
                Err(CustomError::ThresholdNotReached)
            } else {
                let change = relative_change(state.initial_price, final_price);
                match settlement(
                    state.initiator_prediction,
                    change.sign(),
                    state.initiator,
                    state.challenger->0,
                    state.entry_amount,
                    claimed_winner,
                ) {
                    Err(e) => Err(e),
                    Ok(s) => Ok(
                        (
                            closed_game(state, s, final_price, current_time),
                            closed_outcome(state, s, change, final_price, current_time),
                        ),
                    ),
                }
            },
        },
    }
}

/// Closes an active game in favour of `claimed_winner`.
///
/// `final_price` is the oracle's reading at `current_time`. The call succeeds
/// when the guard passes, the price has moved by at least the win threshold
/// since creation, and `claimed_winner` is the participant whose prediction
/// the move proves right. The game becomes `Complete` and both stakes go to
/// the winner. On any error the game is left as it was.
pub fn close_game(
    game_state: &mut GameState,
    game_id: u64,
    initiator: Pubkey,
    claimed_winner: Pubkey,
    final_price: Price,
    current_time: i64,
) -> (result: Result<CloseOutcome, CustomError>)
    ensures
        match close_result(
            *old(game_state),
            game_id,
            initiator,
            claimed_winner,
            final_price,
            current_time,
        ) {
            Ok((next, closed)) => {
                &&& result == Ok::<CloseOutcome, CustomError>(closed)
                &&& *final(game_state) == next
            },
            Err(e) => {
                &&& result == Err::<CloseOutcome, CustomError>(e)
                &&& *final(game_state) == *old(game_state)
            },
        },
        result is Ok <==> {
            &&& old(game_state).close_guard(game_id, claimed_winner, initiator) is Ok
            &&& movement_error(old(game_state).initial_price, final_price) is None
            &&& moved_by_percent(
                old(game_state).initial_price,
                final_price,
                WIN_PRICE_THRESHOLD_PERCENT as int,
            )
            &&& claimed_winner == winner(
                old(game_state).initiator_prediction,
                relative_change(old(game_state).initial_price, final_price).sign(),
                old(game_state).initiator,
                old(game_state).challenger->0,
            )
            &&& old(game_state).entry_amount * 2 <= u64::MAX
        },
        result == Err::<CloseOutcome, CustomError>(CustomError::ThresholdNotReached) <==> {
            &&& old(game_state).close_guard(game_id, claimed_winner, initiator) is Ok
            &&& movement_error(old(game_state).initial_price, final_price) is None
            &&& !moved_by_percent(
                old(game_state).initial_price,
                final_price,
                WIN_PRICE_THRESHOLD_PERCENT as int,
            )
        },
        result == Err::<CloseOutcome, CustomError>(CustomError::NotTheWinner) <==> {
            &&& old(game_state).close_guard(game_id, claimed_winner, initiator) is Ok
            &&& movement_error(old(game_state).initial_price, final_price) is None
            &&& moved_by_percent(
                old(game_state).initial_price,
                final_price,
                WIN_PRICE_THRESHOLD_PERCENT as int,
            )
            &&& claimed_winner != winner(
                old(game_state).initiator_prediction,
                relative_change(old(game_state).initial_price, final_price).sign(),
                old(game_state).initiator,
                old(game_state).challenger->0,
            )
        },
        old(game_state).close_guard(game_id, claimed_winner, initiator) matches Err(e) ==> result
            == Err::<CloseOutcome, CustomError>(e),
        old(game_state).wf() ==> final(game_state).wf(),
        result matches Ok(closed) ==> {
            &&& old(game_state).status == GameStatus::Active ==> final(game_state).escrowed()
                == old(game_state).escrowed() + closed.payout.inflow(old(game_state).escrow())
            &&& final(game_state).escrowed() == 0
            &&& closed.payout.amount == 2 * old(game_state).entry_amount
            &&& closed.payout.from == old(game_state).escrow()
            &&& closed.payout.to == Account::Participant(claimed_winner)
            &&& final(game_state).status is Complete
            &&& final(game_state).closed_at == Some(current_time)
            &&& final(game_state).final_price == Some(final_price)
        },
{
    game_state.validate_close(game_id, claimed_winner, initiator)?;
    proof {
        if movement_error(game_state.initial_price, final_price) is None {
            lemma_percent_threshold(
                game_state.initial_price,
                final_price,
                WIN_PRICE_THRESHOLD_PERCENT,
            );
        }
    }
    let (threshold_exceeded, direction, change) = has_price_moved_by_percentage(
        game_state.initial_price,
        final_price,
        Fraction::percent(WIN_PRICE_THRESHOLD_PERCENT),
    )?;
    if !threshold_exceeded {
        return Err(CustomError::ThresholdNotReached);
    }
    let challenger = game_state.challenger.unwrap();
    let settlement = settle(
        game_state.initiator_prediction,
        direction,
        game_state.initiator,
        challenger,
        game_state.entry_amount,
        claimed_winner,
    )?;
    let closed = CloseOutcome {
        payout: Transfer::payout(game_state.escrow(), settlement.winner, settlement.total_payout),
        price_changed: PriceChanged {
            initial_price: game_state.initial_price,
            final_price,
            percentage_change: change,
            threshold_exceeded,
            timestamp: current_time,
        },
        event: GameClosed {
            game_id: game_state.game_id,
            status: GameStatus::Complete(settlement.winning_prediction),
            details: GameStatusDetails::Complete {
                winner: settlement.winner,
                winning_prediction: settlement.winning_prediction,
                price_movement_percentage: change,
                final_price,
                total_payout: settlement.total_payout,
            },
            timestamp: current_time,
        },
    };
    game_state.closed_at = Some(current_time);
    game_state.final_price = Some(final_price);
    game_state.winning_prediction = Some(settlement.winning_prediction);
    game_state.status = GameStatus::Complete(settlement.winning_prediction);
    Ok(closed)
}

} // verus!
