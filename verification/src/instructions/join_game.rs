//! Joining: a challenger takes the opposite bet and deposits the second
//! stake.

use crate::common::constants::MAX_JOIN_PRICE_MOVEMENT_PERCENT;
use crate::common::enums::GameStatus;
use crate::common::errors::CustomError;
use crate::common::events::{GameJoined, PriceChanged};
use crate::common::ledger::{Account, Transfer};
use crate::common::price::{Fraction, Price};
use crate::common::pubkey::Pubkey;
use crate::common::utils::{
    has_price_moved_by_percentage, lemma_percent_threshold, moved_by_percent, movement_error,
    relative_change,
};
use crate::state::game_state::GameState;
use vstd::prelude::*;

verus! {

/// What a successful join hands to the host.
#[derive(Clone, Copy, Debug, PartialEq, Eq)]
pub struct JoinOutcome {
    /// The challenger's stake, from the challenger to the escrow.
    pub deposit: Transfer,
    /// The comparison of the current price with the initial one.
    pub price_changed: PriceChanged,
    /// The record of the join.
    pub event: GameJoined,
}

/// The state of a game after `challenger` joined at `current_time`.
pub open spec fn joined_game(state: GameState, challenger: Pubkey, current_time: i64)
    -> GameState {
    GameState {
        challenger: Some(challenger),
        started_at: Some(current_time),
        status: GameStatus::Active,
        ..state
    }
}

/// What a successful join hands to the host.
pub open spec fn joined_outcome(
    state: GameState,
    challenger: Pubkey,
    change: Fraction,
    current_price: Price,
    current_time: i64,
) -> JoinOutcome {
    JoinOutcome {
        deposit: Transfer::deposit(challenger, state.escrow(), state.entry_amount),
        price_changed: PriceChanged {
            initial_price: state.initial_price,
            final_price: current_price,
            percentage_change: change,
            threshold_exceeded: false,
            timestamp: current_time,
        },
        event: GameJoined {
            game_id: state.game_id,
            status: GameStatus::Active,
            challenger,
            challenger_prediction: state.get_challenger_prediction(),
            timestamp: current_time,
        },
    }
}

/// The join transition: the guard, then the price, then the volatility
/// limit. The first step that fails decides the error.
pub open spec fn join_result(
    state: GameState,
    game_id: u64,
    initiator: Pubkey,
    challenger: Pubkey,
    current_price: Price,
    current_time: i64,
) -> Result<(GameState, JoinOutcome), CustomError> {
    match state.join_guard(game_id, challenger, initiator) {
        Err(e) => Err(e),
        Ok(()) => match movement_error(state.initial_price, current_price) {
            Some(e) => Err(e),
            None => if moved_by_percent(
                state.initial_price,
                current_price,
                MAX_JOIN_PRICE_MOVEMENT_PERCENT as int,
            ) {
                Err(CustomError::ExcessivePriceVolatility)
            } else {
                Ok(
                    (
                        joined_game(state, challenger, current_time),
                        joined_outcome(
                            state,
                            challenger,
                            relative_change(state.initial_price, current_price),
                            current_price,
                            current_time,
                        ),
                    ),
                )
            },
        },
    }
}

/// Lets `challenger` join a pending game.
///
/// `current_price` is the oracle's reading at `current_time`. The call
/// succeeds when the guard passes and the price has moved by less than the
/// join limit since creation. The game becomes `Active`, the challenger holds
/// the prediction opposite to the initiator's, and the returned deposit moves
/// the second stake into the escrow. On any error the game is left as it was.
pub fn join_game(
    game_state: &mut GameState,
    game_id: u64,
    initiator: Pubkey,
    challenger: Pubkey,
    current_price: Price,
    current_time: i64,
) -> (result: Result<JoinOutcome, CustomError>)
    ensures
        match join_result(
            *old(game_state),
            game_id,
            initiator,
            challenger,
            current_price,
            current_time,
        ) {
            Ok((next, joined)) => {
                &&& result == Ok::<JoinOutcome, CustomError>(joined)
                &&& *final(game_state) == next
            },
            Err(e) => {
                &&& result == Err::<JoinOutcome, CustomError>(e)
                &&& *final(game_state) == *old(game_state)
            },
        },
        result is Ok <==> {
            &&& old(game_state).join_guard(game_id, challenger, initiator) is Ok
            &&& movement_error(old(game_state).initial_price, current_price) is None
            &&& !moved_by_percent(
                old(game_state).initial_price,
                current_price,
                MAX_JOIN_PRICE_MOVEMENT_PERCENT as int,
            )
        },
        result == Err::<JoinOutcome, CustomError>(CustomError::ExcessivePriceVolatility) <==> {
            &&& old(game_state).join_guard(game_id, challenger, initiator) is Ok
            &&& movement_error(old(game_state).initial_price, current_price) is None
            &&& moved_by_percent(
                old(game_state).initial_price,
                current_price,
                MAX_JOIN_PRICE_MOVEMENT_PERCENT as int,
            )
        },
        old(game_state).join_guard(game_id, challenger, initiator) matches Err(e) ==> result
            == Err::<JoinOutcome, CustomError>(e),
        old(game_state).wf() ==> final(game_state).wf(),
        result matches Ok(joined) ==> {
            &&& old(game_state).status == GameStatus::Pending ==> final(game_state).escrowed()
                == old(game_state).escrowed() + joined.deposit.inflow(old(game_state).escrow())
            &&& final(game_state).escrowed() == 2 * old(game_state).entry_amount
            &&& joined.deposit.amount == old(game_state).entry_amount
            &&& joined.deposit.from == Account::Participant(challenger)
            &&& joined.deposit.to == old(game_state).escrow()
            &&& final(game_state).status == GameStatus::Active
            &&& final(game_state).challenger == Some(challenger)
            &&& final(game_state).started_at == Some(current_time)
            &&& joined.event.challenger_prediction != old(game_state).initiator_prediction
        },
{
    game_state.validate_join(game_id, challenger, initiator)?;
    proof {
        if movement_error(game_state.initial_price, current_price) is None {
            lemma_percent_threshold(
                game_state.initial_price,
                current_price,
                MAX_JOIN_PRICE_MOVEMENT_PERCENT,
            );
        }
    }
    let (threshold_exceeded, _direction, change) = has_price_moved_by_percentage(
        game_state.initial_price,
        current_price,
        Fraction::percent(MAX_JOIN_PRICE_MOVEMENT_PERCENT),
    )?;
    if threshold_exceeded {
        return Err(CustomError::ExcessivePriceVolatility);
    }
    let joined = JoinOutcome {
        deposit: Transfer::deposit(challenger, game_state.escrow(), game_state.entry_amount),
        price_changed: PriceChanged {
            initial_price: game_state.initial_price,
            final_price: current_price,
            percentage_change: change,
            threshold_exceeded,
            timestamp: current_time,
        },
        event: GameJoined {
            game_id: game_state.game_id,
            status: GameStatus::Active,
            challenger,
            challenger_prediction: game_state.get_challenger_prediction(),
            timestamp: current_time,
        },
    };
    game_state.challenger = Some(challenger);
    game_state.started_at = Some(current_time);
    game_state.status = GameStatus::Active;
    Ok(joined)
}

} // verus!
