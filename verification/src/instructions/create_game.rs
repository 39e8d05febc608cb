//! Creation: the initiator bets at a valid reading and deposits the first
//! stake.

use crate::common::constants::ENTRY_AMOUNT_USDC;
use crate::common::enums::{GameStatus, PricePrediction};
use crate::common::errors::CustomError;
use crate::common::events::GameCreated;
use crate::common::ledger::{Account, Transfer};
use crate::common::price::Price;
use crate::common::pubkey::Pubkey;
use crate::common::utils::usdc_to_on_chain_amount;
use crate::state::game_state::GameState;
use vstd::prelude::*;

verus! {

/// What a creation hands to the host.
#[derive(Clone, Copy, Debug, PartialEq, Eq)]
pub struct CreateOutcome {
    /// The new game, to be stored under its initiator and id.
    pub game_state: GameState,
    /// The initiator's stake, from the initiator to the escrow.
    pub deposit: Transfer,
    /// The record of the creation.
    pub event: GameCreated,
}

/// The stake of every game, in base units.
pub open spec fn entry_amount() -> u64 {
    1_000_000_000
}

/// A game as it stands right after creation.
pub open spec fn created_game(
    game_id: u64,
    initiator: Pubkey,
    prediction: PricePrediction,
    initial_price: Price,
    current_time: i64,
    bump: u8,
) -> GameState {
    GameState {
        game_id,
        initiator,
        initiator_prediction: prediction,
        challenger: None,
        winning_prediction: None,
        entry_amount: entry_amount(),
        initial_price,
        final_price: None,
        created_at: current_time,
        started_at: None,
        closed_at: None,
        status: GameStatus::Pending,
        bump,
    }
}

/// What a creation hands to the host.
pub open spec fn created_outcome(
    game_id: u64,
    initiator: Pubkey,
    prediction: PricePrediction,
    initial_price: Price,
    current_time: i64,
    bump: u8,
) -> CreateOutcome {
    let game_state = created_game(
        game_id,
        initiator,
        prediction,
        initial_price,
        current_time,
        bump,
    );
    CreateOutcome {
        game_state,
        deposit: Transfer::deposit(initiator, game_state.escrow(), entry_amount()),
        event: GameCreated {
            game_id,
            status: GameStatus::Pending,
            initiator,
            prediction,
            initial_price,
            entry_amount: ENTRY_AMOUNT_USDC,
            timestamp: current_time,
        },
    }
}

/// The creation: it is refused when the oracle's reading is not strictly
/// positive, and otherwise yields the new game with its deposit and record.
pub open spec fn create_result(
    game_id: u64,
    initiator: Pubkey,
    prediction: PricePrediction,
    initial_price: Price,
    current_time: i64,
    bump: u8,
) -> Result<CreateOutcome, CustomError> {
    if initial_price.value <= 0 {
        Err(CustomError::InvalidPriceValue)
    } else {
        Ok(created_outcome(game_id, initiator, prediction, initial_price, current_time, bump))
    }
}

/// Creates a game.
///
/// `initial_price` is the oracle's reading at `current_time`. A reading that
/// is not strictly positive is refused with `InvalidPriceValue`: no game
/// comes to be and no stake moves. Otherwise the new game is `Pending`, holds
/// the initiator's prediction and the price, and its escrow is owed one
/// stake, which the returned deposit moves in.
pub fn create_game(
    game_id: u64,
    initiator: Pubkey,
    prediction: PricePrediction,
    initial_price: Price,
    current_time: i64,
    bump: u8,
) -> (result: Result<CreateOutcome, CustomError>)
    ensures
        result == create_result(
            game_id,
            initiator,
            prediction,
            initial_price,
            current_time,
            bump,
        ),
        result is Ok <==> initial_price.value > 0,
        result is Err ==> result == Err::<CreateOutcome, CustomError>(
            CustomError::InvalidPriceValue,
        ),
        result matches Ok(created) ==> {
            &&& created == created_outcome(
                game_id,
                initiator,
                prediction,
                initial_price,
                current_time,
                bump,
            )
            &&& created.game_state.wf()
            &&& created.game_state.status == GameStatus::Pending
            &&& created.game_state.initial_price == initial_price
            &&& created.game_state.entry_amount == ENTRY_AMOUNT_USDC * 1_000_000
            &&& created.game_state.escrowed() == created.deposit.inflow(
                created.game_state.escrow(),
            )
            &&& created.deposit.from == Account::Participant(initiator)
            &&& created.deposit.to == created.game_state.escrow()
            &&& created.deposit.amount == created.game_state.entry_amount
        },
{
    if !initial_price.is_positive() {
        return Err(CustomError::InvalidPriceValue);
    }
    let game_state = GameState {
        game_id,
        initiator,
        initiator_prediction: prediction,
        challenger: None,
        winning_prediction: None,
        entry_amount: usdc_to_on_chain_amount(ENTRY_AMOUNT_USDC),
        initial_price,
        final_price: None,
        created_at: current_time,
        started_at: None,
        closed_at: None,
        status: GameStatus::Pending,
        bump,
    };
    Ok(
        CreateOutcome {
            game_state,
            deposit: Transfer::deposit(initiator, game_state.escrow(), game_state.entry_amount),
            event: GameCreated {
                game_id,
                status: GameStatus::Pending,
                initiator,
                prediction,
                initial_price,
                entry_amount: ENTRY_AMOUNT_USDC,
                timestamp: current_time,
            },
        },
    )
}

} // verus!
