//! Cancellation: the initiator withdraws before anyone joined.

use crate::common::enums::GameStatus;
use crate::common::errors::CustomError;
use crate::common::events::{GameClosed, GameStatusDetails};
use crate::common::ledger::{Account, Transfer};
use crate::common::pubkey::Pubkey;
use crate::state::game_state::GameState;
use vstd::prelude::*;

verus! {

/// What a successful cancellation hands to the host.
#[derive(Clone, Copy, Debug, PartialEq, Eq)]
pub struct CancelOutcome {
    /// The initiator's stake, from the escrow back to the initiator.
    pub refund: Transfer,
    /// The record of the cancellation.
    pub event: GameClosed,
}

/// The state of a game after it was cancelled at `current_time`.
pub open spec fn cancelled_game(state: GameState, current_time: i64) -> GameState {
    GameState { closed_at: Some(current_time), status: GameStatus::Cancelled, ..state }
}

/// What a successful cancellation hands to the host.
pub open spec fn cancelled_outcome(state: GameState, current_time: i64) -> CancelOutcome {
    CancelOutcome {
        refund: Transfer::payout(state.escrow(), state.initiator, state.entry_amount),
        event: GameClosed {
            game_id: state.game_id,
            status: GameStatus::Cancelled,
            details: GameStatusDetails::Empty,
            timestamp: current_time,
        },
    }
}

/// The cancel transition: it succeeds exactly when the withdraw guard passes.
pub open spec fn cancel_result(state: GameState, game_id: u64, initiator: Pubkey, current_time: i64)
    -> Result<(GameState, CancelOutcome), CustomError> {
    match state.withdraw_guard(game_id, initiator) {
        Err(e) => Err(e),
        Ok(()) => Ok((cancelled_game(state, current_time), cancelled_outcome(state, current_time))),
    }
}

/// Cancels a pending game on behalf of its initiator.
///
/// The call succeeds when the withdraw guard passes. The game becomes
/// `Cancelled` and the initiator gets their stake back. On any error the game
/// is left as it was.
pub fn cancel_game(
    game_state: &mut GameState,
    game_id: u64,
    initiator: Pubkey,
    current_time: i64,
) -> (result: Result<CancelOutcome, CustomError>)
    ensures
        match cancel_result(*old(game_state), game_id, initiator, current_time) {
            Ok((next, cancelled)) => {
                &&& result == Ok::<CancelOutcome, CustomError>(cancelled)
                &&& *final(game_state) == next
            },
            Err(e) => {
                &&& result == Err::<CancelOutcome, CustomError>(e)
                &&& *final(game_state) == *old(game_state)
            },
        },
        result is Ok <==> old(game_state).withdraw_guard(game_id, initiator) is Ok,
        old(game_state).withdraw_guard(game_id, initiator) matches Err(e) ==> result == Err::<
            CancelOutcome,
            CustomError,
        >(e),
        old(game_state).wf() ==> final(game_state).wf(),
        result matches Ok(cancelled) ==> {
            &&& old(game_state).status == GameStatus::Pending ==> final(game_state).escrowed()
                == old(game_state).escrowed() + cancelled.refund.inflow(old(game_state).escrow())
            &&& final(game_state).escrowed() == 0
            &&& cancelled.refund.amount == old(game_state).entry_amount
            &&& cancelled.refund.from == old(game_state).escrow()
            &&& cancelled.refund.to == Account::Participant(old(game_state).initiator)
            &&& final(game_state).status == GameStatus::Cancelled
            &&& final(game_state).closed_at == Some(current_time)
        },
{
    game_state.validate_withdraw(game_id, initiator)?;
    let cancelled = CancelOutcome {
        refund: Transfer::payout(
            game_state.escrow(),
            game_state.initiator,
            game_state.entry_amount,
        ),
        event: GameClosed {
            game_id: game_state.game_id,
            status: GameStatus::Cancelled,
            details: GameStatusDetails::Empty,
            timestamp: current_time,
        },
    };
    game_state.closed_at = Some(current_time);
    game_state.status = GameStatus::Cancelled;
    Ok(cancelled)
}

} // verus!
