//! The timeout escape: both stakes go back to their owners.

use crate::common::constants::GAME_TIMEOUT_SECONDS;
use crate::common::enums::GameStatus;
use crate::common::errors::CustomError;
use crate::common::events::{GameClosed, GameStatusDetails};
use crate::common::ledger::{Account, Transfer};
use crate::common::pubkey::Pubkey;
use crate::state::game_state::GameState;
use vstd::prelude::*;

verus! {

/// What a successful draw hands to the host.
#[derive(Clone, Copy, Debug, PartialEq, Eq)]
pub struct DrawOutcome {
    /// The initiator's stake, from the escrow back to the initiator.
    pub initiator_refund: Transfer,
    /// The challenger's stake, from the escrow back to the challenger.
    pub challenger_refund: Transfer,
    /// The record of the draw.
    pub event: GameClosed,
}

/// The state of a game after it was drawn at `current_time`.
pub open spec fn drawn_game(state: GameState, current_time: i64) -> GameState {
    GameState { closed_at: Some(current_time), status: GameStatus::Draw, ..state }
}

/// What a successful draw hands to the host.
pub open spec fn drawn_outcome(state: GameState, current_time: i64) -> DrawOutcome {
    DrawOutcome {
        initiator_refund: Transfer::payout(state.escrow(), state.initiator, state.entry_amount),
        challenger_refund: Transfer::payout(
            state.escrow(),
            state.challenger->0,
            state.entry_amount,
        ),
        event: GameClosed {
            game_id: state.game_id,
            status: GameStatus::Draw,
            details: GameStatusDetails::Empty,
            timestamp: current_time,
        },
    }
}

/// The draw transition: the guard, then the deadline. The first step that
/// fails decides the error.
pub open spec fn draw_result(
    state: GameState,
    game_id: u64,
    initiator: Pubkey,
    player: Pubkey,
    current_time: i64,
) -> Result<(GameState, DrawOutcome), CustomError> {
    match state.close_guard(game_id, player, initiator) {
        Err(e) => Err(e),
        Ok(()) => match GameState::deadline_passed(state.started_at->0, current_time) {
            Err(e) => Err(e),
            Ok(passed) => if !passed {
                Err(CustomError::GameTimeoutNotReached)
            } else {
                Ok((drawn_game(state, current_time), drawn_outcome(state, current_time)))
            },
        },
    }
}

/// Draws an active game whose timeout has passed.
///
/// The call succeeds when the guard passes and `current_time` lies strictly
/// after the start of the game plus the timeout. No price is involved. The
/// game becomes `Draw` and each participant gets their own stake back. On any
/// error the game is left as it was.
pub fn draw_game(
    game_state: &mut GameState,
    game_id: u64,
    initiator: Pubkey,
    player: Pubkey,
    current_time: i64,
) -> (result: Result<DrawOutcome, CustomError>)
    requires
        old(game_state).is_active() ==> old(game_state).started_at is Some,
    ensures
        match draw_result(*old(game_state), game_id, initiator, player, current_time) {
            Ok((next, drawn)) => {
                &&& result == Ok::<DrawOutcome, CustomError>(drawn)
                &&& *final(game_state) == next
            },
            Err(e) => {
                &&& result == Err::<DrawOutcome, CustomError>(e)
                &&& *final(game_state) == *old(game_state)
            },
        },
        result is Ok <==> {
            &&& old(game_state).close_guard(game_id, player, initiator) is Ok
            &&& current_time > old(game_state).started_at->0 + GAME_TIMEOUT_SECONDS
            &&& old(game_state).started_at->0 + GAME_TIMEOUT_SECONDS <= i64::MAX
        },
        result == Err::<DrawOutcome, CustomError>(CustomError::GameTimeoutNotReached) <==> {
            &&& old(game_state).close_guard(game_id, player, initiator) is Ok
            &&& current_time <= old(game_state).started_at->0 + GAME_TIMEOUT_SECONDS
            &&& old(game_state).started_at->0 + GAME_TIMEOUT_SECONDS <= i64::MAX
        },
        result == Err::<DrawOutcome, CustomError>(CustomError::Overflow) <==> {
            &&& old(game_state).close_guard(game_id, player, initiator) is Ok
            &&& old(game_state).started_at->0 + GAME_TIMEOUT_SECONDS > i64::MAX
        },
        old(game_state).close_guard(game_id, player, initiator) matches Err(e) ==> result == Err::<
            DrawOutcome,
            CustomError,
        >(e),
        old(game_state).wf() ==> final(game_state).wf(),
        result matches Ok(drawn) ==> {
            &&& old(game_state).status == GameStatus::Active ==> final(game_state).escrowed()
                == old(game_state).escrowed() + drawn.initiator_refund.inflow(
                old(game_state).escrow(),
            ) + drawn.challenger_refund.inflow(old(game_state).escrow())
            &&& final(game_state).escrowed() == 0
            &&& drawn.initiator_refund.amount == old(game_state).entry_amount
            &&& drawn.initiator_refund.from == old(game_state).escrow()
            &&& drawn.initiator_refund.to == Account::Participant(old(game_state).initiator)
            &&& drawn.challenger_refund.amount == old(game_state).entry_amount
            &&& drawn.challenger_refund.from == old(game_state).escrow()
            &&& drawn.challenger_refund.to == Account::Participant(old(game_state).challenger->0)
            &&& final(game_state).status == GameStatus::Draw
            &&& final(game_state).closed_at == Some(current_time)
        },
{
    game_state.validate_close(game_id, player, initiator)?;
    if !game_state.is_timed_out(current_time)? {
        return Err(CustomError::GameTimeoutNotReached);
    }
    let escrow = game_state.escrow();
    let drawn = DrawOutcome {
        initiator_refund: Transfer::payout(escrow, game_state.initiator, game_state.entry_amount),
        challenger_refund: Transfer::payout(
            escrow,
            game_state.challenger.unwrap(),
            game_state.entry_amount,
        ),
        event: GameClosed {
            game_id: game_state.game_id,
            status: GameStatus::Draw,
            details: GameStatusDetails::Empty,
            timestamp: current_time,
        },
    };
    game_state.closed_at = Some(current_time);
    game_state.status = GameStatus::Draw;
    Ok(drawn)
}

} // verus!
