//! What holds of every game, whatever the callers, the oracle and the clock
//! supply.
//!
//! The transitions are stated as functions from a state and the inputs of a
//! call to the next state and its outcome (`join_result`, `close_result`,
//! `draw_result`, `cancel_result`, `create_result`), and each executable
//! transition is proved to compute exactly that function. The theorems below
//! are therefore statements about every call the library can ever answer.

use crate::common::constants::{
    GAME_TIMEOUT_SECONDS, MAX_JOIN_PRICE_MOVEMENT_PERCENT, WIN_PRICE_THRESHOLD_PERCENT,
};
use crate::common::enums::{GameStatus, PricePrediction};
use crate::common::errors::CustomError;
use crate::common::ledger::{Account, Transfer};
use crate::common::price::{lemma_pow10_adds, lemma_pow10_monotonic, pow10, Fraction, Price};
use crate::common::pubkey::Pubkey;
use crate::common::utils::{
    change_denominator, change_numerator, comparable, moved_by_percent, movement_error,
    price_movement, relative_change,
};
use crate::common::wide::magnitude_of;
use crate::instructions::cancel_game::{cancel_result, CancelOutcome};
use crate::instructions::close_game::{close_result, winner, CloseOutcome};
use crate::instructions::create_game::{create_result, entry_amount};
use crate::instructions::draw_game::{draw_result, DrawOutcome};
use crate::instructions::join_game::{join_result, JoinOutcome};
use crate::state::game_state::GameState;
use vstd::prelude::*;

verus! {

/// The difference `candidate - initial` of two prices, each read as
/// `value / 10^decimals`, after both were multiplied by
/// `10^(initial.decimals + candidate.decimals)`.
pub open spec fn price_difference(initial: Price, candidate: Price) -> int {
    candidate.value * pow10(initial.decimals as nat) - initial.value * pow10(
        candidate.decimals as nat,
    )
}

/// The initial price, read as `value / 10^decimals`, after it was multiplied
/// by `10^(initial.decimals + candidate.decimals)`.
pub open spec fn price_base(initial: Price, candidate: Price) -> int {
    initial.value * pow10(candidate.decimals as nat)
}

/// The change that the evaluator reports is the change of the prices
/// themselves: its numerator and denominator are `price_difference` and
/// `price_base` divided by one and the same positive power of ten.
pub proof fn theorem_change_is_relative_difference(initial: Price, candidate: Price)
    ensures
        ({
            let common = if initial.decimals <= candidate.decimals {
                pow10(initial.decimals as nat)
            } else {
                pow10(candidate.decimals as nat)
            };
            &&& common > 0
            &&& price_difference(initial, candidate) == change_numerator(initial, candidate)
                * common
            &&& price_base(initial, candidate) == change_denominator(initial, candidate) * common
        }),
{
    let di = initial.decimals as nat;
    let dc = candidate.decimals as nat;
    let i = initial.value as int;
    let c = candidate.value as int;
    if di >= dc {
        let k = (di - dc) as nat;
        let up = pow10(k) as int;
        let common = pow10(dc) as int;
        lemma_pow10_monotonic(0, dc);
        lemma_pow10_adds(k, dc);
        assert(pow10(di) == up * common);
        if k == 0 {
            assert(up == 1);
            assert(c * pow10(di) == c * common);
        } else {
            assert(c * pow10(di) == (c * up) * common) by (nonlinear_arith)
                requires
                    pow10(di) == up * common,
            ;
        }
        assert(candidate.beside(initial) * common == c * pow10(di));
        assert((candidate.beside(initial) - i) * common == candidate.beside(initial) * common - i
            * common) by (nonlinear_arith);
    } else {
        let k = (dc - di) as nat;
        let up = pow10(k) as int;
        let common = pow10(di) as int;
        lemma_pow10_monotonic(0, di);
        lemma_pow10_adds(k, di);
        assert(pow10(dc) == up * common);
        assert(i * pow10(dc) == (i * up) * common) by (nonlinear_arith)
            requires
                pow10(dc) == up * common,
        ;
        assert((c - i * up) * common == c * common - (i * up) * common) by (nonlinear_arith);
    }
}

/// The evaluator's three answers, said of the prices themselves. For two
/// positive prices `I = initial.value / 10^initial.decimals` and
/// `C = candidate.value / 10^candidate.decimals` that can be compared, and a
/// threshold `T = numerator / denominator`:
/// the threshold is exceeded exactly when `|C - I| / I >= |T|`, the direction
/// is the sign of `C - I`, and the direction is zero exactly when `C == I`,
/// in which case the threshold is exceeded only if it is zero.
pub proof fn theorem_movement_classifies_price_ratio(
    initial: Price,
    candidate: Price,
    threshold: Fraction,
)
    requires
        initial.value > 0,
        candidate.value > 0,
        comparable(initial, candidate),
    ensures
        ({
            let (exceeded, direction, change) = price_movement(initial, candidate, threshold)->Ok_0;
            let difference = price_difference(initial, candidate);
            let base = price_base(initial, candidate);
            &&& price_movement(initial, candidate, threshold) is Ok
            &&& base > 0
            &&& exceeded <==> magnitude_of(difference) * threshold.denominator >= magnitude_of(
                threshold.numerator as int,
            ) * base
            &&& direction == 1 <==> difference > 0
            &&& direction == -1 <==> difference < 0
            &&& direction == 0 <==> difference == 0
            &&& direction == 1 || direction == -1 || direction == 0
            &&& direction == 0 ==> (exceeded <==> threshold.numerator == 0)
            &&& change == relative_change(initial, candidate)
        }),
{
    theorem_change_is_relative_difference(initial, candidate);
    crate::common::utils::lemma_beside_grows(initial, candidate);
    crate::common::utils::lemma_beside_grows(candidate, initial);
    let common = if initial.decimals <= candidate.decimals {
        pow10(initial.decimals as nat) as int
    } else {
        pow10(candidate.decimals as nat) as int
    };
    let n = change_numerator(initial, candidate);
    let d = change_denominator(initial, candidate);
    let td = threshold.denominator as int;
    let tn = magnitude_of(threshold.numerator as int);
    let difference = price_difference(initial, candidate);
    let base = price_base(initial, candidate);
    assert(magnitude_of(difference) == magnitude_of(n) * common) by (nonlinear_arith)
        requires
            difference == n * common,
            common > 0,
    ;
    assert(base > 0) by (nonlinear_arith)
        requires
            base == d * common,
            common > 0,
            d > 0,
    ;
    assert((difference > 0 <==> n > 0) && (difference < 0 <==> n < 0) && (difference == 0 <==> n
        == 0)) by (nonlinear_arith)
        requires
            difference == n * common,
            common > 0,
    ;
    let a = magnitude_of(n);
    assert((a * td >= tn * d) <==> ((a * common) * td >= tn * (d * common))) by (nonlinear_arith)
        requires
            common > 0,
    ;
    if n == 0 {
        assert(tn * d >= 0 && (tn * d == 0 <==> tn == 0)) by (nonlinear_arith)
            requires
                tn >= 0,
                d > 0,
        ;
        assert(a * td == 0) by (nonlinear_arith)
            requires
                a == 0,
        ;
    }
}

/// The edges of the lifecycle: a pending game becomes active or cancelled,
/// an active game becomes complete or drawn, and nothing else moves.
pub open spec fn allowed_step(before: GameStatus, after: GameStatus) -> bool {
    ||| before == GameStatus::Pending && after == GameStatus::Active
    ||| before == GameStatus::Pending && after == GameStatus::Cancelled
    ||| before == GameStatus::Active && after is Complete
    ||| before == GameStatus::Active && after == GameStatus::Draw
}

/// What no transition ever changes: the key of the game, the bets, the stake
/// and the initial price; and a challenger, once set, stays.
pub open spec fn same_game(before: GameState, after: GameState) -> bool {
    &&& after.game_id == before.game_id
    &&& after.initiator == before.initiator
    &&& after.initiator_prediction == before.initiator_prediction
    &&& after.entry_amount == before.entry_amount
    &&& after.initial_price == before.initial_price
    &&& after.created_at == before.created_at
    &&& after.bump == before.bump
    &&& before.challenger is Some ==> after.challenger == before.challenger
    &&& before.started_at is Some ==> after.started_at == before.started_at
}

/// The errors that tell a caller that the game has ended.
pub open spec fn is_terminal_state_error(e: CustomError) -> bool {
    e == CustomError::GameAlreadyEnded || e == CustomError::GameNotActive
}

/// A game comes to be exactly when the reading it is created at is strictly
/// positive. The new game is then well formed and pending, and its escrow is
/// owed exactly the stake that the returned deposit moves in. Any other
/// reading is refused as invalid: there is no game and no deposit.
pub proof fn theorem_create_funds_escrow(
    game_id: u64,
    initiator: Pubkey,
    prediction: PricePrediction,
    initial_price: Price,
    current_time: i64,
    bump: u8,
)
    ensures
        match create_result(game_id, initiator, prediction, initial_price, current_time, bump) {
            Ok(created) => {
                &&& initial_price.value > 0
                &&& created.game_state.wf()
                &&& created.game_state.status == GameStatus::Pending
                &&& created.game_state.initial_price == initial_price
                &&& created.game_state.escrowed() == created.game_state.entry_amount
                &&& created.deposit.inflow(created.game_state.escrow())
                    == created.game_state.escrowed()
                &&& created.deposit.inflow(Account::Participant(initiator))
                    == -created.game_state.escrowed()
            },
            Err(e) => initial_price.value <= 0 && e == CustomError::InvalidPriceValue,
        },
{
}

/// The reading a game was created at stays with it and stays valid: in a
/// well-formed game the initial price is strictly positive, so no later call
/// is ever refused because of it.
pub proof fn theorem_initial_price_is_valid(state: GameState, candidate: Price)
    requires
        state.wf(),
    ensures
        state.initial_price.value > 0,
        movement_error(state.initial_price, candidate) == Some(CustomError::InvalidPriceValue)
            <==> candidate.value <= 0,
{
}

/// Two strictly positive prices with the same number of decimals can
/// always be compared: the evaluator never answers `Overflow` or
/// `InvalidPriceValue` for them.
pub proof fn theorem_same_scale_prices_compare(initial: Price, candidate: Price)
    requires
        initial.value > 0,
        candidate.value > 0,
        initial.decimals == candidate.decimals,
    ensures
        comparable(initial, candidate),
        movement_error(initial, candidate) is None,
        change_numerator(initial, candidate) == candidate.value - initial.value,
        change_denominator(initial, candidate) == initial.value,
{
}

/// A join is owed. On a well-formed pending game, a caller other than the
/// initiator who names the game and its initiator correctly joins whenever
/// the current price is strictly positive, has the same number of decimals
/// as the initial one or can otherwise be brought to a common scale in 128
/// bits, and has moved by less than the join limit. Exactly one transfer is
/// handed out, the stake from the caller to the escrow, and the escrow then
/// holds twice the stake.
pub proof fn theorem_join_succeeds_within_limit(
    state: GameState,
    caller: Pubkey,
    current_price: Price,
    current_time: i64,
)
    requires
        state.wf(),
        state.status == GameStatus::Pending,
        caller != state.initiator,
        current_price.value > 0,
        current_price.decimals == state.initial_price.decimals || comparable(
            state.initial_price,
            current_price,
        ),
        !moved_by_percent(
            state.initial_price,
            current_price,
            MAX_JOIN_PRICE_MOVEMENT_PERCENT as int,
        ),
    ensures
        ({
            let result = join_result(
                state,
                state.game_id,
                state.initiator,
                caller,
                current_price,
                current_time,
            );
            &&& result matches Ok((next, joined))
            &&& joined.deposit == Transfer::deposit(caller, state.escrow(), state.entry_amount)
            &&& state.escrowed() == state.entry_amount
            &&& next.escrowed() == 2 * state.entry_amount
            &&& next.status == GameStatus::Active
            &&& next.challenger == Some(caller)
            &&& next.wf()
        }),
{
}

/// A close is owed. On a well-formed active game whose two stakes fit in 64
/// bits, the participant whose prediction the move proves right closes the
/// game whenever the final price is strictly positive, has the same number
/// of decimals as the initial one or can otherwise be brought to a common
/// scale in 128 bits, and has moved by at least the win threshold. Exactly one
/// transfer is handed out, twice the stake from the escrow to the winner,
/// and the escrow is then empty.
pub proof fn theorem_close_succeeds_at_threshold(
    state: GameState,
    claimed_winner: Pubkey,
    final_price: Price,
    current_time: i64,
)
    requires
        state.wf(),
        state.status == GameStatus::Active,
        state.entry_amount * 2 <= u64::MAX,
        final_price.value > 0,
        final_price.decimals == state.initial_price.decimals || comparable(
            state.initial_price,
            final_price,
        ),
        moved_by_percent(state.initial_price, final_price, WIN_PRICE_THRESHOLD_PERCENT as int),
        claimed_winner == winner(
            state.initiator_prediction,
            relative_change(state.initial_price, final_price).sign(),
            state.initiator,
            state.challenger->0,
        ),
    ensures
        ({
            let result = close_result(
                state,
                state.game_id,
                state.initiator,
                claimed_winner,
                final_price,
                current_time,
            );
            &&& result matches Ok((next, closed))
            &&& closed.payout == Transfer::payout(
                state.escrow(),
                claimed_winner,
                (2 * state.entry_amount) as u64,
            )
            &&& state.escrowed() == 2 * state.entry_amount
            &&& next.escrowed() == 0
            &&& next.status is Complete
            &&& next.wf()
        }),
{
}

/// A draw is owed. On a well-formed active game either participant draws the
/// game once the time lies strictly after its start plus the timeout. Each
/// participant is handed their own stake and the escrow is then empty.
pub proof fn theorem_draw_succeeds_after_timeout(
    state: GameState,
    player: Pubkey,
    current_time: i64,
)
    requires
        state.wf(),
        state.status == GameStatus::Active,
        player == state.initiator || Some(player) == state.challenger,
        current_time > state.started_at->0 + GAME_TIMEOUT_SECONDS,
    ensures
        ({
            let result = draw_result(
                state,
                state.game_id,
                state.initiator,
                player,
                current_time,
            );
            &&& result matches Ok((next, drawn))
            &&& drawn.initiator_refund == Transfer::payout(
                state.escrow(),
                state.initiator,
                state.entry_amount,
            )
            &&& drawn.challenger_refund == Transfer::payout(
                state.escrow(),
                state.challenger->0,
                state.entry_amount,
            )
            &&& next.escrowed() == 0
            &&& next.status == GameStatus::Draw
            &&& next.wf()
        }),
{
}

/// A cancellation is owed. On a well-formed pending game the initiator
/// cancels at any time, is handed their stake, and the escrow is then empty.
pub proof fn theorem_cancel_succeeds_while_pending(state: GameState, current_time: i64)
    requires
        state.wf(),
        state.status == GameStatus::Pending,
    ensures
        ({
            let result = cancel_result(state, state.game_id, state.initiator, current_time);
            &&& result matches Ok((next, cancelled))
            &&& cancelled.refund == Transfer::payout(
                state.escrow(),
                state.initiator,
                state.entry_amount,
            )
            &&& next.escrowed() == 0
            &&& next.status == GameStatus::Cancelled
            &&& next.wf()
        }),
{
}

/// After a successful join the escrow holds twice the stake: what it held
/// before plus the challenger's deposit.
pub proof fn theorem_join_doubles_escrow(
    state: GameState,
    game_id: u64,
    initiator: Pubkey,
    challenger: Pubkey,
    current_price: Price,
    current_time: i64,
)
    requires
        state.wf(),
        join_result(state, game_id, initiator, challenger, current_price, current_time) is Ok,
    ensures
        ({
            let (next, joined) = join_result(
                state,
                game_id,
                initiator,
                challenger,
                current_price,
                current_time,
            )->Ok_0;
            &&& next.wf()
            &&& state.escrowed() == state.entry_amount
            &&& next.escrowed() == 2 * state.entry_amount
            &&& next.escrowed() == state.escrowed() + joined.deposit.inflow(state.escrow())
            &&& joined.deposit.inflow(Account::Participant(challenger)) == -state.entry_amount
        }),
{
}

/// After a successful close the escrow is empty: the payout to the winner is
/// exactly what it held.
pub proof fn theorem_close_empties_escrow(
    state: GameState,
    game_id: u64,
    initiator: Pubkey,
    claimed_winner: Pubkey,
    final_price: Price,
    current_time: i64,
)
    requires
        state.wf(),
        close_result(state, game_id, initiator, claimed_winner, final_price, current_time) is Ok,
    ensures
        ({
            let (next, closed) = close_result(
                state,
                game_id,
                initiator,
                claimed_winner,
                final_price,
                current_time,
            )->Ok_0;
            &&& next.wf()
            &&& state.escrowed() == 2 * state.entry_amount
            &&& next.escrowed() == 0
            &&& next.escrowed() == state.escrowed() + closed.payout.inflow(state.escrow())
            &&& closed.payout.inflow(Account::Participant(claimed_winner)) == 2
                * state.entry_amount
            &&& claimed_winner == state.initiator || Some(claimed_winner) == state.challenger
        }),
{
}

/// After a successful draw the escrow is empty: the two refunds together are
/// exactly what it held, and each participant receives one stake.
pub proof fn theorem_draw_empties_escrow(
    state: GameState,
    game_id: u64,
    initiator: Pubkey,
    player: Pubkey,
    current_time: i64,
)
    requires
        state.wf(),
        draw_result(state, game_id, initiator, player, current_time) is Ok,
    ensures
        ({
            let (next, drawn) = draw_result(state, game_id, initiator, player, current_time)->Ok_0;
            &&& next.wf()
            &&& state.escrowed() == 2 * state.entry_amount
            &&& next.escrowed() == 0
            &&& next.escrowed() == state.escrowed() + drawn.initiator_refund.inflow(state.escrow())
                + drawn.challenger_refund.inflow(state.escrow())
            &&& drawn.initiator_refund.inflow(Account::Participant(state.initiator))
                == state.entry_amount
            &&& drawn.challenger_refund.inflow(Account::Participant(state.challenger->0))
                == state.entry_amount
        }),
{
}

/// After a successful cancellation the escrow is empty: the refund to the
/// initiator is exactly what it held.
pub proof fn theorem_cancel_empties_escrow(
    state: GameState,
    game_id: u64,
    initiator: Pubkey,
    current_time: i64,
)
    requires
        state.wf(),
        cancel_result(state, game_id, initiator, current_time) is Ok,
    ensures
        ({
            let (next, cancelled) = cancel_result(state, game_id, initiator, current_time)->Ok_0;
            &&& next.wf()
            &&& state.escrowed() == state.entry_amount
            &&& next.escrowed() == 0
            &&& next.escrowed() == state.escrowed() + cancelled.refund.inflow(state.escrow())
            &&& cancelled.refund.inflow(Account::Participant(state.initiator))
                == state.entry_amount
        }),
{
}

/// Every successful transition follows an edge of the lifecycle and keeps
/// the identity of the game.
pub proof fn theorem_transitions_follow_lifecycle(
    state: GameState,
    game_id: u64,
    initiator: Pubkey,
    caller: Pubkey,
    price: Price,
    current_time: i64,
)
    requires
        state.wf(),
    ensures
        join_result(state, game_id, initiator, caller, price, current_time) matches Ok((next, _))
            ==> state.status == GameStatus::Pending && next.status == GameStatus::Active
            && same_game(state, next) && next.challenger == Some(caller),
        close_result(state, game_id, initiator, caller, price, current_time) matches Ok((next, _))
            ==> state.status == GameStatus::Active && next.status is Complete && same_game(
            state,
            next,
        ),
        draw_result(state, game_id, initiator, caller, current_time) matches Ok((next, _))
            ==> state.status == GameStatus::Active && next.status == GameStatus::Draw
            && same_game(state, next),
        cancel_result(state, game_id, initiator, current_time) matches Ok((next, _))
            ==> state.status == GameStatus::Pending && next.status == GameStatus::Cancelled
            && same_game(state, next),
        join_result(state, game_id, initiator, caller, price, current_time) matches Ok((next, _))
            ==> allowed_step(state.status, next.status),
        close_result(state, game_id, initiator, caller, price, current_time) matches Ok((next, _))
            ==> allowed_step(state.status, next.status),
        draw_result(state, game_id, initiator, caller, current_time) matches Ok((next, _))
            ==> allowed_step(state.status, next.status),
        cancel_result(state, game_id, initiator, current_time) matches Ok((next, _))
            ==> allowed_step(state.status, next.status),
{
}

/// Every transition is refused on `state` with the given inputs.
pub open spec fn refuses_all(
    state: GameState,
    game_id: u64,
    initiator: Pubkey,
    caller: Pubkey,
    price: Price,
    current_time: i64,
) -> bool {
    &&& join_result(state, game_id, initiator, caller, price, current_time) is Err
    &&& close_result(state, game_id, initiator, caller, price, current_time) is Err
    &&& draw_result(state, game_id, initiator, caller, current_time) is Err
    &&& cancel_result(state, game_id, initiator, current_time) is Err
}

/// Once a game has ended, every transition is refused, whatever the inputs:
/// no state changes and no funds move a second time.
pub proof fn theorem_closed_game_refuses_all(
    state: GameState,
    game_id: u64,
    initiator: Pubkey,
    caller: Pubkey,
    price: Price,
    current_time: i64,
)
    requires
        state.closed_at is Some,
    ensures
        refuses_all(state, game_id, initiator, caller, price, current_time),
{
}

/// A caller who names an ended game correctly is told that it has ended:
/// join and cancel answer `GameAlreadyEnded`, close and draw answer
/// `GameNotActive`.
pub proof fn theorem_closed_game_reports_terminal_state(
    state: GameState,
    caller: Pubkey,
    price: Price,
    current_time: i64,
)
    requires
        state.closed_at is Some,
    ensures
        join_result(state, state.game_id, state.initiator, caller, price, current_time) == Err::<
            (GameState, JoinOutcome),
            CustomError,
        >(CustomError::GameAlreadyEnded),
        cancel_result(state, state.game_id, state.initiator, current_time) == Err::<
            (GameState, CancelOutcome),
            CustomError,
        >(CustomError::GameAlreadyEnded),
        forall|initiator: Pubkey|
            close_result(state, state.game_id, initiator, caller, price, current_time) == Err::<
                (GameState, CloseOutcome),
                CustomError,
            >(CustomError::GameNotActive),
        forall|initiator: Pubkey|
            draw_result(state, state.game_id, initiator, caller, current_time) == Err::<
                (GameState, DrawOutcome),
                CustomError,
            >(CustomError::GameNotActive),
        is_terminal_state_error(CustomError::GameAlreadyEnded),
        is_terminal_state_error(CustomError::GameNotActive),
{
}

/// Every transition that ends a game sets `closed_at`, so by the two
/// theorems above nothing can follow it.
pub proof fn theorem_settlement_is_final(
    state: GameState,
    game_id: u64,
    initiator: Pubkey,
    caller: Pubkey,
    price: Price,
    current_time: i64,
)
    ensures
        close_result(state, game_id, initiator, caller, price, current_time) matches Ok((next, _))
            ==> next.closed_at == Some(current_time) && next.status.is_terminal(),
        draw_result(state, game_id, initiator, caller, current_time) matches Ok((next, _))
            ==> next.closed_at == Some(current_time) && next.status.is_terminal(),
        cancel_result(state, game_id, initiator, current_time) matches Ok((next, _))
            ==> next.closed_at == Some(current_time) && next.status.is_terminal(),
        state.wf() ==> (state.status.is_terminal() <==> state.closed_at is Some),
{
}

/// Nothing follows the end of a game: whichever transition ended it, and
/// whatever is tried on the state it left, the second call is refused.
pub proof fn theorem_nothing_follows_the_end(
    state: GameState,
    first_game_id: u64,
    first_initiator: Pubkey,
    first_caller: Pubkey,
    first_price: Price,
    first_time: i64,
    game_id: u64,
    initiator: Pubkey,
    caller: Pubkey,
    price: Price,
    current_time: i64,
)
    ensures
        close_result(state, first_game_id, first_initiator, first_caller, first_price, first_time)
            matches Ok((next, _)) ==> refuses_all(
            next,
            game_id,
            initiator,
            caller,
            price,
            current_time,
        ),
        draw_result(state, first_game_id, first_initiator, first_caller, first_time) matches Ok(
            (next, _),
        ) ==> refuses_all(next, game_id, initiator, caller, price, current_time),
        cancel_result(state, first_game_id, first_initiator, first_time) matches Ok((next, _))
            ==> refuses_all(next, game_id, initiator, caller, price, current_time),
{
}

/// A game that is created and then cancelled by its initiator, with no
/// challenger in between, gives the initiator back exactly the stake they
/// deposited, ends as `Cancelled`, and leaves the escrow empty.
pub proof fn theorem_create_then_cancel_returns_stake(
    game_id: u64,
    initiator: Pubkey,
    prediction: PricePrediction,
    initial_price: Price,
    created_at: i64,
    bump: u8,
    cancelled_at: i64,
)
    ensures
        create_result(game_id, initiator, prediction, initial_price, created_at, bump) matches Ok(
            created,
        ) ==> {
            let result = cancel_result(created.game_state, game_id, initiator, cancelled_at);
            &&& result matches Ok((next, cancelled))
            &&& next.status == GameStatus::Cancelled
            &&& next.escrowed() == 0
            &&& cancelled.refund == Transfer::payout(
                created.game_state.escrow(),
                initiator,
                entry_amount(),
            )
            &&& cancelled.refund.amount == created.deposit.amount
            &&& created.deposit.inflow(Account::Participant(initiator)) + cancelled.refund.inflow(
                Account::Participant(initiator),
            ) == 0
            &&& created.deposit.inflow(created.game_state.escrow()) + cancelled.refund.inflow(
                created.game_state.escrow(),
            ) == 0
        },
{
}

} // verus!
