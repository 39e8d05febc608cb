//! Whole games, played from creation to their end.

use zero_sum::{
    cancel_game, close_game, create_game, draw_game, join_game, Account, CustomError, Fraction,
    GameState, GameStatus, GameStatusDetails, Price, PricePrediction, Pubkey, Transfer,
};

const GAME_ID: u64 = 42;
const STAKE: u64 = 1000 * 1_000_000;

fn initiator() -> Pubkey {
    Pubkey::new(0, 1)
}

fn challenger() -> Pubkey {
    Pubkey::new(0, 2)
}

/// A price in dollars and cents.
fn usd(dollars: i128, cents: i128) -> Price {
    Price { value: dollars * 100 + cents, decimals: 2 }
}

fn escrow() -> Account {
    Account::Escrow { initiator: initiator(), game_id: GAME_ID }
}

fn pending_game(prediction: PricePrediction) -> GameState {
    create_game(GAME_ID, initiator(), prediction, usd(100, 0), 1_000, 254)
        .expect("the reading is positive")
        .game_state
}

fn active_game(prediction: PricePrediction, started_at: i64) -> GameState {
    let mut game = pending_game(prediction);
    join_game(&mut game, GAME_ID, initiator(), challenger(), usd(100, 50), started_at)
        .expect("a move of half a percent is within the join limit");
    game
}

#[test]
fn scenario_a_create_sets_up_a_pending_game() {
    let created =
        create_game(GAME_ID, initiator(), PricePrediction::Increase, usd(100, 0), 1_000, 254)
            .expect("the reading is positive");
    let game = created.game_state;
    assert_eq!(game.game_id, GAME_ID);
    assert_eq!(game.initiator, initiator());
    assert_eq!(game.initiator_prediction, PricePrediction::Increase);
    assert_eq!(game.challenger, None);
    assert_eq!(game.winning_prediction, None);
    assert_eq!(game.entry_amount, STAKE);
    assert_eq!(game.initial_price, usd(100, 0));
    assert_eq!(game.final_price, None);
    assert_eq!(game.created_at, 1_000);
    assert_eq!(game.started_at, None);
    assert_eq!(game.closed_at, None);
    assert_eq!(game.status, GameStatus::Pending);
    assert_eq!(game.bump, 254);
    assert_eq!(
        created.deposit,
        Transfer { from: Account::Participant(initiator()), to: escrow(), amount: STAKE }
    );
    assert_eq!(created.event.game_id, GAME_ID);
    assert_eq!(created.event.status, GameStatus::Pending);
    assert_eq!(created.event.initiator, initiator());
    assert_eq!(created.event.prediction, PricePrediction::Increase);
    assert_eq!(created.event.initial_price, usd(100, 0));
    assert_eq!(created.event.entry_amount, 1000);
    assert_eq!(created.event.timestamp, 1_000);
}

#[test]
fn scenario_a_join_at_half_a_percent_succeeds() {
    let mut game = pending_game(PricePrediction::Increase);
    let joined = join_game(&mut game, GAME_ID, initiator(), challenger(), usd(100, 50), 2_000)
        .expect("a move of half a percent is within the join limit");
    assert_eq!(game.status, GameStatus::Active);
    assert_eq!(game.challenger, Some(challenger()));
    assert_eq!(game.started_at, Some(2_000));
    assert_eq!(game.closed_at, None);
    assert_eq!(
        joined.deposit,
        Transfer { from: Account::Participant(challenger()), to: escrow(), amount: STAKE }
    );
    assert_eq!(joined.event.game_id, GAME_ID);
    assert_eq!(joined.event.status, GameStatus::Active);
    assert_eq!(joined.event.challenger, challenger());
    assert_eq!(joined.event.challenger_prediction, PricePrediction::Decrease);
    assert_eq!(joined.event.timestamp, 2_000);
    assert_eq!(joined.price_changed.initial_price, usd(100, 0));
    assert_eq!(joined.price_changed.final_price, usd(100, 50));
    assert_eq!(
        joined.price_changed.percentage_change,
        Fraction { numerator: 50, denominator: 10_000 }
    );
    assert!(!joined.price_changed.threshold_exceeded);
    assert_eq!(joined.price_changed.timestamp, 2_000);
}

#[test]
fn scenario_a_close_at_six_percent_pays_the_initiator() {
    let mut game = active_game(PricePrediction::Increase, 2_000);
    let closed = close_game(&mut game, GAME_ID, initiator(), initiator(), usd(106, 0), 3_000)
        .expect("the price rose by six percent and the initiator predicted a rise");
    assert_eq!(game.status, GameStatus::Complete(PricePrediction::Increase));
    assert_eq!(game.winning_prediction, Some(PricePrediction::Increase));
    assert_eq!(game.final_price, Some(usd(106, 0)));
    assert_eq!(game.closed_at, Some(3_000));
    assert_eq!(
        closed.payout,
        Transfer { from: escrow(), to: Account::Participant(initiator()), amount: 2000 * 1_000_000 }
    );
    assert_eq!(closed.event.game_id, GAME_ID);
    assert_eq!(closed.event.status, GameStatus::Complete(PricePrediction::Increase));
    assert_eq!(closed.event.timestamp, 3_000);
    assert_eq!(
        closed.event.details,
        GameStatusDetails::Complete {
            winner: initiator(),
            winning_prediction: PricePrediction::Increase,
            price_movement_percentage: Fraction { numerator: 600, denominator: 10_000 },
            final_price: usd(106, 0),
            total_payout: 2000 * 1_000_000,
        }
    );
    assert!(closed.price_changed.threshold_exceeded);
    assert_eq!(
        closed.price_changed.percentage_change,
        Fraction { numerator: 600, denominator: 10_000 }
    );
}

#[test]
fn scenario_a_the_loser_cannot_claim_the_stakes() {
    let mut game = active_game(PricePrediction::Increase, 2_000);
    let before = game;
    let refused = close_game(&mut game, GAME_ID, initiator(), challenger(), usd(106, 0), 3_000);
    assert_eq!(refused, Err(CustomError::NotTheWinner));
    assert_eq!(game, before);
}

#[test]
fn scenario_a_a_fall_pays_the_challenger() {
    let mut game = active_game(PricePrediction::Increase, 2_000);
    let closed = close_game(&mut game, GAME_ID, initiator(), challenger(), usd(94, 0), 3_000)
        .expect("the price fell by six percent and the challenger holds the opposite bet");
    assert_eq!(game.status, GameStatus::Complete(PricePrediction::Decrease));
    assert_eq!(closed.payout.to, Account::Participant(challenger()));
    assert_eq!(closed.payout.amount, 2 * STAKE);
    assert_eq!(
        closed.event.details,
        GameStatusDetails::Complete {
            winner: challenger(),
            winning_prediction: PricePrediction::Decrease,
            price_movement_percentage: Fraction { numerator: -600, denominator: 10_000 },
            final_price: usd(94, 0),
            total_payout: 2 * STAKE,
        }
    );
}

#[test]
fn scenario_a_an_initiator_who_predicted_a_fall_loses_to_a_rise() {
    let mut game = active_game(PricePrediction::Decrease, 2_000);
    assert_eq!(
        close_game(&mut game, GAME_ID, initiator(), initiator(), usd(106, 0), 3_000),
        Err(CustomError::NotTheWinner)
    );
    let closed = close_game(&mut game, GAME_ID, initiator(), challenger(), usd(106, 0), 3_000)
        .expect("the challenger holds the bet on a rise");
    assert_eq!(closed.payout.to, Account::Participant(challenger()));
    assert_eq!(game.status, GameStatus::Complete(PricePrediction::Increase));
}

#[test]
fn scenario_b_join_at_two_percent_is_refused() {
    let mut game = pending_game(PricePrediction::Increase);
    let before = game;
    let refused = join_game(&mut game, GAME_ID, initiator(), challenger(), usd(102, 0), 2_000);
    assert_eq!(refused, Err(CustomError::ExcessivePriceVolatility));
    assert_eq!(game, before);
    assert_eq!(game.status, GameStatus::Pending);
    assert_eq!(game.challenger, None);
}

#[test]
fn scenario_b_join_at_exactly_one_percent_is_refused() {
    let mut game = pending_game(PricePrediction::Increase);
    assert_eq!(
        join_game(&mut game, GAME_ID, initiator(), challenger(), usd(101, 0), 2_000),
        Err(CustomError::ExcessivePriceVolatility)
    );
    assert_eq!(
        join_game(&mut game, GAME_ID, initiator(), challenger(), usd(99, 0), 2_000),
        Err(CustomError::ExcessivePriceVolatility)
    );
    assert!(join_game(&mut game, GAME_ID, initiator(), challenger(), usd(100, 99), 2_000).is_ok());
}

#[test]
fn scenario_c_close_at_one_percent_is_refused() {
    let mut game = active_game(PricePrediction::Increase, 2_000);
    let before = game;
    let refused = close_game(&mut game, GAME_ID, initiator(), initiator(), usd(101, 0), 3_000);
    assert_eq!(refused, Err(CustomError::ThresholdNotReached));
    assert_eq!(game, before);
    assert_eq!(game.status, GameStatus::Active);
}

#[test]
fn scenario_c_close_at_exactly_five_percent_succeeds() {
    let mut game = active_game(PricePrediction::Increase, 2_000);
    assert_eq!(
        close_game(&mut game, GAME_ID, initiator(), initiator(), usd(104, 99), 3_000),
        Err(CustomError::ThresholdNotReached)
    );
    assert!(close_game(&mut game, GAME_ID, initiator(), initiator(), usd(105, 0), 3_000).is_ok());
}

#[test]
fn scenario_d_draw_one_second_after_the_timeout_succeeds() {
    let started_at = 10_000;
    let mut game = active_game(PricePrediction::Increase, started_at);
    let drawn = draw_game(&mut game, GAME_ID, initiator(), challenger(), started_at + 1801)
        .expect("the timeout has passed");
    assert_eq!(game.status, GameStatus::Draw);
    assert_eq!(game.closed_at, Some(started_at + 1801));
    assert_eq!(game.final_price, None);
    assert_eq!(game.winning_prediction, None);
    assert_eq!(
        drawn.initiator_refund,
        Transfer { from: escrow(), to: Account::Participant(initiator()), amount: STAKE }
    );
    assert_eq!(
        drawn.challenger_refund,
        Transfer { from: escrow(), to: Account::Participant(challenger()), amount: STAKE }
    );
    assert_eq!(drawn.event.game_id, GAME_ID);
    assert_eq!(drawn.event.status, GameStatus::Draw);
    assert_eq!(drawn.event.details, GameStatusDetails::Empty);
    assert_eq!(drawn.event.timestamp, started_at + 1801);
}

#[test]
fn scenario_d_draw_one_second_before_the_timeout_is_refused() {
    let started_at = 10_000;
    let mut game = active_game(PricePrediction::Increase, started_at);
    let before = game;
    let refused = draw_game(&mut game, GAME_ID, initiator(), challenger(), started_at + 1799);
    assert_eq!(refused, Err(CustomError::GameTimeoutNotReached));
    assert_eq!(game, before);
}

#[test]
fn scenario_d_draw_at_the_timeout_itself_is_refused() {
    let started_at = 10_000;
    let mut game = active_game(PricePrediction::Increase, started_at);
    assert_eq!(
        draw_game(&mut game, GAME_ID, initiator(), initiator(), started_at + 1800),
        Err(CustomError::GameTimeoutNotReached)
    );
    assert_eq!(game.status, GameStatus::Active);
}

#[test]
fn created_then_cancelled_game_returns_the_stake() {
    let created =
        create_game(GAME_ID, initiator(), PricePrediction::Decrease, usd(100, 0), 1_000, 7)
            .expect("the reading is positive");
    let mut game = created.game_state;
    let cancelled = cancel_game(&mut game, GAME_ID, initiator(), 1_500)
        .expect("nobody joined, so the initiator may withdraw");
    assert_eq!(game.status, GameStatus::Cancelled);
    assert_eq!(game.closed_at, Some(1_500));
    assert_eq!(game.challenger, None);
    assert_eq!(
        cancelled.refund,
        Transfer { from: escrow(), to: Account::Participant(initiator()), amount: STAKE }
    );
    assert_eq!(cancelled.refund.amount, created.deposit.amount);
    assert_eq!(cancelled.event.status, GameStatus::Cancelled);
    assert_eq!(cancelled.event.details, GameStatusDetails::Empty);
    assert_eq!(cancelled.event.timestamp, 1_500);
}
