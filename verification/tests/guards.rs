//! The guards of the transitions and every refusal they can give.

use zero_sum::{
    cancel_game, close_game, create_game, determine_winner, draw_game, join_game, settle,
    total_payout, CustomError, GameState, GameStatus, Price, PricePrediction, Pubkey, Settlement,
};

const ID: u64 = 9;

fn alice() -> Pubkey {
    Pubkey::new(11, 12)
}

fn bob() -> Pubkey {
    Pubkey::new(21, 22)
}

fn carol() -> Pubkey {
    Pubkey::new(31, 32)
}

fn price(value: i128) -> Price {
    Price { value, decimals: 8 }
}

fn pending() -> GameState {
    create_game(ID, alice(), PricePrediction::Increase, price(100_00000000), 50, 1)
        .expect("the reading is positive")
        .game_state
}

fn active() -> GameState {
    let mut game = pending();
    join_game(&mut game, ID, alice(), bob(), price(100_00000000), 60)
        .expect("the price stood still");
    game
}

fn complete() -> GameState {
    let mut game = active();
    close_game(&mut game, ID, alice(), alice(), price(110_00000000), 70)
        .expect("a rise of ten percent");
    game
}

fn drawn() -> GameState {
    let mut game = active();
    draw_game(&mut game, ID, alice(), bob(), 60 + 1801).expect("the timeout has passed");
    game
}

fn cancelled() -> GameState {
    let mut game = pending();
    cancel_game(&mut game, ID, alice(), 55).expect("nobody joined");
    game
}

#[test]
fn predicates_read_the_stored_fields() {
    let game = pending();
    assert!(!game.is_active());
    assert!(!game.is_closed());
    assert!(game.joinable_game());
    assert!(game.is_correct_game_id(ID));
    assert!(!game.is_correct_game_id(ID + 1));

    let game = active();
    assert!(game.is_active());
    assert!(!game.is_closed());
    assert!(!game.joinable_game());

    for game in [complete(), drawn()] {
        assert!(!game.is_active());
        assert!(game.is_closed());
        assert!(!game.joinable_game());
    }
    let game = cancelled();
    assert!(!game.is_active());
    assert!(game.is_closed());
    assert!(game.joinable_game());
}

#[test]
fn is_initiator_is_true_for_the_matching_identity() {
    let game = active();
    assert!(game.is_initiator(alice()));
    assert!(!game.is_initiator(bob()));
    assert!(!game.is_initiator(carol()));
    assert!(!game.is_initiator(Pubkey::new(11, 13)));
    assert!(!game.is_initiator(Pubkey::new(10, 12)));
}

#[test]
fn is_challenger_is_true_for_the_matching_identity() {
    let game = active();
    assert!(game.is_challenger(bob()));
    assert!(!game.is_challenger(alice()));
    assert!(!game.is_challenger(carol()));
    assert!(!pending().is_challenger(bob()));
    assert!(!pending().is_challenger(alice()));
}

#[test]
fn is_player_is_true_for_both_participants_only() {
    let game = active();
    assert!(game.is_player(alice()));
    assert!(game.is_player(bob()));
    assert!(!game.is_player(carol()));
    assert!(pending().is_player(alice()));
    assert!(!pending().is_player(bob()));
}

#[test]
fn the_challenger_holds_the_opposite_prediction() {
    let mut game = pending();
    assert_eq!(game.get_challenger_prediction(), PricePrediction::Decrease);
    game.initiator_prediction = PricePrediction::Decrease;
    assert_eq!(game.get_challenger_prediction(), PricePrediction::Increase);
    assert_eq!(PricePrediction::Increase.opposite(), PricePrediction::Decrease);
    assert_eq!(PricePrediction::Decrease.opposite(), PricePrediction::Increase);
}

#[test]
fn only_the_three_final_statuses_are_terminal() {
    assert!(!GameStatus::Pending.is_terminal());
    assert!(!GameStatus::Active.is_terminal());
    assert!(GameStatus::Complete(PricePrediction::Increase).is_terminal());
    assert!(GameStatus::Complete(PricePrediction::Decrease).is_terminal());
    assert!(GameStatus::Draw.is_terminal());
    assert!(GameStatus::Cancelled.is_terminal());
}

#[test]
fn validate_join_accepts_a_stranger_on_a_pending_game() {
    assert_eq!(pending().validate_join(ID, bob(), alice()), Ok(()));
}

#[test]
fn validate_join_reports_the_first_failing_clause() {
    assert_eq!(pending().validate_join(ID + 1, bob(), alice()), Err(CustomError::IncorrectGameId));
    assert_eq!(pending().validate_join(ID, bob(), carol()), Err(CustomError::IncorrectInitiator));
    assert_eq!(cancelled().validate_join(ID, bob(), alice()), Err(CustomError::GameAlreadyEnded));
    assert_eq!(pending().validate_join(ID, alice(), alice()), Err(CustomError::CannotJoinOwnGame));
    assert_eq!(active().validate_join(ID, carol(), alice()), Err(CustomError::GameAlreadyFull));
    // Every clause fails at once: the game id is looked at first.
    assert_eq!(
        complete().validate_join(ID + 1, alice(), carol()),
        Err(CustomError::IncorrectGameId)
    );
    // The initiator comes before the ended game, the ended game before the rest.
    assert_eq!(
        complete().validate_join(ID, alice(), carol()),
        Err(CustomError::IncorrectInitiator)
    );
    assert_eq!(complete().validate_join(ID, alice(), alice()), Err(CustomError::GameAlreadyEnded));
    assert_eq!(active().validate_join(ID, alice(), alice()), Err(CustomError::CannotJoinOwnGame));
}

#[test]
fn validate_close_accepts_either_participant_of_an_active_game() {
    assert_eq!(active().validate_close(ID, alice(), alice()), Ok(()));
    assert_eq!(active().validate_close(ID, bob(), alice()), Ok(()));
}

#[test]
fn validate_close_reports_the_first_failing_clause() {
    assert_eq!(
        active().validate_close(ID + 1, alice(), alice()),
        Err(CustomError::IncorrectGameId)
    );
    assert_eq!(pending().validate_close(ID, alice(), alice()), Err(CustomError::GameNotActive));
    assert_eq!(complete().validate_close(ID, alice(), alice()), Err(CustomError::GameNotActive));
    assert_eq!(drawn().validate_close(ID, bob(), alice()), Err(CustomError::GameNotActive));
    assert_eq!(cancelled().validate_close(ID, alice(), alice()), Err(CustomError::GameNotActive));
    assert_eq!(active().validate_close(ID, carol(), alice()), Err(CustomError::NotAuthorized));
    assert_eq!(active().validate_close(ID, bob(), bob()), Err(CustomError::IncorrectInitiator));
    assert_eq!(
        pending().validate_close(ID + 1, carol(), carol()),
        Err(CustomError::IncorrectGameId)
    );
    assert_eq!(pending().validate_close(ID, carol(), carol()), Err(CustomError::GameNotActive));
    assert_eq!(active().validate_close(ID, carol(), carol()), Err(CustomError::NotAuthorized));
}

#[test]
fn validate_withdraw_accepts_the_initiator_of_a_pending_game() {
    assert_eq!(pending().validate_withdraw(ID, alice()), Ok(()));
}

#[test]
fn validate_withdraw_reports_the_first_failing_clause() {
    assert_eq!(pending().validate_withdraw(ID + 1, alice()), Err(CustomError::IncorrectGameId));
    assert_eq!(pending().validate_withdraw(ID, bob()), Err(CustomError::NotInitiator));
    assert_eq!(cancelled().validate_withdraw(ID, alice()), Err(CustomError::GameAlreadyEnded));
    assert_eq!(complete().validate_withdraw(ID, alice()), Err(CustomError::GameAlreadyEnded));
    assert_eq!(active().validate_withdraw(ID, alice()), Err(CustomError::WithdrawalBlocked));
    assert_eq!(active().validate_withdraw(ID, bob()), Err(CustomError::NotInitiator));
}

#[test]
fn a_game_that_has_not_ended_passes_the_ended_check() {
    // The guards ask that the game has NOT ended, never the reverse.
    assert!(pending().validate_join(ID, bob(), alice()).is_ok());
    assert!(pending().validate_withdraw(ID, alice()).is_ok());
    assert!(active().validate_close(ID, alice(), alice()).is_ok());
    assert!(cancelled().validate_join(ID, bob(), alice()).is_err());
    assert!(cancelled().validate_withdraw(ID, alice()).is_err());
    assert!(complete().validate_close(ID, alice(), alice()).is_err());
}

#[test]
fn is_timed_out_is_false_unless_the_game_is_active() {
    assert_eq!(pending().is_timed_out(i64::MAX), Ok(false));
    assert_eq!(cancelled().is_timed_out(i64::MAX), Ok(false));
    assert_eq!(complete().is_timed_out(i64::MAX), Ok(false));
    assert_eq!(drawn().is_timed_out(i64::MAX), Ok(false));
}

#[test]
fn is_timed_out_is_true_strictly_after_the_deadline() {
    let game = active();
    assert_eq!(game.started_at, Some(60));
    assert_eq!(game.is_timed_out(60), Ok(false));
    assert_eq!(game.is_timed_out(60 + 1799), Ok(false));
    assert_eq!(game.is_timed_out(60 + 1800), Ok(false));
    assert_eq!(game.is_timed_out(60 + 1801), Ok(true));
    assert_eq!(game.is_timed_out(i64::MAX), Ok(true));
    assert_eq!(game.is_timed_out(i64::MIN), Ok(false));
}

#[test]
fn a_deadline_beyond_the_clock_overflows() {
    let mut game = active();
    game.started_at = Some(i64::MAX - 1799);
    assert_eq!(game.is_timed_out(i64::MAX), Err(CustomError::Overflow));
    assert_eq!(draw_game(&mut game, ID, alice(), bob(), i64::MAX), Err(CustomError::Overflow));
    assert_eq!(game.status, GameStatus::Active);
    game.started_at = Some(i64::MAX - 1800);
    assert_eq!(game.is_timed_out(i64::MAX), Ok(false));
    assert_eq!(
        draw_game(&mut game, ID, alice(), bob(), i64::MAX),
        Err(CustomError::GameTimeoutNotReached)
    );
}

#[test]
fn join_is_refused_with_each_guard_error() {
    let mut game = pending();
    assert_eq!(
        join_game(&mut game, ID + 1, alice(), bob(), price(100_00000000), 60),
        Err(CustomError::IncorrectGameId)
    );
    assert_eq!(
        join_game(&mut game, ID, carol(), bob(), price(100_00000000), 60),
        Err(CustomError::IncorrectInitiator)
    );
    assert_eq!(
        join_game(&mut game, ID, alice(), alice(), price(100_00000000), 60),
        Err(CustomError::CannotJoinOwnGame)
    );
    assert_eq!(game, pending());
    let mut game = active();
    assert_eq!(
        join_game(&mut game, ID, alice(), carol(), price(100_00000000), 61),
        Err(CustomError::GameAlreadyFull)
    );
    assert_eq!(game, active());
}

#[test]
fn the_guard_is_asked_before_the_price() {
    let mut game = active();
    assert_eq!(
        join_game(&mut game, ID, alice(), carol(), price(0), 61),
        Err(CustomError::GameAlreadyFull)
    );
    let mut game = pending();
    assert_eq!(
        close_game(&mut game, ID, alice(), alice(), price(-1), 61),
        Err(CustomError::GameNotActive)
    );
}

#[test]
fn an_invalid_price_refuses_join_and_close() {
    let mut game = pending();
    assert_eq!(
        join_game(&mut game, ID, alice(), bob(), price(0), 60),
        Err(CustomError::InvalidPriceValue)
    );
    assert_eq!(game, pending());
    let mut game = active();
    assert_eq!(
        close_game(&mut game, ID, alice(), alice(), price(-5), 70),
        Err(CustomError::InvalidPriceValue)
    );
    assert_eq!(game, active());
}

#[test]
fn a_game_cannot_be_created_at_an_invalid_price() {
    for bad in [0, -1, -100_00000000, i128::MIN] {
        assert_eq!(
            create_game(ID, alice(), PricePrediction::Increase, price(bad), 50, 1),
            Err(CustomError::InvalidPriceValue)
        );
        assert_eq!(
            create_game(ID, alice(), PricePrediction::Decrease, price(bad), 50, 1),
            Err(CustomError::InvalidPriceValue)
        );
    }
    let zero_at_any_scale = Price { value: 0, decimals: 0 };
    assert_eq!(
        create_game(ID, alice(), PricePrediction::Increase, zero_at_any_scale, 50, 1),
        Err(CustomError::InvalidPriceValue)
    );
}

#[test]
fn a_game_can_be_created_at_the_smallest_and_the_largest_price() {
    for good in [1, i128::MAX] {
        let created = create_game(ID, alice(), PricePrediction::Increase, price(good), 50, 1)
            .expect("the reading is positive");
        assert_eq!(created.game_state.initial_price, price(good));
        assert_eq!(created.game_state.status, GameStatus::Pending);
        assert_eq!(created.deposit.amount, 1_000_000_000);
        assert!(created.game_state.is_well_formed());
    }
}

#[test]
fn a_stored_game_with_an_invalid_price_is_not_well_formed() {
    let mut game = pending();
    game.initial_price = price(0);
    assert!(!game.is_well_formed());
    assert_eq!(
        join_game(&mut game, ID, alice(), bob(), price(100_00000000), 60),
        Err(CustomError::InvalidPriceValue)
    );
    assert_eq!(game.status, GameStatus::Pending);
}

#[test]
fn a_price_at_an_unreachable_scale_overflows() {
    let mut game = pending();
    let far = Price { value: 1, decimals: 255 };
    assert_eq!(join_game(&mut game, ID, alice(), bob(), far, 60), Err(CustomError::Overflow));
    assert_eq!(game, pending());
    let mut game = active();
    assert_eq!(close_game(&mut game, ID, alice(), alice(), far, 70), Err(CustomError::Overflow));
    assert_eq!(game, active());
}

#[test]
fn close_is_refused_with_each_guard_error() {
    let up = price(110_00000000);
    let mut game = active();
    assert_eq!(
        close_game(&mut game, ID + 1, alice(), alice(), up, 70),
        Err(CustomError::IncorrectGameId)
    );
    assert_eq!(
        close_game(&mut game, ID, alice(), carol(), up, 70),
        Err(CustomError::NotAuthorized)
    );
    assert_eq!(
        close_game(&mut game, ID, bob(), alice(), up, 70),
        Err(CustomError::IncorrectInitiator)
    );
    assert_eq!(close_game(&mut game, ID, alice(), bob(), up, 70), Err(CustomError::NotTheWinner));
    assert_eq!(game, active());
    let mut game = pending();
    assert_eq!(
        close_game(&mut game, ID, alice(), alice(), up, 70),
        Err(CustomError::GameNotActive)
    );
    assert_eq!(game, pending());
}

#[test]
fn draw_is_refused_with_each_guard_error() {
    let late = 60 + 1801;
    let mut game = active();
    assert_eq!(
        draw_game(&mut game, ID + 1, alice(), alice(), late),
        Err(CustomError::IncorrectGameId)
    );
    assert_eq!(draw_game(&mut game, ID, alice(), carol(), late), Err(CustomError::NotAuthorized));
    assert_eq!(
        draw_game(&mut game, ID, bob(), alice(), late),
        Err(CustomError::IncorrectInitiator)
    );
    assert_eq!(game, active());
    let mut game = pending();
    assert_eq!(draw_game(&mut game, ID, alice(), alice(), late), Err(CustomError::GameNotActive));
    assert_eq!(game, pending());
}

#[test]
fn cancel_is_refused_with_each_guard_error() {
    let mut game = pending();
    assert_eq!(cancel_game(&mut game, ID + 1, alice(), 55), Err(CustomError::IncorrectGameId));
    assert_eq!(cancel_game(&mut game, ID, bob(), 55), Err(CustomError::NotInitiator));
    assert_eq!(game, pending());
    let mut game = active();
    assert_eq!(cancel_game(&mut game, ID, alice(), 65), Err(CustomError::WithdrawalBlocked));
    assert_eq!(game, active());
}

#[test]
fn the_winner_is_whoever_predicted_the_direction() {
    assert_eq!(
        determine_winner(PricePrediction::Increase, 1, alice(), bob()),
        (alice(), PricePrediction::Increase)
    );
    assert_eq!(
        determine_winner(PricePrediction::Increase, -1, alice(), bob()),
        (bob(), PricePrediction::Decrease)
    );
    assert_eq!(
        determine_winner(PricePrediction::Decrease, 1, alice(), bob()),
        (bob(), PricePrediction::Increase)
    );
    assert_eq!(
        determine_winner(PricePrediction::Decrease, -1, alice(), bob()),
        (alice(), PricePrediction::Decrease)
    );
}

#[test]
fn the_payout_is_twice_the_stake_or_an_overflow() {
    assert_eq!(total_payout(0), Ok(0));
    assert_eq!(total_payout(1_000_000_000), Ok(2_000_000_000));
    assert_eq!(total_payout(u64::MAX / 2), Ok(u64::MAX - 1));
    assert_eq!(total_payout(u64::MAX / 2 + 1), Err(CustomError::Overflow));
    assert_eq!(total_payout(u64::MAX), Err(CustomError::Overflow));
}

#[test]
fn settle_checks_the_claim_before_the_payout() {
    assert_eq!(
        settle(PricePrediction::Increase, 1, alice(), bob(), 500, alice()),
        Ok(Settlement {
            winner: alice(),
            winning_prediction: PricePrediction::Increase,
            total_payout: 1000,
        })
    );
    assert_eq!(
        settle(PricePrediction::Increase, -1, alice(), bob(), 500, bob()),
        Ok(Settlement {
            winner: bob(),
            winning_prediction: PricePrediction::Decrease,
            total_payout: 1000,
        })
    );
    assert_eq!(
        settle(PricePrediction::Increase, 1, alice(), bob(), 500, bob()),
        Err(CustomError::NotTheWinner)
    );
    assert_eq!(
        settle(PricePrediction::Increase, 1, alice(), bob(), 500, carol()),
        Err(CustomError::NotTheWinner)
    );
    assert_eq!(
        settle(PricePrediction::Increase, 1, alice(), bob(), u64::MAX, alice()),
        Err(CustomError::Overflow)
    );
    assert_eq!(
        settle(PricePrediction::Increase, 1, alice(), bob(), u64::MAX, bob()),
        Err(CustomError::NotTheWinner)
    );
}

#[test]
fn a_stake_too_large_to_double_cannot_be_paid_out() {
    let mut game = active();
    game.entry_amount = u64::MAX / 2 + 1;
    let before = game;
    assert_eq!(
        close_game(&mut game, ID, alice(), alice(), price(110_00000000), 70),
        Err(CustomError::Overflow)
    );
    assert_eq!(game, before);
    game.entry_amount = u64::MAX / 2;
    let closed = close_game(&mut game, ID, alice(), alice(), price(110_00000000), 70)
        .expect("twice the stake still fits");
    assert_eq!(closed.payout.amount, u64::MAX - 1);
}

#[test]
fn every_error_has_its_own_message() {
    let all = [
        CustomError::Overflow,
        CustomError::NotAuthorized,
        CustomError::NotTheWinner,
        CustomError::NotInitiator,
        CustomError::StalePriceFeed,
        CustomError::InvalidTokenAccount,
        CustomError::InvalidTokenMint,
        CustomError::InvalidPriceValue,
        CustomError::InvalidPrediction,
        CustomError::InvalidPriceFeed,
        CustomError::IncorrectInitiator,
        CustomError::IncorrectGameId,
        CustomError::GameNotActive,
        CustomError::GameAlreadyEnded,
        CustomError::GameAlreadyFull,
        CustomError::WithdrawalBlocked,
        CustomError::ExcessivePriceVolatility,
        CustomError::ThresholdNotReached,
        CustomError::CannotJoinOwnGame,
        CustomError::GameTimeoutNotReached,
    ];
    for (i, a) in all.iter().enumerate() {
        assert!(!a.message().is_empty());
        for b in all.iter().skip(i + 1) {
            assert_ne!(a.message(), b.message());
        }
    }
    assert_eq!(CustomError::Overflow.message(), "Arithmetic overflow");
    assert_eq!(CustomError::GameAlreadyFull.message(), "This game already has two players");
    assert_eq!(
        CustomError::ThresholdNotReached.message(),
        "Neither price threshold has been reached yet"
    );
}
