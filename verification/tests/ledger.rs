//! Transfers and the accounts they name.

use zero_sum::{create_game, Account, Price, PricePrediction, Pubkey, Transfer};

fn owner() -> Pubkey {
    Pubkey::new(7, 8)
}

#[test]
fn an_identity_is_its_two_words() {
    let key = Pubkey::new(1, 2);
    assert_eq!(key.hi, 1);
    assert_eq!(key.lo, 2);
    assert_eq!(key, Pubkey { hi: 1, lo: 2 });
    assert_ne!(key, Pubkey::new(2, 1));
    assert_ne!(key, Pubkey::new(1, 3));
}

#[test]
fn a_deposit_goes_from_the_participant_to_the_escrow() {
    let escrow = Account::Escrow { initiator: owner(), game_id: 5 };
    assert_eq!(
        Transfer::deposit(owner(), escrow, 250),
        Transfer { from: Account::Participant(owner()), to: escrow, amount: 250 }
    );
}

#[test]
fn a_payout_goes_from_the_escrow_to_the_participant() {
    let escrow = Account::Escrow { initiator: owner(), game_id: 5 };
    let other = Pubkey::new(9, 9);
    assert_eq!(
        Transfer::payout(escrow, other, 500),
        Transfer { from: escrow, to: Account::Participant(other), amount: 500 }
    );
}

#[test]
fn the_escrow_of_a_game_is_keyed_by_initiator_and_id() {
    let game = create_game(
        77,
        owner(),
        PricePrediction::Increase,
        Price { value: 1, decimals: 0 },
        0,
        3,
    )
    .expect("the reading is positive")
    .game_state;
    assert_eq!(game.escrow(), Account::Escrow { initiator: owner(), game_id: 77 });
    assert_ne!(game.escrow(), Account::Escrow { initiator: owner(), game_id: 78 });
    assert_ne!(game.escrow(), Account::Participant(owner()));
}

#[test]
fn games_of_one_initiator_have_separate_escrows() {
    let price = Price { value: 1, decimals: 0 };
    let first = create_game(1, owner(), PricePrediction::Increase, price, 0, 3)
        .expect("the reading is positive");
    let second = create_game(2, owner(), PricePrediction::Increase, price, 0, 3)
        .expect("the reading is positive");
    assert_ne!(first.deposit.to, second.deposit.to);
    assert_eq!(first.deposit.from, second.deposit.from);
}
