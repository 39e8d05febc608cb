//! The records a transition hands to the host for publication.

use crate::common::enums::{GameStatus, PricePrediction};
use crate::common::price::{Fraction, Price};
use crate::common::pubkey::Pubkey;
use vstd::prelude::*;

verus! {

/// A price was read from the feed.
#[derive(Debug, PartialEq, Eq)]
pub struct PriceFetched {
    pub description: String,
    pub price: Price,
    pub timestamp: i64,
}

/// Two readings were compared against a threshold.
#[derive(Clone, Copy, Debug, PartialEq, Eq)]
pub struct PriceChanged {
    pub initial_price: Price,
    pub final_price: Price,
    pub percentage_change: Fraction,
    pub threshold_exceeded: bool,
    pub timestamp: i64,
}

/// A game was created and its first stake deposited.
#[derive(Clone, Copy, Debug, PartialEq, Eq)]
pub struct GameCreated {
    pub game_id: u64,
    pub status: GameStatus,
    pub initiator: Pubkey,
    pub prediction: PricePrediction,
    pub initial_price: Price,
    /// The stake in whole units of the stake asset.
    pub entry_amount: u64,
    pub timestamp: i64,
}

/// A challenger joined and the second stake was deposited.
#[derive(Clone, Copy, Debug, PartialEq, Eq)]
pub struct GameJoined {
    pub game_id: u64,
    pub status: GameStatus,
    pub challenger: Pubkey,
    pub challenger_prediction: PricePrediction,
    pub timestamp: i64,
}

/// A game reached a terminal status.
#[derive(Clone, Copy, Debug, PartialEq, Eq)]
pub struct GameClosed {
    pub game_id: u64,
    pub status: GameStatus,
    pub details: GameStatusDetails,
    pub timestamp: i64,
}

/// What a `GameClosed` record says beyond the status.
#[derive(Clone, Copy, Debug, PartialEq, Eq)]
pub enum GameStatusDetails {
    /// The game was won.
    Complete {
        winner: Pubkey,
        winning_prediction: PricePrediction,
        price_movement_percentage: Fraction,
        final_price: Price,
        total_payout: u64,
    },
    /// The game was drawn or cancelled: there is nothing to add.
    Empty,
}

} // verus!
