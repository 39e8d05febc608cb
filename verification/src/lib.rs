//! A two-party, escrow-settled prediction market.
//!
//! Two counterparties stake the same amount on opposite directions of a
//! reference price. An oracle supplies the price; once it has moved far
//! enough the participant who predicted the direction takes both stakes, and
//! if it never does, either of them can call a draw after a timeout.
//!
//! The library decides and the host acts. Every transition is a function
//! from the stored [`GameState`] and what the caller, the oracle and the
//! clock supplied to either an error, which leaves the game untouched, or
//! an outcome that names the fund transfers and the records to publish. The
//! host is expected to apply a transition atomically: store the new state,
//! carry out the transfers and publish the records, or do none of it.
//!
//! Prices are fixed-point numbers and thresholds are exact fractions, so a
//! comparison that moves funds never rounds.

pub mod common;
pub mod instructions;
pub mod state;
pub mod theorems;

pub use crate::common::constants::{
    ENTRY_AMOUNT_USDC, GAME_TIMEOUT_SECONDS, MAX_JOIN_PRICE_MOVEMENT_PERCENT, USDC_BASE_UNITS,
    USDC_DECIMALS, WIN_PRICE_THRESHOLD_PERCENT,
};
pub use crate::common::enums::{GameStatus, PricePrediction};
pub use crate::common::errors::CustomError;
pub use crate::common::events::{
    GameClosed, GameCreated, GameJoined, GameStatusDetails, PriceChanged, PriceFetched,
};
pub use crate::common::ledger::{Account, Transfer};
pub use crate::common::price::{Fraction, Price};
pub use crate::common::pubkey::Pubkey;
pub use crate::common::utils::{
    format_price, get_chainlink_price, has_price_moved_by_percentage, usdc_to_on_chain_amount,
};
pub use crate::instructions::cancel_game::{cancel_game, CancelOutcome};
pub use crate::instructions::close_game::{
    close_game, determine_winner, settle, total_payout, CloseOutcome, Settlement,
};
pub use crate::instructions::create_game::{create_game, CreateOutcome};
pub use crate::instructions::draw_game::{draw_game, DrawOutcome};
pub use crate::instructions::join_game::{join_game, JoinOutcome};
pub use crate::state::game_state::GameState;
