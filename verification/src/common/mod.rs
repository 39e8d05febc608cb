//! What every part of the game shares: constants, the vocabulary of states,
//! errors and records, identities, prices and the movement evaluator.

pub mod constants;
pub mod enums;
pub mod errors;
pub mod events;
pub mod ledger;
pub mod price;
pub mod pubkey;
pub mod utils;
pub mod wide;

pub use crate::common::constants::{
    ENTRY_AMOUNT_USDC, GAME_TIMEOUT_SECONDS, MAX_JOIN_PRICE_MOVEMENT_PERCENT, USDC_BASE_UNITS,
    USDC_DECIMALS, WIN_PRICE_THRESHOLD_PERCENT,
};
pub use crate::common::enums::{GameStatus, PricePrediction};
pub use crate::common::errors::CustomError;
pub use crate::common::events::{
    GameClosed, GameCreated, GameJoined, GameStatusDetails, PriceChanged, PriceFetched,
};
pub use crate::common::ledger::{Account, Transfer};
pub use crate::common::price::{Fraction, Price};
pub use crate::common::pubkey::Pubkey;
pub use crate::common::utils::{
    format_price, get_chainlink_price, has_price_moved_by_percentage, usdc_to_on_chain_amount,
};
