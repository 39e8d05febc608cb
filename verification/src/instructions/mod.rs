//! The five transitions of a game.
//!
//! Each takes the stored state and what the caller, the oracle and the clock
//! supplied, and returns either an error, leaving the state untouched, or the
//! transfers and records that go with the new state.

pub mod cancel_game;
pub mod close_game;
pub mod create_game;
pub mod draw_game;
pub mod join_game;

pub use crate::instructions::cancel_game::{cancel_game, CancelOutcome};
pub use crate::instructions::close_game::{
    close_game, determine_winner, settle, total_payout, CloseOutcome, Settlement,
};
pub use crate::instructions::create_game::{create_game, CreateOutcome};
pub use crate::instructions::draw_game::{draw_game, DrawOutcome};
pub use crate::instructions::join_game::{join_game, JoinOutcome};
