//! The stored state of a game.

pub mod game_state;

pub use crate::state::game_state::GameState;
