//! The stored state of one game and the guards of its transitions.

use crate::common::constants::GAME_TIMEOUT_SECONDS;
use crate::common::enums::{GameStatus, PricePrediction};
use crate::common::errors::CustomError;
use crate::common::ledger::Account;
use crate::common::price::Price;
use crate::common::pubkey::Pubkey;
use vstd::prelude::*;

verus! {

/// One game, keyed by its initiator and `game_id`.
#[derive(Clone, Copy, Debug, PartialEq, Eq)]
pub struct GameState {
    /// Identifier of the game, unique per initiator.
    pub game_id: u64,
    /// The participant who created the game.
    pub initiator: Pubkey,
    /// The initiator's bet; the challenger always holds the opposite one.
    pub initiator_prediction: PricePrediction,
    /// The participant who joined, once there is one.
    pub challenger: Option<Pubkey>,
    /// The prediction that won, once the game is complete.
    pub winning_prediction: Option<PricePrediction>,
    /// The stake of each participant, in base units.
    pub entry_amount: u64,
    /// The price read at creation.
    pub initial_price: Price,
    /// The price read at settlement.
    pub final_price: Option<Price>,
    /// When the game was created.
    pub created_at: i64,
    /// When the challenger joined.
    pub started_at: Option<i64>,
    /// When the game reached a terminal status.
    pub closed_at: Option<i64>,
    /// Where the game stands in its lifecycle.
    pub status: GameStatus,
    /// Address bump of the stored account.
    pub bump: u8,
}

impl GameState {
    /// The game was created at a valid reading, the status agrees with the
    /// optional fields, and nobody plays against themselves.
    pub open spec fn wf(&self) -> bool {
        &&& self.initial_price.value > 0
        &&& self.challenger != Some(self.initiator)
        &&& match self.status {
            GameStatus::Pending => {
                &&& self.challenger is None
                &&& self.started_at is None
                &&& self.closed_at is None
                &&& self.final_price is None
                &&& self.winning_prediction is None
            },
            GameStatus::Active => {
                &&& self.challenger is Some
                &&& self.started_at is Some
                &&& self.closed_at is None
                &&& self.final_price is None
                &&& self.winning_prediction is None
            },
            GameStatus::Complete(prediction) => {
                &&& self.challenger is Some
                &&& self.started_at is Some
                &&& self.closed_at is Some
                &&& self.final_price is Some
                &&& self.winning_prediction == Some(prediction)
            },
            GameStatus::Draw => {
                &&& self.challenger is Some
                &&& self.started_at is Some
                &&& self.closed_at is Some
                &&& self.final_price is None
                &&& self.winning_prediction is None
            },
            GameStatus::Cancelled => {
                &&& self.challenger is None
                &&& self.started_at is None
                &&& self.closed_at is Some
                &&& self.final_price is None
                &&& self.winning_prediction is None
            },
        }
    }

    /// Tells whether the game is well formed.
    pub fn is_well_formed(&self) -> (well_formed: bool)
        ensures
            well_formed == self.wf(),
    {
        let no_self_play = match self.challenger {
            Some(challenger) => challenger != self.initiator,
            None => true,
        };
        let joined = self.challenger.is_some() && self.started_at.is_some();
        let untouched = self.challenger.is_none() && self.started_at.is_none();
        let open = self.closed_at.is_none();
        let unsettled = self.final_price.is_none() && self.winning_prediction.is_none();
        let fields_agree = match self.status {
            GameStatus::Pending => untouched && open && unsettled,
            GameStatus::Active => joined && open && unsettled,
            GameStatus::Complete(prediction) => {
                let winner_recorded = match self.winning_prediction {
                    Some(winning) => winning == prediction,
                    None => false,
                };
                joined && !open && self.final_price.is_some() && winner_recorded
            },
            GameStatus::Draw => joined && !open && unsettled,
            GameStatus::Cancelled => untouched && !open && unsettled,
        };
        self.initial_price.is_positive() && no_self_play && fields_agree
    }

    /// What the escrow of this game holds: one stake while pending, both
    /// while active, nothing once the game has ended.
    pub open spec fn escrowed(&self) -> int {
        match self.status {
            GameStatus::Pending => self.entry_amount as int,
            GameStatus::Active => 2 * self.entry_amount,
            _ => 0,
        }
    }

    /// The escrow that belongs to this game.
    pub open spec fn spec_escrow(&self) -> Account {
        Account::Escrow { initiator: self.initiator, game_id: self.game_id }
    }

    /// The escrow that belongs to this game.
    #[verifier::when_used_as_spec(spec_escrow)]
    pub fn escrow(&self) -> (account: Account)
        ensures
            account == (Account::Escrow { initiator: self.initiator, game_id: self.game_id }),
    {
        Account::Escrow { initiator: self.initiator, game_id: self.game_id }
    }

    /// True if the game has a challenger and hasn't ended.
    pub open spec fn spec_is_active(&self) -> bool {
        self.challenger is Some && self.closed_at is None
    }

    /// Returns true if the game has a challenger and hasn't ended.
    #[verifier::when_used_as_spec(spec_is_active)]
    pub fn is_active(&self) -> (active: bool)
        ensures
            active == (self.challenger is Some && self.closed_at is None),
    {
        self.challenger.is_some() && self.closed_at.is_none()
    }

    /// True if the game has ended.
    pub open spec fn spec_is_closed(&self) -> bool {
        self.closed_at is Some
    }

    /// Returns true if the game has ended.
    #[verifier::when_used_as_spec(spec_is_closed)]
    pub fn is_closed(&self) -> (closed: bool)
        ensures
            closed == (self.closed_at is Some),
    {
        self.closed_at.is_some()
    }

    /// True if the game has no challenger.
    pub open spec fn spec_joinable_game(&self) -> bool {
        self.challenger is None
    }

    /// Returns true if the game has no challenger.
    #[verifier::when_used_as_spec(spec_joinable_game)]
    pub fn joinable_game(&self) -> (joinable: bool)
        ensures
            joinable == (self.challenger is None),
    {
        self.challenger.is_none()
    }

    /// True if the given identity is the initiator.
    pub open spec fn spec_is_initiator(&self, pubkey: Pubkey) -> bool {
        pubkey == self.initiator
    }

    /// Returns true if the given identity is the initiator.
    #[verifier::when_used_as_spec(spec_is_initiator)]
    pub fn is_initiator(&self, pubkey: Pubkey) -> (same: bool)
        ensures
            same == (pubkey == self.initiator),
    {
        pubkey == self.initiator
    }

    /// True if the given identity is the challenger.
    pub open spec fn spec_is_challenger(&self, pubkey: Pubkey) -> bool {
        self.challenger == Some(pubkey)
    }

    /// Returns true if the given identity is the challenger.
    #[verifier::when_used_as_spec(spec_is_challenger)]
    pub fn is_challenger(&self, pubkey: Pubkey) -> (same: bool)
        ensures
            same == (self.challenger == Some(pubkey)),
    {
        match self.challenger {
            Some(challenger) => pubkey == challenger,
            None => false,
        }
    }

    /// True if the given identity is a participant in the game.
    pub open spec fn spec_is_player(&self, pubkey: Pubkey) -> bool {
        self.is_initiator(pubkey) || self.is_challenger(pubkey)
    }

    /// Returns true if the given identity is a participant in the game.
    #[verifier::when_used_as_spec(spec_is_player)]
    pub fn is_player(&self, pubkey: Pubkey) -> (player: bool)
        ensures
            player == (pubkey == self.initiator || self.challenger == Some(pubkey)),
    {
        self.is_initiator(pubkey) || self.is_challenger(pubkey)
    }

    /// True if the provided id matches the stored one.
    pub open spec fn spec_is_correct_game_id(&self, game_id: u64) -> bool {
        game_id == self.game_id
    }

    /// Returns true if the provided id matches the stored one.
    #[verifier::when_used_as_spec(spec_is_correct_game_id)]
    pub fn is_correct_game_id(&self, game_id: u64) -> (same: bool)
        ensures
            same == (game_id == self.game_id),
    {
        game_id == self.game_id
    }

    /// The join guard: the first clause that fails decides the error.
    pub open spec fn join_guard(&self, game_id: u64, challenger_key: Pubkey, initiator_key: Pubkey)
        -> Result<(), CustomError> {
        if game_id != self.game_id {
            Err(CustomError::IncorrectGameId)
        } else if initiator_key != self.initiator {
            Err(CustomError::IncorrectInitiator)
        } else if self.closed_at is Some {
            Err(CustomError::GameAlreadyEnded)
        } else if challenger_key == self.initiator {
            Err(CustomError::CannotJoinOwnGame)
        } else if self.challenger is Some {
            Err(CustomError::GameAlreadyFull)
        } else {
            Ok(())
        }
    }

    /// Validates whether a player can join the game.
    pub fn validate_join(
        &self,
        game_id: u64,
        challenger_key: Pubkey,
        initiator_key: Pubkey,
    ) -> (result: Result<(), CustomError>)
        ensures
            result == self.join_guard(game_id, challenger_key, initiator_key),
            result is Ok <==> {
                &&& game_id == self.game_id
                &&& initiator_key == self.initiator
                &&& self.closed_at is None
                &&& challenger_key != self.initiator
                &&& self.challenger is None
            },
    {
        if !self.is_correct_game_id(game_id) {
            return Err(CustomError::IncorrectGameId);
        }
        if !self.is_initiator(initiator_key) {
            return Err(CustomError::IncorrectInitiator);
        }
        if self.is_closed() {
            return Err(CustomError::GameAlreadyEnded);
        }
        if self.is_initiator(challenger_key) {
            return Err(CustomError::CannotJoinOwnGame);
        }
        if !self.joinable_game() {
            return Err(CustomError::GameAlreadyFull);
        }
        Ok(())
    }

    /// The guard shared by close and draw: the first clause that fails
    /// decides the error.
    pub open spec fn close_guard(&self, game_id: u64, player_key: Pubkey, initiator_key: Pubkey)
        -> Result<(), CustomError> {
        if game_id != self.game_id {
            Err(CustomError::IncorrectGameId)
        } else if !self.is_active() {
            Err(CustomError::GameNotActive)
        } else if !self.is_player(player_key) {
            Err(CustomError::NotAuthorized)
        } else if initiator_key != self.initiator {
            Err(CustomError::IncorrectInitiator)
        } else {
            Ok(())
        }
    }

    /// Validates whether a player can close the game.
    pub fn validate_close(
        &self,
        game_id: u64,
        player_key: Pubkey,
        initiator_key: Pubkey,
    ) -> (result: Result<(), CustomError>)
        ensures
            result == self.close_guard(game_id, player_key, initiator_key),
            result is Ok <==> {
                &&& game_id == self.game_id
                &&& self.challenger is Some
                &&& self.closed_at is None
                &&& (player_key == self.initiator || self.challenger == Some(player_key))
                &&& initiator_key == self.initiator
            },
    {
        if !self.is_correct_game_id(game_id) {
            return Err(CustomError::IncorrectGameId);
        }
        if !self.is_active() {
            return Err(CustomError::GameNotActive);
        }
        if !self.is_player(player_key) {
            return Err(CustomError::NotAuthorized);
        }
        if !self.is_initiator(initiator_key) {
            return Err(CustomError::IncorrectInitiator);
        }
        Ok(())
    }

    /// The withdraw guard: the first clause that fails decides the error.
    pub open spec fn withdraw_guard(&self, game_id: u64, initiator_key: Pubkey) -> Result<
        (),
        CustomError,
    > {
        if game_id != self.game_id {
            Err(CustomError::IncorrectGameId)
        } else if initiator_key != self.initiator {
            Err(CustomError::NotInitiator)
        } else if self.closed_at is Some {
            Err(CustomError::GameAlreadyEnded)
        } else if self.challenger is Some {
            Err(CustomError::WithdrawalBlocked)
        } else {
            Ok(())
        }
    }

    /// Validates whether the initiator can withdraw from an open game.
    pub fn validate_withdraw(&self, game_id: u64, initiator_key: Pubkey) -> (result: Result<
        (),
        CustomError,
    >)
        ensures
            result == self.withdraw_guard(game_id, initiator_key),
            result is Ok <==> {
                &&& game_id == self.game_id
                &&& initiator_key == self.initiator
                &&& self.closed_at is None
                &&& self.challenger is None
            },
    {
        if !self.is_correct_game_id(game_id) {
            return Err(CustomError::IncorrectGameId);
        }
        if !self.is_initiator(initiator_key) {
            return Err(CustomError::NotInitiator);
        }
        if self.is_closed() {
            return Err(CustomError::GameAlreadyEnded);
        }
        if !self.joinable_game() {
            return Err(CustomError::WithdrawalBlocked);
        }
        Ok(())
    }

    /// The prediction of the challenger: the opposite of the initiator's.
    pub open spec fn spec_get_challenger_prediction(&self) -> PricePrediction {
        self.initiator_prediction.opposite()
    }

    /// Returns the prediction for the challenger (opposite of the
    /// initiator's).
    #[verifier::when_used_as_spec(spec_get_challenger_prediction)]
    pub fn get_challenger_prediction(&self) -> (prediction: PricePrediction)
        ensures
            prediction == self.initiator_prediction.opposite(),
            prediction != self.initiator_prediction,
    {
        match self.initiator_prediction {
            PricePrediction::Increase => PricePrediction::Decrease,
            PricePrediction::Decrease => PricePrediction::Increase,
        }
    }

    /// Whether the draw deadline of a game that started at `started_at` lies
    /// strictly before `current_time`; the deadline itself must fit in 64
    /// bits.
    pub open spec fn deadline_passed(started_at: i64, current_time: i64) -> Result<
        bool,
        CustomError,
    > {
        if started_at + GAME_TIMEOUT_SECONDS > i64::MAX {
            Err(CustomError::Overflow)
        } else {
            Ok(current_time > started_at + GAME_TIMEOUT_SECONDS)
        }
    }

    /// What `is_timed_out` returns.
    pub open spec fn timed_out(&self, current_time: i64) -> Result<bool, CustomError> {
        if !self.is_active() {
            Ok(false)
        } else {
            Self::deadline_passed(self.started_at->0, current_time)
        }
    }

    /// Returns true if the game is active and more than the timeout has
    /// passed since it started.
    pub fn is_timed_out(&self, current_time: i64) -> (result: Result<bool, CustomError>)
        requires
            self.is_active() ==> self.started_at is Some,
        ensures
            result == self.timed_out(current_time),
            !self.is_active() ==> result == Ok::<bool, CustomError>(false),
            result is Err <==> self.is_active() && self.started_at->0 + GAME_TIMEOUT_SECONDS
                > i64::MAX,
            result is Err ==> result == Err::<bool, CustomError>(CustomError::Overflow),
            result == Ok::<bool, CustomError>(true) <==> self.is_active() && self.started_at->0
                + GAME_TIMEOUT_SECONDS < current_time <= i64::MAX,
    {
        if !self.is_active() {
            return Ok(false);
        }
        let start_time = self.started_at.unwrap();
        match start_time.checked_add(GAME_TIMEOUT_SECONDS) {
            Some(timeout_time) => Ok(current_time > timeout_time),
            None => Err(CustomError::Overflow),
        }
    }
}

} // verus!
