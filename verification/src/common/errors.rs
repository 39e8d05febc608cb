use vstd::prelude::*;

verus! {

/// Every way a call into the game can be refused.
///
/// A refused call leaves the game exactly as it was.
#[derive(Clone, Copy, Debug, PartialEq, Eq, Structural)]
pub enum CustomError {
    /// Arithmetic overflow.
    Overflow,
    /// Caller is not a participant of the game.
    NotAuthorized,
    /// Only the winner can close the game.
    NotTheWinner,
    /// Only the initiator can withdraw from this game.
    NotInitiator,
    /// The price feed data is stale or unavailable.
    StalePriceFeed,
    /// Invalid token account.
    InvalidTokenAccount,
    /// Token mint must be the stake asset.
    InvalidTokenMint,
    /// Invalid price value received from the oracle.
    InvalidPriceValue,
    /// Prediction must be `Increase` or `Decrease`.
    InvalidPrediction,
    /// Invalid price feed.
    InvalidPriceFeed,
    /// Incorrect initiator address provided.
    IncorrectInitiator,
    /// Incorrect game id provided.
    IncorrectGameId,
    /// The game has no challenger or has already ended.
    GameNotActive,
    /// The game has already been completed or cancelled.
    GameAlreadyEnded,
    /// The game already has two players.
    GameAlreadyFull,
    /// Withdrawal is not allowed after a challenger has joined.
    WithdrawalBlocked,
    /// The price has moved too far since creation for a join.
    ExcessivePriceVolatility,
    /// The price has not moved far enough for a settlement.
    ThresholdNotReached,
    /// The initiator cannot join their own game.
    CannotJoinOwnGame,
    /// The timeout after which a draw is allowed has not passed.
    GameTimeoutNotReached,
}

impl CustomError {
    /// The text shown to a caller for each error.
    pub open spec fn spec_message(self) -> Seq<char> {
        match self {
            CustomError::Overflow => "Arithmetic overflow"@,
            CustomError::NotAuthorized => "Caller is not a participant of the game"@,
            CustomError::NotTheWinner => "Only the winner can close the game"@,
            CustomError::NotInitiator => "Only the initiator can withdraw from this game"@,
            CustomError::StalePriceFeed => "The price feed data is stale or unavailable"@,
            CustomError::InvalidTokenAccount => "Invalid token account"@,
            CustomError::InvalidTokenMint => "Token mint must be USDC"@,
            CustomError::InvalidPriceValue => "Invalid price value received from oracle"@,
            CustomError::InvalidPrediction => "Prediction must be 'Increase' or 'Decrease'"@,
            CustomError::InvalidPriceFeed => "Invalid price feed"@,
            CustomError::IncorrectInitiator => "Incorrect initiator address provided"@,
            CustomError::IncorrectGameId => "Incorrect game ID provided"@,
            CustomError::GameNotActive => {
                "Game does not exist or has not been properly initialized"@
            },
            CustomError::GameAlreadyEnded => "This game has already been completed or cancelled"@,
            CustomError::GameAlreadyFull => "This game already has two players"@,
            CustomError::WithdrawalBlocked => {
                "Withdrawal not allowed after a challenger has joined"@
            },
            CustomError::ExcessivePriceVolatility => {
                "Cannot join - price has moved more than 1% since creation"@
            },
            CustomError::ThresholdNotReached => "Neither price threshold has been reached yet"@,
            CustomError::CannotJoinOwnGame => "Cannot join your own game"@,
            CustomError::GameTimeoutNotReached => "The game timeout has not been reached yet"@,
        }
    }

    /// The text shown to a caller for each error.
    pub fn message(&self) -> (text: &'static str)
        ensures
            text@ == self.spec_message(),
    {
        match self {
            CustomError::Overflow => "Arithmetic overflow",
            CustomError::NotAuthorized => "Caller is not a participant of the game",
            CustomError::NotTheWinner => "Only the winner can close the game",
            CustomError::NotInitiator => "Only the initiator can withdraw from this game",
            CustomError::StalePriceFeed => "The price feed data is stale or unavailable",
            CustomError::InvalidTokenAccount => "Invalid token account",
            CustomError::InvalidTokenMint => "Token mint must be USDC",
            CustomError::InvalidPriceValue => "Invalid price value received from oracle",
            CustomError::InvalidPrediction => "Prediction must be 'Increase' or 'Decrease'",
            CustomError::InvalidPriceFeed => "Invalid price feed",
            CustomError::IncorrectInitiator => "Incorrect initiator address provided",
            CustomError::IncorrectGameId => "Incorrect game ID provided",
            CustomError::GameNotActive => {
                "Game does not exist or has not been properly initialized"
            },
            CustomError::GameAlreadyEnded => "This game has already been completed or cancelled",
            CustomError::GameAlreadyFull => "This game already has two players",
            CustomError::WithdrawalBlocked => {
                "Withdrawal not allowed after a challenger has joined"
            },
            CustomError::ExcessivePriceVolatility => {
                "Cannot join - price has moved more than 1% since creation"
            },
            CustomError::ThresholdNotReached => "Neither price threshold has been reached yet",
            CustomError::CannotJoinOwnGame => "Cannot join your own game",
            CustomError::GameTimeoutNotReached => "The game timeout has not been reached yet",
        }
    }
}

} // verus!
