use vstd::prelude::*;

verus! {

/// The direction a participant bets the price will take.
#[derive(Clone, Copy, Debug, PartialEq, Eq, Structural)]
pub enum PricePrediction {
    Increase,
    Decrease,
}

impl PricePrediction {
    /// The other direction.
    pub open spec fn spec_opposite(self) -> PricePrediction {
        match self {
            PricePrediction::Increase => PricePrediction::Decrease,
            PricePrediction::Decrease => PricePrediction::Increase,
        }
    }

    /// The other direction.
    #[verifier::when_used_as_spec(spec_opposite)]
    pub fn opposite(self) -> (other: PricePrediction)
        ensures
            other == self.spec_opposite(),
            other != self,
    {
        match self {
            PricePrediction::Increase => PricePrediction::Decrease,
            PricePrediction::Decrease => PricePrediction::Increase,
        }
    }
}

/// Where a game stands in its lifecycle.
#[derive(Clone, Copy, Debug, PartialEq, Eq, Structural)]
pub enum GameStatus {
    /// Both stakes are in escrow and the game awaits settlement.
    Active,
    /// Created, waiting for a second player to join.
    Pending,
    /// Ended with a winner; holds the winning prediction.
    Complete(PricePrediction),
    /// Ended in a draw after the timeout.
    Draw,
    /// Cancelled before another player joined.
    Cancelled,
}

impl GameStatus {
    /// True for the three statuses from which no transition leaves.
    pub open spec fn spec_is_terminal(self) -> bool {
        self is Complete || self is Draw || self is Cancelled
    }

    /// True for the three statuses from which no transition leaves.
    #[verifier::when_used_as_spec(spec_is_terminal)]
    pub fn is_terminal(self) -> (terminal: bool)
        ensures
            terminal == self.spec_is_terminal(),
    {
        match self {
            GameStatus::Active | GameStatus::Pending => false,
            GameStatus::Complete(_) | GameStatus::Draw | GameStatus::Cancelled => true,
        }
    }
}

} // verus!
