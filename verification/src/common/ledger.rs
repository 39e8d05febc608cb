//! Fund movements between participants and a game's escrow.
//!
//! The library moves no funds itself. Each transition returns the transfers
//! that the host's ledger has to carry out, and the amounts are chosen so
//! that the escrow always holds exactly what the game's status says.

use crate::common::pubkey::Pubkey;
use vstd::prelude::*;

verus! {

/// A holder of funds.
#[derive(Clone, Copy, Debug, PartialEq, Eq, Structural)]
pub enum Account {
    /// The escrow of the game that `initiator` created under `game_id`.
    Escrow { initiator: Pubkey, game_id: u64 },
    /// A participant's own balance.
    Participant(Pubkey),
}

/// An instruction to move `amount` base units from one holder to another.
#[derive(Clone, Copy, Debug, PartialEq, Eq, Structural)]
pub struct Transfer {
    /// The holder that gives.
    pub from: Account,
    /// The holder that receives.
    pub to: Account,
    /// How much moves, in base units.
    pub amount: u64,
}

impl Transfer {
    /// By how much this transfer raises the balance of `account`.
    pub open spec fn inflow(self, account: Account) -> int {
        (if self.to == account {
            self.amount as int
        } else {
            0
        }) - (if self.from == account {
            self.amount as int
        } else {
            0
        })
    }

    /// A deposit of `amount` by `participant` into `escrow`.
    pub open spec fn spec_deposit(participant: Pubkey, escrow: Account, amount: u64) -> Transfer {
        Transfer { from: Account::Participant(participant), to: escrow, amount }
    }

    /// A deposit of `amount` by `participant` into `escrow`.
    #[verifier::when_used_as_spec(spec_deposit)]
    pub fn deposit(participant: Pubkey, escrow: Account, amount: u64) -> (transfer: Transfer)
        ensures
            transfer == Transfer::spec_deposit(participant, escrow, amount),
    {
        Transfer { from: Account::Participant(participant), to: escrow, amount }
    }

    /// A payout of `amount` from `escrow` to `participant`.
    pub open spec fn spec_payout(escrow: Account, participant: Pubkey, amount: u64) -> Transfer {
        Transfer { from: escrow, to: Account::Participant(participant), amount }
    }

    /// A payout of `amount` from `escrow` to `participant`.
    #[verifier::when_used_as_spec(spec_payout)]
    pub fn payout(escrow: Account, participant: Pubkey, amount: u64) -> (transfer: Transfer)
        ensures
            transfer == Transfer::spec_payout(escrow, participant, amount),
    {
        Transfer { from: escrow, to: Account::Participant(participant), amount }
    }
}

} // verus!
