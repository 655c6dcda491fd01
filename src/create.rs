//! Placing a bet.
use vstd::prelude::*;
use crate::error::DiceGameError;
use crate::state::Bet;

verus! {

/// The lowest threshold a bet may choose.
pub const MIN_ROLL: u8 = 1;

/// The highest threshold a bet may choose.
pub const MAX_ROLL: u8 = 99;

/// The record that placing a bet yields: a stake of zero and a threshold
/// outside 1 to 99 are rejected.
pub open spec fn place_result(player: [u8; 32], slot: u64, amount: u64, roll: u8, seed: u128) -> Result<Bet, DiceGameError> {
    if amount == 0 {
        Err(DiceGameError::InvalidBetAmount)
    } else if roll < MIN_ROLL || roll > MAX_ROLL {
        Err(DiceGameError::InvalidRollThreshold)
    } else {
        Ok(Bet { player, seed, slot, roll, amount })
    }
}

/// What placing a bet needs: the staking player and the ledger counter now.
#[derive(Clone, Copy, Debug)]
pub struct CreateBet {
    /// The staking player.
    pub player: [u8; 32],
    /// The ledger counter now.
    pub slot: u64,
}

impl CreateBet {
    /// Builds the record of a new bet of `amount` at threshold `roll`.
    pub fn place_bet(&self, amount: u64, roll: u8, seed: u128) -> (r: Result<Bet, DiceGameError>)
        ensures
            r == place_result(self.player, self.slot, amount, roll, seed),
    {
        if amount == 0 {
            return Err(DiceGameError::InvalidBetAmount);
        }
        if roll < MIN_ROLL || roll > MAX_ROLL {
            return Err(DiceGameError::InvalidRollThreshold);
        }
        Ok(Bet { player: self.player, seed, slot: self.slot, roll, amount })
    }
}

} // verus!
