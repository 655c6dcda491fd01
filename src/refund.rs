//! Returning the stake of a bet that was never resolved.
use vstd::prelude::*;
use crate::bytes::bytes_eq;
use crate::error::DiceGameError;
use crate::state::Bet;

verus! {

/// How far the ledger counter must move past a bet's creation, and then one
/// more, before its stake may be refunded.
pub const REFUND_TIMEOUT: u64 = 1000;

/// Whether the refund window of a bet placed at `slot` has passed at `now`.
pub open spec fn timed_out(slot: u64, now: u64) -> bool {
    now > slot && now - slot > REFUND_TIMEOUT
}

/// The amount refunded to `caller` at `now`: only the bet's own player, and
/// only once the window has passed.
pub open spec fn refund_result(bet: Bet, caller: Seq<u8>, now: u64) -> Result<u64, DiceGameError> {
    if caller != bet.player@ {
        Err(DiceGameError::InvalidPlayer)
    } else if !timed_out(bet.slot, now) {
        Err(DiceGameError::TimeoutNotReached)
    } else {
        Ok(bet.amount)
    }
}

/// For the bet's own player, a refund exactly `REFUND_TIMEOUT` past the
/// bet's creation is refused, and one a single unit later succeeds.
pub proof fn lemma_refund_boundary(bet: Bet)
    requires
        bet.slot + REFUND_TIMEOUT + 1 <= u64::MAX,
    ensures
        refund_result(bet, bet.player@, (bet.slot + REFUND_TIMEOUT) as u64) == Err::<u64, DiceGameError>(
            DiceGameError::TimeoutNotReached,
        ),
        refund_result(bet, bet.player@, (bet.slot + REFUND_TIMEOUT + 1) as u64) == Ok::<u64, DiceGameError>(
            bet.amount,
        ),
{
}

/// What a refund needs: the caller, the bet and the ledger counter now.
#[derive(Clone, Copy, Debug)]
pub struct RefundBet {
    /// The caller, who must be the bet's player.
    pub player: [u8; 32],
    /// The open bet.
    pub bet: Bet,
    /// The ledger counter now.
    pub current_slot: u64,
}

impl RefundBet {
    /// The stake to return to the player.
    pub fn refund(&self) -> (r: Result<u64, DiceGameError>)
        ensures
            r == refund_result(self.bet, self.player@, self.current_slot),
    {
        if !bytes_eq(&self.player, &self.bet.player) {
            return Err(DiceGameError::InvalidPlayer);
        }
        let now = self.current_slot;
        if !(now > self.bet.slot && now - self.bet.slot > REFUND_TIMEOUT) {
            return Err(DiceGameError::TimeoutNotReached);
        }
        Ok(self.bet.amount)
    }
}

} // verus!
