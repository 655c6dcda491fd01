//! The open bets of one house's escrow vault, keyed by seed, and the three
//! lifecycle operations on them. A bet is open exactly while its record is
//! stored; resolving or refunding it removes the record.
use vstd::prelude::*;
use std::collections::HashMap;
use crate::create::{place_result, CreateBet};
use crate::error::DiceGameError;
use crate::refund::{refund_result, RefundBet};
use crate::resolve::{ed25519_program_key, evidence_result, resolve_result, ResolveBet, VerifyInstruction};
use crate::state::Bet;

verus! {

broadcast use vstd::std_specs::hash::group_hash_axioms;

/// The open bets of the vault that belongs to `house`.
pub struct Vault {
    house: [u8; 32],
    bets: HashMap<u128, Bet>,
}

/// The open bets after an operation on `seed` that returned `r`: the record
/// is removed on success and untouched on failure.
pub open spec fn after_settle(bets: Map<u128, Bet>, seed: u128, r: Result<u64, DiceGameError>) -> Map<u128, Bet> {
    if r is Ok {
        bets.remove(seed)
    } else {
        bets
    }
}

/// The result of placing a bet on `seed`: a seed that is already open is
/// rejected before anything else.
pub open spec fn place_outcome(
    bets: Map<u128, Bet>,
    player: [u8; 32],
    seed: u128,
    amount: u64,
    roll: u8,
    slot: u64,
) -> Result<Bet, DiceGameError> {
    if bets.contains_key(seed) {
        Err(DiceGameError::BetAlreadyExists)
    } else {
        place_result(player, slot, amount, roll, seed)
    }
}

/// The result of a refund of `seed` requested by `caller` at `now`.
pub open spec fn refund_outcome(bets: Map<u128, Bet>, seed: u128, caller: Seq<u8>, now: u64) -> Result<u64, DiceGameError> {
    if !bets.contains_key(seed) {
        Err(DiceGameError::BetNotFound)
    } else {
        refund_result(bets[seed], caller, now)
    }
}

/// The result of resolving `seed` for `player` with signature `sig`, as
/// vouched for by the instruction `ix`.
pub open spec fn resolve_outcome(
    bets: Map<u128, Bet>,
    house: Seq<u8>,
    player: Seq<u8>,
    seed: u128,
    sig: Seq<u8>,
    ix: Option<VerifyInstruction>,
) -> Result<u64, DiceGameError> {
    if !bets.contains_key(seed) {
        Err(DiceGameError::BetNotFound)
    } else {
        resolve_result(bets[seed], player, sig, evidence_result(ed25519_program_key(), house, bets[seed], sig, ix))
    }
}

impl Vault {
    /// The open bets, by seed.
    pub closed spec fn bets(&self) -> Map<u128, Bet> {
        self.bets@
    }

    /// The house whose vault this is.
    pub closed spec fn house_key(&self) -> [u8; 32] {
        self.house
    }

    /// The house whose vault this is.
    pub fn house(&self) -> (r: [u8; 32])
        ensures
            r == self.house_key(),
    {
        self.house
    }

    /// A vault for `house`, with no open bet.
    pub fn initialize(house: [u8; 32]) -> (r: Vault)
        ensures
            r.house_key() == house,
            r.bets() == Map::<u128, Bet>::empty(),
    {
        Vault { house, bets: HashMap::new() }
    }

    /// The open bet on `seed`, if any.
    pub fn get_bet(&self, seed: u128) -> (r: Option<Bet>)
        ensures
            r == (if self.bets().contains_key(seed) {
                Some(self.bets()[seed])
            } else {
                None::<Bet>
            }),
    {
        match self.bets.get(&seed) {
            Some(b) => Some(*b),
            None => None,
        }
    }

    /// Opens a bet of `amount` at threshold `roll` for `player` on `seed`,
    /// placed when the ledger counter reads `slot`.
    pub fn place_bet(&mut self, player: [u8; 32], seed: u128, amount: u64, roll: u8, slot: u64) -> (r: Result<Bet, DiceGameError>)
        ensures
            r == place_outcome(old(self).bets(), player, seed, amount, roll, slot),
            final(self).house_key() == old(self).house_key(),
            final(self).bets() == (match r {
                Ok(b) => old(self).bets().insert(seed, b),
                Err(_) => old(self).bets(),
            }),
    {
        if self.bets.contains_key(&seed) {
            return Err(DiceGameError::BetAlreadyExists);
        }
        let ctx = CreateBet { player, slot };
        match ctx.place_bet(amount, roll, seed) {
            Err(e) => Err(e),
            Ok(bet) => {
                self.bets.insert(seed, bet);
                Ok(bet)
            },
        }
    }

    /// Refunds the stake of the bet on `seed` to `caller` once its window
    /// has passed at `now`, and closes the bet.
    pub fn refund_bet(&mut self, caller: [u8; 32], seed: u128, now: u64) -> (r: Result<u64, DiceGameError>)
        ensures
            r == refund_outcome(old(self).bets(), seed, caller@, now),
            final(self).house_key() == old(self).house_key(),
            final(self).bets() == after_settle(old(self).bets(), seed, r),
    {
        let bet = match self.bets.get(&seed) {
            None => {
                return Err(DiceGameError::BetNotFound);
            },
            Some(b) => *b,
        };
        let ctx = RefundBet { player: caller, bet, current_slot: now };
        let r = ctx.refund();
        if r.is_ok() {
            self.bets.remove(&seed);
        }
        r
    }

    /// Resolves the bet on `seed` with the house's signature `sig`, paying
    /// `player`: returns the payout (zero on a loss) and closes the bet.
    pub fn resolve_bet(&mut self, player: [u8; 32], seed: u128, sig: &[u8], ix: Option<VerifyInstruction>) -> (r: Result<u64, DiceGameError>)
        ensures
            r == resolve_outcome(old(self).bets(), old(self).house_key()@, player@, seed, sig@, ix),
            final(self).house_key() == old(self).house_key(),
            final(self).bets() == after_settle(old(self).bets(), seed, r),
    {
        let bet = match self.bets.get(&seed) {
            None => {
                return Err(DiceGameError::BetNotFound);
            },
            Some(b) => *b,
        };
        let ctx = ResolveBet { house: self.house, player, bet, instruction: ix };
        let r = ctx.resolve(sig);
        if r.is_ok() {
            self.bets.remove(&seed);
        }
        r
    }
}

/// A bet settles at most once: after a resolve or a refund of `seed` has
/// succeeded, any later resolve and any later refund of `seed` fail, because
/// the bet is no longer open.
pub proof fn lemma_settles_once(
    bets: Map<u128, Bet>,
    seed: u128,
    r: Result<u64, DiceGameError>,
    house: Seq<u8>,
    player: Seq<u8>,
    sig: Seq<u8>,
    ix: Option<VerifyInstruction>,
    caller: Seq<u8>,
    now: u64,
)
    requires
        r is Ok,
    ensures
        resolve_outcome(after_settle(bets, seed, r), house, player, seed, sig, ix) == Err::<u64, DiceGameError>(
            DiceGameError::BetNotFound,
        ),
        refund_outcome(after_settle(bets, seed, r), seed, caller, now) == Err::<u64, DiceGameError>(
            DiceGameError::BetNotFound,
        ),
{
}

} // verus!
