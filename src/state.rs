//! The record of one open wager.
use vstd::prelude::*;
use crate::bytes::{le_bytes, push_le};

verus! {

/// Length in bytes of a serialized bet record.
pub const BET_MESSAGE_LEN: usize = 65;

/// One open wager. It exists while the bet is open and never changes.
#[derive(Clone, Copy, Debug)]
pub struct Bet {
    /// Identity (public key) of the player who staked.
    pub player: [u8; 32],
    /// The player's nonce; with the vault it names the bet.
    pub seed: u128,
    /// Ledger counter value when the bet was placed.
    pub slot: u64,
    /// Win threshold: an outcome at or below it wins.
    pub roll: u8,
    /// The stake.
    pub amount: u64,
}

impl Bet {
    /// The wire form of the record, which the house signs:
    /// player, seed, slot, roll and amount, each fixed-width little-endian.
    pub open spec fn message(self) -> Seq<u8> {
        self.player@ + le_bytes(self.seed as nat, 16) + le_bytes(self.slot as nat, 8) + seq![
            self.roll,
        ] + le_bytes(self.amount as nat, 8)
    }

    /// Serializes the record into its signed wire form.
    pub fn to_slice(&self) -> (r: Vec<u8>)
        ensures
            r@ == self.message(),
            r@.len() == BET_MESSAGE_LEN,
    {
        let mut data: Vec<u8> = Vec::new();
        let mut i: usize = 0;
        while i < 32
            invariant
                i <= 32,
                data@ == self.player@.subrange(0, i as int),
            decreases 32 - i,
        {
            data.push(self.player[i]);
            i = i + 1;
            assert(data@ =~= self.player@.subrange(0, i as int));
        }
        assert(self.player@.subrange(0, 32) =~= self.player@);
        push_le(&mut data, self.seed, 16);
        push_le(&mut data, self.slot as u128, 8);
        data.push(self.roll);
        push_le(&mut data, self.amount as u128, 8);
        assert(data@ =~= self.message());
        data
    }
}

} // verus!
