//! The random outcome derived from a verified signature, and the payout of
//! a winning bet.
use vstd::prelude::*;
use crate::bytes::{le_value, read_le_u128};
use crate::error::DiceGameError;

verus! {

/// House edge, in basis points of the stake.
pub const HOUSE_EDGE: u128 = 150;

/// Basis points in one whole.
pub const BASIS_POINTS: u128 = 10000;

/// The SHA-256 digest of a byte string.
pub uninterp spec fn sha256_of(data: Seq<u8>) -> Seq<u8>;

/// Relies on `solana_program::hash::hash`, which returns the SHA-256 digest
/// of its input: 32 bytes that depend on the input alone.
#[verifier::external_body]
fn digest_of(data: &[u8]) -> (r: [u8; 32])
    ensures
        r@ == sha256_of(data@),
{
    solana_program::hash::hash(data).to_bytes()
}

/// The outcome that a 32-byte digest selects: its two little-endian 128-bit
/// halves are added with wraparound, reduced modulo 100, plus one.
pub open spec fn roll_of_digest(d: Seq<u8>) -> int {
    let sum = le_value(d.subrange(0, 16)) as int + le_value(d.subrange(16, 32)) as int;
    (sum % 0x1_0000_0000_0000_0000_0000_0000_0000_0000int) % 100 + 1
}

/// The outcome of a bet resolved with signature `sig`.
pub open spec fn roll_of_signature(sig: Seq<u8>) -> int {
    roll_of_digest(sha256_of(sig))
}

/// Derives the outcome, in 1 to 100, from a 32-byte digest.
pub fn roll_from_digest(digest: &[u8; 32]) -> (r: u8)
    ensures
        r as int == roll_of_digest(digest@),
        1 <= r <= 100,
{
    let upper = read_le_u128(digest, 0);
    let lower = read_le_u128(digest, 16);
    let sum = upper.wrapping_add(lower);
    proof {
        let m = 0x1_0000_0000_0000_0000_0000_0000_0000_0000int;
        let t = upper as int + lower as int;
        if t >= m {
            vstd::arithmetic::div_mod::lemma_mod_sub_multiples_vanish(t, m);
            vstd::arithmetic::div_mod::lemma_small_mod((t - m) as nat, m as nat);
        } else {
            vstd::arithmetic::div_mod::lemma_small_mod(t as nat, m as nat);
        }
        assert(sum as int == t % m);
    }
    ((sum % 100) as u8) + 1
}

/// Derives the outcome, in 1 to 100, of a bet resolved with signature `sig`.
pub fn derive_roll(sig: &[u8]) -> (r: u8)
    ensures
        r as int == roll_of_signature(sig@),
        1 <= r <= 100,
{
    let digest = digest_of(sig);
    roll_from_digest(&digest)
}

/// The payout owed on a winning stake of `amount` at threshold `roll`:
/// `amount * (10000 - 150) / roll / 100`, rounded down at each division.
pub open spec fn payout_value(amount: u64, roll: u8) -> int
    recommends
        roll > 0,
{
    amount as int * (BASIS_POINTS - HOUSE_EDGE) / roll as int / 100
}

/// The result of computing the payout: a zero threshold, or a payout that
/// does not fit a stake quantity, is an overflow.
pub open spec fn payout_result(amount: u64, roll: u8) -> Result<u64, DiceGameError> {
    if roll == 0 || payout_value(amount, roll) > u64::MAX {
        Err(DiceGameError::Overflow)
    } else {
        Ok(payout_value(amount, roll) as u64)
    }
}

/// What a bet at threshold `threshold` pays when the outcome is `outcome`:
/// the payout on a win (outcome at or below the threshold), nothing otherwise.
pub open spec fn settle_result(amount: u64, threshold: u8, outcome: u8) -> Result<u64, DiceGameError> {
    if outcome <= threshold {
        payout_result(amount, threshold)
    } else {
        Ok(0)
    }
}

/// Computes the payout on a winning stake, in a domain twice as wide as the
/// stake so that no intermediate value overflows.
pub fn compute_payout(amount: u64, roll: u8) -> (r: Result<u64, DiceGameError>)
    ensures
        r == payout_result(amount, roll),
{
    if roll == 0 {
        return Err(DiceGameError::Overflow);
    }
    let factor: u128 = BASIS_POINTS - HOUSE_EDGE;
    assert((amount as u128) * factor <= 0xffff_ffff_ffff_ffff * 9850) by (nonlinear_arith)
        requires
            factor == 9850,
            amount <= 0xffff_ffff_ffff_ffffu64,
    ;
    let scaled = (amount as u128) * factor;
    let payout = scaled / (roll as u128) / 100;
    if payout > u64::MAX as u128 {
        return Err(DiceGameError::Overflow);
    }
    Ok(payout as u64)
}

/// What a bet of `amount` at `threshold` pays for the outcome `outcome`.
pub fn settle(amount: u64, threshold: u8, outcome: u8) -> (r: Result<u64, DiceGameError>)
    ensures
        r == settle_result(amount, threshold, outcome),
{
    if outcome <= threshold {
        compute_payout(amount, threshold)
    } else {
        Ok(0)
    }
}

/// A lower threshold never pays less than a higher one, and no payout
/// exceeds `(10000 - 150) / 100` times the stake.
pub proof fn lemma_payout_monotone(amount: u64, low: u8, high: u8)
    requires
        1 <= low <= high,
    ensures
        payout_value(amount, high) <= payout_value(amount, low),
        payout_value(amount, low) * 100 <= amount as int * (BASIS_POINTS - HOUSE_EDGE),
{
    let scaled = amount as int * (BASIS_POINTS - HOUSE_EDGE);
    vstd::arithmetic::div_mod::lemma_div_is_ordered_by_denominator(scaled, low as int, high as int);
    vstd::arithmetic::div_mod::lemma_div_is_ordered(scaled / high as int, scaled / low as int, 100);
    vstd::arithmetic::div_mod::lemma_fundamental_div_mod(scaled / low as int, 100);
    vstd::arithmetic::div_mod::lemma_div_is_ordered_by_denominator(scaled, 1, low as int);
    vstd::arithmetic::div_mod::lemma_mod_pos_bound(scaled / low as int, 100);
}

} // verus!
