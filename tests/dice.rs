use dice_game::create::CreateBet;
use dice_game::error::{DiceGameError, ErrorType};
use dice_game::payout::{compute_payout, derive_roll, roll_from_digest, settle};
use dice_game::refund::RefundBet;
use dice_game::resolve::{check_signature_evidence, ResolveBet, SignatureRecord, VerifyInstruction};
use dice_game::state::Bet;
use dice_game::vault::Vault;

const PLAYER: [u8; 32] = [1u8; 32];
const HOUSE: [u8; 32] = [2u8; 32];
const SIG: [u8; 64] = [7u8; 64];

fn facility() -> [u8; 32] {
    solana_program::ed25519_program::ID.to_bytes()
}

fn sample_bet() -> Bet {
    Bet { player: PLAYER, seed: 0x0102, slot: 0x0a0b, roll: 50, amount: 1_000_000 }
}

fn good_record(bet: &Bet) -> SignatureRecord {
    SignatureRecord {
        is_verifiable: true,
        public_key: Some(HOUSE),
        signature: Some(SIG),
        message: Some(bet.to_slice()),
    }
}

fn good_instruction(bet: &Bet) -> VerifyInstruction {
    VerifyInstruction { program_id: facility(), account_count: 0, signatures: Some(vec![good_record(bet)]) }
}

fn roll_of(sig: &[u8]) -> u8 {
    roll_from_digest(&solana_program::hash::hash(sig).to_bytes())
}

#[test]
fn bet_serializes_to_fixed_layout() {
    let bet = sample_bet();
    let data = bet.to_slice();
    assert_eq!(data.len(), 65);
    assert_eq!(&data[0..32], &PLAYER[..]);
    let mut seed = [0u8; 16];
    seed[0] = 0x02;
    seed[1] = 0x01;
    assert_eq!(&data[32..48], &seed[..]);
    assert_eq!(&data[48..56], &[0x0b, 0x0a, 0, 0, 0, 0, 0, 0][..]);
    assert_eq!(data[56], 50);
    assert_eq!(&data[57..65], &1_000_000u64.to_le_bytes()[..]);
}

#[test]
fn payout_of_concrete_scenario() {
    assert_eq!(compute_payout(1_000_000, 50), Ok(1_970_000));
}

#[test]
fn settle_win_and_loss() {
    assert_eq!(settle(1_000_000, 50, 50), Ok(1_970_000));
    assert_eq!(settle(1_000_000, 50, 1), Ok(1_970_000));
    assert_eq!(settle(1_000_000, 50, 51), Ok(0));
    assert_eq!(settle(1_000_000, 50, 100), Ok(0));
}

#[test]
fn payout_zero_threshold_is_overflow() {
    assert_eq!(compute_payout(10, 0), Err(DiceGameError::Overflow));
}

#[test]
fn payout_near_max_stake_overflows() {
    assert_eq!(compute_payout(u64::MAX, 1), Err(DiceGameError::Overflow));
    assert_eq!(compute_payout(187_276_589_580_807_631, 1), Err(DiceGameError::Overflow));
    assert_eq!(compute_payout(187_276_589_580_807_630, 1), Ok(18_446_744_073_709_551_555));
}

#[test]
fn payout_non_increasing_in_threshold() {
    let amount = 123_456_789u64;
    let mut last = u64::MAX;
    for roll in 1u8..=99 {
        let p = compute_payout(amount, roll).unwrap();
        assert!(p <= last);
        assert!((p as u128) * 100 <= (amount as u128) * 9850);
        last = p;
    }
    assert_eq!(compute_payout(amount, 1), Ok(12_160_493_716));
}

#[test]
fn roll_from_known_digests() {
    assert_eq!(roll_from_digest(&[0u8; 32]), 1);
    let mut d = [0u8; 32];
    d[0] = 99;
    assert_eq!(roll_from_digest(&d), 100);
    assert_eq!(roll_from_digest(&[0xffu8; 32]), 55);
    let mut inc = [0u8; 32];
    for (i, b) in inc.iter_mut().enumerate() {
        *b = i as u8;
    }
    assert_eq!(roll_from_digest(&inc), 97);
}

#[test]
fn roll_of_signature_hashes_it() {
    assert_eq!(derive_roll(&SIG), 96);
    assert_eq!(derive_roll(&SIG), roll_of(&SIG));
    let mut head = [0u8; 32];
    head.copy_from_slice(&SIG[0..32]);
    assert_ne!(derive_roll(&SIG), roll_from_digest(&head));
}

#[test]
fn roll_always_in_range() {
    for k in 0u16..300 {
        let mut sig = [0u8; 64];
        sig[0] = (k % 256) as u8;
        sig[1] = (k / 256) as u8;
        sig[63] = 0x5a;
        let r = derive_roll(&sig);
        assert!((1..=100).contains(&r));
    }
}

#[test]
fn evidence_accepts_bound_signature() {
    let bet = sample_bet();
    let ix = Some(good_instruction(&bet));
    assert_eq!(check_signature_evidence(&facility(), &HOUSE, &bet, &SIG, &ix), Ok(()));
    let ctx = ResolveBet { house: HOUSE, player: PLAYER, bet, instruction: ix };
    assert_eq!(ctx.verify_ed25519_signature(&SIG), Ok(()));
}

#[test]
fn evidence_missing_instruction() {
    let bet = sample_bet();
    let r = check_signature_evidence(&facility(), &HOUSE, &bet, &SIG, &None);
    assert_eq!(r, Err(DiceGameError::ED25519ProgramError));
}

#[test]
fn evidence_wrong_program() {
    let bet = sample_bet();
    let mut ix = good_instruction(&bet);
    ix.program_id = [9u8; 32];
    let ctx = ResolveBet { house: HOUSE, player: PLAYER, bet, instruction: Some(ix) };
    assert_eq!(ctx.verify_ed25519_signature(&SIG), Err(DiceGameError::ED25519ProgramError));
}

#[test]
fn evidence_with_accounts() {
    let bet = sample_bet();
    let mut ix = good_instruction(&bet);
    ix.account_count = 1;
    let r = check_signature_evidence(&facility(), &HOUSE, &bet, &SIG, &Some(ix));
    assert_eq!(r, Err(DiceGameError::ED25519AccountsError));
}

#[test]
fn evidence_signature_count() {
    let bet = sample_bet();
    let mut ix = good_instruction(&bet);
    ix.signatures = Some(vec![good_record(&bet), good_record(&bet)]);
    let r = check_signature_evidence(&facility(), &HOUSE, &bet, &SIG, &Some(ix.clone()));
    assert_eq!(r, Err(DiceGameError::ED25519SignatureMustBeOne));
    ix.signatures = Some(vec![]);
    let r = check_signature_evidence(&facility(), &HOUSE, &bet, &SIG, &Some(ix.clone()));
    assert_eq!(r, Err(DiceGameError::ED25519SignatureMustBeOne));
    ix.signatures = None;
    let r = check_signature_evidence(&facility(), &HOUSE, &bet, &SIG, &Some(ix));
    assert_eq!(r, Err(DiceGameError::ED25519SignatureMustBeOne));
}

#[test]
fn evidence_not_verified() {
    let bet = sample_bet();
    let mut rec = good_record(&bet);
    rec.is_verifiable = false;
    let ix = VerifyInstruction { program_id: facility(), account_count: 0, signatures: Some(vec![rec]) };
    let r = check_signature_evidence(&facility(), &HOUSE, &bet, &SIG, &Some(ix));
    assert_eq!(r, Err(DiceGameError::InvalidEd25519Signature));
}

#[test]
fn evidence_wrong_public_key() {
    let bet = sample_bet();
    let mut rec = good_record(&bet);
    rec.public_key = Some(PLAYER);
    let ix = VerifyInstruction { program_id: facility(), account_count: 0, signatures: Some(vec![rec.clone()]) };
    let r = check_signature_evidence(&facility(), &HOUSE, &bet, &SIG, &Some(ix));
    assert_eq!(r, Err(DiceGameError::InvalidEd25519PublicKey));
    rec.public_key = None;
    let ix = VerifyInstruction { program_id: facility(), account_count: 0, signatures: Some(vec![rec]) };
    let r = check_signature_evidence(&facility(), &HOUSE, &bet, &SIG, &Some(ix));
    assert_eq!(r, Err(DiceGameError::InvalidEd25519PublicKey));
}

#[test]
fn evidence_wrong_signature_bytes() {
    let bet = sample_bet();
    let ix = Some(good_instruction(&bet));
    let other = [8u8; 64];
    let r = check_signature_evidence(&facility(), &HOUSE, &bet, &other, &ix);
    assert_eq!(r, Err(DiceGameError::InvalidEd25519Signature));
    let r = check_signature_evidence(&facility(), &HOUSE, &bet, &SIG[0..63], &ix);
    assert_eq!(r, Err(DiceGameError::InvalidEd25519Signature));
}

#[test]
fn evidence_message_mismatch() {
    let bet = sample_bet();
    let mut other = bet;
    other.amount = 999_999;
    let ix = Some(good_instruction(&other));
    let r = check_signature_evidence(&facility(), &HOUSE, &bet, &SIG, &ix);
    assert_eq!(r, Err(DiceGameError::MessageMismatch));
    let ctx = ResolveBet { house: HOUSE, player: PLAYER, bet, instruction: ix };
    assert_eq!(ctx.resolve(&SIG), Err(DiceGameError::MessageMismatch));
}

#[test]
fn resolve_pays_by_outcome() {
    let bet = sample_bet();
    let ctx = ResolveBet { house: HOUSE, player: PLAYER, bet, instruction: Some(good_instruction(&bet)) };
    let expected = if roll_of(&SIG) <= 50 { 1_970_000 } else { 0 };
    assert_eq!(ctx.resolve(&SIG), Ok(expected));
    assert_eq!(expected, 0);
}

#[test]
fn resolve_wrong_player() {
    let bet = sample_bet();
    let ctx = ResolveBet { house: HOUSE, player: HOUSE, bet, instruction: Some(good_instruction(&bet)) };
    assert_eq!(ctx.resolve(&SIG), Err(DiceGameError::InvalidPlayer));
}

#[test]
fn place_bet_validation() {
    let ctx = CreateBet { player: PLAYER, slot: 42 };
    assert_eq!(ctx.place_bet(0, 50, 1).unwrap_err(), DiceGameError::InvalidBetAmount);
    assert_eq!(ctx.place_bet(10, 0, 1).unwrap_err(), DiceGameError::InvalidRollThreshold);
    assert_eq!(ctx.place_bet(10, 100, 1).unwrap_err(), DiceGameError::InvalidRollThreshold);
    let bet = ctx.place_bet(10, 99, 3).unwrap();
    assert_eq!((bet.player, bet.seed, bet.slot, bet.roll, bet.amount), (PLAYER, 3, 42, 99, 10));
}

#[test]
fn refund_timeout_boundary() {
    let bet = Bet { player: PLAYER, seed: 1, slot: 5_000, roll: 10, amount: 77 };
    let at = RefundBet { player: PLAYER, bet, current_slot: 6_000 };
    assert_eq!(at.refund(), Err(DiceGameError::TimeoutNotReached));
    let after = RefundBet { player: PLAYER, bet, current_slot: 6_001 };
    assert_eq!(after.refund(), Ok(77));
    let before = RefundBet { player: PLAYER, bet, current_slot: 4_000 };
    assert_eq!(before.refund(), Err(DiceGameError::TimeoutNotReached));
}

#[test]
fn refund_wrong_player() {
    let bet = Bet { player: PLAYER, seed: 1, slot: 0, roll: 10, amount: 77 };
    let ctx = RefundBet { player: HOUSE, bet, current_slot: 10_000 };
    assert_eq!(ctx.refund(), Err(DiceGameError::InvalidPlayer));
}

#[test]
fn vault_rejects_duplicate_seed() {
    let mut vault = Vault::initialize(HOUSE);
    assert_eq!(vault.house(), HOUSE);
    assert!(vault.place_bet(PLAYER, 9, 100, 50, 1).is_ok());
    assert_eq!(vault.place_bet(PLAYER, 9, 200, 20, 2).unwrap_err(), DiceGameError::BetAlreadyExists);
    assert_eq!(vault.get_bet(9).unwrap().amount, 100);
    assert!(vault.place_bet(PLAYER, 10, 200, 20, 2).is_ok());
    assert_eq!(vault.place_bet(PLAYER, 11, 0, 20, 2).unwrap_err(), DiceGameError::InvalidBetAmount);
    assert!(vault.get_bet(11).is_none());
}

#[test]
fn refund_then_resolve_fails() {
    let mut vault = Vault::initialize(HOUSE);
    let bet = vault.place_bet(PLAYER, 0x0102, 1_000_000, 50, 0x0a0b).unwrap();
    assert_eq!(vault.refund_bet(PLAYER, 0x0102, 0x0a0b + 1000), Err(DiceGameError::TimeoutNotReached));
    assert_eq!(vault.refund_bet(PLAYER, 0x0102, 0x0a0b + 1001), Ok(1_000_000));
    assert!(vault.get_bet(0x0102).is_none());
    let ix = Some(good_instruction(&bet));
    assert_eq!(vault.resolve_bet(PLAYER, 0x0102, &SIG, ix), Err(DiceGameError::BetNotFound));
    assert_eq!(vault.refund_bet(PLAYER, 0x0102, 0x0a0b + 5000), Err(DiceGameError::BetNotFound));
}

#[test]
fn resolve_then_refund_fails() {
    let mut vault = Vault::initialize(HOUSE);
    let bet = vault.place_bet(PLAYER, 0x0102, 1_000_000, 50, 0x0a0b).unwrap();
    let mut wrong = bet;
    wrong.seed = 7;
    let bad = Some(good_instruction(&wrong));
    assert_eq!(vault.resolve_bet(PLAYER, 0x0102, &SIG, bad), Err(DiceGameError::MessageMismatch));
    assert!(vault.get_bet(0x0102).is_some());
    let ix = Some(good_instruction(&bet));
    assert!(vault.resolve_bet(PLAYER, 0x0102, &SIG, ix.clone()).is_ok());
    assert!(vault.get_bet(0x0102).is_none());
    assert_eq!(vault.refund_bet(PLAYER, 0x0102, 1_000_000), Err(DiceGameError::BetNotFound));
    assert_eq!(vault.resolve_bet(PLAYER, 0x0102, &SIG, ix), Err(DiceGameError::BetNotFound));
}

#[test]
fn error_messages() {
    assert_eq!(DiceGameError::InvalidBetAmount.message(), "Amount must be greater than zero.");
    assert_eq!(DiceGameError::MessageMismatch.message(), "Message Mismatch");
    assert_eq!(ErrorType::AlreadyVoted.message(), "Already Voted");
    assert_eq!(ErrorType::BFSOverflowed.message(), "BPS cannot exceed 10000");
}

#[test]
fn resolve_win_pays() {
    let bet = Bet { player: PLAYER, seed: 4, slot: 1, roll: 99, amount: 1_000_000 };
    let ctx = ResolveBet { house: HOUSE, player: PLAYER, bet, instruction: Some(good_instruction(&bet)) };
    assert_eq!(roll_of(&SIG), 96);
    assert_eq!(ctx.resolve(&SIG), Ok(994_949));
}

#[test]
fn resolve_win_overflows_at_max_stake() {
    let bet = Bet { player: PLAYER, seed: 4, slot: 1, roll: 97, amount: u64::MAX };
    let ctx = ResolveBet { house: HOUSE, player: PLAYER, bet, instruction: Some(good_instruction(&bet)) };
    assert_eq!(roll_of(&SIG), 96);
    assert_eq!(ctx.resolve(&SIG), Err(DiceGameError::Overflow));
}

#[test]
fn resolve_zero_threshold_loses() {
    let bet = Bet { player: PLAYER, seed: 4, slot: 1, roll: 0, amount: 500 };
    let ctx = ResolveBet { house: HOUSE, player: PLAYER, bet, instruction: Some(good_instruction(&bet)) };
    assert_eq!(ctx.resolve(&SIG), Ok(0));
}
