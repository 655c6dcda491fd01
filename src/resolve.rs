//! Resolution of a bet: the signature evidence is checked against the bet's
//! exact content, the outcome is derived from the signature, and the payout
//! is computed.
use vstd::prelude::*;
use crate::bytes::bytes_eq;
use crate::error::DiceGameError;
use crate::payout::{derive_roll, roll_of_signature, settle, settle_result};
use crate::state::Bet;

verus! {

/// The base58 address of the host's Ed25519 signature-verification program.
pub const ED25519_PROGRAM_ID: &'static str = "Ed25519SigVerify111111111111111111111111111";

/// The 32 bytes that a base58 public-key string decodes to.
pub uninterp spec fn pubkey_of(s: Seq<char>) -> Seq<u8>;

/// Relies on `Pubkey::from_str` of `solana_program`: the base58 decoding of
/// `s` into 32 bytes, which depends on `s` alone; `None` where it fails.
/// It fails only on more than 44 characters, a character outside base58,
/// or a decoding that is not 32 bytes wide; the verification program's
/// address is none of these (`solana_sdk_ids` declares its ID from the
/// same string).
#[verifier::external_body]
fn parse_pubkey(s: &str) -> (r: Option<[u8; 32]>)
    ensures
        r matches Some(k) ==> k@ == pubkey_of(s@),
        s@ == ED25519_PROGRAM_ID@ ==> r is Some,
{
    match <solana_program::pubkey::Pubkey as std::str::FromStr>::from_str(s) {
        Ok(k) => Some(k.to_bytes()),
        Err(_) => None,
    }
}

/// One signature entry of the host's Ed25519 verification instruction.
#[derive(Clone, Debug)]
pub struct SignatureRecord {
    /// Set when the host itself checked this signature and found it valid.
    pub is_verifiable: bool,
    /// The public key the signature was checked against.
    pub public_key: Option<[u8; 32]>,
    /// The signature that was checked.
    pub signature: Option<[u8; 64]>,
    /// The message that was signed.
    pub message: Option<Vec<u8>>,
}

/// The instruction found at the first position of the call bundle, which
/// must be the host's Ed25519 verification of the house's signature.
#[derive(Clone, Debug)]
pub struct VerifyInstruction {
    /// The program the instruction is addressed to.
    pub program_id: [u8; 32],
    /// How many accounts the instruction references.
    pub account_count: usize,
    /// Its signature entries; `None` where its data could not be unpacked.
    pub signatures: Option<Vec<SignatureRecord>>,
}

/// The verdict on one signature entry: it must be host-verified, by the
/// house's key, over exactly `sig`, and of exactly the bet's wire form.
pub open spec fn record_result(rec: SignatureRecord, house: Seq<u8>, bet: Bet, sig: Seq<u8>) -> Result<(), DiceGameError> {
    if !rec.is_verifiable {
        Err(DiceGameError::InvalidEd25519Signature)
    } else if rec.public_key is None || rec.public_key->0@ != house {
        Err(DiceGameError::InvalidEd25519PublicKey)
    } else if rec.signature is None || rec.signature->0@ != sig {
        Err(DiceGameError::InvalidEd25519Signature)
    } else if rec.message is None || rec.message->0@ != bet.message() {
        Err(DiceGameError::MessageMismatch)
    } else {
        Ok(())
    }
}

/// The verdict on the companion instruction, given the verification
/// program's address `facility`: the first failing check decides the error.
pub open spec fn evidence_result(
    facility: Seq<u8>,
    house: Seq<u8>,
    bet: Bet,
    sig: Seq<u8>,
    ix: Option<VerifyInstruction>,
) -> Result<(), DiceGameError> {
    match ix {
        None => Err(DiceGameError::ED25519ProgramError),
        Some(ix) => {
            if ix.program_id@ != facility {
                Err(DiceGameError::ED25519ProgramError)
            } else if ix.account_count != 0 {
                Err(DiceGameError::ED25519AccountsError)
            } else if ix.signatures is None || ix.signatures->0@.len() != 1 {
                Err(DiceGameError::ED25519SignatureMustBeOne)
            } else {
                record_result(ix.signatures->0@[0], house, bet, sig)
            }
        },
    }
}

/// Checks one signature entry against the house, the bet and the signature.
pub fn check_record(rec: &SignatureRecord, house: &[u8; 32], bet: &Bet, sig: &[u8]) -> (r: Result<(), DiceGameError>)
    ensures
        r == record_result(*rec, house@, *bet, sig@),
{
    if !rec.is_verifiable {
        return Err(DiceGameError::InvalidEd25519Signature);
    }
    match &rec.public_key {
        None => {
            return Err(DiceGameError::InvalidEd25519PublicKey);
        },
        Some(k) => {
            if !bytes_eq(k, house) {
                return Err(DiceGameError::InvalidEd25519PublicKey);
            }
        },
    }
    match &rec.signature {
        None => {
            return Err(DiceGameError::InvalidEd25519Signature);
        },
        Some(s) => {
            if !bytes_eq(s, sig) {
                return Err(DiceGameError::InvalidEd25519Signature);
            }
        },
    }
    match &rec.message {
        None => Err(DiceGameError::MessageMismatch),
        Some(m) => {
            let expected = bet.to_slice();
            if !bytes_eq(m.as_slice(), expected.as_slice()) {
                Err(DiceGameError::MessageMismatch)
            } else {
                Ok(())
            }
        },
    }
}

/// Checks the companion instruction, given the verification program's
/// address `facility`.
pub fn check_signature_evidence(
    facility: &[u8; 32],
    house: &[u8; 32],
    bet: &Bet,
    sig: &[u8],
    ix: &Option<VerifyInstruction>,
) -> (r: Result<(), DiceGameError>)
    ensures
        r == evidence_result(facility@, house@, *bet, sig@, *ix),
{
    match ix {
        None => Err(DiceGameError::ED25519ProgramError),
        Some(ix) => {
            if !bytes_eq(&ix.program_id, facility) {
                return Err(DiceGameError::ED25519ProgramError);
            }
            if ix.account_count != 0 {
                return Err(DiceGameError::ED25519AccountsError);
            }
            match &ix.signatures {
                None => Err(DiceGameError::ED25519SignatureMustBeOne),
                Some(sigs) => {
                    if sigs.len() != 1 {
                        Err(DiceGameError::ED25519SignatureMustBeOne)
                    } else {
                        check_record(&sigs[0], house, bet, sig)
                    }
                },
            }
        },
    }
}

/// The verification program's address.
pub open spec fn ed25519_program_key() -> Seq<u8> {
    pubkey_of(ED25519_PROGRAM_ID@)
}

/// The result of resolving `bet` for `player` with signature `sig`, once
/// the evidence check returned `check`.
pub open spec fn resolve_result(
    bet: Bet,
    player: Seq<u8>,
    sig: Seq<u8>,
    check: Result<(), DiceGameError>,
) -> Result<u64, DiceGameError> {
    if player != bet.player@ {
        Err(DiceGameError::InvalidPlayer)
    } else {
        match check {
            Err(e) => Err(e),
            Ok(()) => settle_result(bet.amount, bet.roll, roll_of_signature(sig) as u8),
        }
    }
}

/// A signature whose entry binds a message other than the bet's wire form
/// never settles the bet, as a win or as a loss; once every earlier check
/// has passed, it is rejected as a message mismatch.
pub proof fn lemma_message_binding(
    facility: Seq<u8>,
    house: Seq<u8>,
    player: Seq<u8>,
    bet: Bet,
    sig: Seq<u8>,
    ix: Option<VerifyInstruction>,
)
    requires
        ix matches Some(i) && i.signatures matches Some(s) && s@.len() == 1 && (s@[0].message is None
            || s@[0].message->0@ != bet.message()),
    ensures
        resolve_result(bet, player, sig, evidence_result(facility, house, bet, sig, ix)) is Err,
        ({
            let rec = ix->0.signatures->0@[0];
            &&& player == bet.player@
            &&& ix->0.program_id@ == facility
            &&& ix->0.account_count == 0
            &&& rec.is_verifiable
            &&& rec.public_key matches Some(k) && k@ == house
            &&& rec.signature matches Some(g) && g@ == sig
        }) ==> resolve_result(bet, player, sig, evidence_result(facility, house, bet, sig, ix))
            == Err::<u64, DiceGameError>(DiceGameError::MessageMismatch),
{
}

/// What resolving an open bet needs: the house, the account that receives
/// the payout, the bet, and the first instruction of the call bundle.
#[derive(Clone, Debug)]
pub struct ResolveBet {
    /// The house, whose key must have signed the bet.
    pub house: [u8; 32],
    /// The account that receives the payout; it must be the bet's player.
    pub player: [u8; 32],
    /// The open bet.
    pub bet: Bet,
    /// The first instruction of the call bundle, if it could be loaded.
    pub instruction: Option<VerifyInstruction>,
}

impl ResolveBet {
    /// Confirms that `sig` is the house's signature over this bet, as
    /// checked by the host's verification program.
    pub fn verify_ed25519_signature(&self, sig: &[u8]) -> (r: Result<(), DiceGameError>)
        ensures
            r == evidence_result(ed25519_program_key(), self.house@, self.bet, sig@, self.instruction),
    {
        match parse_pubkey(ED25519_PROGRAM_ID) {
            None => Err(DiceGameError::ED25519ProgramError),
            Some(facility) => check_signature_evidence(&facility, &self.house, &self.bet, sig, &self.instruction),
        }
    }

    /// Resolves the bet: the amount to pay the player, zero on a loss.
    pub fn resolve(&self, sig: &[u8]) -> (r: Result<u64, DiceGameError>)
        ensures
            r == resolve_result(self.bet, self.player@, sig@,
                evidence_result(ed25519_program_key(), self.house@, self.bet, sig@, self.instruction)),
    {
        if !bytes_eq(&self.player, &self.bet.player) {
            return Err(DiceGameError::InvalidPlayer);
        }
        match self.verify_ed25519_signature(sig) {
            Err(e) => Err(e),
            Ok(()) => {
                let outcome = derive_roll(sig);
                settle(self.bet.amount, self.bet.roll, outcome)
            },
        }
    }
}

} // verus!
