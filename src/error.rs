use vstd::prelude::*;

verus! {

/// Every way a bet operation can be rejected.
#[derive(Clone, Copy, Debug, PartialEq, Eq, Structural)]
pub enum DiceGameError {
    InvalidBetAmount,
    InvalidRollThreshold,
    InvalidPlayer,
    TimeoutNotReached,
    InvalidEd25519Instruction,
    Ed25519Program,
    InvalidEd25519Signature,
    SignerMismatch,
    SignatureMismatch,
    MessageMismatch,
    Overflow,
    ED25519ProgramError,
    ED25519AccountsError,
    ED25519SignatureMustBeOne,
    InvalidEd25519PublicKey,
    BetAlreadyExists,
    BetNotFound,
}

impl DiceGameError {
    /// The human-readable description of the error.
    pub fn message(&self) -> (r: &'static str) {
        match self {
            DiceGameError::InvalidBetAmount => "Amount must be greater than zero.",
            DiceGameError::InvalidRollThreshold => "Roll threshold must be between 1 and 99",
            DiceGameError::InvalidPlayer => "Player of bet did not match",
            DiceGameError::TimeoutNotReached => "Time not reached yet",
            DiceGameError::InvalidEd25519Instruction => "Invalid Ed25519 instruction",
            DiceGameError::Ed25519Program => "Invalid Ed25519 public key",
            DiceGameError::InvalidEd25519Signature => "Invalid Ed25519 signature",
            DiceGameError::SignerMismatch => "Signer mismatch",
            DiceGameError::SignatureMismatch => "Signature mismatch",
            DiceGameError::MessageMismatch => "Message Mismatch",
            DiceGameError::Overflow => "Overflow",
            DiceGameError::ED25519ProgramError => "ED25519 program error",
            DiceGameError::ED25519AccountsError => "ED25519 accounts length error",
            DiceGameError::ED25519SignatureMustBeOne => "Signature must be one",
            DiceGameError::InvalidEd25519PublicKey => "Invalid Ed25519 public key",
            DiceGameError::BetAlreadyExists => "A bet with this seed is already open",
            DiceGameError::BetNotFound => "No open bet with this seed",
        }
    }
}

/// Errors of the election and proposal bookkeeping that lives beside the game.
#[derive(Clone, Copy, Debug, PartialEq, Eq, Structural)]
pub enum ErrorType {
    FeeVaultOverflowed,
    ProposalCountOverflowed,
    BFSOverflowed,
    ValueOverflowed,
    VoteCountOverflowed,
    VoterUnauthorized,
    AlreadyVoted,
}

impl ErrorType {
    /// The human-readable description of the error.
    pub fn message(&self) -> (r: &'static str) {
        match self {
            ErrorType::FeeVaultOverflowed => "Fee Vault accumulated amount overflowed",
            ErrorType::ProposalCountOverflowed => "Proposal count overflowed",
            ErrorType::BFSOverflowed => "BPS cannot exceed 10000",
            ErrorType::ValueOverflowed => "Value Overflowed",
            ErrorType::VoteCountOverflowed => "Voter Count Overflowed",
            ErrorType::VoterUnauthorized => "Only voter who created account can vote",
            ErrorType::AlreadyVoted => "Already Voted",
        }
    }
}

} // verus!
