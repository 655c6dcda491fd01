//! A provably-fair dice wager: a player escrows a stake against a chosen
//! threshold, the house co-signs the exact bet content, and the outcome is
//! derived from that signature. Every step of the bet lifecycle is stated
//! and proved here; moving funds and reading the host's state is left to
//! the caller.
pub mod bytes;
pub mod create;
pub mod error;
pub mod payout;
pub mod refund;
pub mod resolve;
pub mod state;
pub mod vault;
