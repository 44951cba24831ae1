//! The records and account models the hook works on.
//!
//! The on-chain accounts that reach the program (mint, token accounts,
//! derived side-accounts) are modelled by the fields the hook's logic
//! actually reads: identities, the mint's decimal count, and the
//! latest-whale record's contents.

use crate::addr::Address;
use vstd::prelude::*;

verus! {

/// What the hook reads of the governed token's mint: its identity and its
/// fractional-digit (decimal) count.
#[derive(Clone, Copy, Debug)]
pub struct MintInfo {
    pub key: Address,
    pub decimals: u8,
}

/// What the hook reads of a token account: which mint it belongs to and
/// which owner holds authority over it.
#[derive(Clone, Copy, Debug)]
pub struct TokenAccountInfo {
    pub mint: Address,
    pub owner: Address,
}

/// The single shared record of the most recent qualifying transfer.
#[derive(Clone, Copy, Debug)]
pub struct WhaleAccount {
    pub whale_address: Address,
    pub transfer_amount: u64,
}

/// The notification emitted for every qualifying transfer; it carries the
/// same owner identity and amount that are written to the record.
#[derive(Clone, Copy, Debug)]
pub struct WhaleTransferEvent {
    pub whale_address: Address,
    pub transfer_amount: u64,
}

/// Every way a call into the program can be rejected.
#[derive(Clone, Copy, Debug, PartialEq, Eq, Structural)]
pub enum HookError {
    /// A supplied token account's declared mint differs from the supplied
    /// mint account.
    ConstraintTokenMint,
    /// The source token account's declared authority differs from the
    /// supplied owner.
    ConstraintTokenOwner,
    /// A derived account's address does not match its seed derivation, or
    /// no address can be derived from the seeds.
    ConstraintSeeds,
    /// The fallback payload does not decode to the one supported
    /// instruction.
    InvalidInstructionData,
    /// A literal seed does not fit the fixed-size seed configuration of a
    /// descriptor entry.
    SeedTooLong,
    /// The host's encoding primitive refused the descriptor list.
    EncodingFailed,
    /// A byte buffer does not hold a well-formed latest-whale record.
    MalformedRecord,
}

} // verus!
